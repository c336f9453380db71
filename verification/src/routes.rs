//! The routing table: which handler serves which method and path.

use crate::text::same_text;
use vstd::prelude::*;

verus! {

/// The request methods that the service has routes for.
#[derive(Clone, Copy, Debug, PartialEq, Eq, Structural)]
pub enum Method {
    Get,
    Post,
}

/// The handlers of the service, one for each route.
#[derive(Clone, Copy, Debug, PartialEq, Eq, Structural)]
pub enum Handler {
    Root,
    HealthCheck,
    Echo,
    Metrics,
}

/// The method that `handler` is reached by.
pub open spec fn method_of(handler: Handler) -> Method {
    match handler {
        Handler::Root => Method::Get,
        Handler::HealthCheck => Method::Get,
        Handler::Echo => Method::Post,
        Handler::Metrics => Method::Get,
    }
}

/// The path that `handler` is reached at.
pub open spec fn path_of(handler: Handler) -> Seq<char> {
    match handler {
        Handler::Root => "/"@,
        Handler::HealthCheck => "/health"@,
        Handler::Echo => "/api/echo"@,
        Handler::Metrics => "/api/metrics"@,
    }
}

/// Whether a request with this method for this path is one for `handler`.
pub open spec fn serves(handler: Handler, method: Method, path: Seq<char>) -> bool {
    method_of(handler) == method && path_of(handler) == path
}

/// The routing table, in the order in which the routes are registered.
pub open spec fn route_table() -> Seq<Handler> {
    seq![Handler::Root, Handler::HealthCheck, Handler::Echo, Handler::Metrics]
}

impl Handler {
    /// The method that this handler is reached by.
    pub fn method(&self) -> (method: Method)
        ensures
            method == method_of(*self),
    {
        match self {
            Handler::Root => Method::Get,
            Handler::HealthCheck => Method::Get,
            Handler::Echo => Method::Post,
            Handler::Metrics => Method::Get,
        }
    }

    /// The path that this handler is reached at.
    pub fn path(&self) -> (path: &'static str)
        ensures
            path@ == path_of(*self),
    {
        match self {
            Handler::Root => "/",
            Handler::HealthCheck => "/health",
            Handler::Echo => "/api/echo",
            Handler::Metrics => "/api/metrics",
        }
    }
}

/// The routing table: every handler, once.
pub fn routes() -> (table: Vec<Handler>)
    ensures
        table@ == route_table(),
{
    vec![Handler::Root, Handler::HealthCheck, Handler::Echo, Handler::Metrics]
}

/// No two handlers are reached by the same method at the same path, so a
/// request is for one handler at most.
pub proof fn lemma_one_handler_per_route(a: Handler, b: Handler, method: Method, path: Seq<char>)
    requires
        serves(a, method, path),
        serves(b, method, path),
    ensures
        a == b,
{
    reveal_strlit("/");
    reveal_strlit("/health");
    reveal_strlit("/api/echo");
    reveal_strlit("/api/metrics");
    if a != b {
        assert(path_of(a).len() != path_of(b).len());
    }
}

/// Every handler stands in the routing table, and none stands there twice.
pub proof fn lemma_route_table_is_complete(handler: Handler)
    ensures
        route_table().contains(handler),
        route_table().no_duplicates(),
{
    let i: int = match handler {
        Handler::Root => 0,
        Handler::HealthCheck => 1,
        Handler::Echo => 2,
        Handler::Metrics => 3,
    };
    assert(route_table()[i] == handler);
}

/// Finds the handler for a request: the one whose method and path are those
/// of the request, letter for letter. A request that no route matches has
/// none.
pub fn dispatch(method: Method, path: &str) -> (found: Option<Handler>)
    ensures
        match found {
            Some(handler) => serves(handler, method, path@),
            None => forall|handler: Handler| !serves(handler, method, path@),
        },
{
    let table = routes();
    let mut i: usize = 0;
    while i < table.len()
        invariant
            i <= table@.len(),
            table@ == route_table(),
            forall|j: int| 0 <= j < i ==> !serves(#[trigger] table@[j], method, path@),
        decreases table@.len() - i,
    {
        let handler = table[i];
        if handler.method() == method && same_text(handler.path(), path) {
            return Some(handler);
        }
        i += 1;
    }
    proof {
        assert forall|handler: Handler| !serves(handler, method, path@) by {
            lemma_route_table_is_complete(handler);
            let j = choose|j: int| 0 <= j < route_table().len() && route_table()[j] == handler;
            assert(table@[j] == handler);
        }
    }
    None
}

} // verus!
