//! The two fixed replies: the greeting at the root and the liveness probe.

use vstd::prelude::*;

verus! {

/// Body of the reply to the liveness probe.
#[derive(Clone, Debug, PartialEq, Eq)]
pub struct HealthResponse {
    pub status: String,
    pub message: String,
}

/// What a [`HealthResponse`] says, as text.
pub struct HealthResponseView {
    pub status: Seq<char>,
    pub message: Seq<char>,
}

impl View for HealthResponse {
    type V = HealthResponseView;

    open spec fn view(&self) -> HealthResponseView {
        HealthResponseView { status: self.status@, message: self.message@ }
    }
}

/// The one reply that the liveness probe ever gives.
pub open spec fn health_reply() -> HealthResponseView {
    HealthResponseView { status: "ok"@, message: "JARVIS backend is running!"@ }
}

/// The one text that the root ever answers with.
pub open spec fn greeting() -> Seq<char> {
    "Welcome to JARVIS! 🤖"@
}

/// Answers the liveness probe. It reads nothing and keeps nothing, so every
/// call gives [`health_reply`].
pub fn health_check() -> (r: HealthResponse)
    ensures
        r@ == health_reply(),
{
    HealthResponse { status: "ok".to_owned(), message: "JARVIS backend is running!".to_owned() }
}

/// Answers a request for the root with [`greeting`].
pub fn root() -> (r: &'static str)
    ensures
        r@ == greeting(),
{
    "Welcome to JARVIS! 🤖"
}

/// The liveness probe keeps no state: any two of its replies are the same,
/// whatever was served before or between them, and both say "ok".
pub proof fn lemma_health_replies_are_identical(first: HealthResponse, second: HealthResponse)
    requires
        first@ == health_reply(),
        second@ == health_reply(),
    ensures
        first@ == second@,
        first@.status == "ok"@,
{
}

} // verus!
