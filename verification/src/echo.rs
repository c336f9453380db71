//! The echo endpoint: a message comes back as it was sent, with its length
//! in bytes.

use crate::text::byte_length;
use vstd::prelude::*;

verus! {

/// Body of a request to the echo endpoint.
#[derive(Clone, Debug, PartialEq, Eq)]
pub struct EchoRequest {
    pub message: String,
}

/// Body of the reply of the echo endpoint.
#[derive(Clone, Debug, PartialEq, Eq)]
pub struct EchoResponse {
    /// The message as it was sent.
    pub echo: String,
    /// Length of the message in bytes of UTF-8, not in characters.
    pub length: usize,
}

/// What an [`EchoResponse`] says: the text and its length.
pub struct EchoResponseView {
    pub echo: Seq<char>,
    pub length: nat,
}

impl View for EchoRequest {
    type V = Seq<char>;

    open spec fn view(&self) -> Seq<char> {
        self.message@
    }
}

impl View for EchoResponse {
    type V = EchoResponseView;

    open spec fn view(&self) -> EchoResponseView {
        EchoResponseView { echo: self.echo@, length: self.length as nat }
    }
}

/// The reply that a message calls for: the message itself and its byte
/// length.
pub open spec fn echo_of(message: Seq<char>) -> EchoResponseView {
    EchoResponseView { echo: message, length: byte_length(message) }
}

/// Answers an echo request. The reply depends on the request alone.
pub fn echo_handler(payload: EchoRequest) -> (r: EchoResponse)
    ensures
        r@ == echo_of(payload@),
{
    let message_length = payload.message.as_str().as_bytes().len();
    EchoResponse { echo: payload.message, length: message_length }
}

} // verus!
