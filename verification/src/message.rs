//! Request and response messages: a framed payload carried to or from a
//! transport. The payload type is opaque to this crate; the capability
//! contract only moves whole messages across the boundary.

use vstd::prelude::*;

verus! {

/// An inbound request message carrying a request body.
///
/// Ownership of a request transfers to the transport when it is dispatched;
/// the caller must not reuse it afterwards.
#[derive(Debug, PartialEq, Eq)]
pub struct Request<B> {
    /// The framed request payload, opaque to this crate.
    pub body: B,
}

impl<B> Request<B> {
    /// Wraps a payload as a request message.
    pub fn new(body: B) -> (r: Self)
        ensures
            r.body == body,
    {
        Request { body }
    }

    /// Unwraps the message, handing the payload back.
    pub fn into_body(self) -> (b: B)
        ensures
            b == self.body,
    {
        self.body
    }
}

/// An outbound response message carrying a response body.
#[derive(Debug, PartialEq, Eq)]
pub struct Response<B> {
    /// The streamed response payload; a capability with its own error channel.
    pub body: B,
}

impl<B> Response<B> {
    /// Wraps a payload as a response message.
    pub fn new(body: B) -> (r: Self)
        ensures
            r.body == body,
    {
        Response { body }
    }

    /// Unwraps the message, handing the payload back.
    pub fn into_body(self) -> (b: B)
        ensures
            b == self.body,
    {
        self.body
    }
}

} // verus!
