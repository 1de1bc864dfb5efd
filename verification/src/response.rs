//! What a handler tells the server to send back.

use vstd::prelude::*;

verus! {

/// The answer to a request. No answer of this service carries a body, so the
/// outcome is the status line alone.
#[derive(Clone, Copy, Debug, PartialEq, Eq, Structural)]
pub enum HttpOutcome {
    /// 200: the request was carried out.
    Success,
    /// 400: the request's body is not a complete submission.
    BadRequest,
    /// 500: the store did not take the row.
    InternalServerError,
}

impl HttpOutcome {
    /// The status code on the wire.
    pub open spec fn status_code(self) -> u16 {
        match self {
            HttpOutcome::Success => 200,
            HttpOutcome::BadRequest => 400,
            HttpOutcome::InternalServerError => 500,
        }
    }

    /// The bytes of the response body: none, whatever the outcome.
    pub open spec fn payload(self) -> Seq<u8> {
        Seq::empty()
    }

    /// The status code to send.
    pub fn status(&self) -> (code: u16)
        ensures
            code == self.status_code(),
    {
        match self {
            HttpOutcome::Success => 200,
            HttpOutcome::BadRequest => 400,
            HttpOutcome::InternalServerError => 500,
        }
    }

    /// The body to send: empty.
    pub fn body(&self) -> (bytes: Vec<u8>)
        ensures
            bytes@ == self.payload(),
            bytes@.len() == 0,
    {
        Vec::new()
    }

    /// Whether the status is in the 2xx range.
    pub fn is_success(&self) -> (yes: bool)
        ensures
            yes == (200 <= self.status_code() < 300),
            yes == (*self == HttpOutcome::Success),
    {
        match self {
            HttpOutcome::Success => true,
            _ => false,
        }
    }
}

} // verus!
