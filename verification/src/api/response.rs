//! Error answers.

use vstd::prelude::*;
use vstd::string::*;

verus! {

/// The status of a request that is not valid.
pub const BAD_REQUEST: u16 = 400;

/// The status of a request for something that is not there.
pub const NOT_FOUND: u16 = 404;

/// The status of a failure on the service's side.
pub const INTERNAL_SERVER_ERROR: u16 = 500;

/// An error answer: an HTTP status and a message.
#[derive(Debug, Clone)]
pub struct ApiError {
    pub status: u16,
    pub message: String,
}

impl ApiError {
    /// The error is the given status with the given message.
    pub open spec fn is(self, status: u16, message: Seq<char>) -> bool {
        self.status == status && self.message@ == message
    }

    /// An error with the given status and message.
    pub fn new(status: u16, message: &str) -> (r: ApiError)
        ensures
            r.is(status, message@),
    {
        ApiError { status, message: message.to_owned() }
    }
}

} // verus!
