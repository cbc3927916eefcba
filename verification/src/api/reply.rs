//! The body of every answer: a message and, where there is one, data.

use vstd::prelude::*;

verus! {

/// The answer to a request.
#[derive(Debug, Clone, PartialEq, Eq)]
pub struct Reply<Message, Data> {
    pub message: Message,
    pub data: Data,
}

/// The data of an answer that carries none.
#[derive(Debug, Clone, Copy, PartialEq, Eq, Structural)]
pub struct EmptyData;

/// The message of an answer to a request that failed where nothing should fail.
pub const INTERNAL_ERROR_MSG: &'static str = "internal server error";

/// HTTP status 200.
pub const OK: u16 = 200;

/// HTTP status 400.
pub const BAD_REQUEST: u16 = 400;

/// HTTP status 401.
pub const UNAUTHORIZED: u16 = 401;

/// HTTP status 500.
pub const INTERNAL_SERVER_ERROR: u16 = 500;

/// The status and body of the answer to a request that failed unexpectedly.
pub fn unexpected_error_reply() -> (answer: (u16, Reply<&'static str, EmptyData>))
    ensures
        answer.0 == UNAUTHORIZED,
        answer.1.message@ == "internal server error"@,
{
    proof { reveal_strlit("internal server error"); }
    (UNAUTHORIZED, Reply { message: INTERNAL_ERROR_MSG, data: EmptyData })
}

} // verus!
