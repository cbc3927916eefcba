//! The request-scoped module that a middleware places in each request.

use vstd::prelude::*;
use crate::api::reply::INTERNAL_SERVER_ERROR;

verus! {

/// A request lacks the module that the middleware should have placed in it.
#[derive(Debug, Clone, Copy, PartialEq, Eq, Structural)]
pub struct ExtractTxnScopeError;

impl ExtractTxnScopeError {
    pub fn message(&self) -> (text: &'static str)
        ensures
            text@ == "TxnScope is missing in request extensions"@,
    {
        proof { reveal_strlit("TxnScope is missing in request extensions"); }
        "TxnScope is missing in request extensions"
    }

    /// The status of the answer: 500.
    pub fn status(&self) -> (code: u16)
        ensures
            code == INTERNAL_SERVER_ERROR,
    {
        INTERNAL_SERVER_ERROR
    }
}

} // verus!
