//! The token that names one listen registration.

use vstd::prelude::*;

verus! {

/// Names one registration that `listen_on` made on a transport.
///
/// The token is a plain number. A transport hands out a number that it has not
/// handed out before; two tokens are the same registration exactly when their
/// numbers are equal.
#[derive(Clone, Copy, Debug, PartialEq, Eq, Hash, Structural)]
pub struct ListenerId(u64);

impl View for ListenerId {
    type V = u64;

    closed spec fn view(&self) -> u64 {
        self.0
    }
}

impl ListenerId {
    /// The token with the number `raw`.
    pub fn new(raw: u64) -> (id: ListenerId)
        ensures
            id@ == raw,
    {
        ListenerId(raw)
    }

    /// The token's number.
    pub fn raw(&self) -> (raw: u64)
        ensures
            raw == self@,
    {
        self.0
    }

    /// Two tokens with the same number are the same token.
    pub proof fn lemma_same_number_same_token(a: ListenerId, b: ListenerId)
        ensures
            a@ == b@ <==> a == b,
    {
    }
}

} // verus!
