//! Why a trusted call was not applied.

use crate::types::{AccountId, Index};
use vstd::prelude::*;

verus! {

#[derive(Debug)]
pub enum StfError {
    /// The sender is not allowed to make this call.
    MissingPrivileges(AccountId),
    /// Only the enclave's own account may make this call.
    RequireEnclaveSignerAccount,
    /// The ledger refused the operation, for the reason given.
    Dispatch(String),
    /// The confidential balance does not cover the amount.
    MissingFunds,
    /// The call's nonce is not the sender's current nonce, which is given.
    InvalidNonce(Index),
}

/// An error as a mathematical value: a dispatch failure by the characters of its reason.
pub enum Failure {
    MissingPrivileges(AccountId),
    RequireEnclaveSignerAccount,
    Dispatch(Seq<char>),
    MissingFunds,
    InvalidNonce(Index),
}

impl StfError {
    pub open spec fn view(&self) -> Failure {
        match self {
            StfError::MissingPrivileges(a) => Failure::MissingPrivileges(*a),
            StfError::RequireEnclaveSignerAccount => Failure::RequireEnclaveSignerAccount,
            StfError::Dispatch(s) => Failure::Dispatch(s@),
            StfError::MissingFunds => Failure::MissingFunds,
            StfError::InvalidNonce(n) => Failure::InvalidNonce(*n),
        }
    }
}

/// A result with its error, if any, seen as a [`Failure`].
pub open spec fn outcome_view(r: Result<(), StfError>) -> Result<(), Failure> {
    match r {
        Ok(()) => Ok(()),
        Err(e) => Err(e.view()),
    }
}

} // verus!
