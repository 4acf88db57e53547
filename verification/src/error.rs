//! The ways in which an invocation can fail.

use vstd::prelude::*;

verus! {

/// Why an invocation was refused. Every error ends the invocation; nothing is
/// retried, and the persisted records are left as they were.
#[derive(Clone, Copy, Debug, PartialEq, Eq, Structural)]
pub enum ContractError {
    /// An address handed in at initialization has no canonical form.
    Validation,
    /// A record that must exist is missing: the contract was never initialized.
    State,
    /// No stake in the settlement denomination, or one below the minimum bet.
    InsufficientFunds,
    /// The oracle gave no answer that could be read.
    Oracle,
    /// The oracle's randomness is too short to hold a winning number.
    Data,
    /// Nobody has won yet.
    NotFound,
}

/// The outcome of an invocation as a mathematical value: what it gave by its
/// view, an error as it is.
pub open spec fn outcome_view<T: View>(res: Result<T, ContractError>) -> Result<T::V, ContractError> {
    match res {
        Ok(value) => Ok(value@),
        Err(e) => Err(e),
    }
}

} // verus!
