//! The failure taxonomy of the ledger.
//!
//! Every operation either applies in full or fails with one of these kinds,
//! leaving the aggregate unchanged.  The kinds are specific enough for a
//! caller to distinguish transient conditions (`InsufficientFundsError`)
//! from permanent ones (`InvalidStateError`, `DuplicateError`).

use vstd::prelude::*;

verus! {

/// A typed failure of a ledger operation.
#[derive(Clone, Copy, Debug, PartialEq, Eq, Structural)]
pub enum DaoError {
    /// The caller lacks the required role, admin, or signer status.
    UnauthorizedError,
    /// A referenced member, claim, dispute, or risk profile does not exist.
    NotFoundError,
    /// The member already joined, or the verifier or voter already acted.
    DuplicateError,
    /// The operation is not valid for the entity's current status.
    InvalidStateError,
    /// A malformed payload, an out-of-range field, or a failed proof check.
    ValidationError,
    /// The claim amount exceeds the coverage limit of the claimant's bucket.
    LimitExceededError,
    /// The payout would breach the treasury's reserve requirement.
    InsufficientFundsError,
    /// Checked arithmetic would wrap.
    ArithmeticOverflowError,
}

} // verus!
