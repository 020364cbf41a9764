//! The error taxonomy of the escrow core.
//!
//! Every rejected operation reports a distinct, distinguishable kind, and no
//! operation commits a partial mutation: each either succeeds whole or returns
//! one of these values with the record untouched.

use vstd::prelude::*;

verus! {

/// Why an escrow operation was rejected.
#[derive(Clone, Copy, Debug, PartialEq, Eq, Structural)]
pub enum LockerError {
    /// Creation asked for a cliff that precedes the vesting start.
    InvalidVestingStartTime,
    /// Creation carried a recipient-update mode outside the recognized range.
    InvalidUpdateRecipientMode,
    /// Creation asked for a period length of zero seconds.
    FrequencyIsZero,
    /// An amount computation would exceed the unsigned 64-bit domain.
    ArithmeticOverflow,
    /// An amount computation would fall below zero.
    ArithmeticUnderflow,
    /// The requester is not permitted to perform the operation.
    Unauthorized,
    /// The custody collaborator reported a balance too small for a transfer.
    InsufficientCustody,
}

} // verus!
