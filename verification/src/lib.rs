//! A token vesting escrow: a sender deposits fungible tokens that unlock to a
//! recipient over a cliff-plus-linear-periods schedule.
//!
//! The crate holds the accounting core of such an escrow: checked arithmetic
//! over the 64-bit amount domain, the schedule record and its derived-amount
//! computations, claim settlement, the recipient-update authorization rules,
//! and the optional descriptive metadata record. Custody transfers, signer
//! verification and persistence are collaborators outside this crate: every
//! operation here is a pure computation from explicit inputs (including the
//! current time) to a new record state and an instructed transfer amount.

pub mod errors;
pub mod instructions;
pub mod safe_math;
pub mod state;
