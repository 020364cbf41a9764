//! The persistent records of the escrow and their derived-amount computations.
//!
//! [`VestingEscrow`] is the schedule record: immutable after creation except
//! for `total_claimed_amount` and, under the rules of
//! [`UpdateRecipientMode`], `recipient`. [`VestingEscrowMetadata`] is the
//! optional descriptive record attached to one escrow; its fields have no
//! accounting effect.

use vstd::prelude::*;
use vstd::arithmetic::div_mod::{
    lemma_div_is_ordered,
    lemma_div_multiples_vanish,
    lemma_div_pos_is_pos,
};

use crate::errors::LockerError;
use crate::safe_math::{lemma_mul_nonneg_le, safe_sub};

verus! {

/// The identity of a party or record, as the surrounding ledger names it.
///
/// The accounting core only ever compares identities for equality, so a
/// single machine word stands for whatever address form the ledger uses.
#[derive(Clone, Copy, Debug, PartialEq, Eq, Structural)]
pub struct Pubkey {
    pub key: u64,
}

/// Who may reassign the recipient of an escrow; fixed at creation.
#[derive(Clone, Copy, Debug, PartialEq, Eq, Structural)]
pub enum UpdateRecipientMode {
    /// Neither sender nor recipient may update.
    NoOneCanUpdate,
    /// Only the original sender may update.
    OnlySenderCanUpdate,
    /// Only the current recipient may update.
    OnlyRecipientCanUpdate,
    /// Either sender or recipient may update.
    EitherCanUpdate,
}

/// The mode a recognized wire-level integer denotes; meaningful for `v <= 3`.
pub open spec fn spec_mode_from_u8(v: u8) -> UpdateRecipientMode {
    if v == 0 {
        UpdateRecipientMode::NoOneCanUpdate
    } else if v == 1 {
        UpdateRecipientMode::OnlySenderCanUpdate
    } else if v == 2 {
        UpdateRecipientMode::OnlyRecipientCanUpdate
    } else {
        UpdateRecipientMode::EitherCanUpdate
    }
}

impl UpdateRecipientMode {
    /// Validated conversion from the wire-level integer: invalid integers
    /// never materialize as a variant.
    pub fn try_from_u8(v: u8) -> (r: Result<UpdateRecipientMode, LockerError>)
        ensures
            v <= 3 ==> r == Ok::<UpdateRecipientMode, LockerError>(spec_mode_from_u8(v)),
            v > 3 ==> r == Err::<UpdateRecipientMode, LockerError>(
                LockerError::InvalidUpdateRecipientMode,
            ),
    {
        if v == 0 {
            Ok(UpdateRecipientMode::NoOneCanUpdate)
        } else if v == 1 {
            Ok(UpdateRecipientMode::OnlySenderCanUpdate)
        } else if v == 2 {
            Ok(UpdateRecipientMode::OnlyRecipientCanUpdate)
        } else if v == 3 {
            Ok(UpdateRecipientMode::EitherCanUpdate)
        } else {
            Err(LockerError::InvalidUpdateRecipientMode)
        }
    }

    /// The wire-level integer this mode is stored as.
    pub fn as_u8(&self) -> (r: u8)
        ensures
            r <= 3,
            spec_mode_from_u8(r) == *self,
    {
        match self {
            UpdateRecipientMode::NoOneCanUpdate => 0,
            UpdateRecipientMode::OnlySenderCanUpdate => 1,
            UpdateRecipientMode::OnlyRecipientCanUpdate => 2,
            UpdateRecipientMode::EitherCanUpdate => 3,
        }
    }
}

/// One vesting escrow: the schedule, the accumulated claims, and the parties.
#[derive(Clone, Copy, Debug, PartialEq, Eq, Structural)]
pub struct VestingEscrow {
    /// When the schedule nominally begins; never after `cliff_time`.
    pub vesting_start_time: u64,
    /// The instant before which nothing is unlockable.
    pub cliff_time: u64,
    /// Seconds per linear period after the cliff; never zero.
    pub frequency: u64,
    /// The amount that unlocks at the cliff instant.
    pub cliff_unlock_amount: u64,
    /// The amount that unlocks at the end of each period after the cliff.
    pub amount_per_period: u64,
    /// How many equal linear unlocks follow the cliff.
    pub number_of_period: u64,
    /// How much has been paid out so far; monotonically non-decreasing.
    pub total_claimed_amount: u64,
    /// The party entitled to claim; mutable only under `update_recipient_mode`.
    pub recipient: Pubkey,
    /// The depositing party; immutable after creation.
    pub sender: Pubkey,
    /// The token type escrowed; immutable after creation.
    pub mint: Pubkey,
    /// Who may reassign `recipient`; immutable after creation.
    pub update_recipient_mode: UpdateRecipientMode,
}

impl VestingEscrow {
    /// The total deposited at creation: the ceiling for all future claims.
    pub open spec fn spec_total_deposit_amount(self) -> int {
        self.cliff_unlock_amount + self.amount_per_period * self.number_of_period
    }

    /// How many whole periods of the schedule have elapsed at time `t`,
    /// clamped to `[0, number_of_period]`.
    pub open spec fn spec_elapsed_periods(self, t: int) -> int {
        if t < self.cliff_time {
            0
        } else {
            let p = (t - self.cliff_time) / (self.frequency as int);
            if p < self.number_of_period {
                p
            } else {
                self.number_of_period as int
            }
        }
    }

    /// The cumulative amount the recipient is entitled to as of time `t`,
    /// independent of how much has already been paid out.
    pub open spec fn spec_unlocked_amount(self, t: int) -> int {
        if t < self.cliff_time {
            0
        } else {
            self.cliff_unlock_amount + self.amount_per_period * self.spec_elapsed_periods(t)
        }
    }

    /// The amount a claim at time `t` with ceiling `max_amount` settles:
    /// whatever is newly unlocked, capped by the caller's ceiling.
    pub open spec fn spec_claimable_amount(self, t: int, max_amount: u64) -> int {
        let available = self.spec_unlocked_amount(t) - self.total_claimed_amount;
        if max_amount <= available {
            max_amount as int
        } else {
            available
        }
    }

    /// Well-formedness: what creation establishes and every operation keeps.
    pub open spec fn wf(self) -> bool {
        &&& self.cliff_time >= self.vesting_start_time
        &&& self.frequency > 0
        &&& self.spec_total_deposit_amount() <= u64::MAX
        &&& self.total_claimed_amount <= self.spec_total_deposit_amount()
    }

    /// Whether `signer` may reassign the recipient under the stored mode.
    pub open spec fn spec_can_update_recipient(self, signer: Pubkey) -> bool {
        match self.update_recipient_mode {
            UpdateRecipientMode::NoOneCanUpdate => false,
            UpdateRecipientMode::OnlySenderCanUpdate => signer == self.sender,
            UpdateRecipientMode::OnlyRecipientCanUpdate => signer == self.recipient,
            UpdateRecipientMode::EitherCanUpdate => signer == self.sender
                || signer == self.recipient,
        }
    }

    /// Exposes well-formedness to unverified callers, so they can establish
    /// the precondition of the accounting operations before calling them.
    pub fn is_well_formed(&self) -> (r: bool)
        ensures
            r == self.wf(),
    {
        let periodic = match self.amount_per_period.checked_mul(self.number_of_period) {
            Some(v) => v,
            None => {
                return false;
            },
        };
        let total = match self.cliff_unlock_amount.checked_add(periodic) {
            Some(v) => v,
            None => {
                return false;
            },
        };
        self.cliff_time >= self.vesting_start_time && self.frequency > 0
            && self.total_claimed_amount <= total
    }

    /// The total deposit the custody collaborator was instructed to move in
    /// at creation, recomputed from the schedule fields.
    pub fn total_deposit_amount(&self) -> (r: u64)
        requires
            self.wf(),
        ensures
            r == self.spec_total_deposit_amount(),
    {
        proof {
            lemma_mul_nonneg_le(
                self.amount_per_period as int,
                self.number_of_period as int,
                self.number_of_period as int,
            );
        }
        self.cliff_unlock_amount + self.amount_per_period * self.number_of_period
    }

    /// The cumulative unlocked amount at `current_time`: zero before the
    /// cliff, then the cliff unlock plus one `amount_per_period` for each
    /// whole elapsed period, saturating at the total deposit.
    pub fn unlocked_amount(&self, current_time: u64) -> (r: u64)
        requires
            self.wf(),
        ensures
            r == self.spec_unlocked_amount(current_time as int),
            r <= self.spec_total_deposit_amount(),
    {
        if current_time < self.cliff_time {
            0
        } else {
            let elapsed_seconds: u64 = current_time - self.cliff_time;
            let periods: u64 = elapsed_seconds / self.frequency;
            let elapsed_periods: u64 = if periods < self.number_of_period {
                periods
            } else {
                self.number_of_period
            };
            proof {
                lemma_mul_nonneg_le(
                    self.amount_per_period as int,
                    elapsed_periods as int,
                    self.number_of_period as int,
                );
            }
            self.cliff_unlock_amount + self.amount_per_period * elapsed_periods
        }
    }

    /// Claim settlement: settles `min(max_amount, unlocked − claimed)` and
    /// advances `total_claimed_amount` by exactly that much. The caller is
    /// instructed to move the returned amount from custody to the recipient.
    ///
    /// A claim that settles zero (a zero ceiling, or nothing newly unlocked)
    /// succeeds as a valid no-op. The only failure is the defensive
    /// fail-fast where the claimed total already exceeds what is unlocked at
    /// `current_time` — an invariant violation, after which the record is
    /// left untouched.
    pub fn claim(&mut self, current_time: u64, max_amount: u64) -> (r: Result<u64, LockerError>)
        requires
            old(self).wf(),
        ensures
            final(self).wf(),
            r is Ok <==> old(self).total_claimed_amount
                <= old(self).spec_unlocked_amount(current_time as int),
            r matches Ok(paid) ==> {
                &&& paid == old(self).spec_claimable_amount(current_time as int, max_amount)
                &&& final(self).total_claimed_amount == old(self).total_claimed_amount + paid
                &&& final(self).total_claimed_amount
                    <= old(self).spec_unlocked_amount(current_time as int)
                &&& *final(self) == (VestingEscrow {
                    total_claimed_amount: final(self).total_claimed_amount,
                    ..*old(self)
                })
            },
            r is Err ==> {
                &&& r == Err::<u64, LockerError>(LockerError::ArithmeticUnderflow)
                &&& *final(self) == *old(self)
            },
    {
        let unlocked = self.unlocked_amount(current_time);
        let available = match safe_sub(unlocked, self.total_claimed_amount) {
            Ok(v) => v,
            Err(e) => {
                return Err(e);
            },
        };
        let paid: u64 = if max_amount < available {
            max_amount
        } else {
            available
        };
        self.total_claimed_amount = self.total_claimed_amount + paid;
        Ok(paid)
    }

    /// Reassigns the recipient if and only if the stored mode permits the
    /// signer; accounting fields are untouched either way, so a new
    /// recipient inherits exactly the remaining unclaimed balance.
    pub fn update_recipient(&mut self, signer: Pubkey, new_recipient: Pubkey) -> (r: Result<
        (),
        LockerError,
    >)
        requires
            old(self).wf(),
        ensures
            final(self).wf(),
            r is Ok <==> old(self).spec_can_update_recipient(signer),
            r is Ok ==> *final(self) == (VestingEscrow {
                recipient: new_recipient,
                ..*old(self)
            }),
            r is Err ==> {
                &&& r == Err::<(), LockerError>(LockerError::Unauthorized)
                &&& *final(self) == *old(self)
            },
    {
        let permitted = match self.update_recipient_mode {
            UpdateRecipientMode::NoOneCanUpdate => false,
            UpdateRecipientMode::OnlySenderCanUpdate => signer == self.sender,
            UpdateRecipientMode::OnlyRecipientCanUpdate => signer == self.recipient,
            UpdateRecipientMode::EitherCanUpdate => signer == self.sender
                || signer == self.recipient,
        };
        if permitted {
            self.recipient = new_recipient;
            Ok(())
        } else {
            Err(LockerError::Unauthorized)
        }
    }
}

/// The optional descriptive record attached to at most one escrow.
#[derive(Clone, Debug)]
pub struct VestingEscrowMetadata {
    /// The escrow this record describes.
    pub escrow: Pubkey,
    /// A display name; no accounting effect.
    pub name: String,
    /// Free-form description; no accounting effect.
    pub description: String,
    /// How to reach the creator; no accounting effect.
    pub creator_email: String,
    /// How to reach the recipient; the one field a recipient update may touch.
    pub recipient_email: String,
}

impl VestingEscrowMetadata {
    /// Replaces the recipient email, the only mutation this record admits
    /// after creation; performed as a side effect of a recipient update.
    pub fn update_recipient_email(&mut self, new_recipient_email: String)
        ensures
            final(self).recipient_email == new_recipient_email,
            final(self).escrow == old(self).escrow,
            final(self).name == old(self).name,
            final(self).description == old(self).description,
            final(self).creator_email == old(self).creator_email,
    {
        self.recipient_email = new_recipient_email;
    }
}

/// Pre-cliff zero: at any time strictly before the cliff, nothing at all is
/// unlocked, whatever the rest of the schedule says.
pub proof fn lemma_unlocked_amount_before_cliff(escrow: VestingEscrow, t: int)
    requires
        t < escrow.cliff_time,
    ensures
        escrow.spec_unlocked_amount(t) == 0,
{
}

/// Monotonicity: the unlocked amount of a well-formed schedule never
/// decreases as time advances.
pub proof fn lemma_unlocked_amount_monotonic(escrow: VestingEscrow, t1: int, t2: int)
    requires
        escrow.wf(),
        t1 <= t2,
    ensures
        escrow.spec_unlocked_amount(t1) <= escrow.spec_unlocked_amount(t2),
{
    let cliff = escrow.cliff_time as int;
    let f = escrow.frequency as int;
    let n = escrow.number_of_period as int;
    let per_period = escrow.amount_per_period as int;
    if t2 < cliff {
        // both sides are zero
    } else if t1 < cliff {
        lemma_div_pos_is_pos(t2 - cliff, f);
        lemma_mul_nonneg_le(per_period, escrow.spec_elapsed_periods(t2), n);
    } else {
        lemma_div_pos_is_pos(t1 - cliff, f);
        lemma_div_is_ordered(t1 - cliff, t2 - cliff, f);
        lemma_mul_nonneg_le(per_period, escrow.spec_elapsed_periods(t1), escrow.spec_elapsed_periods(t2));
    }
}

/// Saturation: once every period has elapsed, the unlocked amount equals the
/// total deposit exactly, and stays there.
pub proof fn lemma_unlocked_amount_saturates(escrow: VestingEscrow, t: int)
    requires
        escrow.wf(),
        t >= escrow.cliff_time + escrow.frequency * escrow.number_of_period,
    ensures
        escrow.spec_unlocked_amount(t) == escrow.spec_total_deposit_amount(),
{
    let cliff = escrow.cliff_time as int;
    let f = escrow.frequency as int;
    let n = escrow.number_of_period as int;
    lemma_mul_nonneg_le(f, n, n);
    lemma_div_is_ordered(f * n, t - cliff, f);
    lemma_div_multiples_vanish(n, f);
}

/// The authorization matrix for recipient reassignment: `NoOneCanUpdate`
/// admits no requester at all; `OnlySenderCanUpdate` exactly the sender;
/// `OnlyRecipientCanUpdate` exactly the current recipient; `EitherCanUpdate`
/// exactly those two. A requester who is neither sender nor recipient is
/// refused under every mode.
pub proof fn lemma_update_recipient_authorization(escrow: VestingEscrow, signer: Pubkey)
    ensures
        escrow.update_recipient_mode == UpdateRecipientMode::NoOneCanUpdate
            ==> !escrow.spec_can_update_recipient(signer),
        escrow.update_recipient_mode == UpdateRecipientMode::OnlySenderCanUpdate ==> (
        escrow.spec_can_update_recipient(signer) <==> signer == escrow.sender),
        escrow.update_recipient_mode == UpdateRecipientMode::OnlyRecipientCanUpdate ==> (
        escrow.spec_can_update_recipient(signer) <==> signer == escrow.recipient),
        escrow.update_recipient_mode == UpdateRecipientMode::EitherCanUpdate ==> (
        escrow.spec_can_update_recipient(signer) <==> (signer == escrow.sender || signer
            == escrow.recipient)),
        signer != escrow.sender && signer != escrow.recipient
            ==> !escrow.spec_can_update_recipient(signer),
{
}

} // verus!
