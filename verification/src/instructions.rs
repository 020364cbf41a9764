//! The operations a caller can ask of the escrow core.
//!
//! Each operation is the pure accounting half of one request: it validates,
//! computes, and returns the new record state together with the amount the
//! custody collaborator must move. Loading the records, verifying signers
//! and committing the results stay outside this crate.

use vstd::prelude::*;

use crate::errors::LockerError;
use crate::safe_math::{lemma_mul_nonneg_le, safe_add, safe_mul};
use crate::state::{
    spec_mode_from_u8,
    Pubkey,
    UpdateRecipientMode,
    VestingEscrow,
    VestingEscrowMetadata,
};

verus! {

/// The caller-supplied configuration of a new escrow.
#[derive(Clone, Copy, Debug, PartialEq, Eq, Structural)]
pub struct CreateVestingEscrowParameters {
    pub vesting_start_time: u64,
    pub cliff_time: u64,
    pub frequency: u64,
    pub cliff_unlock_amount: u64,
    pub amount_per_period: u64,
    pub number_of_period: u64,
    pub update_recipient_mode: u8,
}

impl CreateVestingEscrowParameters {
    /// The deposit the schedule calls for: the cliff unlock plus every
    /// periodic unlock.
    pub open spec fn spec_total_deposit_amount(self) -> int {
        self.cliff_unlock_amount + self.amount_per_period * self.number_of_period
    }

    /// Whether the parameters pass creation-time validation.
    pub open spec fn spec_params_valid(self) -> bool {
        &&& self.cliff_time >= self.vesting_start_time
        &&& self.update_recipient_mode <= 3
        &&& self.frequency != 0
    }

    /// The validation verdict, with one distinct error per violated
    /// condition, checked in creation order.
    pub open spec fn spec_validate(self) -> Result<(), LockerError> {
        if self.cliff_time < self.vesting_start_time {
            Err(LockerError::InvalidVestingStartTime)
        } else if self.update_recipient_mode > 3 {
            Err(LockerError::InvalidUpdateRecipientMode)
        } else if self.frequency == 0 {
            Err(LockerError::FrequencyIsZero)
        } else {
            Ok(())
        }
    }

    /// The size of the custody transfer creation will instruct, or the
    /// overflow rejection if the schedule's total escapes the 64-bit domain.
    pub fn get_total_deposit_amount(&self) -> (r: Result<u64, LockerError>)
        ensures
            self.spec_total_deposit_amount() <= u64::MAX ==> r == Ok::<u64, LockerError>(
                self.spec_total_deposit_amount() as u64,
            ),
            self.spec_total_deposit_amount() > u64::MAX ==> r == Err::<u64, LockerError>(
                LockerError::ArithmeticOverflow,
            ),
    {
        proof {
            lemma_mul_nonneg_le(
                self.amount_per_period as int,
                self.number_of_period as int,
                self.number_of_period as int,
            );
        }
        let periodic = match safe_mul(self.amount_per_period, self.number_of_period) {
            Ok(v) => v,
            Err(e) => {
                return Err(e);
            },
        };
        safe_add(self.cliff_unlock_amount, periodic)
    }

    /// Rejects any parameter set the schedule model cannot accept: a cliff
    /// before the vesting start, an unrecognized recipient-update mode, or a
    /// period length of zero.
    pub fn validate(&self) -> (r: Result<(), LockerError>)
        ensures
            r == self.spec_validate(),
            r is Ok <==> self.spec_params_valid(),
    {
        if self.cliff_time < self.vesting_start_time {
            return Err(LockerError::InvalidVestingStartTime);
        }
        if let Err(e) = UpdateRecipientMode::try_from_u8(self.update_recipient_mode) {
            return Err(e);
        }
        if self.frequency == 0 {
            return Err(LockerError::FrequencyIsZero);
        }
        Ok(())
    }
}

/// The record a successful creation writes, before any claim.
pub open spec fn spec_initial_escrow(
    params: CreateVestingEscrowParameters,
    sender: Pubkey,
    recipient: Pubkey,
    mint: Pubkey,
) -> VestingEscrow {
    VestingEscrow {
        vesting_start_time: params.vesting_start_time,
        cliff_time: params.cliff_time,
        frequency: params.frequency,
        cliff_unlock_amount: params.cliff_unlock_amount,
        amount_per_period: params.amount_per_period,
        number_of_period: params.number_of_period,
        total_claimed_amount: 0,
        recipient,
        sender,
        mint,
        update_recipient_mode: spec_mode_from_u8(params.update_recipient_mode),
    }
}

/// What creation returns for every input: the first validation error, the
/// overflow rejection, or the fresh record with its deposit size.
pub open spec fn spec_create_vesting_escrow(
    params: CreateVestingEscrowParameters,
    sender: Pubkey,
    recipient: Pubkey,
    mint: Pubkey,
) -> Result<(VestingEscrow, u64), LockerError> {
    match params.spec_validate() {
        Err(e) => Err(e),
        Ok(_) => if params.spec_total_deposit_amount() > u64::MAX {
            Err(LockerError::ArithmeticOverflow)
        } else {
            Ok(
                (
                    spec_initial_escrow(params, sender, recipient, mint),
                    params.spec_total_deposit_amount() as u64,
                ),
            )
        },
    }
}

/// Creation: validates the parameters, builds the escrow record with nothing
/// claimed yet, and reports the exact amount the custody collaborator must
/// move from the sender into escrow custody. No record exists on rejection.
pub fn create_vesting_escrow(
    params: &CreateVestingEscrowParameters,
    sender: Pubkey,
    recipient: Pubkey,
    mint: Pubkey,
) -> (r: Result<(VestingEscrow, u64), LockerError>)
    ensures
        r == spec_create_vesting_escrow(*params, sender, recipient, mint),
        r is Ok <==> params.spec_params_valid() && params.spec_total_deposit_amount() <= u64::MAX,
        r matches Ok(created) ==> created.0.wf() && created.1
            == params.spec_total_deposit_amount(),
{
    match params.validate() {
        Ok(_) => {},
        Err(e) => {
            return Err(e);
        },
    }
    let mode = match UpdateRecipientMode::try_from_u8(params.update_recipient_mode) {
        Ok(m) => m,
        Err(e) => {
            return Err(e);
        },
    };
    let total_deposit_amount = match params.get_total_deposit_amount() {
        Ok(v) => v,
        Err(e) => {
            return Err(e);
        },
    };
    let escrow = VestingEscrow {
        vesting_start_time: params.vesting_start_time,
        cliff_time: params.cliff_time,
        frequency: params.frequency,
        cliff_unlock_amount: params.cliff_unlock_amount,
        amount_per_period: params.amount_per_period,
        number_of_period: params.number_of_period,
        total_claimed_amount: 0,
        recipient,
        sender,
        mint,
        update_recipient_mode: mode,
    };
    Ok((escrow, total_deposit_amount))
}

/// The caller-supplied fields of the descriptive record.
#[derive(Clone, Debug)]
pub struct CreateVestingEscrowMetadataParameters {
    pub name: String,
    pub description: String,
    pub creator_email: String,
    pub recipient_email: String,
}

/// Attaches the descriptive record to an escrow. Only the escrow's creator
/// (its sender) may do so; the store outside this crate keeps it to at most
/// one record per escrow. The fields have no accounting effect.
pub fn create_vesting_escrow_metadata(
    escrow: &VestingEscrow,
    escrow_key: Pubkey,
    creator: Pubkey,
    params: CreateVestingEscrowMetadataParameters,
) -> (r: Result<VestingEscrowMetadata, LockerError>)
    ensures
        r is Ok <==> creator == escrow.sender,
        r matches Ok(m) ==> {
            &&& m.escrow == escrow_key
            &&& m.name == params.name
            &&& m.description == params.description
            &&& m.creator_email == params.creator_email
            &&& m.recipient_email == params.recipient_email
        },
        r is Err ==> r == Err::<VestingEscrowMetadata, LockerError>(LockerError::Unauthorized),
{
    if creator == escrow.sender {
        Ok(
            VestingEscrowMetadata {
                escrow: escrow_key,
                name: params.name,
                description: params.description,
                creator_email: params.creator_email,
                recipient_email: params.recipient_email,
            },
        )
    } else {
        Err(LockerError::Unauthorized)
    }
}

/// Recipient reassignment: consults the escrow's stored mode, and on success
/// replaces the recipient and optionally touches up the linked metadata's
/// recipient email. Accounting fields never change, so the new recipient
/// inherits exactly the remaining unclaimed balance; on rejection both
/// records are left untouched.
pub fn update_vesting_escrow_recipient(
    escrow: &mut VestingEscrow,
    metadata: &mut Option<VestingEscrowMetadata>,
    signer: Pubkey,
    new_recipient: Pubkey,
    new_recipient_email: Option<String>,
) -> (r: Result<(), LockerError>)
    requires
        old(escrow).wf(),
    ensures
        final(escrow).wf(),
        r is Ok <==> old(escrow).spec_can_update_recipient(signer),
        r is Ok ==> *final(escrow) == (VestingEscrow {
            recipient: new_recipient,
            ..*old(escrow)
        }),
        r is Ok ==> match new_recipient_email {
            Option::Some(e) => match *old(metadata) {
                Option::Some(m) => *final(metadata) == Option::Some(
                    (VestingEscrowMetadata { recipient_email: e, ..m }),
                ),
                Option::None => *final(metadata) == *old(metadata),
            },
            Option::None => *final(metadata) == *old(metadata),
        },
        r is Err ==> {
            &&& r == Err::<(), LockerError>(LockerError::Unauthorized)
            &&& *final(escrow) == *old(escrow)
            &&& *final(metadata) == *old(metadata)
        },
{
    match escrow.update_recipient(signer, new_recipient) {
        Ok(_) => {},
        Err(e) => {
            return Err(e);
        },
    }
    if let Some(email) = new_recipient_email {
        match metadata {
            Some(m) => {
                m.update_recipient_email(email);
            },
            None => {},
        }
    }
    Ok(())
}

} // verus!
