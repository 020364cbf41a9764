use locker::errors::LockerError;
use locker::instructions::{create_vesting_escrow, CreateVestingEscrowParameters};
use locker::state::{Pubkey, UpdateRecipientMode, VestingEscrow};

fn sample_params() -> CreateVestingEscrowParameters {
    CreateVestingEscrowParameters {
        vesting_start_time: 0,
        cliff_time: 1000,
        frequency: 100,
        cliff_unlock_amount: 50,
        amount_per_period: 10,
        number_of_period: 5,
        update_recipient_mode: 3,
    }
}

fn sample_escrow() -> VestingEscrow {
    let params = sample_params();
    let (escrow, _) = create_vesting_escrow(
        &params,
        Pubkey { key: 2 },
        Pubkey { key: 1 },
        Pubkey { key: 3 },
    )
    .unwrap();
    escrow
}

#[test]
fn total_deposit_amount_of_sample_schedule() {
    assert_eq!(sample_params().get_total_deposit_amount(), Ok(100));
    assert_eq!(sample_escrow().total_deposit_amount(), 100);
}

#[test]
fn unlocked_amount_follows_cliff_then_linear_periods() {
    let escrow = sample_escrow();
    assert_eq!(escrow.unlocked_amount(999), 0);
    assert_eq!(escrow.unlocked_amount(1000), 50);
    assert_eq!(escrow.unlocked_amount(1250), 70);
    assert_eq!(escrow.unlocked_amount(1500), 100);
}

#[test]
fn unlocked_amount_is_zero_before_cliff() {
    let escrow = sample_escrow();
    assert_eq!(escrow.unlocked_amount(0), 0);
    assert_eq!(escrow.unlocked_amount(500), 0);
}

#[test]
fn unlocked_amount_is_monotonic_over_sampled_times() {
    let escrow = sample_escrow();
    let mut last = 0;
    for t in 0..2000 {
        let unlocked = escrow.unlocked_amount(t);
        assert!(unlocked >= last, "unlocked decreased at t={t}");
        last = unlocked;
    }
}

#[test]
fn unlocked_amount_saturates_at_total_deposit() {
    let escrow = sample_escrow();
    assert_eq!(escrow.unlocked_amount(1500), 100);
    assert_eq!(escrow.unlocked_amount(100_000), 100);
    assert_eq!(escrow.unlocked_amount(u64::MAX), 100);
}

#[test]
fn unlocked_amount_at_exact_period_boundaries() {
    let escrow = sample_escrow();
    assert_eq!(escrow.unlocked_amount(1099), 50);
    assert_eq!(escrow.unlocked_amount(1100), 60);
    assert_eq!(escrow.unlocked_amount(1199), 60);
    assert_eq!(escrow.unlocked_amount(1200), 70);
}

#[test]
fn creation_rejects_overflowing_deposit_total() {
    let mut params = sample_params();
    params.amount_per_period = u64::MAX;
    params.number_of_period = 2;
    assert_eq!(
        params.get_total_deposit_amount(),
        Err(LockerError::ArithmeticOverflow)
    );
    let result = create_vesting_escrow(
        &params,
        Pubkey { key: 2 },
        Pubkey { key: 1 },
        Pubkey { key: 3 },
    );
    assert_eq!(result, Err(LockerError::ArithmeticOverflow));
}

#[test]
fn creation_rejects_overflowing_cliff_plus_periodic_sum() {
    let mut params = sample_params();
    params.cliff_unlock_amount = u64::MAX;
    params.amount_per_period = 1;
    params.number_of_period = 1;
    assert_eq!(
        params.get_total_deposit_amount(),
        Err(LockerError::ArithmeticOverflow)
    );
}

#[test]
fn creation_rejects_cliff_before_vesting_start() {
    let mut params = sample_params();
    params.vesting_start_time = 2000;
    let result = create_vesting_escrow(
        &params,
        Pubkey { key: 2 },
        Pubkey { key: 1 },
        Pubkey { key: 3 },
    );
    assert_eq!(result, Err(LockerError::InvalidVestingStartTime));
}

#[test]
fn creation_rejects_unrecognized_update_recipient_mode() {
    let mut params = sample_params();
    params.update_recipient_mode = 4;
    let result = create_vesting_escrow(
        &params,
        Pubkey { key: 2 },
        Pubkey { key: 1 },
        Pubkey { key: 3 },
    );
    assert_eq!(result, Err(LockerError::InvalidUpdateRecipientMode));
}

#[test]
fn creation_rejects_zero_frequency() {
    let mut params = sample_params();
    params.frequency = 0;
    let result = create_vesting_escrow(
        &params,
        Pubkey { key: 2 },
        Pubkey { key: 1 },
        Pubkey { key: 3 },
    );
    assert_eq!(result, Err(LockerError::FrequencyIsZero));
}

#[test]
fn creation_validation_errors_come_in_order() {
    let mut params = sample_params();
    params.vesting_start_time = 2000;
    params.update_recipient_mode = 9;
    params.frequency = 0;
    assert_eq!(
        params.validate(),
        Err(LockerError::InvalidVestingStartTime)
    );
    params.vesting_start_time = 0;
    assert_eq!(
        params.validate(),
        Err(LockerError::InvalidUpdateRecipientMode)
    );
    params.update_recipient_mode = 0;
    assert_eq!(params.validate(), Err(LockerError::FrequencyIsZero));
    params.frequency = 100;
    assert_eq!(params.validate(), Ok(()));
}

#[test]
fn creation_fills_record_from_parameters() {
    let params = sample_params();
    let sender = Pubkey { key: 2 };
    let recipient = Pubkey { key: 1 };
    let mint = Pubkey { key: 3 };
    let (escrow, deposit) = create_vesting_escrow(&params, sender, recipient, mint).unwrap();
    assert_eq!(deposit, 100);
    assert_eq!(escrow.vesting_start_time, 0);
    assert_eq!(escrow.cliff_time, 1000);
    assert_eq!(escrow.frequency, 100);
    assert_eq!(escrow.cliff_unlock_amount, 50);
    assert_eq!(escrow.amount_per_period, 10);
    assert_eq!(escrow.number_of_period, 5);
    assert_eq!(escrow.total_claimed_amount, 0);
    assert_eq!(escrow.sender, sender);
    assert_eq!(escrow.recipient, recipient);
    assert_eq!(escrow.mint, mint);
    assert_eq!(
        escrow.update_recipient_mode,
        UpdateRecipientMode::EitherCanUpdate
    );
    assert!(escrow.is_well_formed());
}

#[test]
fn zero_period_schedule_unlocks_only_the_cliff_amount() {
    let mut params = sample_params();
    params.amount_per_period = 0;
    params.number_of_period = 0;
    let (escrow, deposit) = create_vesting_escrow(
        &params,
        Pubkey { key: 2 },
        Pubkey { key: 1 },
        Pubkey { key: 3 },
    )
    .unwrap();
    assert_eq!(deposit, 50);
    assert_eq!(escrow.unlocked_amount(999), 0);
    assert_eq!(escrow.unlocked_amount(1000), 50);
    assert_eq!(escrow.unlocked_amount(u64::MAX), 50);
}
