use pricelocker::{
    AssetFilter, Lock, Locker, LockerErrorCode, PriceFeed, Pubkey, TransferDirection,
    TransferInstruction, Trigger, UnlockOutcome, ALL_LOCKS,
};

fn owner() -> Pubkey {
    Pubkey::new([1u8; 32])
}

fn native() -> AssetFilter {
    AssetFilter::Only(None)
}

fn feed(price: i64, publish_time: i64) -> PriceFeed {
    PriceFeed { id: Pubkey::new([0u8; 32]), price, conf: 3, expo: -8, publish_time }
}

#[test]
fn time_lock_holds_back_until_strike_time() {
    let strike_time: u32 = 1_700_000_000;
    let mut locker = Locker::new(owner(), 10, 254);
    assert_eq!(locker.available(1000, native()), 1000);

    assert_eq!(locker.create_time_lock(1000, strike_time, 400, None, None), Ok(0));
    assert_eq!(locker.locked_amount(native()), 400);
    assert_eq!(locker.available(1000, native()), 600);

    let early = Trigger::Time { now: strike_time - 1 };
    assert_eq!(locker.unlock(0, &early), Err(LockerErrorCode::ConditionNotMet));
    assert!(locker.locks[0].is_locked());
    assert_eq!(locker.available(1000, native()), 600);

    let due = Trigger::Time { now: strike_time };
    assert_eq!(locker.unlock(0, &due), Ok(vec![UnlockOutcome::Unlocked]));
    assert!(!locker.locks[0].is_locked());
    assert_eq!(locker.available(1000, native()), 1000);
}

#[test]
fn paired_price_locks_hold_back_one_amount() {
    let mut locker = Locker::new(owner(), 10, 254);
    assert_eq!(locker.create_price_lock(1000, 150, 200, None, Some(1)), Ok(0));
    assert_eq!(locker.create_price_lock(1000, 300, 200, None, Some(0)), Ok(1));
    assert_eq!(locker.locked_amount(native()), 200);
    assert_eq!(locker.available(1000, native()), 800);

    let mut first_opens = locker.clone();
    let reading = Trigger::Price { feed: feed(200, 5000), timestamp: 5010 };
    assert_eq!(first_opens.unlock(0, &reading), Ok(vec![UnlockOutcome::Unlocked]));
    assert_eq!(first_opens.locked_amount(native()), 0);
    assert_eq!(first_opens.available(1000, native()), 1000);

    let mut second_opens = locker.clone();
    assert_eq!(second_opens.unlock(0, &reading), Ok(vec![UnlockOutcome::Unlocked]));
    let mut only_second = locker.clone();
    let high = Trigger::Price { feed: feed(300, 5000), timestamp: 5010 };
    assert_eq!(only_second.unlock(1, &high), Ok(vec![UnlockOutcome::Unlocked]));
    assert!(only_second.locks[0].is_locked());
    assert!(!only_second.locks[1].is_locked());
    assert_eq!(only_second.locked_amount(native()), 0);
    assert_eq!(only_second.available(1000, native()), 1000);
}

#[test]
fn withdrawal_beyond_available_is_refused() {
    let locker = Locker::new(owner(), 10, 254);
    assert_eq!(locker.available(1000, native()), 1000);
    assert_eq!(
        locker.withdraw(&owner(), 1000, 1200, None),
        Err(LockerErrorCode::InsufficientAvailableBalance)
    );
    assert_eq!(
        locker.withdraw(&owner(), 1000, 1000, None),
        Ok(TransferInstruction {
            direction: TransferDirection::OutOfPool,
            owner: owner(),
            token_mint: None,
            amount: 1000,
        })
    );
}

#[test]
fn stale_price_reading_is_refused_whatever_the_price() {
    let mut locker = Locker::new(owner(), 10, 254);
    assert_eq!(locker.create_price_lock(1000, 150, 200, None, None), Ok(0));
    let now: i64 = 1_700_000_000;

    let stale_high = Trigger::Price { feed: feed(10_000, now - 61), timestamp: now };
    assert_eq!(locker.unlock(0, &stale_high), Err(LockerErrorCode::StalePriceFeed));
    let stale_low = Trigger::Price { feed: feed(1, now - 61), timestamp: now };
    assert_eq!(locker.unlock(0, &stale_low), Err(LockerErrorCode::StalePriceFeed));
    assert!(locker.locks[0].is_locked());

    let fresh_high = Trigger::Price { feed: feed(10_000, now - 60), timestamp: now };
    assert_eq!(locker.unlock(0, &fresh_high), Ok(vec![UnlockOutcome::Unlocked]));
    assert!(!locker.locks[0].is_locked());
}

#[test]
fn unlock_all_opens_only_the_locks_that_are_due() {
    let mut locker = Locker::new(owner(), 10, 254);
    assert_eq!(locker.create_time_lock(1000, 500, 100, None, None), Ok(0));
    assert_eq!(locker.create_time_lock(1000, 100, 100, None, None), Ok(1));
    assert_eq!(locker.create_time_lock(1000, 900, 100, None, None), Ok(2));

    let report = locker.unlock(ALL_LOCKS, &Trigger::Time { now: 200 });
    assert_eq!(
        report,
        Ok(vec![
            UnlockOutcome::Failed(LockerErrorCode::ConditionNotMet),
            UnlockOutcome::Unlocked,
            UnlockOutcome::Failed(LockerErrorCode::ConditionNotMet),
        ])
    );
    assert!(locker.locks[0].is_locked());
    assert!(!locker.locks[1].is_locked());
    assert!(locker.locks[2].is_locked());
    assert_eq!(
        locker.locks[1],
        Lock::TimeLock {
            id: 1,
            strike_time: 100,
            amount: 100,
            token_mint: None,
            locked: false,
            join: None,
        }
    );
    assert_eq!(locker.locked_amount(native()), 200);
    assert_eq!(locker.available(1000, native()), 800);
}
