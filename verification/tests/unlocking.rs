use pricelocker::{
    get_price_from_pricefeed, process_price_lock, process_time_lock, try_unlock, Lock, Locker,
    LockerErrorCode, PriceFeed, Pubkey, Trigger, UnlockOutcome, ALL_LOCKS, MAX_PRICE_AGE,
};

fn owner() -> Pubkey {
    Pubkey::new([1u8; 32])
}

fn feed(price: i64, publish_time: i64) -> PriceFeed {
    PriceFeed { id: Pubkey::new([5u8; 32]), price, conf: 0, expo: 0, publish_time }
}

fn time_lock(strike_time: u32, locked: bool) -> Lock {
    Lock::TimeLock { id: 0, strike_time, amount: 10, token_mint: None, locked, join: None }
}

fn price_lock(strike_price: u32, locked: bool) -> Lock {
    Lock::PriceLock { id: 0, strike_price, amount: 10, token_mint: None, locked, join: None }
}

#[test]
fn time_lock_opens_at_its_strike_time() {
    let mut lock = time_lock(100, true);
    assert_eq!(process_time_lock(&mut lock, 99), Err(LockerErrorCode::ConditionNotMet));
    assert_eq!(lock, time_lock(100, true));
    assert_eq!(process_time_lock(&mut lock, 100), Ok(()));
    assert_eq!(lock, time_lock(100, false));
    let mut late = time_lock(100, true);
    assert_eq!(process_time_lock(&mut late, u32::MAX), Ok(()));
    assert_eq!(late, time_lock(100, false));
}

#[test]
fn price_lock_opens_at_its_strike_price() {
    let mut lock = price_lock(100, true);
    assert_eq!(
        process_price_lock(&mut lock, &feed(99, 1000), 1000),
        Err(LockerErrorCode::ConditionNotMet)
    );
    assert_eq!(lock, price_lock(100, true));
    assert_eq!(process_price_lock(&mut lock, &feed(100, 1000), 1000), Ok(()));
    assert_eq!(lock, price_lock(100, false));
}

#[test]
fn negative_and_huge_prices_are_compared_as_numbers() {
    let mut lock = price_lock(0, true);
    assert_eq!(
        process_price_lock(&mut lock, &feed(-1, 1000), 1000),
        Err(LockerErrorCode::ConditionNotMet)
    );
    assert_eq!(process_price_lock(&mut lock, &feed(0, 1000), 1000), Ok(()));

    let mut high = price_lock(u32::MAX, true);
    assert_eq!(
        process_price_lock(&mut high, &feed(4_294_967_294, 1000), 1000),
        Err(LockerErrorCode::ConditionNotMet)
    );
    let mut wrapped = price_lock(5, true);
    assert_eq!(process_price_lock(&mut wrapped, &feed(4_294_967_296, 1000), 1000), Ok(()));
    assert_eq!(process_price_lock(&mut high, &feed(i64::MAX, 1000), 1000), Ok(()));
}

#[test]
fn wrong_kind_is_refused() {
    let mut lock = price_lock(0, true);
    assert_eq!(process_time_lock(&mut lock, u32::MAX), Err(LockerErrorCode::WrongLockKind));
    assert_eq!(lock, price_lock(0, true));
    let mut lock = time_lock(0, true);
    assert_eq!(
        process_price_lock(&mut lock, &feed(i64::MAX, 0), 0),
        Err(LockerErrorCode::WrongLockKind)
    );
    assert_eq!(
        process_price_lock(&mut lock, &feed(i64::MAX, 0), 1000),
        Err(LockerErrorCode::WrongLockKind)
    );
    assert_eq!(lock, time_lock(0, true));
}

#[test]
fn open_lock_stays_open() {
    let mut lock = time_lock(100, false);
    assert_eq!(process_time_lock(&mut lock, 99), Err(LockerErrorCode::ConditionNotMet));
    assert_eq!(lock, time_lock(100, false));
    assert_eq!(process_time_lock(&mut lock, 100), Ok(()));
    assert_eq!(lock, time_lock(100, false));
    assert_eq!(process_time_lock(&mut lock, 100), Ok(()));
    assert_eq!(lock, time_lock(100, false));

    let mut lock = price_lock(100, false);
    assert_eq!(
        process_price_lock(&mut lock, &feed(99, 0), 0),
        Err(LockerErrorCode::ConditionNotMet)
    );
    assert_eq!(lock, price_lock(100, false));
    assert_eq!(
        process_price_lock(&mut lock, &feed(100, 0), 61),
        Err(LockerErrorCode::StalePriceFeed)
    );
    assert_eq!(lock, price_lock(100, false));
    assert_eq!(try_unlock(&mut lock, &Trigger::Price { feed: feed(100, 0), timestamp: 0 }), Ok(()));
    assert_eq!(lock, price_lock(100, false));
    assert_eq!(
        try_unlock(&mut lock, &Trigger::Time { now: 0 }),
        Err(LockerErrorCode::WrongLockKind)
    );
    assert_eq!(lock, price_lock(100, false));
}

#[test]
fn reading_is_fresh_within_sixty_seconds_either_side() {
    assert_eq!(MAX_PRICE_AGE, 60);
    let now: i64 = 1_000_000;
    assert_eq!(get_price_from_pricefeed(&feed(7, now), now), Ok(7));
    assert_eq!(get_price_from_pricefeed(&feed(-7, now - 60), now), Ok(-7));
    assert_eq!(get_price_from_pricefeed(&feed(7, now + 60), now), Ok(7));
    assert_eq!(
        get_price_from_pricefeed(&feed(7, now - 61), now),
        Err(LockerErrorCode::StalePriceFeed)
    );
    assert_eq!(
        get_price_from_pricefeed(&feed(7, now + 61), now),
        Err(LockerErrorCode::StalePriceFeed)
    );
}

#[test]
fn far_apart_times_are_stale() {
    assert_eq!(
        get_price_from_pricefeed(&feed(7, i64::MIN), i64::MAX),
        Err(LockerErrorCode::StalePriceFeed)
    );
    assert_eq!(
        get_price_from_pricefeed(&feed(7, i64::MAX), i64::MIN),
        Err(LockerErrorCode::StalePriceFeed)
    );
    assert_eq!(
        get_price_from_pricefeed(&feed(7, i64::MIN), 0),
        Err(LockerErrorCode::StalePriceFeed)
    );
    assert_eq!(
        get_price_from_pricefeed(&feed(7, 0), i64::MIN),
        Err(LockerErrorCode::StalePriceFeed)
    );
    assert_eq!(
        get_price_from_pricefeed(&feed(7, -1), i64::MAX),
        Err(LockerErrorCode::StalePriceFeed)
    );
    assert_eq!(get_price_from_pricefeed(&feed(7, i64::MIN), i64::MIN + 60), Ok(7));
    assert_eq!(get_price_from_pricefeed(&feed(7, i64::MAX), i64::MAX - 60), Ok(7));
}

#[test]
fn missing_lock_is_reported() {
    let mut locker = Locker::new(owner(), 0, 0);
    assert_eq!(locker.unlock(0, &Trigger::Time { now: 5 }), Err(LockerErrorCode::LockNotFound));
    assert_eq!(locker.create_time_lock(100, 1, 1, None, None), Ok(0));
    assert_eq!(locker.unlock(1, &Trigger::Time { now: 5 }), Err(LockerErrorCode::LockNotFound));
    assert_eq!(locker.unlock(254, &Trigger::Time { now: 5 }), Err(LockerErrorCode::LockNotFound));
    assert_eq!(locker.unlock_one(7, &Trigger::Time { now: 5 }), Err(LockerErrorCode::LockNotFound));
    assert!(locker.locks[0].is_locked());
}

#[test]
fn targeted_unlock_reports_the_wrong_kind() {
    let mut locker = Locker::new(owner(), 0, 0);
    assert_eq!(locker.create_price_lock(100, 1, 1, None, None), Ok(0));
    assert_eq!(locker.unlock(0, &Trigger::Time { now: 5 }), Err(LockerErrorCode::WrongLockKind));
    assert!(locker.locks[0].is_locked());
}

#[test]
fn unlock_all_skips_the_other_kind() {
    let mut locker = Locker::new(owner(), 0, 0);
    assert_eq!(locker.create_price_lock(100, 50, 1, None, None), Ok(0));
    assert_eq!(locker.create_time_lock(100, 10, 1, None, None), Ok(1));
    assert_eq!(locker.create_price_lock(100, 70, 1, None, None), Ok(2));
    assert_eq!(locker.create_time_lock(100, 20, 1, None, None), Ok(3));
    let before = locker.clone();

    let mut by_time = before.clone();
    assert_eq!(
        by_time.unlock(ALL_LOCKS, &Trigger::Time { now: 15 }),
        Ok(vec![
            UnlockOutcome::Skipped,
            UnlockOutcome::Unlocked,
            UnlockOutcome::Skipped,
            UnlockOutcome::Failed(LockerErrorCode::ConditionNotMet),
        ])
    );
    assert_eq!(by_time.locks[0], before.locks[0]);
    assert!(!by_time.locks[1].is_locked());
    assert_eq!(by_time.locks[2], before.locks[2]);
    assert_eq!(by_time.locks[3], before.locks[3]);

    let mut by_price = before.clone();
    assert_eq!(
        by_price.unlock_all(&Trigger::Price { feed: feed(60, 100), timestamp: 100 }),
        vec![
            UnlockOutcome::Unlocked,
            UnlockOutcome::Skipped,
            UnlockOutcome::Failed(LockerErrorCode::ConditionNotMet),
            UnlockOutcome::Skipped,
        ]
    );
    assert!(!by_price.locks[0].is_locked());
    assert_eq!(by_price.locks[1], before.locks[1]);

    let mut stale = before.clone();
    assert_eq!(
        stale.unlock(ALL_LOCKS, &Trigger::Price { feed: feed(1000, 100), timestamp: 161 }),
        Ok(vec![
            UnlockOutcome::Failed(LockerErrorCode::StalePriceFeed),
            UnlockOutcome::Skipped,
            UnlockOutcome::Failed(LockerErrorCode::StalePriceFeed),
            UnlockOutcome::Skipped,
        ])
    );
    assert_eq!(stale, before);
}

#[test]
fn unlock_all_on_an_empty_locker_reports_nothing() {
    let mut locker = Locker::new(owner(), 0, 0);
    assert_eq!(locker.unlock(ALL_LOCKS, &Trigger::Time { now: 15 }), Ok(vec![]));
    assert_eq!(locker, Locker::new(owner(), 0, 0));
}

#[test]
fn second_unlock_all_changes_nothing() {
    let mut locker = Locker::new(owner(), 0, 0);
    assert_eq!(locker.create_time_lock(100, 10, 1, None, None), Ok(0));
    assert_eq!(locker.create_time_lock(100, 20, 1, None, None), Ok(1));
    let first = locker.unlock(ALL_LOCKS, &Trigger::Time { now: 10 });
    let after_first = locker.clone();
    let second = locker.unlock(ALL_LOCKS, &Trigger::Time { now: 10 });
    assert_eq!(first, second);
    assert_eq!(locker, after_first);
    assert_eq!(locker.unlock(ALL_LOCKS, &Trigger::Time { now: 0 }).map(|r| r.len()), Ok(2));
    assert!(!locker.locks[0].is_locked());
    assert!(locker.locks[1].is_locked());
}
