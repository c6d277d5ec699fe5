use pricelocker::{
    AssetFilter, Lock, Locker, LockerErrorCode, Pubkey, TransferDirection, TransferInstruction,
    MAX_LOCKS,
};

fn owner() -> Pubkey {
    Pubkey::new([1u8; 32])
}

fn stranger() -> Pubkey {
    Pubkey::new([2u8; 32])
}

#[test]
fn new_locker_is_empty() {
    let locker = Locker::new(owner(), 77, 3);
    assert_eq!(locker.authority, owner());
    assert_eq!(locker.creation_ts, 77);
    assert_eq!(locker.bump, 3);
    assert!(!locker.staked);
    assert!(locker.locks.is_empty());
}

#[test]
fn zero_amount_is_refused_for_both_kinds() {
    let mut locker = Locker::new(owner(), 0, 0);
    assert_eq!(
        locker.create_time_lock(1000, 10, 0, None, None),
        Err(LockerErrorCode::InvalidAmount)
    );
    assert_eq!(
        locker.create_price_lock(1000, 10, 0, None, None),
        Err(LockerErrorCode::InvalidAmount)
    );
    assert_eq!(
        locker.create_time_lock(0, 10, 0, Some(owner()), Some(4)),
        Err(LockerErrorCode::InvalidAmount)
    );
    assert!(locker.locks.is_empty());
}

#[test]
fn zero_amount_is_refused_before_a_full_locker_is() {
    let mut locker = Locker::new(owner(), 0, 0);
    while locker.locks.len() < MAX_LOCKS {
        assert!(locker.create_price_lock(1000, 10, 1, None, None).is_ok());
    }
    assert_eq!(
        locker.create_price_lock(1000, 10, 0, None, None),
        Err(LockerErrorCode::InvalidAmount)
    );
}

#[test]
fn amount_beyond_available_is_refused() {
    let mut locker = Locker::new(owner(), 0, 0);
    assert_eq!(
        locker.create_time_lock(99, 10, 100, None, None),
        Err(LockerErrorCode::InsufficientAvailableBalance)
    );
    assert_eq!(locker.create_time_lock(100, 10, 100, None, None), Ok(0));
    assert_eq!(
        locker.create_price_lock(100, 10, 1, None, None),
        Err(LockerErrorCode::InsufficientAvailableBalance)
    );
    assert_eq!(locker.locks.len(), 1);
}

#[test]
fn eleventh_lock_is_refused() {
    let mut locker = Locker::new(owner(), 0, 0);
    let mut expected: u8 = 0;
    while (expected as usize) < MAX_LOCKS {
        assert_eq!(locker.create_time_lock(1000, 10, 1, None, None), Ok(expected));
        expected += 1;
    }
    let before = locker.clone();
    assert_eq!(
        locker.create_time_lock(1000, 10, 1, None, None),
        Err(LockerErrorCode::TooManyLocks)
    );
    assert_eq!(
        locker.create_price_lock(1000, 10, 1, None, None),
        Err(LockerErrorCode::TooManyLocks)
    );
    assert_eq!(locker, before);
    assert_eq!(
        locker.create_price_lock(10, 10, 1, None, None),
        Err(LockerErrorCode::InsufficientAvailableBalance)
    );
}

#[test]
fn new_lock_records_what_was_asked() {
    let mut locker = Locker::new(owner(), 0, 0);
    assert_eq!(locker.create_price_lock(1000, 42, 5, Some(stranger()), Some(9)), Ok(0));
    assert_eq!(locker.create_time_lock(1000, 43, 6, None, None), Ok(1));
    assert_eq!(
        locker.locks,
        vec![
            Lock::PriceLock {
                id: 0,
                strike_price: 42,
                amount: 5,
                token_mint: Some(stranger()),
                locked: true,
                join: Some(9),
            },
            Lock::TimeLock {
                id: 1,
                strike_time: 43,
                amount: 6,
                token_mint: None,
                locked: true,
                join: None,
            },
        ]
    );
    assert_eq!(locker.locks[0].id(), 0);
    assert_eq!(locker.locks[0].amount(), 5);
    assert_eq!(locker.locks[0].token_mint(), Some(stranger()));
    assert_eq!(locker.locks[0].join(), Some(9));
    assert!(locker.locks[0].is_locked());
    assert!(!locker.locks[0].is_time_lock());
    assert!(locker.locks[1].is_time_lock());
    assert_eq!(locker.admit_lock(1000, 7, None), Ok(2));
    assert_eq!(locker.locks.len(), 2);
}

#[test]
fn withdrawal_is_for_the_owner_alone() {
    let locker = Locker::new(owner(), 0, 0);
    assert_eq!(
        locker.withdraw(&stranger(), 1000, 10, None),
        Err(LockerErrorCode::NotAuthorized)
    );
    assert_eq!(
        locker.withdraw(&stranger(), 1000, 0, None),
        Err(LockerErrorCode::NotAuthorized)
    );
    assert_eq!(locker.withdraw(&owner(), 1000, 0, None), Err(LockerErrorCode::InvalidAmount));
    assert_eq!(
        locker.withdraw(&owner(), 0, 1, None),
        Err(LockerErrorCode::InsufficientAvailableBalance)
    );
}

#[test]
fn withdrawal_sees_only_the_locks_of_its_asset() {
    let mut locker = Locker::new(owner(), 0, 0);
    let mint = Pubkey::new([9u8; 32]);
    assert_eq!(locker.create_time_lock(500, 10, 500, Some(mint), None), Ok(0));
    assert_eq!(locker.available(500, AssetFilter::Only(Some(mint))), 0);
    assert_eq!(
        locker.withdraw(&owner(), 500, 1, Some(mint)),
        Err(LockerErrorCode::InsufficientAvailableBalance)
    );
    assert_eq!(
        locker.withdraw(&owner(), 500, 500, None),
        Ok(TransferInstruction {
            direction: TransferDirection::OutOfPool,
            owner: owner(),
            token_mint: None,
            amount: 500,
        })
    );
}

#[test]
fn deposit_is_judged() {
    let locker = Locker::new(owner(), 0, 0);
    let mint = Pubkey::new([9u8; 32]);
    assert_eq!(locker.deposit(&stranger(), 5, None), Err(LockerErrorCode::NotAuthorized));
    assert_eq!(locker.deposit(&owner(), 0, None), Err(LockerErrorCode::InvalidAmount));
    assert_eq!(
        locker.deposit(&owner(), 5, Some(mint)),
        Ok(TransferInstruction {
            direction: TransferDirection::IntoPool,
            owner: owner(),
            token_mint: Some(mint),
            amount: 5,
        })
    );
}

#[test]
fn errors_have_messages() {
    assert_eq!(LockerErrorCode::InvalidAmount.message(), "amount must be greater than zero");
    assert_eq!(
        LockerErrorCode::InsufficientAvailableBalance.message(),
        "amount exceeds the available balance"
    );
    assert_eq!(LockerErrorCode::NotAuthorized.message(), "signer is not the owner of the locker");
    assert_eq!(
        LockerErrorCode::TooManyLocks.message(),
        "the locker holds the maximum number of locks"
    );
    assert_eq!(LockerErrorCode::LockNotFound.message(), "no lock at this index");
    assert_eq!(LockerErrorCode::WrongLockKind.message(), "the lock is of another kind");
    assert_eq!(LockerErrorCode::ConditionNotMet.message(), "the release condition is not met");
    assert_eq!(LockerErrorCode::StalePriceFeed.message(), "the price reading is stale");
    assert_eq!(LockerErrorCode::TransferFailed.message(), "the transfer failed");
}

#[test]
fn failed_transfer_is_reported() {
    let locker = Locker::new(owner(), 0, 0);
    let transfer = locker.withdraw(&owner(), 10, 10, None).unwrap();
    assert_eq!(transfer.conclude(true), Ok(()));
    assert_eq!(transfer.conclude(false), Err(LockerErrorCode::TransferFailed));
}
