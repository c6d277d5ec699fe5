use vstd::prelude::*;

verus! {

/// Why an operation on a locker was refused.
#[derive(Debug, Clone, Copy, PartialEq, Eq, Structural)]
pub enum LockerErrorCode {
    /// An amount of zero was given.
    InvalidAmount,
    /// The amount is more than the pool has available.
    InsufficientAvailableBalance,
    /// The caller is not the locker's owner.
    NotAuthorized,
    /// The locker already holds as many locks as it may.
    TooManyLocks,
    /// No lock stands at the index given.
    LockNotFound,
    /// The lock is not of the kind that the trigger opens.
    WrongLockKind,
    /// The strike time or strike price has not been reached.
    ConditionNotMet,
    /// The price reading is too far from the current time.
    StalePriceFeed,
    /// The ledger did not carry out a transfer.
    TransferFailed,
}

impl LockerErrorCode {
    /// A short sentence for the error, as shown to a user.
    pub fn message(&self) -> (text: &'static str)
        ensures
            text@ == self.message_text(),
    {
        match self {
            LockerErrorCode::InvalidAmount => "amount must be greater than zero",
            LockerErrorCode::InsufficientAvailableBalance => "amount exceeds the available balance",
            LockerErrorCode::NotAuthorized => "signer is not the owner of the locker",
            LockerErrorCode::TooManyLocks => "the locker holds the maximum number of locks",
            LockerErrorCode::LockNotFound => "no lock at this index",
            LockerErrorCode::WrongLockKind => "the lock is of another kind",
            LockerErrorCode::ConditionNotMet => "the release condition is not met",
            LockerErrorCode::StalePriceFeed => "the price reading is stale",
            LockerErrorCode::TransferFailed => "the transfer failed",
        }
    }

    /// The text that `message` returns.
    pub open spec fn message_text(&self) -> Seq<char> {
        match self {
            LockerErrorCode::InvalidAmount => "amount must be greater than zero"@,
            LockerErrorCode::InsufficientAvailableBalance => "amount exceeds the available balance"@,
            LockerErrorCode::NotAuthorized => "signer is not the owner of the locker"@,
            LockerErrorCode::TooManyLocks => "the locker holds the maximum number of locks"@,
            LockerErrorCode::LockNotFound => "no lock at this index"@,
            LockerErrorCode::WrongLockKind => "the lock is of another kind"@,
            LockerErrorCode::ConditionNotMet => "the release condition is not met"@,
            LockerErrorCode::StalePriceFeed => "the price reading is stale"@,
            LockerErrorCode::TransferFailed => "the transfer failed"@,
        }
    }
}

} // verus!
