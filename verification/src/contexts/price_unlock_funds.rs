use vstd::prelude::*;
use crate::engine::{attempt_all, report_all, unlocked, verdict, Trigger, UnlockOutcome};
use crate::errors::LockerErrorCode;
use crate::oracle::PriceFeed;
use crate::states::{Locker, Pubkey, ALL_LOCKS};

verus! {

/// A request to open price locks: the signer, the locker, the oracle's
/// latest reading, and the current time.
#[derive(Debug, Clone, PartialEq, Eq)]
pub struct PriceUnlockFunds {
    pub authority: Pubkey,
    pub locker: Locker,
    pub pyth_solprice_account: PriceFeed,
    pub current_timestamp: i64,
}

impl PriceUnlockFunds {
    /// What the locks are held against.
    pub open spec fn trigger(&self) -> Trigger {
        Trigger::Price { feed: self.pyth_solprice_account, timestamp: self.current_timestamp }
    }

    /// Opens the price lock at `lock_index` of the signer's own locker, or
    /// with `ALL_LOCKS` every price lock whose strike price the reading has
    /// reached.
    ///
    /// Fails with `NotAuthorized` where the signer does not own the locker.
    /// With `ALL_LOCKS` it then succeeds and reports on each lock; with an
    /// index it fails with `LockNotFound` where no lock stands there, with
    /// `WrongLockKind` on a time lock, with `StalePriceFeed` where the
    /// reading is too far from the current time, and with `ConditionNotMet`
    /// where the price is below the strike price. Nothing is changed where
    /// it fails.
    pub fn process(&mut self, lock_index: u8) -> (result: Result<Vec<UnlockOutcome>, LockerErrorCode>)
        ensures
            final(self).authority == old(self).authority,
            final(self).pyth_solprice_account == old(self).pyth_solprice_account,
            final(self).current_timestamp == old(self).current_timestamp,
            final(self).locker.same_header(&old(self).locker),
            old(self).locker.wf() ==> final(self).locker.wf(),
            result is Err ==> *final(self) == *old(self),
            old(self).authority == old(self).locker.authority ==> final(self).locker.locks@
                == unlocked(old(self).locker.locks@, lock_index, old(self).trigger()),
            old(self).authority != old(self).locker.authority ==> {
                &&& result matches Err(e)
                &&& e == LockerErrorCode::NotAuthorized
            },
            old(self).authority == old(self).locker.authority && lock_index == ALL_LOCKS ==> {
                &&& result matches Ok(report)
                &&& report@ == report_all(old(self).locker.locks@, old(self).trigger())
                &&& final(self).locker.locks@ == attempt_all(
                    old(self).locker.locks@,
                    old(self).trigger(),
                )
            },
            old(self).authority == old(self).locker.authority && lock_index != ALL_LOCKS
                && lock_index >= old(self).locker.locks@.len() ==> {
                &&& result matches Err(e)
                &&& e == LockerErrorCode::LockNotFound
            },
            old(self).authority == old(self).locker.authority && lock_index != ALL_LOCKS
                && lock_index < old(self).locker.locks@.len() ==> {
                match verdict(old(self).locker.locks@[lock_index as int], old(self).trigger()) {
                    Ok(_) => {
                        &&& result matches Ok(report)
                        &&& report@ == seq![UnlockOutcome::Unlocked]
                        &&& final(self).locker.locks@ == old(self).locker.locks@.update(
                            lock_index as int,
                            old(self).locker.locks@[lock_index as int].released(),
                        )
                    },
                    Err(refusal) => {
                        &&& result matches Err(e)
                        &&& e == refusal
                    },
                }
            },
    {
        if !self.authority.same(&self.locker.authority) {
            return Err(LockerErrorCode::NotAuthorized);
        }
        let trigger = Trigger::Price {
            feed: self.pyth_solprice_account,
            timestamp: self.current_timestamp,
        };
        self.locker.unlock(lock_index, &trigger)
    }
}

} // verus!
