//! The rules that open a lock, and their application to a locker.
//!
//! An attempt on a lock that is already open is judged like any other: it
//! succeeds where the condition holds and fails where it does not, and the
//! lock stays open either way.

use vstd::prelude::*;
use crate::errors::LockerErrorCode;
use crate::oracle::{get_price_from_pricefeed, PriceFeed};
use crate::states::{Lock, Locker, ALL_LOCKS};

verus! {

/// What an unlock request is held against.
#[derive(Debug, Clone, Copy, PartialEq, Eq)]
pub enum Trigger {
    /// The current time.
    Time { now: u32 },
    /// A price reading, and the current time by which its age is judged.
    Price { feed: PriceFeed, timestamp: i64 },
}

/// What became of one lock in a request over every lock of a locker.
#[derive(Debug, Clone, Copy, PartialEq, Eq)]
pub enum UnlockOutcome {
    /// The condition holds: the lock is open.
    Unlocked,
    /// The lock is of the trigger's kind and was left as it was.
    Failed(LockerErrorCode),
    /// The lock is of the other kind and was not looked at.
    Skipped,
}

/// The judgement on a lock at time `now`.
pub open spec fn time_verdict(lock: Lock, now: u32) -> Result<(), LockerErrorCode> {
    match lock {
        Lock::PriceLock { .. } => Err(LockerErrorCode::WrongLockKind),
        Lock::TimeLock { strike_time, .. } => if now < strike_time {
            Err(LockerErrorCode::ConditionNotMet)
        } else {
            Ok(())
        },
    }
}

/// The judgement on a lock given a price reading and the current time.
pub open spec fn price_verdict(lock: Lock, feed: PriceFeed, now: i64) -> Result<
    (),
    LockerErrorCode,
> {
    match lock {
        Lock::TimeLock { .. } => Err(LockerErrorCode::WrongLockKind),
        Lock::PriceLock { strike_price, .. } => if feed.is_stale(now) {
            Err(LockerErrorCode::StalePriceFeed)
        } else if feed.price < strike_price {
            Err(LockerErrorCode::ConditionNotMet)
        } else {
            Ok(())
        },
    }
}

/// The judgement on a lock under a trigger of either kind.
pub open spec fn verdict(lock: Lock, trigger: Trigger) -> Result<(), LockerErrorCode> {
    match trigger {
        Trigger::Time { now } => time_verdict(lock, now),
        Trigger::Price { feed, timestamp } => price_verdict(lock, feed, timestamp),
    }
}

/// The lock after an attempt: open where the judgement is `Ok`, else unchanged.
pub open spec fn after_attempt(lock: Lock, trigger: Trigger) -> Lock {
    if verdict(lock, trigger) is Ok {
        lock.released()
    } else {
        lock
    }
}

/// What a request over every lock reports of one lock.
pub open spec fn outcome_of(lock: Lock, trigger: Trigger) -> UnlockOutcome {
    match verdict(lock, trigger) {
        Ok(_) => UnlockOutcome::Unlocked,
        Err(LockerErrorCode::WrongLockKind) => UnlockOutcome::Skipped,
        Err(e) => UnlockOutcome::Failed(e),
    }
}

/// The locks after an attempt on each of them.
pub open spec fn attempt_all(locks: Seq<Lock>, trigger: Trigger) -> Seq<Lock> {
    Seq::new(locks.len(), |i: int| after_attempt(locks[i], trigger))
}

/// The report of an attempt on each lock, in the locks' order.
pub open spec fn report_all(locks: Seq<Lock>, trigger: Trigger) -> Seq<UnlockOutcome> {
    Seq::new(locks.len(), |i: int| outcome_of(locks[i], trigger))
}

/// The locks after an unlock request: with `ALL_LOCKS` an attempt on each
/// lock, with the index of a lock an attempt on that lock, and no change
/// where no lock stands at the index.
pub open spec fn unlocked(locks: Seq<Lock>, index: u8, trigger: Trigger) -> Seq<Lock> {
    if index == ALL_LOCKS {
        attempt_all(locks, trigger)
    } else if index < locks.len() {
        locks.update(index as int, after_attempt(locks[index as int], trigger))
    } else {
        locks
    }
}

/// Opens a lock, keeping everything else of it.
fn release(lock_item: &mut Lock)
    ensures
        *final(lock_item) == old(lock_item).released(),
{
    let opened = match *lock_item {
        Lock::TimeLock { id, strike_time, amount, token_mint, locked: _, join } => Lock::TimeLock {
            id,
            strike_time,
            amount,
            token_mint,
            locked: false,
            join,
        },
        Lock::PriceLock { id, strike_price, amount, token_mint, locked: _, join } => Lock::PriceLock {
            id,
            strike_price,
            amount,
            token_mint,
            locked: false,
            join,
        },
    };
    *lock_item = opened;
}

/// Opens a time lock whose strike time has come.
///
/// Fails with `WrongLockKind` on a price lock and with `ConditionNotMet`
/// where `time_now` is before the strike time; the lock is then unchanged.
pub fn process_time_lock(lock_item: &mut Lock, time_now: u32) -> (result: Result<
    (),
    LockerErrorCode,
>)
    ensures
        result == time_verdict(*old(lock_item), time_now),
        *final(lock_item) == after_attempt(*old(lock_item), Trigger::Time { now: time_now }),
        !old(lock_item).spec_is_locked() ==> !final(lock_item).spec_is_locked(),
{
    match *lock_item {
        Lock::TimeLock { strike_time, .. } => {
            if time_now >= strike_time {
                release(lock_item);
                Ok(())
            } else {
                Err(LockerErrorCode::ConditionNotMet)
            }
        },
        Lock::PriceLock { .. } => Err(LockerErrorCode::WrongLockKind),
    }
}

/// Opens a price lock whose strike price the reading has reached.
///
/// Fails with `WrongLockKind` on a time lock, with `StalePriceFeed` where
/// the reading is more than `MAX_PRICE_AGE` seconds from `now`, and with
/// `ConditionNotMet` where the price is below the strike price; the lock is
/// then unchanged.
pub fn process_price_lock(lock_item: &mut Lock, feed: &PriceFeed, now: i64) -> (result: Result<
    (),
    LockerErrorCode,
>)
    ensures
        result == price_verdict(*old(lock_item), *feed, now),
        *final(lock_item) == after_attempt(
            *old(lock_item),
            Trigger::Price { feed: *feed, timestamp: now },
        ),
        !old(lock_item).spec_is_locked() ==> !final(lock_item).spec_is_locked(),
{
    match *lock_item {
        Lock::TimeLock { .. } => Err(LockerErrorCode::WrongLockKind),
        Lock::PriceLock { strike_price, .. } => {
            match get_price_from_pricefeed(feed, now) {
                Err(e) => Err(e),
                Ok(price) => {
                    if price >= strike_price as i64 {
                        release(lock_item);
                        Ok(())
                    } else {
                        Err(LockerErrorCode::ConditionNotMet)
                    }
                },
            }
        },
    }
}

/// Holds a lock against a trigger of either kind.
pub fn try_unlock(lock_item: &mut Lock, trigger: &Trigger) -> (result: Result<(), LockerErrorCode>)
    ensures
        result == verdict(*old(lock_item), *trigger),
        *final(lock_item) == after_attempt(*old(lock_item), *trigger),
        !old(lock_item).spec_is_locked() ==> !final(lock_item).spec_is_locked(),
{
    match trigger {
        Trigger::Time { now } => process_time_lock(lock_item, *now),
        Trigger::Price { feed, timestamp } => process_price_lock(lock_item, feed, *timestamp),
    }
}

impl Locker {
    /// Holds every lock against the trigger, one after the other. A lock
    /// that cannot be opened is left as it is and does not stop the others.
    /// The report has one entry for each lock, in the locks' order.
    pub fn unlock_all(&mut self, trigger: &Trigger) -> (report: Vec<UnlockOutcome>)
        ensures
            final(self).locks@ == attempt_all(old(self).locks@, *trigger),
            report@ == report_all(old(self).locks@, *trigger),
            final(self).same_header(old(self)),
            old(self).wf() ==> final(self).wf(),
    {
        let mut report: Vec<UnlockOutcome> = Vec::new();
        let mut i: usize = 0;
        while i < self.locks.len()
            invariant
                i <= self.locks@.len(),
                self.locks@.len() == old(self).locks@.len(),
                self.same_header(old(self)),
                report@.len() == i,
                forall|k: int|
                    0 <= k < i ==> self.locks@[k] == after_attempt(
                        #[trigger] old(self).locks@[k],
                        *trigger,
                    ),
                forall|k: int| i <= k < self.locks@.len() ==> self.locks@[k] == old(self).locks@[k],
                forall|k: int|
                    0 <= k < i ==> report@[k] == outcome_of(#[trigger] old(self).locks@[k], *trigger),
            decreases self.locks@.len() - i,
        {
            let mut lock = self.locks[i];
            let outcome = match try_unlock(&mut lock, trigger) {
                Ok(_) => UnlockOutcome::Unlocked,
                Err(LockerErrorCode::WrongLockKind) => UnlockOutcome::Skipped,
                Err(e) => UnlockOutcome::Failed(e),
            };
            self.locks.set(i, lock);
            report.push(outcome);
            i += 1;
        }
        proof {
            assert(self.locks@ =~= attempt_all(old(self).locks@, *trigger));
            assert(report@ =~= report_all(old(self).locks@, *trigger));
        }
        report
    }

    /// Holds the lock at `index` against the trigger and opens it where the
    /// condition holds. Fails with `LockNotFound` where no lock stands at
    /// `index`, and with the lock's own error where it cannot be opened; the
    /// locker is then unchanged.
    pub fn unlock_one(&mut self, index: u8, trigger: &Trigger) -> (result: Result<
        (),
        LockerErrorCode,
    >)
        ensures
            index >= old(self).locks@.len() ==> result == Err::<(), LockerErrorCode>(
                LockerErrorCode::LockNotFound,
            ),
            index < old(self).locks@.len() ==> result == verdict(
                old(self).locks@[index as int],
                *trigger,
            ),
            result is Err ==> *final(self) == *old(self),
            result is Ok ==> final(self).locks@ == old(self).locks@.update(
                index as int,
                old(self).locks@[index as int].released(),
            ),
            final(self).same_header(old(self)),
            old(self).wf() ==> final(self).wf(),
    {
        if index as usize >= self.locks.len() {
            return Err(LockerErrorCode::LockNotFound);
        }
        let mut lock = self.locks[index as usize];
        match try_unlock(&mut lock, trigger) {
            Err(e) => Err(e),
            Ok(_) => {
                self.locks.set(index as usize, lock);
                Ok(())
            },
        }
    }

    /// Opens the lock at `index`, or with `ALL_LOCKS` every lock that the
    /// trigger opens.
    ///
    /// With `ALL_LOCKS` the request always succeeds and reports on each lock.
    /// With an index it succeeds only where that lock was opened, and the
    /// report is the one entry `Unlocked`.
    pub fn unlock(&mut self, index: u8, trigger: &Trigger) -> (result: Result<
        Vec<UnlockOutcome>,
        LockerErrorCode,
    >)
        ensures
            index == ALL_LOCKS ==> {
                &&& result matches Ok(report)
                &&& report@ == report_all(old(self).locks@, *trigger)
                &&& final(self).locks@ == attempt_all(old(self).locks@, *trigger)
            },
            index != ALL_LOCKS && index >= old(self).locks@.len() ==> {
                &&& result matches Err(e)
                &&& e == LockerErrorCode::LockNotFound
            },
            index != ALL_LOCKS && index < old(self).locks@.len() ==> {
                match verdict(old(self).locks@[index as int], *trigger) {
                    Ok(_) => {
                        &&& result matches Ok(report)
                        &&& report@ == seq![UnlockOutcome::Unlocked]
                        &&& final(self).locks@ == old(self).locks@.update(
                            index as int,
                            old(self).locks@[index as int].released(),
                        )
                    },
                    Err(refusal) => {
                        &&& result matches Err(e)
                        &&& e == refusal
                    },
                }
            },
            result is Err ==> *final(self) == *old(self),
            final(self).locks@ == unlocked(old(self).locks@, index, *trigger),
            final(self).same_header(old(self)),
            old(self).wf() ==> final(self).wf(),
    {
        if index == ALL_LOCKS {
            Ok(self.unlock_all(trigger))
        } else {
            proof {
                if index < self.locks@.len() {
                    assert(self.locks@.update(index as int, self.locks@[index as int])
                        =~= self.locks@);
                }
            }
            match self.unlock_one(index, trigger) {
                Err(e) => Err(e),
                Ok(_) => {
                    let mut report: Vec<UnlockOutcome> = Vec::new();
                    report.push(UnlockOutcome::Unlocked);
                    proof {
                        assert(report@ =~= seq![UnlockOutcome::Unlocked]);
                    }
                    Ok(report)
                },
            }
        }
    }
}

} // verus!
