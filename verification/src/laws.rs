//! What holds of every locker, stated over the models that the operations'
//! contracts use.
//!
//! The central law is that the locks never hold back more of an asset than
//! the pool has of it. It is stated of a model of the pool: the locks of a
//! locker beside the balances that the ledger holds for it, changed by
//! deposits, new locks, unlock requests and withdrawals as the operations'
//! contracts describe them.

use vstd::prelude::*;
use crate::accounting::{
    free_of, held_back, holds_back, lemma_locked_sum_prefix, locked_sum, locked_total,
    AssetFilter,
};
use crate::engine::{after_attempt, unlocked, verdict, Trigger};
use crate::errors::LockerErrorCode;
use crate::lifecycle::admission;
use crate::states::{Lock, Locker, Pubkey};

verus! {

/// Whether `after` is `before` with some of its locks opened and nothing
/// else changed.
pub open spec fn opened_from(after: Seq<Lock>, before: Seq<Lock>) -> bool {
    &&& after.len() == before.len()
    &&& forall|i: int|
        0 <= i < before.len() ==> (#[trigger] after[i] == before[i] || after[i]
            == before[i].released())
}

/// Opening locks never makes the first `n` locks hold back more.
pub proof fn lemma_opening_lowers_locked_sum(
    after: Seq<Lock>,
    before: Seq<Lock>,
    n: int,
    filter: AssetFilter,
)
    requires
        opened_from(after, before),
        0 <= n <= before.len(),
    ensures
        locked_sum(after, n, filter) <= locked_sum(before, n, filter),
    decreases n,
{
    if n > 0 {
        lemma_opening_lowers_locked_sum(after, before, n - 1, filter);
        assert(after[n - 1] == before[n - 1] || after[n - 1] == before[n - 1].released());
        if holds_back(after, n - 1, filter) {
            match after[n - 1].spec_join() {
                Some(partner) => {
                    assert(after[partner as int] == before[partner as int] || after[partner as int]
                        == before[partner as int].released());
                },
                None => {},
            }
            assert(holds_back(before, n - 1, filter));
        }
        assert(held_back(after, n - 1, filter) <= held_back(before, n - 1, filter));
    }
}

/// Opening any locks never raises the locked amount, under any filter.
pub proof fn law_opening_never_locks_more(after: Seq<Lock>, before: Seq<Lock>, filter: AssetFilter)
    requires
        opened_from(after, before),
    ensures
        locked_total(after, filter) <= locked_total(before, filter),
{
    lemma_opening_lowers_locked_sum(after, before, before.len() as int, filter);
}

/// A new lock that was admitted leaves the locked amount of its asset
/// within the pool balance that it was admitted against, and leaves the
/// locked amount of every other asset as it was.
pub proof fn law_creation_keeps_locked_within_balance(
    locks: Seq<Lock>,
    total_pool_balance: u64,
    lock: Lock,
    other: Option<Pubkey>,
)
    requires
        admission(locks, total_pool_balance, lock.spec_amount(), lock.spec_token_mint()) is Ok,
    ensures
        locked_total(locks.push(lock), AssetFilter::Only(lock.spec_token_mint()))
            <= total_pool_balance,
        other != lock.spec_token_mint() ==> locked_total(locks.push(lock), AssetFilter::Only(other))
            == locked_total(locks, AssetFilter::Only(other)),
{
    let after = locks.push(lock);
    let n = locks.len() as int;
    lemma_locked_sum_prefix(after, locks, n, AssetFilter::Only(lock.spec_token_mint()));
    lemma_locked_sum_prefix(after, locks, n, AssetFilter::Only(other));
    assert(after[n] == lock);
    assert(held_back(after, n, AssetFilter::Only(lock.spec_token_mint())) <= lock.spec_amount());
    assert(other != lock.spec_token_mint() ==> held_back(after, n, AssetFilter::Only(other)) == 0);
}

/// A withdrawal is admitted exactly where the caller owns the locker and the
/// amount is positive and within what is free of the asset; the locked
/// amount of the asset is then within what remains of the pool.
pub proof fn law_withdrawal_keeps_locked_within_balance(
    locker: Locker,
    caller: Pubkey,
    total_pool_balance: u64,
    amount: u64,
    token_mint: Option<Pubkey>,
)
    ensures
        locker.withdrawal_verdict(caller, total_pool_balance, amount, token_mint) is Ok <==> {
            &&& caller == locker.authority
            &&& 0 < amount <= free_of(
                total_pool_balance,
                locked_total(locker.locks@, AssetFilter::Only(token_mint)),
            )
        },
        locker.withdrawal_verdict(caller, total_pool_balance, amount, token_mint) is Ok ==> {
            &&& amount <= total_pool_balance
            &&& locked_total(locker.locks@, AssetFilter::Only(token_mint)) <= total_pool_balance
                - amount
        },
{
}

/// A request for a lock on an amount of zero is refused with
/// `InvalidAmount`, whatever the locks and the pool hold.
pub proof fn law_zero_amount_is_refused(
    locks: Seq<Lock>,
    total_pool_balance: u64,
    token_mint: Option<Pubkey>,
)
    ensures
        admission(locks, total_pool_balance, 0, token_mint) == Err::<u8, LockerErrorCode>(
            LockerErrorCode::InvalidAmount,
        ),
{
}

/// An open lock stays open under every attempt and is not changed by it; an
/// attempt changes nothing of a lock but its `locked` flag; and a second
/// attempt with the same trigger is judged as the first and changes nothing
/// more.
pub proof fn law_open_lock_stays_open(lock: Lock, trigger: Trigger)
    ensures
        !lock.spec_is_locked() ==> !after_attempt(lock, trigger).spec_is_locked(),
        !lock.spec_is_locked() ==> after_attempt(lock, trigger) == lock,
        verdict(lock, trigger) is Ok ==> !after_attempt(lock, trigger).spec_is_locked(),
        verdict(after_attempt(lock, trigger), trigger) == verdict(lock, trigger),
        after_attempt(after_attempt(lock, trigger), trigger) == after_attempt(lock, trigger),
        after_attempt(lock, trigger).released() == lock.released(),
{
}

/// A second unlock request with the same index and trigger changes nothing
/// that the first left.
pub proof fn law_second_unlock_changes_nothing(locks: Seq<Lock>, index: u8, trigger: Trigger)
    ensures
        unlocked(unlocked(locks, index, trigger), index, trigger) == unlocked(
            locks,
            index,
            trigger,
        ),
{
    let once = unlocked(locks, index, trigger);
    let twice = unlocked(once, index, trigger);
    assert(twice.len() == once.len());
    assert forall|i: int| 0 <= i < once.len() implies twice[i] == once[i] by {
        law_open_lock_stays_open(locks[i], trigger);
    }
    assert(twice =~= once);
}

/// Two locks that name each other release their funds on one condition or
/// the other: the earlier holds back nothing by itself, and the later holds
/// back its amount exactly while both are locked and the filter admits it.
pub proof fn law_pair_releases_when_either_opens(
    locks: Seq<Lock>,
    earlier: u8,
    later: u8,
    filter: AssetFilter,
)
    requires
        earlier < later < locks.len(),
        locks[earlier as int].spec_join() == Some(later),
        locks[later as int].spec_join() == Some(earlier),
    ensures
        held_back(locks, earlier as int, filter) == 0,
        held_back(locks, later as int, filter) == if locks[earlier as int].spec_is_locked()
            && locks[later as int].spec_is_locked() && filter.spec_admits(
            locks[later as int].spec_token_mint(),
        ) {
            locks[later as int].spec_amount() as nat
        } else {
            0
        },
{
}

/// The locks of a locker beside what the ledger holds for it of each asset.
pub struct Pool {
    pub locks: Seq<Lock>,
    pub balances: Map<Option<Pubkey>, u64>,
}

impl Pool {
    /// What the pool holds of an asset; nothing of an asset that was never
    /// deposited.
    pub open spec fn balance(self, token_mint: Option<Pubkey>) -> u64 {
        if self.balances.contains_key(token_mint) {
            self.balances[token_mint]
        } else {
            0
        }
    }

    /// What is free of an asset.
    pub open spec fn free(self, token_mint: Option<Pubkey>) -> nat {
        free_of(self.balance(token_mint), locked_total(self.locks, AssetFilter::Only(token_mint)))
    }

    /// Whether the locks hold back no more of any asset than the pool has of it.
    pub open spec fn solvent(self) -> bool {
        forall|token_mint: Option<Pubkey>|
            #[trigger] locked_total(self.locks, AssetFilter::Only(token_mint)) <= self.balance(
                token_mint,
            )
    }
}

/// A request of the owner on a pool.
pub enum Operation {
    /// Put `amount` of an asset into the pool.
    Deposit { token_mint: Option<Pubkey>, amount: u64 },
    /// Append `lock`.
    CreateLock { lock: Lock },
    /// Open the lock at `index`, or every lock with `ALL_LOCKS`.
    Unlock { index: u8, trigger: Trigger },
    /// Take `amount` of an asset out of the pool.
    Withdraw { token_mint: Option<Pubkey>, amount: u64 },
}

/// The pool after a request. A request that is refused leaves the pool as it
/// is: a deposit of nothing or of more than the ledger can count, a lock
/// that is not admitted or is not the locked lock with the next id, a
/// withdrawal of nothing or of more than is free. An unlock request changes
/// the locks as `unlocked` says.
pub open spec fn apply(pool: Pool, operation: Operation) -> Pool {
    match operation {
        Operation::Deposit { token_mint, amount } => {
            if amount > 0 && pool.balance(token_mint) + amount <= u64::MAX {
                Pool {
                    locks: pool.locks,
                    balances: pool.balances.insert(
                        token_mint,
                        (pool.balance(token_mint) + amount) as u64,
                    ),
                }
            } else {
                pool
            }
        },
        Operation::CreateLock { lock } => {
            if lock.spec_is_locked() && admission(
                pool.locks,
                pool.balance(lock.spec_token_mint()),
                lock.spec_amount(),
                lock.spec_token_mint(),
            ) == Ok::<u8, LockerErrorCode>(lock.spec_id()) {
                Pool { locks: pool.locks.push(lock), balances: pool.balances }
            } else {
                pool
            }
        },
        Operation::Unlock { index, trigger } => {
            Pool { locks: unlocked(pool.locks, index, trigger), balances: pool.balances }
        },
        Operation::Withdraw { token_mint, amount } => {
            if 0 < amount <= pool.free(token_mint) {
                Pool {
                    locks: pool.locks,
                    balances: pool.balances.insert(
                        token_mint,
                        (pool.balance(token_mint) - amount) as u64,
                    ),
                }
            } else {
                pool
            }
        },
    }
}

/// The pool after a sequence of requests, the first of them first.
pub open spec fn run(pool: Pool, operations: Seq<Operation>) -> Pool
    decreases operations.len(),
{
    if operations.len() == 0 {
        pool
    } else {
        apply(run(pool, operations.drop_last()), operations.last())
    }
}

/// A pool without locks is solvent, whatever it holds.
pub proof fn law_pool_without_locks_is_solvent(balances: Map<Option<Pubkey>, u64>)
    ensures
        (Pool { locks: Seq::<Lock>::empty(), balances }).solvent(),
{
}

/// No request makes a solvent pool insolvent.
pub proof fn law_request_keeps_pool_solvent(pool: Pool, operation: Operation)
    requires
        pool.solvent(),
    ensures
        apply(pool, operation).solvent(),
{
    let next = apply(pool, operation);
    assert forall|token_mint: Option<Pubkey>|
        #[trigger] locked_total(next.locks, AssetFilter::Only(token_mint)) <= next.balance(
            token_mint,
        ) by {
        assert(locked_total(pool.locks, AssetFilter::Only(token_mint)) <= pool.balance(token_mint));
        match operation {
            Operation::Deposit { .. } => {},
            Operation::CreateLock { lock } => {
                if next != pool {
                    law_creation_keeps_locked_within_balance(
                        pool.locks,
                        pool.balance(lock.spec_token_mint()),
                        lock,
                        token_mint,
                    );
                }
            },
            Operation::Unlock { .. } => {
                law_opening_never_locks_more(next.locks, pool.locks, AssetFilter::Only(token_mint));
            },
            Operation::Withdraw { token_mint: taken, amount } => {
                assert(locked_total(pool.locks, AssetFilter::Only(taken)) <= pool.balance(taken));
            },
        }
    }
}

/// After any sequence of requests on a solvent pool, the locks hold back no
/// more of any asset than the pool has of it.
pub proof fn law_locked_amount_stays_within_balance(pool: Pool, operations: Seq<Operation>)
    requires
        pool.solvent(),
    ensures
        run(pool, operations).solvent(),
    decreases operations.len(),
{
    if operations.len() > 0 {
        law_locked_amount_stays_within_balance(pool, operations.drop_last());
        law_request_keeps_pool_solvent(run(pool, operations.drop_last()), operations.last());
    }
}

} // verus!
