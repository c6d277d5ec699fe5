//! How much of a pool is held back, and how much of it is free.
//!
//! A lock without a `join` holds back its amount while it is locked. A lock
//! with a `join` is one half of a pair, and a pair holds back one amount, not
//! two: the half that stands later in the locker holds back its amount while
//! both it and the half it names are locked, and the earlier half holds back
//! nothing by itself. So a pair releases its funds as soon as either half
//! opens (release on one condition OR the other), and a lock whose `join`
//! names no earlier lock holds back nothing.

use vstd::prelude::*;
use crate::states::{same_asset, Lock, Locker, Pubkey, MAX_LOCKS};

verus! {

/// Which locks a balance query looks at.
#[derive(Debug, Clone, Copy, PartialEq, Eq)]
pub enum AssetFilter {
    /// Every lock, whatever its asset.
    Any,
    /// The locks on one asset; `Only(None)` is the native asset.
    Only(Option<Pubkey>),
}

impl AssetFilter {
    /// Whether a lock on `asset` is looked at.
    pub open spec fn spec_admits(&self, asset: Option<Pubkey>) -> bool {
        match *self {
            AssetFilter::Any => true,
            AssetFilter::Only(wanted) => wanted == asset,
        }
    }

    /// Whether a lock on `asset` is looked at.
    #[verifier::when_used_as_spec(spec_admits)]
    pub fn admits(&self, asset: Option<Pubkey>) -> (admitted: bool)
        ensures
            admitted == self.spec_admits(asset),
    {
        match self {
            AssetFilter::Any => true,
            AssetFilter::Only(wanted) => same_asset(wanted, &asset),
        }
    }
}

/// Whether the lock at position `i` holds back its amount.
pub open spec fn holds_back(locks: Seq<Lock>, i: int, filter: AssetFilter) -> bool {
    &&& 0 <= i < locks.len()
    &&& locks[i].spec_is_locked()
    &&& filter.spec_admits(locks[i].spec_token_mint())
    &&& match locks[i].spec_join() {
        None => true,
        Some(partner) => partner < i && locks[partner as int].spec_is_locked(),
    }
}

/// What the lock at position `i` holds back.
pub open spec fn held_back(locks: Seq<Lock>, i: int, filter: AssetFilter) -> nat {
    if holds_back(locks, i, filter) {
        locks[i].spec_amount() as nat
    } else {
        0
    }
}

/// What the first `n` locks hold back together.
pub open spec fn locked_sum(locks: Seq<Lock>, n: int, filter: AssetFilter) -> nat
    decreases n,
{
    if n <= 0 {
        0
    } else {
        locked_sum(locks, n - 1, filter) + held_back(locks, n - 1, filter)
    }
}

/// What all the locks hold back together.
pub open spec fn locked_total(locks: Seq<Lock>, filter: AssetFilter) -> nat {
    locked_sum(locks, locks.len() as int, filter)
}

/// What is left of `total` when `locked` of it is held back; nothing where
/// more is held back than the pool has.
pub open spec fn free_of(total: u64, locked: nat) -> nat {
    if locked <= total {
        (total - locked) as nat
    } else {
        0
    }
}

/// What the first `n` locks hold back depends on those locks alone.
pub proof fn lemma_locked_sum_prefix(a: Seq<Lock>, b: Seq<Lock>, n: int, filter: AssetFilter)
    requires
        0 <= n <= a.len(),
        n <= b.len(),
        forall|i: int| 0 <= i < n ==> a[i] == b[i],
    ensures
        locked_sum(a, n, filter) == locked_sum(b, n, filter),
    decreases n,
{
    if n > 0 {
        lemma_locked_sum_prefix(a, b, n - 1, filter);
        assert(a[n - 1] == b[n - 1]);
        match a[n - 1].spec_join() {
            Some(partner) => {
                if partner < n - 1 {
                    assert(a[partner as int] == b[partner as int]);
                }
            },
            None => {},
        }
    }
}

impl Locker {
    /// What the locks admitted by `filter` hold back.
    pub open spec fn spec_locked_amount(&self, filter: AssetFilter) -> nat {
        locked_total(self.locks@, filter)
    }

    /// What of a pool of `total_pool_balance` is free.
    pub open spec fn spec_available(&self, total_pool_balance: u64, filter: AssetFilter) -> nat {
        free_of(total_pool_balance, self.spec_locked_amount(filter))
    }

    /// What the lock at `index` holds back, under the pairing rule; nothing
    /// where no lock stands there.
    pub fn get_locked_balance(&self, index: usize, filter: AssetFilter) -> (held: u64)
        ensures
            held == held_back(self.locks@, index as int, filter),
    {
        if index >= self.locks.len() {
            return 0;
        }
        let lock = &self.locks[index];
        if !lock.is_locked() || !filter.admits(lock.token_mint()) {
            return 0;
        }
        match lock.join() {
            None => lock.amount() as u64,
            Some(partner) => {
                if (partner as usize) < index && self.locks[partner as usize].is_locked() {
                    lock.amount() as u64
                } else {
                    0
                }
            },
        }
    }

    /// The amount that the locks admitted by `filter` hold back.
    pub fn locked_amount(&self, filter: AssetFilter) -> (locked: u64)
        requires
            self.wf(),
        ensures
            locked == self.spec_locked_amount(filter),
    {
        let mut locked: u64 = 0;
        let mut i: usize = 0;
        while i < self.locks.len()
            invariant
                i <= self.locks@.len() <= MAX_LOCKS,
                locked == locked_sum(self.locks@, i as int, filter),
                locked <= i * u32::MAX,
            decreases self.locks@.len() - i,
        {
            let held = self.get_locked_balance(i, filter);
            locked = locked + held;
            i += 1;
        }
        locked
    }

    /// What of a pool of `total_pool_balance` is free to be locked or
    /// withdrawn: the balance less what is held back, and nothing where the
    /// pool has less than is held back.
    pub fn available(&self, total_pool_balance: u64, filter: AssetFilter) -> (free: u64)
        requires
            self.wf(),
        ensures
            free == self.spec_available(total_pool_balance, filter),
    {
        let locked = self.locked_amount(filter);
        if locked <= total_pool_balance {
            total_pool_balance - locked
        } else {
            0
        }
    }
}

} // verus!
