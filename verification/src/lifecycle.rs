//! The creation of locks.
//!
//! A new lock is admitted only where the pool has its amount free on the
//! lock's asset, so that what the locks hold back never exceeds the pool.
//! A `join` is recorded as given: the pairing rule reads it when balances
//! are computed.

use vstd::prelude::*;
use crate::accounting::{free_of, locked_total, AssetFilter};
use crate::errors::LockerErrorCode;
use crate::states::{Lock, Locker, Pubkey, MAX_LOCKS};

verus! {

/// The judgement on a request for a new lock on `amount` of the asset
/// `token_mint`, given the locks that exist and what the pool holds of that
/// asset: the new lock's id, or the reason for which the request is refused.
pub open spec fn admission(
    locks: Seq<Lock>,
    total_pool_balance: u64,
    amount: u32,
    token_mint: Option<Pubkey>,
) -> Result<u8, LockerErrorCode> {
    if amount == 0 {
        Err(LockerErrorCode::InvalidAmount)
    } else if amount > free_of(
        total_pool_balance,
        locked_total(locks, AssetFilter::Only(token_mint)),
    ) {
        Err(LockerErrorCode::InsufficientAvailableBalance)
    } else if locks.len() >= MAX_LOCKS {
        Err(LockerErrorCode::TooManyLocks)
    } else {
        Ok(locks.len() as u8)
    }
}

impl Locker {
    /// The judgement on a request for a new lock in this locker.
    pub open spec fn creation_verdict(
        &self,
        total_pool_balance: u64,
        amount: u32,
        token_mint: Option<Pubkey>,
    ) -> Result<u8, LockerErrorCode> {
        admission(self.locks@, total_pool_balance, amount, token_mint)
    }

    /// Judges a request for a new lock without changing the locker.
    pub fn admit_lock(&self, total_pool_balance: u64, amount: u32, token_mint: Option<Pubkey>) -> (id:
        Result<u8, LockerErrorCode>)
        requires
            self.wf(),
        ensures
            id == self.creation_verdict(total_pool_balance, amount, token_mint),
    {
        if amount == 0 {
            return Err(LockerErrorCode::InvalidAmount);
        }
        let free = self.available(total_pool_balance, AssetFilter::Only(token_mint));
        if amount as u64 > free {
            return Err(LockerErrorCode::InsufficientAvailableBalance);
        }
        if self.locks.len() >= MAX_LOCKS {
            return Err(LockerErrorCode::TooManyLocks);
        }
        Ok(self.locks.len() as u8)
    }

    /// Appends a time lock on `amount` of the asset `token_mint`, to open at
    /// `strike_time`, and returns its id.
    ///
    /// `total_pool_balance` is what the ledger holds of that asset for this
    /// locker. Fails with `InvalidAmount` where `amount` is zero, with
    /// `InsufficientAvailableBalance` where `amount` is more than is
    /// available of the asset, and with `TooManyLocks` where the locker is
    /// full, in this order; the locker is then unchanged.
    pub fn create_time_lock(
        &mut self,
        total_pool_balance: u64,
        strike_time: u32,
        amount: u32,
        token_mint: Option<Pubkey>,
        join: Option<u8>,
    ) -> (id: Result<u8, LockerErrorCode>)
        requires
            old(self).wf(),
        ensures
            final(self).wf(),
            final(self).same_header(old(self)),
            id == old(self).creation_verdict(total_pool_balance, amount, token_mint),
            amount == 0 ==> id == Err::<u8, LockerErrorCode>(LockerErrorCode::InvalidAmount),
            id is Err ==> *final(self) == *old(self),
            id matches Ok(new_id) ==> final(self).locks@ == old(self).locks@.push(
                (Lock::TimeLock { id: new_id, strike_time, amount, token_mint, locked: true, join }),
            ),
    {
        match self.admit_lock(total_pool_balance, amount, token_mint) {
            Err(e) => Err(e),
            Ok(new_id) => {
                self.locks.push(
                    Lock::TimeLock { id: new_id, strike_time, amount, token_mint, locked: true, join },
                );
                Ok(new_id)
            },
        }
    }

    /// Appends a price lock on `amount` of the asset `token_mint`, to open
    /// once the oracle's price reaches `strike_price`, and returns its id.
    ///
    /// It is admitted and refused as a time lock is.
    pub fn create_price_lock(
        &mut self,
        total_pool_balance: u64,
        strike_price: u32,
        amount: u32,
        token_mint: Option<Pubkey>,
        join: Option<u8>,
    ) -> (id: Result<u8, LockerErrorCode>)
        requires
            old(self).wf(),
        ensures
            final(self).wf(),
            final(self).same_header(old(self)),
            id == old(self).creation_verdict(total_pool_balance, amount, token_mint),
            amount == 0 ==> id == Err::<u8, LockerErrorCode>(LockerErrorCode::InvalidAmount),
            id is Err ==> *final(self) == *old(self),
            id matches Ok(new_id) ==> final(self).locks@ == old(self).locks@.push(
                (Lock::PriceLock { id: new_id, strike_price, amount, token_mint, locked: true, join }),
            ),
    {
        match self.admit_lock(total_pool_balance, amount, token_mint) {
            Err(e) => Err(e),
            Ok(new_id) => {
                self.locks.push(
                    Lock::PriceLock { id: new_id, strike_price, amount, token_mint, locked: true, join },
                );
                Ok(new_id)
            },
        }
    }
}

} // verus!
