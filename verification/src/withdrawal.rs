//! The gates through which funds enter and leave a pool.
//!
//! Neither gate moves anything: each judges a request and says what the
//! ledger is to do. The locker keeps no balance of its own, so a transfer
//! shows only in the pool balance that the ledger reports next.

use vstd::prelude::*;
use crate::accounting::AssetFilter;
use crate::errors::LockerErrorCode;
use crate::states::{Locker, Pubkey};

verus! {

/// The way in which funds move between the owner and the pool.
#[derive(Debug, Clone, Copy, PartialEq, Eq, Structural)]
pub enum TransferDirection {
    /// From the owner into the pool.
    IntoPool,
    /// Out of the pool to the owner.
    OutOfPool,
}

/// A transfer for the ledger to carry out between a locker's pool and its
/// owner; without a `token_mint` it moves the native asset.
#[derive(Debug, Clone, Copy, PartialEq, Eq)]
pub struct TransferInstruction {
    pub direction: TransferDirection,
    pub owner: Pubkey,
    pub token_mint: Option<Pubkey>,
    pub amount: u64,
}

impl TransferInstruction {
    /// Judges what the ledger reported of the transfer: `TransferFailed`
    /// where it was not carried out.
    pub fn conclude(&self, carried_out: bool) -> (result: Result<(), LockerErrorCode>)
        ensures
            result == if carried_out {
                Ok::<(), LockerErrorCode>(())
            } else {
                Err(LockerErrorCode::TransferFailed)
            },
    {
        if carried_out {
            Ok(())
        } else {
            Err(LockerErrorCode::TransferFailed)
        }
    }
}

impl Locker {
    /// The judgement on a withdrawal: the transfer to make, or the reason
    /// for which it is refused.
    pub open spec fn withdrawal_verdict(
        &self,
        caller: Pubkey,
        total_pool_balance: u64,
        amount: u64,
        token_mint: Option<Pubkey>,
    ) -> Result<TransferInstruction, LockerErrorCode> {
        if caller != self.authority {
            Err(LockerErrorCode::NotAuthorized)
        } else if amount == 0 {
            Err(LockerErrorCode::InvalidAmount)
        } else if amount > self.spec_available(total_pool_balance, AssetFilter::Only(token_mint)) {
            Err(LockerErrorCode::InsufficientAvailableBalance)
        } else {
            Ok(
                TransferInstruction {
                    direction: TransferDirection::OutOfPool,
                    owner: caller,
                    token_mint,
                    amount,
                },
            )
        }
    }

    /// The judgement on a deposit.
    pub open spec fn deposit_verdict(
        &self,
        caller: Pubkey,
        amount: u64,
        token_mint: Option<Pubkey>,
    ) -> Result<TransferInstruction, LockerErrorCode> {
        if caller != self.authority {
            Err(LockerErrorCode::NotAuthorized)
        } else if amount == 0 {
            Err(LockerErrorCode::InvalidAmount)
        } else {
            Ok(
                TransferInstruction {
                    direction: TransferDirection::IntoPool,
                    owner: caller,
                    token_mint,
                    amount,
                },
            )
        }
    }

    /// Judges a request of `caller` to take `amount` of the asset
    /// `token_mint` out of the pool, of which the ledger holds
    /// `total_pool_balance`.
    ///
    /// Fails with `NotAuthorized` where `caller` is not the owner, with
    /// `InvalidAmount` where `amount` is zero, and with
    /// `InsufficientAvailableBalance` where `amount` is more than is
    /// available of the asset, in this order. No transfer is to be made
    /// where it fails.
    pub fn withdraw(
        &self,
        caller: &Pubkey,
        total_pool_balance: u64,
        amount: u64,
        token_mint: Option<Pubkey>,
    ) -> (transfer: Result<TransferInstruction, LockerErrorCode>)
        requires
            self.wf(),
        ensures
            transfer == self.withdrawal_verdict(*caller, total_pool_balance, amount, token_mint),
    {
        if !caller.same(&self.authority) {
            return Err(LockerErrorCode::NotAuthorized);
        }
        if amount == 0 {
            return Err(LockerErrorCode::InvalidAmount);
        }
        let free = self.available(total_pool_balance, AssetFilter::Only(token_mint));
        if amount > free {
            return Err(LockerErrorCode::InsufficientAvailableBalance);
        }
        Ok(
            TransferInstruction {
                direction: TransferDirection::OutOfPool,
                owner: *caller,
                token_mint,
                amount,
            },
        )
    }

    /// Judges a request of `caller` to put `amount` of the asset
    /// `token_mint` into the pool.
    ///
    /// Fails with `NotAuthorized` where `caller` is not the owner, and with
    /// `InvalidAmount` where `amount` is zero.
    pub fn deposit(&self, caller: &Pubkey, amount: u64, token_mint: Option<Pubkey>) -> (transfer:
        Result<TransferInstruction, LockerErrorCode>)
        ensures
            transfer == self.deposit_verdict(*caller, amount, token_mint),
    {
        if !caller.same(&self.authority) {
            return Err(LockerErrorCode::NotAuthorized);
        }
        if amount == 0 {
            return Err(LockerErrorCode::InvalidAmount);
        }
        Ok(
            TransferInstruction {
                direction: TransferDirection::IntoPool,
                owner: *caller,
                token_mint,
                amount,
            },
        )
    }
}

} // verus!
