use vstd::prelude::*;
use crate::errors::LockerErrorCode;
use crate::states::{Lock, Locker, Pubkey};

verus! {

/// A request for a price lock: the signer, the locker, and what the ledger
/// holds for the locker of the asset to be locked.
#[derive(Debug, Clone, PartialEq, Eq)]
pub struct PriceLockFunds {
    pub authority: Pubkey,
    pub locker: Locker,
    pub pool_balance: u64,
}

impl PriceLockFunds {
    /// The judgement on the request: `NotAuthorized` where the signer does
    /// not own the locker, else the locker's own.
    pub open spec fn verdict(&self, amount: u32, token_mint: Option<Pubkey>) -> Result<
        u8,
        LockerErrorCode,
    > {
        if self.authority != self.locker.authority {
            Err(LockerErrorCode::NotAuthorized)
        } else {
            self.locker.creation_verdict(self.pool_balance, amount, token_mint)
        }
    }

    /// Appends a price lock to the signer's own locker.
    ///
    /// Fails with `NotAuthorized` where the signer does not own the locker,
    /// and as `Locker::create_price_lock` does; nothing is changed then.
    pub fn process(
        &mut self,
        strike_price: u32,
        amount: u32,
        token_mint: Option<Pubkey>,
        join: Option<u8>,
    ) -> (result: Result<(), LockerErrorCode>)
        requires
            old(self).locker.wf(),
        ensures
            final(self).locker.wf(),
            final(self).authority == old(self).authority,
            final(self).pool_balance == old(self).pool_balance,
            final(self).locker.same_header(&old(self).locker),
            match old(self).verdict(amount, token_mint) {
                Err(refusal) => result == Err::<(), LockerErrorCode>(refusal) && *final(self) == *old(
                    self,
                ),
                Ok(new_id) => result is Ok && final(self).locker.locks@ == old(self).locker.locks@.push(
                    (Lock::PriceLock { id: new_id, strike_price, amount, token_mint, locked: true, join }),
                ),
            },
    {
        if !self.authority.same(&self.locker.authority) {
            return Err(LockerErrorCode::NotAuthorized);
        }
        match self.locker.create_price_lock(self.pool_balance, strike_price, amount, token_mint, join) {
            Err(e) => Err(e),
            Ok(_) => Ok(()),
        }
    }
}

} // verus!
