use vstd::prelude::*;
use crate::errors::LockerErrorCode;
use crate::states::{Locker, Pubkey};
use crate::withdrawal::TransferInstruction;

verus! {

/// A request to put funds into a pool: the signer, the locker, and the
/// asset, which is the native one where no mint is given.
#[derive(Debug, Clone, PartialEq, Eq)]
pub struct DepositFunds {
    pub authority: Pubkey,
    pub locker: Locker,
    pub token_mint: Option<Pubkey>,
}

impl DepositFunds {
    /// Judges the deposit and returns the transfer that the ledger is to
    /// make, as `Locker::deposit` does with the signer as caller. The locker
    /// is not changed.
    pub fn process(&mut self, amount: u64) -> (result: Result<TransferInstruction, LockerErrorCode>)
        ensures
            *final(self) == *old(self),
            result == old(self).locker.deposit_verdict(
                old(self).authority,
                amount,
                old(self).token_mint,
            ),
    {
        self.locker.deposit(&self.authority, amount, self.token_mint)
    }
}

} // verus!
