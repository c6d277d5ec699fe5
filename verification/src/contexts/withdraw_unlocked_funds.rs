use vstd::prelude::*;
use crate::errors::LockerErrorCode;
use crate::states::{Locker, Pubkey};
use crate::withdrawal::TransferInstruction;

verus! {

/// A request to take funds out of a pool: the signer, the locker, and what
/// the ledger holds for the locker of the asset asked for.
#[derive(Debug, Clone, PartialEq, Eq)]
pub struct WithdrawUnlockedFunds {
    pub authority: Pubkey,
    pub locker: Locker,
    pub pool_balance: u64,
}

impl WithdrawUnlockedFunds {
    /// Judges the withdrawal and returns the transfer that the ledger is to
    /// make, as `Locker::withdraw` does with the signer as caller. The
    /// locker is not changed.
    pub fn process(&mut self, amount: u64, token_mint: Option<Pubkey>) -> (result: Result<
        TransferInstruction,
        LockerErrorCode,
    >)
        requires
            old(self).locker.wf(),
        ensures
            *final(self) == *old(self),
            result == old(self).locker.withdrawal_verdict(
                old(self).authority,
                old(self).pool_balance,
                amount,
                token_mint,
            ),
    {
        self.locker.withdraw(&self.authority, self.pool_balance, amount, token_mint)
    }
}

} // verus!
