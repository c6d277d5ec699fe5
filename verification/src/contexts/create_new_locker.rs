use vstd::prelude::*;
use crate::errors::LockerErrorCode;
use crate::states::{Lock, Locker, Pubkey};

verus! {

/// The making of a locker: the signer who will own it, the record to fill,
/// and the current time.
#[derive(Debug, Clone, PartialEq, Eq)]
pub struct CreateNewLocker {
    pub authority: Pubkey,
    pub locker: Locker,
    pub time_now: u32,
}

impl CreateNewLocker {
    /// Fills the record: the signer owns the locker, it was created now, it
    /// holds no locks and nothing of it is staked.
    pub fn process(&mut self, bump: u8) -> (result: Result<(), LockerErrorCode>)
        ensures
            result is Ok,
            final(self).authority == old(self).authority,
            final(self).time_now == old(self).time_now,
            final(self).locker.authority == old(self).authority,
            final(self).locker.creation_ts == old(self).time_now,
            final(self).locker.locks@ == Seq::<Lock>::empty(),
            final(self).locker.staked == false,
            final(self).locker.bump == bump,
            final(self).locker.wf(),
    {
        self.locker = Locker::new(self.authority, self.time_now, bump);
        Ok(())
    }
}

} // verus!
