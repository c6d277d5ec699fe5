//! One context for each operation of the program: what the operation is
//! given by the ledger, the clock and the oracle, as plain values, and the
//! `process` that carries it out on them.

pub mod create_new_locker;
pub mod create_pricefeed_account;
pub mod deposit_funds;
pub mod price_lock_funds;
pub mod price_unlock_funds;
pub mod time_lock_funds;
pub mod time_unlock_funds;
pub mod withdraw_unlocked_funds;

pub use create_new_locker::CreateNewLocker;
pub use create_pricefeed_account::{create_pricefeed_account, CreatePricefeedAccount};
pub use deposit_funds::DepositFunds;
pub use price_lock_funds::PriceLockFunds;
pub use price_unlock_funds::PriceUnlockFunds;
pub use time_lock_funds::TimeLockFunds;
pub use time_unlock_funds::TimeUnlockFunds;
pub use withdraw_unlocked_funds::WithdrawUnlockedFunds;
