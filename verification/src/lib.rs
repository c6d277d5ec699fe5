//! A value pool ("locker") whose funds are held back by release conditions
//! ("locks"): a lock opens when a point in time is reached or when an oracle
//! price reaches a strike price. The crate holds the data model, the
//! accounting of locked and available funds, the rules that open a lock,
//! and the gates that admit new locks, deposits and withdrawals.
//!
//! The ledger that holds the funds, the clock and the oracle are outside:
//! every operation takes what they report as plain values and hands back
//! what is to be done.

pub mod accounting;
pub mod contexts;
pub mod engine;
pub mod errors;
pub mod laws;
pub mod lifecycle;
pub mod oracle;
pub mod states;
pub mod withdrawal;

pub use accounting::AssetFilter;
pub use contexts::{
    create_pricefeed_account, CreateNewLocker, CreatePricefeedAccount, DepositFunds, PriceLockFunds, PriceUnlockFunds,
    TimeLockFunds, TimeUnlockFunds, WithdrawUnlockedFunds,
};
pub use engine::{process_price_lock, process_time_lock, try_unlock, Trigger, UnlockOutcome};
pub use errors::LockerErrorCode;
pub use oracle::{get_price_from_pricefeed, PriceFeed, MAX_PRICE_AGE};
pub use states::{same_asset, Lock, Locker, Pricefeedaccount, Pubkey, ALL_LOCKS, MAX_LOCKS};
pub use withdrawal::{TransferDirection, TransferInstruction};
