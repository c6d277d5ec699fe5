//! A price reading of the oracle, and the test of its age.

use vstd::prelude::*;
use crate::errors::LockerErrorCode;
use crate::states::Pubkey;

verus! {

/// The greatest distance, in seconds, between a reading's publish time and
/// the current time at which the reading is still used.
pub const MAX_PRICE_AGE: u64 = 60;

/// The latest reading of one price source: a point estimate `price` with its
/// confidence interval `conf`, both scaled by ten to the power `expo`, and
/// the time at which the oracle published it.
#[derive(Debug, Clone, Copy, PartialEq, Eq)]
pub struct PriceFeed {
    pub id: Pubkey,
    pub price: i64,
    pub conf: u64,
    pub expo: i32,
    pub publish_time: i64,
}

impl PriceFeed {
    /// The distance in seconds between the publish time and `now`, to either side.
    pub open spec fn distance(&self, now: i64) -> int {
        if self.publish_time >= now {
            self.publish_time - now
        } else {
            now - self.publish_time
        }
    }

    /// Whether the reading is too far from `now` to be used.
    pub open spec fn is_stale(&self, now: i64) -> bool {
        self.distance(now) > MAX_PRICE_AGE
    }
}

/// Calls `pyth_sdk::PriceFeed::get_price_no_older_than` on a feed made of
/// the given reading, and keeps the point estimate of what comes back.
///
/// Believed, not proved: the call returns nothing where the publish time is
/// more than `age` seconds from `current_time`, to either side, and the
/// reading otherwise. The difference of the two times must fit an `i64` and
/// have an absolute value that does, as the outside code subtracts them and
/// takes the absolute value.
#[verifier::external_body]
fn price_no_older_than(feed: &PriceFeed, current_time: i64, age: u64) -> (price: Option<i64>)
    requires
        i64::MIN < feed.publish_time - current_time <= i64::MAX,
    ensures
        price == if feed.distance(current_time) > age {
            None
        } else {
            Some(feed.price)
        },
{
    let reading = pyth_sdk::Price {
        price: feed.price,
        conf: feed.conf,
        expo: feed.expo,
        publish_time: feed.publish_time,
    };
    let outside = pyth_sdk::PriceFeed::new(pyth_sdk::PriceIdentifier::new(feed.id.bytes), reading, reading);
    outside.get_price_no_older_than(current_time, age).map(|fresh| fresh.price)
}

/// The point estimate of a reading that is at most `MAX_PRICE_AGE` seconds
/// from `now`; the confidence interval is not looked at.
pub fn get_price_from_pricefeed(feed: &PriceFeed, now: i64) -> (price: Result<i64, LockerErrorCode>)
    ensures
        price == if feed.is_stale(now) {
            Err::<i64, LockerErrorCode>(LockerErrorCode::StalePriceFeed)
        } else {
            Ok(feed.price)
        },
{
    let difference: i128 = feed.publish_time as i128 - now as i128;
    if difference <= i64::MIN as i128 || difference > i64::MAX as i128 {
        return Err(LockerErrorCode::StalePriceFeed);
    }
    match price_no_older_than(feed, now, MAX_PRICE_AGE) {
        Some(price) => Ok(price),
        None => Err(LockerErrorCode::StalePriceFeed),
    }
}

} // verus!
