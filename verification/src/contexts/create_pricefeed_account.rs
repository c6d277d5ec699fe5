use vstd::prelude::*;
use crate::errors::LockerErrorCode;
use crate::states::{base58_pubkey, pubkey_from_str, Pricefeedaccount, Pubkey};

verus! {

/// The registration of a price source under a name.
#[derive(Debug, Clone, PartialEq, Eq)]
pub struct CreatePricefeedAccount {
    pub authority: Pubkey,
    pub price_feed: Pricefeedaccount,
}

impl CreatePricefeedAccount {
    /// Records the name and the price source that it stands for.
    pub fn process(&mut self, pricefeed_alias: String, pricefeed_id: Pubkey, bump: u8) -> (result:
        Result<(), LockerErrorCode>)
        ensures
            result is Ok,
            final(self).authority == old(self).authority,
            final(self).price_feed.pricefeed_alias == pricefeed_alias,
            final(self).price_feed.pricefeed_id == pricefeed_id,
            final(self).price_feed.bump == bump,
    {
        self.price_feed.pricefeed_alias = pricefeed_alias;
        self.price_feed.pricefeed_id = pricefeed_id;
        self.price_feed.bump = bump;
        Ok(())
    }
}

/// Registers the price source that `pricefeed_id_string` denotes in base-58
/// under the name `pricefeed_alias`, and returns its key.
///
/// Where the text denotes no key, nothing is registered and `None` is
/// returned.
pub fn create_pricefeed_account(
    context: &mut CreatePricefeedAccount,
    pricefeed_alias: String,
    pricefeed_id_string: String,
    bump: u8,
) -> (registered: Option<Pubkey>)
    ensures
        match base58_pubkey(pricefeed_id_string@) {
            Some(bytes) => {
                &&& registered matches Some(key)
                &&& key.bytes@ == bytes
                &&& final(context).price_feed.pricefeed_id == key
                &&& final(context).price_feed.pricefeed_alias == pricefeed_alias
                &&& final(context).price_feed.bump == bump
                &&& final(context).authority == old(context).authority
            },
            None => registered is None && *final(context) == *old(context),
        },
{
    match pubkey_from_str(pricefeed_id_string.as_str()) {
        None => None,
        Some(pricefeed_id) => {
            let _ = context.process(pricefeed_alias, pricefeed_id, bump);
            Some(pricefeed_id)
        },
    }
}

} // verus!
