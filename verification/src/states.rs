use std::str::FromStr;
use vstd::prelude::*;

verus! {

/// The most locks that one locker holds.
pub const MAX_LOCKS: usize = 10;

/// The index that stands for "every lock of the locker".
pub const ALL_LOCKS: u8 = 255;

/// A 32-byte identity on the ledger: an owner, a token mint, a price source.
#[derive(Debug, Clone, Copy, PartialEq, Eq, Hash)]
pub struct Pubkey {
    pub bytes: [u8; 32],
}

impl Pubkey {
    /// The key made of the given bytes.
    pub fn new(bytes: [u8; 32]) -> (key: Pubkey)
        ensures
            key.bytes == bytes,
    {
        Pubkey { bytes }
    }

    /// Whether two keys are the same key.
    pub fn same(&self, other: &Pubkey) -> (equal: bool)
        ensures
            equal == (*self == *other),
    {
        let mut i: usize = 0;
        while i < 32
            invariant
                i <= 32,
                forall|k: int| 0 <= k < i ==> self.bytes@[k] == other.bytes@[k],
            decreases 32 - i,
        {
            if self.bytes[i] != other.bytes[i] {
                return false;
            }
            i += 1;
        }
        proof {
            assert(self.bytes@ =~= other.bytes@);
            assert(self.bytes == other.bytes);
        }
        true
    }
}

/// The 32 bytes that a text stands for in the ledger's base-58 notation of
/// keys, where it stands for a key at all.
pub uninterp spec fn base58_pubkey(text: Seq<char>) -> Option<Seq<u8>>;

/// Calls `anchor_lang::prelude::Pubkey::from_str`, the ledger's own reading
/// of a key, and keeps the bytes of the key that comes back.
///
/// Believed, not proved: the call reads the text as base-58 and gives the
/// key whose 32 bytes it denotes, or an error where the text denotes no such
/// key; what it gives depends on the text alone.
#[verifier::external_body]
pub(crate) fn pubkey_from_str(text: &str) -> (key: Option<Pubkey>)
    ensures
        match key {
            Some(parsed) => base58_pubkey(text@) == Some(parsed.bytes@),
            None => base58_pubkey(text@) is None,
        },
{
    match anchor_lang::prelude::Pubkey::from_str(text) {
        Ok(parsed) => Some(Pubkey { bytes: parsed.to_bytes() }),
        Err(_) => None,
    }
}

/// Whether two optional assets are the same asset; an absent mint is the
/// ledger's native asset.
pub fn same_asset(a: &Option<Pubkey>, b: &Option<Pubkey>) -> (equal: bool)
    ensures
        equal == (*a == *b),
{
    match (a, b) {
        (None, None) => true,
        (Some(x), Some(y)) => x.same(y),
        _ => false,
    }
}

/// A name under which a price source of the oracle is registered.
#[derive(Debug, Clone, PartialEq, Eq)]
pub struct Pricefeedaccount {
    pub pricefeed_alias: String,
    pub pricefeed_id: Pubkey,
    pub bump: u8,
}

/// One release condition on a part of the pool.
///
/// `id` is the lock's position in its locker. `locked` is true from creation
/// until the condition is met, and false ever after. `join` names another
/// lock of the same locker with which this one forms a pair.
#[derive(Debug, Clone, Copy, PartialEq, Eq)]
pub enum Lock {
    /// Opens once the clock reaches `strike_time`.
    TimeLock {
        id: u8,
        strike_time: u32,
        amount: u32,
        token_mint: Option<Pubkey>,
        locked: bool,
        join: Option<u8>,
    },
    /// Opens once the oracle's price reaches `strike_price`.
    PriceLock {
        id: u8,
        strike_price: u32,
        amount: u32,
        token_mint: Option<Pubkey>,
        locked: bool,
        join: Option<u8>,
    },
}

impl Lock {
    /// The lock's position in its locker.
    pub open spec fn spec_id(&self) -> u8 {
        match *self {
            Lock::TimeLock { id, .. } => id,
            Lock::PriceLock { id, .. } => id,
        }
    }

    /// The amount that the lock holds back.
    pub open spec fn spec_amount(&self) -> u32 {
        match *self {
            Lock::TimeLock { amount, .. } => amount,
            Lock::PriceLock { amount, .. } => amount,
        }
    }

    /// The asset that the lock holds back; `None` is the native asset.
    pub open spec fn spec_token_mint(&self) -> Option<Pubkey> {
        match *self {
            Lock::TimeLock { token_mint, .. } => token_mint,
            Lock::PriceLock { token_mint, .. } => token_mint,
        }
    }

    /// Whether the condition is still unmet.
    pub open spec fn spec_is_locked(&self) -> bool {
        match *self {
            Lock::TimeLock { locked, .. } => locked,
            Lock::PriceLock { locked, .. } => locked,
        }
    }

    /// The lock that this one is paired with, if any.
    pub open spec fn spec_join(&self) -> Option<u8> {
        match *self {
            Lock::TimeLock { join, .. } => join,
            Lock::PriceLock { join, .. } => join,
        }
    }

    /// Whether the lock opens by time.
    pub open spec fn spec_is_time_lock(&self) -> bool {
        *self is TimeLock
    }

    /// The same lock with its condition met: `locked` is false, the rest is kept.
    pub open spec fn released(&self) -> Lock {
        match *self {
            Lock::TimeLock { id, strike_time, amount, token_mint, locked, join } => Lock::TimeLock {
                id,
                strike_time,
                amount,
                token_mint,
                locked: false,
                join,
            },
            Lock::PriceLock { id, strike_price, amount, token_mint, locked, join } => Lock::PriceLock {
                id,
                strike_price,
                amount,
                token_mint,
                locked: false,
                join,
            },
        }
    }

    /// The lock's position in its locker.
    #[verifier::when_used_as_spec(spec_id)]
    pub fn id(&self) -> (id: u8)
        ensures
            id == self.spec_id(),
    {
        match self {
            Lock::TimeLock { id, .. } => *id,
            Lock::PriceLock { id, .. } => *id,
        }
    }

    /// The amount that the lock holds back.
    #[verifier::when_used_as_spec(spec_amount)]
    pub fn amount(&self) -> (amount: u32)
        ensures
            amount == self.spec_amount(),
    {
        match self {
            Lock::TimeLock { amount, .. } => *amount,
            Lock::PriceLock { amount, .. } => *amount,
        }
    }

    /// The asset that the lock holds back; `None` is the native asset.
    #[verifier::when_used_as_spec(spec_token_mint)]
    pub fn token_mint(&self) -> (mint: Option<Pubkey>)
        ensures
            mint == self.spec_token_mint(),
    {
        match self {
            Lock::TimeLock { token_mint, .. } => *token_mint,
            Lock::PriceLock { token_mint, .. } => *token_mint,
        }
    }

    /// Whether the condition is still unmet.
    #[verifier::when_used_as_spec(spec_is_locked)]
    pub fn is_locked(&self) -> (locked: bool)
        ensures
            locked == self.spec_is_locked(),
    {
        match self {
            Lock::TimeLock { locked, .. } => *locked,
            Lock::PriceLock { locked, .. } => *locked,
        }
    }

    /// The lock that this one is paired with, if any.
    #[verifier::when_used_as_spec(spec_join)]
    pub fn join(&self) -> (join: Option<u8>)
        ensures
            join == self.spec_join(),
    {
        match self {
            Lock::TimeLock { join, .. } => *join,
            Lock::PriceLock { join, .. } => *join,
        }
    }

    /// Whether the lock opens by time; otherwise it opens by price.
    #[verifier::when_used_as_spec(spec_is_time_lock)]
    pub fn is_time_lock(&self) -> (time: bool)
        ensures
            time == self.spec_is_time_lock(),
    {
        match self {
            Lock::TimeLock { .. } => true,
            Lock::PriceLock { .. } => false,
        }
    }
}

/// A pool of funds with its owner and the locks on it.
///
/// The funds themselves are on the ledger: the locker records who owns the
/// pool and which parts of it are held back.
#[derive(Debug, Clone, PartialEq, Eq)]
pub struct Locker {
    pub authority: Pubkey,
    pub creation_ts: u32,
    pub locks: Vec<Lock>,
    pub staked: bool,
    pub bump: u8,
}

impl Locker {
    /// A locker is well formed when it holds at most `MAX_LOCKS` locks, each
    /// lock's id is its position, and each lock holds back a positive amount.
    pub open spec fn wf(&self) -> bool {
        &&& self.locks@.len() <= MAX_LOCKS
        &&& forall|i: int|
            0 <= i < self.locks@.len() ==> {
                &&& (#[trigger] self.locks@[i]).spec_id() == i
                &&& self.locks@[i].spec_amount() > 0
            }
    }

    /// Whether `other` has the same owner, creation time, stake flag and bump.
    pub open spec fn same_header(&self, other: &Locker) -> bool {
        &&& self.authority == other.authority
        &&& self.creation_ts == other.creation_ts
        &&& self.staked == other.staked
        &&& self.bump == other.bump
    }

    /// Whether every `join` names another lock that the locker holds.
    pub open spec fn spec_joins_resolve(&self) -> bool {
        forall|i: int|
            0 <= i < self.locks@.len() ==> match (#[trigger] self.locks@[i]).spec_join() {
                Some(partner) => partner != i && partner < self.locks@.len(),
                None => true,
            }
    }

    /// Tests whether every `join` names another lock that the locker holds.
    ///
    /// The first half of a pair is created before the lock that it names, so
    /// this holds of a locker only once its pairs are complete.
    #[verifier::when_used_as_spec(spec_joins_resolve)]
    pub fn joins_resolve(&self) -> (ok: bool)
        ensures
            ok == self.spec_joins_resolve(),
    {
        let mut i: usize = 0;
        while i < self.locks.len()
            invariant
                i <= self.locks@.len(),
                forall|k: int|
                    0 <= k < i ==> match (#[trigger] self.locks@[k]).spec_join() {
                        Some(partner) => partner != k && partner < self.locks@.len(),
                        None => true,
                    },
            decreases self.locks@.len() - i,
        {
            match self.locks[i].join() {
                Some(partner) => {
                    if partner as usize == i || partner as usize >= self.locks.len() {
                        return false;
                    }
                },
                None => {},
            }
            i += 1;
        }
        true
    }

    /// A locker without locks, owned by `authority`.
    pub fn new(authority: Pubkey, creation_ts: u32, bump: u8) -> (locker: Locker)
        ensures
            locker.wf(),
            locker.locks@ == Seq::<Lock>::empty(),
            locker.authority == authority,
            locker.creation_ts == creation_ts,
            locker.staked == false,
            locker.bump == bump,
    {
        Locker { authority, creation_ts, locks: Vec::new(), staked: false, bump }
    }

    /// Tests whether the locker is well formed.
    pub fn is_well_formed(&self) -> (ok: bool)
        ensures
            ok == self.wf(),
    {
        if self.locks.len() > MAX_LOCKS {
            return false;
        }
        let mut i: usize = 0;
        while i < self.locks.len()
            invariant
                i <= self.locks@.len() <= MAX_LOCKS,
                forall|k: int|
                    0 <= k < i ==> {
                        &&& (#[trigger] self.locks@[k]).spec_id() == k
                        &&& self.locks@[k].spec_amount() > 0
                    },
            decreases self.locks@.len() - i,
        {
            let lock = &self.locks[i];
            if lock.id() as usize != i || lock.amount() == 0 {
                return false;
            }
            i += 1;
        }
        true
    }
}

} // verus!
