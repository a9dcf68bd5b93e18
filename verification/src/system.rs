//! The system module: global block height and per-account transaction
//! counters (nonces).

use vstd::prelude::*;
use vstd::hash_map::StringHashMap;

verus! {

/// The nonce recorded for `account` in `nonces`; an absent account has
/// nonce zero.
pub open spec fn nonce_in(nonces: Map<Seq<char>, u32>, account: Seq<char>) -> u32 {
    if nonces.contains_key(account) {
        nonces[account]
    } else {
        0u32
    }
}

/// Chain metadata: the current block number and every account's nonce.
pub struct Pallet {
    block_number: u32,
    nonce: StringHashMap<u32>,
}

impl Pallet {
    /// The current block number.
    pub closed spec fn spec_block_number(self) -> u32 {
        self.block_number
    }

    /// The stored nonce map, keyed by account identifier.
    pub closed spec fn nonces(self) -> Map<Seq<char>, u32> {
        self.nonce@
    }

    /// The nonce of `account`, zero when the account has none recorded.
    pub open spec fn nonce_of(self, account: Seq<char>) -> u32 {
        nonce_in(self.nonces(), account)
    }

    /// The genesis state: block number zero and no nonces recorded, so
    /// every account starts with nonce zero.
    pub fn new() -> (r: Self)
        ensures
            r.spec_block_number() == 0,
            r.nonces() == Map::<Seq<char>, u32>::empty(),
            forall|a: Seq<char>| r.nonce_of(a) == 0,
    {
        Pallet { block_number: 0, nonce: StringHashMap::new() }
    }

    /// The current block number; reads only.
    pub fn get_block_number(&self) -> (r: u32)
        ensures
            r == self.spec_block_number(),
    {
        self.block_number
    }

    /// The nonce of `account`, zero if absent; reads only.
    pub fn get_nonce(&self, account: &String) -> (r: u32)
        ensures
            r == self.nonce_of(account@),
    {
        match self.nonce.get(account.as_str()) {
            Some(n) => *n,
            None => 0,
        }
    }

    /// Advances the block number by one.  Block-number exhaustion is an
    /// unrecoverable condition this runtime is not designed to handle, so
    /// the precondition rules it out.
    pub fn increment_block_number(&mut self)
        requires
            old(self).spec_block_number() < u32::MAX,
        ensures
            final(self).spec_block_number() == old(self).spec_block_number() + 1,
            final(self).nonces() == old(self).nonces(),
    {
        self.block_number = self.block_number + 1;
    }

    /// Records one more transaction for `account`: its nonce becomes the
    /// previous nonce (zero if absent) plus one.  Nonce exhaustion is ruled
    /// out by the precondition, the same checked discipline as the block
    /// number.
    pub fn increment_nonce(&mut self, account: &String)
        requires
            old(self).nonce_of(account@) < u32::MAX,
        ensures
            final(self).nonces() == old(self).nonces().insert(
                account@,
                (old(self).nonce_of(account@) + 1) as u32,
            ),
            final(self).spec_block_number() == old(self).spec_block_number(),
    {
        let current = self.get_nonce(account);
        self.nonce.insert(account.clone(), current + 1);
    }
}

} // verus!
