use vstd::prelude::*;
use crate::keymap::KeyMap;
use crate::types::{AccountId, BlockNumber, Nonce};

verus! {

/// The contents of the block and nonce ledger.
pub struct SystemState {
    pub block_number: u32,
    pub nonces: Map<Seq<char>, u32>,
}

/// The nonce that a ledger records for `who`; an account that never acted has nonce zero.
pub open spec fn nonce_of(nonces: Map<Seq<char>, u32>, who: Seq<char>) -> u32 {
    if nonces.contains_key(who) {
        nonces[who]
    } else {
        0
    }
}

/// The state after one more call by `who` is counted.
pub open spec fn nonce_bumped(s: SystemState, who: Seq<char>) -> SystemState {
    SystemState {
        block_number: s.block_number,
        nonces: s.nonces.insert(who, (nonce_of(s.nonces, who) + 1) as u32),
    }
}

/// The block and nonce ledger: the current block number and each account's nonce.
pub struct Pallet {
    block_number: BlockNumber,
    nonce: KeyMap<Nonce>,
}

impl View for Pallet {
    type V = SystemState;

    closed spec fn view(&self) -> SystemState {
        SystemState { block_number: self.block_number, nonces: self.nonce@ }
    }
}

impl Pallet {
    pub closed spec fn wf(&self) -> bool {
        self.nonce.wf()
    }

    pub fn new() -> (r: Self)
        ensures
            r.wf(),
            r@ == (SystemState { block_number: 0, nonces: Map::empty() }),
    {
        Pallet { block_number: 0, nonce: KeyMap::new() }
    }

    /// The number of the last block executed, zero before the first.
    pub fn block_number(&self) -> (r: BlockNumber)
        ensures
            r == self@.block_number,
    {
        self.block_number
    }

    /// Advances the block number by one.
    pub fn inc_block_number(&mut self)
        requires
            old(self)@.block_number < u32::MAX,
        ensures
            final(self)@ == (SystemState {
                block_number: (old(self)@.block_number + 1) as u32,
                nonces: old(self)@.nonces,
            }),
            final(self).wf() == old(self).wf(),
    {
        self.block_number = self.block_number + 1;
    }

    /// The nonce of `who`, zero for an account that never acted.
    pub fn nonce(&self, who: &AccountId) -> (r: Nonce)
        requires
            self.wf(),
        ensures
            r == nonce_of(self@.nonces, who@),
    {
        match self.nonce.get(who) {
            Some(n) => *n,
            None => 0,
        }
    }

    /// Counts one more call by `who`.
    pub fn inc_nonce(&mut self, who: &AccountId)
        requires
            old(self).wf(),
            nonce_of(old(self)@.nonces, who@) < u32::MAX,
        ensures
            final(self).wf(),
            final(self)@ == nonce_bumped(old(self)@, who@),
            nonce_of(final(self)@.nonces, who@) == nonce_of(old(self)@.nonces, who@) + 1,
    {
        let prev = self.nonce(who);
        self.nonce.insert(who.clone(), prev + 1);
    }
}

} // verus!
