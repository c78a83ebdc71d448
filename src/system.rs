//! The account registry: the height of the chain and a call counter per account.
use vstd::prelude::*;
use crate::store::StringMap;

verus! {

/// The height of a block.
pub type BlockNumber = u64;

/// How many calls an account has submitted.
pub type Nonce = u32;

/// The nonce of `who` in `nonces`: an account without an entry has made no call.
pub open spec fn nonce_of(nonces: Map<Seq<char>, Nonce>, who: Seq<char>) -> nat {
    if nonces.contains_key(who) {
        nonces[who] as nat
    } else {
        0
    }
}

/// The account registry.
pub struct Pallet {
    block_number: BlockNumber,
    nonce: StringMap<Nonce>,
}

impl Pallet {
    /// The stored nonces are a well-formed map.
    pub closed spec fn wf(&self) -> bool {
        self.nonce.wf()
    }

    /// The current block number.
    pub closed spec fn block_number_spec(&self) -> BlockNumber {
        self.block_number
    }

    /// The stored nonces, by account.
    pub closed spec fn nonces(&self) -> Map<Seq<char>, Nonce> {
        self.nonce@
    }

    /// A registry at block zero in which no account has made a call.
    pub fn new() -> (r: Self)
        ensures
            r.wf(),
            r.block_number_spec() == 0,
            r.nonces() == Map::<Seq<char>, Nonce>::empty(),
    {
        Pallet { block_number: 0, nonce: StringMap::new() }
    }

    /// The current block number.
    pub fn block_number(&self) -> (r: BlockNumber)
        ensures
            r == self.block_number_spec(),
    {
        self.block_number
    }

    /// The stored nonce of `who`, or `None` where `who` has made no call.
    pub fn nonce(&self, who: &String) -> (r: Option<Nonce>)
        requires
            self.wf(),
        ensures
            r == (if self.nonces().contains_key(who@) {
                Some(self.nonces()[who@])
            } else {
                None::<Nonce>
            }),
    {
        match self.nonce.get(who) {
            Some(n) => Some(*n),
            None => None,
        }
    }

    /// Moves to the next block.
    pub fn inc_block_number(&mut self)
        requires
            old(self).block_number_spec() < BlockNumber::MAX,
        ensures
            final(self).block_number_spec() == old(self).block_number_spec() + 1,
            final(self).nonces() == old(self).nonces(),
            final(self).wf() == old(self).wf(),
    {
        self.block_number = self.block_number + 1;
    }

    /// Counts one more call by `who`.
    pub fn inc_nonce(&mut self, who: &String)
        requires
            old(self).wf(),
            nonce_of(old(self).nonces(), who@) < Nonce::MAX,
        ensures
            final(self).wf(),
            final(self).block_number_spec() == old(self).block_number_spec(),
            final(self).nonces() == old(self).nonces().insert(
                who@,
                (nonce_of(old(self).nonces(), who@) + 1) as Nonce,
            ),
    {
        let current: Nonce = match self.nonce.get(who) {
            Some(n) => *n,
            None => 0,
        };
        self.nonce.insert(who.clone(), current + 1);
    }
}

} // verus!
