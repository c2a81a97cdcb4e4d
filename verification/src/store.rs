//! The local store: per-chain high-water mark, per-(chain, height) blocks,
//! and per-chain TPS record.
//!
//! Each call reads or writes one key; a write overwrites whatever the key
//! held (last writer wins). The surrounding program owns sharing of the
//! handle; nothing here locks.

use std::collections::HashMap;

use vstd::prelude::*;

use crate::chain::{chain_index_spec, lemma_chain_index_bijective, Block, Chain, NUM_CHAINS};

verus! {

broadcast use vstd::std_specs::hash::group_hash_axioms;

/// One chain's trailing-window transaction rate: the whole-window
/// transaction count over the window's length in seconds. The rate
/// itself is the quotient of the two, which the surrounding program
/// takes as it likes; the store keeps the exact pair.
#[derive(Clone, Copy, PartialEq, Eq, Structural, Debug)]
pub struct TpsRate {
    pub num_txs: u32,
    pub seconds: u32,
}

struct ChainSlot {
    highest: Option<u64>,
    blocks: HashMap<u64, Block>,
    tps: Option<TpsRate>,
}

/// Keyed storage for everything the engine persists, one slot per chain.
pub struct Store {
    slots: Vec<ChainSlot>,
}

impl Store {
    /// The high-water mark recorded for a chain, if any.
    pub closed spec fn highest_of(&self, c: Chain) -> Option<u64> {
        self.slots@[chain_index_spec(c)].highest
    }

    /// The blocks stored for a chain, by height.
    pub closed spec fn blocks_of(&self, c: Chain) -> Map<u64, Block> {
        self.slots@[chain_index_spec(c)].blocks@
    }

    /// The TPS record stored for a chain, if any.
    pub closed spec fn tps_of(&self, c: Chain) -> Option<TpsRate> {
        self.slots@[chain_index_spec(c)].tps
    }

    /// There is a slot for every chain.
    pub closed spec fn slots_ok(&self) -> bool {
        self.slots@.len() == NUM_CHAINS
    }

    /// A store is well formed when it has a slot for every chain and
    /// every stored block sits under the key it identifies itself by:
    /// its own chain and height.
    pub open spec fn wf(&self) -> bool {
        &&& self.slots_ok()
        &&& forall|c: Chain, h: u64|
            #[trigger] self.blocks_of(c).contains_key(h) ==> self.blocks_of(c)[h].chain == c
                && self.blocks_of(c)[h].block_number == h
    }

    /// Everything except chain `c`'s blocks and high-water mark is the
    /// same in both stores.
    pub open spec fn frame_except(&self, other: &Store, c: Chain) -> bool {
        &&& forall|c2: Chain| c2 != c ==> #[trigger] self.highest_of(c2) == other.highest_of(c2)
        &&& forall|c2: Chain| c2 != c ==> #[trigger] self.blocks_of(c2) == other.blocks_of(c2)
        &&& forall|c2: Chain| #[trigger] self.tps_of(c2) == other.tps_of(c2)
    }

    /// An empty store: nothing recorded for any chain.
    pub fn new() -> (r: Store)
        ensures
            r.wf(),
            forall|c: Chain| #[trigger] r.highest_of(c) is None,
            forall|c: Chain| #[trigger] r.blocks_of(c) == Map::<u64, Block>::empty(),
            forall|c: Chain| #[trigger] r.tps_of(c) is None,
    {
        let mut slots: Vec<ChainSlot> = Vec::new();
        let mut i: usize = 0;
        while i < NUM_CHAINS
            invariant
                i == slots@.len(),
                i <= NUM_CHAINS,
                forall|j: int|
                    0 <= j < i ==> (#[trigger] slots@[j]).highest is None && slots@[j].blocks@
                        == Map::<u64, Block>::empty() && slots@[j].tps is None,
            decreases NUM_CHAINS - i,
        {
            slots.push(ChainSlot { highest: None, blocks: HashMap::new(), tps: None });
            i = i + 1;
        }
        let r = Store { slots };
        proof {
            assert forall|c: Chain| #[trigger]
                r.highest_of(c) is None && r.blocks_of(c) == Map::<u64, Block>::empty()
                && r.tps_of(c) is None by {
                lemma_chain_index_bijective(c, 0);
            }
        }
        r
    }

    /// The recorded high-water mark for `c`, or `None` if the chain was
    /// never synced.
    pub fn load_highest_block_number(&self, c: Chain) -> (r: Option<u64>)
        requires
            self.wf(),
        ensures
            r == self.highest_of(c),
    {
        self.slots[c.index()].highest
    }

    /// Record `h` as the high-water mark for `c`, replacing any prior one.
    pub fn store_highest_block_number(&mut self, c: Chain, h: u64)
        requires
            old(self).wf(),
        ensures
            final(self).wf(),
            final(self).highest_of(c) == Some(h),
            final(self).blocks_of(c) == old(self).blocks_of(c),
            final(self).frame_except(old(self), c),
    {
        let i = c.index();
        self.slots[i].highest = Some(h);
        proof {
            assert forall|c2: Chain| c2 != c implies #[trigger] self.highest_of(c2) == old(
                self,
            ).highest_of(c2) by {
                lemma_chain_index_bijective(c2, 0);
                lemma_chain_index_bijective(c, 0);
            }
            assert forall|c2: Chain, h2: u64| #[trigger]
                self.blocks_of(c2).contains_key(h2) implies self.blocks_of(c2)[h2].chain == c2
                && self.blocks_of(c2)[h2].block_number == h2 by {
                lemma_chain_index_bijective(c2, 0);
                assert(self.blocks_of(c2) == old(self).blocks_of(c2));
            }
        }
    }

    /// The block stored for `c` at height `h`, if any.
    pub fn load_block(&self, c: Chain, h: u64) -> (r: Option<&Block>)
        requires
            self.wf(),
        ensures
            match r {
                Some(b) => self.blocks_of(c).contains_key(h) && *b == self.blocks_of(c)[h],
                None => !self.blocks_of(c).contains_key(h),
            },
    {
        self.slots[c.index()].blocks.get(&h)
    }

    /// Store a block under the key it identifies itself by, overwriting
    /// whatever that key held.
    pub fn store_block(&mut self, b: Block)
        requires
            old(self).wf(),
        ensures
            final(self).wf(),
            final(self).blocks_of(b.chain) == old(self).blocks_of(b.chain).insert(
                b.block_number,
                b,
            ),
            final(self).highest_of(b.chain) == old(self).highest_of(b.chain),
            final(self).frame_except(old(self), b.chain),
    {
        let ghost c = b.chain;
        let ghost h = b.block_number;
        let i = b.chain.index();
        let number = b.block_number;
        self.slots[i].blocks.insert(number, b);
        proof {
            assert forall|c2: Chain| c2 != c implies #[trigger] self.blocks_of(c2) == old(
                self,
            ).blocks_of(c2) && #[trigger] self.highest_of(c2) == old(self).highest_of(c2) by {
                lemma_chain_index_bijective(c2, 0);
                lemma_chain_index_bijective(c, 0);
            }
            assert(self.blocks_of(c) == old(self).blocks_of(c).insert(h, b));
            assert forall|c2: Chain, h2: u64| #[trigger]
                self.blocks_of(c2).contains_key(h2) implies self.blocks_of(c2)[h2].chain == c2
                && self.blocks_of(c2)[h2].block_number == h2 by {
                lemma_chain_index_bijective(c2, 0);
                lemma_chain_index_bijective(c, 0);
                if c2 == c {
                    assert(self.blocks_of(c2) == old(self).blocks_of(c).insert(h, b));
                } else {
                    assert(self.blocks_of(c2) == old(self).blocks_of(c2));
                }
            }
        }
    }

    /// Store `t` as the TPS record for `c`, replacing any prior one.
    pub fn store_tps(&mut self, c: Chain, t: TpsRate)
        requires
            old(self).wf(),
        ensures
            final(self).wf(),
            final(self).tps_of(c) == Some(t),
            forall|c2: Chain|
                c2 != c ==> #[trigger] final(self).tps_of(c2) == old(self).tps_of(c2),
            forall|c2: Chain| #[trigger] final(self).highest_of(c2) == old(self).highest_of(c2),
            forall|c2: Chain| #[trigger] final(self).blocks_of(c2) == old(self).blocks_of(c2),
    {
        let i = c.index();
        self.slots[i].tps = Some(t);
        proof {
            assert forall|c2: Chain| c2 != c implies #[trigger] self.tps_of(c2) == old(
                self,
            ).tps_of(c2) by {
                lemma_chain_index_bijective(c2, 0);
                lemma_chain_index_bijective(c, 0);
            }
            assert forall|c2: Chain, h2: u64| #[trigger]
                self.blocks_of(c2).contains_key(h2) implies self.blocks_of(c2)[h2].chain == c2
                && self.blocks_of(c2)[h2].block_number == h2 by {
                lemma_chain_index_bijective(c2, 0);
                assert(self.blocks_of(c2) == old(self).blocks_of(c2));
            }
        }
    }

    /// Storing a block is idempotent: storing the same block twice at the
    /// same key leaves exactly the map that storing it once leaves, for
    /// any chain's block map and any block. This is the relation
    /// [`Store::store_block`]'s contract writes the store's change as.
    pub proof fn lemma_store_block_idempotent(m: Map<u64, Block>, b: Block)
        ensures
            m.insert(b.block_number, b).insert(b.block_number, b) == m.insert(b.block_number, b),
    {
        assert(m.insert(b.block_number, b).insert(b.block_number, b) =~= m.insert(
            b.block_number,
            b,
        ));
    }

    /// The TPS record stored for `c`, if any.
    pub fn load_tps(&self, c: Chain) -> (r: Option<TpsRate>)
        requires
            self.wf(),
        ensures
            r == self.tps_of(c),
    {
        self.slots[c.index()].tps
    }
}

} // verus!
