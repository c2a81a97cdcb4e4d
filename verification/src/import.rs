//! The import engine: per-chain backward-walking synchronization and reorg
//! reconciliation.
//!
//! One pass for one chain starts from the remote-reported head height and
//! walks backward, storing each fetched block, until one of three named
//! stopping conditions holds: the initial-sync cap, genesis, or
//! reconnection to the previously synced prefix. The walk is driven one
//! block at a time: the surrounding program fetches the block the walk
//! asks for (waiting out node lag with a bounded retry delay, and keeping a
//! courtesy delay between fetches) and hands it to [`ImportWalk::on_block`],
//! which makes every decision and updates the store. When the walk
//! completes, the new high-water mark is already persisted.
//!
//! The engine never validates blocks; it trusts the remote's current head
//! as canonical and only detects where the locally stored chain diverges
//! from it, by comparing stored hash/parent-hash links.

use vstd::prelude::*;

use crate::chain::{Block, Chain};
use crate::store::Store;

verus! {

/// How many blocks the first-ever pass for a chain stores before it stops,
/// instead of walking all the way to genesis.
pub const INITIAL_SYNC_BLOCKS: u64 = 100;

/// Hash-linkage of the blocks of one chain, at every adjacent pair of
/// heights up to `upto` where both blocks are present: the higher block's
/// `parent_hash` names the lower block's `hash`.
pub open spec fn linked_below(m: Map<u64, Block>, upto: u64) -> bool {
    forall|h: u64|
        1 <= h <= upto && #[trigger] m.contains_key(h) && m.contains_key((h - 1) as u64)
            ==> m[h].parent_hash@ == m[(h - 1) as u64].hash@
}

/// Why a walk stopped.
#[derive(Clone, Copy, PartialEq, Eq, Structural, Debug)]
pub enum StopReason {
    /// First-ever sync for this chain, and the pass has stored exactly
    /// [`INITIAL_SYNC_BLOCKS`] blocks.
    InitialSyncCap,
    /// The walk stored the block at height 0.
    Genesis,
    /// The locally stored block one below the walk is the parent of the
    /// block just stored, and sits at or below the old high-water mark:
    /// the walk has reconnected to the previously synced prefix.
    Reconnected,
}

/// What one step of the walk decided.
#[derive(Clone, Copy, PartialEq, Eq, Structural, Debug)]
pub enum WalkStep {
    /// Fetch the next lower height (after a courtesy delay) and hand it
    /// to the walk.
    Continue,
    /// The pass is over and the new high-water mark is stored. The caller
    /// applies the rescan delay and re-queues an import job for the chain.
    Complete(StopReason),
}

/// One in-progress import pass for one chain.
pub struct ImportWalk {
    /// The chain this pass imports.
    pub chain: Chain,
    /// The remote-reported head height the pass started from; the walk
    /// stores this as the new high-water mark when it completes.
    pub head: u64,
    /// The high-water mark recorded before the pass, if any.
    pub prior_highest: Option<u64>,
    /// How many blocks this pass has stored.
    pub synced: u64,
    /// The height the walk wants fetched next.
    pub height: u64,
    /// The chain's stored blocks as they were when the pass began.
    pub start_blocks: Ghost<Map<u64, Block>>,
    /// The blocks this pass has stored, by height.
    pub fetched: Ghost<Map<u64, Block>>,
}

impl ImportWalk {
    /// The walk will stop at the initial-sync cap after storing the block
    /// it is waiting for.
    pub open spec fn cap_stop(self) -> bool {
        self.prior_highest is None && self.synced + 1 == INITIAL_SYNC_BLOCKS
    }

    /// The walk will stop at genesis after storing the block it is
    /// waiting for.
    pub open spec fn genesis_stop(self) -> bool {
        !self.cap_stop() && self.height == 0
    }

    /// After storing `block` (the block the walk is waiting for), the
    /// walk finds the stored block one height below to be `block`'s
    /// parent, at or below the old high-water mark: it has reconnected.
    /// `s` is the store as it was before `block` was stored.
    pub open spec fn reconnect_stop(self, s: &Store, block: Block) -> bool {
        &&& !self.cap_stop()
        &&& !self.genesis_stop()
        &&& self.height >= 1
        &&& s.blocks_of(self.chain).contains_key((self.height - 1) as u64)
        &&& s.blocks_of(self.chain)[(self.height - 1) as u64].hash@ == block.parent_hash@
        &&& match self.prior_highest {
            Some(s0) => self.height - 1 <= s0,
            None => false,
        }
    }

    /// What holds of a walk between steps.
    pub open spec fn inv(self, s: &Store) -> bool {
        &&& s.wf()
        &&& self.height <= self.head
        &&& self.synced == self.head - self.height
        &&& s.highest_of(self.chain) == self.prior_highest
        &&& forall|h: u64| #[trigger]
            self.fetched@.contains_key(h) <==> self.height < h <= self.head
        &&& s.blocks_of(self.chain) == self.start_blocks@.union_prefer_right(self.fetched@)
    }

    /// What a completed earlier pass (or a fresh store) guarantees when
    /// this pass begins: with no high-water mark the chain has no stored
    /// blocks, and with one, the stored blocks below it are hash-linked.
    pub open spec fn pre_pass_ok(self) -> bool {
        match self.prior_highest {
            None => self.start_blocks@ =~= Map::<u64, Block>::empty(),
            Some(s0) => linked_below(self.start_blocks@, s0),
        }
    }
}

/// Step 1 to 3 of a pass: read the high-water mark and compare it with the
/// remote head `head`. Equal means nothing to do this pass; otherwise the
/// walk starts at `head`. A head below the recorded mark still walks: the
/// remote is trusted as canonical, and the walk will reconnect or rewrite
/// as the links dictate.
pub fn begin_import(store: &Store, chain: Chain, head: u64) -> (r: Option<ImportWalk>)
    requires
        store.wf(),
    ensures
        match r {
            None => store.highest_of(chain) == Some(head),
            Some(w) => {
                &&& store.highest_of(chain) != Some(head)
                &&& w.chain == chain
                &&& w.head == head
                &&& w.height == head
                &&& w.synced == 0
                &&& w.prior_highest == store.highest_of(chain)
                &&& w.start_blocks@ == store.blocks_of(chain)
                &&& w.fetched@ == Map::<u64, Block>::empty()
                &&& w.inv(store)
            },
        },
{
    let highest = store.load_highest_block_number(chain);
    let same = match highest {
        Some(s0) => s0 == head,
        None => false,
    };
    if same {
        None
    } else {
        let w = ImportWalk {
            chain,
            head,
            prior_highest: highest,
            synced: 0,
            height: head,
            start_blocks: Ghost(store.blocks_of(chain)),
            fetched: Ghost(Map::empty()),
        };
        proof {
            assert(store.blocks_of(chain) =~= w.start_blocks@.union_prefer_right(w.fetched@));
        }
        Some(w)
    }
}

impl ImportWalk {
    /// Step 4 of a pass: take the fetched block for the height the walk
    /// asked for, store it (overwriting any prior value under that key),
    /// and decide whether the walk is over. On completion the new
    /// high-water mark — the head this pass started from — is stored too.
    ///
    /// The three stopping conditions are pinned exactly: the result is
    /// `Complete` with the matching reason if and only if the condition
    /// holds. In particular, a stored parent whose hash does not match
    /// the just-stored block's `parent_hash` (a reorg) never stops the
    /// walk: the walk continues downward and overwrites it.
    ///
    /// Continuity: when the pass completes, if the blocks the pass stored
    /// are themselves hash-linked (the remote was consistent while the
    /// pass ran) and the store met [`ImportWalk::pre_pass_ok`] when the
    /// pass began, then every adjacent pair of stored blocks below the
    /// new high-water mark is hash-linked.
    pub fn on_block(&mut self, store: &mut Store, block: Block) -> (r: WalkStep)
        requires
            old(self).inv(old(store)),
            old(self).synced < u64::MAX,
            block.chain == old(self).chain,
            block.block_number == old(self).height,
        ensures
            final(self).chain == old(self).chain,
            final(self).head == old(self).head,
            final(self).prior_highest == old(self).prior_highest,
            final(self).start_blocks == old(self).start_blocks,
            final(self).synced == old(self).synced + 1,
            final(self).fetched@ == old(self).fetched@.insert(old(self).height, block),
            final(store).wf(),
            final(store).frame_except(old(store), old(self).chain),
            final(store).blocks_of(old(self).chain) == old(store).blocks_of(
                old(self).chain,
            ).insert(old(self).height, block),
            (r == WalkStep::Continue) <==> (!old(self).cap_stop() && !old(self).genesis_stop()
                && !old(self).reconnect_stop(old(store), block)),
            (r == WalkStep::Complete(StopReason::InitialSyncCap)) <==> old(self).cap_stop(),
            (r == WalkStep::Complete(StopReason::InitialSyncCap)) ==> final(self).synced
                == INITIAL_SYNC_BLOCKS && old(self).head - old(self).height
                == INITIAL_SYNC_BLOCKS - 1,
            (r == WalkStep::Complete(StopReason::Genesis)) <==> old(self).genesis_stop(),
            (r == WalkStep::Complete(StopReason::Reconnected)) <==> old(self).reconnect_stop(
                old(store),
                block,
            ),
            r is Continue ==> {
                &&& final(self).height == old(self).height - 1
                &&& final(self).inv(final(store))
                &&& final(store).highest_of(old(self).chain) == old(self).prior_highest
            },
            r is Complete ==> {
                &&& final(self).height == old(self).height
                &&& final(store).highest_of(old(self).chain) == Some(old(self).head)
                &&& forall|x: u64| #[trigger]
                    final(self).fetched@.contains_key(x) <==> old(self).height <= x <= old(
                        self,
                    ).head
                &&& ((old(self).pre_pass_ok() && linked_below(
                    final(self).fetched@,
                    old(self).head,
                )) ==> linked_below(
                    final(store).blocks_of(old(self).chain),
                    old(self).head,
                ))
            },
    {
        let ghost w0 = *self;
        let ghost s0 = *old(store);
        let ghost gblock = block;

        let h = self.height;
        let parent_hash = block.parent_hash.clone();
        store.store_block(block);
        self.synced = self.synced + 1;
        self.fetched = Ghost(self.fetched@.insert(h, gblock));

        proof {
            vstd::map_lib::lemma_union_insert_right(w0.start_blocks@, w0.fetched@, h, gblock);
            assert forall|x: u64| #[trigger]
                self.fetched@.contains_key(x) <==> (w0.height <= x <= w0.head) by {
                assert(self.fetched@.contains_key(x) <==> (x == h || w0.fetched@.contains_key(
                    x,
                )));
            }
            assert(store.blocks_of(w0.chain) == w0.start_blocks@.union_prefer_right(
                self.fetched@,
            ));
        }

        if self.prior_highest.is_none() && self.synced == INITIAL_SYNC_BLOCKS {
            store.store_highest_block_number(self.chain, self.head);
            proof {
                self.lemma_complete_continuity(w0, s0, gblock, store);
            }
            return WalkStep::Complete(StopReason::InitialSyncCap);
        }

        if h == 0 {
            store.store_highest_block_number(self.chain, self.head);
            proof {
                self.lemma_complete_continuity(w0, s0, gblock, store);
            }
            return WalkStep::Complete(StopReason::Genesis);
        }

        let prev_number = h - 1;
        let reconnected = match store.load_block(self.chain, prev_number) {
            Some(prev_block) => {
                if prev_block.hash == parent_hash {
                    match self.prior_highest {
                        Some(s0_mark) => prev_number <= s0_mark,
                        None => false,
                    }
                } else {
                    // A reorg at prev_number, or a leftover partial
                    // import above the old mark: either way the walk
                    // continues and overwrites.
                    false
                }
            },
            None => false,
        };

        if reconnected {
            store.store_highest_block_number(self.chain, self.head);
            proof {
                assert(w0.reconnect_stop(&s0, gblock));
                self.lemma_complete_continuity(w0, s0, gblock, store);
            }
            return WalkStep::Complete(StopReason::Reconnected);
        }

        self.height = prev_number;
        proof {
            assert forall|x: u64| #[trigger]
                self.fetched@.contains_key(x) <==> self.height < x <= self.head by {
                assert(self.fetched@.contains_key(x) <==> (x == h || w0.fetched@.contains_key(
                    x,
                )));
            }
            assert(!w0.reconnect_stop(&s0, gblock));
        }
        WalkStep::Continue
    }

    /// After the final block of a pass is stored and the new high-water
    /// mark is written, continuity below the new mark follows from the
    /// pass's stored blocks being hash-linked and the store having been
    /// well-linked when the pass began.
    proof fn lemma_complete_continuity(self, w0: ImportWalk, s0: Store, block: Block, s: &Store)
        requires
            w0.inv(&s0),
            block.chain == w0.chain,
            block.block_number == w0.height,
            self.fetched@ == w0.fetched@.insert(w0.height, block),
            w0.cap_stop() || w0.genesis_stop() || w0.reconnect_stop(&s0, block),
            s.blocks_of(w0.chain) == s0.blocks_of(w0.chain).insert(w0.height, block),
        ensures
            (w0.pre_pass_ok() && linked_below(self.fetched@, w0.head)) ==> linked_below(
                s.blocks_of(w0.chain),
                w0.head,
            ),
            forall|x: u64| #[trigger]
                self.fetched@.contains_key(x) <==> w0.height <= x <= w0.head,
    {
        let t = w0.height;
        let hd = w0.head;
        let start = w0.start_blocks@;
        let f1 = self.fetched@;
        let m = s.blocks_of(w0.chain);

        vstd::map_lib::lemma_union_insert_right(start, w0.fetched@, t, block);
        assert(m == start.union_prefer_right(f1));

        assert forall|x: u64| #[trigger] f1.contains_key(x) <==> t <= x <= hd by {
            assert(f1.contains_key(x) <==> (x == t || w0.fetched@.contains_key(x)));
        }

        if w0.pre_pass_ok() && linked_below(f1, hd) {
            assert forall|h2: u64|
                1 <= h2 <= hd && #[trigger] m.contains_key(h2) && m.contains_key(
                    (h2 - 1) as u64,
                ) implies m[h2].parent_hash@ == m[(h2 - 1) as u64].hash@ by {
                let p = (h2 - 1) as u64;
                if h2 > t {
                    assert(f1.contains_key(h2));
                    assert(f1.contains_key(p));
                    assert(m[h2] == f1[h2]);
                    assert(m[p] == f1[p]);
                } else if h2 == t {
                    // The block just stored meets the store below it.
                    assert(m[h2] == f1[t]);
                    assert(f1[t] == block);
                    assert(!f1.contains_key(p));
                    assert(m.contains_key(p) ==> start.contains_key(p) && m[p] == start[p]);
                    if w0.cap_stop() || w0.genesis_stop() {
                        match w0.prior_highest {
                            None => {
                                // No earlier sync: the store held nothing
                                // below the capped segment.
                                assert(!start.contains_key(p));
                            },
                            Some(_) => {
                                // A genesis stop with an earlier mark:
                                // t == 0, so no height below exists.
                                assert(w0.genesis_stop());
                                assert(h2 >= 1 && t == 0);
                            },
                        }
                    } else {
                        // Reconnected: the stored parent was compared
                        // against the just-stored block's parent_hash.
                        assert(w0.reconnect_stop(&s0, block));
                        assert(s0.blocks_of(w0.chain)[p] == start[p]) by {
                            assert(!w0.fetched@.contains_key(p));
                        }
                    }
                } else {
                    // Both heights lie below everything this pass stored.
                    assert(!f1.contains_key(h2));
                    assert(!f1.contains_key(p));
                    assert(m[h2] == start[h2] && start.contains_key(h2));
                    assert(m[p] == start[p] && start.contains_key(p));
                    match w0.prior_highest {
                        None => {
                            assert(!start.contains_key(h2));
                        },
                        Some(s0_mark) => {
                            // Below the stop height the walk either never
                            // ran (genesis/cap exclude this case) or
                            // reconnected at t - 1 <= old mark, so h2 is
                            // below the old mark and the old linkage
                            // applies.
                            assert(w0.reconnect_stop(&s0, block) || w0.genesis_stop()
                                || w0.cap_stop());
                            assert(w0.reconnect_stop(&s0, block));
                            assert(h2 <= s0_mark);
                            assert(linked_below(start, s0_mark));
                        },
                    }
                }
            }
        }
    }
}

} // verus!
