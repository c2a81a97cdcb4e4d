//! The TPS aggregator: per-chain windowed transaction-rate computation
//! over already-imported data.
//!
//! For one chain, the walk starts at the high-water mark and accumulates
//! transaction counts backward over consecutive locally stored pairs,
//! stopping at the trailing-window boundary (seven days before the latest
//! block), at genesis, or at the first gap in local storage. The result is
//! the exact (transaction count, window seconds) pair; the rate is their
//! quotient, which the surrounding program computes in floating point as
//! it likes.
//!
//! Arithmetic that leaves the bounded ranges the system works in is a
//! per-chain failure, never a wrapped or clamped number. All failures here
//! are per-chain and recoverable: one chain's failure leaves every other
//! chain's calculation and stored record untouched.

use vstd::prelude::*;

use crate::chain::{all_chains, all_chains_spec, chain_index_spec, Block, Chain, NUM_CHAINS};
use crate::chain::lemma_chain_index_bijective;
use crate::store::{Store, TpsRate};

verus! {

/// The trailing window: seven days, in seconds.
pub const SECONDS_PER_WEEK: u64 = 60 * 60 * 24 * 7;

/// Why a chain's TPS calculation produced no rate. Each failure is local
/// to the chain; the next calculation pass retries it.
#[derive(Clone, Copy, PartialEq, Eq, Structural, Debug)]
pub enum CalcError {
    /// The chain has no high-water mark: it was never imported.
    NoHighWaterMark,
    /// No block is stored at the high-water mark.
    MissingLatestBlock,
    /// The latest block's timestamp is earlier than one whole window:
    /// the window boundary would underflow.
    TimestampUnderflow,
    /// The high-water mark is genesis itself; there is no pair of blocks
    /// to measure a window over.
    GenesisHighWaterMark,
    /// The stopping block's timestamp is later than the latest block's:
    /// the window length would underflow.
    BoundaryAfterLatest,
    /// The window length in seconds does not fit the bounded range.
    SecondsOverflow,
    /// The accumulated transaction count does not fit the bounded range.
    TxCountOverflow,
}

/// The transaction count of the trailing window: walking down from `cur`,
/// each block whose predecessor is locally stored contributes its own
/// `num_txs`, and the walk stops below a predecessor at or past the window
/// boundary `min_ts`, at genesis, or at a gap.
pub open spec fn window_txs(m: Map<u64, Block>, cur: u64, min_ts: u64) -> int
    decreases cur,
{
    if cur == 0 {
        0
    } else if !m.contains_key((cur - 1) as u64) {
        0
    } else {
        let prev = m[(cur - 1) as u64];
        m[cur].num_txs + if prev.timestamp <= min_ts || cur - 1 == 0 {
            0int
        } else {
            window_txs(m, (cur - 1) as u64, min_ts)
        }
    }
}

/// The timestamp of the block the walk from `cur` stops at: the first
/// predecessor at or past the window boundary `min_ts` or at genesis, or
/// the last block before a gap in local storage.
pub open spec fn window_boundary(m: Map<u64, Block>, cur: u64, min_ts: u64) -> u64
    decreases cur,
{
    if cur == 0 {
        m[cur].timestamp
    } else if !m.contains_key((cur - 1) as u64) {
        m[cur].timestamp
    } else {
        let prev = m[(cur - 1) as u64];
        if prev.timestamp <= min_ts || cur - 1 == 0 {
            prev.timestamp
        } else {
            window_boundary(m, (cur - 1) as u64, min_ts)
        }
    }
}

/// A window's transaction count is never negative.
pub proof fn lemma_window_txs_nonneg(m: Map<u64, Block>, cur: u64, min_ts: u64)
    ensures
        window_txs(m, cur, min_ts) >= 0,
    decreases cur,
{
    if cur != 0 && m.contains_key((cur - 1) as u64) {
        let prev = m[(cur - 1) as u64];
        if !(prev.timestamp <= min_ts || cur - 1 == 0) {
            lemma_window_txs_nonneg(m, (cur - 1) as u64, min_ts);
        }
    }
}

/// Exactly what one chain's TPS calculation returns, given the chain's
/// stored blocks and high-water mark.
pub open spec fn calc_result(m: Map<u64, Block>, highest: Option<u64>) -> Result<
    TpsRate,
    CalcError,
> {
    match highest {
        None => Err(CalcError::NoHighWaterMark),
        Some(s) => if !m.contains_key(s) {
            Err(CalcError::MissingLatestBlock)
        } else {
            let latest = m[s].timestamp;
            if latest < SECONDS_PER_WEEK {
                Err(CalcError::TimestampUnderflow)
            } else if s == 0 {
                Err(CalcError::GenesisHighWaterMark)
            } else {
                let min_ts = (latest - SECONDS_PER_WEEK) as u64;
                let txs = window_txs(m, s, min_ts);
                let boundary = window_boundary(m, s, min_ts);
                if txs > u64::MAX {
                    Err(CalcError::TxCountOverflow)
                } else if boundary > latest {
                    Err(CalcError::BoundaryAfterLatest)
                } else if latest - boundary > u32::MAX {
                    Err(CalcError::SecondsOverflow)
                } else if txs > u32::MAX {
                    Err(CalcError::TxCountOverflow)
                } else {
                    Ok(TpsRate { num_txs: txs as u32, seconds: (latest - boundary) as u32 })
                }
            }
        },
    }
}

/// Compute one chain's trailing-window transaction rate from the store.
/// The result is pinned exactly by [`calc_result`] over the chain's
/// stored blocks and high-water mark.
pub fn calculate_for_chain(store: &Store, chain: Chain) -> (r: Result<TpsRate, CalcError>)
    requires
        store.wf(),
    ensures
        r == calc_result(store.blocks_of(chain), store.highest_of(chain)),
{
    let ghost m = store.blocks_of(chain);

    let highest = match store.load_highest_block_number(chain) {
        Some(h) => h,
        None => {
            return Err(CalcError::NoHighWaterMark);
        },
    };

    let latest_block = match store.load_block(chain, highest) {
        Some(b) => b,
        None => {
            return Err(CalcError::MissingLatestBlock);
        },
    };
    let latest_timestamp = latest_block.timestamp;

    if latest_timestamp < SECONDS_PER_WEEK {
        return Err(CalcError::TimestampUnderflow);
    }
    if highest == 0 {
        return Err(CalcError::GenesisHighWaterMark);
    }
    let min_timestamp = latest_timestamp - SECONDS_PER_WEEK;

    let mut current_block_number: u64 = highest;
    let mut current_block: &Block = latest_block;
    let mut num_txs: u64 = 0;
    let boundary_ts: u64;

    loop
        invariant_except_break
            window_txs(m, highest, min_timestamp) == num_txs + window_txs(
                m,
                current_block_number,
                min_timestamp,
            ),
        invariant
            store.wf(),
            m == store.blocks_of(chain),
            store.highest_of(chain) == Some(highest),
            m.contains_key(highest),
            latest_timestamp == m[highest].timestamp,
            latest_timestamp >= SECONDS_PER_WEEK,
            highest >= 1,
            min_timestamp == latest_timestamp - SECONDS_PER_WEEK,
            1 <= current_block_number <= highest,
            m.contains_key(current_block_number),
            *current_block == m[current_block_number],
            window_boundary(m, highest, min_timestamp) == window_boundary(
                m,
                current_block_number,
                min_timestamp,
            ),
        ensures
            num_txs == window_txs(m, highest, min_timestamp),
            boundary_ts == window_boundary(m, highest, min_timestamp),
        decreases current_block_number,
    {
        let prev_number = current_block_number - 1;
        match store.load_block(chain, prev_number) {
            Some(prev_block) => {
                num_txs = match num_txs.checked_add(current_block.num_txs) {
                    Some(v) => v,
                    None => {
                        proof {
                            lemma_window_txs_nonneg(m, prev_number, min_timestamp);
                        }
                        return Err(CalcError::TxCountOverflow);
                    },
                };
                if prev_block.timestamp <= min_timestamp {
                    boundary_ts = prev_block.timestamp;
                    break ;
                }
                if prev_block.block_number == 0 {
                    boundary_ts = prev_block.timestamp;
                    break ;
                }
                current_block_number = prev_number;
                current_block = prev_block;
            },
            None => {
                boundary_ts = current_block.timestamp;
                break ;
            },
        }
    }

    if boundary_ts > latest_timestamp {
        return Err(CalcError::BoundaryAfterLatest);
    }
    let total_seconds = latest_timestamp - boundary_ts;
    if total_seconds > u32::MAX as u64 {
        return Err(CalcError::SecondsOverflow);
    }
    if num_txs > u32::MAX as u64 {
        return Err(CalcError::TxCountOverflow);
    }
    Ok(TpsRate { num_txs: num_txs as u32, seconds: total_seconds as u32 })
}

/// One whole calculation pass: compute every chain's rate from the data
/// already imported, storing a new TPS record for each chain that
/// succeeds. Chains are independent: a chain with no high-water mark (or
/// any other per-chain failure) is skipped, and every other chain's
/// result is exactly what [`calc_result`] gives over that chain's own
/// data. The returned vector pairs each chain, in enumeration order, with
/// its outcome.
#[verifier::loop_isolation(false)]
pub fn calculate_pass(store: &mut Store) -> (r: Vec<(Chain, Result<TpsRate, CalcError>)>)
    requires
        old(store).wf(),
    ensures
        final(store).wf(),
        r@.len() == NUM_CHAINS,
        forall|i: int|
            0 <= i < r@.len() ==> (#[trigger] r@[i]).0 == all_chains_spec()[i] && r@[i].1
                == calc_result(
                old(store).blocks_of(all_chains_spec()[i]),
                old(store).highest_of(all_chains_spec()[i]),
            ),
        forall|c: Chain| #[trigger] final(store).blocks_of(c) == old(store).blocks_of(c),
        forall|c: Chain| #[trigger] final(store).highest_of(c) == old(store).highest_of(c),
        forall|c: Chain| #[trigger]
            final(store).tps_of(c) == (match calc_result(
                old(store).blocks_of(c),
                old(store).highest_of(c),
            ) {
                Ok(t) => Some(t),
                Err(_) => old(store).tps_of(c),
            }),
{
    let chains = all_chains();
    let mut results: Vec<(Chain, Result<TpsRate, CalcError>)> = Vec::new();
    let mut i: usize = 0;
    while i < chains.len()
        invariant
            i == results@.len(),
            i <= NUM_CHAINS,
            store.wf(),
            forall|c: Chain| #[trigger] store.blocks_of(c) == old(store).blocks_of(c),
            forall|c: Chain| #[trigger] store.highest_of(c) == old(store).highest_of(c),
            forall|j: int|
                0 <= j < i ==> (#[trigger] results@[j]).0 == all_chains_spec()[j] && results@[j].1
                    == calc_result(
                    old(store).blocks_of(all_chains_spec()[j]),
                    old(store).highest_of(all_chains_spec()[j]),
                ),
            forall|c: Chain|
                chain_index_spec(c) < i ==> #[trigger] store.tps_of(c) == (match calc_result(
                    old(store).blocks_of(c),
                    old(store).highest_of(c),
                ) {
                    Ok(t) => Some(t),
                    Err(_) => old(store).tps_of(c),
                }),
            forall|c: Chain|
                chain_index_spec(c) >= i ==> #[trigger] store.tps_of(c) == old(store).tps_of(c),
        decreases chains.len() - i,
    {
        let c = chains[i];
        proof {
            lemma_chain_index_bijective(c, i as int);
        }
        let res = calculate_for_chain(store, c);
        match res {
            Ok(t) => {
                store.store_tps(c, t);
            },
            Err(_) => {},
        }
        results.push((c, res));
        i = i + 1;
    }
    results
}

} // verus!
