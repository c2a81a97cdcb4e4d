use realtps_import::chain::{Block, Chain};
use realtps_import::store::{Store, TpsRate};
use realtps_import::tps::{calculate_for_chain, calculate_pass, CalcError, SECONDS_PER_WEEK};

fn block_at(chain: Chain, number: u64, timestamp: u64, num_txs: u64) -> Block {
    Block {
        chain,
        block_number: number,
        timestamp,
        num_txs,
        hash: format!("h{}", number),
        parent_hash: if number == 0 { "p".to_string() } else { format!("h{}", number - 1) },
    }
}

/// Ten blocks 60 seconds apart, five transactions each, spanning less
/// than a week: the walk stops at genesis, so the numerator counts every
/// block above genesis (blocks 1..=9, 45 transactions) and the window is
/// the 540 seconds between the genesis and latest timestamps.
#[test]
fn tps_window_ten_blocks() {
    let mut store = Store::new();
    let chain = Chain::Ethereum;
    let t0 = 1_000_000_000u64;
    for n in 0..10u64 {
        store.store_block(block_at(chain, n, t0 + 60 * n, 5));
    }
    store.store_highest_block_number(chain, 9);

    let rate = calculate_for_chain(&store, chain).expect("rate");
    assert_eq!(rate, TpsRate { num_txs: 45, seconds: 540 });
    let tps = f64::from(rate.num_txs) / f64::from(rate.seconds);
    assert!((tps - 45.0 / 540.0).abs() < 1e-12);
}

#[test]
fn window_stops_at_week_boundary() {
    let mut store = Store::new();
    let chain = Chain::Polygon;
    let latest = 2 * SECONDS_PER_WEEK;
    // min_timestamp is exactly SECONDS_PER_WEEK; block 1 sits at it.
    store.store_block(block_at(chain, 0, SECONDS_PER_WEEK - 500, 1000));
    store.store_block(block_at(chain, 1, SECONDS_PER_WEEK, 7));
    store.store_block(block_at(chain, 2, latest - 60, 11));
    store.store_block(block_at(chain, 3, latest, 13));
    store.store_highest_block_number(chain, 3);

    // The walk counts blocks 3 and 2, then sees block 1 at the boundary
    // and stops there; block 1's transactions are excluded.
    let rate = calculate_for_chain(&store, chain).expect("rate");
    assert_eq!(rate, TpsRate { num_txs: 24, seconds: SECONDS_PER_WEEK as u32 });
}

#[test]
fn window_stops_at_gap() {
    let mut store = Store::new();
    let chain = Chain::Celo;
    let t0 = 1_000_000_000u64;
    // Heights 5..=9 stored; height 4 missing.
    for n in 5..10u64 {
        store.store_block(block_at(chain, n, t0 + 60 * n, 10));
    }
    store.store_highest_block_number(chain, 9);

    // Counts blocks 9..=6; stops on block 5, whose predecessor is absent.
    let rate = calculate_for_chain(&store, chain).expect("rate");
    assert_eq!(rate, TpsRate { num_txs: 40, seconds: 240 });
}

#[test]
fn tx_count_overflow_is_an_error() {
    let mut store = Store::new();
    let chain = Chain::Fantom;
    let t0 = 1_000_000_000u64;
    store.store_block(block_at(chain, 0, t0, 50));
    store.store_block(block_at(chain, 1, t0 + 60, u64::from(u32::MAX)));
    store.store_block(block_at(chain, 2, t0 + 120, 10));
    store.store_highest_block_number(chain, 2);

    // The accumulated count exceeds the 32-bit bound: an error, not a
    // wrapped or clamped number.
    assert_eq!(calculate_for_chain(&store, chain), Err(CalcError::TxCountOverflow));
}

#[test]
fn seconds_overflow_is_an_error() {
    let mut store = Store::new();
    let chain = Chain::Heco;
    let latest = 5_000_000_000u64;
    store.store_block(block_at(chain, 0, 100, 3));
    store.store_block(block_at(chain, 1, latest, 4));
    store.store_highest_block_number(chain, 1);

    assert_eq!(calculate_for_chain(&store, chain), Err(CalcError::SecondsOverflow));
}

#[test]
fn no_high_water_mark_is_an_error() {
    let store = Store::new();
    assert_eq!(calculate_for_chain(&store, Chain::Arbitrum), Err(CalcError::NoHighWaterMark));
}

#[test]
fn missing_latest_block_is_an_error() {
    let mut store = Store::new();
    let chain = Chain::Telos;
    store.store_highest_block_number(chain, 7);
    assert_eq!(calculate_for_chain(&store, chain), Err(CalcError::MissingLatestBlock));
}

#[test]
fn early_timestamp_underflows_window() {
    let mut store = Store::new();
    let chain = Chain::Fuse;
    store.store_block(block_at(chain, 0, 10, 1));
    store.store_block(block_at(chain, 1, 20, 1));
    store.store_highest_block_number(chain, 1);
    assert_eq!(calculate_for_chain(&store, chain), Err(CalcError::TimestampUnderflow));
}

#[test]
fn genesis_high_water_mark_is_an_error() {
    let mut store = Store::new();
    let chain = Chain::XDai;
    store.store_block(block_at(chain, 0, 1_000_000_000, 5));
    store.store_highest_block_number(chain, 0);
    assert_eq!(calculate_for_chain(&store, chain), Err(CalcError::GenesisHighWaterMark));
}

#[test]
fn boundary_after_latest_is_an_error() {
    let mut store = Store::new();
    let chain = Chain::KuCoin;
    let latest = SECONDS_PER_WEEK + 100;
    // Height 1's timestamp is later than the latest block's, and height 0
    // is missing, so the walk stops on height 1: the window length would
    // underflow.
    store.store_block(block_at(chain, 1, latest + 500, 2));
    store.store_block(block_at(chain, 2, latest, 3));
    store.store_highest_block_number(chain, 2);
    assert_eq!(calculate_for_chain(&store, chain), Err(CalcError::BoundaryAfterLatest));
}

/// A calculation pass over all chains: a chain with no high-water mark is
/// skipped, and every other chain still gets its correct rate.
#[test]
fn missing_chain_is_skipped_independently() {
    let mut store = Store::new();
    let t0 = 1_000_000_000u64;
    for (chain, txs) in [(Chain::Ethereum, 4u64), (Chain::Solana, 9u64)] {
        for n in 0..5u64 {
            store.store_block(block_at(chain, n, t0 + 30 * n, txs));
        }
        store.store_highest_block_number(chain, 4);
    }
    // Chain::Binance has no high-water mark at all.

    let results = calculate_pass(&mut store);
    assert_eq!(results.len(), 18);
    for (chain, result) in &results {
        match chain {
            Chain::Ethereum => {
                assert_eq!(*result, Ok(TpsRate { num_txs: 16, seconds: 120 }))
            }
            Chain::Solana => {
                assert_eq!(*result, Ok(TpsRate { num_txs: 36, seconds: 120 }))
            }
            _ => assert_eq!(*result, Err(CalcError::NoHighWaterMark)),
        }
    }
    assert_eq!(store.load_tps(Chain::Ethereum), Some(TpsRate { num_txs: 16, seconds: 120 }));
    assert_eq!(store.load_tps(Chain::Solana), Some(TpsRate { num_txs: 36, seconds: 120 }));
    assert_eq!(store.load_tps(Chain::Binance), None);
}

/// A failing chain does not disturb another chain's stored record.
#[test]
fn failed_chain_keeps_prior_record() {
    let mut store = Store::new();
    let chain = Chain::Rootstock;
    let t0 = 1_000_000_000u64;
    for n in 0..3u64 {
        store.store_block(block_at(chain, n, t0 + 10 * n, 6));
    }
    store.store_highest_block_number(chain, 2);
    let results = calculate_pass(&mut store);
    assert_eq!(store.load_tps(chain), Some(TpsRate { num_txs: 12, seconds: 20 }));
    assert_eq!(results.iter().filter(|(_, r)| r.is_ok()).count(), 1);

    // Break the chain's data: the next pass fails for it, and the stored
    // record keeps its old value.
    store.store_highest_block_number(chain, 50);
    let results = calculate_pass(&mut store);
    for (c, r) in &results {
        if *c == chain {
            assert_eq!(*r, Err(CalcError::MissingLatestBlock));
        }
    }
    assert_eq!(store.load_tps(chain), Some(TpsRate { num_txs: 12, seconds: 20 }));
}
