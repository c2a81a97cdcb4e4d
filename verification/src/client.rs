//! The chain client adapter: which client family serves a chain, and how
//! a remote node's response becomes a [`Block`].
//!
//! The remote calls themselves (node version, head height, fetch block)
//! are transport work the surrounding program performs; it hands the
//! fields it read to the constructors here, which make every decision
//! about what a well-formed block is. A missing or out-of-range field is
//! a per-block failure, reported as a distinct error.

use vstd::prelude::*;

use crate::chain::{Block, Chain};

verus! {

/// Which client implementation serves a chain.
#[derive(Clone, Copy, PartialEq, Eq, Structural, Debug)]
pub enum ChainFamily {
    /// An EVM-style network, spoken to over its JSON-RPC interface.
    Evm,
    /// The Solana network, spoken to over its own RPC interface.
    Solana,
}

/// The family serving each chain: every chain but Solana is EVM-style.
pub open spec fn chain_family_spec(c: Chain) -> ChainFamily {
    if c == Chain::Solana {
        ChainFamily::Solana
    } else {
        ChainFamily::Evm
    }
}

/// Select the client family for a chain.
pub fn chain_family(c: Chain) -> (f: ChainFamily)
    ensures
        f == chain_family_spec(c),
{
    match c {
        Chain::Solana => ChainFamily::Solana,
        _ => ChainFamily::Evm,
    }
}

/// Why a remote response could not become a block.
#[derive(Clone, Copy, PartialEq, Eq, Structural, Debug)]
pub enum AdapterError {
    /// The response carries no block number (a pending block).
    MissingBlockNumber,
    /// The response carries no timestamp.
    MissingTimestamp,
    /// The reported timestamp does not fit unsigned 64-bit unix seconds.
    TimestampOutOfRange,
    /// The response carries no block hash (a pending block).
    MissingHash,
}

/// Build a block from the fields of an EVM-style node's response.
/// `number` and `hash` are absent for a block the node considers pending;
/// `timestamp` is absent when the node's reported value did not fit
/// unsigned 64 bits.
pub fn evm_block_from_parts(
    chain: Chain,
    number: Option<u64>,
    timestamp: Option<u64>,
    num_txs: u64,
    hash: Option<String>,
    parent_hash: String,
) -> (r: Result<Block, AdapterError>)
    ensures
        r == (if number is None {
            Err::<Block, AdapterError>(AdapterError::MissingBlockNumber)
        } else if timestamp is None {
            Err::<Block, AdapterError>(AdapterError::TimestampOutOfRange)
        } else if hash is None {
            Err::<Block, AdapterError>(AdapterError::MissingHash)
        } else {
            Ok::<Block, AdapterError>(
                Block {
                    chain,
                    block_number: number.unwrap(),
                    timestamp: timestamp.unwrap(),
                    num_txs,
                    hash: hash.unwrap(),
                    parent_hash,
                },
            )
        }),
{
    let block_number = match number {
        Some(n) => n,
        None => {
            return Err(AdapterError::MissingBlockNumber);
        },
    };
    let timestamp = match timestamp {
        Some(t) => t,
        None => {
            return Err(AdapterError::TimestampOutOfRange);
        },
    };
    let hash = match hash {
        Some(h) => h,
        None => {
            return Err(AdapterError::MissingHash);
        },
    };
    Ok(Block { chain, block_number, timestamp, num_txs, hash, parent_hash })
}

/// Build a block from the fields of a Solana node's response. The chain
/// is always Solana; a negative `block_time` cannot be unix seconds.
pub fn solana_block_from_parts(
    block_height: Option<u64>,
    block_time: Option<i64>,
    num_txs: u64,
    blockhash: String,
    previous_blockhash: String,
) -> (r: Result<Block, AdapterError>)
    ensures
        r == (if block_height is None {
            Err::<Block, AdapterError>(AdapterError::MissingBlockNumber)
        } else if block_time is None {
            Err::<Block, AdapterError>(AdapterError::MissingTimestamp)
        } else if block_time.unwrap() < 0 {
            Err::<Block, AdapterError>(AdapterError::TimestampOutOfRange)
        } else {
            Ok::<Block, AdapterError>(
                Block {
                    chain: Chain::Solana,
                    block_number: block_height.unwrap(),
                    timestamp: block_time.unwrap() as u64,
                    num_txs,
                    hash: blockhash,
                    parent_hash: previous_blockhash,
                },
            )
        }),
{
    let block_number = match block_height {
        Some(n) => n,
        None => {
            return Err(AdapterError::MissingBlockNumber);
        },
    };
    let time = match block_time {
        Some(t) => t,
        None => {
            return Err(AdapterError::MissingTimestamp);
        },
    };
    if time < 0 {
        return Err(AdapterError::TimestampOutOfRange);
    }
    let timestamp = time as u64;
    Ok(
        Block {
            chain: Chain::Solana,
            block_number,
            timestamp,
            num_txs,
            hash: blockhash,
            parent_hash: previous_blockhash,
        },
    )
}

} // verus!
