//! The networks the system tracks, and the block data imported from them.

use vstd::prelude::*;

verus! {

/// How many distinct networks the system tracks.
pub const NUM_CHAINS: usize = 18;

/// One distinct blockchain network tracked by the system. Immutable,
/// used as a key everywhere.
#[derive(Clone, Copy, PartialEq, Eq, Hash, Structural, Debug)]
pub enum Chain {
    Arbitrum,
    Avalanche,
    Binance,
    Celo,
    Cronos,
    Ethereum,
    Fuse,
    Fantom,
    Harmony,
    Heco,
    KuCoin,
    Moonriver,
    OKEx,
    Polygon,
    Rootstock,
    Telos,
    XDai,
    Solana,
}

/// The position of a chain in the fixed enumeration of all chains.
pub open spec fn chain_index_spec(c: Chain) -> int {
    match c {
        Chain::Arbitrum => 0,
        Chain::Avalanche => 1,
        Chain::Binance => 2,
        Chain::Celo => 3,
        Chain::Cronos => 4,
        Chain::Ethereum => 5,
        Chain::Fuse => 6,
        Chain::Fantom => 7,
        Chain::Harmony => 8,
        Chain::Heco => 9,
        Chain::KuCoin => 10,
        Chain::Moonriver => 11,
        Chain::OKEx => 12,
        Chain::Polygon => 13,
        Chain::Rootstock => 14,
        Chain::Telos => 15,
        Chain::XDai => 16,
        Chain::Solana => 17,
    }
}

/// The chain at a given position of the enumeration.
pub open spec fn chain_of_index(i: int) -> Chain {
    if i == 0 {
        Chain::Arbitrum
    } else if i == 1 {
        Chain::Avalanche
    } else if i == 2 {
        Chain::Binance
    } else if i == 3 {
        Chain::Celo
    } else if i == 4 {
        Chain::Cronos
    } else if i == 5 {
        Chain::Ethereum
    } else if i == 6 {
        Chain::Fuse
    } else if i == 7 {
        Chain::Fantom
    } else if i == 8 {
        Chain::Harmony
    } else if i == 9 {
        Chain::Heco
    } else if i == 10 {
        Chain::KuCoin
    } else if i == 11 {
        Chain::Moonriver
    } else if i == 12 {
        Chain::OKEx
    } else if i == 13 {
        Chain::Polygon
    } else if i == 14 {
        Chain::Rootstock
    } else if i == 15 {
        Chain::Telos
    } else if i == 16 {
        Chain::XDai
    } else {
        Chain::Solana
    }
}

/// All chains, in enumeration order.
pub open spec fn all_chains_spec() -> Seq<Chain> {
    Seq::new(NUM_CHAINS as nat, |i: int| chain_of_index(i))
}

/// The enumeration of chains and the index of a chain invert each other:
/// positions and chains correspond one to one.
pub proof fn lemma_chain_index_bijective(c: Chain, i: int)
    requires
        0 <= i < NUM_CHAINS,
    ensures
        chain_of_index(chain_index_spec(c)) == c,
        0 <= chain_index_spec(c) < NUM_CHAINS,
        chain_index_spec(chain_of_index(i)) == i,
{
}

impl Chain {
    /// The position of this chain in the fixed enumeration of all chains.
    pub fn index(&self) -> (i: usize)
        ensures
            i == chain_index_spec(*self),
            i < NUM_CHAINS,
    {
        match self {
            Chain::Arbitrum => 0,
            Chain::Avalanche => 1,
            Chain::Binance => 2,
            Chain::Celo => 3,
            Chain::Cronos => 4,
            Chain::Ethereum => 5,
            Chain::Fuse => 6,
            Chain::Fantom => 7,
            Chain::Harmony => 8,
            Chain::Heco => 9,
            Chain::KuCoin => 10,
            Chain::Moonriver => 11,
            Chain::OKEx => 12,
            Chain::Polygon => 13,
            Chain::Rootstock => 14,
            Chain::Telos => 15,
            Chain::XDai => 16,
            Chain::Solana => 17,
        }
    }

}

/// Every chain the system tracks, in enumeration order.
pub fn all_chains() -> (r: Vec<Chain>)
    ensures
        r@ == all_chains_spec(),
        r@.len() == NUM_CHAINS,
{
    let chains = vec![
        Chain::Arbitrum,
        Chain::Avalanche,
        Chain::Binance,
        Chain::Celo,
        Chain::Cronos,
        Chain::Ethereum,
        Chain::Fuse,
        Chain::Fantom,
        Chain::Harmony,
        Chain::Heco,
        Chain::KuCoin,
        Chain::Moonriver,
        Chain::OKEx,
        Chain::Polygon,
        Chain::Rootstock,
        Chain::Telos,
        Chain::XDai,
        Chain::Solana,
    ];
    proof {
        assert(chains@ =~= all_chains_spec());
    }
    chains
}

/// One imported block. Identity is (chain, block_number); the hashes are
/// opaque identifiers as the remote node reported them. A block is
/// immutable once constructed, though the store may later overwrite the
/// value kept under the same key when a reorg invalidates it.
#[derive(Clone, Debug, PartialEq, Eq)]
pub struct Block {
    pub chain: Chain,
    pub block_number: u64,
    pub timestamp: u64,
    pub num_txs: u64,
    pub hash: String,
    pub parent_hash: String,
}

} // verus!
