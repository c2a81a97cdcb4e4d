use realtps_import::chain::{all_chains, Chain, NUM_CHAINS};
use realtps_import::client::{
    chain_family, evm_block_from_parts, solana_block_from_parts, AdapterError, ChainFamily,
};
use realtps_import::jobs::{init_jobs, job_follow_ups, Command, Delay, Job};

#[test]
fn all_chains_lists_each_chain_once() {
    let chains = all_chains();
    assert_eq!(chains.len(), NUM_CHAINS);
    for (i, c) in chains.iter().enumerate() {
        assert_eq!(c.index(), i);
    }
    assert!(chains.contains(&Chain::Ethereum));
    assert!(chains.contains(&Chain::Solana));
}

#[test]
fn import_command_seeds_one_job_per_chain() {
    let jobs = init_jobs(Command::Import);
    let chains = all_chains();
    assert_eq!(jobs.len(), chains.len());
    for (job, chain) in jobs.iter().zip(chains.iter()) {
        assert_eq!(*job, Job::Import(*chain));
    }
}

#[test]
fn calculate_command_seeds_one_job() {
    assert_eq!(init_jobs(Command::Calculate), vec![Job::Calculate]);
}

#[test]
fn run_command_seeds_both_sets() {
    let jobs = init_jobs(Command::Run);
    assert_eq!(jobs.len(), NUM_CHAINS + 1);
    let mut expected = init_jobs(Command::Import);
    expected.push(Job::Calculate);
    assert_eq!(jobs, expected);
}

#[test]
fn every_job_requeues_itself() {
    let import = Job::Import(Chain::Cronos);
    let (delay, jobs) = job_follow_ups(&import, true);
    assert_eq!(delay, Delay::Rescan);
    assert_eq!(jobs, vec![import]);

    let (delay, jobs) = job_follow_ups(&Job::Calculate, true);
    assert_eq!(delay, Delay::Recalculate);
    assert_eq!(jobs, vec![Job::Calculate]);

    let (delay, jobs) = job_follow_ups(&import, false);
    assert_eq!(delay, Delay::JobError);
    assert_eq!(jobs, vec![import]);

    let (delay, jobs) = job_follow_ups(&Job::Calculate, false);
    assert_eq!(delay, Delay::JobError);
    assert_eq!(jobs, vec![Job::Calculate]);
}

#[test]
fn only_solana_uses_the_solana_family() {
    for chain in all_chains() {
        let family = chain_family(chain);
        if chain == Chain::Solana {
            assert_eq!(family, ChainFamily::Solana);
        } else {
            assert_eq!(family, ChainFamily::Evm);
        }
    }
}

#[test]
fn evm_block_from_complete_parts() {
    let b = evm_block_from_parts(
        Chain::Ethereum,
        Some(42),
        Some(1_650_000_000),
        7,
        Some("abc".to_string()),
        "def".to_string(),
    )
    .expect("block");
    assert_eq!(b.chain, Chain::Ethereum);
    assert_eq!(b.block_number, 42);
    assert_eq!(b.timestamp, 1_650_000_000);
    assert_eq!(b.num_txs, 7);
    assert_eq!(b.hash, "abc");
    assert_eq!(b.parent_hash, "def");
}

#[test]
fn evm_block_errors() {
    // A pending block has no number; that error wins over the others.
    assert_eq!(
        evm_block_from_parts(Chain::Celo, None, None, 0, None, "p".to_string()),
        Err(AdapterError::MissingBlockNumber)
    );
    assert_eq!(
        evm_block_from_parts(Chain::Celo, Some(1), None, 0, None, "p".to_string()),
        Err(AdapterError::TimestampOutOfRange)
    );
    assert_eq!(
        evm_block_from_parts(Chain::Celo, Some(1), Some(5), 0, None, "p".to_string()),
        Err(AdapterError::MissingHash)
    );
}

#[test]
fn solana_block_from_complete_parts() {
    let b = solana_block_from_parts(
        Some(9),
        Some(1_650_000_000),
        3,
        "sh".to_string(),
        "sp".to_string(),
    )
    .expect("block");
    assert_eq!(b.chain, Chain::Solana);
    assert_eq!(b.block_number, 9);
    assert_eq!(b.timestamp, 1_650_000_000);
    assert_eq!(b.num_txs, 3);
    assert_eq!(b.hash, "sh");
    assert_eq!(b.parent_hash, "sp");
}

#[test]
fn solana_block_errors() {
    assert_eq!(
        solana_block_from_parts(None, Some(5), 0, "h".to_string(), "p".to_string()),
        Err(AdapterError::MissingBlockNumber)
    );
    assert_eq!(
        solana_block_from_parts(Some(1), None, 0, "h".to_string(), "p".to_string()),
        Err(AdapterError::MissingTimestamp)
    );
    assert_eq!(
        solana_block_from_parts(Some(1), Some(-1), 0, "h".to_string(), "p".to_string()),
        Err(AdapterError::TimestampOutOfRange)
    );
}
