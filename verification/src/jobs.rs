//! Job seeding and re-queuing: the decisions the scheduler makes.
//!
//! The scheduler itself is an unordered pool of concurrently running jobs
//! owned by the surrounding program; whenever a job finishes, the
//! follow-up jobs decided here are admitted back into the pool, so under
//! normal operation the pool never empties (an empty pool is an abnormal
//! condition that ends the process).

use vstd::prelude::*;

use crate::chain::{all_chains, all_chains_spec, Chain};

verus! {

/// How the process was asked to run; only the initial job seed differs.
#[derive(Clone, Copy, PartialEq, Eq, Structural, Debug)]
pub enum Command {
    /// Seed both the import jobs and the calculation job.
    Run,
    /// Seed one import job per chain.
    Import,
    /// Seed the one global calculation job.
    Calculate,
}

/// One unit of work in the scheduler's pool.
#[derive(Clone, Copy, PartialEq, Eq, Structural, Debug)]
pub enum Job {
    /// Run one import pass for one chain.
    Import(Chain),
    /// Run one calculation pass over all chains.
    Calculate,
}

/// The deliberate pauses the engine asks the surrounding program to take.
/// Every pause has a fixed, purpose-specific length; none grows.
#[derive(Clone, Copy, PartialEq, Eq, Structural, Debug)]
pub enum Delay {
    /// Before retrying a job that failed.
    JobError,
    /// Before re-running a finished import pass for a chain.
    Rescan,
    /// Before re-running a finished calculation pass.
    Recalculate,
    /// Before refetching a block the remote node does not have yet.
    Retry,
    /// Between consecutive fetches within one import pass.
    Courtesy,
}

/// The jobs a command seeds: one import job per chain for `Import`, the
/// one calculation job for `Calculate`, and both sets for `Run`.
pub open spec fn init_jobs_spec(cmd: Command) -> Seq<Job> {
    match cmd {
        Command::Run => all_chains_spec().map_values(|c: Chain| Job::Import(c)) + seq![
            Job::Calculate,
        ],
        Command::Import => all_chains_spec().map_values(|c: Chain| Job::Import(c)),
        Command::Calculate => seq![Job::Calculate],
    }
}

/// How many further commands a command expands into.
pub open spec fn command_rank(cmd: Command) -> int {
    match cmd {
        Command::Run => 1,
        Command::Import => 0,
        Command::Calculate => 0,
    }
}

/// Seed the initial jobs for a command.
pub fn init_jobs(cmd: Command) -> (r: Vec<Job>)
    ensures
        r@ == init_jobs_spec(cmd),
    decreases command_rank(cmd),
{
    match cmd {
        Command::Run => {
            let mut import_jobs = init_jobs(Command::Import);
            let mut calculate_jobs = init_jobs(Command::Calculate);
            import_jobs.append(&mut calculate_jobs);
            proof {
                assert(import_jobs@ =~= init_jobs_spec(Command::Run));
            }
            import_jobs
        },
        Command::Import => {
            let chains = all_chains();
            let mut jobs: Vec<Job> = Vec::new();
            let mut i: usize = 0;
            while i < chains.len()
                invariant
                    i <= chains@.len(),
                    chains@ == all_chains_spec(),
                    jobs@.len() == i,
                    forall|j: int| 0 <= j < i ==> jobs@[j] == Job::Import(all_chains_spec()[j]),
                decreases chains@.len() - i,
            {
                jobs.push(Job::Import(chains[i]));
                i = i + 1;
            }
            proof {
                assert(jobs@ =~= init_jobs_spec(Command::Import));
            }
            jobs
        },
        Command::Calculate => {
            let jobs = vec![Job::Calculate];
            proof {
                assert(jobs@ =~= init_jobs_spec(Command::Calculate));
            }
            jobs
        },
    }
}

/// What happens after a job finishes: every job re-queues exactly itself.
/// A failed job retries unconditionally after the error delay — there is
/// no backoff growth, no retry budget, no dead-lettering. A successful
/// import pass rescans its chain after the rescan delay; a successful
/// calculation pass recalculates after the recalculation delay.
pub fn job_follow_ups(job: &Job, succeeded: bool) -> (r: (Delay, Vec<Job>))
    ensures
        r.1@ == seq![*job],
        r.0 == (if !succeeded {
            Delay::JobError
        } else if *job is Import {
            Delay::Rescan
        } else {
            Delay::Recalculate
        }),
{
    let delay = if !succeeded {
        Delay::JobError
    } else {
        match job {
            Job::Import(_) => Delay::Rescan,
            Job::Calculate => Delay::Recalculate,
        }
    };
    let follow_ups = vec![*job];
    proof {
        assert(follow_ups@ =~= seq![*job]);
    }
    (delay, follow_ups)
}

} // verus!
