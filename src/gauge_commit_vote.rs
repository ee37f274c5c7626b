//! Commits a vote: allocates power to a gauge for the current voting epoch
//! and opens the record of that allocation.
use vstd::prelude::*;
use crate::error::GaugeError;
use crate::guard::{guard_verdict, VoteAccounts};
use crate::state::{EpochGauge, EpochGaugeVote, EpochGaugeVoter, Key};

verus! {

/// Accounts for committing a vote.
#[derive(Clone, Copy, Debug, PartialEq, Eq)]
pub struct GaugeCommitVote {
    pub accounts: VoteAccounts,
    /// Where the new vote record is to be opened.
    pub epoch_gauge_vote_key: Key,
}

/// What a commit of `amount` returns: the guard's verdict with enablement
/// required, then overflow of either aggregate, else the new record.
pub open spec fn commit_result(ctx: GaugeCommitVote, amount: u64, program_id: Seq<u8>) -> Result<
    EpochGaugeVote,
    GaugeError,
> {
    let a = ctx.accounts;
    match guard_verdict(a, ctx.epoch_gauge_vote_key@, program_id, true) {
        Err(e) => Err(e),
        Ok(()) => if a.epoch_gauge.total_power + amount > u64::MAX
            || a.epoch_gauge_voter.allocated_power + amount > u64::MAX {
            Err(GaugeError::ArithmeticOverflow)
        } else {
            Ok(EpochGaugeVote { key: ctx.epoch_gauge_vote_key, allocated_power: amount })
        },
    }
}

/// The accounts after a successful commit of `amount`: both aggregates gain it.
pub open spec fn committed(ctx: GaugeCommitVote, amount: u64) -> GaugeCommitVote {
    let a = ctx.accounts;
    GaugeCommitVote {
        accounts: VoteAccounts {
            epoch_gauge: EpochGauge {
                total_power: (a.epoch_gauge.total_power + amount) as u64,
                ..a.epoch_gauge
            },
            epoch_gauge_voter: EpochGaugeVoter {
                allocated_power: (a.epoch_gauge_voter.allocated_power + amount) as u64,
                ..a.epoch_gauge_voter
            },
            ..a
        },
        ..ctx
    }
}

impl GaugeCommitVote {
    /// Runs the consistency guard for the commit. Changes nothing.
    pub fn validate(&self, program_id: &Key) -> (r: Result<(), GaugeError>)
        ensures
            r == guard_verdict(self.accounts, self.epoch_gauge_vote_key@, program_id@, true),
    {
        self.accounts.check(&self.epoch_gauge_vote_key, program_id, true)
    }
}

/// Commits `amount` of the voter's power to the gauge: on success both
/// aggregates gain it and the new record is returned; on any error nothing
/// changes.
pub fn handler(ctx: &mut GaugeCommitVote, amount: u64, program_id: &Key) -> (r: Result<
    EpochGaugeVote,
    GaugeError,
>)
    ensures
        r == commit_result(*old(ctx), amount, program_id@),
        *final(ctx) == (if r is Ok { committed(*old(ctx), amount) } else { *old(ctx) }),
{
    match ctx.validate(program_id) {
        Err(e) => {
            return Err(e);
        },
        Ok(()) => {},
    }
    let total_power = match ctx.accounts.epoch_gauge.total_power.checked_add(amount) {
        Some(p) => p,
        None => {
            return Err(GaugeError::ArithmeticOverflow);
        },
    };
    let allocated_power = match ctx.accounts.epoch_gauge_voter.allocated_power.checked_add(amount) {
        Some(p) => p,
        None => {
            return Err(GaugeError::ArithmeticOverflow);
        },
    };
    ctx.accounts.epoch_gauge.total_power = total_power;
    ctx.accounts.epoch_gauge_voter.allocated_power = allocated_power;
    Ok(EpochGaugeVote { key: ctx.epoch_gauge_vote_key, allocated_power: amount })
}

} // verus!
