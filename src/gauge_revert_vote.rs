//! Reverts a vote: withdraws an active allocation from both aggregates and
//! closes its record.
use vstd::prelude::*;
use crate::error::GaugeError;
use crate::guard::{guard_verdict, VoteAccounts};
use crate::state::{EpochGauge, EpochGaugeVote, EpochGaugeVoter, Key};

verus! {

/// Accounts for reverting a vote.
#[derive(Clone, Copy, Debug, PartialEq, Eq)]
pub struct GaugeRevertVote {
    pub accounts: VoteAccounts,
    /// The vote record to revert; `None` once it has been closed.
    pub epoch_gauge_vote: Option<EpochGaugeVote>,
}

/// What a revert returns: the guard's verdict, where enablement is not
/// required, then underflow of either aggregate.
pub open spec fn revert_result(ctx: GaugeRevertVote, program_id: Seq<u8>) -> Result<(), GaugeError>
    recommends
        ctx.epoch_gauge_vote is Some,
{
    let vote = ctx.epoch_gauge_vote.unwrap();
    let a = ctx.accounts;
    match guard_verdict(a, vote.key@, program_id, false) {
        Err(e) => Err(e),
        Ok(()) => if vote.allocated_power > a.epoch_gauge_voter.allocated_power
            || vote.allocated_power > a.epoch_gauge.total_power {
            Err(GaugeError::ArithmeticUnderflow)
        } else {
            Ok(())
        },
    }
}

/// The accounts after a successful revert: the vote's power is taken off
/// both aggregates and the record is gone.
pub open spec fn reverted(ctx: GaugeRevertVote) -> GaugeRevertVote
    recommends
        ctx.epoch_gauge_vote is Some,
{
    let power = ctx.epoch_gauge_vote.unwrap().allocated_power;
    let a = ctx.accounts;
    GaugeRevertVote {
        accounts: VoteAccounts {
            epoch_gauge: EpochGauge {
                total_power: (a.epoch_gauge.total_power - power) as u64,
                ..a.epoch_gauge
            },
            epoch_gauge_voter: EpochGaugeVoter {
                allocated_power: (a.epoch_gauge_voter.allocated_power - power) as u64,
                ..a.epoch_gauge_voter
            },
            ..a
        },
        epoch_gauge_vote: None,
    }
}

impl GaugeRevertVote {
    /// Runs the consistency guard for the revert. Changes nothing.
    pub fn validate(&self, program_id: &Key) -> (r: Result<(), GaugeError>)
        requires
            self.epoch_gauge_vote is Some,
        ensures
            r == guard_verdict(self.accounts, self.epoch_gauge_vote.unwrap().key@, program_id@, false),
    {
        let vote = self.epoch_gauge_vote.unwrap();
        self.accounts.check(&vote.key, program_id, false)
    }
}

/// Reverts the active vote in `ctx`: on success both aggregates lose the
/// vote's power and the record is closed; on any error nothing changes.
pub fn handler(ctx: &mut GaugeRevertVote, program_id: &Key) -> (r: Result<(), GaugeError>)
    requires
        old(ctx).epoch_gauge_vote is Some,
    ensures
        r == revert_result(*old(ctx), program_id@),
        *final(ctx) == (if r is Ok { reverted(*old(ctx)) } else { *old(ctx) }),
{
    match ctx.validate(program_id) {
        Err(e) => {
            return Err(e);
        },
        Ok(()) => {},
    }
    let power_subtract = ctx.epoch_gauge_vote.unwrap().allocated_power;
    let allocated_power = match ctx.accounts.epoch_gauge_voter.allocated_power.checked_sub(
        power_subtract,
    ) {
        Some(p) => p,
        None => {
            return Err(GaugeError::ArithmeticUnderflow);
        },
    };
    let total_power = match ctx.accounts.epoch_gauge.total_power.checked_sub(power_subtract) {
        Some(p) => p,
        None => {
            return Err(GaugeError::ArithmeticUnderflow);
        },
    };
    ctx.accounts.epoch_gauge_voter.allocated_power = allocated_power;
    ctx.accounts.epoch_gauge.total_power = total_power;
    ctx.epoch_gauge_vote = None;
    Ok(())
}

} // verus!
