//! Properties of the vote ledger that hold across operations.
use vstd::prelude::*;
use crate::error::GaugeError;
use crate::gauge_commit_vote::{commit_result, committed, GaugeCommitVote};
use crate::gauge_revert_vote::{revert_result, reverted, GaugeRevertVote};
use crate::guard::{address_ok, epoch_ok, guard_verdict, linkage_ok, seqno_ok, VoteAccounts};
use crate::state::{EpochGaugeVote, GaugeVoter};

verus! {

/// An active allocation in the current voting epoch.
pub struct ActiveVote {
    pub voter: Seq<u8>,
    pub gauge: Seq<u8>,
    pub amount: nat,
}

/// The sum of the active votes to `gauge`.
pub open spec fn gauge_total(votes: Seq<ActiveVote>, gauge: Seq<u8>) -> nat
    decreases votes.len(),
{
    if votes.len() == 0 {
        0
    } else {
        gauge_total(votes.drop_last(), gauge) + if votes.last().gauge == gauge {
            votes.last().amount
        } else {
            0
        }
    }
}

/// The sum of the active votes by `voter`.
pub open spec fn voter_total(votes: Seq<ActiveVote>, voter: Seq<u8>) -> nat
    decreases votes.len(),
{
    if votes.len() == 0 {
        0
    } else {
        voter_total(votes.drop_last(), voter) + if votes.last().voter == voter {
            votes.last().amount
        } else {
            0
        }
    }
}

/// The gauge's and the voter's aggregates equal the sums of the active votes.
pub open spec fn totals_match(votes: Seq<ActiveVote>, a: VoteAccounts) -> bool {
    &&& a.epoch_gauge.total_power == gauge_total(votes, a.gauge.key@)
    &&& a.epoch_gauge_voter.allocated_power == voter_total(votes, a.gauge_voter.key@)
}

/// The active vote of `power` by the accounts' voter to the accounts' gauge.
pub open spec fn vote_of(a: VoteAccounts, power: u64) -> ActiveVote {
    ActiveVote { voter: a.gauge_voter.key@, gauge: a.gauge.key@, amount: power as nat }
}

proof fn lemma_totals_remove(votes: Seq<ActiveVote>, i: int, gauge: Seq<u8>, voter: Seq<u8>)
    requires
        0 <= i < votes.len(),
    ensures
        gauge_total(votes, gauge) == gauge_total(votes.remove(i), gauge) + if votes[i].gauge
            == gauge {
            votes[i].amount
        } else {
            0
        },
        voter_total(votes, voter) == voter_total(votes.remove(i), voter) + if votes[i].voter
            == voter {
            votes[i].amount
        } else {
            0
        },
    decreases votes.len(),
{
    if i == votes.len() - 1 {
        assert(votes.remove(i) =~= votes.drop_last());
    } else {
        let rest = votes.drop_last();
        lemma_totals_remove(rest, i, gauge, voter);
        assert(votes.remove(i).drop_last() =~= rest.remove(i));
        assert(votes.remove(i).last() == votes.last());
    }
}

/// A commit keeps the aggregates equal to the sums of the active votes:
/// with the new vote added, the gauge's and the voter's totals match again,
/// and the sum for any other gauge or voter is unchanged.
pub proof fn lemma_commit_preserves_totals(
    votes: Seq<ActiveVote>,
    ctx: GaugeCommitVote,
    amount: u64,
    program_id: Seq<u8>,
)
    requires
        totals_match(votes, ctx.accounts),
        commit_result(ctx, amount, program_id) is Ok,
    ensures
        totals_match(votes.push(vote_of(ctx.accounts, amount)), committed(ctx, amount).accounts),
        forall|g: Seq<u8>|
            g != ctx.accounts.gauge.key@ ==> gauge_total(
                #[trigger] votes.push(vote_of(ctx.accounts, amount)),
                g,
            ) == gauge_total(votes, g),
        forall|v: Seq<u8>|
            v != ctx.accounts.gauge_voter.key@ ==> voter_total(
                #[trigger] votes.push(vote_of(ctx.accounts, amount)),
                v,
            ) == voter_total(votes, v),
{
    let after = votes.push(vote_of(ctx.accounts, amount));
    assert(after.drop_last() =~= votes);
}

/// A revert keeps the aggregates equal to the sums of the active votes:
/// when they match and the reverted record is active vote `i`, the revert
/// cannot underflow, and with that vote removed the totals match again; the
/// sum for any other gauge or voter is unchanged.
pub proof fn lemma_revert_preserves_totals(
    votes: Seq<ActiveVote>,
    i: int,
    ctx: GaugeRevertVote,
    program_id: Seq<u8>,
)
    requires
        ctx.epoch_gauge_vote is Some,
        totals_match(votes, ctx.accounts),
        0 <= i < votes.len(),
        votes[i] == vote_of(ctx.accounts, ctx.epoch_gauge_vote.unwrap().allocated_power),
        guard_verdict(ctx.accounts, ctx.epoch_gauge_vote.unwrap().key@, program_id, false) is Ok,
    ensures
        revert_result(ctx, program_id) is Ok,
        totals_match(votes.remove(i), reverted(ctx).accounts),
        forall|g: Seq<u8>|
            g != ctx.accounts.gauge.key@ ==> gauge_total(#[trigger] votes.remove(i), g)
                == gauge_total(votes, g),
        forall|v: Seq<u8>|
            v != ctx.accounts.gauge_voter.key@ ==> voter_total(#[trigger] votes.remove(i), v)
                == voter_total(votes, v),
{
    lemma_totals_remove(votes, i, ctx.accounts.gauge.key@, ctx.accounts.gauge_voter.key@);
    assert forall|g: Seq<u8>| g != ctx.accounts.gauge.key@ implies gauge_total(
        #[trigger] votes.remove(i),
        g,
    ) == gauge_total(votes, g) by {
        lemma_totals_remove(votes, i, g, ctx.accounts.gauge_voter.key@);
    }
    assert forall|v: Seq<u8>| v != ctx.accounts.gauge_voter.key@ implies voter_total(
        #[trigger] votes.remove(i),
        v,
    ) == voter_total(votes, v) by {
        lemma_totals_remove(votes, i, ctx.accounts.gauge.key@, v);
    }
}

/// A commit followed by a revert of the record it opened succeeds, restores
/// both aggregates exactly and leaves no record.
pub proof fn lemma_commit_then_revert(ctx: GaugeCommitVote, amount: u64, program_id: Seq<u8>)
    requires
        commit_result(ctx, amount, program_id) is Ok,
    ensures
        ({
            let undo = GaugeRevertVote {
                accounts: committed(ctx, amount).accounts,
                epoch_gauge_vote: Some(commit_result(ctx, amount, program_id)->Ok_0),
            };
            &&& revert_result(undo, program_id) is Ok
            &&& reverted(undo).accounts == ctx.accounts
            &&& reverted(undo).epoch_gauge_vote is None
        }),
{
    let a = ctx.accounts;
    let undo = GaugeRevertVote {
        accounts: committed(ctx, amount).accounts,
        epoch_gauge_vote: Some(commit_result(ctx, amount, program_id)->Ok_0),
    };
    assert(guard_verdict(a, ctx.epoch_gauge_vote_key@, program_id, true) is Ok);
    assert(guard_verdict(undo.accounts, ctx.epoch_gauge_vote_key@, program_id, false) is Ok);
    assert(reverted(undo).accounts.epoch_gauge == a.epoch_gauge);
    assert(reverted(undo).accounts.epoch_gauge_voter == a.epoch_gauge_voter);
}

/// The guard reads the state and nothing else: run twice on the same state
/// it gives the same verdict.
pub proof fn lemma_guard_idempotent(
    first: VoteAccounts,
    second: VoteAccounts,
    vote_key: Seq<u8>,
    program_id: Seq<u8>,
    require_enabled: bool,
)
    requires
        first == second,
    ensures
        guard_verdict(first, vote_key, program_id, require_enabled) == guard_verdict(
            second,
            vote_key,
            program_id,
            require_enabled,
        ),
{
}

/// A commit that would push either aggregate past the largest `u64` fails
/// with `ArithmeticOverflow` once the guard has passed.
pub proof fn lemma_commit_overflow_rejected(ctx: GaugeCommitVote, amount: u64, program_id: Seq<u8>)
    requires
        guard_verdict(ctx.accounts, ctx.epoch_gauge_vote_key@, program_id, true) is Ok,
        ctx.accounts.epoch_gauge.total_power + amount > u64::MAX
            || ctx.accounts.epoch_gauge_voter.allocated_power + amount > u64::MAX,
    ensures
        commit_result(ctx, amount, program_id) == Err::<EpochGaugeVote, GaugeError>(
            GaugeError::ArithmeticOverflow,
        ),
{
}

/// An aggregate for an epoch other than the authority's voting epoch makes
/// a commit fail with `EpochGaugeNotVoting`, once the accounts are linked.
pub proof fn lemma_commit_stale_epoch_rejected(ctx: GaugeCommitVote, amount: u64, program_id: Seq<u8>)
    requires
        linkage_ok(ctx.accounts),
        !epoch_ok(ctx.accounts),
    ensures
        commit_result(ctx, amount, program_id) == Err::<EpochGaugeVote, GaugeError>(
            GaugeError::EpochGaugeNotVoting,
        ),
{
}

/// An aggregate for an epoch other than the authority's voting epoch makes
/// a revert fail with `EpochGaugeNotVoting`, once the accounts are linked.
pub proof fn lemma_revert_stale_epoch_rejected(ctx: GaugeRevertVote, program_id: Seq<u8>)
    requires
        ctx.epoch_gauge_vote is Some,
        linkage_ok(ctx.accounts),
        !epoch_ok(ctx.accounts),
    ensures
        revert_result(ctx, program_id) == Err::<(), GaugeError>(GaugeError::EpochGaugeNotVoting),
{
}

/// The voter's accounts after its sequence number moved on by one.
pub open spec fn with_seqno_bumped(ctx: GaugeRevertVote) -> GaugeRevertVote {
    let a = ctx.accounts;
    GaugeRevertVote {
        accounts: VoteAccounts {
            gauge_voter: GaugeVoter {
                weight_change_seqno: (a.gauge_voter.weight_change_seqno + 1) as u64,
                ..a.gauge_voter
            },
            ..a
        },
        ..ctx
    }
}

/// Once the voter's sequence number is incremented after its epoch
/// aggregate was opened, a revert that would otherwise pass the linkage,
/// epoch and address checks fails with `WeightSeqnoChanged`.
pub proof fn lemma_revert_seqno_drift_rejected(ctx: GaugeRevertVote, program_id: Seq<u8>)
    requires
        ctx.epoch_gauge_vote is Some,
        linkage_ok(ctx.accounts),
        epoch_ok(ctx.accounts),
        address_ok(ctx.accounts, ctx.epoch_gauge_vote.unwrap().key@, program_id),
        seqno_ok(ctx.accounts),
        ctx.accounts.gauge_voter.weight_change_seqno < u64::MAX,
    ensures
        revert_result(with_seqno_bumped(ctx), program_id) == Err::<(), GaugeError>(
            GaugeError::WeightSeqnoChanged,
        ),
{
    let d = with_seqno_bumped(ctx);
    assert(linkage_ok(d.accounts));
    assert(epoch_ok(d.accounts));
    assert(address_ok(d.accounts, d.epoch_gauge_vote.unwrap().key@, program_id));
}

} // verus!
