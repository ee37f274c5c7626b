use gauge::address::epoch_gauge_vote_address;
use gauge::error::GaugeError;
use gauge::gauge_commit_vote::{self, GaugeCommitVote};
use gauge::gauge_revert_vote::{self, GaugeRevertVote};
use gauge::guard::VoteAccounts;
use gauge::state::{
    keys_eq, EpochGauge, EpochGaugeVote, EpochGaugeVoter, Escrow, Gauge, GaugeVote, GaugeVoter,
    Gaugemeister, Key,
};

const PROGRAM: Key = [9u8; 32];
const EPOCH: u32 = 5;

fn key(n: u8) -> Key {
    let mut k = [0u8; 32];
    k[0] = n;
    k[31] = 0xA0;
    k
}

/// Accounts of voter `voter` voting for gauge `gauge` in the voting epoch 5,
/// with empty aggregates.
fn accounts(gauge: u8, voter: u8) -> VoteAccounts {
    let gauge_key = key(gauge);
    let voter_key = key(voter);
    VoteAccounts {
        gaugemeister: Gaugemeister { key: key(1), current_rewards_epoch: EPOCH - 1 },
        gauge: Gauge { key: gauge_key, gaugemeister: key(1), is_disabled: false },
        gauge_voter: GaugeVoter { key: voter_key, escrow: key(2), weight_change_seqno: 3 },
        gauge_vote: GaugeVote {
            key: key(gauge.wrapping_mul(16).wrapping_add(voter)),
            gauge_voter: voter_key,
            gauge: gauge_key,
        },
        epoch_gauge: EpochGauge { key: key(40 + gauge), gauge: gauge_key, voting_epoch: EPOCH, total_power: 0 },
        epoch_gauge_voter: EpochGaugeVoter {
            key: key(60 + voter),
            gauge_voter: voter_key,
            voting_epoch: EPOCH,
            weight_change_seqno: 3,
            allocated_power: 0,
        },
        escrow: Escrow { key: key(2), vote_delegate: key(3) },
        vote_delegate: key(3),
    }
}

fn vote_key(a: &VoteAccounts) -> Key {
    epoch_gauge_vote_address(&a.gauge_vote.key, a.gaugemeister.current_rewards_epoch + 1, &PROGRAM)
        .unwrap()
}

fn commit_ctx(a: VoteAccounts) -> GaugeCommitVote {
    GaugeCommitVote { epoch_gauge_vote_key: vote_key(&a), accounts: a }
}

fn revert_ctx(a: VoteAccounts, vote: EpochGaugeVote) -> GaugeRevertVote {
    GaugeRevertVote { accounts: a, epoch_gauge_vote: Some(vote) }
}

#[test]
fn derived_address_matches_program_derivation() {
    let gauge_vote = key(77);
    let got = epoch_gauge_vote_address(&gauge_vote, 5, &PROGRAM).unwrap();
    let program = solana_program::pubkey::Pubkey::new_from_array(PROGRAM);
    let (expected, _) = solana_program::pubkey::Pubkey::find_program_address(
        &[b"EpochGaugeVote", &gauge_vote, &5u32.to_le_bytes()],
        &program,
    );
    assert_eq!(got, expected.to_bytes());
    assert_ne!(got, gauge_vote);
}

#[test]
fn derived_address_depends_on_epoch() {
    let gauge_vote = key(77);
    let a = epoch_gauge_vote_address(&gauge_vote, 5, &PROGRAM).unwrap();
    let b = epoch_gauge_vote_address(&gauge_vote, 6, &PROGRAM).unwrap();
    let c = epoch_gauge_vote_address(&key(78), 5, &PROGRAM).unwrap();
    assert_ne!(a, b);
    assert_ne!(a, c);
    assert_eq!(a, epoch_gauge_vote_address(&gauge_vote, 5, &PROGRAM).unwrap());
}

#[test]
fn keys_compare_by_every_byte() {
    let a = key(4);
    let mut b = key(4);
    assert!(keys_eq(&a, &b));
    b[31] = 0;
    assert!(!keys_eq(&a, &b));
}

#[test]
fn voting_epoch_is_the_one_after_rewards() {
    let gm = Gaugemeister { key: key(1), current_rewards_epoch: 4 };
    assert_eq!(gm.voting_epoch(), Some(5));
    let last = Gaugemeister { key: key(1), current_rewards_epoch: u32::MAX };
    assert_eq!(last.voting_epoch(), None);
}

#[test]
fn commit_then_revert_across_two_gauges() {
    // G enabled, epoch 5 active; V commits 100 to G.
    let mut g = commit_ctx(accounts(10, 20));
    let vote_g = gauge_commit_vote::handler(&mut g, 100, &PROGRAM).unwrap();
    assert_eq!(g.accounts.epoch_gauge.total_power, 100);
    assert_eq!(g.accounts.epoch_gauge_voter.allocated_power, 100);
    assert_eq!(vote_g.allocated_power, 100);

    // V commits 50 more to H, with the same voter aggregate.
    let mut h_accounts = accounts(11, 20);
    h_accounts.epoch_gauge_voter = g.accounts.epoch_gauge_voter;
    let mut h = commit_ctx(h_accounts);
    gauge_commit_vote::handler(&mut h, 50, &PROGRAM).unwrap();
    assert_eq!(h.accounts.epoch_gauge_voter.allocated_power, 150);
    assert_eq!(h.accounts.epoch_gauge.total_power, 50);

    // V reverts the 100 against G.
    let mut g_accounts = g.accounts;
    g_accounts.epoch_gauge_voter = h.accounts.epoch_gauge_voter;
    let mut r = revert_ctx(g_accounts, vote_g);
    assert_eq!(gauge_revert_vote::handler(&mut r, &PROGRAM), Ok(()));
    assert_eq!(r.accounts.epoch_gauge.total_power, 0);
    assert_eq!(r.accounts.epoch_gauge_voter.allocated_power, 50);
    assert_eq!(r.epoch_gauge_vote, None);
}

#[test]
fn disabled_gauge_may_be_reverted_but_not_committed() {
    let mut c = commit_ctx(accounts(10, 20));
    let vote = gauge_commit_vote::handler(&mut c, 30, &PROGRAM).unwrap();

    let mut disabled = c.accounts;
    disabled.gauge.is_disabled = true;

    let mut again = commit_ctx(disabled);
    let before = again;
    assert_eq!(
        gauge_commit_vote::handler(&mut again, 1, &PROGRAM),
        Err(GaugeError::CannotCommitGaugeDisabled)
    );
    assert_eq!(again, before);

    let mut r = revert_ctx(disabled, vote);
    assert_eq!(gauge_revert_vote::handler(&mut r, &PROGRAM), Ok(()));
    assert_eq!(r.accounts.epoch_gauge.total_power, 0);
    assert_eq!(r.accounts.epoch_gauge_voter.allocated_power, 0);
    assert_eq!(r.epoch_gauge_vote, None);
}

#[test]
fn round_trip_restores_aggregates() {
    let mut a = accounts(10, 20);
    a.epoch_gauge.total_power = 1_000;
    a.epoch_gauge_voter.allocated_power = 400;
    let mut c = commit_ctx(a);
    let vote = gauge_commit_vote::handler(&mut c, 250, &PROGRAM).unwrap();
    assert_eq!(c.accounts.epoch_gauge.total_power, 1_250);
    assert_eq!(c.accounts.epoch_gauge_voter.allocated_power, 650);
    let mut r = revert_ctx(c.accounts, vote);
    assert_eq!(gauge_revert_vote::handler(&mut r, &PROGRAM), Ok(()));
    assert_eq!(r.accounts, a);
    assert_eq!(r.epoch_gauge_vote, None);
}

#[test]
fn guard_verdict_repeats() {
    let c = commit_ctx(accounts(10, 20));
    assert_eq!(c.validate(&PROGRAM), Ok(()));
    assert_eq!(c.validate(&PROGRAM), Ok(()));
    let mut stale = c;
    stale.accounts.epoch_gauge.voting_epoch = 4;
    assert_eq!(stale.validate(&PROGRAM), Err(GaugeError::EpochGaugeNotVoting));
    assert_eq!(stale.validate(&PROGRAM), Err(GaugeError::EpochGaugeNotVoting));
}

#[test]
fn commit_overflow_leaves_aggregates() {
    let mut a = accounts(10, 20);
    a.epoch_gauge.total_power = u64::MAX - 5;
    let mut c = commit_ctx(a);
    let before = c;
    assert_eq!(gauge_commit_vote::handler(&mut c, 6, &PROGRAM), Err(GaugeError::ArithmeticOverflow));
    assert_eq!(c, before);
    // Exactly up to the largest value is fine.
    assert!(gauge_commit_vote::handler(&mut c, 5, &PROGRAM).is_ok());
    assert_eq!(c.accounts.epoch_gauge.total_power, u64::MAX);
}

#[test]
fn commit_overflow_on_voter_total() {
    let mut a = accounts(10, 20);
    a.epoch_gauge_voter.allocated_power = u64::MAX;
    let mut c = commit_ctx(a);
    assert_eq!(gauge_commit_vote::handler(&mut c, 1, &PROGRAM), Err(GaugeError::ArithmeticOverflow));
    assert_eq!(c.accounts, a);
}

#[test]
fn stale_epoch_rejected() {
    let mut a = accounts(10, 20);
    a.epoch_gauge_voter.voting_epoch = 6;
    let mut c = commit_ctx(a);
    assert_eq!(gauge_commit_vote::handler(&mut c, 10, &PROGRAM), Err(GaugeError::EpochGaugeNotVoting));
    assert_eq!(c.accounts, a);

    let mut b = accounts(10, 20);
    b.epoch_gauge.voting_epoch = 4;
    b.epoch_gauge.total_power = 10;
    b.epoch_gauge_voter.allocated_power = 10;
    let vote = EpochGaugeVote { key: vote_key(&b), allocated_power: 10 };
    let mut r = revert_ctx(b, vote);
    let before = r;
    assert_eq!(gauge_revert_vote::handler(&mut r, &PROGRAM), Err(GaugeError::EpochGaugeNotVoting));
    assert_eq!(r, before);
}

#[test]
fn no_voting_epoch_rejected() {
    let mut a = accounts(10, 20);
    a.gaugemeister.current_rewards_epoch = u32::MAX;
    let c = GaugeCommitVote { epoch_gauge_vote_key: key(99), accounts: a };
    assert_eq!(c.validate(&PROGRAM), Err(GaugeError::EpochGaugeNotVoting));
}

#[test]
fn seqno_drift_rejects_revert() {
    let mut c = commit_ctx(accounts(10, 20));
    let vote = gauge_commit_vote::handler(&mut c, 40, &PROGRAM).unwrap();
    let mut drifted = c.accounts;
    drifted.gauge_voter.weight_change_seqno += 1;
    let mut r = revert_ctx(drifted, vote);
    let before = r;
    assert_eq!(gauge_revert_vote::handler(&mut r, &PROGRAM), Err(GaugeError::WeightSeqnoChanged));
    assert_eq!(r, before);
}

#[test]
fn linkage_mismatch_rejected() {
    let mut a = accounts(10, 20);
    a.epoch_gauge.gauge = key(11);
    assert_eq!(commit_ctx(a).validate(&PROGRAM), Err(GaugeError::LinkageMismatch));
    let mut b = accounts(10, 20);
    b.gauge_vote.gauge_voter = key(21);
    assert_eq!(commit_ctx(b).validate(&PROGRAM), Err(GaugeError::LinkageMismatch));
    let mut d = accounts(10, 20);
    d.epoch_gauge_voter.gauge_voter = key(21);
    // Linkage is checked before the epoch.
    d.epoch_gauge.voting_epoch = 1;
    assert_eq!(commit_ctx(d).validate(&PROGRAM), Err(GaugeError::LinkageMismatch));
}

#[test]
fn address_mismatch_rejected() {
    let a = accounts(10, 20);
    let c = GaugeCommitVote { epoch_gauge_vote_key: a.gauge_vote.key, accounts: a };
    assert_eq!(c.validate(&PROGRAM), Err(GaugeError::AddressMismatch));
    // An address derived for another epoch does not match either.
    let other = epoch_gauge_vote_address(&a.gauge_vote.key, 6, &PROGRAM).unwrap();
    let d = GaugeCommitVote { epoch_gauge_vote_key: other, accounts: a };
    assert_eq!(d.validate(&PROGRAM), Err(GaugeError::AddressMismatch));
}

#[test]
fn unauthorized_rejected() {
    let mut a = accounts(10, 20);
    a.vote_delegate = key(4);
    assert_eq!(commit_ctx(a).validate(&PROGRAM), Err(GaugeError::Unauthorized));
    let mut b = accounts(10, 20);
    b.gauge.gaugemeister = key(5);
    assert_eq!(commit_ctx(b).validate(&PROGRAM), Err(GaugeError::Unauthorized));
    let mut d = accounts(10, 20);
    d.escrow.key = key(6);
    d.escrow.vote_delegate = key(3);
    assert_eq!(commit_ctx(d).validate(&PROGRAM), Err(GaugeError::Unauthorized));
}

#[test]
fn revert_underflow_rejected() {
    let mut a = accounts(10, 20);
    a.epoch_gauge.total_power = 100;
    a.epoch_gauge_voter.allocated_power = 30;
    let vote = EpochGaugeVote { key: vote_key(&a), allocated_power: 50 };
    let mut r = revert_ctx(a, vote);
    let before = r;
    assert_eq!(gauge_revert_vote::handler(&mut r, &PROGRAM), Err(GaugeError::ArithmeticUnderflow));
    assert_eq!(r, before);
}

#[test]
fn revert_of_zero_vote() {
    let a = accounts(10, 20);
    let vote = EpochGaugeVote { key: vote_key(&a), allocated_power: 0 };
    let mut r = revert_ctx(a, vote);
    assert_eq!(gauge_revert_vote::handler(&mut r, &PROGRAM), Ok(()));
    assert_eq!(r.accounts, a);
    assert_eq!(r.epoch_gauge_vote, None);
}

#[test]
fn sums_match_after_each_operation() {
    // Two voters on one gauge: the gauge total is the sum of active votes.
    let mut v1 = commit_ctx(accounts(10, 20));
    let vote1 = gauge_commit_vote::handler(&mut v1, 7, &PROGRAM).unwrap();
    let mut a2 = accounts(10, 21);
    a2.epoch_gauge = v1.accounts.epoch_gauge;
    let mut v2 = commit_ctx(a2);
    let vote2 = gauge_commit_vote::handler(&mut v2, 9, &PROGRAM).unwrap();
    assert_eq!(v2.accounts.epoch_gauge.total_power, vote1.allocated_power + vote2.allocated_power);
    assert_eq!(v2.accounts.epoch_gauge_voter.allocated_power, vote2.allocated_power);

    let mut back = v1.accounts;
    back.epoch_gauge = v2.accounts.epoch_gauge;
    let mut r = revert_ctx(back, vote1);
    assert_eq!(gauge_revert_vote::handler(&mut r, &PROGRAM), Ok(()));
    assert_eq!(r.accounts.epoch_gauge.total_power, vote2.allocated_power);
    assert_eq!(r.accounts.epoch_gauge_voter.allocated_power, 0);
}
