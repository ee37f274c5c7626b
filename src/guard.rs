//! The consistency guard: read-only checks run, in a fixed order, before
//! any change to the ledger.
use vstd::prelude::*;
use crate::address::{epoch_gauge_vote_address, expected_vote_address};
use crate::error::GaugeError;
use crate::state::{
    keys_eq, Escrow, EpochGauge, EpochGaugeVoter, Gauge, GaugeVote, GaugeVoter, Gaugemeister, Key,
};

verus! {

/// The accounts that a commit or a revert reads.
#[derive(Clone, Copy, Debug, PartialEq, Eq)]
pub struct VoteAccounts {
    pub gaugemeister: Gaugemeister,
    pub gauge: Gauge,
    pub gauge_voter: GaugeVoter,
    pub gauge_vote: GaugeVote,
    pub epoch_gauge: EpochGauge,
    pub epoch_gauge_voter: EpochGaugeVoter,
    pub escrow: Escrow,
    /// The party acting on the voter's behalf.
    pub vote_delegate: Key,
}

/// The gauge vote and both aggregates belong to the gauge and the voter.
pub open spec fn linkage_ok(a: VoteAccounts) -> bool {
    &&& a.gauge_vote.gauge@ == a.gauge.key@
    &&& a.epoch_gauge.gauge@ == a.gauge.key@
    &&& a.gauge_vote.gauge_voter@ == a.gauge_voter.key@
    &&& a.epoch_gauge_voter.gauge_voter@ == a.gauge_voter.key@
}

/// Both aggregates are for the authority's current voting epoch.
pub open spec fn epoch_ok(a: VoteAccounts) -> bool {
    match a.gaugemeister.voting_epoch_spec() {
        Some(e) => a.epoch_gauge.voting_epoch == e && a.epoch_gauge_voter.voting_epoch == e,
        None => false,
    }
}

/// The vote record's address is the one derived for the gauge vote in the
/// voting epoch.
pub open spec fn address_ok(a: VoteAccounts, vote_key: Seq<u8>, program_id: Seq<u8>) -> bool {
    match a.gaugemeister.voting_epoch_spec() {
        Some(e) => expected_vote_address(a.gauge_vote.key@, e, program_id) == Some(vote_key),
        None => false,
    }
}

/// The voter's power has not changed since its epoch aggregate was opened.
pub open spec fn seqno_ok(a: VoteAccounts) -> bool {
    a.epoch_gauge_voter.weight_change_seqno == a.gauge_voter.weight_change_seqno
}

/// The gauge belongs to the authority, the escrow to the voter, and the
/// acting party is the escrow's vote delegate.
pub open spec fn authority_ok(a: VoteAccounts) -> bool {
    &&& a.gauge.gaugemeister@ == a.gaugemeister.key@
    &&& a.escrow.key@ == a.gauge_voter.escrow@
    &&& a.vote_delegate@ == a.escrow.vote_delegate@
}

/// The outcome of the checks above, taken in turn: the first that fails, else `Ok`.
/// Enablement of the gauge is checked only where `require_enabled` holds.
pub open spec fn guard_verdict(
    a: VoteAccounts,
    vote_key: Seq<u8>,
    program_id: Seq<u8>,
    require_enabled: bool,
) -> Result<(), GaugeError> {
    if !linkage_ok(a) {
        Err(GaugeError::LinkageMismatch)
    } else if !epoch_ok(a) {
        Err(GaugeError::EpochGaugeNotVoting)
    } else if !address_ok(a, vote_key, program_id) {
        Err(GaugeError::AddressMismatch)
    } else if require_enabled && a.gauge.is_disabled {
        Err(GaugeError::CannotCommitGaugeDisabled)
    } else if !seqno_ok(a) {
        Err(GaugeError::WeightSeqnoChanged)
    } else if !authority_ok(a) {
        Err(GaugeError::Unauthorized)
    } else {
        Ok(())
    }
}

impl VoteAccounts {
    /// Runs the guard for the vote record at `vote_key`. Changes nothing.
    pub fn check(&self, vote_key: &Key, program_id: &Key, require_enabled: bool) -> (r: Result<
        (),
        GaugeError,
    >)
        ensures
            r == guard_verdict(*self, vote_key@, program_id@, require_enabled),
    {
        if !(keys_eq(&self.gauge_vote.gauge, &self.gauge.key) && keys_eq(
            &self.epoch_gauge.gauge,
            &self.gauge.key,
        ) && keys_eq(&self.gauge_vote.gauge_voter, &self.gauge_voter.key) && keys_eq(
            &self.epoch_gauge_voter.gauge_voter,
            &self.gauge_voter.key,
        )) {
            return Err(GaugeError::LinkageMismatch);
        }
        let voting_epoch = match self.gaugemeister.voting_epoch() {
            Some(e) => e,
            None => {
                return Err(GaugeError::EpochGaugeNotVoting);
            },
        };
        if self.epoch_gauge.voting_epoch != voting_epoch || self.epoch_gauge_voter.voting_epoch
            != voting_epoch {
            return Err(GaugeError::EpochGaugeNotVoting);
        }
        match epoch_gauge_vote_address(&self.gauge_vote.key, voting_epoch, program_id) {
            Some(expected) => {
                if !keys_eq(&expected, vote_key) {
                    return Err(GaugeError::AddressMismatch);
                }
            },
            None => {
                return Err(GaugeError::AddressMismatch);
            },
        }
        if require_enabled && self.gauge.is_disabled {
            return Err(GaugeError::CannotCommitGaugeDisabled);
        }
        if self.epoch_gauge_voter.weight_change_seqno != self.gauge_voter.weight_change_seqno {
            return Err(GaugeError::WeightSeqnoChanged);
        }
        if !(keys_eq(&self.gauge.gaugemeister, &self.gaugemeister.key) && keys_eq(
            &self.escrow.key,
            &self.gauge_voter.escrow,
        ) && keys_eq(&self.vote_delegate, &self.escrow.vote_delegate)) {
            return Err(GaugeError::Unauthorized);
        }
        Ok(())
    }
}

} // verus!
