use vstd::prelude::*;

verus! {

/// The address of an account.
pub type Key = [u8; 32];

/// Whether two addresses are the same.
pub fn keys_eq(a: &Key, b: &Key) -> (r: bool)
    ensures
        r == (a@ == b@),
{
    let mut i: usize = 0;
    while i < 32
        invariant
            i <= 32,
            a@.len() == 32,
            b@.len() == 32,
            forall|j: int| 0 <= j < i ==> a@[j] == b@[j],
        decreases 32 - i,
    {
        if a[i] != b[i] {
            return false;
        }
        i = i + 1;
    }
    assert(a@ =~= b@);
    true
}

/// The authority: owns the notion of the current epoch.
#[derive(Clone, Copy, Debug, PartialEq, Eq)]
pub struct Gaugemeister {
    pub key: Key,
    /// The epoch whose rewards are being paid out; votes go to the next one.
    pub current_rewards_epoch: u32,
}

impl Gaugemeister {
    /// The epoch that votes may currently target, if it is representable.
    pub open spec fn voting_epoch_spec(self) -> Option<u32> {
        if self.current_rewards_epoch < u32::MAX {
            Some((self.current_rewards_epoch + 1) as u32)
        } else {
            None
        }
    }

    pub fn voting_epoch(&self) -> (r: Option<u32>)
        ensures
            r == self.voting_epoch_spec(),
    {
        self.current_rewards_epoch.checked_add(1)
    }
}

/// A votable target.
#[derive(Clone, Copy, Debug, PartialEq, Eq)]
pub struct Gauge {
    pub key: Key,
    pub gaugemeister: Key,
    pub is_disabled: bool,
}

/// A delegator's standing relationship to the voting system.
#[derive(Clone, Copy, Debug, PartialEq, Eq)]
pub struct GaugeVoter {
    pub key: Key,
    pub escrow: Key,
    /// Incremented whenever the voter's available power changes.
    pub weight_change_seqno: u64,
}

/// A voter's standing intent to allocate power to one gauge.
#[derive(Clone, Copy, Debug, PartialEq, Eq)]
pub struct GaugeVote {
    pub key: Key,
    pub gauge_voter: Key,
    pub gauge: Key,
}

/// The power allocated to one gauge in one epoch, by all voters.
#[derive(Clone, Copy, Debug, PartialEq, Eq)]
pub struct EpochGauge {
    pub key: Key,
    pub gauge: Key,
    pub voting_epoch: u32,
    pub total_power: u64,
}

/// The power one voter allocated in one epoch, over all gauges.
#[derive(Clone, Copy, Debug, PartialEq, Eq)]
pub struct EpochGaugeVoter {
    pub key: Key,
    pub gauge_voter: Key,
    pub voting_epoch: u32,
    /// The voter's sequence number when this aggregate was opened.
    pub weight_change_seqno: u64,
    pub allocated_power: u64,
}

/// The power one voter allocated to one gauge in one epoch. It exists only
/// while the allocation is active.
#[derive(Clone, Copy, Debug, PartialEq, Eq)]
pub struct EpochGaugeVote {
    pub key: Key,
    pub allocated_power: u64,
}

/// What the vote logic reads of a voter's escrow.
#[derive(Clone, Copy, Debug, PartialEq, Eq)]
pub struct Escrow {
    pub key: Key,
    /// The party allowed to vote with the escrow's power.
    pub vote_delegate: Key,
}

} // verus!
