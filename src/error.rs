use vstd::prelude::*;

verus! {

/// Why a vote operation was refused. Every error leaves all accounts as
/// they were.
#[derive(Clone, Copy, Debug, PartialEq, Eq, Structural)]
pub enum GaugeError {
    /// An account does not belong to the gauge or voter it is used with.
    LinkageMismatch,
    /// An epoch aggregate is not for the authority's current voting epoch.
    EpochGaugeNotVoting,
    /// The vote record's address is not the one derived for it.
    AddressMismatch,
    /// Power cannot be committed to a disabled gauge.
    CannotCommitGaugeDisabled,
    /// The voter's power changed after its epoch aggregate was opened.
    WeightSeqnoChanged,
    /// The accounts do not trace to the authority, or the signer is not the
    /// escrow's vote delegate.
    Unauthorized,
    /// A total would exceed the largest representable value.
    ArithmeticOverflow,
    /// A total would go below zero: the aggregates were already inconsistent.
    ArithmeticUnderflow,
}

} // verus!
