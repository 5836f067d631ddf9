//! The error taxonomy.  Every failure of an operation maps to exactly one
//! variant and aborts the whole operation with no partial mutation.

use vstd::prelude::*;

verus! {

/// Why an operation was rejected.
#[derive(Clone, Copy, PartialEq, Eq, Structural, Debug)]
pub enum ErrorCode {
    /// Checked arithmetic would wrap.
    NumericalOverflow,
    /// The caller lacks the required identity or role.
    Unauthorized,
    /// A name or description exceeds its byte cap.
    StringTooLong,
    /// A milestone record was presented against the wrong project.
    InvalidMilestone,
    /// A cumulative metric total is below the milestone's target.
    MetricThresholdNotMet,
    /// The vault holds less than the milestone's payout.
    InsufficientFunds,
    /// The milestone was already released.
    AlreadyReleased,
    /// A funding amount of zero.
    InvalidAmount,
}

} // verus!
