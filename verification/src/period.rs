//! The refresh period, read as a whole number of nanoseconds.

use vstd::prelude::*;
use std::time::Duration;

verus! {

/// The length of a duration in nanoseconds.
pub uninterp spec fn duration_nanos(d: Duration) -> nat;

/// Trusted: `Duration::as_nanos` returns the whole length of the duration in
/// nanoseconds, which is what `duration_nanos` names.
#[verifier::external_body]
pub(crate) fn nanos_of(d: &Duration) -> (n: u128)
    ensures
        n == duration_nanos(*d),
{
    d.as_nanos()
}

/// Whether a duration can serve as a refresh period: it must be longer than
/// nothing at all.
pub open spec fn positive(d: Duration) -> bool {
    duration_nanos(d) > 0
}

/// Decides whether `d` can serve as a refresh period.
pub fn is_positive(d: &Duration) -> (ok: bool)
    ensures
        ok == positive(*d),
{
    nanos_of(d) > 0
}

} // verus!
