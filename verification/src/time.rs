//! Collection timestamps and the time between two of them.

use vstd::prelude::*;

verus! {

/// A point in time, in milliseconds since an origin that the caller picks
/// once and keeps (the moment the collector was made, for one).
pub type Timestamp = u64;

/// The milliseconds from `earlier` to `later`; `0` where the clock did not
/// advance.
pub open spec fn elapsed_millis(earlier: Timestamp, later: Timestamp) -> u64 {
    if later >= earlier {
        (later - earlier) as u64
    } else {
        0
    }
}

/// Computes the milliseconds from `earlier` to `later`.
pub fn elapsed_between(earlier: Timestamp, later: Timestamp) -> (millis: u64)
    ensures
        millis == elapsed_millis(earlier, later),
{
    if later >= earlier {
        later - earlier
    } else {
        0
    }
}

} // verus!
