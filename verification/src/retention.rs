//! Retention of recorded videos: which files are past their time.

use vstd::prelude::*;

verus! {

/// The number of seconds in a day.
pub const SECONDS_PER_DAY: u64 = 86_400;

/// Whether a file last modified at `modified` is older, at the time `now`,
/// than `days` whole days. All times are seconds since the epoch.
pub open spec fn is_stale(modified: int, now: int, days: int) -> bool {
    modified < now - days * SECONDS_PER_DAY
}

/// Decides `is_stale`: whether a file last modified at `modified` is to be
/// deleted at the time `now` under a retention of `days` days. No file is
/// stale under a retention that reaches back before the epoch.
pub fn is_stale_file(modified: u64, now: u64, days: u64) -> (b: bool)
    ensures
        b == is_stale(modified as int, now as int, days as int),
{
    match days.checked_mul(SECONDS_PER_DAY) {
        Some(age) => age <= now && modified < now - age,
        None => false,
    }
}

} // verus!
