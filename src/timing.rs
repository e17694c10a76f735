//! Timestamps and durations, both counted in milliseconds.
use vstd::prelude::*;

verus! {

/// Milliseconds in one week.
pub const WEEK_MILLIS: i64 = 604_800_000;

/// The longest review interval of the schedule, in weeks.
pub const LONGEST_INTERVAL_WEEKS: i64 = 52;

/// The latest timestamp to which every review interval can still be added.
pub const LATEST_TIMESTAMP: i64 = 9_223_372_036_854_775_807 - 52 * 604_800_000;

/// Relies on chrono::TimeDelta::weeks and TimeDelta::num_milliseconds: a span of
/// `weeks` weeks, which is `weeks * 7 * 24 * 60 * 60` seconds.
#[verifier::external_body]
pub(crate) fn weeks_to_millis(weeks: i64) -> (r: i64)
    requires
        0 <= weeks <= LONGEST_INTERVAL_WEEKS,
    ensures
        r == weeks * WEEK_MILLIS,
{
    chrono::Duration::weeks(weeks).num_milliseconds()
}

} // verus!
