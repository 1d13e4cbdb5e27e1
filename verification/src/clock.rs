//! The clocks the probes and the record lean on, behind trusted items:
//! the monotonic clock that paces the busy-wait probes, and the UTC
//! calendar clock the event record's timestamp renders.

use vstd::prelude::*;
use std::time::Instant;
use chrono::Datelike;
use chrono::Timelike;
use crate::record::TimeParts;

verus! {

/// `std::time::Instant`, declared so a running probe can hold the
/// instant it started at; the library sees nothing inside a value of it.
#[verifier::external_type_specification]
#[verifier::external_body]
pub struct ExInstant(Instant);

/// Relies on std::time::Instant::now: an opaque reading of the monotonic
/// clock.
#[verifier::external_body]
pub(crate) fn monotonic_now() -> Instant {
    Instant::now()
}

/// Relies on std::time::Instant::elapsed: how many whole milliseconds
/// have passed since `start`. The value depends on the clock, so nothing
/// is promised of it.
#[verifier::external_body]
pub(crate) fn elapsed_millis(start: &Instant) -> u64 {
    start.elapsed().as_millis() as u64
}

/// Relies on chrono's `Utc::now` with its `Datelike` and `Timelike`
/// accessors: the current UTC instant, split into the fields the
/// timestamp shows. chrono documents the month as 1 to 12, the day as
/// 1 to 31, the hour, minute and second as clock ranges, and the
/// microseconds as at most 1,999,999 (only a leap second exceeds
/// 999,999).
#[verifier::external_body]
pub(crate) fn utc_now_parts() -> (t: TimeParts)
    ensures
        t.wf(),
{
    let now = chrono::Utc::now();
    TimeParts {
        year: now.year(),
        month: now.month(),
        day: now.day(),
        hour: now.hour(),
        minute: now.minute(),
        second: now.second(),
        micro: now.timestamp_subsec_micros(),
    }
}

} // verus!
