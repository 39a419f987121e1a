//! The clock's ticks.
//!
//! Instants and durations are `embassy_time`'s, which counts in ticks; they are held here
//! as their tick counts.

use embassy_time::{Duration, Instant};
use vstd::prelude::*;

verus! {

/// Ticks in a second.
pub const TICK_HZ: u64 = 1_000_000;

/// `embassy_time::Instant::checked_duration_since`: the time from one instant to a later
/// one, or nothing if the second is not the later.
#[verifier::external_body]
pub(crate) fn ticks_since(now: u64, earlier: u64) -> (ticks: Option<u64>)
    ensures
        ticks == (if earlier <= now {
            Some((now - earlier) as u64)
        } else {
            None::<u64>
        }),
{
    match Instant::from_ticks(now).checked_duration_since(Instant::from_ticks(earlier)) {
        Some(duration) => Some(duration.as_ticks()),
        None => None,
    }
}

/// `embassy_time::Duration::as_secs`: the whole seconds in a duration.
#[verifier::external_body]
pub(crate) fn ticks_as_secs(ticks: u64) -> (secs: u64)
    ensures
        secs == ticks / TICK_HZ,
{
    Duration::from_ticks(ticks).as_secs()
}

/// `embassy_time::Duration::as_millis`: the whole milliseconds in a duration, those of
/// its seconds among them.
#[verifier::external_body]
pub(crate) fn ticks_as_millis(ticks: u64) -> (millis: u64)
    ensures
        millis == ticks / (TICK_HZ / 1000),
{
    Duration::from_ticks(ticks).as_millis()
}

/// `embassy_time::Duration::from_millis`: the duration of that many milliseconds.
#[verifier::external_body]
pub(crate) fn ticks_from_millis(millis: u64) -> (ticks: u64)
    requires
        millis * (TICK_HZ / 1000) <= u64::MAX,
    ensures
        ticks == millis * (TICK_HZ / 1000),
{
    Duration::from_millis(millis).as_ticks()
}

} // verus!
