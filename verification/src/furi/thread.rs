//! Putting the current thread to sleep.

use vstd::prelude::*;

verus! {

/// Sleeps shorter than this many nanoseconds (one hour) are counted in microseconds, so
/// that the count fits in 32 bits; longer ones are counted in milliseconds.
pub const MAX_MICROS_SLEEP_NANOS: u128 = 3_600_000_000_000;

/// How the firmware is asked to wait.
#[derive(Clone, Copy, Debug, PartialEq, Eq, Structural)]
pub enum SleepDelay {
    /// Wait this many microseconds.
    Micros(u32),
    /// Wait this many milliseconds.
    Millis(u32),
}

/// The delay for a sleep of `nanos` nanoseconds: whole microseconds below one hour, else
/// whole milliseconds, cut to 32 bits.
pub open spec fn spec_sleep_delay(nanos: u128) -> SleepDelay {
    if nanos < MAX_MICROS_SLEEP_NANOS {
        SleepDelay::Micros((nanos / 1000) as u32)
    } else {
        SleepDelay::Millis((nanos / 1_000_000) as u32)
    }
}

/// Chooses the delay for a sleep of `nanos` nanoseconds.
pub fn sleep_delay(nanos: u128) -> (r: SleepDelay)
    ensures
        r == spec_sleep_delay(nanos),
{
    if nanos < MAX_MICROS_SLEEP_NANOS {
        SleepDelay::Micros((nanos / 1000) as u32)
    } else {
        SleepDelay::Millis((nanos / 1_000_000) as u32)
    }
}

/// Chooses the delay for a sleep of `duration`.
pub fn sleep_delay_for(duration: core::time::Duration) -> (r: SleepDelay)
    ensures
        r == spec_sleep_delay(crate::furi::time::duration_nanos_of(duration)),
{
    let nanos = crate::furi::time::duration_as_nanos(&duration);
    sleep_delay(nanos)
}

/// A sleep of less than an hour is never cut: its microseconds fit in 32 bits.
pub proof fn lemma_short_sleep_is_exact(nanos: u128)
    requires
        nanos < MAX_MICROS_SLEEP_NANOS,
    ensures
        spec_sleep_delay(nanos) == SleepDelay::Micros((nanos / 1000) as u32),
        nanos / 1000 <= u32::MAX,
{
}

} // verus!
