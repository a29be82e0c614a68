//! Kernel time: instants on the wrapping tick clock and durations in ticks.
//!
//! The kernel tick runs at [`TICK_FREQUENCY_HZ`], so one tick is one millisecond.

use vstd::prelude::*;
use core::cmp::Ordering;

verus! {

/// Maximum number of ticks a [`FuriDuration`] can contain to be usable with [`FuriInstant`].
pub const MAX_INTERVAL_DURATION_TICKS: u32 = 0x7fff_ffff;

/// Kernel tick frequency of the Flipper Zero firmware, in hertz.
pub const TICK_FREQUENCY_HZ: u32 = 1000;

pub const NANOS_PER_SEC: u64 = 1_000_000_000;

pub const NANOS_PER_MILLI: u64 = 1_000_000;

pub const NANOS_PER_MICRO: u64 = 1_000;

pub const MILLIS_PER_SEC: u32 = 1_000;

/// Ticks counted from instant `b` forward to instant `a` on the 32-bit wrapping clock.
pub open spec fn tick_distance(a: u32, b: u32) -> int {
    if a >= b {
        a - b
    } else {
        a - b + 0x1_0000_0000
    }
}

/// The tick reached `d` ticks after tick `a` on the wrapping clock.
pub open spec fn tick_after(a: u32, d: u32) -> int {
    if a + d > u32::MAX {
        a + d - 0x1_0000_0000
    } else {
        a + d
    }
}

/// The tick lying `d` ticks before tick `a` on the wrapping clock.
pub open spec fn tick_before(a: u32, d: u32) -> int {
    if a >= d {
        a - d
    } else {
        a - d + 0x1_0000_0000
    }
}

/// How instant `a` compares to instant `b` on the wrapping clock: `a` is later when it
/// lies less than [`MAX_INTERVAL_DURATION_TICKS`] ticks after `b`.
pub open spec fn instant_order(a: u32, b: u32) -> Ordering {
    if a == b {
        Ordering::Equal
    } else if tick_distance(a, b) < MAX_INTERVAL_DURATION_TICKS {
        Ordering::Greater
    } else if tick_distance(a, b) == MAX_INTERVAL_DURATION_TICKS {
        Ordering::Equal
    } else {
        Ordering::Less
    }
}

/// Whether instant `a` compares as later than or equal to instant `b`.
pub open spec fn at_or_after(a: u32, b: u32) -> bool {
    a == b || tick_distance(a, b) <= MAX_INTERVAL_DURATION_TICKS
}

/// Whether instant `a` compares as strictly later than instant `b`.
pub open spec fn strictly_after(a: u32, b: u32) -> bool {
    a != b && tick_distance(a, b) < MAX_INTERVAL_DURATION_TICKS
}

/// Nanoseconds spanned by `ticks` kernel ticks.
pub open spec fn spec_ticks_to_ns(ticks: int) -> int {
    ticks * NANOS_PER_MILLI
}

/// Whole kernel ticks spanned by `nanos` nanoseconds.
pub open spec fn spec_ns_to_ticks(nanos: int) -> int {
    nanos / NANOS_PER_MILLI as int
}

/// Converts `nanos` nanoseconds to whole ticks of a kernel ticking at `rate` hertz.
///
/// At [`TICK_FREQUENCY_HZ`] a tick is one millisecond and the conversion is exact integer
/// division. Any other rate is converted through floating point, which this library does
/// not do: it gives `None`, and the caller converts.
pub fn ns_to_ticks_at(rate: u32, nanos: u64) -> (r: Option<u64>)
    ensures
        r == (if rate == TICK_FREQUENCY_HZ {
            Some(spec_ns_to_ticks(nanos as int) as u64)
        } else {
            None
        }),
{
    if rate == TICK_FREQUENCY_HZ {
        Some(nanos / NANOS_PER_MILLI)
    } else {
        None
    }
}

/// Converts `ticks` ticks of a kernel ticking at `rate` hertz to nanoseconds.
///
/// At [`TICK_FREQUENCY_HZ`] the upper 2 bits of the result are always zero. Any other rate
/// is converted through floating point, which this library does not do: it gives `None`,
/// and the caller converts.
pub fn ticks_to_ns_at(rate: u32, ticks: u32) -> (r: Option<u64>)
    ensures
        r == (if rate == TICK_FREQUENCY_HZ {
            Some(spec_ticks_to_ns(ticks as int) as u64)
        } else {
            None
        }),
        r matches Some(nanos) ==> nanos < 0x4000_0000_0000_0000,
{
    if rate == TICK_FREQUENCY_HZ {
        assert(ticks as u64 * NANOS_PER_MILLI <= 0xffff_ffff * 1_000_000) by (nonlinear_arith)
            requires ticks <= 0xffff_ffffu32;
        Some((ticks as u64) * NANOS_PER_MILLI)
    } else {
        None
    }
}

/// Converts the given number of nanoseconds to ticks of the firmware's kernel, which
/// ticks at [`TICK_FREQUENCY_HZ`].
pub fn ns_to_ticks(nanos: u64) -> (ticks: u64)
    ensures
        ticks == spec_ns_to_ticks(nanos as int),
{
    match ns_to_ticks_at(TICK_FREQUENCY_HZ, nanos) {
        Some(ticks) => ticks,
        None => 0,
    }
}

/// Converts the given number of ticks of the firmware's kernel, which ticks at
/// [`TICK_FREQUENCY_HZ`], to nanoseconds.
///
/// The upper 2 bits of the return value will always be zero.
pub fn ticks_to_ns(ticks: u32) -> (nanos: u64)
    ensures
        nanos == spec_ticks_to_ns(ticks as int),
        nanos < 0x4000_0000_0000_0000,
{
    match ticks_to_ns_at(TICK_FREQUENCY_HZ, ticks) {
        Some(nanos) => nanos,
        None => 0,
    }
}

/// A measurement of a wrapping clock. Opaque and useful only with [`FuriDuration`].
#[derive(Clone, Copy, Debug, PartialEq, Eq, Hash, Structural)]
pub struct FuriInstant(pub u32);

/// A span of time, counted in whole kernel ticks.
///
/// A `FuriDuration` can contain any value that is at most [`u32::MAX`] ticks; only the
/// range `[ZERO..=MAX_INTERVAL_DURATION_TICKS]` can be used with [`FuriInstant`].
#[derive(Clone, Copy, Debug, Default, PartialEq, Eq, PartialOrd, Ord, Hash, Structural)]
pub struct FuriDuration(pub u32);

/// The conversion of a [`core::time::Duration`] exceeded the ticks a [`FuriDuration`] holds.
#[derive(Clone, Copy, Debug, PartialEq, Eq, Structural)]
pub struct TryFromDurationError;

impl FuriInstant {
    /// The time from `earlier` to this instant, or `None` if `earlier` compares as later.
    pub open spec fn spec_checked_duration_since(self, earlier: FuriInstant) -> Option<FuriDuration> {
        if at_or_after(self.0, earlier.0) {
            Some(FuriDuration(tick_distance(self.0, earlier.0) as u32))
        } else {
            None
        }
    }

    /// The instant `duration` after this one, or `None` if `duration` is not usable with
    /// instants.
    pub open spec fn spec_checked_add(self, duration: FuriDuration) -> Option<FuriInstant> {
        if duration.0 <= MAX_INTERVAL_DURATION_TICKS {
            Some(FuriInstant(tick_after(self.0, duration.0) as u32))
        } else {
            None
        }
    }

    /// The instant `duration` before this one, or `None` if `duration` is not usable with
    /// instants.
    pub open spec fn spec_checked_sub(self, duration: FuriDuration) -> Option<FuriInstant> {
        if duration.0 <= MAX_INTERVAL_DURATION_TICKS {
            Some(FuriInstant(tick_before(self.0, duration.0) as u32))
        } else {
            None
        }
    }

    /// Returns an instant at the given kernel tick.
    pub fn from_tick(tick: u32) -> (r: FuriInstant)
        ensures
            r.0 == tick,
    {
        FuriInstant(tick)
    }

    /// Returns the amount of time elapsed from another instant to this one.
    ///
    /// The caller owes that `earlier` is not later than `self`.
    pub fn duration_since(&self, earlier: FuriInstant) -> (r: FuriDuration)
        requires
            self.spec_checked_duration_since(earlier) is Some,
        ensures
            Some(r) == self.spec_checked_duration_since(earlier),
    {
        match self.checked_duration_since(earlier) {
            Some(d) => d,
            None => FuriDuration(0),
        }
    }

    /// Returns the amount of time elapsed from another instant to this one, or `None` if
    /// that instant is later than this one.
    pub fn checked_duration_since(&self, earlier: FuriInstant) -> (r: Option<FuriDuration>)
        ensures
            r == self.spec_checked_duration_since(earlier),
    {
        if self >= &earlier {
            Some(FuriDuration(self.0.wrapping_sub(earlier.0)))
        } else {
            None
        }
    }

    /// Returns the amount of time elapsed from another instant to this one, or zero
    /// duration if that instant is later than this one.
    pub fn saturating_duration_since(&self, earlier: FuriInstant) -> (r: FuriDuration)
        ensures
            r == (match self.spec_checked_duration_since(earlier) {
                Some(d) => d,
                None => FuriDuration(0),
            }),
    {
        match self.checked_duration_since(earlier) {
            Some(d) => d,
            None => FuriDuration::zero(),
        }
    }

    /// Returns the amount of time elapsed since this instant, as seen at instant `now`.
    ///
    /// The wrapping clock cannot tell long intervals apart: when `self` compares as later
    /// than `now`, the result saturates to the maximum duration ([`u32::MAX`] ticks).
    pub fn elapsed_at(&self, now: FuriInstant) -> (r: FuriDuration)
        ensures
            r == (match now.spec_checked_duration_since(*self) {
                Some(d) => d,
                None => FuriDuration(u32::MAX),
            }),
    {
        match now.checked_duration_since(*self) {
            Some(d) => d,
            None => FuriDuration::max_duration(),
        }
    }

    /// Returns `Some(t)` where `t` is the time `self + duration` if `duration` is usable
    /// with instants, `None` otherwise.
    pub fn checked_add(&self, duration: FuriDuration) -> (r: Option<FuriInstant>)
        ensures
            r == self.spec_checked_add(duration),
    {
        if duration.0 <= MAX_INTERVAL_DURATION_TICKS {
            Some(FuriInstant(self.0.wrapping_add(duration.0)))
        } else {
            None
        }
    }

    /// Returns `Some(t)` where `t` is the time `self - duration` if `duration` is usable
    /// with instants, `None` otherwise.
    pub fn checked_sub(&self, duration: FuriDuration) -> (r: Option<FuriInstant>)
        ensures
            r == self.spec_checked_sub(duration),
    {
        if duration.0 <= MAX_INTERVAL_DURATION_TICKS {
            Some(FuriInstant(self.0.wrapping_sub(duration.0)))
        } else {
            None
        }
    }
}

impl FuriDuration {
    /// The sum of the two durations, or `None` if it overflows.
    pub open spec fn spec_checked_add(self, rhs: FuriDuration) -> Option<FuriDuration> {
        if self.0 + rhs.0 <= u32::MAX {
            Some(FuriDuration((self.0 + rhs.0) as u32))
        } else {
            None
        }
    }

    /// The difference of the two durations, or `None` if it is negative.
    pub open spec fn spec_checked_sub(self, rhs: FuriDuration) -> Option<FuriDuration> {
        if rhs.0 <= self.0 {
            Some(FuriDuration((self.0 - rhs.0) as u32))
        } else {
            None
        }
    }

    /// The duration `rhs` times as long, or `None` if it overflows.
    pub open spec fn spec_checked_mul(self, rhs: u32) -> Option<FuriDuration> {
        if self.0 * rhs <= u32::MAX {
            Some(FuriDuration((self.0 * rhs) as u32))
        } else {
            None
        }
    }

    /// A duration of zero time.
    pub fn zero() -> (r: FuriDuration)
        ensures
            r.0 == 0,
    {
        FuriDuration(0)
    }

    /// The maximum duration, [`u32::MAX`] ticks.
    pub fn max_duration() -> (r: FuriDuration)
        ensures
            r.0 == u32::MAX,
    {
        FuriDuration(u32::MAX)
    }

    /// Wait forever: operations given this timeout block indefinitely.
    pub fn wait_forever() -> (r: FuriDuration)
        ensures
            r.0 == 0xffff_ffff,
    {
        FuriDuration(0xffff_ffff)
    }

    /// Creates a new `FuriDuration` from the specified number of whole seconds.
    ///
    /// The caller owes that the duration fits in [`u32::MAX`] ticks.
    pub fn from_secs(secs: u64) -> (r: FuriDuration)
        requires
            secs * MILLIS_PER_SEC <= u32::MAX,
        ensures
            r.0 == spec_ns_to_ticks(secs * NANOS_PER_SEC),
            r.0 == secs * MILLIS_PER_SEC,
    {
        assert(secs * NANOS_PER_SEC == (secs * MILLIS_PER_SEC) * NANOS_PER_MILLI) by (nonlinear_arith);
        assert((secs * MILLIS_PER_SEC) * NANOS_PER_MILLI / NANOS_PER_MILLI as int == secs * MILLIS_PER_SEC)
            by (nonlinear_arith);
        let ticks = ns_to_ticks(secs * NANOS_PER_SEC);
        FuriDuration(ticks as u32)
    }

    /// Creates a new `FuriDuration` from the specified number of milliseconds.
    ///
    /// The caller owes that the duration fits in [`u32::MAX`] ticks.
    pub fn from_millis(millis: u64) -> (r: FuriDuration)
        requires
            millis <= u32::MAX,
        ensures
            r.0 == spec_ns_to_ticks(millis * NANOS_PER_MILLI),
            r.0 == millis,
    {
        assert(millis * NANOS_PER_MILLI / NANOS_PER_MILLI as int == millis) by (nonlinear_arith);
        assert(millis * NANOS_PER_MILLI <= 0xffff_ffff * 1_000_000) by (nonlinear_arith)
            requires millis <= 0xffff_ffff;
        let ticks = ns_to_ticks(millis * NANOS_PER_MILLI);
        FuriDuration(ticks as u32)
    }

    /// Creates a new `FuriDuration` from the specified number of microseconds.
    ///
    /// The caller owes that the duration fits in [`u32::MAX`] ticks.
    pub fn from_micros(micros: u64) -> (r: FuriDuration)
        requires
            micros / 1000 <= u32::MAX,
        ensures
            r.0 == spec_ns_to_ticks(micros * NANOS_PER_MICRO),
            r.0 == micros / 1000,
    {
        assert(micros * NANOS_PER_MICRO / NANOS_PER_MILLI as int == micros / 1000) by (nonlinear_arith);
        assert(micros * NANOS_PER_MICRO < 0x1_0000_0000 * 1000 * 1000) by (nonlinear_arith)
            requires micros / 1000 <= 0xffff_ffff;
        let ticks = ns_to_ticks(micros * NANOS_PER_MICRO);
        FuriDuration(ticks as u32)
    }

    /// Creates a new `FuriDuration` from the specified number of nanoseconds.
    ///
    /// The caller owes that the duration fits in [`u32::MAX`] ticks.
    pub fn from_nanos(nanos: u64) -> (r: FuriDuration)
        requires
            spec_ns_to_ticks(nanos as int) <= u32::MAX,
        ensures
            r.0 == spec_ns_to_ticks(nanos as int),
    {
        let ticks = ns_to_ticks(nanos);
        FuriDuration(ticks as u32)
    }

    /// Returns true if this `FuriDuration` spans no time.
    pub fn is_zero(&self) -> (r: bool)
        ensures
            r == (self.0 == 0),
    {
        self.0 == 0
    }

    /// Duration as Furi kernel ticks.
    pub fn as_ticks(&self) -> (r: u32)
        ensures
            r == self.0,
    {
        self.0
    }

    /// Returns the total number of whole seconds contained by this `FuriDuration`.
    pub fn as_secs(&self) -> (r: u64)
        ensures
            r == spec_ticks_to_ns(self.0 as int) / NANOS_PER_SEC as int,
            r == self.0 / 1000,
    {
        assert(self.0 * 1_000_000 / 1_000_000_000int == self.0 / 1000) by (nonlinear_arith);
        self.as_nanos() / NANOS_PER_SEC
    }

    /// Returns the total number of whole milliseconds contained by this `FuriDuration`.
    pub fn as_millis(&self) -> (r: u64)
        ensures
            r == spec_ticks_to_ns(self.0 as int) / NANOS_PER_MILLI as int,
            r == self.0,
    {
        assert(self.0 * 1_000_000 / 1_000_000int == self.0) by (nonlinear_arith);
        self.as_nanos() / NANOS_PER_MILLI
    }

    /// Returns the total number of whole microseconds contained by this `FuriDuration`.
    pub fn as_micros(&self) -> (r: u64)
        ensures
            r == spec_ticks_to_ns(self.0 as int) / NANOS_PER_MICRO as int,
            r == self.0 * 1000,
    {
        assert(self.0 * 1_000_000 / 1_000int == self.0 * 1000) by (nonlinear_arith);
        self.as_nanos() / NANOS_PER_MICRO
    }

    /// Returns the total number of nanoseconds contained by this `FuriDuration`.
    pub fn as_nanos(&self) -> (r: u64)
        ensures
            r == spec_ticks_to_ns(self.0 as int),
    {
        ticks_to_ns(self.0)
    }

    /// Checked addition: `None` if the sum overflows [`u32::MAX`] ticks.
    pub fn checked_add(self, rhs: FuriDuration) -> (r: Option<FuriDuration>)
        ensures
            r == self.spec_checked_add(rhs),
    {
        if let Some(ticks) = self.0.checked_add(rhs.0) {
            Some(FuriDuration(ticks))
        } else {
            None
        }
    }

    /// Saturating addition: [`FuriDuration::MAX`] if the sum overflows.
    pub fn saturating_add(self, rhs: FuriDuration) -> (r: FuriDuration)
        ensures
            r.0 == (if self.0 + rhs.0 <= u32::MAX { self.0 + rhs.0 } else { u32::MAX as int }),
    {
        match self.checked_add(rhs) {
            Some(res) => res,
            None => FuriDuration::max_duration(),
        }
    }

    /// Checked subtraction: `None` if the result would be negative.
    pub fn checked_sub(self, rhs: FuriDuration) -> (r: Option<FuriDuration>)
        ensures
            r == self.spec_checked_sub(rhs),
    {
        if let Some(ticks) = self.0.checked_sub(rhs.0) {
            Some(FuriDuration(ticks))
        } else {
            None
        }
    }

    /// Saturating subtraction: [`FuriDuration::ZERO`] if the result would be negative.
    pub fn saturating_sub(self, rhs: FuriDuration) -> (r: FuriDuration)
        ensures
            r.0 == (if rhs.0 <= self.0 { self.0 - rhs.0 } else { 0 }),
    {
        match self.checked_sub(rhs) {
            Some(res) => res,
            None => FuriDuration::zero(),
        }
    }

    /// Checked multiplication by a scalar: `None` if the product overflows.
    pub fn checked_mul(self, rhs: u32) -> (r: Option<FuriDuration>)
        ensures
            r == self.spec_checked_mul(rhs),
    {
        if let Some(ticks) = self.0.checked_mul(rhs) {
            Some(FuriDuration(ticks))
        } else {
            None
        }
    }

    /// Saturating multiplication by a scalar: [`FuriDuration::MAX`] if the product overflows.
    pub fn saturating_mul(self, rhs: u32) -> (r: FuriDuration)
        ensures
            r.0 == (if self.0 * rhs <= u32::MAX { self.0 * rhs } else { u32::MAX as int }),
    {
        match self.checked_mul(rhs) {
            Some(res) => res,
            None => FuriDuration::max_duration(),
        }
    }

    /// Checked division by a scalar: `None` if `rhs == 0`.
    pub fn checked_div(self, rhs: u32) -> (r: Option<FuriDuration>)
        ensures
            r == (if rhs != 0 { Some(FuriDuration(self.0 / rhs)) } else { None }),
    {
        if rhs != 0 {
            let ticks = self.0 / rhs;
            Some(FuriDuration(ticks))
        } else {
            None
        }
    }
}

impl FuriInstant {
    /// Compares two instants on the wrapping clock.
    ///
    /// Equal ticks compare as equal (equality and exact wraparound cannot be told apart);
    /// otherwise `self` is later when it lies less than [`MAX_INTERVAL_DURATION_TICKS`]
    /// ticks after `other`.
    pub fn cmp(&self, other: &Self) -> (r: Ordering)
        ensures
            r == instant_order(self.0, other.0),
    {
        if self.0 == other.0 {
            Ordering::Equal
        } else {
            let diff = self.0.wrapping_sub(other.0);
            if diff < MAX_INTERVAL_DURATION_TICKS {
                Ordering::Greater
            } else if diff == MAX_INTERVAL_DURATION_TICKS {
                Ordering::Equal
            } else {
                Ordering::Less
            }
        }
    }
}

impl PartialOrd for FuriInstant {
    fn partial_cmp(&self, other: &Self) -> (r: Option<Ordering>) {
        Some(self.cmp(other))
    }
}

impl vstd::std_specs::cmp::PartialOrdSpecImpl for FuriInstant {
    open spec fn obeys_partial_cmp_spec() -> bool {
        true
    }

    open spec fn partial_cmp_spec(&self, other: &Self) -> Option<Ordering> {
        Some(instant_order(self.0, other.0))
    }
}

impl core::ops::Add for FuriDuration {
    type Output = FuriDuration;

    /// Adds two durations; the sum must not overflow [`u32::MAX`] ticks.
    fn add(self, rhs: FuriDuration) -> (r: FuriDuration) {
        FuriDuration(self.0 + rhs.0)
    }
}

impl vstd::std_specs::ops::AddSpecImpl for FuriDuration {
    open spec fn obeys_add_spec() -> bool {
        true
    }

    open spec fn add_req(self, rhs: FuriDuration) -> bool {
        self.0 + rhs.0 <= u32::MAX
    }

    open spec fn add_spec(self, rhs: FuriDuration) -> FuriDuration {
        FuriDuration((self.0 + rhs.0) as u32)
    }
}

impl core::ops::Sub for FuriDuration {
    type Output = FuriDuration;

    /// Subtracts two durations; `rhs` must not exceed `self`.
    fn sub(self, rhs: FuriDuration) -> (r: FuriDuration) {
        FuriDuration(self.0 - rhs.0)
    }
}

impl vstd::std_specs::ops::SubSpecImpl for FuriDuration {
    open spec fn obeys_sub_spec() -> bool {
        true
    }

    open spec fn sub_req(self, rhs: FuriDuration) -> bool {
        rhs.0 <= self.0
    }

    open spec fn sub_spec(self, rhs: FuriDuration) -> FuriDuration {
        FuriDuration((self.0 - rhs.0) as u32)
    }
}

impl core::ops::Mul<u32> for FuriDuration {
    type Output = FuriDuration;

    /// Multiplies a duration by a scalar; the product must not overflow [`u32::MAX`] ticks.
    fn mul(self, rhs: u32) -> (r: FuriDuration) {
        FuriDuration(self.0 * rhs)
    }
}

impl vstd::std_specs::ops::MulSpecImpl<u32> for FuriDuration {
    open spec fn obeys_mul_spec() -> bool {
        true
    }

    open spec fn mul_req(self, rhs: u32) -> bool {
        self.0 * rhs <= u32::MAX
    }

    open spec fn mul_spec(self, rhs: u32) -> FuriDuration {
        FuriDuration((self.0 * rhs) as u32)
    }
}

impl core::ops::Div<u32> for FuriDuration {
    type Output = FuriDuration;

    /// Divides a duration by a non-zero scalar.
    fn div(self, rhs: u32) -> (r: FuriDuration) {
        FuriDuration(self.0 / rhs)
    }
}

impl vstd::std_specs::ops::DivSpecImpl<u32> for FuriDuration {
    open spec fn obeys_div_spec() -> bool {
        true
    }

    open spec fn div_req(self, rhs: u32) -> bool {
        rhs != 0
    }

    open spec fn div_spec(self, rhs: u32) -> FuriDuration {
        FuriDuration(self.0 / rhs)
    }
}

impl core::ops::Add<FuriDuration> for FuriInstant {
    type Output = FuriInstant;

    /// The instant `other` after `self`; `other` must be usable with instants.
    fn add(self, other: FuriDuration) -> (r: FuriInstant) {
        FuriInstant(self.0.wrapping_add(other.0))
    }
}

impl vstd::std_specs::ops::AddSpecImpl<FuriDuration> for FuriInstant {
    open spec fn obeys_add_spec() -> bool {
        true
    }

    open spec fn add_req(self, other: FuriDuration) -> bool {
        other.0 <= MAX_INTERVAL_DURATION_TICKS
    }

    open spec fn add_spec(self, other: FuriDuration) -> FuriInstant {
        FuriInstant(tick_after(self.0, other.0) as u32)
    }
}

impl core::ops::Sub<FuriDuration> for FuriInstant {
    type Output = FuriInstant;

    /// The instant `other` before `self`; `other` must be usable with instants.
    fn sub(self, other: FuriDuration) -> (r: FuriInstant) {
        FuriInstant(self.0.wrapping_sub(other.0))
    }
}

impl vstd::std_specs::ops::SubSpecImpl<FuriDuration> for FuriInstant {
    open spec fn obeys_sub_spec() -> bool {
        true
    }

    open spec fn sub_req(self, other: FuriDuration) -> bool {
        other.0 <= MAX_INTERVAL_DURATION_TICKS
    }

    open spec fn sub_spec(self, other: FuriDuration) -> FuriInstant {
        FuriInstant(tick_before(self.0, other.0) as u32)
    }
}

impl core::ops::Sub<FuriInstant> for FuriInstant {
    type Output = FuriDuration;

    /// The amount of time elapsed from `other` to `self`; `other` must not be later.
    fn sub(self, other: FuriInstant) -> (r: FuriDuration) {
        self.duration_since(other)
    }
}

impl vstd::std_specs::ops::SubSpecImpl<FuriInstant> for FuriInstant {
    open spec fn obeys_sub_spec() -> bool {
        true
    }

    open spec fn sub_req(self, other: FuriInstant) -> bool {
        at_or_after(self.0, other.0)
    }

    open spec fn sub_spec(self, other: FuriInstant) -> FuriDuration {
        FuriDuration(tick_distance(self.0, other.0) as u32)
    }
}

impl core::ops::Mul<FuriDuration> for u32 {
    type Output = FuriDuration;

    /// Multiplies a duration by a scalar; the product must not overflow [`u32::MAX`] ticks.
    fn mul(self, rhs: FuriDuration) -> (r: FuriDuration) {
        rhs * self
    }
}

impl vstd::std_specs::ops::MulSpecImpl<FuriDuration> for u32 {
    open spec fn obeys_mul_spec() -> bool {
        true
    }

    open spec fn mul_req(self, rhs: FuriDuration) -> bool {
        rhs.0 * self <= u32::MAX
    }

    open spec fn mul_spec(self, rhs: FuriDuration) -> FuriDuration {
        FuriDuration((rhs.0 * self) as u32)
    }
}

/// Total number of ticks in a sequence of durations.
pub open spec fn total_ticks(durations: Seq<FuriDuration>) -> int
    decreases durations.len(),
{
    if durations.len() == 0 {
        0
    } else {
        total_ticks(durations.drop_last()) + durations.last().0
    }
}

proof fn lemma_total_ticks_prefix_bounded(durations: Seq<FuriDuration>, i: int)
    requires
        0 <= i <= durations.len(),
    ensures
        0 <= total_ticks(durations.take(i)) <= total_ticks(durations),
    decreases durations.len(),
{
    if durations.len() > 0 {
        if i == durations.len() {
            assert(durations.take(i) =~= durations);
            lemma_total_ticks_prefix_bounded(durations.drop_last(), i - 1);
            assert(durations.drop_last().take(i - 1) =~= durations.drop_last());
        } else {
            lemma_total_ticks_prefix_bounded(durations.drop_last(), i);
            assert(durations.drop_last().take(i) =~= durations.take(i));
        }
    }
}

impl FuriDuration {
    /// Sums the given durations; the total must not overflow [`u32::MAX`] ticks.
    pub fn sum(durations: &[FuriDuration]) -> (r: FuriDuration)
        requires
            total_ticks(durations@) <= u32::MAX,
        ensures
            r.0 == total_ticks(durations@),
    {
        let mut total: u32 = 0;
        let mut i: usize = 0;
        while i < durations.len()
            invariant
                i <= durations.len(),
                total == total_ticks(durations@.take(i as int)),
                total_ticks(durations@) <= u32::MAX,
            decreases durations.len() - i,
        {
            proof {
                lemma_total_ticks_prefix_bounded(durations@, i + 1);
                assert(durations@.take(i + 1).drop_last() =~= durations@.take(i as int));
            }
            total = total + durations[i].0;
            i = i + 1;
        }
        assert(durations@.take(i as int) =~= durations@);
        FuriDuration(total)
    }

    /// The whole ticks in a span of nanoseconds, or an error when the span exceeds
    /// [`u64::MAX`] nanoseconds or the ticks exceed [`u32::MAX`].
    pub open spec fn spec_try_from_nanos(nanos: u128) -> Result<FuriDuration, TryFromDurationError> {
        if nanos <= u64::MAX && spec_ns_to_ticks(nanos as int) <= u32::MAX {
            Ok(FuriDuration(spec_ns_to_ticks(nanos as int) as u32))
        } else {
            Err(TryFromDurationError)
        }
    }

    /// Converts a span of nanoseconds into whole ticks, failing when the span exceeds
    /// [`u64::MAX`] nanoseconds or the ticks exceed [`u32::MAX`].
    pub fn try_from_nanos(nanos: u128) -> (r: Result<FuriDuration, TryFromDurationError>)
        ensures
            r == FuriDuration::spec_try_from_nanos(nanos),
    {
        if nanos > u64::MAX as u128 {
            return Err(TryFromDurationError);
        }
        let ticks = ns_to_ticks(nanos as u64);
        if ticks > u32::MAX as u64 {
            Err(TryFromDurationError)
        } else {
            Ok(FuriDuration(ticks as u32))
        }
    }
}

/// The total number of nanoseconds that `duration` spans, as `Duration::as_nanos` counts
/// them.
pub uninterp spec fn duration_nanos_of(duration: core::time::Duration) -> u128;

/// Calls `core::time::Duration::as_nanos`, the total number of nanoseconds that `value`
/// spans.
#[verifier::external_body]
pub(crate) fn duration_as_nanos(value: &core::time::Duration) -> (r: u128)
    ensures
        r == duration_nanos_of(*value),
{
    value.as_nanos()
}

impl TryFrom<core::time::Duration> for FuriDuration {
    type Error = TryFromDurationError;

    fn try_from(value: core::time::Duration) -> (r: Result<FuriDuration, TryFromDurationError>) {
        FuriDuration::try_from_nanos(duration_as_nanos(&value))
    }
}

impl vstd::std_specs::convert::TryFromSpecImpl<core::time::Duration> for FuriDuration {
    open spec fn obeys_try_from_spec() -> bool {
        true
    }

    open spec fn try_from_spec(v: core::time::Duration) -> Result<FuriDuration, TryFromDurationError> {
        FuriDuration::spec_try_from_nanos(duration_nanos_of(v))
    }
}

/// An instant moved forward by a usable duration and then measured back against the
/// starting instant yields exactly that duration.
pub proof fn lemma_add_then_duration_since(i: FuriInstant, d: FuriDuration)
    requires
        d.0 <= MAX_INTERVAL_DURATION_TICKS,
    ensures
        i.spec_checked_add(d) is Some,
        i.spec_checked_add(d).unwrap().spec_checked_duration_since(i) == Some(d),
{
}

/// Moving an instant back by a usable duration and forward again (or forward and then
/// back) returns the starting instant.
pub proof fn lemma_add_sub_inverse(i: FuriInstant, d: FuriDuration)
    requires
        d.0 <= MAX_INTERVAL_DURATION_TICKS,
    ensures
        i.spec_checked_sub(d).unwrap().spec_checked_add(d) == Some(i),
        i.spec_checked_add(d).unwrap().spec_checked_sub(d) == Some(i),
{
}

/// An instant moved forward by a usable duration compares as later than or equal to the
/// starting instant, and strictly later for a non-zero duration short of
/// [`MAX_INTERVAL_DURATION_TICKS`].
pub proof fn lemma_add_is_later(i: FuriInstant, d: FuriDuration)
    requires
        d.0 <= MAX_INTERVAL_DURATION_TICKS,
    ensures
        at_or_after(i.spec_checked_add(d).unwrap().0, i.0),
        0 < d.0 < MAX_INTERVAL_DURATION_TICKS ==> strictly_after(
            i.spec_checked_add(d).unwrap().0,
            i.0,
        ),
{
}

/// The time elapsed from a later instant back to an earlier one is not defined: an instant
/// moved back by a non-zero usable duration yields `None` when measured against the start.
pub proof fn lemma_duration_since_later_is_none(i: FuriInstant, d: FuriDuration)
    requires
        0 < d.0 <= MAX_INTERVAL_DURATION_TICKS,
    ensures
        i.spec_checked_sub(d).unwrap().spec_checked_duration_since(i) is None,
        i.spec_checked_duration_since(i.spec_checked_sub(d).unwrap()) == Some(d),
{
}

/// Every instant is zero time away from itself.
pub proof fn lemma_duration_since_self(i: FuriInstant)
    ensures
        i.spec_checked_duration_since(i) == Some(FuriDuration(0)),
        instant_order(i.0, i.0) == Ordering::Equal,
{
}

/// Comparing two instants in the other order gives the reverse answer, except where the
/// ticks between them are exactly [`MAX_INTERVAL_DURATION_TICKS`] one way round, or exactly
/// half the clock.
pub proof fn lemma_order_antisymmetric(a: u32, b: u32)
    requires
        tick_distance(a, b) != 0x8000_0000,
        tick_distance(a, b) != MAX_INTERVAL_DURATION_TICKS,
        tick_distance(b, a) != MAX_INTERVAL_DURATION_TICKS,
    ensures
        instant_order(a, b) == Ordering::Less <==> instant_order(b, a) == Ordering::Greater,
        instant_order(a, b) == Ordering::Equal <==> instant_order(b, a) == Ordering::Equal,
{
}

/// Adding two usable durations to an instant one after the other lands on the same instant
/// as adding their sum at once; likewise for subtracting.
pub proof fn lemma_add_sub_fold(i: FuriInstant, d1: FuriDuration, d2: FuriDuration)
    requires
        d1.0 + d2.0 <= MAX_INTERVAL_DURATION_TICKS,
    ensures
        i.spec_checked_add(FuriDuration((d1.0 + d2.0) as u32))
            == i.spec_checked_add(d1).unwrap().spec_checked_add(d2),
        i.spec_checked_sub(FuriDuration((d1.0 + d2.0) as u32))
            == i.spec_checked_sub(d1).unwrap().spec_checked_sub(d2),
{
}

/// Measured at any instant no earlier than `i`, the time elapsed since `i` is the ticks
/// between them.
pub proof fn lemma_elapsed_at_later(i: FuriInstant, now: FuriInstant)
    requires
        at_or_after(now.0, i.0),
    ensures
        now.spec_checked_duration_since(i) == Some(FuriDuration(tick_distance(now.0, i.0) as u32)),
{
}

/// Converting ticks to nanoseconds and back returns the ticks; converting nanoseconds to
/// ticks and back rounds down to a whole tick.
pub proof fn lemma_tick_conversions(ticks: nat, nanos: nat)
    ensures
        spec_ns_to_ticks(spec_ticks_to_ns(ticks as int)) == ticks,
        spec_ticks_to_ns(spec_ns_to_ticks(nanos as int)) <= nanos,
        nanos < spec_ticks_to_ns(spec_ns_to_ticks(nanos as int)) + NANOS_PER_MILLI,
{
    assert(ticks * 1_000_000int / 1_000_000int == ticks) by (nonlinear_arith);
    assert((nanos as int / 1_000_000int) * 1_000_000int <= nanos) by (nonlinear_arith);
    assert(nanos < (nanos as int / 1_000_000int) * 1_000_000int + 1_000_000int) by (nonlinear_arith);
}

/// Adding a duration and subtracting it again returns the starting duration; subtracting
/// a duration no longer than `a` and adding it back returns `a`.
pub proof fn lemma_duration_add_sub_inverse(a: FuriDuration, b: FuriDuration)
    ensures
        a.spec_checked_add(b) matches Some(s) ==> s.spec_checked_sub(b) == Some(a),
        a.spec_checked_sub(b) matches Some(d) ==> d.spec_checked_add(b) == Some(a),
{
}

/// Addition of durations is commutative, overflow included.
pub proof fn lemma_duration_add_commutative(a: FuriDuration, b: FuriDuration)
    ensures
        a.spec_checked_add(b) == b.spec_checked_add(a),
{
}

/// Multiplying by a non-zero scalar and dividing by it again returns the duration.
pub proof fn lemma_duration_mul_div_inverse(a: FuriDuration, k: u32)
    requires
        k != 0,
        a.spec_checked_mul(k) is Some,
    ensures
        a.spec_checked_mul(k).unwrap().0 / k == a.0,
{
    assert((a.0 * k) / (k as int) == a.0) by (nonlinear_arith)
        requires k != 0;
}

} // verus!
