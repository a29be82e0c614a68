use flipperzero::furi::time::{
    ns_to_ticks_at, ticks_to_ns, ticks_to_ns_at, FuriDuration, FuriInstant, TryFromDurationError, MAX_INTERVAL_DURATION_TICKS,
};

/// Instants that the clock passes through, including ones close to its wraparound.
const STARTS: [u32; 5] = [0, 12_345, 0x7fff_ffff, 0x8000_0000, u32::MAX - 10];

fn assert_almost_eq(a: FuriInstant, b: FuriInstant) {
    if a != b {
        let (a, b) = if a > b { (a, b) } else { (b, a) };
        assert!(a - FuriDuration::from_micros(1) <= b, "{:?} is not almost equal to {:?}", a, b);
    }
}

#[test]
fn instant_increases() {
    for start in STARTS {
        let a = FuriInstant(start);
        let mut tick = start;
        loop {
            tick = tick.wrapping_add(1);
            let b = FuriInstant(tick);
            assert!(b >= a);
            if b > a {
                break;
            }
        }
    }
}

#[test]
fn instant_increases_concurrent() {
    for start in STARTS {
        let mut old = FuriInstant(start);
        let count = 1_000;
        for step in 0..count {
            let new = FuriInstant(start.wrapping_add(step));
            assert!(new >= old);
            old = new;
        }
    }
}

#[test]
fn instant_elapsed() {
    let a = FuriInstant(12_345);
    let _ = a.elapsed_at(FuriInstant(12_400));
    assert_eq!(a.elapsed_at(FuriInstant(12_400)), FuriDuration(55));
    assert_eq!(a.elapsed_at(FuriInstant(12_000)), FuriDuration::max_duration());
}

#[test]
fn instant_math() {
    for start in STARTS {
        let a = FuriInstant(start);
        let b = FuriInstant(start.wrapping_add(7));
        println!("a: {:?}", a);
        println!("b: {:?}", b);
        let dur = b.duration_since(a);
        println!("dur: {} ns", dur.as_nanos());
        assert_almost_eq(b - dur, a);
        assert_almost_eq(a + dur, b);

        let second = FuriDuration::from_secs(1);
        assert_almost_eq(a - second + second, a);
        assert_almost_eq(a.checked_sub(second).unwrap().checked_add(second).unwrap(), a);

        // checked_add_duration will not panic on overflow
        let mut maybe_t = Some(FuriInstant(start));
        let max_duration = FuriDuration::from_nanos(ticks_to_ns(u32::MAX));
        // in case `Instant` can store `>= now + max_duration`.
        for _ in 0..2 {
            maybe_t = maybe_t.and_then(|t| t.checked_add(max_duration));
        }
        assert_eq!(maybe_t, None);

        // checked_add_duration calculates the right time and will work for another week
        let week = FuriDuration::from_secs(60 * 60 * 24 * 7);
        assert_eq!(a + week, a.checked_add(week).unwrap());
    }
}

#[test]
fn instant_math_is_associative() {
    for start in STARTS {
        let now = FuriInstant(start);
        let offset = FuriDuration::from_millis(5);
        // Changing the order of instant math shouldn't change the results,
        // especially when the expression reduces to X + identity.
        assert_eq!((now + offset) - now, (now - now) + offset);

        // On any platform, `Instant` should have the same resolution as `Duration`
        // (i.e. 1 tick) or better. Otherwise, math will be non-associative.
        let tick_nanos = ticks_to_ns(1);
        let now = FuriInstant(start);
        let provided_offset = FuriDuration::from_nanos(tick_nanos);
        let later = now + provided_offset;
        let measured_offset = later - now;
        assert_eq!(measured_offset, provided_offset);
    }
}

#[test]
fn instant_checked_duration_since_nopanic() {
    for start in STARTS {
        let now = FuriInstant(start);
        let earlier = now - FuriDuration::from_secs(1);
        let later = now + FuriDuration::from_secs(1);
        assert_eq!(earlier.checked_duration_since(now), None);
        assert_eq!(later.checked_duration_since(now), Some(FuriDuration::from_secs(1)));
        assert_eq!(now.checked_duration_since(now), Some(FuriDuration::zero()));
    }
}

#[test]
fn instant_saturating_duration_since_nopanic() {
    for start in STARTS {
        let a = FuriInstant(start);
        let ret = (a - FuriDuration::from_secs(1)).saturating_duration_since(a);
        assert_eq!(ret, FuriDuration::zero());
    }
}

#[test]
fn big_math() {
    // Check that the same result occurs when adding/subtracting each duration one at a
    // time as when adding/subtracting them all at once.
    fn check(
        start: Option<FuriInstant>,
        op: impl Fn(&FuriInstant, FuriDuration) -> Option<FuriInstant>,
    ) {
        let durations: [FuriDuration; 2] =
            [FuriDuration(MAX_INTERVAL_DURATION_TICKS >> 1), FuriDuration(50)];
        if let Some(start) = start {
            assert_eq!(
                op(&start, FuriDuration::sum(&durations)),
                durations.into_iter().try_fold(start, |t, d| op(&t, d))
            )
        }
    }

    for start in STARTS {
        let instant = FuriInstant(start);
        check(instant.checked_sub(FuriDuration(100)), FuriInstant::checked_add);
        check(instant.checked_sub(FuriDuration::max_duration()), FuriInstant::checked_add);
        check(instant.checked_add(FuriDuration(100)), FuriInstant::checked_sub);
        check(instant.checked_add(FuriDuration::max_duration()), FuriInstant::checked_sub);
    }
}

#[test]
fn duration_try_from() {
    assert_eq!(
        FuriDuration::try_from(core::time::Duration::ZERO),
        Ok(FuriDuration(0))
    );

    assert_eq!(
        FuriDuration::try_from(core::time::Duration::MAX),
        Err(TryFromDurationError)
    )
}

#[test]
fn tick_conversions_at_a_rate() {
    assert_eq!(ns_to_ticks_at(1000, 2_500_000), Some(2));
    assert_eq!(ticks_to_ns_at(1000, 3), Some(3_000_000));
    assert_eq!(ns_to_ticks_at(32768, 2_500_000), None);
    assert_eq!(ticks_to_ns_at(100, 3), None);
}
