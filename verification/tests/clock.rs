use fan_control::stoptimer::{millis_between, MonotonicClock};

#[test]
fn clock_counts_ticks_times_period() {
    for period in [1u32, 2, 5, 10] {
        let mut clock = MonotonicClock::new(period);
        assert_eq!(clock.now(), 0);
        for n in 1..=1000u32 {
            clock.tick();
            assert_eq!(clock.now(), n * period);
        }
    }
}

#[test]
fn clock_wraps_round_silently() {
    let period: u32 = 0x4000_0001;
    let mut clock = MonotonicClock::new(period);
    for n in 1..=9u64 {
        clock.tick();
        assert_eq!(u64::from(clock.now()), (n * u64::from(period)) % (1u64 << 32));
    }
    assert_eq!(clock.now(), 0x4000_0009);
}

#[test]
fn interval_is_taken_across_a_wrap() {
    assert_eq!(millis_between(10, 25), 15);
    assert_eq!(millis_between(25, 25), 0);
    assert_eq!(millis_between(u32::MAX - 4, 5), 10);
    assert_eq!(millis_between(u32::MAX, 0), 1);
    assert_eq!(millis_between(5, 4), u32::MAX);
}
