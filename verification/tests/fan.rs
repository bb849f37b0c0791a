use fan_control::pwm_fan::{scaled_duty, AdjustablePwmFan, PwmFanRgb, INITIAL_DUTY};

#[test]
fn new_fan_reports_initial_duty() {
    let fan = AdjustablePwmFan::new(1000);
    assert_eq!(fan.get_duty(), 25);
    assert_eq!(INITIAL_DUTY, 25);
    assert_eq!(fan.get_compare(), 0);
    assert!(fan.rgb().is_none());
    let fan = AdjustablePwmFan::with_rgb(1000);
    assert_eq!(fan.rgb(), Some(PwmFanRgb::new()));
}

#[test]
fn half_duty_of_a_thousand_counts() {
    let mut fan = AdjustablePwmFan::new(1000);
    let compare: u16 = fan.set_duty(50);
    assert_eq!(compare, 499);
    assert!((i32::from(compare) - 500).abs() <= 1);
    assert_eq!(fan.get_compare(), 499);
    assert_eq!(fan.get_duty(), 50);
}

#[test]
fn duty_is_clamped_to_a_hundred() {
    let mut fan = AdjustablePwmFan::new(1000);
    let compare: u16 = fan.set_duty(250);
    assert_eq!(fan.get_duty(), 100);
    assert_eq!(compare, 999);
    let compare: u16 = fan.set_duty(u16::MAX);
    assert_eq!(fan.get_duty(), 100);
    assert_eq!(compare, 999);
}

#[test]
fn zero_duty_stops_the_fan() {
    let mut fan = AdjustablePwmFan::new(40_000);
    assert_eq!(fan.set_duty(0), 0);
    assert_eq!(fan.get_duty(), 0);
}

#[test]
fn timer_that_reports_zero_counts_over_sixteen_bits() {
    let mut fan = AdjustablePwmFan::new(0);
    assert_eq!(fan.set_duty(100), 65499);
    let mut full = AdjustablePwmFan::new(u16::MAX);
    assert_eq!(full.set_duty(100), 65499);
}

#[test]
fn requested_percent_is_kept_as_requested() {
    let mut fan = AdjustablePwmFan::new(7);
    for percent in 0..=100u16 {
        fan.set_duty(percent);
        assert_eq!(fan.get_duty(), percent);
    }
}

#[test]
fn compare_is_the_fixed_point_product() {
    for max in [1u16, 2, 99, 100, 948, 1000, 1214, 4799, 47_999, 65_535] {
        for percent in 0..=100u16 {
            let expected: u32 = (u32::from(percent) * u32::from(max) * 655) >> 16;
            assert_eq!(u32::from(scaled_duty(percent, max)), expected);
            assert!(scaled_duty(percent, max) <= max);
        }
    }
}

#[test]
fn compare_is_within_one_count_below_the_product_limit() {
    for max in 1..=2000u32 {
        for percent in 0..=100u32 {
            if percent * max < 91_050 {
                let compare: i64 = i64::from(scaled_duty(percent as u16, max as u16));
                let exact: i64 = i64::from((percent * max + 50) / 100);
                assert!((compare - exact).abs() <= 1);
            }
        }
    }
}

#[test]
fn compare_falls_two_short_at_the_product_limit() {
    assert_eq!(scaled_duty(75, 1214), 909);
    assert_eq!((75u32 * 1214 + 50) / 100, 911);
}

#[test]
fn compare_error_stays_within_the_general_bound() {
    for max in [1u32, 500, 948, 949, 1214, 10_000, 30_000, 65_535] {
        for percent in 0..=100u32 {
            let compare: u32 = u32::from(scaled_duty(percent as u16, max as u16));
            let exact: u32 = (percent * max + 50) / 100;
            assert!(compare <= exact);
            assert!(exact - compare <= 1 + (9 * percent * max + 819_200) / 1_638_400);
        }
    }
}

#[test]
fn replacing_the_ring_keeps_the_duty() {
    let mut fan = AdjustablePwmFan::new(1000);
    fan.set_duty(40);
    let mut ring = PwmFanRgb::new();
    ring.increment_mode(0);
    fan.set_rgb(Some(ring));
    assert_eq!(fan.rgb(), Some(ring));
    assert_eq!(fan.get_duty(), 40);
    assert_eq!(fan.get_compare(), 399);
}

#[test]
fn fan_state_stays_valid() {
    let mut fan = AdjustablePwmFan::with_rgb(0);
    assert!(fan.is_valid());
    for percent in [0u16, 1, 50, 99, 100, 101, 40_000] {
        fan.set_duty(percent);
        assert!(fan.is_valid());
        assert!(fan.get_duty() <= 100);
    }
}
