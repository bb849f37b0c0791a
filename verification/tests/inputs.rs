use fan_control::inputs::{DebouncedDInput, DebouncedOutput, PotRead, DEBOUNCE_MILLIS};

#[test]
fn knob_at_half_scale_reads_fifty_percent() {
    let mut pot = PotRead::with_adc01();
    assert_eq!(pot.read_percent(2048), 50);
}

#[test]
fn knob_percent_is_sample_times_hundred_over_range() {
    let mut pot = PotRead::with_adc01();
    assert_eq!(pot.read_percent(0), 0);
    assert_eq!(pot.read_percent(40), 0);
    assert_eq!(pot.read_percent(41), 1);
    assert_eq!(pot.read_percent(1024), 25);
    assert_eq!(pot.read_percent(4055), 98);
    assert_eq!(pot.read_percent(4056), 99);
    assert_eq!(pot.read_percent(4095), 99);
    assert_eq!(pot.read_percent(4096), 100);
    assert_eq!(pot.read_percent(4137), 100);
    assert_eq!(pot.read_percent(u16::MAX), 100);
}

#[test]
fn press_is_reported_after_the_window() {
    assert_eq!(DEBOUNCE_MILLIS, 10);
    let mut button = DebouncedDInput::with_pullup();
    assert_eq!(button.read(false, 0), DebouncedOutput::Constant(true));
    assert_eq!(button.read(false, 5), DebouncedOutput::Constant(true));
    assert_eq!(button.read(false, 11), DebouncedOutput::Changed(false));
    assert!(!button.accepted_level());
}

#[test]
fn change_is_reported_exactly_once() {
    let mut button = DebouncedDInput::with_pullup();
    let times = [100u32, 103, 109, 110, 110, 111, 150, 4000];
    let mut changes: u32 = 0;
    for (k, &time) in times.iter().enumerate() {
        let out = button.is_high(false, time);
        if k < 3 {
            assert_eq!(out, DebouncedOutput::Constant(true));
        } else if k == 3 {
            assert_eq!(out, DebouncedOutput::Changed(false));
            changes += 1;
        } else {
            assert_eq!(out, DebouncedOutput::Constant(false));
        }
    }
    assert_eq!(changes, 1);
}

#[test]
fn window_is_met_at_exactly_ten_milliseconds() {
    let mut button = DebouncedDInput::with_pullup();
    assert_eq!(button.read(false, 20), DebouncedOutput::Constant(true));
    assert_eq!(button.read(false, 29), DebouncedOutput::Constant(true));
    assert_eq!(button.read(false, 30), DebouncedOutput::Changed(false));
}

#[test]
fn bouncing_restarts_the_window() {
    let mut button = DebouncedDInput::with_pullup();
    let mut level = false;
    let mut time: u32 = 0;
    for _ in 0..50 {
        assert_eq!(button.read(level, time), DebouncedOutput::Constant(true));
        level = !level;
        time += 9;
    }
    assert!(button.accepted_level());
}

#[test]
fn window_runs_from_the_latest_flip() {
    let mut button = DebouncedDInput::with_pullup();
    assert_eq!(button.read(false, 0), DebouncedOutput::Constant(true));
    assert_eq!(button.read(true, 4), DebouncedOutput::Constant(true));
    assert_eq!(button.read(false, 8), DebouncedOutput::Constant(true));
    assert_eq!(button.read(false, 12), DebouncedOutput::Constant(true));
    assert_eq!(button.read(false, 17), DebouncedOutput::Constant(true));
    assert_eq!(button.read(false, 18), DebouncedOutput::Changed(false));
}

#[test]
fn steady_level_reports_nothing() {
    let mut button = DebouncedDInput::with_pullup();
    for time in [0u32, 1, 50, 5000, u32::MAX] {
        assert_eq!(button.read(true, time), DebouncedOutput::Constant(true));
    }
}

#[test]
fn clock_that_runs_backwards_counts_as_no_time() {
    let mut button = DebouncedDInput::with_pullup();
    assert_eq!(button.read(false, 1000), DebouncedOutput::Constant(true));
    assert_eq!(button.read(false, 5), DebouncedOutput::Constant(true));
    assert_eq!(button.read(false, 1009), DebouncedOutput::Constant(true));
    assert_eq!(button.read(false, 1010), DebouncedOutput::Changed(false));
}

#[test]
fn is_low_inverts_the_level() {
    let mut button = DebouncedDInput::with_pullup();
    assert_eq!(button.is_low(false, 0), DebouncedOutput::Constant(false));
    assert_eq!(button.is_low(false, 10), DebouncedOutput::Changed(true));
    assert_eq!(button.is_low(false, 20), DebouncedOutput::Constant(true));
    assert_eq!(button.is_low(true, 30), DebouncedOutput::Constant(true));
    assert_eq!(button.is_low(true, 40), DebouncedOutput::Changed(false));
}
