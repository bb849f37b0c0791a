//! The bodies of the three tasks, as functions from the state and what the
//! hardware gave to the next state and what the hardware is to receive.
use vstd::prelude::*;
use vstd::utf8::encode_utf8;
use crate::error::Error;
use crate::inputs::{idle_high, sample_percent, DebouncedDInput, DebouncedOutput, PotRead};
use crate::lcd::{is_duty_display, I2CLcd, LcdWrite};
use crate::leds::Rgb;
use crate::pwm_fan::{
    duty_compare, effective_max, is_frame, mode_label, next_mode, AdjustablePwmFan, PwmFanRgb,
    DEFAULT_BRIGHTNESS,
};

verus! {

/// Frequency of the system clock, in hertz.
pub const SYSCLK_HZ: u32 = 48_000_000;

/// Duty cycle that the fan starts with, in percent.
pub const STARTUP_DUTY: u16 = 50;

/// Row of the mode's name on the display.
pub const MODE_ROW: u8 = 1;

/// Column at which the mode's name starts.
pub const MODE_COLUMN: u8 = 0;

/// What the tasks share.
#[derive(Clone, Copy, Debug)]
pub struct Shared {
    /// The fan, with its LED ring.
    pub pwm_obj: AdjustablePwmFan,
    /// The display.
    pub lcd: I2CLcd,
    /// Whether the display still has to show the lighting mode's name.
    pub rgb_needs_lcd_update: bool,
}

/// What belongs to one task alone.
pub struct Local {
    /// The potentiometer, read by the polling task.
    pub pot_obj: PotRead,
    /// The push button, read by the button handler.
    pub user_button: DebouncedDInput,
}

/// The state after start-up, and what start-up sends to the hardware.
pub struct Startup {
    pub shared: Shared,
    pub local: Local,
    /// Compare count for the fan's timer.
    pub compare: u16,
    /// The duty cycle, for the display.
    pub display: (LcdWrite, LcdWrite),
}

/// A new duty cycle, for the timer and for the display.
pub struct DutyUpdate {
    /// Compare count for the fan's timer.
    pub compare: u16,
    /// The duty cycle, for the display.
    pub display: (LcdWrite, LcdWrite),
}

/// What one animation tick sends out.
pub struct RgbRefresh {
    /// The mode's name for the display, where it is still to be shown.
    pub label: Option<LcdWrite>,
    /// The frame for the LED ring, where the fan has a ring.
    pub frame: Option<[Rgb; 8]>,
}

/// The frequency that the system clock is set to.
pub fn setup_clocks() -> (hz: u32)
    ensures
        hz == SYSCLK_HZ,
{
    SYSCLK_HZ
}

/// The state at start-up, for a timer whose maximum compare count is
/// `max_duty`: a fan with a ring in its first mode, set to the start-up duty
/// cycle, which the display is to show; the mode's name still to be shown;
/// a button that idles high.
pub fn init(max_duty: u16) -> (start: Startup)
    ensures
        start.shared.pwm_obj.wf(),
        start.shared.pwm_obj.duty() == STARTUP_DUTY,
        start.shared.pwm_obj.max_compare() == max_duty,
        start.shared.pwm_obj.compare_value() == start.compare,
        start.shared.pwm_obj.ring() == Some(PwmFanRgb::new_spec()),
        PwmFanRgb::new_spec().mode() == 0,
        PwmFanRgb::new_spec().level() == DEFAULT_BRIGHTNESS,
        start.shared.rgb_needs_lcd_update,
        start.compare == duty_compare(STARTUP_DUTY, effective_max(max_duty)),
        is_duty_display(start.display, 50),
        start.local.user_button@ == idle_high(),
        start.local.pot_obj.latest() == 0,
{
    let mut pwm_obj = AdjustablePwmFan::with_rgb(max_duty);
    let compare: u16 = pwm_obj.set_duty(STARTUP_DUTY);
    let display = I2CLcd::write_duty_cycle(50);
    Startup {
        shared: Shared { pwm_obj, lcd: I2CLcd::new(), rgb_needs_lcd_update: true },
        local: Local { pot_obj: PotRead::with_adc01(), user_button: DebouncedDInput::with_pullup() },
        compare,
        display,
    }
}

/// What the polling task makes of a raw sample: the fan's duty cycle is
/// the percentage that the sample stands for; where that is a change, the
/// new compare count and the new text of the display are handed out, and
/// nothing else changes.
pub open spec fn duty_updated(
    before: Shared,
    after: Shared,
    sample: u16,
    update: Option<DutyUpdate>,
) -> bool {
    &&& after.lcd == before.lcd
    &&& after.rgb_needs_lcd_update == before.rgb_needs_lcd_update
    &&& after.pwm_obj.ring() == before.pwm_obj.ring()
    &&& after.pwm_obj.max_compare() == before.pwm_obj.max_compare()
    &&& after.pwm_obj.duty() == sample_percent(sample)
    &&& before.pwm_obj.wf() ==> after.pwm_obj.wf()
    &&& sample_percent(sample) == before.pwm_obj.duty() ==> update is None && after.pwm_obj
        == before.pwm_obj
    &&& sample_percent(sample) != before.pwm_obj.duty() ==> (update matches Some(u) && u.compare
        == duty_compare(
        sample_percent(sample) as u16,
        effective_max(before.pwm_obj.max_compare()),
    ) && after.pwm_obj.compare_value() == u.compare && is_duty_display(
        u.display,
        sample_percent(sample) as u8,
    ))
}

/// The polling task: takes a raw sample of the potentiometer and, where the
/// percentage it stands for differs from the fan's duty cycle, sets the fan
/// to it. Returns what then goes to the timer and to the display, and
/// nothing where the duty cycle stays as it is.
pub fn read_pot_and_update_fan(shared: &mut Shared, pot_obj: &mut PotRead, sample: u16) -> (update:
    Option<DutyUpdate>)
    ensures
        final(pot_obj).latest() == sample,
        duty_updated(*old(shared), *final(shared), sample, update),
{
    let new_duty_percent: u16 = pot_obj.read_percent(sample);
    if new_duty_percent != shared.pwm_obj.get_duty() {
        let compare: u16 = shared.pwm_obj.set_duty(new_duty_percent);
        let display = I2CLcd::write_duty_cycle(new_duty_percent as u8);
        Some(DutyUpdate { compare, display })
    } else {
        None
    }
}

/// Whether a poll of the button counts as a press: the accepted level has
/// just returned to high.
pub open spec fn is_press(out: DebouncedOutput) -> bool {
    out == DebouncedOutput::Changed(true)
}

/// What the button handler makes of a poll's report. On a press, where the
/// fan has a ring, the ring is in its next mode, the display is due to show
/// the mode's name, and the new mode's frame at `now_ms` is handed out.
/// Otherwise nothing changes and nothing is handed out. The fan's duty
/// cycle stays as it is either way.
pub open spec fn button_handled(
    before: Shared,
    after: Shared,
    report: DebouncedOutput,
    now_ms: u32,
    frame: Option<[Rgb; 8]>,
) -> bool {
    &&& after.pwm_obj.wf()
    &&& after.lcd == before.lcd
    &&& after.pwm_obj.duty() == before.pwm_obj.duty()
    &&& after.pwm_obj.compare_value() == before.pwm_obj.compare_value()
    &&& after.pwm_obj.max_compare() == before.pwm_obj.max_compare()
    &&& match before.pwm_obj.ring() {
        Some(rgb) if is_press(report) => {
            &&& after.pwm_obj.ring() == Some(rgb.incremented())
            &&& rgb.incremented().mode() == next_mode(rgb.mode())
            &&& rgb.incremented().level() == rgb.level()
            &&& after.rgb_needs_lcd_update
            &&& frame matches Some(f) && is_frame(f, rgb.incremented().mode(), now_ms, rgb.level())
        },
        _ => {
            &&& after.pwm_obj.ring() == before.pwm_obj.ring()
            &&& after.rgb_needs_lcd_update == before.rgb_needs_lcd_update
            &&& frame is None
        },
    }
}

/// The button handler: polls the button with the pin's level at `now_ms`.
/// On a press, where the fan has a ring, the ring goes on to its next mode,
/// the display is marked as due to show the mode's name, and the new
/// mode's frame is returned for the ring. Otherwise nothing changes but the
/// button's own state.
pub fn user_button_handler(
    shared: &mut Shared,
    user_button: &mut DebouncedDInput,
    is_pin_high: bool,
    now_ms: u32,
) -> (frame: Option<[Rgb; 8]>)
    requires
        old(shared).pwm_obj.wf(),
    ensures
        final(user_button)@ == old(user_button)@.polled(is_pin_high, now_ms as int),
        button_handled(
            *old(shared),
            *final(shared),
            old(user_button)@.report(is_pin_high, now_ms as int),
            now_ms,
            frame,
        ),
{
    let mut button_pressed = false;
    if let DebouncedOutput::Changed(is_low) = user_button.is_low(is_pin_high, now_ms) {
        if !is_low {
            button_pressed = true;
        }
    }
    if button_pressed {
        if let Some(mut rgb_obj) = shared.pwm_obj.rgb() {
            let frame = rgb_obj.increment_mode(now_ms);
            shared.pwm_obj.set_rgb(Some(rgb_obj));
            shared.rgb_needs_lcd_update = true;
            return Some(frame);
        }
    }
    None
}

/// What one animation tick hands out: where the fan has a ring, the
/// running mode's frame at `now_ms` and, while the display is due to show
/// the mode's name, that name for the start of the second row; without a
/// ring, nothing.
pub open spec fn rgb_refreshed(shared: Shared, now_ms: u32, refresh: RgbRefresh) -> bool {
    match shared.pwm_obj.ring() {
        Some(rgb) => {
            &&& refresh.frame matches Some(f) && is_frame(f, rgb.mode(), now_ms, rgb.level())
            &&& shared.rgb_needs_lcd_update ==> (refresh.label matches Some(w) && w.position
                == 40 && w.text@ == encode_utf8(mode_label(rgb.mode())))
            &&& !shared.rgb_needs_lcd_update ==> refresh.label is None
        },
        None => refresh.frame is None && refresh.label is None,
    }
}

/// The animation task: where the fan has a ring, the running mode's frame
/// at `now_ms` for the ring and, while the display is still due to show
/// the mode's name, that name for the start of the second row.
pub fn periodic_rgb_update(shared: &Shared, now_ms: u32) -> (refresh: RgbRefresh)
    ensures
        rgb_refreshed(*shared, now_ms, refresh),
{
    match shared.pwm_obj.rgb() {
        Some(rgb_obj) => {
            let label = if shared.rgb_needs_lcd_update {
                Some(I2CLcd::write_message(rgb_obj.get_mode_text(), (MODE_ROW, MODE_COLUMN)))
            } else {
                None
            };
            RgbRefresh { label, frame: Some(rgb_obj.update(now_ms)) }
        },
        None => RgbRefresh { label: None, frame: None },
    }
}

/// Takes in how the transfer of the mode's name to the display went. After
/// a transfer that succeeded the name is no longer due; after one that
/// failed it stays due, so that the next animation tick sends it again, and
/// the failure is handed on.
pub fn label_written(shared: &mut Shared, outcome: Result<(), Error>) -> (result: Result<
    (),
    Error,
>)
    ensures
        result == outcome,
        final(shared).pwm_obj == old(shared).pwm_obj,
        final(shared).lcd == old(shared).lcd,
        final(shared).rgb_needs_lcd_update == (old(shared).rgb_needs_lcd_update
            && outcome is Err),
{
    if outcome.is_ok() {
        shared.rgb_needs_lcd_update = false;
    }
    outcome
}

} // verus!
