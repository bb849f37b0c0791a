//! The fan's duty mapping and the LED ring's animation engine.
use vstd::prelude::*;
use crate::leds::{gamma, gamma_value, hsv2rgb, hsv2rgb_value, Rgb};
use crate::palette::{
    color, palette_color, palette_entry, rgb_of, BLACK, BLUE, CYAN, GREEN, LED_COLOR_PALETTES,
    MAGENTA, RED, WHITE, YELLOW,
};

verus! {

/// Number of lighting modes.
pub const MAX_MODES: usize = 13;

/// Number of LEDs on the ring.
pub const FAN_LED_QTY: usize = 8;

/// Brightness after start-up.
pub const DEFAULT_BRIGHTNESS: u8 = 128;

/// The colour that the outside conversion gives for a hue, a saturation and
/// a value.
pub open spec fn hsv_color(hue: u8, sat: u8, val: u8) -> Rgb {
    let t = hsv2rgb_value(hue, sat, val);
    Rgb { r: t.0, g: t.1, b: t.2 }
}

/// Hue of LED `led` in the rotating rainbow: the hue advances by one step
/// every 20 ms, and the LEDs are spread evenly over the hue circle.
pub open spec fn twirl_hue(elapsed_ms: u32, led: int) -> u8 {
    ((elapsed_ms as int / 20 + led * 256 / 8) % 256) as u8
}

/// Hue of every LED in the fading rainbow: one step every 30 ms.
pub open spec fn fade_hue(elapsed_ms: u32) -> u8 {
    ((elapsed_ms as int / 30) % 256) as u8
}

/// Palette entry that LED `led` shows in a palette sweep: the sweep moves on
/// by one entry every 100 ms.
pub open spec fn palette_index(elapsed_ms: u32, led: int) -> int {
    (elapsed_ms as int / 100 + led) % 16
}

/// The colour of a static mode, black for any mode that is not static.
pub open spec fn static_color(mode: u8) -> Rgb {
    if mode == 6 {
        rgb_of(RED)
    } else if mode == 7 {
        rgb_of(GREEN)
    } else if mode == 8 {
        rgb_of(BLUE)
    } else if mode == 9 {
        rgb_of(WHITE)
    } else if mode == 10 {
        rgb_of(YELLOW)
    } else if mode == 11 {
        rgb_of(CYAN)
    } else if mode == 12 {
        rgb_of(MAGENTA)
    } else {
        rgb_of(BLACK)
    }
}

/// The palette that a palette-sweep mode cycles through.
pub open spec fn mode_palette(mode: u8) -> int {
    if mode == 2 {
        3
    } else if mode == 3 {
        0
    } else if mode == 4 {
        1
    } else {
        2
    }
}

/// Colour of LED `led` before gamma correction and dimming.
pub open spec fn base_color(mode: u8, elapsed_ms: u32, brightness: u8, led: int) -> Rgb {
    if mode == 0 {
        hsv_color(twirl_hue(elapsed_ms, led), 255, brightness)
    } else if mode == 1 {
        hsv_color(fade_hue(elapsed_ms), 255, brightness)
    } else if 2 <= mode <= 5 {
        palette_entry(mode_palette(mode), palette_index(elapsed_ms, led))
    } else {
        static_color(mode)
    }
}

/// A gamma-corrected channel dimmed to `brightness` of 255, rounded down.
pub open spec fn scaled(corrected: u8, brightness: u8) -> u8 {
    (corrected as int * brightness as int / 255) as u8
}

/// What the ring receives for a channel: the gamma table's entry for it,
/// times `brightness`, divided by 255 and rounded down.
pub open spec fn output_channel(raw: u8, brightness: u8) -> u8 {
    scaled(gamma_value(raw), brightness)
}

/// A colour after gamma correction and dimming.
pub open spec fn output_color(c: Rgb, brightness: u8) -> Rgb {
    Rgb {
        r: output_channel(c.r, brightness),
        g: output_channel(c.g, brightness),
        b: output_channel(c.b, brightness),
    }
}

/// Colour that LED `led` receives in a mode, at a time and a brightness.
pub open spec fn frame_color(mode: u8, elapsed_ms: u32, brightness: u8, led: int) -> Rgb {
    output_color(base_color(mode, elapsed_ms, brightness, led), brightness)
}

/// Whether `frame` is the frame of a mode at a time and a brightness.
pub open spec fn is_frame(frame: [Rgb; 8], mode: u8, elapsed_ms: u32, brightness: u8) -> bool {
    forall|i: int| 0 <= i < 8 ==> #[trigger] frame[i] == frame_color(mode, elapsed_ms, brightness, i)
}

/// Dims one gamma-corrected channel: `corrected * brightness / 255`, with
/// the fraction dropped.
pub fn scale_channel(corrected: u8, brightness: u8) -> (out: u8)
    ensures
        out == scaled(corrected, brightness),
        out as int == corrected as int * brightness as int / 255,
        out <= corrected,
        out <= brightness,
{
    proof {
        assert(corrected as int * brightness as int <= 255 * 255) by (nonlinear_arith)
            requires
                0 <= corrected <= 255,
                0 <= brightness <= 255,
        ;
        assert(corrected as int * brightness as int <= 255 * corrected as int) by (nonlinear_arith)
            requires
                0 <= corrected <= 255,
                0 <= brightness <= 255,
        ;
        assert(corrected as int * brightness as int <= 255 * brightness as int) by (nonlinear_arith)
            requires
                0 <= corrected <= 255,
                0 <= brightness <= 255,
        ;
        assert(0 <= corrected as int * brightness as int) by (nonlinear_arith)
            requires
                0 <= corrected <= 255,
                0 <= brightness <= 255,
        ;
    }
    let product: u16 = corrected as u16 * brightness as u16;
    (product / 255) as u8
}

/// Dims every channel of a gamma-corrected colour.
pub fn scale_color(corrected: Rgb, brightness: u8) -> (out: Rgb)
    ensures
        out.r == scaled(corrected.r, brightness),
        out.g == scaled(corrected.g, brightness),
        out.b == scaled(corrected.b, brightness),
{
    Rgb {
        r: scale_channel(corrected.r, brightness),
        g: scale_channel(corrected.g, brightness),
        b: scale_channel(corrected.b, brightness),
    }
}

/// The frame of a mode before gamma correction and dimming.
pub fn base_frame(mode: u8, elapsed_ms: u32, brightness: u8) -> (leds: [Rgb; 8])
    ensures
        forall|i: int|
            0 <= i < 8 ==> #[trigger] leds[i] == base_color(mode, elapsed_ms, brightness, i),
{
    let mut leds: [Rgb; 8] = [color(BLACK); 8];
    if mode == 0 {
        let mut i: usize = 0;
        while i < FAN_LED_QTY
            invariant
                i <= 8,
                mode == 0,
                forall|j: int|
                    0 <= j < i ==> #[trigger] leds[j] == base_color(
                        mode,
                        elapsed_ms,
                        brightness,
                        j,
                    ),
            decreases 8 - i,
        {
            let spread: u32 = (i * 256 / FAN_LED_QTY) as u32;
            let hue: u8 = ((elapsed_ms / 20).wrapping_add(spread) % 256) as u8;
            leds[i] = hsv2rgb(hue, 255, brightness);
            i += 1;
        }
    } else if mode == 1 {
        let hue: u8 = (elapsed_ms / 30 % 256) as u8;
        let c: Rgb = hsv2rgb(hue, 255, brightness);
        leds = [c; 8];
    } else if mode == 2 {
        PwmFanRgb::palette_cycler(&mut leds, elapsed_ms, 3);
    } else if mode == 3 {
        PwmFanRgb::palette_cycler(&mut leds, elapsed_ms, 0);
    } else if mode == 4 {
        PwmFanRgb::palette_cycler(&mut leds, elapsed_ms, 1);
    } else if mode == 5 {
        PwmFanRgb::palette_cycler(&mut leds, elapsed_ms, 2);
    } else if mode == 6 {
        leds = [color(RED); 8];
    } else if mode == 7 {
        leds = [color(GREEN); 8];
    } else if mode == 8 {
        leds = [color(BLUE); 8];
    } else if mode == 9 {
        leds = [color(WHITE); 8];
    } else if mode == 10 {
        leds = [color(YELLOW); 8];
    } else if mode == 11 {
        leds = [color(CYAN); 8];
    } else if mode == 12 {
        leds = [color(MAGENTA); 8];
    }
    leds
}

/// Dims a gamma-corrected frame to `brightness` of 255, channel by channel.
pub fn apply_brightness(corrected: &Vec<Rgb>, brightness: u8) -> (out: [Rgb; 8])
    requires
        corrected@.len() == 8,
    ensures
        forall|i: int|
            0 <= i < 8 ==> (#[trigger] out[i]).r == scaled(corrected@[i].r, brightness)
                && out[i].g == scaled(corrected@[i].g, brightness) && out[i].b == scaled(
                corrected@[i].b,
                brightness,
            ),
{
    let mut out: [Rgb; 8] = [color(BLACK); 8];
    let mut i: usize = 0;
    while i < FAN_LED_QTY
        invariant
            i <= 8,
            corrected@.len() == 8,
            forall|j: int|
                0 <= j < i ==> (#[trigger] out[j]).r == scaled(corrected@[j].r, brightness)
                    && out[j].g == scaled(corrected@[j].g, brightness) && out[j].b == scaled(
                    corrected@[j].b,
                    brightness,
                ),
        decreases 8 - i,
    {
        out[i] = scale_color(corrected[i], brightness);
        i += 1;
    }
    out
}

/// The frame that the ring shows in `mode`, `elapsed_ms` after start-up, at
/// `brightness`: the mode's colours, gamma-corrected and then dimmed. It
/// depends on nothing but the three arguments.
pub fn compute_frame(mode: u8, elapsed_ms: u32, brightness: u8) -> (frame: [Rgb; 8])
    ensures
        is_frame(frame, mode, elapsed_ms, brightness),
{
    let leds: [Rgb; 8] = base_frame(mode, elapsed_ms, brightness);
    let corrected: Vec<Rgb> = gamma(&leds);
    let frame: [Rgb; 8] = apply_brightness(&corrected, brightness);
    assert forall|i: int| 0 <= i < 8 implies #[trigger] frame[i] == frame_color(
        mode,
        elapsed_ms,
        brightness,
        i,
    ) by {
        assert(leds[i] == base_color(mode, elapsed_ms, brightness, i));
        assert(corrected@[i].r == gamma_value(leds[i].r));
    }
    frame
}

/// The mode that follows `mode`; after the last comes the first.
pub open spec fn next_mode(mode: u8) -> u8 {
    ((mode + 1) % 13) as u8
}

/// The name of a mode, as the display shows it.
pub open spec fn mode_label(mode: u8) -> Seq<char> {
    if mode == 0 {
        "Rainbow Twirl"@
    } else if mode == 1 {
        "Rainbow Fade"@
    } else if mode == 2 {
        "Rainbow Palette"@
    } else if mode == 3 {
        "Forest Palette"@
    } else if mode == 4 {
        "Cloud Palette"@
    } else if mode == 5 {
        "Heat Palette"@
    } else if mode == 6 {
        "Red Static"@
    } else if mode == 7 {
        "Green Static"@
    } else if mode == 8 {
        "Blue Static"@
    } else if mode == 9 {
        "White Static"@
    } else if mode == 10 {
        "Yellow Static"@
    } else if mode == 11 {
        "Cyan Static"@
    } else if mode == 12 {
        "Magenta Static"@
    } else {
        "Unknown Mode"@
    }
}

/// The animation state of the LED ring: which mode runs, and how bright.
#[derive(Clone, Copy, Debug, PartialEq, Eq, Structural)]
pub struct PwmFanRgb {
    color_mode: u8,
    brightness: u8,
}

impl PwmFanRgb {
    /// Number of lighting modes.
    pub const MAX_MODES: usize = MAX_MODES;

    /// Number of LEDs on the ring.
    pub const FAN_LED_QTY: usize = FAN_LED_QTY;

    /// The palettes of the palette-sweep modes.
    pub const LED_COLOR_PALETTES: [[[u8; 3]; 16]; 4] = LED_COLOR_PALETTES;

    /// The running mode.
    pub closed spec fn mode(&self) -> u8 {
        self.color_mode
    }

    /// The brightness, of 255.
    pub closed spec fn level(&self) -> u8 {
        self.brightness
    }

    /// The mode is one of the modes.
    pub open spec fn wf(&self) -> bool {
        self.mode() < 13
    }

    /// The state with the mode advanced by one.
    pub closed spec fn incremented(&self) -> Self {
        PwmFanRgb { color_mode: next_mode(self.color_mode), brightness: self.brightness }
    }

    /// The state after `count` mode changes.
    pub open spec fn incremented_by(&self, count: nat) -> Self
        decreases count,
    {
        if count == 0 {
            *self
        } else {
            self.incremented_by((count - 1) as nat).incremented()
        }
    }

    /// The state after start-up.
    pub closed spec fn new_spec() -> Self {
        PwmFanRgb { color_mode: 0, brightness: DEFAULT_BRIGHTNESS }
    }

    /// The first mode at the default brightness.
    pub fn new() -> (rgb: Self)
        ensures
            rgb == Self::new_spec(),
            rgb.wf(),
            rgb.mode() == 0,
            rgb.level() == DEFAULT_BRIGHTNESS,
    {
        PwmFanRgb { color_mode: 0, brightness: DEFAULT_BRIGHTNESS }
    }

    /// The running mode.
    pub fn color_mode(&self) -> (mode: u8)
        ensures
            mode == self.mode(),
    {
        self.color_mode
    }

    /// The brightness.
    pub fn brightness(&self) -> (level: u8)
        ensures
            level == self.level(),
    {
        self.brightness
    }

    /// Goes on to the next mode, the first after the last, and computes the
    /// frame for it at `current_time_ms`.
    pub fn increment_mode(&mut self, current_time_ms: u32) -> (frame: [Rgb; 8])
        requires
            old(self).wf(),
        ensures
            final(self).wf(),
            *final(self) == old(self).incremented(),
            final(self).mode() == next_mode(old(self).mode()),
            final(self).level() == old(self).level(),
            is_frame(frame, final(self).mode(), current_time_ms, final(self).level()),
    {
        self.color_mode += 1;
        self.color_mode %= 13;
        self.update(current_time_ms)
    }

    /// The running mode's name.
    pub fn get_mode_text(&self) -> (text: &'static str)
        ensures
            text@ == mode_label(self.mode()),
    {
        match self.color_mode {
            0 => "Rainbow Twirl",
            1 => "Rainbow Fade",
            2 => "Rainbow Palette",
            3 => "Forest Palette",
            4 => "Cloud Palette",
            5 => "Heat Palette",
            6 => "Red Static",
            7 => "Green Static",
            8 => "Blue Static",
            9 => "White Static",
            10 => "Yellow Static",
            11 => "Cyan Static",
            12 => "Magenta Static",
            _ => "Unknown Mode",
        }
    }

    /// The frame of the running mode at `current_time_ms`.
    pub fn update(&self, current_time_ms: u32) -> (frame: [Rgb; 8])
        ensures
            is_frame(frame, self.mode(), current_time_ms, self.level()),
    {
        compute_frame(self.color_mode, current_time_ms, self.brightness)
    }

    /// Fills `leds` from one palette, each LED one entry further than the one
    /// before it, the whole pattern moving on by one entry every 100 ms. A
    /// palette number beyond the last wraps round.
    pub fn palette_cycler(leds: &mut [Rgb; 8], time_val: u32, palette_idx: usize)
        ensures
            forall|i: int|
                0 <= i < 8 ==> #[trigger] final(leds)[i] == palette_entry(
                    palette_idx as int % 4,
                    palette_index(time_val, i),
                ),
    {
        let palette: usize = palette_idx % 4;
        let mut i: usize = 0;
        while i < FAN_LED_QTY
            invariant
                i <= 8,
                palette == palette_idx as int % 4,
                forall|j: int|
                    0 <= j < i ==> #[trigger] leds[j] == palette_entry(
                        palette as int,
                        palette_index(time_val, j),
                    ),
            decreases 8 - i,
        {
            let color_idx: usize = ((time_val / 100).wrapping_add(i as u32) % 16) as usize;
            leds[i] = palette_color(palette, color_idx);
            i += 1;
        }
    }
}

/// Mode changes add up: after `count` of them the mode has moved `count`
/// places round the cycle of modes, and the brightness is as it was.
pub proof fn lemma_incremented_by(rgb: PwmFanRgb, count: nat)
    requires
        rgb.wf(),
    ensures
        rgb.incremented_by(count).wf(),
        rgb.incremented_by(count).mode() == (rgb.mode() + count) % 13,
        rgb.incremented_by(count).level() == rgb.level(),
    decreases count,
{
    if count > 0 {
        lemma_incremented_by(rgb, (count - 1) as nat);
    }
}

/// Two frames of the same mode, time and brightness are the same frame.
pub proof fn lemma_frame_unique(
    a: [Rgb; 8],
    b: [Rgb; 8],
    mode: u8,
    elapsed_ms: u32,
    brightness: u8,
)
    requires
        is_frame(a, mode, elapsed_ms, brightness),
        is_frame(b, mode, elapsed_ms, brightness),
    ensures
        a == b,
{
    assert(a@.len() == 8 && b@.len() == 8);
    assert forall|i: int| 0 <= i < 8 implies a@[i] == b@[i] by {
        assert(a[i] == frame_color(mode, elapsed_ms, brightness, i));
        assert(b[i] == frame_color(mode, elapsed_ms, brightness, i));
    }
    assert(a@ =~= b@);
    assert(a =~= b);
}

/// As many mode changes as there are modes lead back to the state they
/// started from, and so to the same frame for the same time: a frame
/// computed after the full cycle equals the one computed before it.
pub proof fn lemma_full_cycle(rgb: PwmFanRgb, elapsed_ms: u32, before: [Rgb; 8], after: [Rgb; 8])
    requires
        rgb.wf(),
        is_frame(before, rgb.mode(), elapsed_ms, rgb.level()),
        is_frame(
            after,
            rgb.incremented_by(MAX_MODES as nat).mode(),
            elapsed_ms,
            rgb.incremented_by(MAX_MODES as nat).level(),
        ),
    ensures
        rgb.incremented_by(MAX_MODES as nat) == rgb,
        after == before,
{
    lemma_incremented_by(rgb, 13);
    lemma_frame_unique(before, after, rgb.mode(), elapsed_ms, rgb.level());
}

/// Duty cycle after start-up, in percent, until the first request.
pub const INITIAL_DUTY: u16 = 25;

/// Carrier frequency of the fan's PWM output, in hertz.
pub const PWM_CARRIER_HZ: u32 = 1000;

/// The largest compare count that a timer offers, where a timer that
/// reports zero is taken to count over the full sixteen bits.
pub open spec fn effective_max(max_duty: u16) -> u16 {
    if max_duty == 0 {
        0xFFFF
    } else {
        max_duty
    }
}

/// A requested duty cycle brought into the range of 0 to 100 percent.
pub open spec fn clamped_percent(duty: u16) -> u16 {
    if duty > 100 {
        100
    } else {
        duty
    }
}

/// The compare count for `percent` of `max_compare`: the product times
/// 655, divided by 65536 and rounded down, which stands for a division by
/// 100 (655/65536 is a little under 1/100).
pub open spec fn duty_compare(percent: u16, max_compare: u16) -> int {
    (percent as int * max_compare as int * 655) / 65536
}

/// `percent` of `max_compare`, rounded to the nearest count.
pub open spec fn exact_compare(percent: u16, max_compare: u16) -> int {
    (percent as int * max_compare as int + 50) / 100
}

/// The compare count for a duty cycle of `percent` (at most 100) on a timer
/// that counts to `max_compare`.
pub fn scaled_duty(percent: u16, max_compare: u16) -> (compare: u16)
    requires
        percent <= 100,
    ensures
        compare == duty_compare(percent, max_compare),
        compare <= max_compare,
{
    proof {
        lemma_duty_compare_bounds(percent, max_compare);
    }
    let product: u32 = percent as u32 * max_compare as u32;
    let wide: u32 = product * 655;
    assert(wide >> 16 == wide / 65536) by (bit_vector);
    (wide >> 16) as u16
}

/// The compare count never exceeds the timer's maximum, and the
/// multiplication behind it fits in 32 bits.
pub proof fn lemma_duty_compare_bounds(percent: u16, max_compare: u16)
    requires
        percent <= 100,
    ensures
        0 <= percent as int * max_compare as int <= 6553500,
        percent as int * max_compare as int * 655 < 0x1_0000_0000,
        0 <= duty_compare(percent, max_compare) <= max_compare,
        100 * duty_compare(percent, max_compare) <= percent as int * max_compare as int,
{
    let x: int = percent as int * max_compare as int;
    assert(0 <= x <= 100 * max_compare as int) by (nonlinear_arith)
        requires
            x == percent as int * max_compare as int,
            0 <= percent <= 100,
            0 <= max_compare,
    ;
    assert(percent as int * max_compare as int * 655 == x * 655);
}

/// How far the compare count lies from the exact proportion. The count is
/// never above `percent` of `max_compare` rounded to the nearest count. It
/// falls short of it by at most one count while `percent * max_compare` is
/// small, and by one count more for each 1638400 that
/// `9 * percent * max_compare + 819200` holds: 655/65536 is smaller than
/// 1/100 by nine parts in 1638400.
pub proof fn lemma_duty_error_bound(percent: u16, max_compare: u16)
    requires
        percent <= 100,
    ensures
        duty_compare(percent, max_compare) <= exact_compare(percent, max_compare),
        exact_compare(percent, max_compare) - duty_compare(percent, max_compare) <= 1 + (9 * (
        percent as int * max_compare as int) + 819200) / 1638400,
{
    lemma_duty_compare_bounds(percent, max_compare);
    let x: int = percent as int * max_compare as int;
    assert(percent as int * max_compare as int * 655 == x * 655);
    lemma_fixed_point_error(x);
}

/// The compare count is within one count of the exact proportion, rounded
/// to the nearest count, as long as `percent * max_compare` stays below
/// 91050; at 75 percent of 1214 counts, which is that product, it is two
/// counts short.
pub proof fn lemma_duty_within_one(percent: u16, max_compare: u16)
    requires
        percent <= 100,
        percent * max_compare < 91050,
    ensures
        duty_compare(percent, max_compare) <= exact_compare(percent, max_compare)
            <= duty_compare(percent, max_compare) + 1,
{
    lemma_duty_compare_bounds(percent, max_compare);
    let x: int = percent as int * max_compare as int;
    assert(percent as int * max_compare as int * 655 == x * 655);
    lemma_fixed_point_within_one(x);
}

/// The error of multiplying by 655/65536 in place of dividing by 100.
proof fn lemma_fixed_point_error(x: int)
    requires
        0 <= x <= 6553500,
    ensures
        (x * 655) / 65536 <= (x + 50) / 100,
        (x + 50) / 100 - (x * 655) / 65536 <= 1 + (9 * x + 819200) / 1638400,
{
}

/// Below 91050 the error of the reciprocal multiplication is at most one.
proof fn lemma_fixed_point_within_one(x: int)
    requires
        0 <= x < 91050,
    ensures
        (x * 655) / 65536 <= (x + 50) / 100 <= (x * 655) / 65536 + 1,
{
}

/// The state of the fan's PWM output, and of the LED ring where the fan
/// has one.
#[derive(Clone, Copy, Debug)]
pub struct AdjustablePwmFan {
    max_duty: u16,
    compare: u16,
    current_duty: u16,
    rgb: Option<PwmFanRgb>,
}

impl AdjustablePwmFan {
    /// The duty cycle last requested, in percent.
    pub closed spec fn duty(&self) -> u16 {
        self.current_duty
    }

    /// The compare count last computed for the timer.
    pub closed spec fn compare_value(&self) -> u16 {
        self.compare
    }

    /// The maximum compare count that the timer reported.
    pub closed spec fn max_compare(&self) -> u16 {
        self.max_duty
    }

    /// The ring's animation state, where the fan has a ring.
    pub closed spec fn ring(&self) -> Option<PwmFanRgb> {
        self.rgb
    }

    /// The duty cycle is a percentage, the compare count is within the
    /// timer's range, and the ring's mode is one of the modes.
    pub open spec fn wf(&self) -> bool {
        &&& self.duty() <= 100
        &&& self.compare_value() <= effective_max(self.max_compare())
        &&& (self.ring() matches Some(rgb) ==> rgb.wf())
    }

    /// A fan without a ring, on a timer whose maximum compare count is
    /// `max_duty`.
    pub fn new(max_duty: u16) -> (fan: Self)
        ensures
            fan.wf(),
            fan.duty() == INITIAL_DUTY,
            fan.compare_value() == 0,
            fan.max_compare() == max_duty,
            fan.ring() is None,
    {
        AdjustablePwmFan { max_duty, compare: 0, current_duty: INITIAL_DUTY, rgb: None }
    }

    /// A fan with a ring in its first mode.
    pub fn with_rgb(max_duty: u16) -> (fan: Self)
        ensures
            fan.wf(),
            fan.duty() == INITIAL_DUTY,
            fan.compare_value() == 0,
            fan.max_compare() == max_duty,
            fan.ring() == Some(PwmFanRgb::new_spec()),
            PwmFanRgb::new_spec().mode() == 0,
            PwmFanRgb::new_spec().level() == DEFAULT_BRIGHTNESS,
    {
        let mut new_obj = Self::new(max_duty);
        new_obj.rgb = Some(PwmFanRgb::new());
        new_obj
    }

    /// Requests a duty cycle in percent; more than 100 counts as 100. Returns
    /// the compare count for the timer, and remembers the percentage as it
    /// was requested.
    pub fn set_duty(&mut self, duty: u16) -> (compare: u16)
        ensures
            final(self).duty() == clamped_percent(duty),
            compare == duty_compare(clamped_percent(duty), effective_max(old(self).max_compare())),
            compare <= effective_max(old(self).max_compare()),
            final(self).compare_value() == compare,
            final(self).max_compare() == old(self).max_compare(),
            final(self).ring() == old(self).ring(),
            old(self).wf() ==> final(self).wf(),
    {
        let max_duty: u16 = if self.max_duty == 0 {
            u16::MAX
        } else {
            self.max_duty
        };
        let percent: u16 = if duty > 100 {
            100
        } else {
            duty
        };
        let scaled: u16 = scaled_duty(percent, max_duty);
        self.compare = scaled;
        self.current_duty = percent;
        scaled
    }

    /// The duty cycle last requested, in percent.
    pub fn get_duty(&self) -> (duty: u16)
        ensures
            duty == self.duty(),
    {
        self.current_duty
    }

    /// Whether the state keeps its rules.
    pub fn is_valid(&self) -> (valid: bool)
        ensures
            valid == self.wf(),
    {
        let max_duty: u16 = if self.max_duty == 0 {
            u16::MAX
        } else {
            self.max_duty
        };
        let ring_valid: bool = match self.rgb {
            Some(rgb) => rgb.color_mode() < 13,
            None => true,
        };
        self.current_duty <= 100 && self.compare <= max_duty && ring_valid
    }

    /// The ring's animation state, where the fan has a ring.
    pub fn rgb(&self) -> (rgb: Option<PwmFanRgb>)
        ensures
            rgb == self.ring(),
    {
        self.rgb
    }

    /// Replaces the ring's animation state.
    pub fn set_rgb(&mut self, rgb: Option<PwmFanRgb>)
        ensures
            final(self).ring() == rgb,
            final(self).duty() == old(self).duty(),
            final(self).compare_value() == old(self).compare_value(),
            final(self).max_compare() == old(self).max_compare(),
    {
        self.rgb = rgb;
    }

    /// The compare count that the last request gave.
    pub fn get_compare(&self) -> (compare: u16)
        ensures
            compare == self.compare_value(),
    {
        self.compare
    }
}

} // verus!
