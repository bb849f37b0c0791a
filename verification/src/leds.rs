//! Colours, and the two colour transforms that come from `smart_leds`.
use vstd::prelude::*;

verus! {

/// One LED's colour, eight bits per channel.
#[derive(Clone, Copy, Debug, PartialEq, Eq, Structural)]
pub struct Rgb {
    pub r: u8,
    pub g: u8,
    pub b: u8,
}

/// The colour that `smart_leds::hsv::hsv2rgb` gives for a hue, a saturation
/// and a value, as red, green and blue.
pub uninterp spec fn hsv2rgb_value(hue: u8, sat: u8, val: u8) -> (u8, u8, u8);

/// What `smart_leds::gamma` makes of one channel: the entry of its
/// gamma-correction table at that channel's value.
pub uninterp spec fn gamma_value(channel: u8) -> u8;

/// A colour with each channel gamma-corrected.
pub open spec fn gamma_color(c: Rgb) -> Rgb {
    Rgb { r: gamma_value(c.r), g: gamma_value(c.g), b: gamma_value(c.b) }
}

/// Calls `smart_leds::hsv::hsv2rgb`. Nothing is proved of the conversion: the
/// contract only names the colour it returns, which depends on the three
/// arguments alone. The outside function has no failing input.
#[verifier::external_body]
pub(crate) fn hsv2rgb(hue: u8, sat: u8, val: u8) -> (c: Rgb)
    ensures
        (c.r, c.g, c.b) == hsv2rgb_value(hue, sat, val),
{
    let c = smart_leds::hsv::hsv2rgb(smart_leds::hsv::Hsv { hue, sat, val });
    Rgb { r: c.r, g: c.g, b: c.b }
}

/// Calls `smart_leds::gamma` on a frame. The outside iterator yields one
/// colour for each colour it is given, in the same order, and looks up each
/// channel by itself in its table: the contract says that much, and names
/// the table's entries without giving them.
#[verifier::external_body]
pub(crate) fn gamma(leds: &[Rgb; 8]) -> (out: Vec<Rgb>)
    ensures
        out@.len() == 8,
        forall|i: int|
            0 <= i < 8 ==> (#[trigger] out@[i]).r == gamma_value(leds[i].r) && out@[i].g
                == gamma_value(leds[i].g) && out@[i].b == gamma_value(leds[i].b),
{
    smart_leds::gamma(leds.iter().map(|c| smart_leds::RGB8 { r: c.r, g: c.g, b: c.b }))
        .map(|c| Rgb { r: c.r, g: c.g, b: c.b })
        .collect()
}

} // verus!
