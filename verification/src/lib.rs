//! Control logic of a fan and lighting appliance: a millisecond clock, a
//! debounced button, a fixed-point duty mapping, an LED animation engine and
//! the scheduling rules that tie its three tasks together.
//!
//! Nothing here touches a peripheral. Every function takes the values that
//! the hardware gave (a pin level, a raw sample, a timestamp) and returns the
//! values that the hardware is to receive (a compare count, a colour frame,
//! display text).
pub mod arbiter;
pub mod error;
pub mod inputs;
pub mod lcd;
pub mod leds;
pub mod palette;
pub mod pwm_fan;
pub mod scheduler;
pub mod stoptimer;
pub mod tasks;
