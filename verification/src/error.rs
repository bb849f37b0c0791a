//! What can go wrong: a transfer to the display or to the LED ring fails.
use vstd::prelude::*;

verus! {

/// A failed operation.
#[derive(Clone, Copy, Debug, PartialEq, Eq, Structural)]
pub enum Error {
    /// A transfer to the display failed.
    I2C,
    /// A transfer to the LED ring failed.
    SPI,
    /// Anything else.
    Generic,
}

} // verus!
