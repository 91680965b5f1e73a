//! SPI bus configuration: clock polarity and phase, bit order, and
//! chip-select polarity.

use vstd::prelude::*;

verus! {

/// The idle level of the bus clock.
#[derive(Clone, Copy, Debug, PartialEq, Eq, Structural)]
pub enum ClockPolarity {
    IdleLow,
    IdleHigh,
}

/// Which clock transition captures data.
#[derive(Clone, Copy, Debug, PartialEq, Eq, Structural)]
pub enum ClockPhase {
    CaptureOnFirstTransition,
    CaptureOnSecondTransition,
}

/// Which end of the word goes on the wire first.
#[derive(Clone, Copy, Debug, PartialEq, Eq, Structural)]
pub enum BitOrder {
    MSBFirst,
    LSBFirst,
}

/// The active level of a chip-select line.
#[derive(Clone, Copy, Debug, PartialEq, Eq, Structural)]
pub enum Polarity {
    ActiveLow,
    ActiveHigh,
}

/// The transfer configuration written into the control register at
/// activation: the clock mode (polarity and phase) and the bit order.
#[derive(Clone, Copy, Debug, PartialEq, Eq, Structural)]
pub struct Config {
    pub polarity: ClockPolarity,
    pub phase: ClockPhase,
    pub bit_order: BitOrder,
}

} // verus!
