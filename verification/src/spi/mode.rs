//! Marker types for the SPI peripheral's operating modes.

use vstd::prelude::*;

verus! {

/// Trait implemented by the SPI mode markers, tying each marker to the
/// enable and master bits of the control register.
pub trait Mode {
    /// Whether the peripheral is enabled in this mode.
    spec fn spec_enabled() -> bool;

    /// Whether the peripheral drives the clock in this mode.
    spec fn spec_master() -> bool;
}

/// The peripheral is disabled and unconnected.
pub struct Inactive;

impl Mode for Inactive {
    open spec fn spec_enabled() -> bool {
        false
    }

    open spec fn spec_master() -> bool {
        false
    }
}

/// The peripheral drives the bus clock and initiates transfers.
pub struct Host;

impl Mode for Host {
    open spec fn spec_enabled() -> bool {
        true
    }

    open spec fn spec_master() -> bool {
        true
    }
}

/// The peripheral answers transfers clocked by an external host.
pub struct Device;

impl Mode for Device {
    open spec fn spec_enabled() -> bool {
        true
    }

    open spec fn spec_master() -> bool {
        false
    }
}

/// Trait of the modes in which the peripheral is enabled and pins can be
/// attached or released.
pub trait Active: Mode {

}

impl Active for Host {

}

impl Active for Device {

}

} // verus!
