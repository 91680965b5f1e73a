//! Marker types recording what a pin is currently used for, and marker
//! types recording whether a peripheral signal line has a pin attached.

use vstd::prelude::*;

verus! {

/// Trait implemented by the types that represent pin modes.
pub trait PinMode {

}

/// The pin's output portion is free and can be moved into a peripheral or
/// turned into a digital output.
pub struct Unassigned;

impl PinMode for Unassigned {

}

/// The pin drives a general-purpose digital output.
pub struct DigitalOutput;

impl PinMode for DigitalOutput {

}

/// The freely shareable digital input portion of a pin.
pub struct DigitalInput;

impl PinMode for DigitalInput {

}

/// Trait implemented by the types that record whether a peripheral signal
/// line currently has a pin attached. The spec method ties the marker to
/// the runtime state the peripheral structs carry.
pub trait PinAssignment {
    spec fn spec_assigned() -> bool;
}

/// An unassigned signal line has no pin attached.
impl PinAssignment for Unassigned {
    open spec fn spec_assigned() -> bool {
        false
    }
}

/// A pin is attached to the signal line; the owning peripheral records
/// which one.
pub struct Assigned;

impl PinAssignment for Assigned {
    open spec fn spec_assigned() -> bool {
        true
    }
}

} // verus!
