//! General-purpose I/O: the port-wide direction, output and input
//! registers, modeled as plain data.

use vstd::prelude::*;

use crate::state::{Disabled, Enabled};
use crate::syscon::{self, ClockControl, ResetControl};

verus! {

/// The GPIO port registers this library drives, modeled as plain data.
///
/// Bit `n` of each field belongs to pin `n`. `input` holds the externally
/// driven levels; the library only reads it.
pub struct GpioRegs {
    /// Direction bits: a set bit makes the pin an output.
    pub dir: u32,
    /// Output levels driven on pins configured as outputs.
    pub out: u32,
    /// Input levels sampled from the pins.
    pub input: u32,
}

impl ClockControl for GpioRegs {
    open spec fn spec_clock_bit(&self) -> u32 {
        6
    }

    fn clock_bit(&self) -> u32 {
        6
    }
}

impl ResetControl for GpioRegs {
    open spec fn spec_reset_bit(&self) -> u32 {
        10
    }

    fn reset_bit(&self) -> u32 {
        10
    }
}

/// Interface to the GPIO peripheral.
///
/// Can be used to enable, disable, or free the peripheral. The pin-level
/// functionality lives on [`crate::pins::Pin`], whose methods take the
/// register block held here.
pub struct GPIO<STATE> {
    /// The modeled GPIO port registers.
    pub regs: GpioRegs,
    pub state: core::marker::PhantomData<STATE>,
}

impl GPIO<Enabled> {
    pub(crate) fn new(regs: GpioRegs) -> (r: GPIO<Enabled>)
        ensures
            r.regs == regs,
    {
        GPIO { regs, state: core::marker::PhantomData }
    }
}

impl GPIO<Disabled> {
    /// Enable the GPIO peripheral by opening its clock gate.
    ///
    /// This method is only available while the peripheral is disabled, so
    /// enabling twice is rejected when the program is built.
    pub fn enable(self, syscon: &mut syscon::Handle) -> (r: GPIO<Enabled>)
        ensures
            r.regs == self.regs,
            final(syscon).sysahbclkctrl == old(syscon).sysahbclkctrl | (1u32
                << self.regs.spec_clock_bit()),
            final(syscon).presetctrl == old(syscon).presetctrl,
            final(syscon).pdruncfg == old(syscon).pdruncfg,
            final(syscon).starterp1 == old(syscon).starterp1,
    {
        syscon.enable_clock(&self.regs);
        GPIO { regs: self.regs, state: core::marker::PhantomData }
    }
}

impl GPIO<Enabled> {
    /// Disable the GPIO peripheral by closing its clock gate.
    ///
    /// This method is only available while the peripheral is enabled, so
    /// disabling twice is rejected when the program is built.
    pub fn disable(self, syscon: &mut syscon::Handle) -> (r: GPIO<Disabled>)
        ensures
            r.regs == self.regs,
            final(syscon).sysahbclkctrl == old(syscon).sysahbclkctrl & !(1u32
                << self.regs.spec_clock_bit()),
            final(syscon).presetctrl == old(syscon).presetctrl,
            final(syscon).pdruncfg == old(syscon).pdruncfg,
            final(syscon).starterp1 == old(syscon).starterp1,
    {
        syscon.disable_clock(&self.regs);
        GPIO { regs: self.regs, state: core::marker::PhantomData }
    }
}

impl<STATE> GPIO<STATE> {
    /// Surrender the modeled register block unchanged.
    pub fn free(self) -> (r: GpioRegs)
        ensures
            r == self.regs,
    {
        self.regs
    }
}

} // verus!
