//! I/O pin handling.
//!
//! Each physical pin is represented by a [`Pin`] value carrying the pin's
//! number. The mode type parameter records what the pin is currently used
//! for. Output-capable handles (`Pin<mode::Unassigned>` and
//! `Pin<mode::DigitalOutput>`) are move-only and have no public constructor,
//! so at most one output-capable handle per pin can ever be live: obtaining a
//! second one is rejected when the program is built, not at run time. The
//! input side of a pin (`Pin<mode::DigitalInput>`) carries no such
//! exclusivity and is freely copyable, because reading a pin claims nothing
//! from the hardware.

use vstd::prelude::*;

pub mod mode;

use crate::gpio::GpioRegs;
use mode::{DigitalInput, DigitalOutput, PinMode, Unassigned};

verus! {

/// Number of physical pins on the largest package.
pub const PIN_COUNT: u8 = 18;

/// Pin number that is connected to the serial-wire debug function at boot,
/// and therefore has no movable output handle in [`Pins`].
pub const SWD_PIN: u8 = 3;

/// One physical pin in a particular mode.
pub struct Pin<MODE: PinMode> {
    number: u8,
    mode: core::marker::PhantomData<MODE>,
}

impl<MODE: PinMode> Pin<MODE> {
    /// The pin's number: its identity in the switch matrix assignment
    /// registers and its bit position in the GPIO registers.
    pub closed spec fn spec_number(&self) -> u8 {
        self.number
    }

    /// A pin is well formed when its number identifies a physical pin.
    pub open spec fn wf(&self) -> bool {
        self.spec_number() < PIN_COUNT
    }

    #[inline(always)]
    pub(crate) fn new(number: u8) -> (r: Pin<MODE>)
        requires
            number < PIN_COUNT,
        ensures
            r.spec_number() == number,
            r.wf(),
    {
        Pin { number, mode: core::marker::PhantomData }
    }

    /// Returns the pin number.
    pub fn number(&self) -> (r: u8)
        ensures
            r == self.spec_number(),
    {
        self.number
    }

    /// The pin's one-bit mask in the 32-bit GPIO port registers.
    pub open spec fn spec_reg_mask(&self) -> u32 {
        1u32 << self.spec_number()
    }

    /// Returns the pin's bit mask for the GPIO port registers.
    pub fn reg_mask(&self) -> (r: u32)
        requires
            self.wf(),
        ensures
            r == self.spec_reg_mask(),
    {
        1u32 << self.number
    }

    /// Obtain the input portion of the pin.
    ///
    /// Input functions can coexist on the same pin, so the input portion can
    /// be freely copied and shared even though the other portions are
    /// subject to ownership and move semantics.
    pub fn digital_input(&self) -> (r: Pin<DigitalInput>)
        ensures
            r.spec_number() == self.spec_number(),
    {
        Pin { number: self.number, mode: core::marker::PhantomData }
    }
}

/// The input portion of a pin can be freely copied, because multiple input
/// functions can coexist on the same pin.
impl Clone for Pin<DigitalInput> {
    fn clone(&self) -> (r: Self)
        ensures
            r.spec_number() == self.spec_number(),
    {
        Pin { number: self.number, mode: core::marker::PhantomData }
    }
}

impl Pin<Unassigned> {
    /// Configure the pin's output portion for general-purpose digital
    /// output, consuming the unassigned handle.
    ///
    /// If `high` is set then the output will be driving the line high once
    /// activated; otherwise it will be driving the line low. The output
    /// state is written before the direction so the pin never briefly
    /// drives the wrong level.
    pub fn to_digital_output(self, gpio: &mut GpioRegs, high: bool) -> (r: Pin<DigitalOutput>)
        requires
            self.wf(),
        ensures
            r.spec_number() == self.spec_number(),
            r.wf(),
            final(gpio).dir == old(gpio).dir | self.spec_reg_mask(),
            high ==> final(gpio).out == old(gpio).out | self.spec_reg_mask(),
            !high ==> final(gpio).out == old(gpio).out & !self.spec_reg_mask(),
            final(gpio).input == old(gpio).input,
    {
        let mask = self.reg_mask();
        if high {
            gpio.out = gpio.out | mask;
        } else {
            gpio.out = gpio.out & !mask;
        }
        gpio.dir = gpio.dir | mask;
        Pin { number: self.number, mode: core::marker::PhantomData }
    }
}

impl Pin<DigitalOutput> {
    /// Drive the pin high.
    pub fn set_high(&self, gpio: &mut GpioRegs)
        requires
            self.wf(),
        ensures
            final(gpio).out == old(gpio).out | self.spec_reg_mask(),
            final(gpio).dir == old(gpio).dir,
            final(gpio).input == old(gpio).input,
    {
        let mask = self.reg_mask();
        gpio.out = gpio.out | mask;
    }

    /// Drive the pin low.
    pub fn set_low(&self, gpio: &mut GpioRegs)
        requires
            self.wf(),
        ensures
            final(gpio).out == old(gpio).out & !self.spec_reg_mask(),
            final(gpio).dir == old(gpio).dir,
            final(gpio).input == old(gpio).input,
    {
        let mask = self.reg_mask();
        gpio.out = gpio.out & !mask;
    }

    /// Invert the pin's output level.
    pub fn toggle(&self, gpio: &mut GpioRegs)
        requires
            self.wf(),
        ensures
            final(gpio).out == old(gpio).out ^ self.spec_reg_mask(),
            final(gpio).dir == old(gpio).dir,
            final(gpio).input == old(gpio).input,
    {
        let mask = self.reg_mask();
        gpio.out = gpio.out ^ mask;
    }

    /// Whether the output register currently drives the pin high.
    pub fn is_set_high(&self, gpio: &GpioRegs) -> (r: bool)
        requires
            self.wf(),
        ensures
            r == ((gpio.out & self.spec_reg_mask()) != 0),
    {
        let mask = self.reg_mask();
        gpio.out & mask != 0
    }

    /// Whether the output register currently drives the pin low.
    pub fn is_set_low(&self, gpio: &GpioRegs) -> (r: bool)
        requires
            self.wf(),
        ensures
            r == ((gpio.out & self.spec_reg_mask()) == 0),
    {
        let mask = self.reg_mask();
        gpio.out & mask == 0
    }
}

impl Pin<DigitalInput> {
    /// Whether the externally driven level on the pin reads high.
    pub fn is_high(&self, gpio: &GpioRegs) -> (r: bool)
        requires
            self.wf(),
        ensures
            r == ((gpio.input & self.spec_reg_mask()) != 0),
    {
        let mask = self.reg_mask();
        gpio.input & mask != 0
    }

    /// Whether the externally driven level on the pin reads low.
    pub fn is_low(&self, gpio: &GpioRegs) -> (r: bool)
        requires
            self.wf(),
        ensures
            r == ((gpio.input & self.spec_reg_mask()) == 0),
    {
        let mask = self.reg_mask();
        gpio.input & mask == 0
    }
}

/// The unassigned, output-capable pins available for assignment at system
/// reset, exactly one handle per pin.
///
/// GPIO pin 3 is not included because at system boot it is connected to the
/// serial wire debug function.
pub struct Pins {
    pub gpio0: Pin<Unassigned>,
    pub gpio1: Pin<Unassigned>,
    pub gpio2: Pin<Unassigned>,
    pub gpio4: Pin<Unassigned>,
    pub gpio5: Pin<Unassigned>,
    pub gpio6: Pin<Unassigned>,
    pub gpio7: Pin<Unassigned>,
    pub gpio8: Pin<Unassigned>,
    pub gpio9: Pin<Unassigned>,
    pub gpio10: Pin<Unassigned>,
    pub gpio11: Pin<Unassigned>,
    pub gpio12: Pin<Unassigned>,
    pub gpio13: Pin<Unassigned>,
    pub gpio14: Pin<Unassigned>,
    pub gpio15: Pin<Unassigned>,
    pub gpio16: Pin<Unassigned>,
    pub gpio17: Pin<Unassigned>,
}

impl Pins {
    /// Every handle carries the number of the pin it is named after.
    pub open spec fn wf(&self) -> bool {
        &&& self.gpio0.spec_number() == 0
        &&& self.gpio1.spec_number() == 1
        &&& self.gpio2.spec_number() == 2
        &&& self.gpio4.spec_number() == 4
        &&& self.gpio5.spec_number() == 5
        &&& self.gpio6.spec_number() == 6
        &&& self.gpio7.spec_number() == 7
        &&& self.gpio8.spec_number() == 8
        &&& self.gpio9.spec_number() == 9
        &&& self.gpio10.spec_number() == 10
        &&& self.gpio11.spec_number() == 11
        &&& self.gpio12.spec_number() == 12
        &&& self.gpio13.spec_number() == 13
        &&& self.gpio14.spec_number() == 14
        &&& self.gpio15.spec_number() == 15
        &&& self.gpio16.spec_number() == 16
        &&& self.gpio17.spec_number() == 17
    }

    pub(crate) fn new() -> (r: Pins)
        ensures
            r.wf(),
    {
        Pins {
            gpio0: Pin::new(0),
            gpio1: Pin::new(1),
            gpio2: Pin::new(2),
            gpio4: Pin::new(4),
            gpio5: Pin::new(5),
            gpio6: Pin::new(6),
            gpio7: Pin::new(7),
            gpio8: Pin::new(8),
            gpio9: Pin::new(9),
            gpio10: Pin::new(10),
            gpio11: Pin::new(11),
            gpio12: Pin::new(12),
            gpio13: Pin::new(13),
            gpio14: Pin::new(14),
            gpio15: Pin::new(15),
            gpio16: Pin::new(16),
            gpio17: Pin::new(17),
        }
    }
}

/// The digital input parts of each of the general-purpose I/O pins.
///
/// Because multiple input functions can coexist on a single pin, the input
/// part of a pin is not subject to move behavior and can be freely shared
/// between multiple components. This separate struct ensures the input parts
/// can always be accessed, even when the output parts in [`Pins`] have been
/// moved elsewhere.
pub struct PinInputs {
    pub gpio0: Pin<DigitalInput>,
    pub gpio1: Pin<DigitalInput>,
    pub gpio2: Pin<DigitalInput>,
    pub gpio3: Pin<DigitalInput>,
    pub gpio4: Pin<DigitalInput>,
    pub gpio5: Pin<DigitalInput>,
    pub gpio6: Pin<DigitalInput>,
    pub gpio7: Pin<DigitalInput>,
    pub gpio8: Pin<DigitalInput>,
    pub gpio9: Pin<DigitalInput>,
    pub gpio10: Pin<DigitalInput>,
    pub gpio11: Pin<DigitalInput>,
    pub gpio12: Pin<DigitalInput>,
    pub gpio13: Pin<DigitalInput>,
    pub gpio14: Pin<DigitalInput>,
    pub gpio15: Pin<DigitalInput>,
    pub gpio16: Pin<DigitalInput>,
    pub gpio17: Pin<DigitalInput>,
}

impl PinInputs {
    /// Every handle carries the number of the pin it is named after.
    pub open spec fn wf(&self) -> bool {
        &&& self.gpio0.spec_number() == 0
        &&& self.gpio1.spec_number() == 1
        &&& self.gpio2.spec_number() == 2
        &&& self.gpio3.spec_number() == 3
        &&& self.gpio4.spec_number() == 4
        &&& self.gpio5.spec_number() == 5
        &&& self.gpio6.spec_number() == 6
        &&& self.gpio7.spec_number() == 7
        &&& self.gpio8.spec_number() == 8
        &&& self.gpio9.spec_number() == 9
        &&& self.gpio10.spec_number() == 10
        &&& self.gpio11.spec_number() == 11
        &&& self.gpio12.spec_number() == 12
        &&& self.gpio13.spec_number() == 13
        &&& self.gpio14.spec_number() == 14
        &&& self.gpio15.spec_number() == 15
        &&& self.gpio16.spec_number() == 16
        &&& self.gpio17.spec_number() == 17
    }

    pub(crate) fn new() -> (r: PinInputs)
        ensures
            r.wf(),
    {
        PinInputs {
            gpio0: Pin::new(0),
            gpio1: Pin::new(1),
            gpio2: Pin::new(2),
            gpio3: Pin::new(3),
            gpio4: Pin::new(4),
            gpio5: Pin::new(5),
            gpio6: Pin::new(6),
            gpio7: Pin::new(7),
            gpio8: Pin::new(8),
            gpio9: Pin::new(9),
            gpio10: Pin::new(10),
            gpio11: Pin::new(11),
            gpio12: Pin::new(12),
            gpio13: Pin::new(13),
            gpio14: Pin::new(14),
            gpio15: Pin::new(15),
            gpio16: Pin::new(16),
            gpio17: Pin::new(17),
        }
    }
}

} // verus!
