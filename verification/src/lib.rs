//! Hardware-abstraction layer for LPC81x microcontrollers, with verified
//! resource-ownership and bus-protocol logic.
//!
//! The core concept is the set of objects representing the I/O pins. The
//! chip's switch matrix can connect most peripherals to any pin, and the
//! peripheral objects therefore take ownership of the pins they are
//! assigned, which checks when the program is built that only one output
//! function is ever assigned to each pin — the switch matrix hardware's
//! one real constraint.
//!
//! The chip's shared register file — switch-matrix assignments, clock
//! gates, reset lines, peripheral control registers — is modeled as plain
//! data, and everything built on top of it is verified against that model:
//! the pin-ownership discipline, the switch-matrix allocator, the
//! peripheral activation state machines, and the I2C/SPI transfer engines.
//! Binding the model to the real memory-mapped registers is the job of a
//! thin unverified driver around this crate, which replays the modeled
//! register values and operation plans against the hardware.

pub mod gpio;
pub mod i2c;
pub mod pinint;
pub mod pins;
pub mod spi;
pub mod state;
pub mod swm;
pub mod syscon;

use vstd::prelude::*;

verus! {

/// The peripherals modeled by this crate, in their state at system reset.
///
/// This is the root set of handles: the movable pins, the freely shareable
/// pin inputs, the inactive peripherals, and the modeled shared register
/// files they act on. It has no hidden state, so constructing it twice
/// would duplicate ownership of the hardware: the surrounding application
/// must hold the one-time entry point (take once, fail afterwards) and
/// call this constructor exactly once per reset.
pub struct Peripherals {
    /// The main accessors for the device pins, one movable handle each.
    pub pins: pins::Pins,
    /// Alternative accessors for the pins' digital inputs, freely
    /// shareable even when members of `pins` have been moved elsewhere.
    pub pin_inputs: pins::PinInputs,
    /// The pin interrupt engine, not yet configured.
    pub pin_interrupts: pinint::Inactive,
    /// The pin interrupt engine's modeled registers.
    pub pinint_regs: pinint::interrupt::PinIntRegs,
    /// The first SPI peripheral, initially inactive.
    pub spi0: spi::Spi<
        spi::mode::Inactive,
        pins::mode::Unassigned,
        pins::mode::Unassigned,
        pins::mode::Unassigned,
        pins::mode::Unassigned,
    >,
    /// The second SPI peripheral, initially inactive. The device is only
    /// present in some models; see [`Model::has_spi1`].
    pub spi1: spi::Spi<
        spi::mode::Inactive,
        pins::mode::Unassigned,
        pins::mode::Unassigned,
        pins::mode::Unassigned,
        pins::mode::Unassigned,
    >,
    /// The I2C peripheral, initially inactive.
    pub i2c: i2c::I2C<
        pins::mode::Unassigned,
        pins::mode::Unassigned,
        i2c::mode::HostInactive,
        i2c::mode::DeviceInactive,
        i2c::mode::MonitorInactive,
    >,
    /// The GPIO peripheral, enabled at reset, holding the modeled port
    /// registers the pin handles act on.
    pub gpio: gpio::GPIO<state::Enabled>,
    /// The switch matrix, with every assignment field unselected.
    pub swm: swm::SwitchMatrix,
    /// The system configuration block, with every register at its reset
    /// value.
    pub syscon: syscon::SYSCON,
}

impl Peripherals {
    /// Everything is well formed and in its reset state: all pin handles
    /// carry their own numbers, the switch matrix is empty, and the
    /// peripherals are inactive.
    pub open spec fn wf(&self) -> bool {
        &&& self.pins.wf()
        &&& self.pin_inputs.wf()
        &&& self.pinint_regs.wf()
        &&& self.spi0.wf()
        &&& self.spi0.regs.instance == 0
        &&& self.spi1.wf()
        &&& self.spi1.regs.instance == 1
        &&& self.i2c.wf()
        &&& self.swm.wf()
        &&& self.swm.spec_all_free()
    }

    /// Builds the root set of handles with every modeled register at its
    /// documented reset value.
    ///
    /// This is the raw constructor behind the one-time entry point; the
    /// ownership guarantees above it hold only while it is called at most
    /// once per reset.
    pub fn new() -> (r: Peripherals)
        ensures
            r.wf(),
            r.syscon.regs == (syscon::SysconRegs {
                pdruncfg: 0xedf0,
                presetctrl: 0x2101dfff,
                starterp1: 0,
                sysahbclkctrl: 0xdf,
                uartclkdiv: 0,
                uartfrgdiv: 0,
                uartfrgmult: 0,
            }),
            r.gpio.regs == (gpio::GpioRegs { dir: 0, out: 0, input: 0 }),
            !r.i2c.regs.msten,
            !r.i2c.regs.slven,
            !r.i2c.regs.monen,
            !r.spi0.regs.lsbf && !r.spi0.regs.cpha && !r.spi0.regs.cpol && !r.spi0.regs.spol
                && r.spi0.regs.divval == 0,
            !r.spi1.regs.lsbf && !r.spi1.regs.cpha && !r.spi1.regs.cpol && !r.spi1.regs.spol
                && r.spi1.regs.divval == 0,
            r.pinint_regs.isel == 0,
            r.pinint_regs.ienr == 0,
            r.pinint_regs.ienf == 0,
            r.pinint_regs.ist == 0,
            r.pinint_regs.nvic_enabled == 0,
    {
        Peripherals {
            pins: pins::Pins::new(),
            pin_inputs: pins::PinInputs::new(),
            pin_interrupts: pinint::Inactive::new(),
            pinint_regs: pinint::interrupt::PinIntRegs::new(),
            spi0: spi::Spi::new(0),
            spi1: spi::Spi::new(1),
            i2c: i2c::I2C::new(),
            gpio: gpio::GPIO::new(gpio::GpioRegs { dir: 0, out: 0, input: 0 }),
            swm: swm::SwitchMatrix::new(),
            syscon: syscon::SYSCON::new(
                syscon::SysconRegs {
                    pdruncfg: 0xedf0,
                    presetctrl: 0x2101dfff,
                    starterp1: 0,
                    sysahbclkctrl: 0xdf,
                    uartclkdiv: 0,
                    uartfrgdiv: 0,
                    uartfrgmult: 0,
                },
            ),
        }
    }
}

/// Identifies a particular model of the device family.
#[derive(Clone, Copy, Debug, PartialEq, Eq, Structural)]
pub enum Model {
    LPC810M021FN8,
    LPC811M001JDH16,
    LPC812M101JDH16,
    LPC812M101JD20,
    LPC812M101JDH20,
    LPC812M101JTB16,
}

/// The model a device-identification register value stands for, if it is a
/// known one.
pub open spec fn spec_model_of(raw: u32) -> Option<Model> {
    if raw == 0x00008100 {
        Option::Some(Model::LPC810M021FN8)
    } else if raw == 0x00008110 {
        Option::Some(Model::LPC811M001JDH16)
    } else if raw == 0x00008120 {
        Option::Some(Model::LPC812M101JDH16)
    } else if raw == 0x00008121 {
        Option::Some(Model::LPC812M101JD20)
    } else if raw == 0x00008122 {
        Option::Some(Model::LPC812M101JDH20)
    } else if raw == 0x00008123 {
        Option::Some(Model::LPC812M101JTB16)
    } else {
        Option::None
    }
}

impl Model {
    /// Classifies a device-identification register value; an unknown value
    /// means the program is running on hardware it does not understand,
    /// and the caller is expected to halt.
    pub fn from_device_id(raw: u32) -> (r: Option<Model>)
        ensures
            r == spec_model_of(raw),
    {
        match raw {
            0x00008100 => Some(Model::LPC810M021FN8),
            0x00008110 => Some(Model::LPC811M001JDH16),
            0x00008120 => Some(Model::LPC812M101JDH16),
            0x00008121 => Some(Model::LPC812M101JD20),
            0x00008122 => Some(Model::LPC812M101JDH20),
            0x00008123 => Some(Model::LPC812M101JTB16),
            _ => None,
        }
    }

    /// Whether the given pin is available on this model: the smallest
    /// package bonds out only the first six pins.
    ///
    /// The library does not prevent using pins that are unavailable on a
    /// particular model, but a portable application can use this to adapt
    /// to different pin subsets.
    pub fn has_pin<MODE: pins::mode::PinMode>(&self, pin: &pins::Pin<MODE>) -> (r: bool)
        ensures
            r == if *self is LPC810M021FN8 {
                pin.spec_number() <= 5
            } else {
                true
            },
    {
        match self {
            Model::LPC810M021FN8 => pin.number() <= 5,
            _ => true,
        }
    }

    /// Whether the second SPI device is present on this model.
    ///
    /// The library does not prevent using it where it is absent; a
    /// portable application can use this to fall back gracefully.
    pub fn has_spi1(&self) -> (r: bool)
        ensures
            r == (*self is LPC812M101JDH16 || *self is LPC812M101JDH20),
    {
        match self {
            Model::LPC812M101JDH16 => true,
            Model::LPC812M101JDH20 => true,
            _ => false,
        }
    }
}

} // verus!
