//! System configuration (SYSCON): peripheral clock gates, reset lines,
//! analog power switches, and interrupt wake-up enables.
//!
//! The SYSCON register file is modeled as plain data held by [`Handle`],
//! which is the single writer of those registers. Other peripheral APIs
//! request their clock, reset and power changes through it.

use vstd::prelude::*;

use crate::state::Enabled;

verus! {

/// Bit position of a peripheral's clock gate in the SYSAHBCLKCTRL register.
pub trait ClockControl {
    /// The peripheral's bit position in SYSAHBCLKCTRL.
    spec fn spec_clock_bit(&self) -> u32;

    /// Returns the peripheral's bit position in SYSAHBCLKCTRL.
    fn clock_bit(&self) -> (b: u32)
        ensures
            b == self.spec_clock_bit(),
            b < 32,
    ;
}

/// Bit position of a peripheral's reset line in the PRESETCTRL register.
/// The line is active low: a cleared bit holds the peripheral in reset.
pub trait ResetControl {
    /// The peripheral's bit position in PRESETCTRL.
    spec fn spec_reset_bit(&self) -> u32;

    /// Returns the peripheral's bit position in PRESETCTRL.
    fn reset_bit(&self) -> (b: u32)
        ensures
            b == self.spec_reset_bit(),
            b < 32,
    ;
}

/// Bit position of an analog block's power switch in the PDRUNCFG register.
/// A set bit powers the block down.
pub trait AnalogBlock {
    /// The block's bit position in PDRUNCFG.
    spec fn spec_power_bit(&self) -> u32;

    /// Returns the block's bit position in PDRUNCFG.
    fn power_bit(&self) -> (b: u32)
        ensures
            b == self.spec_power_bit(),
            b < 32,
    ;
}

/// Bit position of an interrupt's wake-up enable in the STARTERP1 register.
pub trait WakeUpInterrupt {
    /// The interrupt's bit position in STARTERP1.
    spec fn spec_wake_bit() -> u32;

    /// Returns the interrupt's bit position in STARTERP1.
    fn wake_bit() -> (b: u32)
        ensures
            b == Self::spec_wake_bit(),
            b < 32,
    ;
}

/// The SYSCON registers that this library drives, modeled as plain data.
pub struct SysconRegs {
    /// Analog block power-down switches (a set bit powers the block down).
    pub pdruncfg: u32,
    /// Peripheral reset lines (active low).
    pub presetctrl: u32,
    /// Interrupt wake-up enables for the deep power modes.
    pub starterp1: u32,
    /// Peripheral clock gates.
    pub sysahbclkctrl: u32,
    /// UART clock divider.
    pub uartclkdiv: u8,
    /// UART fractional generator divider.
    pub uartfrgdiv: u8,
    /// UART fractional generator multiplier.
    pub uartfrgmult: u8,
}

/// Entry point to the SYSCON API.
///
/// Holds the whole modeled register file until [`SYSCON::split`] divides it
/// into the parts that the rest of the API works with, or [`SYSCON::free`]
/// surrenders it unchanged.
pub struct SYSCON {
    pub regs: SysconRegs,
}

impl SYSCON {
    pub(crate) fn new(regs: SysconRegs) -> (r: SYSCON)
        ensures
            r.regs == regs,
    {
        SYSCON { regs }
    }

    /// Splits the SYSCON API into its component parts.
    pub fn split(self) -> (r: Parts)
        ensures
            r.handle.pdruncfg == self.regs.pdruncfg,
            r.handle.presetctrl == self.regs.presetctrl,
            r.handle.starterp1 == self.regs.starterp1,
            r.handle.sysahbclkctrl == self.regs.sysahbclkctrl,
            r.uartfrg.uartclkdiv == self.regs.uartclkdiv,
            r.uartfrg.uartfrgdiv == self.regs.uartfrgdiv,
            r.uartfrg.uartfrgmult == self.regs.uartfrgmult,
    {
        Parts {
            handle: Handle {
                pdruncfg: self.regs.pdruncfg,
                presetctrl: self.regs.presetctrl,
                starterp1: self.regs.starterp1,
                sysahbclkctrl: self.regs.sysahbclkctrl,
            },
            bod: BOD,
            flash: FLASH,
            irc: IRC,
            ircout: IRCOUT,
            mtb: MTB,
            ram0_1: RAM0_1,
            rom: ROM,
            sysosc: SYSOSC,
            syspll: SYSPLL,
            uartfrg: UARTFRG {
                uartclkdiv: self.regs.uartclkdiv,
                uartfrgdiv: self.regs.uartfrgdiv,
                uartfrgmult: self.regs.uartfrgmult,
            },
            irc_derived_clock: IrcDerivedClock::new(),
        }
    }

    /// Surrenders the modeled register file unchanged.
    pub fn free(self) -> (r: SysconRegs)
        ensures
            r == self.regs,
    {
        self.regs
    }
}

/// The component parts of the SYSCON API.
pub struct Parts {
    /// The handle to the SYSCON peripheral.
    pub handle: Handle,
    /// Brown-out detection.
    pub bod: BOD,
    /// Flash memory.
    pub flash: FLASH,
    /// The internal RC oscillator.
    pub irc: IRC,
    /// The internal RC oscillator's output.
    pub ircout: IRCOUT,
    /// Micro Trace Buffer.
    pub mtb: MTB,
    /// Random access memory.
    pub ram0_1: RAM0_1,
    /// Read-only memory.
    pub rom: ROM,
    /// System oscillator.
    pub sysosc: SYSOSC,
    /// Phase-locked loop.
    pub syspll: SYSPLL,
    /// UART fractional baud rate generator.
    pub uartfrg: UARTFRG,
    /// The 750 kHz IRC-derived clock, enabled at reset.
    pub irc_derived_clock: IrcDerivedClock<Enabled>,
}

/// Handle to the SYSCON peripheral: the single writer of the clock-gate,
/// reset, power and wake-up registers.
pub struct Handle {
    pub pdruncfg: u32,
    pub presetctrl: u32,
    pub starterp1: u32,
    pub sysahbclkctrl: u32,
}

impl Handle {
    /// Enable a peripheral's clock gate.
    pub fn enable_clock<P: ClockControl>(&mut self, peripheral: &P)
        ensures
            final(self).sysahbclkctrl == old(self).sysahbclkctrl | (1u32
                << peripheral.spec_clock_bit()),
            final(self).presetctrl == old(self).presetctrl,
            final(self).pdruncfg == old(self).pdruncfg,
            final(self).starterp1 == old(self).starterp1,
    {
        let b = peripheral.clock_bit();
        self.sysahbclkctrl = self.sysahbclkctrl | (1u32 << b);
    }

    /// Disable a peripheral's clock gate.
    pub fn disable_clock<P: ClockControl>(&mut self, peripheral: &P)
        ensures
            final(self).sysahbclkctrl == old(self).sysahbclkctrl & !(1u32
                << peripheral.spec_clock_bit()),
            final(self).presetctrl == old(self).presetctrl,
            final(self).pdruncfg == old(self).pdruncfg,
            final(self).starterp1 == old(self).starterp1,
    {
        let b = peripheral.clock_bit();
        self.sysahbclkctrl = self.sysahbclkctrl & !(1u32 << b);
    }

    /// Hold a peripheral in reset (the line is active low).
    pub fn assert_reset<P: ResetControl>(&mut self, peripheral: &P)
        ensures
            final(self).presetctrl == old(self).presetctrl & !(1u32 << peripheral.spec_reset_bit()),
            final(self).sysahbclkctrl == old(self).sysahbclkctrl,
            final(self).pdruncfg == old(self).pdruncfg,
            final(self).starterp1 == old(self).starterp1,
    {
        let b = peripheral.reset_bit();
        self.presetctrl = self.presetctrl & !(1u32 << b);
    }

    /// Release a peripheral from reset.
    pub fn clear_reset<P: ResetControl>(&mut self, peripheral: &P)
        ensures
            final(self).presetctrl == old(self).presetctrl | (1u32 << peripheral.spec_reset_bit()),
            final(self).sysahbclkctrl == old(self).sysahbclkctrl,
            final(self).pdruncfg == old(self).pdruncfg,
            final(self).starterp1 == old(self).starterp1,
    {
        let b = peripheral.reset_bit();
        self.presetctrl = self.presetctrl | (1u32 << b);
    }

    /// Provide power to an analog block (clearing its power-down bit).
    pub fn power_up<P: AnalogBlock>(&mut self, peripheral: &P)
        ensures
            final(self).pdruncfg == old(self).pdruncfg & !(1u32 << peripheral.spec_power_bit()),
            final(self).sysahbclkctrl == old(self).sysahbclkctrl,
            final(self).presetctrl == old(self).presetctrl,
            final(self).starterp1 == old(self).starterp1,
    {
        let b = peripheral.power_bit();
        self.pdruncfg = self.pdruncfg & !(1u32 << b);
    }

    /// Remove power from an analog block (setting its power-down bit).
    pub fn power_down<P: AnalogBlock>(&mut self, peripheral: &P)
        ensures
            final(self).pdruncfg == old(self).pdruncfg | (1u32 << peripheral.spec_power_bit()),
            final(self).sysahbclkctrl == old(self).sysahbclkctrl,
            final(self).presetctrl == old(self).presetctrl,
            final(self).starterp1 == old(self).starterp1,
    {
        let b = peripheral.power_bit();
        self.pdruncfg = self.pdruncfg | (1u32 << b);
    }

    /// Enable an interrupt's wake-up from the deep power modes.
    pub fn enable_interrupt_wakeup<I: WakeUpInterrupt>(&mut self)
        ensures
            final(self).starterp1 == old(self).starterp1 | (1u32 << I::spec_wake_bit()),
            final(self).sysahbclkctrl == old(self).sysahbclkctrl,
            final(self).presetctrl == old(self).presetctrl,
            final(self).pdruncfg == old(self).pdruncfg,
    {
        let b = I::wake_bit();
        self.starterp1 = self.starterp1 | (1u32 << b);
    }

    /// Disable an interrupt's wake-up from the deep power modes.
    pub fn disable_interrupt_wakeup<I: WakeUpInterrupt>(&mut self)
        ensures
            final(self).starterp1 == old(self).starterp1 & !(1u32 << I::spec_wake_bit()),
            final(self).sysahbclkctrl == old(self).sysahbclkctrl,
            final(self).presetctrl == old(self).presetctrl,
            final(self).pdruncfg == old(self).pdruncfg,
    {
        let b = I::wake_bit();
        self.starterp1 = self.starterp1 & !(1u32 << b);
    }
}

/// Brown-out detection.
pub struct BOD;

/// Flash memory.
pub struct FLASH;

/// The internal RC oscillator.
pub struct IRC;

/// The internal RC oscillator's output.
pub struct IRCOUT;

/// Micro Trace Buffer.
pub struct MTB;

/// Random access memory.
#[allow(non_camel_case_types)]
pub struct RAM0_1;

/// Read-only memory.
pub struct ROM;

/// System oscillator.
pub struct SYSOSC;

/// Phase-locked loop.
pub struct SYSPLL;

impl ClockControl for ROM {
    open spec fn spec_clock_bit(&self) -> u32 {
        1
    }

    fn clock_bit(&self) -> u32 {
        1
    }
}

impl ClockControl for RAM0_1 {
    open spec fn spec_clock_bit(&self) -> u32 {
        2
    }

    fn clock_bit(&self) -> u32 {
        2
    }
}

impl ClockControl for FLASH {
    open spec fn spec_clock_bit(&self) -> u32 {
        4
    }

    fn clock_bit(&self) -> u32 {
        4
    }
}

impl ClockControl for MTB {
    open spec fn spec_clock_bit(&self) -> u32 {
        26
    }

    fn clock_bit(&self) -> u32 {
        26
    }
}

impl AnalogBlock for IRCOUT {
    open spec fn spec_power_bit(&self) -> u32 {
        0
    }

    fn power_bit(&self) -> u32 {
        0
    }
}

impl AnalogBlock for IRC {
    open spec fn spec_power_bit(&self) -> u32 {
        1
    }

    fn power_bit(&self) -> u32 {
        1
    }
}

impl AnalogBlock for FLASH {
    open spec fn spec_power_bit(&self) -> u32 {
        2
    }

    fn power_bit(&self) -> u32 {
        2
    }
}

impl AnalogBlock for BOD {
    open spec fn spec_power_bit(&self) -> u32 {
        3
    }

    fn power_bit(&self) -> u32 {
        3
    }
}

impl AnalogBlock for SYSOSC {
    open spec fn spec_power_bit(&self) -> u32 {
        5
    }

    fn power_bit(&self) -> u32 {
        5
    }
}

impl AnalogBlock for SYSPLL {
    open spec fn spec_power_bit(&self) -> u32 {
        7
    }

    fn power_bit(&self) -> u32 {
        7
    }
}

/// UART fractional baud rate generator: the common clock for all UART
/// peripherals.
pub struct UARTFRG {
    pub uartclkdiv: u8,
    pub uartfrgdiv: u8,
    pub uartfrgmult: u8,
}

impl UARTFRG {
    /// Set the UART clock divider value (UARTCLKDIV).
    pub fn set_clkdiv(&mut self, value: u8)
        ensures
            final(self).uartclkdiv == value,
            final(self).uartfrgdiv == old(self).uartfrgdiv,
            final(self).uartfrgmult == old(self).uartfrgmult,
    {
        self.uartclkdiv = value;
    }

    /// Set the UART fractional generator multiplier value (UARTFRGMULT).
    pub fn set_frgmult(&mut self, value: u8)
        ensures
            final(self).uartfrgmult == value,
            final(self).uartclkdiv == old(self).uartclkdiv,
            final(self).uartfrgdiv == old(self).uartfrgdiv,
    {
        self.uartfrgmult = value;
    }

    /// Set the UART fractional generator divider value (UARTFRGDIV).
    pub fn set_frgdiv(&mut self, value: u8)
        ensures
            final(self).uartfrgdiv == value,
            final(self).uartclkdiv == old(self).uartclkdiv,
            final(self).uartfrgmult == old(self).uartfrgmult,
    {
        self.uartfrgdiv = value;
    }
}

impl ResetControl for UARTFRG {
    open spec fn spec_reset_bit(&self) -> u32 {
        2
    }

    fn reset_bit(&self) -> u32 {
        2
    }
}

/// The 750 kHz IRC-derived clock, one of the clocks that can run the
/// self-wake-up timer.
pub struct IrcDerivedClock<STATE> {
    state: core::marker::PhantomData<STATE>,
}

impl IrcDerivedClock<Enabled> {
    pub(crate) fn new() -> (r: IrcDerivedClock<Enabled>) {
        IrcDerivedClock { state: core::marker::PhantomData }
    }
}

impl IrcDerivedClock<crate::state::Disabled> {
    /// Enable the IRC-derived clock by powering up the IRC and its output.
    ///
    /// Consumes the handles to [`IRC`] and [`IRCOUT`] so that the blocks
    /// cannot be powered down again while the clock is in use.
    pub fn enable(self, syscon: &mut Handle, irc: IRC, ircout: IRCOUT) -> (r: IrcDerivedClock<
        Enabled,
    >)
        ensures
            final(syscon).pdruncfg == old(syscon).pdruncfg & !(1u32 << irc.spec_power_bit()) & !(
            1u32 << ircout.spec_power_bit()),
            final(syscon).sysahbclkctrl == old(syscon).sysahbclkctrl,
            final(syscon).presetctrl == old(syscon).presetctrl,
            final(syscon).starterp1 == old(syscon).starterp1,
    {
        syscon.power_up(&irc);
        syscon.power_up(&ircout);
        IrcDerivedClock { state: core::marker::PhantomData }
    }
}

impl<STATE> IrcDerivedClock<STATE> {
    /// The clock's frequency in hertz.
    pub fn hz(&self) -> (r: u32)
        ensures
            r == 750000u32,
    {
        750000
    }
}

/// Wake-up enable for the windowed watchdog timer interrupt.
pub struct WwdtWakeup;

impl WakeUpInterrupt for WwdtWakeup {
    open spec fn spec_wake_bit() -> u32 {
        12
    }

    fn wake_bit() -> u32 {
        12
    }
}

/// Wake-up enable for the brown-out detection interrupt.
pub struct BodWakeup;

impl WakeUpInterrupt for BodWakeup {
    open spec fn spec_wake_bit() -> u32 {
        13
    }

    fn wake_bit() -> u32 {
        13
    }
}

/// Wake-up enable for the self-wake-up timer interrupt.
pub struct WktWakeup;

impl WakeUpInterrupt for WktWakeup {
    open spec fn spec_wake_bit() -> u32 {
        15
    }

    fn wake_bit() -> u32 {
        15
    }
}

} // verus!
