//! The eight pin interrupt channels and their modeled registers.

use vstd::pervasive::VecAdditionalExecFns;
use vstd::prelude::*;

use super::mode::{Edge, Inactive, Level, Sensing, Sensitivity};
use crate::pins::mode::DigitalInput;
use crate::pins::{Pin, PIN_COUNT};

verus! {

/// Number of pin interrupt channels.
pub const CHANNEL_COUNT: u8 = 8;

/// The pin-interrupt registers this library drives, modeled as plain data.
///
/// Bit `n` of each 32-bit field belongs to channel `n`, except the NVIC
/// enables, where channel `n` owns bit `24 + n`. The pin-select entries
/// live in the system configuration block on the chip, but belong to this
/// engine's register map.
pub struct PinIntRegs {
    /// Which pin each channel watches, one entry per channel.
    pub pintsel: Vec<u8>,
    /// Level-sensitivity bits: a set bit makes the channel level-sensitive.
    pub isel: u32,
    /// Rising-edge (or level) interrupt enables.
    pub ienr: u32,
    /// Falling-edge interrupt enables.
    pub ienf: u32,
    /// Pending-interrupt flags; the hardware sets them, acknowledging
    /// clears them.
    pub ist: u32,
    /// Interrupt-controller enable bits.
    pub nvic_enabled: u32,
}

impl PinIntRegs {
    /// One pin-select entry per channel.
    pub open spec fn wf(&self) -> bool {
        self.pintsel@.len() == CHANNEL_COUNT
    }

    pub(crate) fn new() -> (r: PinIntRegs)
        ensures
            r.wf(),
            r.pintsel@ == Seq::new(CHANNEL_COUNT as nat, |i: int| 0u8),
            r.isel == 0,
            r.ienr == 0,
            r.ienf == 0,
            r.ist == 0,
            r.nvic_enabled == 0,
    {
        let mut pintsel: Vec<u8> = Vec::new();
        let mut i: usize = 0;
        while i < CHANNEL_COUNT as usize
            invariant
                i <= CHANNEL_COUNT,
                pintsel@ == Seq::new(i as nat, |k: int| 0u8),
            decreases CHANNEL_COUNT - i,
        {
            pintsel.push(0);
            proof {
                assert(pintsel@ =~= Seq::new(i as nat + 1, |k: int| 0u8));
            }
            i = i + 1;
        }
        PinIntRegs { pintsel, isel: 0, ienr: 0, ienf: 0, ist: 0, nvic_enabled: 0 }
    }
}

/// One pin interrupt channel, in a particular configuration state.
pub struct PinInterrupt<MODE: Sensitivity> {
    index: u8,
    pin: u8,
    mode: core::marker::PhantomData<MODE>,
}

impl<MODE: Sensitivity> PinInterrupt<MODE> {
    /// The channel's index among the eight.
    pub closed spec fn spec_index(&self) -> u8 {
        self.index
    }

    /// The number of the pin the channel watches; meaningful only while a
    /// pin is connected.
    pub closed spec fn spec_pin(&self) -> u8 {
        self.pin
    }

    /// The index names one of the eight channels and the watched pin is a
    /// physical pin.
    pub open spec fn wf(&self) -> bool {
        &&& self.spec_index() < CHANNEL_COUNT
        &&& self.spec_pin() < PIN_COUNT
    }

    /// The channel's bit in the interrupt controller's enable registers.
    pub open spec fn spec_nvic_mask(&self) -> u32 {
        1u32 << (24 + self.spec_index())
    }

    /// Returns the channel's bit mask for the interrupt controller's
    /// enable registers.
    pub fn nvic_bitmask(&self) -> (r: u32)
        requires
            self.wf(),
        ensures
            r == self.spec_nvic_mask(),
    {
        1u32 << (24 + self.index as u32)
    }
}

impl PinInterrupt<Inactive> {
    pub(crate) fn new(index: u8) -> (r: PinInterrupt<Inactive>)
        requires
            index < CHANNEL_COUNT,
        ensures
            r.spec_index() == index,
            r.wf(),
    {
        PinInterrupt { index, pin: 0, mode: core::marker::PhantomData }
    }

    /// Connects the channel to a pin's input and makes it edge-sensitive.
    ///
    /// The interrupt is not enabled yet; call `enable` on the result to
    /// begin receiving interrupts.
    pub fn edge_triggered(self, regs: &mut PinIntRegs, pin: &Pin<DigitalInput>) -> (r:
        PinInterrupt<Edge>)
        requires
            self.wf(),
            old(regs).wf(),
            pin.wf(),
        ensures
            r.spec_index() == self.spec_index(),
            r.spec_pin() == pin.spec_number(),
            r.wf(),
            final(regs).wf(),
            final(regs).pintsel@ == old(regs).pintsel@.update(
                self.spec_index() as int,
                pin.spec_number(),
            ),
            final(regs).isel == old(regs).isel & !(1u32 << self.spec_index()),
            final(regs).ienr == old(regs).ienr,
            final(regs).ienf == old(regs).ienf,
            final(regs).ist == old(regs).ist,
            final(regs).nvic_enabled == old(regs).nvic_enabled,
    {
        let n = pin.number();
        regs.pintsel.set(self.index as usize, n);
        regs.isel = regs.isel & !(1u32 << self.index as u32);
        PinInterrupt { index: self.index, pin: n, mode: core::marker::PhantomData }
    }

    /// Connects the channel to a pin's input and makes it level-sensitive.
    ///
    /// The interrupt is not enabled yet; call `enable` on the result to
    /// begin receiving interrupts.
    pub fn level_triggered(self, regs: &mut PinIntRegs, pin: &Pin<DigitalInput>) -> (r:
        PinInterrupt<Level>)
        requires
            self.wf(),
            old(regs).wf(),
            pin.wf(),
        ensures
            r.spec_index() == self.spec_index(),
            r.spec_pin() == pin.spec_number(),
            r.wf(),
            final(regs).wf(),
            final(regs).pintsel@ == old(regs).pintsel@.update(
                self.spec_index() as int,
                pin.spec_number(),
            ),
            final(regs).isel == old(regs).isel | (1u32 << self.spec_index()),
            final(regs).ienr == old(regs).ienr,
            final(regs).ienf == old(regs).ienf,
            final(regs).ist == old(regs).ist,
            final(regs).nvic_enabled == old(regs).nvic_enabled,
    {
        let n = pin.number();
        regs.pintsel.set(self.index as usize, n);
        regs.isel = regs.isel | (1u32 << self.index as u32);
        PinInterrupt { index: self.index, pin: n, mode: core::marker::PhantomData }
    }
}

impl<MODE: Sensing> PinInterrupt<MODE> {
    /// A shareable input handle for the pin the channel is watching.
    pub fn pin(&self) -> (r: Pin<DigitalInput>)
        requires
            self.wf(),
        ensures
            r.spec_number() == self.spec_pin(),
            r.wf(),
    {
        Pin::new(self.pin)
    }

    /// Whether the channel senses edges or levels.
    pub fn sensitivity(&self) -> (r: super::Sensitivity)
        ensures
            (r == super::Sensitivity::Level) == MODE::spec_level(),
    {
        if MODE::level() {
            super::Sensitivity::Level
        } else {
            super::Sensitivity::Edge
        }
    }

    /// Enables the interrupt in the controller and arms the requested
    /// edges (for a level-sensitive channel, `rising` arms the level
    /// interrupt and `falling` selects the active-high level).
    pub fn enable(&self, regs: &mut PinIntRegs, rising: bool, falling: bool)
        requires
            self.wf(),
            old(regs).wf(),
        ensures
            final(regs).wf(),
            final(regs).nvic_enabled == old(regs).nvic_enabled | self.spec_nvic_mask(),
            final(regs).ienr == if rising {
                old(regs).ienr | (1u32 << self.spec_index())
            } else {
                old(regs).ienr
            },
            final(regs).ienf == if falling {
                old(regs).ienf | (1u32 << self.spec_index())
            } else {
                old(regs).ienf
            },
            final(regs).pintsel == old(regs).pintsel,
            final(regs).isel == old(regs).isel,
            final(regs).ist == old(regs).ist,
    {
        regs.nvic_enabled = regs.nvic_enabled | self.nvic_bitmask();
        if rising {
            regs.ienr = regs.ienr | (1u32 << self.index as u32);
        }
        if falling {
            regs.ienf = regs.ienf | (1u32 << self.index as u32);
        }
    }

    /// Disables the interrupt in the controller and disarms both edges.
    pub fn disable(&self, regs: &mut PinIntRegs)
        requires
            self.wf(),
            old(regs).wf(),
        ensures
            final(regs).wf(),
            final(regs).ienr == old(regs).ienr & !(1u32 << self.spec_index()),
            final(regs).ienf == old(regs).ienf & !(1u32 << self.spec_index()),
            final(regs).nvic_enabled == old(regs).nvic_enabled & !self.spec_nvic_mask(),
            final(regs).pintsel == old(regs).pintsel,
            final(regs).isel == old(regs).isel,
            final(regs).ist == old(regs).ist,
    {
        regs.ienr = regs.ienr & !(1u32 << self.index as u32);
        regs.ienf = regs.ienf & !(1u32 << self.index as u32);
        regs.nvic_enabled = regs.nvic_enabled & !self.nvic_bitmask();
    }

    /// Clears the channel's pending edge notifications. An interrupt
    /// service routine must call this before returning, or it is invoked
    /// again immediately.
    pub fn acknowledge_events(&self, regs: &mut PinIntRegs)
        requires
            self.wf(),
            old(regs).wf(),
        ensures
            final(regs).wf(),
            final(regs).ist == old(regs).ist & !(1u32 << self.spec_index()),
            final(regs).pintsel == old(regs).pintsel,
            final(regs).isel == old(regs).isel,
            final(regs).ienr == old(regs).ienr,
            final(regs).ienf == old(regs).ienf,
            final(regs).nvic_enabled == old(regs).nvic_enabled,
    {
        regs.ist = regs.ist & !(1u32 << self.index as u32);
    }

    /// Disconnects the channel: the interrupt is disabled first — the
    /// pin-select reset value would otherwise watch pin zero — then the
    /// selection and sensitivity return to their reset values, and the
    /// watched pin's input handle is returned.
    pub fn release_pin(self, regs: &mut PinIntRegs) -> (r: (
        PinInterrupt<Inactive>,
        Pin<DigitalInput>,
    ))
        requires
            self.wf(),
            old(regs).wf(),
        ensures
            r.0.spec_index() == self.spec_index(),
            r.0.wf(),
            r.1.spec_number() == self.spec_pin(),
            r.1.wf(),
            final(regs).wf(),
            final(regs).ienr == old(regs).ienr & !(1u32 << self.spec_index()),
            final(regs).ienf == old(regs).ienf & !(1u32 << self.spec_index()),
            final(regs).nvic_enabled == old(regs).nvic_enabled & !self.spec_nvic_mask(),
            final(regs).pintsel@ == old(regs).pintsel@.update(self.spec_index() as int, 0u8),
            final(regs).isel == old(regs).isel & !(1u32 << self.spec_index()),
            final(regs).ist == old(regs).ist,
    {
        self.disable(regs);
        regs.pintsel.set(self.index as usize, 0);
        regs.isel = regs.isel & !(1u32 << self.index as u32);
        let pin = Pin::new(self.pin);
        (PinInterrupt { index: self.index, pin: 0, mode: core::marker::PhantomData }, pin)
    }
}

} // verus!
