//! Interface to the SPI peripherals.
//!
//! Each of the two SPI instances starts inactive and unconnected.
//! Activation as host or device routes the clock line through the switch
//! matrix and writes the transfer configuration; data and select pins are
//! attached and released one by one. Every transition consumes the old
//! handle and returns one whose type records the new state, so an illegal
//! transition is rejected when the program is built. The full-duplex word
//! engine offers the two non-blocking primitives the hardware has — try to
//! send, try to receive — plus blocking wrappers that spin on them; all of
//! them run against a [`SpiBus`], whose readiness flags and receive
//! register are scripts supplied by the caller and whose transmit register
//! records every frame written.

use vstd::prelude::*;

pub mod cfg;
pub mod mode;
pub mod word;

use crate::pins::mode::{Assigned, DigitalInput, PinAssignment, Unassigned};
use crate::pins::Pin;
use crate::swm::{spec_output_pin, FunctionSlot, SlotState, SwitchMatrix};
use crate::syscon::{self, ClockControl, ResetControl};
use cfg::{BitOrder, ClockPhase, ClockPolarity, Config, Polarity};
use mode::{Active, Device, Host, Inactive, Mode};
use word::{mask_for, spec_mask, Word, MAX_FRAME_BITS, MIN_FRAME_BITS};

verus! {

/// The SPI registers this library drives, modeled as plain data, plus the
/// instance number that selects the hardware block.
pub struct SpiRegs {
    /// Which of the two SPI blocks this is (0 or 1).
    pub instance: u8,
    /// Peripheral enable bit.
    pub enabled: bool,
    /// Master (host) mode bit.
    pub master: bool,
    /// Least-significant-bit-first bit.
    pub lsbf: bool,
    /// Clock phase bit: capture on the second transition.
    pub cpha: bool,
    /// Clock polarity bit: clock idles high.
    pub cpol: bool,
    /// Chip-select polarity bit: select is active high.
    pub spol: bool,
    /// Clock divider register: the divider minus one.
    pub divval: u16,
}

impl ClockControl for SpiRegs {
    open spec fn spec_clock_bit(&self) -> u32 {
        if self.instance == 0 {
            11
        } else {
            12
        }
    }

    fn clock_bit(&self) -> u32 {
        if self.instance == 0 {
            11
        } else {
            12
        }
    }
}

impl ResetControl for SpiRegs {
    open spec fn spec_reset_bit(&self) -> u32 {
        if self.instance == 0 {
            0
        } else {
            1
        }
    }

    fn reset_bit(&self) -> u32 {
        if self.instance == 0 {
            0
        } else {
            1
        }
    }
}

/// One write to the combined transmit data/length register.
#[derive(Clone, Copy, Debug, PartialEq, Eq, Structural)]
pub struct TxFrame {
    /// The data bits written.
    pub txdat: u16,
    /// The length field written: the declared bit length minus one.
    pub flen: u8,
}

/// The transmit side reported not ready; retry later.
#[derive(Clone, Copy, Debug, PartialEq, Eq, Structural)]
pub struct WouldBlock;

/// A simulated SPI bus: scripted readiness flags and receive register, and
/// a record of every frame written to the transmit register.
pub struct SpiBus {
    /// Scripted transmit-ready flags, one per poll. Once the script runs
    /// out, every poll answers ready.
    pub txrdy: Vec<bool>,
    /// How many transmit-ready flags have been consumed.
    pub txrdy_cursor: usize,
    /// Scripted receive-ready flags, one per poll. Once the script runs
    /// out, every poll answers ready.
    pub rxrdy: Vec<bool>,
    /// How many receive-ready flags have been consumed.
    pub rxrdy_cursor: usize,
    /// The receive register's scripted raw values, one per read. Once the
    /// script runs out, every read delivers zero.
    pub rxdat: Vec<u16>,
    /// How many scripted receive values have been consumed.
    pub rxdat_cursor: usize,
    /// Every frame written to the transmit register, in order.
    pub sent: Vec<TxFrame>,
}

/// Whether the next transmit-ready poll answers ready.
pub open spec fn spec_tx_ready(bus: SpiBus) -> bool {
    bus.txrdy_cursor >= bus.txrdy@.len() || bus.txrdy@[bus.txrdy_cursor as int]
}

/// Whether the next receive-ready poll answers ready.
pub open spec fn spec_rx_ready(bus: SpiBus) -> bool {
    bus.rxrdy_cursor >= bus.rxrdy@.len() || bus.rxrdy@[bus.rxrdy_cursor as int]
}

/// The raw value the receive register delivers next.
pub open spec fn spec_rx_raw(bus: SpiBus) -> u16 {
    if bus.rxdat_cursor < bus.rxdat@.len() {
        bus.rxdat@[bus.rxdat_cursor as int]
    } else {
        0
    }
}

/// A readiness cursor after one poll: one script entry is consumed while
/// any remain.
pub open spec fn spec_poll_next(script: Seq<bool>, c: int) -> int {
    if 0 <= c < script.len() {
        c + 1
    } else {
        c
    }
}

/// A readiness cursor after polling until ready: entries are consumed up
/// to and including the first true one, or to the end of the script.
pub open spec fn spec_spin_until_ready(script: Seq<bool>, c: int) -> int
    decreases script.len() - c,
{
    if c < 0 || c >= script.len() {
        c
    } else if script[c] {
        c + 1
    } else {
        spec_spin_until_ready(script, c + 1)
    }
}

/// The receive cursor after one read: one script entry is consumed while
/// any remain.
pub open spec fn spec_rx_next(rx: Seq<u16>, c: int) -> int {
    if 0 <= c < rx.len() {
        c + 1
    } else {
        c
    }
}

/// The frame that sending a word writes to the transmit register: the
/// word's value masked to its declared length, and the length field.
pub open spec fn spec_frame_of(w: Word) -> TxFrame {
    TxFrame { txdat: w.value & spec_mask(w.len), flen: (w.len - 1) as u8 }
}

impl SpiBus {
    /// The cursors never pass the ends of their scripts.
    pub open spec fn wf(&self) -> bool {
        &&& self.txrdy_cursor <= self.txrdy@.len()
        &&& self.rxrdy_cursor <= self.rxrdy@.len()
        &&& self.rxdat_cursor <= self.rxdat@.len()
    }

    /// A fresh simulated bus with the given scripts.
    pub fn new(txrdy: Vec<bool>, rxrdy: Vec<bool>, rxdat: Vec<u16>) -> (r: SpiBus)
        ensures
            r.txrdy == txrdy,
            r.rxrdy == rxrdy,
            r.rxdat == rxdat,
            r.txrdy_cursor == 0,
            r.rxrdy_cursor == 0,
            r.rxdat_cursor == 0,
            r.sent@ == Seq::<TxFrame>::empty(),
            r.wf(),
    {
        SpiBus {
            txrdy,
            txrdy_cursor: 0,
            rxrdy,
            rxrdy_cursor: 0,
            rxdat,
            rxdat_cursor: 0,
            sent: Vec::new(),
        }
    }

    /// Sample the transmit-ready flag once.
    fn poll_tx(&mut self) -> (r: bool)
        requires
            old(self).wf(),
        ensures
            final(self).wf(),
            r == spec_tx_ready(*old(self)),
            final(self).txrdy_cursor == spec_poll_next(
                old(self).txrdy@,
                old(self).txrdy_cursor as int,
            ),
            final(self).txrdy == old(self).txrdy,
            final(self).rxrdy == old(self).rxrdy,
            final(self).rxrdy_cursor == old(self).rxrdy_cursor,
            final(self).rxdat == old(self).rxdat,
            final(self).rxdat_cursor == old(self).rxdat_cursor,
            final(self).sent == old(self).sent,
    {
        if self.txrdy_cursor < self.txrdy.len() {
            let r = self.txrdy[self.txrdy_cursor];
            self.txrdy_cursor = self.txrdy_cursor + 1;
            r
        } else {
            true
        }
    }

    /// Sample the receive-ready flag once.
    fn poll_rx(&mut self) -> (r: bool)
        requires
            old(self).wf(),
        ensures
            final(self).wf(),
            r == spec_rx_ready(*old(self)),
            final(self).rxrdy_cursor == spec_poll_next(
                old(self).rxrdy@,
                old(self).rxrdy_cursor as int,
            ),
            final(self).txrdy == old(self).txrdy,
            final(self).txrdy_cursor == old(self).txrdy_cursor,
            final(self).rxrdy == old(self).rxrdy,
            final(self).rxdat == old(self).rxdat,
            final(self).rxdat_cursor == old(self).rxdat_cursor,
            final(self).sent == old(self).sent,
    {
        if self.rxrdy_cursor < self.rxrdy.len() {
            let r = self.rxrdy[self.rxrdy_cursor];
            self.rxrdy_cursor = self.rxrdy_cursor + 1;
            r
        } else {
            true
        }
    }

    /// Read the receive register once.
    fn read_rxdat(&mut self) -> (r: u16)
        requires
            old(self).wf(),
        ensures
            final(self).wf(),
            r == spec_rx_raw(*old(self)),
            final(self).rxdat_cursor == spec_rx_next(
                old(self).rxdat@,
                old(self).rxdat_cursor as int,
            ),
            final(self).txrdy == old(self).txrdy,
            final(self).txrdy_cursor == old(self).txrdy_cursor,
            final(self).rxrdy == old(self).rxrdy,
            final(self).rxrdy_cursor == old(self).rxrdy_cursor,
            final(self).rxdat == old(self).rxdat,
            final(self).sent == old(self).sent,
    {
        if self.rxdat_cursor < self.rxdat.len() {
            let r = self.rxdat[self.rxdat_cursor];
            self.rxdat_cursor = self.rxdat_cursor + 1;
            r
        } else {
            0
        }
    }
}

/// The SPI peripheral.
///
/// The type parameters record the operating mode and which signal lines
/// have pins attached; the well-formedness invariant ties the mode marker
/// to the modeled control register, so the register level always matches
/// the type level.
pub struct Spi<MODE, SCLK, MOSI, MISO, SSEL> where
    MODE: Mode,
    SCLK: PinAssignment,
    MOSI: PinAssignment,
    MISO: PinAssignment,
    SSEL: PinAssignment,
 {
    /// The modeled control and divider registers.
    pub regs: SpiRegs,
    /// The mode and pin-assignment markers.
    pub markers: core::marker::PhantomData<(MODE, SCLK, MOSI, MISO, SSEL)>,
}

impl<MODE, SCLK, MOSI, MISO, SSEL> Spi<MODE, SCLK, MOSI, MISO, SSEL> where
    MODE: Mode,
    SCLK: PinAssignment,
    MOSI: PinAssignment,
    MISO: PinAssignment,
    SSEL: PinAssignment,
 {
    /// The instance number is one of the two blocks and the control
    /// register always shows exactly the mode the type says.
    pub open spec fn wf(&self) -> bool {
        &&& self.regs.instance < 2
        &&& self.regs.enabled == MODE::spec_enabled()
        &&& self.regs.master == MODE::spec_master()
    }

    /// The switch-matrix slot of this instance's clock line.
    pub open spec fn spec_sck_slot(&self) -> FunctionSlot {
        if self.regs.instance == 0 {
            FunctionSlot::Spi0Sck
        } else {
            FunctionSlot::Spi1Sck
        }
    }

    /// The switch-matrix slot of this instance's host-out line.
    pub open spec fn spec_mosi_slot(&self) -> FunctionSlot {
        if self.regs.instance == 0 {
            FunctionSlot::Spi0Mosi
        } else {
            FunctionSlot::Spi1Mosi
        }
    }

    /// The switch-matrix slot of this instance's host-in line.
    pub open spec fn spec_miso_slot(&self) -> FunctionSlot {
        if self.regs.instance == 0 {
            FunctionSlot::Spi0Miso
        } else {
            FunctionSlot::Spi1Miso
        }
    }

    /// The switch-matrix slot of this instance's select line.
    pub open spec fn spec_ssel_slot(&self) -> FunctionSlot {
        if self.regs.instance == 0 {
            FunctionSlot::Spi0Ssel
        } else {
            FunctionSlot::Spi1Ssel
        }
    }

    fn sck_slot(&self) -> (s: FunctionSlot)
        ensures
            s == self.spec_sck_slot(),
    {
        if self.regs.instance == 0 {
            FunctionSlot::Spi0Sck
        } else {
            FunctionSlot::Spi1Sck
        }
    }

    fn mosi_slot(&self) -> (s: FunctionSlot)
        ensures
            s == self.spec_mosi_slot(),
    {
        if self.regs.instance == 0 {
            FunctionSlot::Spi0Mosi
        } else {
            FunctionSlot::Spi1Mosi
        }
    }

    fn miso_slot(&self) -> (s: FunctionSlot)
        ensures
            s == self.spec_miso_slot(),
    {
        if self.regs.instance == 0 {
            FunctionSlot::Spi0Miso
        } else {
            FunctionSlot::Spi1Miso
        }
    }

    fn ssel_slot(&self) -> (s: FunctionSlot)
        ensures
            s == self.spec_ssel_slot(),
    {
        if self.regs.instance == 0 {
            FunctionSlot::Spi0Ssel
        } else {
            FunctionSlot::Spi1Ssel
        }
    }
}

/// The control-register bits an activation writes for a configuration.
pub open spec fn spec_cfg_lsbf(cfg: Config) -> bool {
    cfg.bit_order is LSBFirst
}

/// The clock-phase bit an activation writes for a configuration.
pub open spec fn spec_cfg_cpha(cfg: Config) -> bool {
    cfg.phase is CaptureOnSecondTransition
}

/// The clock-polarity bit an activation writes for a configuration.
pub open spec fn spec_cfg_cpol(cfg: Config) -> bool {
    cfg.polarity is IdleHigh
}

impl Spi<Inactive, Unassigned, Unassigned, Unassigned, Unassigned> {
    pub(crate) fn new(instance: u8) -> (r: Spi<
        Inactive,
        Unassigned,
        Unassigned,
        Unassigned,
        Unassigned,
    >)
        requires
            instance < 2,
        ensures
            r.wf(),
            r.regs.instance == instance,
            !r.regs.enabled,
            !r.regs.master,
            !r.regs.lsbf,
            !r.regs.cpha,
            !r.regs.cpol,
            !r.regs.spol,
            r.regs.divval == 0,
    {
        Spi {
            regs: SpiRegs {
                instance,
                enabled: false,
                master: false,
                lsbf: false,
                cpha: false,
                cpol: false,
                spol: false,
                divval: 0,
            },
            markers: core::marker::PhantomData,
        }
    }

    /// Powers the peripheral — clock gate open, reset released — writes
    /// the transfer configuration with host mode enabled, and routes the
    /// clock line to the given pin, consuming its unassigned handle.
    pub fn activate_as_host(
        self,
        syscon: &mut syscon::Handle,
        swm: &mut SwitchMatrix,
        sclk: Pin<Unassigned>,
        cfg: Config,
    ) -> (r: Spi<Host, Assigned, Unassigned, Unassigned, Unassigned>)
        requires
            self.wf(),
            old(swm).wf(),
            old(swm).spec_slot(self.spec_sck_slot()) == SlotState::Free,
            !old(swm).spec_pin_has_output(sclk.spec_number()),
            sclk.wf(),
        ensures
            r.wf(),
            r.regs.instance == self.regs.instance,
            r.regs.lsbf == spec_cfg_lsbf(cfg),
            r.regs.cpha == spec_cfg_cpha(cfg),
            r.regs.cpol == spec_cfg_cpol(cfg),
            r.regs.spol == self.regs.spol,
            r.regs.divval == self.regs.divval,
            final(swm).wf(),
            final(swm).spec_slot(self.spec_sck_slot()) == SlotState::Output(sclk.spec_number()),
            forall|s: FunctionSlot|
                s != self.spec_sck_slot() ==> #[trigger] final(swm).spec_slot(s) == old(
                    swm,
                ).spec_slot(s),
            final(syscon).sysahbclkctrl == old(syscon).sysahbclkctrl | (1u32
                << self.regs.spec_clock_bit()),
            final(syscon).presetctrl == old(syscon).presetctrl | (1u32
                << self.regs.spec_reset_bit()),
            final(syscon).pdruncfg == old(syscon).pdruncfg,
            final(syscon).starterp1 == old(syscon).starterp1,
    {
        let slot = self.sck_slot();
        let mut regs = self.regs;
        syscon.enable_clock(&regs);
        syscon.clear_reset(&regs);
        regs.enabled = true;
        regs.master = true;
        regs.lsbf = matches!(cfg.bit_order, BitOrder::LSBFirst);
        regs.cpha = matches!(cfg.phase, ClockPhase::CaptureOnSecondTransition);
        regs.cpol = matches!(cfg.polarity, ClockPolarity::IdleHigh);
        swm.bind_output(slot, sclk);
        Spi { regs, markers: core::marker::PhantomData }
    }

    /// Powers the peripheral, writes the transfer configuration with
    /// device mode, and routes the clock line to the given pin's input
    /// portion, which stays freely shareable: listening on a clock claims
    /// nothing from the pin.
    pub fn activate_as_device(
        self,
        syscon: &mut syscon::Handle,
        swm: &mut SwitchMatrix,
        sclk: &Pin<DigitalInput>,
        cfg: Config,
    ) -> (r: Spi<Device, Assigned, Unassigned, Unassigned, Unassigned>)
        requires
            self.wf(),
            old(swm).wf(),
            old(swm).spec_slot(self.spec_sck_slot()) == SlotState::Free,
            sclk.wf(),
        ensures
            r.wf(),
            r.regs.instance == self.regs.instance,
            r.regs.lsbf == spec_cfg_lsbf(cfg),
            r.regs.cpha == spec_cfg_cpha(cfg),
            r.regs.cpol == spec_cfg_cpol(cfg),
            r.regs.spol == self.regs.spol,
            r.regs.divval == self.regs.divval,
            final(swm).wf(),
            final(swm).spec_slot(self.spec_sck_slot()) == SlotState::Input(sclk.spec_number()),
            forall|s: FunctionSlot|
                s != self.spec_sck_slot() ==> #[trigger] final(swm).spec_slot(s) == old(
                    swm,
                ).spec_slot(s),
            final(syscon).sysahbclkctrl == old(syscon).sysahbclkctrl | (1u32
                << self.regs.spec_clock_bit()),
            final(syscon).presetctrl == old(syscon).presetctrl | (1u32
                << self.regs.spec_reset_bit()),
            final(syscon).pdruncfg == old(syscon).pdruncfg,
            final(syscon).starterp1 == old(syscon).starterp1,
    {
        let slot = self.sck_slot();
        let mut regs = self.regs;
        syscon.enable_clock(&regs);
        syscon.clear_reset(&regs);
        regs.enabled = true;
        regs.master = false;
        regs.lsbf = matches!(cfg.bit_order, BitOrder::LSBFirst);
        regs.cpha = matches!(cfg.phase, ClockPhase::CaptureOnSecondTransition);
        regs.cpol = matches!(cfg.polarity, ClockPolarity::IdleHigh);
        swm.bind_input(slot, sclk);
        Spi { regs, markers: core::marker::PhantomData }
    }
}

impl<MODE, SCLK, SSEL> Spi<MODE, SCLK, Unassigned, Unassigned, SSEL> where
    MODE: Active,
    SCLK: PinAssignment,
    SSEL: PinAssignment,
 {
    /// Assigns pins to both the host-out and host-in signals at once, a
    /// convenience for attaching one then the other.
    pub fn with_data_pins(
        self,
        swm: &mut SwitchMatrix,
        mosi: Pin<Unassigned>,
        miso: Pin<Unassigned>,
    ) -> (r: Spi<MODE, SCLK, Assigned, Assigned, SSEL>)
        requires
            self.wf(),
            old(swm).wf(),
            old(swm).spec_slot(self.spec_mosi_slot()) == SlotState::Free,
            old(swm).spec_slot(self.spec_miso_slot()) == SlotState::Free,
            !old(swm).spec_pin_has_output(mosi.spec_number()),
            !old(swm).spec_pin_has_output(miso.spec_number()),
            mosi.spec_number() != miso.spec_number(),
            mosi.wf(),
            miso.wf(),
        ensures
            r.wf(),
            r.regs == self.regs,
            final(swm).wf(),
            final(swm).spec_slot(self.spec_mosi_slot()) == SlotState::Output(mosi.spec_number()),
            final(swm).spec_slot(self.spec_miso_slot()) == SlotState::Output(miso.spec_number()),
            forall|s: FunctionSlot|
                s != self.spec_mosi_slot() && s != self.spec_miso_slot() ==> #[trigger] final(swm).spec_slot(s) == old(swm).spec_slot(s),
    {
        let a = self.with_mosi(swm, mosi);
        a.with_miso(swm, miso)
    }
}

impl<MODE, SCLK, MISO, SSEL> Spi<MODE, SCLK, Unassigned, MISO, SSEL> where
    MODE: Active,
    SCLK: PinAssignment,
    MISO: PinAssignment,
    SSEL: PinAssignment,
 {
    /// Assigns an unassigned pin to the host-out signal.
    pub fn with_mosi(self, swm: &mut SwitchMatrix, mosi: Pin<Unassigned>) -> (r: Spi<
        MODE,
        SCLK,
        Assigned,
        MISO,
        SSEL,
    >)
        requires
            self.wf(),
            old(swm).wf(),
            old(swm).spec_slot(self.spec_mosi_slot()) == SlotState::Free,
            !old(swm).spec_pin_has_output(mosi.spec_number()),
            mosi.wf(),
        ensures
            r.wf(),
            r.regs == self.regs,
            final(swm).wf(),
            final(swm).spec_slot(self.spec_mosi_slot()) == SlotState::Output(mosi.spec_number()),
            forall|s: FunctionSlot|
                s != self.spec_mosi_slot() ==> #[trigger] final(swm).spec_slot(s) == old(
                    swm,
                ).spec_slot(s),
    {
        let slot = self.mosi_slot();
        swm.bind_output(slot, mosi);
        Spi { regs: self.regs, markers: core::marker::PhantomData }
    }
}

impl<MODE, SCLK, MOSI, SSEL> Spi<MODE, SCLK, MOSI, Unassigned, SSEL> where
    MODE: Active,
    SCLK: PinAssignment,
    MOSI: PinAssignment,
    SSEL: PinAssignment,
 {
    /// Assigns an unassigned pin to the host-in signal.
    pub fn with_miso(self, swm: &mut SwitchMatrix, miso: Pin<Unassigned>) -> (r: Spi<
        MODE,
        SCLK,
        MOSI,
        Assigned,
        SSEL,
    >)
        requires
            self.wf(),
            old(swm).wf(),
            old(swm).spec_slot(self.spec_miso_slot()) == SlotState::Free,
            !old(swm).spec_pin_has_output(miso.spec_number()),
            miso.wf(),
        ensures
            r.wf(),
            r.regs == self.regs,
            final(swm).wf(),
            final(swm).spec_slot(self.spec_miso_slot()) == SlotState::Output(miso.spec_number()),
            forall|s: FunctionSlot|
                s != self.spec_miso_slot() ==> #[trigger] final(swm).spec_slot(s) == old(
                    swm,
                ).spec_slot(s),
    {
        let slot = self.miso_slot();
        swm.bind_output(slot, miso);
        Spi { regs: self.regs, markers: core::marker::PhantomData }
    }
}

impl<MODE, SCLK, MOSI, MISO> Spi<MODE, SCLK, MOSI, MISO, Unassigned> where
    MODE: Active,
    SCLK: PinAssignment,
    MOSI: PinAssignment,
    MISO: PinAssignment,
 {
    /// Assigns an unassigned pin to the select signal and writes its
    /// polarity.
    pub fn with_ssel(
        self,
        swm: &mut SwitchMatrix,
        ssel: Pin<Unassigned>,
        polarity: Polarity,
    ) -> (r: Spi<MODE, SCLK, MOSI, MISO, Assigned>)
        requires
            self.wf(),
            old(swm).wf(),
            old(swm).spec_slot(self.spec_ssel_slot()) == SlotState::Free,
            !old(swm).spec_pin_has_output(ssel.spec_number()),
            ssel.wf(),
        ensures
            r.wf(),
            r.regs.spol == (polarity is ActiveHigh),
            r.regs.instance == self.regs.instance,
            r.regs.enabled == self.regs.enabled,
            r.regs.master == self.regs.master,
            r.regs.lsbf == self.regs.lsbf,
            r.regs.cpha == self.regs.cpha,
            r.regs.cpol == self.regs.cpol,
            r.regs.divval == self.regs.divval,
            final(swm).wf(),
            final(swm).spec_slot(self.spec_ssel_slot()) == SlotState::Output(ssel.spec_number()),
            forall|s: FunctionSlot|
                s != self.spec_ssel_slot() ==> #[trigger] final(swm).spec_slot(s) == old(
                    swm,
                ).spec_slot(s),
    {
        let slot = self.ssel_slot();
        let mut regs = self.regs;
        regs.spol = matches!(polarity, Polarity::ActiveHigh);
        swm.bind_output(slot, ssel);
        Spi { regs, markers: core::marker::PhantomData }
    }
}

impl<MODE, SCLK, MISO, SSEL> Spi<MODE, SCLK, Assigned, MISO, SSEL> where
    MODE: Active,
    SCLK: PinAssignment,
    MISO: PinAssignment,
    SSEL: PinAssignment,
 {
    /// Detaches the host-out pin, returning it unassigned and ready for
    /// another function.
    pub fn release_mosi(self, swm: &mut SwitchMatrix) -> (r: (
        Spi<MODE, SCLK, Unassigned, MISO, SSEL>,
        Pin<Unassigned>,
    ))
        requires
            self.wf(),
            old(swm).wf(),
            old(swm).spec_slot(self.spec_mosi_slot()) is Output,
        ensures
            r.0.wf(),
            r.0.regs == self.regs,
            Option::Some(r.1.spec_number()) == spec_output_pin(
                old(swm).spec_slot(self.spec_mosi_slot()),
            ),
            r.1.wf(),
            final(swm).wf(),
            final(swm).spec_slot(self.spec_mosi_slot()) == SlotState::Free,
            forall|s: FunctionSlot|
                s != self.spec_mosi_slot() ==> #[trigger] final(swm).spec_slot(s) == old(
                    swm,
                ).spec_slot(s),
    {
        let slot = self.mosi_slot();
        let pin = swm.unbind_output(slot);
        (Spi { regs: self.regs, markers: core::marker::PhantomData }, pin)
    }
}

impl<MODE, SCLK, MOSI, SSEL> Spi<MODE, SCLK, MOSI, Assigned, SSEL> where
    MODE: Active,
    SCLK: PinAssignment,
    MOSI: PinAssignment,
    SSEL: PinAssignment,
 {
    /// Detaches the host-in pin, returning it unassigned and ready for
    /// another function.
    pub fn release_miso(self, swm: &mut SwitchMatrix) -> (r: (
        Spi<MODE, SCLK, MOSI, Unassigned, SSEL>,
        Pin<Unassigned>,
    ))
        requires
            self.wf(),
            old(swm).wf(),
            old(swm).spec_slot(self.spec_miso_slot()) is Output,
        ensures
            r.0.wf(),
            r.0.regs == self.regs,
            Option::Some(r.1.spec_number()) == spec_output_pin(
                old(swm).spec_slot(self.spec_miso_slot()),
            ),
            r.1.wf(),
            final(swm).wf(),
            final(swm).spec_slot(self.spec_miso_slot()) == SlotState::Free,
            forall|s: FunctionSlot|
                s != self.spec_miso_slot() ==> #[trigger] final(swm).spec_slot(s) == old(
                    swm,
                ).spec_slot(s),
    {
        let slot = self.miso_slot();
        let pin = swm.unbind_output(slot);
        (Spi { regs: self.regs, markers: core::marker::PhantomData }, pin)
    }
}

impl<MODE, SCLK, SSEL> Spi<MODE, SCLK, Assigned, Assigned, SSEL> where
    MODE: Active,
    SCLK: PinAssignment,
    SSEL: PinAssignment,
 {
    /// Detaches both data pins at once, returning them unassigned.
    pub fn release_data_pins(self, swm: &mut SwitchMatrix) -> (r: (
        Spi<MODE, SCLK, Unassigned, Unassigned, SSEL>,
        Pin<Unassigned>,
        Pin<Unassigned>,
    ))
        requires
            self.wf(),
            old(swm).wf(),
            old(swm).spec_slot(self.spec_mosi_slot()) is Output,
            old(swm).spec_slot(self.spec_miso_slot()) is Output,
            self.spec_mosi_slot() != self.spec_miso_slot(),
        ensures
            r.0.wf(),
            r.0.regs == self.regs,
            Option::Some(r.1.spec_number()) == spec_output_pin(
                old(swm).spec_slot(self.spec_mosi_slot()),
            ),
            Option::Some(r.2.spec_number()) == spec_output_pin(
                old(swm).spec_slot(self.spec_miso_slot()),
            ),
            r.1.wf(),
            r.2.wf(),
            final(swm).wf(),
            final(swm).spec_slot(self.spec_mosi_slot()) == SlotState::Free,
            final(swm).spec_slot(self.spec_miso_slot()) == SlotState::Free,
            forall|s: FunctionSlot|
                s != self.spec_mosi_slot() && s != self.spec_miso_slot() ==> #[trigger] final(swm).spec_slot(s) == old(swm).spec_slot(s),
    {
        let (a, mosi) = self.release_mosi(swm);
        let (b, miso) = a.release_miso(swm);
        (b, mosi, miso)
    }
}

impl<MODE, SCLK, MOSI, MISO> Spi<MODE, SCLK, MOSI, MISO, Assigned> where
    MODE: Active,
    SCLK: PinAssignment,
    MOSI: PinAssignment,
    MISO: PinAssignment,
 {
    /// Detaches the select pin, returning it unassigned, and resets the
    /// select polarity to active low.
    pub fn release_ssel(self, swm: &mut SwitchMatrix) -> (r: (
        Spi<MODE, SCLK, MOSI, MISO, Unassigned>,
        Pin<Unassigned>,
    ))
        requires
            self.wf(),
            old(swm).wf(),
            old(swm).spec_slot(self.spec_ssel_slot()) is Output,
        ensures
            r.0.wf(),
            !r.0.regs.spol,
            r.0.regs.instance == self.regs.instance,
            r.0.regs.enabled == self.regs.enabled,
            r.0.regs.master == self.regs.master,
            r.0.regs.lsbf == self.regs.lsbf,
            r.0.regs.cpha == self.regs.cpha,
            r.0.regs.cpol == self.regs.cpol,
            r.0.regs.divval == self.regs.divval,
            Option::Some(r.1.spec_number()) == spec_output_pin(
                old(swm).spec_slot(self.spec_ssel_slot()),
            ),
            r.1.wf(),
            final(swm).wf(),
            final(swm).spec_slot(self.spec_ssel_slot()) == SlotState::Free,
            forall|s: FunctionSlot|
                s != self.spec_ssel_slot() ==> #[trigger] final(swm).spec_slot(s) == old(
                    swm,
                ).spec_slot(s),
    {
        let slot = self.ssel_slot();
        let mut regs = self.regs;
        regs.spol = false;
        let pin = swm.unbind_output(slot);
        (Spi { regs, markers: core::marker::PhantomData }, pin)
    }
}

impl<SCLK> Spi<Host, SCLK, Unassigned, Unassigned, Unassigned> where SCLK: PinAssignment {
    /// Deactivates a host-mode bus whose data and select pins have already
    /// been released: the configuration returns to its reset value, the
    /// reset line is asserted, the clock pin comes back as a fresh
    /// unassigned handle, and the clock gate is closed.
    pub fn deactivate(self, syscon: &mut syscon::Handle, swm: &mut SwitchMatrix) -> (r: (
        Spi<Inactive, Unassigned, Unassigned, Unassigned, Unassigned>,
        Pin<Unassigned>,
    ))
        requires
            self.wf(),
            old(swm).wf(),
            old(swm).spec_slot(self.spec_sck_slot()) is Output,
        ensures
            r.0.wf(),
            r.0.regs.instance == self.regs.instance,
            !r.0.regs.enabled,
            !r.0.regs.master,
            !r.0.regs.lsbf,
            !r.0.regs.cpha,
            !r.0.regs.cpol,
            Option::Some(r.1.spec_number()) == spec_output_pin(
                old(swm).spec_slot(self.spec_sck_slot()),
            ),
            r.1.wf(),
            final(swm).wf(),
            final(swm).spec_slot(self.spec_sck_slot()) == SlotState::Free,
            forall|s: FunctionSlot|
                s != self.spec_sck_slot() ==> #[trigger] final(swm).spec_slot(s) == old(
                    swm,
                ).spec_slot(s),
            final(syscon).presetctrl == old(syscon).presetctrl & !(1u32
                << self.regs.spec_reset_bit()),
            final(syscon).sysahbclkctrl == old(syscon).sysahbclkctrl & !(1u32
                << self.regs.spec_clock_bit()),
            final(syscon).pdruncfg == old(syscon).pdruncfg,
            final(syscon).starterp1 == old(syscon).starterp1,
    {
        let slot = self.sck_slot();
        let mut regs = self.regs;
        regs.enabled = false;
        regs.master = false;
        regs.lsbf = false;
        regs.cpha = false;
        regs.cpol = false;
        syscon.assert_reset(&regs);
        let sclk = swm.unbind_output(slot);
        syscon.disable_clock(&regs);
        (Spi { regs, markers: core::marker::PhantomData }, sclk)
    }
}

impl<SCLK> Spi<Device, SCLK, Unassigned, Unassigned, Unassigned> where SCLK: PinAssignment {
    /// Deactivates a device-mode bus whose data and select pins have
    /// already been released. The clock line was only listening, so the
    /// pin comes back as a shareable input handle.
    pub fn deactivate(self, syscon: &mut syscon::Handle, swm: &mut SwitchMatrix) -> (r: (
        Spi<Inactive, Unassigned, Unassigned, Unassigned, Unassigned>,
        Pin<DigitalInput>,
    ))
        requires
            self.wf(),
            old(swm).wf(),
            old(swm).spec_slot(self.spec_sck_slot()) is Input,
        ensures
            r.0.wf(),
            r.0.regs.instance == self.regs.instance,
            !r.0.regs.enabled,
            !r.0.regs.master,
            !r.0.regs.lsbf,
            !r.0.regs.cpha,
            !r.0.regs.cpol,
            old(swm).spec_slot(self.spec_sck_slot()) == SlotState::Input(r.1.spec_number()),
            r.1.wf(),
            final(swm).wf(),
            final(swm).spec_slot(self.spec_sck_slot()) == SlotState::Free,
            forall|s: FunctionSlot|
                s != self.spec_sck_slot() ==> #[trigger] final(swm).spec_slot(s) == old(
                    swm,
                ).spec_slot(s),
            final(syscon).presetctrl == old(syscon).presetctrl & !(1u32
                << self.regs.spec_reset_bit()),
            final(syscon).sysahbclkctrl == old(syscon).sysahbclkctrl & !(1u32
                << self.regs.spec_clock_bit()),
            final(syscon).pdruncfg == old(syscon).pdruncfg,
            final(syscon).starterp1 == old(syscon).starterp1,
    {
        let slot = self.sck_slot();
        let mut regs = self.regs;
        regs.enabled = false;
        regs.master = false;
        regs.lsbf = false;
        regs.cpha = false;
        regs.cpol = false;
        syscon.assert_reset(&regs);
        let sclk = swm.unbind_input(slot);
        syscon.disable_clock(&regs);
        (Spi { regs, markers: core::marker::PhantomData }, sclk)
    }
}

/// A clock divider clamped to the hardware's valid range.
pub open spec fn spec_clamp_divider(div: u32) -> u32 {
    if div < 1 {
        1
    } else if div > 65536 {
        65536
    } else {
        div
    }
}

impl<SCLK, MOSI, MISO, SSEL> Spi<Host, SCLK, MOSI, MISO, SSEL> where
    SCLK: PinAssignment,
    MOSI: PinAssignment,
    MISO: PinAssignment,
    SSEL: PinAssignment,
 {
    /// Configures the clock divider.
    ///
    /// The bus clock is the system clock divided by the given divisor,
    /// which the hardware accepts between 1 and 65536; a divisor outside
    /// that range is clamped to the closest limit. The register holds the
    /// divisor minus one.
    pub fn set_clock_divider(&mut self, div: u32)
        ensures
            final(self).regs.divval == spec_clamp_divider(div) - 1,
            final(self).regs.instance == old(self).regs.instance,
            final(self).regs.enabled == old(self).regs.enabled,
            final(self).regs.master == old(self).regs.master,
            final(self).regs.lsbf == old(self).regs.lsbf,
            final(self).regs.cpha == old(self).regs.cpha,
            final(self).regs.cpol == old(self).regs.cpol,
            final(self).regs.spol == old(self).regs.spol,
    {
        let mut real_div = div;
        if div < 1 {
            real_div = 1;
        } else if div > 65536 {
            real_div = 65536;
        }
        self.regs.divval = (real_div - 1) as u16;
    }

    /// Sends a word of 1 to 16 bits if the transmit register is ready,
    /// writing exactly the word's masked value and its declared length
    /// field; answers [`WouldBlock`] without touching anything when it is
    /// not.
    ///
    /// Chip select is deliberately not managed here: the bus contract
    /// leaves select timing to the caller, driving a digital output pin.
    pub fn try_send(&self, bus: &mut SpiBus, w: &Word) -> (r: Result<(), WouldBlock>)
        requires
            w.wf(),
            old(bus).wf(),
        ensures
            final(bus).wf(),
            final(bus).txrdy == old(bus).txrdy,
            final(bus).rxrdy == old(bus).rxrdy,
            final(bus).rxdat == old(bus).rxdat,
            final(bus).rxrdy_cursor == old(bus).rxrdy_cursor,
            final(bus).rxdat_cursor == old(bus).rxdat_cursor,
            final(bus).txrdy_cursor == spec_poll_next(
                old(bus).txrdy@,
                old(bus).txrdy_cursor as int,
            ),
            r is Ok <==> spec_tx_ready(*old(bus)),
            r is Ok ==> final(bus).sent@ == old(bus).sent@.push(spec_frame_of(*w)),
            r is Err ==> final(bus).sent@ == old(bus).sent@,
    {
        if !bus.poll_tx() {
            return Err(WouldBlock);
        }
        let m = mask_for(w.len);
        bus.sent.push(TxFrame { txdat: w.value_to_transmit() & m, flen: w.len - 1 });
        Ok(())
    }

    /// Reads a received word of the expected bit length if the receive
    /// register is ready, masking the raw register value down to that
    /// length; answers [`WouldBlock`] without touching anything when it is
    /// not.
    ///
    /// Every send must be balanced by one receive to keep the bus state
    /// correct for subsequent transfers.
    pub fn try_receive(&self, bus: &mut SpiBus, len: u8) -> (r: Result<Word, WouldBlock>)
        requires
            MIN_FRAME_BITS <= len <= MAX_FRAME_BITS,
            old(bus).wf(),
        ensures
            final(bus).wf(),
            final(bus).txrdy == old(bus).txrdy,
            final(bus).rxrdy == old(bus).rxrdy,
            final(bus).rxdat == old(bus).rxdat,
            final(bus).txrdy_cursor == old(bus).txrdy_cursor,
            final(bus).sent == old(bus).sent,
            final(bus).rxrdy_cursor == spec_poll_next(
                old(bus).rxrdy@,
                old(bus).rxrdy_cursor as int,
            ),
            r is Ok <==> spec_rx_ready(*old(bus)),
            r is Ok ==> {
                &&& r->Ok_0.len == len
                &&& r->Ok_0.value == spec_rx_raw(*old(bus)) & spec_mask(len)
                &&& r->Ok_0.wf()
                &&& final(bus).rxdat_cursor == spec_rx_next(
                    old(bus).rxdat@,
                    old(bus).rxdat_cursor as int,
                )
            },
            r is Err ==> final(bus).rxdat_cursor == old(bus).rxdat_cursor,
    {
        if !bus.poll_rx() {
            return Err(WouldBlock);
        }
        let raw = bus.read_rxdat();
        Ok(Word::from_received(raw, len))
    }

    /// Blocking full-duplex exchange: spins until the word is accepted for
    /// sending, then spins until the answering word of the same length has
    /// arrived, and returns it.
    pub fn transfer(&self, bus: &mut SpiBus, w: &Word) -> (r: Word)
        requires
            w.wf(),
            old(bus).wf(),
        ensures
            final(bus).wf(),
            final(bus).txrdy == old(bus).txrdy,
            final(bus).rxrdy == old(bus).rxrdy,
            final(bus).rxdat == old(bus).rxdat,
            final(bus).txrdy_cursor == spec_spin_until_ready(
                old(bus).txrdy@,
                old(bus).txrdy_cursor as int,
            ),
            final(bus).rxrdy_cursor == spec_spin_until_ready(
                old(bus).rxrdy@,
                old(bus).rxrdy_cursor as int,
            ),
            final(bus).sent@ == old(bus).sent@.push(spec_frame_of(*w)),
            final(bus).rxdat_cursor == spec_rx_next(old(bus).rxdat@, old(bus).rxdat_cursor as int),
            r.len == w.len,
            r.value == spec_rx_raw(*old(bus)) & spec_mask(w.len),
            r.wf(),
    {
        loop
            invariant_except_break
                bus.sent@ == old(bus).sent@,
                spec_spin_until_ready(bus.txrdy@, bus.txrdy_cursor as int) == spec_spin_until_ready(
                    old(bus).txrdy@,
                    old(bus).txrdy_cursor as int,
                ),
            invariant
                bus.wf(),
                w.wf(),
                bus.txrdy == old(bus).txrdy,
                bus.rxrdy == old(bus).rxrdy,
                bus.rxdat == old(bus).rxdat,
                bus.rxrdy_cursor == old(bus).rxrdy_cursor,
                bus.rxdat_cursor == old(bus).rxdat_cursor,
            ensures
                bus.txrdy_cursor as int == spec_spin_until_ready(
                    old(bus).txrdy@,
                    old(bus).txrdy_cursor as int,
                ),
                bus.sent@ == old(bus).sent@.push(spec_frame_of(*w)),
            decreases bus.txrdy@.len() - bus.txrdy_cursor,
        {
            if self.try_send(bus, w).is_ok() {
                break ;
            }
        }
        loop
            invariant
                bus.wf(),
                w.wf(),
                bus.txrdy == old(bus).txrdy,
                bus.rxrdy == old(bus).rxrdy,
                bus.rxdat == old(bus).rxdat,
                bus.txrdy_cursor as int == spec_spin_until_ready(
                    old(bus).txrdy@,
                    old(bus).txrdy_cursor as int,
                ),
                bus.rxdat_cursor == old(bus).rxdat_cursor,
                bus.sent@ == old(bus).sent@.push(spec_frame_of(*w)),
                spec_spin_until_ready(bus.rxrdy@, bus.rxrdy_cursor as int) == spec_spin_until_ready(
                    old(bus).rxrdy@,
                    old(bus).rxrdy_cursor as int,
                ),
            decreases bus.rxrdy@.len() - bus.rxrdy_cursor,
        {
            match self.try_receive(bus, w.len) {
                Ok(got) => {
                    return got;
                },
                Err(_) => {
                },
            }
        }
    }

    /// Blocking bulk write: each word is exchanged in turn — spinning
    /// until it is accepted, then until its answering word has arrived,
    /// which is discarded — so the transmit register sees exactly the
    /// given frames in order.
    pub fn write_all(&self, bus: &mut SpiBus, words: &Vec<Word>)
        requires
            forall|k: int| 0 <= k < words@.len() ==> (#[trigger] words@[k]).wf(),
            old(bus).wf(),
        ensures
            final(bus).wf(),
            final(bus).txrdy == old(bus).txrdy,
            final(bus).rxrdy == old(bus).rxrdy,
            final(bus).rxdat == old(bus).rxdat,
            final(bus).sent@ == old(bus).sent@ + words@.map_values(|w: Word| spec_frame_of(w)),
    {
        let ghost sent0 = bus.sent@;
        proof {
            assert(bus.sent@ =~= sent0 + words@.take(0).map_values(|w: Word| spec_frame_of(w)));
        }
        let mut i: usize = 0;
        while i < words.len()
            invariant
                i <= words@.len(),
                forall|k: int| 0 <= k < words@.len() ==> (#[trigger] words@[k]).wf(),
                bus.wf(),
                bus.txrdy == old(bus).txrdy,
                bus.rxrdy == old(bus).rxrdy,
                bus.rxdat == old(bus).rxdat,
                sent0 == old(bus).sent@,
                bus.sent@ == sent0 + words@.take(i as int).map_values(
                    |w: Word| spec_frame_of(w),
                ),
            decreases words@.len() - i,
        {
            let w = &words[i];
            let _ = self.transfer(bus, w);
            proof {
                assert(bus.sent@ =~= sent0 + words@.take(i as int + 1).map_values(
                    |w: Word| spec_frame_of(w),
                ));
            }
            i = i + 1;
        }
        proof {
            assert(words@.take(words@.len() as int) =~= words@);
        }
    }
}

} // verus!
