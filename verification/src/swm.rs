//! The switch matrix: the multiplexer that connects movable peripheral
//! functions to physical pins.
//!
//! Each movable function has one field in the assignment registers, holding
//! either the number of the pin it is routed to or a sentinel meaning no
//! pin is selected. The hardware's one real constraint is that each pin may
//! drive at most one output function at a time; inputs are unrestricted.
//! [`SwitchMatrix`] models the assignment fields as plain data and keeps
//! that constraint as an invariant: binding an output function consumes the
//! pin's unassigned handle and requires that no output function already
//! drives the pin, and unbinding returns a fresh handle for the same pin.

use vstd::prelude::*;

use crate::pins::mode::Unassigned;
use crate::pins::{Pin, PIN_COUNT};
use crate::syscon::ClockControl;

verus! {

/// Value of an assignment field when no pin is selected.
pub const NO_PIN_SELECTED: u8 = 0xff;

/// The movable function slots of the switch matrix that this library
/// drives, one per assignment-register field.
#[derive(Clone, Copy, PartialEq, Eq, Structural)]
pub enum FunctionSlot {
    I2cSda,
    I2cScl,
    Spi0Sck,
    Spi0Mosi,
    Spi0Miso,
    Spi0Ssel,
    Spi1Sck,
    Spi1Mosi,
    Spi1Miso,
    Spi1Ssel,
}

/// How one assignment field is currently used.
///
/// `Output` means the function drives the pin and holds its exclusive
/// handle; `Input` means the function only listens on the pin, which
/// remains shareable.
#[derive(Clone, Copy, PartialEq, Eq, Structural)]
pub enum SlotState {
    Free,
    Output(u8),
    Input(u8),
}

/// The pin an assignment field would show: the bound pin's number, or the
/// sentinel when the slot is free.
pub open spec fn spec_mux_field(s: SlotState) -> u8 {
    match s {
        SlotState::Free => NO_PIN_SELECTED,
        SlotState::Output(p) => p,
        SlotState::Input(p) => p,
    }
}

/// The pin number a slot holds exclusively, if any.
pub open spec fn spec_output_pin(s: SlotState) -> Option<u8> {
    match s {
        SlotState::Output(p) => Some(p),
        _ => None,
    }
}

/// Whether a slot's bound pin, if any, identifies a physical pin.
pub open spec fn spec_slot_valid(s: SlotState) -> bool {
    match s {
        SlotState::Free => true,
        SlotState::Output(p) => p < PIN_COUNT,
        SlotState::Input(p) => p < PIN_COUNT,
    }
}

/// The switch matrix assignment fields, modeled as plain data.
pub struct SwitchMatrix {
    i2c_sda: SlotState,
    i2c_scl: SlotState,
    spi0_sck: SlotState,
    spi0_mosi: SlotState,
    spi0_miso: SlotState,
    spi0_ssel: SlotState,
    spi1_sck: SlotState,
    spi1_mosi: SlotState,
    spi1_miso: SlotState,
    spi1_ssel: SlotState,
}

impl SwitchMatrix {
    /// The current state of one assignment field.
    pub closed spec fn spec_slot(&self, slot: FunctionSlot) -> SlotState {
        match slot {
            FunctionSlot::I2cSda => self.i2c_sda,
            FunctionSlot::I2cScl => self.i2c_scl,
            FunctionSlot::Spi0Sck => self.spi0_sck,
            FunctionSlot::Spi0Mosi => self.spi0_mosi,
            FunctionSlot::Spi0Miso => self.spi0_miso,
            FunctionSlot::Spi0Ssel => self.spi0_ssel,
            FunctionSlot::Spi1Sck => self.spi1_sck,
            FunctionSlot::Spi1Mosi => self.spi1_mosi,
            FunctionSlot::Spi1Miso => self.spi1_miso,
            FunctionSlot::Spi1Ssel => self.spi1_ssel,
        }
    }

    /// Whether some output function currently drives the given pin.
    pub open spec fn spec_pin_has_output(&self, pin: u8) -> bool {
        exists|s: FunctionSlot| spec_output_pin(#[trigger] self.spec_slot(s)) == Some(pin)
    }

    /// The matrix invariant: every bound pin is a physical pin, and no two
    /// output slots drive the same pin.
    pub open spec fn wf(&self) -> bool {
        &&& forall|s: FunctionSlot| spec_slot_valid(#[trigger] self.spec_slot(s))
        &&& forall|s1: FunctionSlot, s2: FunctionSlot|
            s1 != s2 && spec_output_pin(#[trigger] self.spec_slot(s1)) is Some ==> spec_output_pin(
                self.spec_slot(s1),
            ) != spec_output_pin(#[trigger] self.spec_slot(s2))
    }

    /// All assignment fields hold the no-pin sentinel.
    pub open spec fn spec_all_free(&self) -> bool {
        forall|s: FunctionSlot| #[trigger] self.spec_slot(s) == SlotState::Free
    }

    pub(crate) fn new() -> (r: SwitchMatrix)
        ensures
            r.spec_all_free(),
            r.wf(),
    {
        SwitchMatrix {
            i2c_sda: SlotState::Free,
            i2c_scl: SlotState::Free,
            spi0_sck: SlotState::Free,
            spi0_mosi: SlotState::Free,
            spi0_miso: SlotState::Free,
            spi0_ssel: SlotState::Free,
            spi1_sck: SlotState::Free,
            spi1_mosi: SlotState::Free,
            spi1_miso: SlotState::Free,
            spi1_ssel: SlotState::Free,
        }
    }

    fn set_slot(&mut self, slot: FunctionSlot, v: SlotState)
        ensures
            final(self).spec_slot(slot) == v,
            forall|s: FunctionSlot|
                s != slot ==> #[trigger] final(self).spec_slot(s) == old(self).spec_slot(s),
    {
        match slot {
            FunctionSlot::I2cSda => self.i2c_sda = v,
            FunctionSlot::I2cScl => self.i2c_scl = v,
            FunctionSlot::Spi0Sck => self.spi0_sck = v,
            FunctionSlot::Spi0Mosi => self.spi0_mosi = v,
            FunctionSlot::Spi0Miso => self.spi0_miso = v,
            FunctionSlot::Spi0Ssel => self.spi0_ssel = v,
            FunctionSlot::Spi1Sck => self.spi1_sck = v,
            FunctionSlot::Spi1Mosi => self.spi1_mosi = v,
            FunctionSlot::Spi1Miso => self.spi1_miso = v,
            FunctionSlot::Spi1Ssel => self.spi1_ssel = v,
        }
    }

    /// The value an assignment field currently shows: the bound pin's
    /// number, or the no-pin sentinel.
    pub fn field_value(&self, slot: FunctionSlot) -> (r: u8)
        ensures
            r == spec_mux_field(self.spec_slot(slot)),
    {
        let s = match slot {
            FunctionSlot::I2cSda => self.i2c_sda,
            FunctionSlot::I2cScl => self.i2c_scl,
            FunctionSlot::Spi0Sck => self.spi0_sck,
            FunctionSlot::Spi0Mosi => self.spi0_mosi,
            FunctionSlot::Spi0Miso => self.spi0_miso,
            FunctionSlot::Spi0Ssel => self.spi0_ssel,
            FunctionSlot::Spi1Sck => self.spi1_sck,
            FunctionSlot::Spi1Mosi => self.spi1_mosi,
            FunctionSlot::Spi1Miso => self.spi1_miso,
            FunctionSlot::Spi1Ssel => self.spi1_ssel,
        };
        match s {
            SlotState::Free => NO_PIN_SELECTED,
            SlotState::Output(p) => p,
            SlotState::Input(p) => p,
        }
    }

    /// Route an output function to a pin, writing the pin's number into the
    /// function's assignment field.
    ///
    /// Consumes the pin's unassigned handle; the matrix holds it until
    /// [`SwitchMatrix::unbind_output`] returns a fresh handle for the same
    /// pin. The caller must show that no output function already drives the
    /// pin, which keeps the one-output-per-pin invariant.
    pub fn bind_output(&mut self, slot: FunctionSlot, pin: Pin<Unassigned>)
        requires
            old(self).wf(),
            old(self).spec_slot(slot) == SlotState::Free,
            !old(self).spec_pin_has_output(pin.spec_number()),
            pin.wf(),
        ensures
            final(self).wf(),
            final(self).spec_slot(slot) == SlotState::Output(pin.spec_number()),
            final(self).spec_slot(slot) == spec_apply_slot_op(
                old(self).spec_slot(slot),
                SlotOp::BindOutput(pin.spec_number()),
            ),
            forall|s: FunctionSlot|
                s != slot ==> #[trigger] final(self).spec_slot(s) == old(self).spec_slot(s),
    {
        let n = pin.number();
        self.set_slot(slot, SlotState::Output(n));
    }

    /// Route an input function to a pin, writing the pin's number into the
    /// function's assignment field.
    ///
    /// Listening claims nothing from the pin, so this takes only the
    /// shareable input handle and the pin stays available for an output
    /// function.
    pub fn bind_input(&mut self, slot: FunctionSlot, pin: &Pin<crate::pins::mode::DigitalInput>)
        requires
            old(self).wf(),
            old(self).spec_slot(slot) == SlotState::Free,
            pin.wf(),
        ensures
            final(self).wf(),
            final(self).spec_slot(slot) == SlotState::Input(pin.spec_number()),
            final(self).spec_slot(slot) == spec_apply_slot_op(
                old(self).spec_slot(slot),
                SlotOp::BindInput(pin.spec_number()),
            ),
            forall|s: FunctionSlot|
                s != slot ==> #[trigger] final(self).spec_slot(s) == old(self).spec_slot(s),
    {
        let n = pin.number();
        self.set_slot(slot, SlotState::Input(n));
    }

    /// Disconnect an output function, writing the no-pin sentinel into its
    /// assignment field, and return a fresh unassigned handle for the pin
    /// it was routed to.
    pub fn unbind_output(&mut self, slot: FunctionSlot) -> (pin: Pin<Unassigned>)
        requires
            old(self).wf(),
            old(self).spec_slot(slot) is Output,
        ensures
            final(self).wf(),
            final(self).spec_slot(slot) == SlotState::Free,
            final(self).spec_slot(slot) == spec_apply_slot_op(
                old(self).spec_slot(slot),
                SlotOp::Unbind,
            ),
            forall|s: FunctionSlot|
                s != slot ==> #[trigger] final(self).spec_slot(s) == old(self).spec_slot(s),
            Some(pin.spec_number()) == spec_output_pin(old(self).spec_slot(slot)),
            pin.wf(),
            !final(self).spec_pin_has_output(pin.spec_number()),
    {
        let n: u8 = self.field_value(slot);
        assert(spec_slot_valid(self.spec_slot(slot)));
        self.set_slot(slot, SlotState::Free);
        Pin::new(n)
    }

    /// Disconnect an input function, writing the no-pin sentinel into its
    /// assignment field, and return a shareable input handle for the pin
    /// it was listening on.
    pub fn unbind_input(&mut self, slot: FunctionSlot) -> (pin: Pin<
        crate::pins::mode::DigitalInput,
    >)
        requires
            old(self).wf(),
            old(self).spec_slot(slot) is Input,
        ensures
            final(self).wf(),
            final(self).spec_slot(slot) == SlotState::Free,
            final(self).spec_slot(slot) == spec_apply_slot_op(
                old(self).spec_slot(slot),
                SlotOp::Unbind,
            ),
            forall|s: FunctionSlot|
                s != slot ==> #[trigger] final(self).spec_slot(s) == old(self).spec_slot(s),
            old(self).spec_slot(slot) == SlotState::Input(pin.spec_number()),
            pin.wf(),
    {
        let n: u8 = self.field_value(slot);
        assert(spec_slot_valid(self.spec_slot(slot)));
        self.set_slot(slot, SlotState::Free);
        Pin::new(n)
    }
}

impl ClockControl for SwitchMatrix {
    open spec fn spec_clock_bit(&self) -> u32 {
        7
    }

    fn clock_bit(&self) -> u32 {
        7
    }
}

/// In a well-formed switch matrix, each pin drives at most one output
/// function: two different slots never hold the same pin exclusively.
/// Binding preserves this because it consumes the pin's one movable handle
/// and requires the pin to be free of outputs, so the constraint can never
/// be violated by verified code.
pub proof fn lemma_one_output_function_per_pin(m: SwitchMatrix, s1: FunctionSlot, s2: FunctionSlot)
    requires
        m.wf(),
        s1 != s2,
        spec_output_pin(m.spec_slot(s1)) is Some,
    ensures
        spec_output_pin(m.spec_slot(s1)) != spec_output_pin(m.spec_slot(s2)),
{
}

/// One bind or unbind operation on a single function slot.
pub enum SlotOp {
    BindOutput(u8),
    BindInput(u8),
    Unbind,
}

/// The slot state after one operation.
pub open spec fn spec_apply_slot_op(s: SlotState, op: SlotOp) -> SlotState {
    match op {
        SlotOp::BindOutput(p) => SlotState::Output(p),
        SlotOp::BindInput(p) => SlotState::Input(p),
        SlotOp::Unbind => SlotState::Free,
    }
}

/// The slot state after a sequence of operations, applied in order.
pub open spec fn spec_apply_slot_ops(init: SlotState, ops: Seq<SlotOp>) -> SlotState
    decreases ops.len(),
{
    if ops.len() == 0 {
        init
    } else {
        spec_apply_slot_op(spec_apply_slot_ops(init, ops.drop_last()), ops.last())
    }
}

/// After any sequence of bind and unbind operations on a function slot,
/// the assignment field shows the pin of the most recent bind not yet
/// followed by an unbind, or the no-pin sentinel if the most recent
/// operation was an unbind.
pub proof fn lemma_mux_field_tracks_latest_bind(init: SlotState, ops: Seq<SlotOp>)
    requires
        ops.len() > 0,
    ensures
        spec_mux_field(spec_apply_slot_ops(init, ops)) == match ops.last() {
            SlotOp::BindOutput(p) => p,
            SlotOp::BindInput(p) => p,
            SlotOp::Unbind => NO_PIN_SELECTED,
        },
{
}

} // verus!
