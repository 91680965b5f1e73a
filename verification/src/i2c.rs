//! Interface to the I2C peripheral.
//!
//! The peripheral starts inactive and unconnected. [`I2C::activate`] powers
//! it and routes its clock and data lines through the switch matrix; the
//! three operating roles — host, device, monitor — are then enabled and
//! disabled independently, each transition consuming the old handle and
//! returning one whose type records the new state, so that an illegal
//! transition is rejected when the program is built. The host-mode
//! transaction engine lives in [`host`]; the transfer methods here plan a
//! transaction and run it against a [`host::SimBus`].

use vstd::prelude::*;

pub mod host;
pub mod mode;

use crate::pins::mode::{Assigned, PinAssignment, Unassigned};
use crate::pins::Pin;
use crate::swm::{spec_output_pin, FunctionSlot, SlotState, SwitchMatrix};
use crate::syscon::{self, ClockControl, ResetControl};
use host::{
    spec_acc0, spec_read_plan, spec_run, spec_write_plan, spec_write_read_plan, HostError, SimBus,
};
use mode::{
    DeviceActive, DeviceInactive, DeviceStatus, HostActive, HostInactive, HostStatus,
    MonitorActive, MonitorInactive, MonitorStatus,
};

verus! {

/// The I2C control-register bits this library drives, modeled as plain
/// data.
pub struct I2cRegs {
    /// Host (master) role enable.
    pub msten: bool,
    /// Device (slave) role enable.
    pub slven: bool,
    /// Monitor role enable.
    pub monen: bool,
}

impl ClockControl for I2cRegs {
    open spec fn spec_clock_bit(&self) -> u32 {
        5
    }

    fn clock_bit(&self) -> u32 {
        5
    }
}

impl ResetControl for I2cRegs {
    open spec fn spec_reset_bit(&self) -> u32 {
        6
    }

    fn reset_bit(&self) -> u32 {
        6
    }
}

/// The I2C peripheral.
///
/// The type parameters record which pins are attached to the clock and
/// data lines and which of the three operating roles are enabled; the
/// well-formedness invariant ties the role markers to the modeled control
/// register, so the register level always matches the type level.
pub struct I2C<SCL, SDA, HS, DS, MS> where
    SCL: PinAssignment,
    SDA: PinAssignment,
    HS: HostStatus,
    DS: DeviceStatus,
    MS: MonitorStatus,
 {
    /// The modeled control-register bits.
    pub regs: I2cRegs,
    /// The pin-assignment and role markers.
    pub markers: core::marker::PhantomData<(SCL, SDA, HS, DS, MS)>,
}

impl<SCL, SDA, HS, DS, MS> I2C<SCL, SDA, HS, DS, MS> where
    SCL: PinAssignment,
    SDA: PinAssignment,
    HS: HostStatus,
    DS: DeviceStatus,
    MS: MonitorStatus,
 {
    /// The control register always shows exactly the roles the type says
    /// are enabled.
    pub open spec fn wf(&self) -> bool {
        &&& self.regs.msten == HS::spec_active()
        &&& self.regs.slven == DS::spec_active()
        &&& self.regs.monen == MS::spec_active()
    }
}

impl<SCL, SDA, HS, DS, MS> I2C<SCL, SDA, HS, DS, MS> where
    SCL: PinAssignment,
    SDA: PinAssignment,
    HS: HostStatus,
    DS: DeviceStatus,
    MS: MonitorStatus,
 {
    /// Surrender the modeled control-register block unchanged: the escape
    /// hatch from the state-machine API.
    pub fn free(self) -> (r: I2cRegs)
        ensures
            r == self.regs,
    {
        self.regs
    }
}

impl I2C<Unassigned, Unassigned, HostInactive, DeviceInactive, MonitorInactive> {
    pub(crate) fn new() -> (r: I2C<
        Unassigned,
        Unassigned,
        HostInactive,
        DeviceInactive,
        MonitorInactive,
    >)
        ensures
            r.wf(),
            !r.regs.msten,
            !r.regs.slven,
            !r.regs.monen,
    {
        I2C {
            regs: I2cRegs { msten: false, slven: false, monen: false },
            markers: core::marker::PhantomData,
        }
    }

    /// Powers the peripheral — clock gate open, reset released — and
    /// routes its clock and data lines to the given pins, consuming their
    /// unassigned handles.
    ///
    /// Only pins 10 and 11 (in either order) provide fully compliant
    /// open-drain behavior, but any pins can be used with caveats.
    pub fn activate(
        self,
        syscon: &mut syscon::Handle,
        swm: &mut SwitchMatrix,
        scl: Pin<Unassigned>,
        sda: Pin<Unassigned>,
    ) -> (r: I2C<Assigned, Assigned, HostInactive, DeviceInactive, MonitorInactive>)
        requires
            self.wf(),
            old(swm).wf(),
            old(swm).spec_slot(FunctionSlot::I2cScl) == SlotState::Free,
            old(swm).spec_slot(FunctionSlot::I2cSda) == SlotState::Free,
            !old(swm).spec_pin_has_output(scl.spec_number()),
            !old(swm).spec_pin_has_output(sda.spec_number()),
            scl.spec_number() != sda.spec_number(),
            scl.wf(),
            sda.wf(),
        ensures
            r.wf(),
            r.regs == self.regs,
            final(swm).wf(),
            final(swm).spec_slot(FunctionSlot::I2cScl) == SlotState::Output(scl.spec_number()),
            final(swm).spec_slot(FunctionSlot::I2cSda) == SlotState::Output(sda.spec_number()),
            forall|s: FunctionSlot|
                s != FunctionSlot::I2cScl && s != FunctionSlot::I2cSda ==> #[trigger] final(swm).spec_slot(s) == old(swm).spec_slot(s),
            final(syscon).sysahbclkctrl == old(syscon).sysahbclkctrl | (1u32 << 5),
            final(syscon).presetctrl == old(syscon).presetctrl | (1u32 << 6),
            final(syscon).pdruncfg == old(syscon).pdruncfg,
            final(syscon).starterp1 == old(syscon).starterp1,
    {
        syscon.enable_clock(&self.regs);
        syscon.clear_reset(&self.regs);
        swm.bind_output(FunctionSlot::I2cScl, scl);
        swm.bind_output(FunctionSlot::I2cSda, sda);
        I2C { regs: self.regs, markers: core::marker::PhantomData }
    }
}

impl<DS, MS> I2C<Assigned, Assigned, HostInactive, DS, MS> where
    DS: DeviceStatus,
    MS: MonitorStatus,
 {
    /// Enables the host role, making the transfer methods available on the
    /// returned handle.
    pub fn enable_host_mode(self) -> (r: I2C<Assigned, Assigned, HostActive, DS, MS>)
        requires
            self.wf(),
        ensures
            r.wf(),
            r.regs.msten,
            r.regs.slven == self.regs.slven,
            r.regs.monen == self.regs.monen,
    {
        let mut regs = self.regs;
        regs.msten = true;
        I2C { regs, markers: core::marker::PhantomData }
    }
}

impl<DS, MS> I2C<Assigned, Assigned, HostActive, DS, MS> where
    DS: DeviceStatus,
    MS: MonitorStatus,
 {
    /// Disables the host role.
    pub fn disable_host_mode(self) -> (r: I2C<Assigned, Assigned, HostInactive, DS, MS>)
        requires
            self.wf(),
        ensures
            r.wf(),
            !r.regs.msten,
            r.regs.slven == self.regs.slven,
            r.regs.monen == self.regs.monen,
    {
        let mut regs = self.regs;
        regs.msten = false;
        I2C { regs, markers: core::marker::PhantomData }
    }

    /// A write transaction: waits for the bus, addresses the device for
    /// writing with a start condition, sends each byte, and issues a stop.
    /// A failure flag seen while waiting aborts the transaction with the
    /// classified error, without a stop.
    pub fn write(&self, bus: &mut SimBus, address: u8, data: &Vec<u8>) -> (r: Result<
        (),
        HostError,
    >)
        requires
            address < 128,
            old(bus).wf(),
        ensures
            final(bus).wf(),
            final(bus).statuses == old(bus).statuses,
            final(bus).rx == old(bus).rx,
            ({
                let out = spec_run(
                    old(bus).statuses@,
                    old(bus).rx@,
                    spec_write_plan(address, data@),
                    0,
                    spec_acc0(*old(bus)),
                );
                &&& final(bus).performed@ == old(bus).performed@ + out.performed
                &&& final(bus).status_cursor == out.sc
                &&& final(bus).rx_cursor == out.rc
                &&& (out.err is None <==> r is Ok)
                &&& (r is Err ==> Option::Some(r->Err_0) == out.err)
            }),
    {
        let ops = host::plan_write(address, data);
        match bus.run(&ops) {
            Ok(_) => Ok(()),
            Err(e) => Err(e),
        }
    }

    /// A read transaction: waits for the bus, addresses the device for
    /// reading with a start condition, reads one byte per slot in
    /// `buffer` — telling the engine to continue before every byte after
    /// the first — and issues a stop. On success the buffer holds the
    /// received bytes; on a failure it is left unchanged.
    pub fn read(&self, bus: &mut SimBus, address: u8, buffer: &mut Vec<u8>) -> (r: Result<
        (),
        HostError,
    >)
        requires
            address < 128,
            old(bus).wf(),
        ensures
            final(bus).wf(),
            final(bus).statuses == old(bus).statuses,
            final(bus).rx == old(bus).rx,
            ({
                let out = spec_run(
                    old(bus).statuses@,
                    old(bus).rx@,
                    spec_read_plan(address, old(buffer)@.len() as int),
                    0,
                    spec_acc0(*old(bus)),
                );
                &&& final(bus).performed@ == old(bus).performed@ + out.performed
                &&& final(bus).status_cursor == out.sc
                &&& final(bus).rx_cursor == out.rc
                &&& (out.err is None <==> r is Ok)
                &&& (r is Ok ==> final(buffer)@ == out.got && final(buffer)@.len() == old(
                    buffer,
                )@.len())
                &&& (r is Err ==> Option::Some(r->Err_0) == out.err && final(buffer)@ == old(
                    buffer,
                )@)
            }),
    {
        let n = buffer.len();
        let ops = host::plan_read(address, n);
        match bus.run(&ops) {
            Ok(v) => {
                proof {
                    host::lemma_run_success_trace(
                        old(bus).statuses@,
                        old(bus).rx@,
                        spec_read_plan(address, n as int),
                        0,
                        spec_acc0(*old(bus)),
                    );
                    assert(spec_read_plan(address, n as int).skip(0) =~= spec_read_plan(
                        address,
                        n as int,
                    ));
                    host::lemma_read_plan_shape(address, n as int);
                }
                *buffer = v;
                Ok(())
            },
            Err(e) => Err(e),
        }
    }

    /// A write transaction immediately followed, without releasing the
    /// bus, by a read transaction: the read half is opened with a repeated
    /// start instead of a stop and start, and the single stop comes at the
    /// very end. Used for register-read style devices.
    pub fn write_read(&self, bus: &mut SimBus, address: u8, data: &Vec<u8>, buffer: &mut Vec<u8>)
        -> (r: Result<(), HostError>)
        requires
            address < 128,
            old(bus).wf(),
        ensures
            final(bus).wf(),
            final(bus).statuses == old(bus).statuses,
            final(bus).rx == old(bus).rx,
            ({
                let out = spec_run(
                    old(bus).statuses@,
                    old(bus).rx@,
                    spec_write_read_plan(address, data@, old(buffer)@.len() as int),
                    0,
                    spec_acc0(*old(bus)),
                );
                &&& final(bus).performed@ == old(bus).performed@ + out.performed
                &&& final(bus).status_cursor == out.sc
                &&& final(bus).rx_cursor == out.rc
                &&& (out.err is None <==> r is Ok)
                &&& (r is Ok ==> final(buffer)@ == out.got && final(buffer)@.len() == old(
                    buffer,
                )@.len())
                &&& (r is Err ==> Option::Some(r->Err_0) == out.err && final(buffer)@ == old(
                    buffer,
                )@)
            }),
    {
        let n = buffer.len();
        let ops = host::plan_write_read(address, data, n);
        match bus.run(&ops) {
            Ok(v) => {
                proof {
                    host::lemma_run_success_trace(
                        old(bus).statuses@,
                        old(bus).rx@,
                        spec_write_read_plan(address, data@, n as int),
                        0,
                        spec_acc0(*old(bus)),
                    );
                    assert(spec_write_read_plan(address, data@, n as int).skip(0)
                        =~= spec_write_read_plan(address, data@, n as int));
                    host::lemma_write_read_plan_shape(address, data@, n as int);
                }
                *buffer = v;
                Ok(())
            },
            Err(e) => Err(e),
        }
    }
}

impl<HS, MS> I2C<Assigned, Assigned, HS, DeviceInactive, MS> where
    HS: HostStatus,
    MS: MonitorStatus,
 {
    /// Enables the device role.
    pub fn enable_device_mode(self) -> (r: I2C<Assigned, Assigned, HS, DeviceActive, MS>)
        requires
            self.wf(),
        ensures
            r.wf(),
            r.regs.slven,
            r.regs.msten == self.regs.msten,
            r.regs.monen == self.regs.monen,
    {
        let mut regs = self.regs;
        regs.slven = true;
        I2C { regs, markers: core::marker::PhantomData }
    }
}

impl<HS, MS> I2C<Assigned, Assigned, HS, DeviceActive, MS> where
    HS: HostStatus,
    MS: MonitorStatus,
 {
    /// Disables the device role.
    pub fn disable_device_mode(self) -> (r: I2C<Assigned, Assigned, HS, DeviceInactive, MS>)
        requires
            self.wf(),
        ensures
            r.wf(),
            !r.regs.slven,
            r.regs.msten == self.regs.msten,
            r.regs.monen == self.regs.monen,
    {
        let mut regs = self.regs;
        regs.slven = false;
        I2C { regs, markers: core::marker::PhantomData }
    }
}

impl<HS, DS> I2C<Assigned, Assigned, HS, DS, MonitorInactive> where
    HS: HostStatus,
    DS: DeviceStatus,
 {
    /// Enables the monitor role.
    pub fn enable_monitor_mode(self) -> (r: I2C<Assigned, Assigned, HS, DS, MonitorActive>)
        requires
            self.wf(),
        ensures
            r.wf(),
            r.regs.monen,
            r.regs.msten == self.regs.msten,
            r.regs.slven == self.regs.slven,
    {
        let mut regs = self.regs;
        regs.monen = true;
        I2C { regs, markers: core::marker::PhantomData }
    }
}

impl<HS, DS> I2C<Assigned, Assigned, HS, DS, MonitorActive> where
    HS: HostStatus,
    DS: DeviceStatus,
 {
    /// Disables the monitor role.
    pub fn disable_monitor_mode(self) -> (r: I2C<Assigned, Assigned, HS, DS, MonitorInactive>)
        requires
            self.wf(),
        ensures
            r.wf(),
            !r.regs.monen,
            r.regs.msten == self.regs.msten,
            r.regs.slven == self.regs.slven,
    {
        let mut regs = self.regs;
        regs.monen = false;
        I2C { regs, markers: core::marker::PhantomData }
    }
}

impl<HS, DS, MS> I2C<Assigned, Assigned, HS, DS, MS> where
    HS: HostStatus,
    DS: DeviceStatus,
    MS: MonitorStatus,
 {
    /// Deactivates the peripheral whatever roles are enabled: the control
    /// register returns to its reset value, the reset line is asserted,
    /// the clock and data lines are disconnected — their pins come back as
    /// fresh unassigned handles — and the clock gate is closed.
    pub fn deactivate(self, syscon: &mut syscon::Handle, swm: &mut SwitchMatrix) -> (r: (
        I2C<Unassigned, Unassigned, HostInactive, DeviceInactive, MonitorInactive>,
        Pin<Unassigned>,
        Pin<Unassigned>,
    ))
        requires
            old(swm).wf(),
            old(swm).spec_slot(FunctionSlot::I2cScl) is Output,
            old(swm).spec_slot(FunctionSlot::I2cSda) is Output,
        ensures
            r.0.wf(),
            !r.0.regs.msten,
            !r.0.regs.slven,
            !r.0.regs.monen,
            Option::Some(r.1.spec_number()) == spec_output_pin(
                old(swm).spec_slot(FunctionSlot::I2cScl),
            ),
            Option::Some(r.2.spec_number()) == spec_output_pin(
                old(swm).spec_slot(FunctionSlot::I2cSda),
            ),
            r.1.wf(),
            r.2.wf(),
            final(swm).wf(),
            final(swm).spec_slot(FunctionSlot::I2cScl) == SlotState::Free,
            final(swm).spec_slot(FunctionSlot::I2cSda) == SlotState::Free,
            forall|s: FunctionSlot|
                s != FunctionSlot::I2cScl && s != FunctionSlot::I2cSda ==> #[trigger] final(swm).spec_slot(s) == old(swm).spec_slot(s),
            final(syscon).presetctrl == old(syscon).presetctrl & !(1u32 << 6),
            final(syscon).sysahbclkctrl == old(syscon).sysahbclkctrl & !(1u32 << 5),
            final(syscon).pdruncfg == old(syscon).pdruncfg,
            final(syscon).starterp1 == old(syscon).starterp1,
    {
        let mut regs = self.regs;
        regs.msten = false;
        regs.slven = false;
        regs.monen = false;
        syscon.assert_reset(&regs);
        let scl = swm.unbind_output(FunctionSlot::I2cScl);
        let sda = swm.unbind_output(FunctionSlot::I2cSda);
        syscon.disable_clock(&regs);
        (I2C { regs, markers: core::marker::PhantomData }, scl, sda)
    }
}

} // verus!
