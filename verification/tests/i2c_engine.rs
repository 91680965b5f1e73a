//! The I2C host-mode engine against simulated buses: plans, traces, poll
//! counts, framing, and failure behavior.

use lpc81x_hal::i2c::host::{
    plan_read, plan_write, plan_write_read, BusOp, HostError, PollFlags, SimBus,
};
use lpc81x_hal::swm::FunctionSlot;
use lpc81x_hal::Peripherals;

fn ready() -> PollFlags {
    PollFlags { pending: true, arb_loss: false, start_stop_err: false }
}

fn busy() -> PollFlags {
    PollFlags { pending: false, arb_loss: false, start_stop_err: false }
}

fn arb_loss() -> PollFlags {
    PollFlags { pending: false, arb_loss: true, start_stop_err: false }
}

fn framing_err() -> PollFlags {
    PollFlags { pending: false, arb_loss: false, start_stop_err: true }
}

#[test]
fn write_plan_exact_sequence() {
    let plan = plan_write(0x50, &vec![1, 2]);
    assert_eq!(
        plan,
        vec![
            BusOp::WaitReady,
            BusOp::SetData(0xA0),
            BusOp::Start,
            BusOp::WaitReady,
            BusOp::SetData(1),
            BusOp::Continue,
            BusOp::WaitReady,
            BusOp::SetData(2),
            BusOp::Continue,
            BusOp::Stop,
        ]
    );
}

#[test]
fn read_plan_exact_sequence() {
    let plan = plan_read(0x50, 2);
    assert_eq!(
        plan,
        vec![
            BusOp::WaitReady,
            BusOp::SetData(0xA1),
            BusOp::Start,
            BusOp::WaitReady,
            BusOp::GetData,
            BusOp::WaitReady,
            BusOp::Continue,
            BusOp::WaitReady,
            BusOp::GetData,
            BusOp::Stop,
        ]
    );
}

#[test]
fn combined_plan_is_the_two_halves_with_one_stop() {
    // The combined transaction equals the write plan without its stop,
    // followed verbatim by the read plan: a repeated start between the
    // halves, a single stop at the end.
    let data = vec![9, 8, 7];
    let w = plan_write(0x22, &data);
    let r = plan_read(0x22, 2);
    let wr = plan_write_read(0x22, &data, 2);
    let mut expected = w[..w.len() - 1].to_vec();
    expected.extend(r.iter().cloned());
    assert_eq!(wr, expected);
    let starts = wr.iter().filter(|op| matches!(op, BusOp::Start)).count();
    let stops = wr.iter().filter(|op| matches!(op, BusOp::Stop)).count();
    assert_eq!(starts, 2);
    assert_eq!(stops, 1);
}

type HostI2c = lpc81x_hal::i2c::I2C<
    lpc81x_hal::pins::mode::Assigned,
    lpc81x_hal::pins::mode::Assigned,
    lpc81x_hal::i2c::mode::HostActive,
    lpc81x_hal::i2c::mode::DeviceInactive,
    lpc81x_hal::i2c::mode::MonitorInactive,
>;

fn activated_host() -> HostI2c {
    let mut p = Peripherals::new();
    let mut parts = p.syscon.split();
    p.i2c.activate(&mut parts.handle, &mut p.swm, p.pins.gpio10, p.pins.gpio11).enable_host_mode()
}

#[test]
fn activation_sets_clock_reset_and_matrix() {
    let mut p = Peripherals::new();
    let mut parts = p.syscon.split();
    let clk_before = parts.handle.sysahbclkctrl;
    let _i2c = p.i2c.activate(&mut parts.handle, &mut p.swm, p.pins.gpio10, p.pins.gpio11);
    assert_eq!(parts.handle.sysahbclkctrl, clk_before | (1 << 5));
    assert_ne!(parts.handle.presetctrl & (1 << 6), 0);
    assert_eq!(p.swm.field_value(FunctionSlot::I2cScl), 10);
    assert_eq!(p.swm.field_value(FunctionSlot::I2cSda), 11);
}

#[test]
fn deactivation_returns_the_pins() {
    let mut p = Peripherals::new();
    let mut parts = p.syscon.split();
    let i2c = p.i2c.activate(&mut parts.handle, &mut p.swm, p.pins.gpio10, p.pins.gpio11);
    let (_idle, scl, sda) = i2c.deactivate(&mut parts.handle, &mut p.swm);
    assert_eq!(scl.number(), 10);
    assert_eq!(sda.number(), 11);
    assert_eq!(p.swm.field_value(FunctionSlot::I2cScl), lpc81x_hal::swm::NO_PIN_SELECTED);
    assert_eq!(parts.handle.sysahbclkctrl & (1 << 5), 0);
    assert_eq!(parts.handle.presetctrl & (1 << 6), 0);
}

#[test]
fn write_performs_plan_and_poll_counts() {
    // A bus that answers ready on the second poll of every wait and never
    // fails: a 3-byte write makes exactly 4 ready polls, one start, one
    // stop, and performs exactly its plan's operations.
    let i2c = activated_host();
    let mut script = Vec::new();
    for _ in 0..4 {
        script.push(busy());
        script.push(ready());
    }
    let mut bus = SimBus::new(script, vec![]);
    let data = vec![0x11, 0x22, 0x33];
    assert!(i2c.write(&mut bus, 0x3A, &data).is_ok());
    assert_eq!(bus.performed, plan_write(0x3A, &data));
    let waits = bus.performed.iter().filter(|op| matches!(op, BusOp::WaitReady)).count();
    let starts = bus.performed.iter().filter(|op| matches!(op, BusOp::Start)).count();
    let stops = bus.performed.iter().filter(|op| matches!(op, BusOp::Stop)).count();
    assert_eq!(waits, 4);
    assert_eq!(starts, 1);
    assert_eq!(stops, 1);
}

#[test]
fn write_on_exhausted_script_completes() {
    // Once the status script runs out the bus answers ready ever after.
    let i2c = activated_host();
    let mut bus = SimBus::new(vec![], vec![]);
    assert!(i2c.write(&mut bus, 0x08, &vec![5]).is_ok());
    assert_eq!(bus.performed, plan_write(0x08, &vec![5]));
}

#[test]
fn arbitration_loss_aborts_without_stop() {
    // Arbitration is lost on the third poll of an otherwise successful
    // five-byte write: the engine classifies the failure and the bus never
    // sees a stop condition.
    let i2c = activated_host();
    let script = vec![ready(), ready(), arb_loss()];
    let mut bus = SimBus::new(script, vec![]);
    let data = vec![1, 2, 3, 4, 5];
    let r = i2c.write(&mut bus, 0x3A, &data);
    assert_eq!(r, Err(HostError::ArbitrationLoss));
    assert!(bus.performed.iter().all(|op| !matches!(op, BusOp::Stop)));
    // The address and the first byte had already been sent.
    assert_eq!(
        bus.performed,
        vec![
            BusOp::WaitReady,
            BusOp::SetData(0x74),
            BusOp::Start,
            BusOp::WaitReady,
            BusOp::SetData(1),
            BusOp::Continue,
        ]
    );
}

#[test]
fn framing_error_is_classified() {
    let i2c = activated_host();
    let mut bus = SimBus::new(vec![framing_err()], vec![]);
    let r = i2c.write(&mut bus, 0x01, &vec![]);
    assert_eq!(r, Err(HostError::StartStop));
    assert!(bus.performed.is_empty());
}

#[test]
fn arbitration_checked_before_framing() {
    let i2c = activated_host();
    let both = PollFlags { pending: true, arb_loss: true, start_stop_err: true };
    let mut bus = SimBus::new(vec![both], vec![]);
    assert_eq!(i2c.write(&mut bus, 0x01, &vec![]), Err(HostError::ArbitrationLoss));
}

#[test]
fn read_fills_buffer_from_bus() {
    let i2c = activated_host();
    let mut bus = SimBus::new(vec![], vec![0xAA, 0xBB]);
    let mut buffer = vec![0u8; 2];
    assert!(i2c.read(&mut bus, 0x1C, &mut buffer).is_ok());
    assert_eq!(buffer, vec![0xAA, 0xBB]);
    assert_eq!(bus.performed, plan_read(0x1C, 2));
}

#[test]
fn read_failure_leaves_buffer() {
    let i2c = activated_host();
    let mut bus = SimBus::new(vec![ready(), arb_loss()], vec![0xAA, 0xBB]);
    let mut buffer = vec![9u8, 9u8];
    let r = i2c.read(&mut bus, 0x1C, &mut buffer);
    assert_eq!(r, Err(HostError::ArbitrationLoss));
    assert_eq!(buffer, vec![9, 9]);
    assert!(bus.performed.iter().all(|op| !matches!(op, BusOp::Stop)));
}

#[test]
fn write_read_round_trip() {
    // A register-read style exchange: write one register address, read two
    // bytes back, all in one bus transaction.
    let i2c = activated_host();
    let mut bus = SimBus::new(vec![], vec![0x12, 0x34]);
    let mut buffer = vec![0u8; 2];
    assert!(i2c.write_read(&mut bus, 0x68, &vec![0x0F], &mut buffer).is_ok());
    assert_eq!(buffer, vec![0x12, 0x34]);
    assert_eq!(bus.performed, plan_write_read(0x68, &vec![0x0F], 2));
}

#[test]
fn separate_calls_issue_two_stops() {
    // The same halves as separate transactions: each issues its own stop,
    // where the combined form had a single one.
    let i2c = activated_host();
    let mut bus = SimBus::new(vec![], vec![0x12, 0x34]);
    let mut buffer = vec![0u8; 2];
    assert!(i2c.write(&mut bus, 0x68, &vec![0x0F]).is_ok());
    assert!(i2c.read(&mut bus, 0x68, &mut buffer).is_ok());
    assert_eq!(buffer, vec![0x12, 0x34]);
    let stops = bus.performed.iter().filter(|op| matches!(op, BusOp::Stop)).count();
    let starts = bus.performed.iter().filter(|op| matches!(op, BusOp::Start)).count();
    assert_eq!(stops, 2);
    assert_eq!(starts, 2);
    let mut expected = plan_write(0x68, &vec![0x0F]);
    expected.extend(plan_read(0x68, 2));
    assert_eq!(bus.performed, expected);
}

#[test]
fn empty_transactions_still_frame() {
    // Zero data bytes and a zero-length buffer: each half is just its
    // address framing, and the combined form still uses a repeated start.
    assert_eq!(
        plan_write(0x10, &vec![]),
        vec![BusOp::WaitReady, BusOp::SetData(0x20), BusOp::Start, BusOp::Stop]
    );
    assert_eq!(
        plan_read(0x10, 0),
        vec![BusOp::WaitReady, BusOp::SetData(0x21), BusOp::Start, BusOp::Stop]
    );
    assert_eq!(
        plan_write_read(0x10, &vec![], 0),
        vec![
            BusOp::WaitReady,
            BusOp::SetData(0x20),
            BusOp::Start,
            BusOp::WaitReady,
            BusOp::SetData(0x21),
            BusOp::Start,
            BusOp::Stop,
        ]
    );
    let i2c = activated_host();
    let mut bus = SimBus::new(vec![], vec![]);
    let mut buffer: Vec<u8> = vec![];
    assert!(i2c.read(&mut bus, 0x10, &mut buffer).is_ok());
    assert!(buffer.is_empty());
    assert_eq!(bus.performed, plan_read(0x10, 0));
}

#[test]
fn mode_toggles_update_control_register() {
    let mut p = Peripherals::new();
    let mut parts = p.syscon.split();
    let i2c = p.i2c.activate(&mut parts.handle, &mut p.swm, p.pins.gpio10, p.pins.gpio11);
    let host = i2c.enable_host_mode();
    assert!(host.regs.msten);
    let dev = host.enable_device_mode();
    assert!(dev.regs.msten && dev.regs.slven);
    let mon = dev.enable_monitor_mode();
    assert!(mon.regs.msten && mon.regs.slven && mon.regs.monen);
    let quiet = mon.disable_monitor_mode();
    assert!(!quiet.regs.monen && quiet.regs.slven && quiet.regs.msten);
}
