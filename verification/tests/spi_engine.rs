//! The SPI word engine against simulated buses: frame construction, the
//! non-blocking primitives, the blocking wrappers, and the clock divider.

use lpc81x_hal::spi::cfg::{BitOrder, ClockPhase, ClockPolarity, Config, Polarity};
use lpc81x_hal::spi::word::Word;
use lpc81x_hal::spi::{SpiBus, TxFrame};
use lpc81x_hal::swm::{FunctionSlot, NO_PIN_SELECTED};
use lpc81x_hal::Peripherals;

fn mode0_msb() -> Config {
    Config {
        polarity: ClockPolarity::IdleLow,
        phase: ClockPhase::CaptureOnFirstTransition,
        bit_order: BitOrder::MSBFirst,
    }
}

type HostSpi0 = lpc81x_hal::spi::Spi<
    lpc81x_hal::spi::mode::Host,
    lpc81x_hal::pins::mode::Assigned,
    lpc81x_hal::pins::mode::Unassigned,
    lpc81x_hal::pins::mode::Unassigned,
    lpc81x_hal::pins::mode::Unassigned,
>;

fn activated_host() -> HostSpi0 {
    let mut p = Peripherals::new();
    let mut parts = p.syscon.split();
    p.spi0.activate_as_host(&mut parts.handle, &mut p.swm, p.pins.gpio12, mode0_msb())
}

#[test]
fn word_construction_rejects_oversized_values() {
    // For every declared length, the smallest value with a bit outside the
    // length is rejected and the largest value within it is accepted.
    for len in 1u8..=16 {
        let limit: u32 = 1u32 << len;
        if len < 16 {
            assert!(Word::new(limit as u16, len).is_none());
        }
        let max_ok = (limit - 1) as u16;
        let w = Word::new(max_ok, len).unwrap();
        assert_eq!(w.value, max_ok);
        assert_eq!(w.len, len);
    }
    assert!(Word::new(0, 0).is_none());
    assert!(Word::new(0, 17).is_none());
    assert!(Word::new(0b100, 2).is_none());
    assert!(Word::new(0b011, 2).is_some());
}

#[test]
fn received_values_are_masked() {
    let w = Word::from_received(0xFFFF, 5);
    assert_eq!(w.value, 0x1F);
    assert_eq!(w.len, 5);
    let w8 = Word::from_received(0x1234, 8);
    assert_eq!(w8.value, 0x34);
}

#[test]
fn try_send_would_block_when_not_ready() {
    let spi = activated_host();
    let mut bus = SpiBus::new(vec![false], vec![], vec![]);
    let w = Word::new(0x2A, 6).unwrap();
    assert!(spi.try_send(&mut bus, &w).is_err());
    assert!(bus.sent.is_empty());
}

#[test]
fn try_send_writes_value_and_length_field() {
    let spi = activated_host();
    let mut bus = SpiBus::new(vec![true], vec![], vec![]);
    let w = Word::new(0x2A, 6).unwrap();
    assert!(spi.try_send(&mut bus, &w).is_ok());
    assert_eq!(bus.sent, vec![TxFrame { txdat: 0x2A, flen: 5 }]);
}

#[test]
fn try_receive_would_block_when_not_ready() {
    let spi = activated_host();
    let mut bus = SpiBus::new(vec![], vec![false], vec![0x0123]);
    assert!(spi.try_receive(&mut bus, 9).is_err());
}

#[test]
fn try_receive_masks_to_expected_length() {
    let spi = activated_host();
    let mut bus = SpiBus::new(vec![], vec![true], vec![0xFFFF]);
    let w = spi.try_receive(&mut bus, 9).unwrap();
    assert_eq!(w.value, 0x01FF);
    assert_eq!(w.len, 9);
}

#[test]
fn transfer_spins_until_both_sides_ready() {
    let spi = activated_host();
    let mut bus = SpiBus::new(vec![false, false, true], vec![false, true], vec![0x0123]);
    let w = Word::new(0x1FF, 9).unwrap();
    let got = spi.transfer(&mut bus, &w);
    assert_eq!(got.value, 0x0123);
    assert_eq!(got.len, 9);
    assert_eq!(bus.sent, vec![TxFrame { txdat: 0x1FF, flen: 8 }]);
    assert_eq!(bus.txrdy_cursor, 3);
    assert_eq!(bus.rxrdy_cursor, 2);
}

#[test]
fn write_all_sends_every_frame_in_order() {
    let spi = activated_host();
    let mut bus = SpiBus::new(vec![], vec![], vec![]);
    let words = vec![
        Word::new(0x01, 8).unwrap(),
        Word::new(0x02, 8).unwrap(),
        Word::new(0x03, 8).unwrap(),
    ];
    spi.write_all(&mut bus, &words);
    assert_eq!(
        bus.sent,
        vec![
            TxFrame { txdat: 1, flen: 7 },
            TxFrame { txdat: 2, flen: 7 },
            TxFrame { txdat: 3, flen: 7 },
        ]
    );
}

#[test]
fn clock_divider_is_clamped() {
    let mut spi = activated_host();
    spi.set_clock_divider(0);
    assert_eq!(spi.regs.divval, 0);
    spi.set_clock_divider(100000);
    assert_eq!(spi.regs.divval, 65535);
    spi.set_clock_divider(65536);
    assert_eq!(spi.regs.divval, 65535);
    spi.set_clock_divider(1);
    assert_eq!(spi.regs.divval, 0);
    spi.set_clock_divider(12);
    assert_eq!(spi.regs.divval, 11);
}

#[test]
fn host_activation_configures_and_routes() {
    let mut p = Peripherals::new();
    let mut parts = p.syscon.split();
    let clk_before = parts.handle.sysahbclkctrl;
    let spi = p.spi0.activate_as_host(
        &mut parts.handle,
        &mut p.swm,
        p.pins.gpio12,
        Config {
            polarity: ClockPolarity::IdleHigh,
            phase: ClockPhase::CaptureOnSecondTransition,
            bit_order: BitOrder::LSBFirst,
        },
    );
    assert_eq!(parts.handle.sysahbclkctrl, clk_before | (1 << 11));
    assert_ne!(parts.handle.presetctrl & (1 << 0), 0);
    assert_eq!(p.swm.field_value(FunctionSlot::Spi0Sck), 12);
    assert!(spi.regs.enabled && spi.regs.master);
    assert!(spi.regs.lsbf && spi.regs.cpha && spi.regs.cpol);
}

#[test]
fn second_instance_uses_its_own_bits_and_slots() {
    let mut p = Peripherals::new();
    let mut parts = p.syscon.split();
    let clk_before = parts.handle.sysahbclkctrl;
    let spi = p.spi1.activate_as_host(&mut parts.handle, &mut p.swm, p.pins.gpio7, mode0_msb());
    assert_eq!(parts.handle.sysahbclkctrl, clk_before | (1 << 12));
    assert_ne!(parts.handle.presetctrl & (1 << 1), 0);
    assert_eq!(p.swm.field_value(FunctionSlot::Spi1Sck), 7);
    let spi = spi.with_mosi(&mut p.swm, p.pins.gpio8);
    assert_eq!(p.swm.field_value(FunctionSlot::Spi1Mosi), 8);
    let (_spi, mosi) = spi.release_mosi(&mut p.swm);
    assert_eq!(mosi.number(), 8);
}

#[test]
fn data_and_select_pins_attach_and_release() {
    let mut p = Peripherals::new();
    let mut parts = p.syscon.split();
    let spi = p.spi0.activate_as_host(&mut parts.handle, &mut p.swm, p.pins.gpio12, mode0_msb());
    let spi = spi.with_data_pins(&mut p.swm, p.pins.gpio14, p.pins.gpio15);
    let spi = spi.with_ssel(&mut p.swm, p.pins.gpio13, Polarity::ActiveHigh);
    assert_eq!(p.swm.field_value(FunctionSlot::Spi0Mosi), 14);
    assert_eq!(p.swm.field_value(FunctionSlot::Spi0Miso), 15);
    assert_eq!(p.swm.field_value(FunctionSlot::Spi0Ssel), 13);
    assert!(spi.regs.spol);
    let (spi, mosi, miso) = spi.release_data_pins(&mut p.swm);
    assert_eq!(mosi.number(), 14);
    assert_eq!(miso.number(), 15);
    let (spi, ssel) = spi.release_ssel(&mut p.swm);
    assert_eq!(ssel.number(), 13);
    assert!(!spi.regs.spol);
    let (idle, sclk) = spi.deactivate(&mut parts.handle, &mut p.swm);
    assert_eq!(sclk.number(), 12);
    assert!(!idle.regs.enabled);
    assert_eq!(p.swm.field_value(FunctionSlot::Spi0Sck), NO_PIN_SELECTED);
    assert_eq!(parts.handle.sysahbclkctrl & (1 << 11), 0);
}

#[test]
fn device_activation_listens_on_shared_input() {
    let mut p = Peripherals::new();
    let mut parts = p.syscon.split();
    let spi = p.spi0.activate_as_device(
        &mut parts.handle,
        &mut p.swm,
        &p.pin_inputs.gpio6,
        mode0_msb(),
    );
    assert!(spi.regs.enabled && !spi.regs.master);
    assert_eq!(p.swm.field_value(FunctionSlot::Spi0Sck), 6);
    // The pin's movable output handle is still free for another function.
    p.swm.bind_output(FunctionSlot::Spi0Mosi, p.pins.gpio6);
    assert_eq!(p.swm.field_value(FunctionSlot::Spi0Mosi), 6);
    let (_idle, sclk) = spi.deactivate(&mut parts.handle, &mut p.swm);
    assert_eq!(sclk.number(), 6);
    assert_eq!(p.swm.field_value(FunctionSlot::Spi0Sck), NO_PIN_SELECTED);
}
