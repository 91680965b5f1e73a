//! Pin handles, GPIO register effects, and switch-matrix bind/unbind.

use lpc81x_hal::gpio::GpioRegs;
use lpc81x_hal::swm::{FunctionSlot, NO_PIN_SELECTED};
use lpc81x_hal::Peripherals;

#[test]
fn pins_carry_their_numbers() {
    let p = Peripherals::new();
    assert_eq!(p.pins.gpio0.number(), 0);
    assert_eq!(p.pins.gpio4.number(), 4);
    assert_eq!(p.pins.gpio17.number(), 17);
    // Pin 3 has no movable output handle — it is wired to the debug
    // function at boot — but its input portion is available.
    assert_eq!(p.pin_inputs.gpio3.number(), lpc81x_hal::pins::SWD_PIN);
}

#[test]
fn digital_output_drives_registers() {
    let p = Peripherals::new();
    let mut gpio = p.gpio.free();
    let out = p.pins.gpio13.to_digital_output(&mut gpio, true);
    assert_eq!(gpio.dir, 1 << 13);
    assert_eq!(gpio.out, 1 << 13);
    assert!(out.is_set_high(&gpio));
    out.set_low(&mut gpio);
    assert_eq!(gpio.out, 0);
    assert!(out.is_set_low(&gpio));
    out.toggle(&mut gpio);
    assert_eq!(gpio.out, 1 << 13);
}

#[test]
fn digital_output_initially_low() {
    let p = Peripherals::new();
    let mut gpio = GpioRegs { dir: 0, out: 1 << 7, input: 0 };
    let out = p.pins.gpio7.to_digital_output(&mut gpio, false);
    assert_eq!(gpio.dir, 1 << 7);
    assert_eq!(gpio.out, 0);
    assert!(out.is_set_low(&gpio));
}

#[test]
fn digital_input_reads_pin_level() {
    let p = Peripherals::new();
    let gpio = GpioRegs { dir: 0, out: 0, input: 1 << 5 };
    assert!(p.pin_inputs.gpio5.is_high(&gpio));
    assert!(p.pin_inputs.gpio6.is_low(&gpio));
    let shared = p.pin_inputs.gpio5.clone();
    assert!(shared.is_high(&gpio));
}

#[test]
fn input_portion_of_movable_pin() {
    let p = Peripherals::new();
    let gpio = GpioRegs { dir: 0, out: 0, input: 1 << 9 };
    let input = p.pins.gpio9.digital_input();
    assert!(input.is_high(&gpio));
    // The movable handle is still intact after taking the input portion.
    assert_eq!(p.pins.gpio9.number(), 9);
}

#[test]
fn matrix_starts_unselected() {
    let p = Peripherals::new();
    assert_eq!(p.swm.field_value(FunctionSlot::I2cScl), NO_PIN_SELECTED);
    assert_eq!(p.swm.field_value(FunctionSlot::Spi1Ssel), NO_PIN_SELECTED);
}

#[test]
fn bind_sets_field_to_pin_number() {
    let mut p = Peripherals::new();
    p.swm.bind_output(FunctionSlot::Spi0Sck, p.pins.gpio12);
    assert_eq!(p.swm.field_value(FunctionSlot::Spi0Sck), 12);
    // Other fields are untouched.
    assert_eq!(p.swm.field_value(FunctionSlot::Spi0Mosi), NO_PIN_SELECTED);
}

#[test]
fn unbind_restores_sentinel_and_returns_pin() {
    let mut p = Peripherals::new();
    p.swm.bind_output(FunctionSlot::I2cSda, p.pins.gpio11);
    assert_eq!(p.swm.field_value(FunctionSlot::I2cSda), 11);
    let pin = p.swm.unbind_output(FunctionSlot::I2cSda);
    assert_eq!(pin.number(), 11);
    assert_eq!(p.swm.field_value(FunctionSlot::I2cSda), NO_PIN_SELECTED);
}

#[test]
fn field_tracks_latest_bind() {
    // After any bind/unbind sequence the field shows the pin of the most
    // recent bind not yet followed by an unbind, or the sentinel.
    let mut p = Peripherals::new();
    p.swm.bind_output(FunctionSlot::Spi0Mosi, p.pins.gpio14);
    assert_eq!(p.swm.field_value(FunctionSlot::Spi0Mosi), 14);
    let pin14 = p.swm.unbind_output(FunctionSlot::Spi0Mosi);
    assert_eq!(p.swm.field_value(FunctionSlot::Spi0Mosi), NO_PIN_SELECTED);
    p.swm.bind_output(FunctionSlot::Spi0Mosi, p.pins.gpio15);
    assert_eq!(p.swm.field_value(FunctionSlot::Spi0Mosi), 15);
    let pin15 = p.swm.unbind_output(FunctionSlot::Spi0Mosi);
    assert_eq!(pin15.number(), 15);
    p.swm.bind_output(FunctionSlot::Spi0Mosi, pin14);
    assert_eq!(p.swm.field_value(FunctionSlot::Spi0Mosi), 14);
}

#[test]
fn input_bind_shares_pin_with_output_bind() {
    // An input function may listen on a pin that an output function
    // drives; only outputs are exclusive.
    let mut p = Peripherals::new();
    p.swm.bind_output(FunctionSlot::Spi0Mosi, p.pins.gpio8);
    p.swm.bind_input(FunctionSlot::Spi1Sck, &p.pin_inputs.gpio8);
    assert_eq!(p.swm.field_value(FunctionSlot::Spi0Mosi), 8);
    assert_eq!(p.swm.field_value(FunctionSlot::Spi1Sck), 8);
    let back = p.swm.unbind_input(FunctionSlot::Spi1Sck);
    assert_eq!(back.number(), 8);
    assert_eq!(p.swm.field_value(FunctionSlot::Spi1Sck), NO_PIN_SELECTED);
    assert_eq!(p.swm.field_value(FunctionSlot::Spi0Mosi), 8);
}
