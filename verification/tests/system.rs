//! The peripheral root set, model detection, system configuration, GPIO
//! enable/disable, and the pin interrupt channels.

use lpc81x_hal::pinint::Sensitivity;
use lpc81x_hal::syscon::{BodWakeup, WktWakeup};
use lpc81x_hal::{Model, Peripherals};

#[test]
fn model_detection_classifies_known_ids() {
    assert_eq!(Model::from_device_id(0x00008100), Some(Model::LPC810M021FN8));
    assert_eq!(Model::from_device_id(0x00008110), Some(Model::LPC811M001JDH16));
    assert_eq!(Model::from_device_id(0x00008120), Some(Model::LPC812M101JDH16));
    assert_eq!(Model::from_device_id(0x00008121), Some(Model::LPC812M101JD20));
    assert_eq!(Model::from_device_id(0x00008122), Some(Model::LPC812M101JDH20));
    assert_eq!(Model::from_device_id(0x00008123), Some(Model::LPC812M101JTB16));
    assert_eq!(Model::from_device_id(0xdeadbeef), None);
}

#[test]
fn pin_availability_by_model() {
    let p = Peripherals::new();
    let small = Model::LPC810M021FN8;
    assert!(small.has_pin(&p.pins.gpio5));
    assert!(!small.has_pin(&p.pins.gpio6));
    assert!(!small.has_pin(&p.pin_inputs.gpio17));
    let large = Model::LPC812M101JDH20;
    assert!(large.has_pin(&p.pins.gpio17));
}

#[test]
fn spi1_availability_by_model() {
    assert!(Model::LPC812M101JDH16.has_spi1());
    assert!(Model::LPC812M101JDH20.has_spi1());
    assert!(!Model::LPC810M021FN8.has_spi1());
    assert!(!Model::LPC811M001JDH16.has_spi1());
    assert!(!Model::LPC812M101JD20.has_spi1());
    assert!(!Model::LPC812M101JTB16.has_spi1());
}

#[test]
fn reset_values_match_the_manual() {
    let p = Peripherals::new();
    let regs = p.syscon.free();
    assert_eq!(regs.sysahbclkctrl, 0xdf);
    assert_eq!(regs.pdruncfg, 0xedf0);
    assert_eq!(regs.starterp1, 0);
}

#[test]
fn gpio_disable_and_enable_gate_the_clock() {
    let p = Peripherals::new();
    let mut parts = p.syscon.split();
    // The GPIO clock gate is open at reset.
    assert_ne!(parts.handle.sysahbclkctrl & (1 << 6), 0);
    let gpio = p.gpio.disable(&mut parts.handle);
    assert_eq!(parts.handle.sysahbclkctrl & (1 << 6), 0);
    let gpio = gpio.enable(&mut parts.handle);
    assert_ne!(parts.handle.sysahbclkctrl & (1 << 6), 0);
    let regs = gpio.free();
    assert_eq!(regs.dir, 0);
}

#[test]
fn syscon_clock_reset_power_and_wakeup_control() {
    let p = Peripherals::new();
    let mut parts = p.syscon.split();
    let pdruncfg_before = parts.handle.pdruncfg;
    // The GPIO clock gate is open at reset; close and reopen it.
    parts.handle.disable_clock(&p.gpio.regs);
    assert_eq!(parts.handle.sysahbclkctrl & (1 << 6), 0);
    parts.handle.enable_clock(&p.gpio.regs);
    assert_ne!(parts.handle.sysahbclkctrl & (1 << 6), 0);
    // Hold the GPIO block in reset and release it (the line is active low).
    parts.handle.assert_reset(&p.gpio.regs);
    assert_eq!(parts.handle.presetctrl & (1 << 10), 0);
    parts.handle.clear_reset(&p.gpio.regs);
    assert_ne!(parts.handle.presetctrl & (1 << 10), 0);
    // Power the brown-out detector up and down (bit 3, set = powered down).
    parts.handle.power_up(&parts.bod);
    assert_eq!(parts.handle.pdruncfg, pdruncfg_before & !(1 << 3));
    parts.handle.power_down(&parts.bod);
    assert_eq!(parts.handle.pdruncfg, (pdruncfg_before & !(1 << 3)) | (1 << 3));
    // Wake-up enables for the self-wake-up timer and brown-out interrupts.
    parts.handle.enable_interrupt_wakeup::<WktWakeup>();
    assert_eq!(parts.handle.starterp1, 1 << 15);
    parts.handle.enable_interrupt_wakeup::<BodWakeup>();
    assert_eq!(parts.handle.starterp1, (1 << 15) | (1 << 13));
    parts.handle.disable_interrupt_wakeup::<WktWakeup>();
    assert_eq!(parts.handle.starterp1, 1 << 13);
}

#[test]
fn uart_fractional_generator_registers() {
    let p = Peripherals::new();
    let mut parts = p.syscon.split();
    parts.uartfrg.set_clkdiv(5);
    parts.uartfrg.set_frgmult(22);
    parts.uartfrg.set_frgdiv(0xff);
    assert_eq!(parts.uartfrg.uartclkdiv, 5);
    assert_eq!(parts.uartfrg.uartfrgmult, 22);
    assert_eq!(parts.uartfrg.uartfrgdiv, 0xff);
}

#[test]
fn irc_derived_clock_frequency() {
    let p = Peripherals::new();
    let parts = p.syscon.split();
    assert_eq!(parts.irc_derived_clock.hz(), 750_000);
}

#[test]
fn pin_interrupt_edge_configuration() {
    let mut p = Peripherals::new();
    let ints = p.pin_interrupts.activate();
    let int0 = ints.int0.edge_triggered(&mut p.pinint_regs, &p.pin_inputs.gpio4);
    assert_eq!(p.pinint_regs.pintsel[0], 4);
    assert_eq!(p.pinint_regs.isel & 1, 0);
    assert_eq!(int0.sensitivity(), Sensitivity::Edge);
    assert_eq!(int0.pin().number(), 4);
    int0.enable(&mut p.pinint_regs, true, false);
    assert_eq!(p.pinint_regs.ienr, 1);
    assert_eq!(p.pinint_regs.ienf, 0);
    assert_eq!(p.pinint_regs.nvic_enabled, 1 << 24);
    // The hardware latches an event; acknowledging clears it.
    p.pinint_regs.ist |= 1;
    int0.acknowledge_events(&mut p.pinint_regs);
    assert_eq!(p.pinint_regs.ist, 0);
    let (_idle, pin) = int0.release_pin(&mut p.pinint_regs);
    assert_eq!(pin.number(), 4);
    assert_eq!(p.pinint_regs.pintsel[0], 0);
    assert_eq!(p.pinint_regs.ienr, 0);
    assert_eq!(p.pinint_regs.nvic_enabled, 0);
}

#[test]
fn pin_interrupt_level_configuration() {
    let mut p = Peripherals::new();
    let ints = p.pin_interrupts.activate();
    let int3 = ints.int3.level_triggered(&mut p.pinint_regs, &p.pin_inputs.gpio9);
    assert_eq!(p.pinint_regs.pintsel[3], 9);
    assert_ne!(p.pinint_regs.isel & (1 << 3), 0);
    assert_eq!(int3.sensitivity(), Sensitivity::Level);
    assert_eq!(int3.nvic_bitmask(), 1 << 27);
    int3.enable(&mut p.pinint_regs, true, true);
    assert_eq!(p.pinint_regs.ienr, 1 << 3);
    assert_eq!(p.pinint_regs.ienf, 1 << 3);
    int3.disable(&mut p.pinint_regs);
    assert_eq!(p.pinint_regs.ienr, 0);
    assert_eq!(p.pinint_regs.ienf, 0);
}
