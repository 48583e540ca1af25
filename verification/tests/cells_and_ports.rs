//! The register-cell primitive, ports, external interrupts, routing
//! and the interrupt controller.

use stm32f4_hal::exti;
use stm32f4_hal::gpio;
use stm32f4_hal::nvic;
use stm32f4_hal::syscfg;
use stm32f4_hal::volatile_cell::VolatileCell;
use stm32f4_hal::volatile_cell::Zero;

#[test]
fn zero_values() {
    assert_eq!(u8::zero(), 0);
    assert_eq!(u16::zero(), 0);
    assert_eq!(u32::zero(), 0);
    assert_eq!(u64::zero(), 0);
    assert_eq!(usize::zero(), 0);
}

#[test]
fn cell_operations() {
    let mut c = VolatileCell::new(0);
    assert_eq!(c.get(), 0);
    c.set(0xAAAA_5555);
    assert_eq!(c.get(), 0xAAAA_5555);
    c.check(0x0000_00FF);
    assert_eq!(c.get(), 0xAAAA_55FF);
    c.uncheck(0x0000_F00F);
    assert_eq!(c.get(), 0xAAAA_05F0);
    assert!(c.test(0x0000_0100));
    assert!(!c.test(0x0000_0001));
    c.update(|v| v ^ 0xFFFF_FFFF);
    assert_eq!(c.get(), 0x5555_FA0F);
}

#[test]
fn cell_masked_update_round_trip() {
    // A three-bit field at shift four: writing eleven reads back as
    // eleven modulo eight, never an error.
    let mut c = VolatileCell::new(0xFFFF_FFFF);
    c.mask_set(0b111 << 4, 4, 11);
    assert_eq!((c.get() & (0b111 << 4)) >> 4, 11 % 8);
    // Every bit outside the field is untouched by the truncation.
    assert_eq!(c.get() & !(0b111 << 4), 0xFFFF_FFFF & !(0b111 << 4));
    // An in-range value survives unchanged.
    let mut d = VolatileCell::new(0x1234_5678);
    d.mask_set(0b1111 << 8, 8, 0x9);
    assert_eq!((d.get() & (0b1111 << 8)) >> 8, 0x9);
    assert_eq!(d.get() & !(0b1111 << 8), 0x1234_5678 & !(0b1111 << 8));
    // A one-bit field at shift zero: writing two is truncated to zero
    // and cannot spill into the neighbouring bit.
    let mut e = VolatileCell::new(0);
    e.mask_set(1, 0, 2);
    assert_eq!(e.get(), 0);
}

#[test]
fn cell_mask_get() {
    let c = VolatileCell::new(0x0000_0F30);
    // The read clears the mask's bits, then shifts.
    assert_eq!(c.mask_get(0x0000_0F00, 4), 0x03);
}

#[test]
fn port_lookup_by_index() {
    assert_eq!(gpio::get_port_by_index(0).addr, 0x4002_0000);
    assert_eq!(gpio::get_port_by_index(3).addr, 0x4002_0C00);
    assert_eq!(gpio::get_port_by_index(10).addr, 0x4002_2800);
}

#[test]
fn port_pin_writes() {
    let mut port = gpio::get_port_by_index(0);
    port.set_high(0x0005);
    assert_eq!(port.regs.bsr.get(), 0x0005);
    port.set_low(0x0002);
    assert_eq!(port.regs.brr.get(), 0x0002);
    port.write(0x1234);
    assert_eq!(port.regs.odr.get(), 0x1234);
    // Toggle splits pins by the current output state.
    let mut p2 = gpio::get_port_by_index(1);
    p2.write(0x00F0);
    p2.toggle(0x0110);
    assert_eq!(p2.regs.bsr.get(), 0x0100);
    assert_eq!(p2.regs.brr.get(), 0x0010);
}

#[test]
fn port_pin_reads() {
    let mut port = gpio::get_port_by_index(2);
    port.regs.idr.set(0x0A05);
    assert_eq!(port.read(), 0x0A05);
    assert_eq!(port.read_pins(0x0F00), 0x0A00);
    assert!(port.read_pin(0));
    assert!(!port.read_pin(1));
    assert!(port.read_pin(11));
}

#[test]
fn port_pin_configuration() {
    let mut port = gpio::get_port_by_index(0);
    port.set_pin_mode(3, gpio::PinMode::AF);
    assert_eq!(port.regs.moder.get(), 0x2 << 6);
    port.set_pin_output_speed(2, gpio::OutputSpeed::High);
    assert_eq!(port.regs.ospeedr.get(), 0x3 << 4);
    port.set_pin_pupd(1, gpio::PuPdMode::Down);
    assert_eq!(port.regs.pupdr.get(), 0x2 << 2);
    port.set_pin_output_type(5, gpio::OutputType::OpenDrain);
    assert_eq!(port.regs.otyper.get(), 5);
    port.set_pin_output_type(5, gpio::OutputType::PushPull);
    assert_eq!(port.regs.otyper.get(), 0);
    // The alternate-function write shifts by the pin's index modulo
    // eight, as the register routine does.
    port.set_pin_af(9, gpio::PeripheralFunction::AF7);
    assert_eq!(port.regs.afrh.get(), 0x7 << 1);
    port.set_pin_af(2, gpio::PeripheralFunction::AF5);
    assert_eq!(port.regs.afrl.get(), 0x5 << 2);
}

#[test]
fn port_pin_fields_are_independent() {
    // Configuring one pin leaves every other pin's field alone.
    let mut port = gpio::get_port_by_index(5);
    port.set_pin_mode(0, gpio::PinMode::Output);
    port.set_pin_mode(3, gpio::PinMode::AF);
    assert_eq!(port.regs.moder.get(), 0x1 | (0x2 << 6));
    port.set_pin_output_speed(0, gpio::OutputSpeed::High);
    port.set_pin_output_speed(1, gpio::OutputSpeed::Medium);
    assert_eq!(port.regs.ospeedr.get(), 0x3 | (0x1 << 2));
    port.set_pin_pupd(2, gpio::PuPdMode::Up);
    port.set_pin_pupd(4, gpio::PuPdMode::Down);
    assert_eq!(port.regs.pupdr.get(), (0x1 << 4) | (0x2 << 8));
}

#[test]
fn port_lock_sequence() {
    let mut port = gpio::get_port_by_index(4);
    port.lock(0x00FF);
    assert_eq!(port.regs.lckr.get(), (1 << 16) | 0x00FF);
}

#[test]
fn exti_enables_and_triggers() {
    let mut e = exti::Exti::new();
    exti::enable(&mut e, 0x11);
    assert_eq!(e.regs.imr.get(), 0x11);
    assert_eq!(e.regs.emr.get(), 0x11);
    assert!(exti::is_enabled(&e, 0x01));
    assert!(!exti::is_enabled(&e, 0x02));
    exti::disable(&mut e, 0x01);
    assert_eq!(e.regs.imr.get(), 0x10);
    exti::trigger_on_rising(&mut e, 0x04);
    assert_eq!(e.regs.rtsr.get(), 0x04);
    assert_eq!(e.regs.ftsr.get(), 0);
    exti::set_trigger(&mut e, 0x04, exti::TriggerMode::FallingEdge);
    assert_eq!(e.regs.rtsr.get(), 0);
    assert_eq!(e.regs.ftsr.get(), 0x04);
    exti::set_trigger(&mut e, 0x08, exti::TriggerMode::EitherEdge);
    assert_eq!(e.regs.rtsr.get(), 0x08);
    assert_eq!(e.regs.ftsr.get(), 0x0C);
    assert!(!exti::get_flag_status(&e, 0x04));
    exti::reset_flag(&mut e, 0x04);
    assert!(exti::get_flag_status(&e, 0x04));
}

#[test]
fn exti_source_routing() {
    let mut r = syscfg::Registers::new();
    // Line five lives in the second routing register, field at shift
    // four.
    syscfg::select_exti_source(&mut r, 5, 3);
    assert_eq!(r.exticr1.get(), 0x30);
    assert_eq!(r.exticr0.get(), 0);
    // The read-back clears the field mask rather than isolating it,
    // and shifts by the line index modulo four rather than the field
    // offset.
    assert_eq!(syscfg::get_exti_source(&r, 5), 0x10);
    syscfg::select_exti_source(&mut r, 0, 7);
    assert_eq!(r.exticr0.get(), 7);
    // At shift zero the clearing mask covers the whole field, so the
    // read-back is empty.
    assert_eq!(syscfg::get_exti_source(&r, 0), 0);
}

#[test]
fn interrupt_controller() {
    let mut n = nvic::Nvic::new();
    nvic::enable(&mut n, nvic::NvicIdx::WWDG);
    assert_eq!(n.iser[0], 1);
    assert_eq!(n.ipr[0], 0);
    nvic::enable(&mut n, nvic::NvicIdx::TIM2);
    assert_eq!(n.iser[0], 1 << 28);
    nvic::disable(&mut n, nvic::NvicIdx::SPI1);
    assert_eq!(n.icer[1], 1 << 3);
    nvic::clear_pending(&mut n, nvic::NvicIdx::USART2);
    assert_eq!(n.icpr[1], 1 << 6);
    assert!(matches!(nvic::NvicIdx::default(), nvic::NvicIdx::WWDG));
}
