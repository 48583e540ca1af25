//! The serial-peripheral interface, the timers and the serial port.

use stm32f4_hal::rcc;
use stm32f4_hal::spi;
use stm32f4_hal::spi::Spi;
use stm32f4_hal::timer;
use stm32f4_hal::timer::{
    InputCaptureChannel, InputCapturePolarity, InputCapturePrescaler, InputCaptureSource,
    OutputCompareChannel, OutputCompareMode, Timer,
};
use stm32f4_hal::uart;
use stm32f4_hal::uart::Uart;

#[test]
fn spi_enable_disable() {
    let mut s = Spi::new(spi::SPI1_ADDR);
    s.enable();
    assert_eq!(s.regs.cr1.get(), spi::CR1_SPE);
    s.disable();
    assert_eq!(s.regs.cr1.get(), 0);
}

#[test]
fn spi_mode_bits() {
    let mut s = Spi::new(spi::SPI2_ADDR);
    s.set_bidirectional_receive_only_mode();
    assert_eq!(s.regs.cr1.get(), spi::CR1_BIDIMODE);
    s.set_bidirectional_transmit_only_mode();
    assert_eq!(s.regs.cr1.get(), spi::CR1_BIDIMODE | spi::CR1_BIDIOE);
    s.set_unidirectional_mode();
    assert_eq!(s.regs.cr1.get(), spi::CR1_BIDIOE);
    s.enable_software_slave_management();
    assert_ne!(s.regs.cr1.get() & spi::CR1_SSM, 0);
    s.set_nss_high();
    assert_ne!(s.regs.cr1.get() & spi::CR1_SSI, 0);
    s.set_standard_mode(3);
    assert_eq!(s.regs.cr1.get() & 0x3, 0x3);
    s.set_standard_mode(9);
    assert_eq!(s.regs.cr1.get() & 0x3, 0x3);
}

#[test]
fn spi_baudrate_prescaler() {
    let mut s = Spi::new(spi::SPI3_ADDR);
    s.set_baudrate_prescaler(3);
    assert_eq!(s.regs.cr1.get(), 3 << 3);
    // Out-of-range values leave the register untouched.
    s.set_baudrate_prescaler(8);
    assert_eq!(s.regs.cr1.get(), 3 << 3);
}

#[test]
fn spi_init_master() {
    let mut s = Spi::new(spi::SPI1_ADDR);
    s.regs.cr1.set(0xFFFF);
    s.init_master(
        spi::CR1_BAUDRATE_FPCLK_DIV_16,
        spi::CR1_CPOL,
        spi::CR1_CPHA,
        0,
        spi::CR1_LSBFIRST,
    );
    let kept = spi::CR1_SPE | spi::CR1_CRCEN | spi::CR1_CRCNEXT;
    let expected = kept | spi::CR1_MSTR | spi::CR1_BAUDRATE_FPCLK_DIV_16 | spi::CR1_CPOL
        | spi::CR1_CPHA | spi::CR1_LSBFIRST;
    assert_eq!(s.regs.cr1.get(), expected);
}

#[test]
fn spi_data_transfer() {
    let mut s = Spi::new(spi::SPI4_ADDR);
    s.regs.sr.set(spi::SR_TXE | spi::SR_RXNE);
    s.send(0x1234);
    assert_eq!(s.regs.dr.get(), 0x1234);
    assert_eq!(s.read(), 0x1234);
    let echoed = s.xfer(0xBEEF);
    assert_eq!(echoed, 0xBEEF);
    s.send8(0x7F);
    assert_eq!(s.regs.dr.get(), 0x7F);
    let drained = s.clean_disable();
    assert_eq!(drained, 0x7F);
    assert_eq!(s.regs.cr1.get() & spi::CR1_SPE, 0);
}

#[test]
fn spi_reset_pulses_its_peripheral() {
    let s = Spi::new(spi::SPI1_ADDR);
    let mut regs = rcc::Registers::new();
    regs.apb2rstr.set(0x1);
    s.reset(&mut regs);
    // The pulse raises and drops the interface's reset bit, leaving
    // the others.
    assert_eq!(regs.apb2rstr.get(), 0x1);
}

#[test]
fn timer_counter_control() {
    let mut t = Timer::new(timer::TIM3_ADDR);
    timer::enable_counter(&mut t);
    assert_eq!(t.regs.cr1.get(), timer::CR1_CEN);
    timer::one_shot_mode(&mut t);
    assert_eq!(t.regs.cr1.get(), timer::CR1_CEN | timer::CR1_OPM);
    timer::disable_counter(&mut t);
    assert_eq!(t.regs.cr1.get(), timer::CR1_OPM);
    timer::set_prescaler(&mut t, 41);
    assert_eq!(t.regs.psc.get(), 41);
    timer::set_period(&mut t, 999);
    assert_eq!(t.regs.arr.get(), 999);
    timer::set_counter(&mut t, 5);
    assert_eq!(timer::get_counter(&t), 5);
}

#[test]
fn timer_mode_fields() {
    let mut t = Timer::new(timer::TIM4_ADDR);
    t.regs.cr1.set(0xFFFF);
    timer::set_mode(&mut t, 0x1 << 8, 0x2 << 5, timer::CR1_DIR_DOWN);
    let cleared = 0xFFFF & !(timer::CR1_CKD_CK_INT_MASK | timer::CR1_CMS_MASK
        | timer::CR1_DIR_DOWN);
    assert_eq!(t.regs.cr1.get(), cleared | (0x1 << 8) | (0x2 << 5) | timer::CR1_DIR_DOWN);
    timer::set_master_mode(&mut t, 0x2 << 4);
    assert_eq!(t.regs.cr2.get() & timer::CR2_MMS_MASK, 0x2 << 4);
}

#[test]
fn timer_advanced_gating() {
    // A plain timer ignores break and idle-state controls.
    let mut plain = Timer::new(timer::TIM2_ADDR);
    assert!(!plain.is_advanced());
    timer::enable_break_main_output(&mut plain);
    timer::set_output_idle_state(&mut plain, timer::CR2_OIS1);
    timer::set_repetition_counter(&mut plain, 7);
    assert_eq!(plain.regs.bdtr.get(), 0);
    assert_eq!(plain.regs.cr2.get(), 0);
    assert_eq!(plain.regs.rcr.get(), 0);
    // The advanced timer takes them.
    let mut adv = Timer::new(timer::TIM1_ADDR);
    assert!(adv.is_advanced());
    timer::enable_break_main_output(&mut adv);
    assert_eq!(adv.regs.bdtr.get(), timer::BDTR_MOE);
    timer::set_output_idle_state(&mut adv, timer::CR2_OIS1);
    assert_eq!(adv.regs.cr2.get(), timer::CR2_OIS1);
    timer::set_repetition_counter(&mut adv, 7);
    assert_eq!(adv.regs.rcr.get(), 7);
}

#[test]
fn timer_output_compare() {
    let mut t = Timer::new(timer::TIM8_ADDR);
    timer::set_oc_mode(&mut t, OutputCompareChannel::OChannel1, OutputCompareMode::PWM1);
    assert_eq!(t.regs.ccmr1.get(), timer::CCMR1_OC1M_PWM1);
    timer::set_oc_mode(&mut t, OutputCompareChannel::OChannel4, OutputCompareMode::Toggle);
    assert_eq!(t.regs.ccmr2.get(), timer::CCMR2_OC4M_TOGGLE);
    timer::set_oc_value(&mut t, OutputCompareChannel::OChannel2, 500);
    assert_eq!(t.regs.ccr2.get(), 500);
    // A complementary designator takes no action on the mode path.
    timer::set_oc_value(&mut t, OutputCompareChannel::OChannel1N, 42);
    assert_eq!(t.regs.ccr1.get(), 0);
    // On the advanced timer the output enable also raises the
    // complementary enable.
    timer::enable_oc_output(&mut t, OutputCompareChannel::OChannel1);
    assert_eq!(t.regs.ccer.get(), timer::CCER_CC1E | timer::CCER_CC1NE);
    let mut plain = Timer::new(timer::TIM5_ADDR);
    timer::enable_oc_output(&mut plain, OutputCompareChannel::OChannel1);
    assert_eq!(plain.regs.ccer.get(), timer::CCER_CC1E);
}

#[test]
fn timer_interrupt_source() {
    let mut t = Timer::new(timer::TIM1_ADDR);
    t.regs.sr.set(timer::SR_UIF | timer::SR_BIF);
    t.regs.dier.set(0xFFFF);
    assert!(timer::interrupt_source(&t, timer::SR_UIF));
    // The break flag is an interrupt source only on advanced timers.
    assert!(timer::interrupt_source(&t, timer::SR_BIF));
    let mut plain = Timer::new(timer::TIM3_ADDR);
    plain.regs.sr.set(timer::SR_UIF | timer::SR_BIF);
    plain.regs.dier.set(0xFFFF);
    assert!(!timer::interrupt_source(&plain, timer::SR_BIF));
    // Values above the break flag are not interrupt flags.
    assert!(!timer::interrupt_source(&t, 1 << 9));
    // A disabled interrupt is not a source.
    t.regs.dier.set(0);
    assert!(!timer::interrupt_source(&t, timer::SR_UIF));
}

#[test]
fn timer_flags() {
    let mut t = Timer::new(timer::TIM6_ADDR);
    t.regs.sr.set(timer::SR_UIF | timer::SR_CC1IF);
    assert!(timer::is_update_flag_checked(&t));
    assert!(timer::get_flag(&t, timer::SR_CC1IF));
    timer::clear_update_flag(&mut t);
    assert_eq!(t.regs.sr.get(), !timer::SR_UIF);
    timer::clear_flag(&mut t, timer::SR_CC1IF);
    assert_eq!(t.regs.sr.get(), !timer::SR_CC1IF);
}

#[test]
fn timer_input_capture() {
    let mut t = Timer::new(timer::TIM2_ADDR);
    timer::ic_set_filter(&mut t, InputCaptureChannel::Channel2, timer::InputCaptureFilter::CK_INT_N_8);
    assert_eq!(t.regs.ccmr1.get(), 3 << 12);
    timer::ic_set_prescaler(&mut t, InputCaptureChannel::Channel1, InputCapturePrescaler::Prescaler4);
    assert_eq!(t.regs.ccmr1.get(), (3 << 12) | (2 << 2));
    // The crossed channel pairs flip the selection bits.
    let mut u = Timer::new(timer::TIM3_ADDR);
    timer::ic_set_input(&mut u, InputCaptureChannel::Channel1, InputCaptureSource::InTI1);
    assert_eq!(u.regs.ccmr1.get() & 0x3, 1);
    timer::ic_set_input(&mut u, InputCaptureChannel::Channel2, InputCaptureSource::InTI1);
    assert_eq!((u.regs.ccmr1.get() >> 8) & 0x3, 2);
    timer::ic_enable(&mut u, InputCaptureChannel::Channel3);
    assert_eq!(u.regs.ccer.get(), 1 << 8);
    timer::ic_disable(&mut u, InputCaptureChannel::Channel3);
    assert_eq!(u.regs.ccer.get(), 0);
    timer::ic_set_polarity(&mut u, InputCaptureChannel::Channel1, InputCapturePolarity::Both);
    assert_eq!(u.regs.ccer.get(), 0xa);
    timer::ic_set_polarity(&mut u, InputCaptureChannel::Channel1, InputCapturePolarity::Rising);
    assert_eq!(u.regs.ccer.get(), 0);
}

#[test]
fn timer_option_register() {
    let mut t2 = Timer::new(timer::TIM2_ADDR);
    timer::set_option(&mut t2, 0x2 << 10);
    assert_eq!(t2.regs.or.get(), 0x2 << 10);
    let mut t3 = Timer::new(timer::TIM3_ADDR);
    timer::set_option(&mut t3, 0x2 << 10);
    assert_eq!(t3.regs.or.get(), 0);
}

#[test]
fn timer_reset_pulses_its_peripheral() {
    let t = Timer::new(timer::TIM2_ADDR);
    let mut regs = rcc::Registers::new();
    regs.apb1rstr.set(0x80);
    timer::reset(&t, &mut regs);
    // The pulse raises and drops the timer's reset bit, leaving the
    // others in place.
    assert_eq!(regs.apb1rstr.get(), 0x80);
}

#[test]
fn uart_enable_composition() {
    let freqs = rcc::Frequencies::new(168_000_000, 42_000_000, 84_000_000);
    let mut port = Uart::new(uart::USART2_ADDR);
    uart::enable(&mut port, &freqs, 115_200, uart::StopBits::One, uart::Parity::NoParity, false);
    // The second port sits on the slow bus: divisor from 42 MHz.
    assert_eq!(port.regs.brr.get(), (84_000_000 + 115_200) / 230_400);
    // Receive and completion interrupts, eight bits, duplex, enabled.
    assert_eq!(
        port.regs.cr1.get(),
        (uart::CR1_RXNEIE | uart::CR1_TCIE) | (3 << 2) | uart::CR1_UE
    );
    assert_eq!(port.regs.cr2.get(), 0);
    assert_eq!(port.regs.cr3.get(), uart::CR3_EIE);
}

#[test]
fn uart_enable_fast_bus_and_framing() {
    let freqs = rcc::Frequencies::new(168_000_000, 42_000_000, 84_000_000);
    let mut port = Uart::new(uart::USART1_ADDR);
    uart::enable(&mut port, &freqs, 9_600, uart::StopBits::Two, uart::Parity::Even, true);
    // The first port sits on the fast bus: divisor from 84 MHz.
    assert_eq!(port.regs.brr.get(), (168_000_000 + 9_600) / 19_200);
    assert_eq!(port.regs.cr2.get(), (2 << 9) | (2 << 12));
    assert_eq!(port.regs.cr3.get(), (3 << 8) | uart::CR3_EIE);
}

#[test]
fn uart_data_masking() {
    let mut port = Uart::new(uart::UART4_ADDR);
    uart::send(&mut port, 0xFFFF);
    assert_eq!(port.regs.dr.get(), 0x01FF);
    port.regs.dr.set(0xFFFF_FFFF);
    assert_eq!(uart::recv(&port), 0x01FF);
    port.regs.sr.set(uart::SR_TXE | uart::SR_RXNE);
    uart::send_blocking(&mut port, 0x0041);
    assert_eq!(port.regs.dr.get(), 0x0041);
    assert_eq!(uart::recv_blocking(&port), 0x0041);
    uart::disable(&mut port);
    assert_eq!(port.regs.cr1.get(), 0);
}
