//! A verified hardware-abstraction library for an ARM Cortex-M
//! microcontroller family (clock tree, buses, timers, SPI, UART, GPIO,
//! external interrupts).
//!
//! Every driver works on an explicit register image: a plain value that
//! mirrors the peripheral's memory-mapped register block.  The contracts
//! state, bit for bit, how each operation transforms that image.  An
//! embedding application performs the volatile loads and stores that move
//! a register image to and from the hardware; the logic that decides what
//! to write, and in which order, is verified here.

pub mod volatile_cell;

pub mod flash;
pub mod pwr;
pub mod rcc;

pub mod exti;
pub mod nvic;
pub mod spi;
pub mod gpio;
pub mod syscfg;
pub mod timer;
pub mod uart;
