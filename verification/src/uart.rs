//! Serial-port driver: baud rate, framing, flow control and blocking
//! transfer against the register image.  The baud-rate divisor is
//! computed from the published bus frequencies, which are passed in
//! explicitly.

use vstd::prelude::*;

use crate::rcc;
use crate::volatile_cell::VolatileCell;

verus! {

pub const USART1_ADDR: usize = 0x40011000;
pub const USART2_ADDR: usize = 0x40004400;
pub const USART3_ADDR: usize = 0x40004800;
pub const UART4_ADDR: usize = 0x40004c00;
pub const UART5_ADDR: usize = 0x40005000;
pub const USART6_ADDR: usize = 0x40011400;
pub const UART7_ADDR: usize = 0x40007800;
pub const UART8_ADDR: usize = 0x40007c00;

/* SR */
pub const SR_CTS: u32 = 1 << 9;
pub const SR_LBD: u32 = 1 << 8;
pub const SR_TXE: u32 = 1 << 7;
pub const SR_TC: u32 = 1 << 6;
pub const SR_RXNE: u32 = 1 << 5;
pub const SR_IDLE: u32 = 1 << 4;
pub const SR_ORE: u32 = 1 << 3;
pub const SR_NE: u32 = 1 << 2;
pub const SR_FE: u32 = 1 << 1;
pub const SR_PE: u32 = 1 << 0;

/* DR */
pub const DR_MASK: u32 = 0x1FF;

/* CR1 */
pub const CR1_OVER8: u32 = 1 << 15;
pub const CR1_UE: u32 = 1 << 13;
pub const CR1_M: u32 = 1 << 12;
pub const CR1_WAKE: u32 = 1 << 11;
pub const CR1_PCE: u32 = 1 << 10;
pub const CR1_PS: u32 = 1 << 9;
pub const CR1_PEIE: u32 = 1 << 8;
pub const CR1_TXEIE: u32 = 1 << 7;
pub const CR1_TCIE: u32 = 1 << 6;
pub const CR1_RXNEIE: u32 = 1 << 5;
pub const CR1_IDLEIE: u32 = 1 << 4;
pub const CR1_TE: u32 = 1 << 3;
pub const CR1_RE: u32 = 1 << 2;
pub const CR1_MODE_MASK: u32 = 3 << 2;
pub const CR1_MODE_SHIFT: u32 = 2;

/* CR2 */
pub const CR2_LINEN: u32 = 1 << 14;
pub const CR2_STOPBITS_MASK: u32 = 0x03 << 12;
pub const CR2_STOPBITS_SHIFT: u32 = 12;
pub const CR2_CLKEN: u32 = 1 << 11;
pub const CR2_LBDIE: u32 = 1 << 6;
pub const CR2_PARITY_MASK: u32 = 3 << 9;
pub const CR2_PARITY_SHIFT: u32 = 9;

/* CR3 */
pub const CR3_ONEBIT: u32 = 1 << 11;
pub const CR3_CTSIE: u32 = 1 << 10;
pub const CR3_CTSE: u32 = 1 << 9;
pub const CR3_RTSE: u32 = 1 << 8;
pub const CR3_DMAT: u32 = 1 << 7;
pub const CR3_DMAR: u32 = 1 << 6;
pub const CR3_HDSEL: u32 = 1 << 3;
pub const CR3_EIE: u32 = 1 << 0;
pub const CR3_FLOWCONTROL_MASK: u32 = 3 << 8;
pub const CR3_FLOWCONTROL_SHIFT: u32 = 8;

/// A reception failure the port can report.
#[derive(Clone, Copy, PartialEq, Eq, Structural, Debug)]
pub enum UartError {
    ParityError,
    FramingError,
    OverrunError,
    RepeatCallError,
    ResetError,
}

/// How many stop bits close a frame.
#[derive(Clone, Copy, PartialEq, Eq, Structural, Debug)]
pub enum StopBits {
    One,
    Half,
    Two,
    OneHalf,
}

impl StopBits {
    pub open spec fn spec_code(self) -> u32 {
        match self {
            StopBits::One => 0,
            StopBits::Half => 1,
            StopBits::Two => 2,
            StopBits::OneHalf => 3,
        }
    }

    pub fn code(self) -> (r: u32)
        ensures
            r == self.spec_code(),
    {
        match self {
            StopBits::One => 0,
            StopBits::Half => 1,
            StopBits::Two => 2,
            StopBits::OneHalf => 3,
        }
    }
}

/// Parity protection of a frame.
#[derive(Clone, Copy, PartialEq, Eq, Structural, Debug)]
pub enum Parity {
    NoParity,
    Odd,
    Even,
}

impl Parity {
    pub open spec fn spec_code(self) -> u32 {
        match self {
            Parity::NoParity => 0,
            Parity::Odd => 1,
            Parity::Even => 2,
        }
    }

    pub fn code(self) -> (r: u32)
        ensures
            r == self.spec_code(),
    {
        match self {
            Parity::NoParity => 0,
            Parity::Odd => 1,
            Parity::Even => 2,
        }
    }
}

/// Which directions of the port are active.
#[derive(Clone, Copy, PartialEq, Eq, Structural, Debug)]
pub enum Mode {
    Receive,
    Transmit,
    Duplex,
}

impl Mode {
    pub open spec fn spec_code(self) -> u32 {
        match self {
            Mode::Receive => 1,
            Mode::Transmit => 2,
            Mode::Duplex => 3,
        }
    }

    pub fn code(self) -> (r: u32)
        ensures
            r == self.spec_code(),
    {
        match self {
            Mode::Receive => 1,
            Mode::Transmit => 2,
            Mode::Duplex => 3,
        }
    }
}

/// Hardware flow-control lines in use.
#[derive(Clone, Copy, PartialEq, Eq, Structural, Debug)]
pub enum FlowControl {
    Disabled,
    Rts,
    Cts,
    RtsAndCts,
}

impl FlowControl {
    pub open spec fn spec_code(self) -> u32 {
        match self {
            FlowControl::Disabled => 0,
            FlowControl::Rts => 1,
            FlowControl::Cts => 2,
            FlowControl::RtsAndCts => 3,
        }
    }

    pub fn code(self) -> (r: u32)
        ensures
            r == self.spec_code(),
    {
        match self {
            FlowControl::Disabled => 0,
            FlowControl::Rts => 1,
            FlowControl::Cts => 2,
            FlowControl::RtsAndCts => 3,
        }
    }
}

/// Image of one port's register block.
#[derive(Clone, Copy, PartialEq, Eq, Structural, Debug)]
pub struct Registers {
    pub sr: VolatileCell,
    pub dr: VolatileCell,
    pub brr: VolatileCell,
    pub cr1: VolatileCell,
    pub cr2: VolatileCell,
    pub cr3: VolatileCell,
    pub gtpr: VolatileCell,
}

/// The plain values behind a `Registers` image.
pub struct RegistersView {
    pub sr: u32,
    pub dr: u32,
    pub brr: u32,
    pub cr1: u32,
    pub cr2: u32,
    pub cr3: u32,
    pub gtpr: u32,
}

impl View for Registers {
    type V = RegistersView;

    open spec fn view(&self) -> RegistersView {
        RegistersView {
            sr: self.sr@,
            dr: self.dr@,
            brr: self.brr@,
            cr1: self.cr1@,
            cr2: self.cr2@,
            cr3: self.cr3@,
            gtpr: self.gtpr@,
        }
    }
}

/// The all-zero port image.
pub open spec fn spec_uart_registers_zero() -> RegistersView {
    RegistersView { sr: 0, dr: 0, brr: 0, cr1: 0, cr2: 0, cr3: 0, gtpr: 0 }
}

/// One serial port: its base address and its register image.
#[derive(Clone, Copy, PartialEq, Eq, Structural, Debug)]
pub struct Uart {
    pub addr: usize,
    pub regs: Registers,
}

impl Uart {
    /// The port at `addr`, with a fresh register image.
    pub fn new(addr: usize) -> (r: Uart)
        ensures
            r.addr == addr,
            r.regs@ == spec_uart_registers_zero(),
    {
        Uart {
            addr,
            regs: Registers {
                sr: VolatileCell::new(0),
                dr: VolatileCell::new(0),
                brr: VolatileCell::new(0),
                cr1: VolatileCell::new(0),
                cr2: VolatileCell::new(0),
                cr3: VolatileCell::new(0),
                gtpr: VolatileCell::new(0),
            },
        }
    }
}

/// The bus clock that feeds the port: the first and sixth ports sit on
/// the fast peripheral bus, the rest on the slow one.
pub open spec fn spec_uart_clock(addr: usize, freqs: rcc::Frequencies) -> u32 {
    if addr == USART1_ADDR || addr == USART6_ADDR {
        freqs.apb2
    } else {
        freqs.apb1
    }
}

/// Inputs small enough for the rounded divisor arithmetic not to
/// overflow: bus clocks and baud rate below two to the thirtieth, baud
/// rate not zero.
pub open spec fn spec_baud_args_ok(freqs: rcc::Frequencies, baud: u32) -> bool {
    freqs.apb1 < 0x4000_0000 && freqs.apb2 < 0x4000_0000 && 1 <= baud < 0x4000_0000
}

/// The divisor written into the baud-rate register: the doubled clock
/// divided by the doubled rate, rounded by adding the rate once.
pub open spec fn spec_baud_divisor(clock: u32, baud: u32) -> int {
    ((clock << 1) + baud) / ((baud << 1) as int)
}

/// Program the baud-rate register for `baud` from the published bus
/// frequencies.
pub fn set_baudrate(dev: &mut Uart, freqs: &rcc::Frequencies, baud: u32)
    requires
        spec_baud_args_ok(*freqs, baud),
    ensures
        final(dev).regs@ == (RegistersView {
            brr: spec_baud_divisor(spec_uart_clock(old(dev).addr, *freqs), baud) as u32,
            ..old(dev).regs@
        }),
        final(dev).addr == old(dev).addr,
{
    let clock = if dev.addr == USART1_ADDR || dev.addr == USART6_ADDR {
        freqs.apb2_frequency()
    } else {
        freqs.apb1_frequency()
    };
    proof {
        assert(clock < 0x4000_0000 ==> (clock << 1) < 0x8000_0000) by (bit_vector);
        assert(1 <= baud < 0x4000_0000 ==> 2 <= (baud << 1) < 0x8000_0000) by (bit_vector);
    }
    dev.regs.brr.set(((clock << 1) + baud) / (baud << 1));
}

/// Eight data bits for eight, nine data bits for anything else.
pub fn set_databits(dev: &mut Uart, bits: u32)
    ensures
        bits == 8 ==> final(dev).regs@ == (RegistersView {
            cr1: old(dev).regs@.cr1 & !CR1_M,
            ..old(dev).regs@
        }),
        bits != 8 ==> final(dev).regs@ == (RegistersView {
            cr1: old(dev).regs@.cr1 | CR1_M,
            ..old(dev).regs@
        }),
        final(dev).addr == old(dev).addr,
{
    if bits == 8 {
        dev.regs.cr1.uncheck(CR1_M);  /* 8 data bits */
    } else {
        dev.regs.cr1.check(CR1_M);  /* 9 data bits */
    }
}

/// Replace the stop-bits field.
pub fn set_stopbits(dev: &mut Uart, stopbits: StopBits)
    ensures
        final(dev).regs@ == (RegistersView {
            cr2: (old(dev).regs@.cr2 & !CR2_STOPBITS_MASK) | ((stopbits.spec_code()
                << CR2_STOPBITS_SHIFT) & CR2_STOPBITS_MASK),
            ..old(dev).regs@
        }),
        final(dev).addr == old(dev).addr,
{
    dev.regs.cr2.mask_set(CR2_STOPBITS_MASK, CR2_STOPBITS_SHIFT, stopbits.code());
}

/// Replace the parity field.
pub fn set_parity(dev: &mut Uart, parity: Parity)
    ensures
        final(dev).regs@ == (RegistersView {
            cr2: (old(dev).regs@.cr2 & !CR2_PARITY_MASK) | ((parity.spec_code()
                << CR2_PARITY_SHIFT) & CR2_PARITY_MASK),
            ..old(dev).regs@
        }),
        final(dev).addr == old(dev).addr,
{
    dev.regs.cr2.mask_set(CR2_PARITY_MASK, CR2_PARITY_SHIFT, parity.code());
}

/// Replace the transmit/receive mode field.
pub fn set_mode(dev: &mut Uart, mode: Mode)
    ensures
        final(dev).regs@ == (RegistersView {
            cr1: (old(dev).regs@.cr1 & !CR1_MODE_MASK) | ((mode.spec_code() << CR1_MODE_SHIFT)
                & CR1_MODE_MASK),
            ..old(dev).regs@
        }),
        final(dev).addr == old(dev).addr,
{
    dev.regs.cr1.mask_set(CR1_MODE_MASK, CR1_MODE_SHIFT, mode.code());
}

/// Replace the flow-control field.
pub fn set_flow_control(dev: &mut Uart, flowcontrol: FlowControl)
    ensures
        final(dev).regs@ == (RegistersView {
            cr3: (old(dev).regs@.cr3 & !CR3_FLOWCONTROL_MASK) | ((flowcontrol.spec_code()
                << CR3_FLOWCONTROL_SHIFT) & CR3_FLOWCONTROL_MASK),
            ..old(dev).regs@
        }),
        final(dev).addr == old(dev).addr,
{
    dev.regs.cr3.mask_set(CR3_FLOWCONTROL_MASK, CR3_FLOWCONTROL_SHIFT, flowcontrol.code());
}

/// Interrupt on received data and on transmission complete.
pub fn enable_interrupts(dev: &mut Uart)
    ensures
        final(dev).regs@ == (RegistersView {
            cr1: old(dev).regs@.cr1 | (CR1_RXNEIE | CR1_TCIE),
            ..old(dev).regs@
        }),
        final(dev).addr == old(dev).addr,
{
    dev.regs.cr1.check(CR1_RXNEIE | CR1_TCIE);
}

/// Stop interrupting on received data and transmission complete.
pub fn disable_interrupts(dev: &mut Uart)
    ensures
        final(dev).regs@ == (RegistersView {
            cr1: old(dev).regs@.cr1 & !(CR1_RXNEIE | CR1_TCIE),
            ..old(dev).regs@
        }),
        final(dev).addr == old(dev).addr,
{
    dev.regs.cr1.uncheck(CR1_RXNEIE | CR1_TCIE);
}

/// Interrupt on reception errors.
pub fn enable_error_interrupts(dev: &mut Uart)
    ensures
        final(dev).regs@ == (RegistersView {
            cr3: old(dev).regs@.cr3 | CR3_EIE,
            ..old(dev).regs@
        }),
        final(dev).addr == old(dev).addr,
{
    dev.regs.cr3.check(CR3_EIE);
}

/// Stop interrupting on reception errors.
pub fn disable_error_interrupts(dev: &mut Uart)
    ensures
        final(dev).regs@ == (RegistersView {
            cr3: old(dev).regs@.cr3 & !CR3_EIE,
            ..old(dev).regs@
        }),
        final(dev).addr == old(dev).addr,
{
    dev.regs.cr3.uncheck(CR3_EIE);
}

/// Bring the port up in one call: baud rate from the published bus
/// frequencies, parity, stop bits, flow control on both lines or none,
/// receive and completion interrupts with error interrupts, eight data
/// bits, full duplex, and finally the port enable.
pub fn enable(
    dev: &mut Uart,
    freqs: &rcc::Frequencies,
    baud_rate: u32,
    stop_bits: StopBits,
    parity: Parity,
    flow_control: bool,
)
    requires
        spec_baud_args_ok(*freqs, baud_rate),
    ensures
        final(dev).regs@ == (RegistersView {
            brr: spec_baud_divisor(spec_uart_clock(old(dev).addr, *freqs), baud_rate) as u32,
            cr2: (((old(dev).regs@.cr2 & !CR2_PARITY_MASK) | ((parity.spec_code()
                << CR2_PARITY_SHIFT) & CR2_PARITY_MASK)) & !CR2_STOPBITS_MASK) | ((
            stop_bits.spec_code() << CR2_STOPBITS_SHIFT) & CR2_STOPBITS_MASK),
            cr3: ((old(dev).regs@.cr3 & !CR3_FLOWCONTROL_MASK) | (((if flow_control {
                FlowControl::RtsAndCts
            } else {
                FlowControl::Disabled
            }).spec_code() << CR3_FLOWCONTROL_SHIFT) & CR3_FLOWCONTROL_MASK)) | CR3_EIE,
            cr1: ((((old(dev).regs@.cr1 | (CR1_RXNEIE | CR1_TCIE)) & !CR1_M) & !CR1_MODE_MASK)
                | ((Mode::Duplex.spec_code() << CR1_MODE_SHIFT) & CR1_MODE_MASK)) | CR1_UE,
            ..old(dev).regs@
        }),
        final(dev).addr == old(dev).addr,
{
    set_baudrate(dev, freqs, baud_rate);
    set_parity(dev, parity);
    set_stopbits(dev, stop_bits);
    set_flow_control(
        dev,
        if flow_control {
            FlowControl::RtsAndCts
        } else {
            FlowControl::Disabled
        },
    );
    enable_interrupts(dev);
    enable_error_interrupts(dev);
    set_databits(dev, 8);
    set_mode(dev, Mode::Duplex);
    dev.regs.cr1.check(CR1_UE);
}

/// Disable the port.
pub fn disable(dev: &mut Uart)
    ensures
        final(dev).regs@ == (RegistersView {
            cr1: old(dev).regs@.cr1 & !CR1_UE,
            ..old(dev).regs@
        }),
        final(dev).addr == old(dev).addr,
{
    dev.regs.cr1.uncheck(CR1_UE);
}

/// Write one word, masked to the data register's width.
pub fn send(dev: &mut Uart, data: u16)
    ensures
        final(dev).regs@ == (RegistersView {
            dr: (data as u32) & DR_MASK,
            ..old(dev).regs@
        }),
        final(dev).addr == old(dev).addr,
{
    dev.regs.dr.set((data as u32) & DR_MASK);
}

/// Read one word, masked to the data register's width.
pub fn recv(dev: &Uart) -> (r: u16)
    ensures
        r == ((dev.regs@.dr & DR_MASK) as u16),
{
    (dev.regs.dr.get() & DR_MASK) as u16
}

/// Poll until the transmit buffer is empty.  On a register image the
/// flag cannot change between polls, so it must already be set; on the
/// hardware this is a fail-stop wait.
#[verifier::loop_isolation(false)]
pub fn wait_send_ready(dev: &Uart)
    requires
        dev.regs@.sr & SR_TXE != 0,
{
    while !dev.regs.sr.test(SR_TXE)
        decreases 0int,
    {
    }
}

/// Poll until received data is available.  On a register image the
/// flag cannot change between polls, so it must already be set.
#[verifier::loop_isolation(false)]
pub fn wait_recv_ready(dev: &Uart)
    requires
        dev.regs@.sr & SR_RXNE != 0,
{
    while !dev.regs.sr.test(SR_RXNE)
        decreases 0int,
    {
    }
}

/// Wait for the transmitter, then write one word.
pub fn send_blocking(dev: &mut Uart, data: u16)
    requires
        old(dev).regs@.sr & SR_TXE != 0,
    ensures
        final(dev).regs@ == (RegistersView {
            dr: (data as u32) & DR_MASK,
            ..old(dev).regs@
        }),
        final(dev).addr == old(dev).addr,
{
    wait_send_ready(dev);
    send(dev, data);
}

/// Wait for received data, then read it.
pub fn recv_blocking(dev: &Uart) -> (r: u16)
    requires
        dev.regs@.sr & SR_RXNE != 0,
    ensures
        r == ((dev.regs@.dr & DR_MASK) as u16),
{
    wait_recv_ready(dev);
    recv(dev)
}

} // verus!
