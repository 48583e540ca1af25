//! General-purpose I/O driver: pin modes, speeds, pulls, alternate
//! functions and port-wide reads and writes.

use vstd::prelude::*;

use crate::volatile_cell::VolatileCell;

verus! {

pub const GPIO_BASE: usize = 0x4002_0000;
pub const GPIO_PORT_SIZE: usize = 0x0000_0400;

pub const LCKR_LCKK: u32 = 1 << 16;

/// Pull-up / pull-down selection for a pin.
#[derive(Clone, Copy, PartialEq, Eq, Structural, Debug)]
pub enum PuPdMode {
    NoPull,
    Up,
    Down,
}

impl PuPdMode {
    pub open spec fn spec_code(self) -> u32 {
        match self {
            PuPdMode::NoPull => 0x0,
            PuPdMode::Up => 0x1,
            PuPdMode::Down => 0x2,
        }
    }

    pub fn code(self) -> (r: u32)
        ensures
            r == self.spec_code(),
    {
        match self {
            PuPdMode::NoPull => 0x0,
            PuPdMode::Up => 0x1,
            PuPdMode::Down => 0x2,
        }
    }
}

/// Direction and function selection for a pin.
#[derive(Clone, Copy, PartialEq, Eq, Structural, Debug)]
pub enum PinMode {
    Input,
    Output,
    AF,
    Analog,
}

impl PinMode {
    pub open spec fn spec_code(self) -> u32 {
        match self {
            PinMode::Input => 0x0,
            PinMode::Output => 0x1,
            PinMode::AF => 0x2,
            PinMode::Analog => 0x3,
        }
    }

    pub fn code(self) -> (r: u32)
        ensures
            r == self.spec_code(),
    {
        match self {
            PinMode::Input => 0x0,
            PinMode::Output => 0x1,
            PinMode::AF => 0x2,
            PinMode::Analog => 0x3,
        }
    }
}

/// Output slew-rate class of a pin.
#[derive(Clone, Copy, PartialEq, Eq, Structural, Debug)]
pub enum OutputSpeed {
    Low,
    Medium,
    Fast,
    High,
}

impl OutputSpeed {
    pub open spec fn spec_code(self) -> u32 {
        match self {
            OutputSpeed::Low => 0x0,
            OutputSpeed::Medium => 0x1,
            OutputSpeed::Fast => 0x2,
            OutputSpeed::High => 0x3,
        }
    }

    pub fn code(self) -> (r: u32)
        ensures
            r == self.spec_code(),
    {
        match self {
            OutputSpeed::Low => 0x0,
            OutputSpeed::Medium => 0x1,
            OutputSpeed::Fast => 0x2,
            OutputSpeed::High => 0x3,
        }
    }
}

/// Output driver topology of a pin.
#[derive(Clone, Copy, PartialEq, Eq, Structural, Debug)]
pub enum OutputType {
    PushPull,
    OpenDrain,
}

/// The sixteen alternate functions a pin can be routed to.
#[derive(Clone, Copy, PartialEq, Eq, Structural, Debug)]
pub enum PeripheralFunction {
    AF0,
    AF1,
    AF2,
    AF3,
    AF4,
    AF5,
    AF6,
    AF7,
    AF8,
    AF9,
    AF10,
    AF11,
    AF12,
    AF13,
    AF14,
    AF15,
}

impl PeripheralFunction {
    pub open spec fn spec_code(self) -> u32 {
        match self {
            PeripheralFunction::AF0 => 0x0,
            PeripheralFunction::AF1 => 0x1,
            PeripheralFunction::AF2 => 0x2,
            PeripheralFunction::AF3 => 0x3,
            PeripheralFunction::AF4 => 0x4,
            PeripheralFunction::AF5 => 0x5,
            PeripheralFunction::AF6 => 0x6,
            PeripheralFunction::AF7 => 0x7,
            PeripheralFunction::AF8 => 0x8,
            PeripheralFunction::AF9 => 0x9,
            PeripheralFunction::AF10 => 0xa,
            PeripheralFunction::AF11 => 0xb,
            PeripheralFunction::AF12 => 0xc,
            PeripheralFunction::AF13 => 0xd,
            PeripheralFunction::AF14 => 0xe,
            PeripheralFunction::AF15 => 0xf,
        }
    }

    pub fn code(self) -> (r: u32)
        ensures
            r == self.spec_code(),
    {
        match self {
            PeripheralFunction::AF0 => 0x0,
            PeripheralFunction::AF1 => 0x1,
            PeripheralFunction::AF2 => 0x2,
            PeripheralFunction::AF3 => 0x3,
            PeripheralFunction::AF4 => 0x4,
            PeripheralFunction::AF5 => 0x5,
            PeripheralFunction::AF6 => 0x6,
            PeripheralFunction::AF7 => 0x7,
            PeripheralFunction::AF8 => 0x8,
            PeripheralFunction::AF9 => 0x9,
            PeripheralFunction::AF10 => 0xa,
            PeripheralFunction::AF11 => 0xb,
            PeripheralFunction::AF12 => 0xc,
            PeripheralFunction::AF13 => 0xd,
            PeripheralFunction::AF14 => 0xe,
            PeripheralFunction::AF15 => 0xf,
        }
    }
}

/// Image of one port's register block.  The bit-set and bit-reset
/// registers are sixteen bits wide on the hardware and are held in the
/// low half of a cell.
#[derive(Clone, Copy, PartialEq, Eq, Structural, Debug)]
pub struct Registers {
    pub moder: VolatileCell,
    pub otyper: VolatileCell,
    pub ospeedr: VolatileCell,
    pub pupdr: VolatileCell,
    pub idr: VolatileCell,
    pub odr: VolatileCell,
    pub bsr: VolatileCell,
    pub brr: VolatileCell,
    pub lckr: VolatileCell,
    pub afrl: VolatileCell,
    pub afrh: VolatileCell,
}

/// The plain values behind a `Registers` image.
pub struct RegistersView {
    pub moder: u32,
    pub otyper: u32,
    pub ospeedr: u32,
    pub pupdr: u32,
    pub idr: u32,
    pub odr: u32,
    pub bsr: u32,
    pub brr: u32,
    pub lckr: u32,
    pub afrl: u32,
    pub afrh: u32,
}

impl View for Registers {
    type V = RegistersView;

    open spec fn view(&self) -> RegistersView {
        RegistersView {
            moder: self.moder@,
            otyper: self.otyper@,
            ospeedr: self.ospeedr@,
            pupdr: self.pupdr@,
            idr: self.idr@,
            odr: self.odr@,
            bsr: self.bsr@,
            brr: self.brr@,
            lckr: self.lckr@,
            afrl: self.afrl@,
            afrh: self.afrh@,
        }
    }
}

/// The all-zero port image.
pub open spec fn spec_gpio_registers_zero() -> RegistersView {
    RegistersView {
        moder: 0,
        otyper: 0,
        ospeedr: 0,
        pupdr: 0,
        idr: 0,
        odr: 0,
        bsr: 0,
        brr: 0,
        lckr: 0,
        afrl: 0,
        afrh: 0,
    }
}

/// One I/O port: its base address and its register image.
#[derive(Clone, Copy, PartialEq, Eq, Structural, Debug)]
pub struct Gpio {
    pub addr: usize,
    pub regs: Registers,
}

/// The port at `index` (0 for the first port, 10 for the last), with a
/// fresh register image.
pub fn get_port_by_index(index: u16) -> (r: Gpio)
    requires
        index <= 10,
    ensures
        r.addr == GPIO_BASE + GPIO_PORT_SIZE * (index as usize),
        r.regs@ == spec_gpio_registers_zero(),
{
    Gpio {
        addr: GPIO_BASE + GPIO_PORT_SIZE * (index as usize),
        regs: Registers {
            moder: VolatileCell::new(0),
            otyper: VolatileCell::new(0),
            ospeedr: VolatileCell::new(0),
            pupdr: VolatileCell::new(0),
            idr: VolatileCell::new(0),
            odr: VolatileCell::new(0),
            bsr: VolatileCell::new(0),
            brr: VolatileCell::new(0),
            lckr: VolatileCell::new(0),
            afrl: VolatileCell::new(0),
            afrh: VolatileCell::new(0),
        },
    }
}

impl Gpio {
    /// Drive the pins of `pins` high through the bit-set register.
    pub fn set_high(&mut self, pins: u16)
        ensures
            final(self).regs@ == (RegistersView {
                bsr: old(self).regs@.bsr | (pins as u32),
                ..old(self).regs@
            }),
            final(self).addr == old(self).addr,
    {
        self.regs.bsr.check(pins as u32);
    }

    /// Drive the pins of `pins` low through the bit-reset register.
    pub fn set_low(&mut self, pins: u16)
        ensures
            final(self).regs@ == (RegistersView {
                brr: old(self).regs@.brr | (pins as u32),
                ..old(self).regs@
            }),
            final(self).addr == old(self).addr,
    {
        self.regs.brr.check(pins as u32);
    }

    /// Toggle the pins of `pins`: the ones currently low are set, the
    /// ones currently high are reset.
    pub fn toggle(&mut self, pins: u16)
        ensures
            final(self).regs@ == (RegistersView {
                bsr: old(self).regs@.bsr | ((!(old(self).regs@.odr as u16) & pins) as u32),
                brr: old(self).regs@.brr | (((old(self).regs@.odr as u16) & pins) as u32),
                ..old(self).regs@
            }),
            final(self).addr == old(self).addr,
    {
        let port = self.regs.odr.get() as u16;
        self.regs.bsr.check((!port & pins) as u32);
        self.regs.brr.check((port & pins) as u32);
    }

    /// Write the whole output register.
    pub fn write(&mut self, value: u16)
        ensures
            final(self).regs@ == (RegistersView { odr: value as u32, ..old(self).regs@ }),
            final(self).addr == old(self).addr,
    {
        self.regs.odr.set(value as u32);
    }

    /// Read the whole input register.
    pub fn read(&self) -> (r: u16)
        ensures
            r == (self.regs@.idr as u16),
    {
        self.regs.idr.get() as u16
    }

    /// Read the input register restricted to `pins`.
    pub fn read_pins(&self, pins: u16) -> (r: u16)
        ensures
            r == (self.regs@.idr as u16) & pins,
    {
        (self.regs.idr.get() as u16) & pins
    }

    /// Read one input pin.
    pub fn read_pin(&self, pin: u16) -> (r: bool)
        requires
            pin < 16,
        ensures
            r == ((self.regs@.idr as u16) & (1u16 << pin) != 0),
    {
        (self.regs.idr.get() as u16) & (1u16 << pin) != 0
    }

    /// Run the lock-key writing sequence for `pins`, freezing their
    /// configuration until the next reset.
    pub fn lock(&mut self, pins: u16)
        ensures
            final(self).regs@ == (RegistersView {
                lckr: LCKR_LCKK | (pins as u32),
                ..old(self).regs@
            }),
            final(self).addr == old(self).addr,
    {
        /* The "lock key writing sequence" from the reference manual:
           set the key, clear it, set it again, then read back twice. */
        self.regs.lckr.set(LCKR_LCKK | pins as u32);
        self.regs.lckr.set(!LCKR_LCKK & pins as u32);
        self.regs.lckr.set(LCKR_LCKK | pins as u32);
        let _ = self.regs.lckr.get();
        let _ = self.regs.lckr.get();
    }

    /// Select the slew-rate class of one pin: the pin's two-bit field
    /// is replaced, every other pin's is kept.
    pub fn set_pin_output_speed(&mut self, pin: u16, speed: OutputSpeed)
        requires
            pin < 16,
        ensures
            final(self).regs@ == (RegistersView {
                ospeedr: (old(self).regs@.ospeedr & !(0b11u32 << ((pin as u32) << 1))) | ((
                speed.spec_code() << ((pin as u32) << 1)) & (0b11u32 << ((pin as u32) << 1))),
                ..old(self).regs@
            }),
            final(self).addr == old(self).addr,
    {
        let pu: u32 = pin as u32;
        proof {
            assert(pu < 16 ==> pu << 1 < 32) by (bit_vector);
        }
        self.regs.ospeedr.mask_set(0b11u32 << (pu << 1), pu << 1, speed.code());
    }

    /// Select the output driver topology of one pin.
    pub fn set_pin_output_type(&mut self, pin: u16, mode: OutputType)
        ensures
            mode is PushPull ==> final(self).regs@ == (RegistersView {
                otyper: old(self).regs@.otyper & !(pin as u32),
                ..old(self).regs@
            }),
            mode is OpenDrain ==> final(self).regs@ == (RegistersView {
                otyper: old(self).regs@.otyper | (pin as u32),
                ..old(self).regs@
            }),
            final(self).addr == old(self).addr,
    {
        match mode {
            OutputType::PushPull => self.regs.otyper.uncheck(pin as u32),
            OutputType::OpenDrain => self.regs.otyper.check(pin as u32),
        }
    }

    /// Select the mode of one pin: the pin's two-bit field is
    /// replaced, every other pin's is kept.
    pub fn set_pin_mode(&mut self, pin: u16, mode: PinMode)
        requires
            pin < 16,
        ensures
            final(self).regs@ == (RegistersView {
                moder: (old(self).regs@.moder & !(0b11u32 << ((pin as u32) << 1))) | ((
                mode.spec_code() << ((pin as u32) << 1)) & (0b11u32 << ((pin as u32) << 1))),
                ..old(self).regs@
            }),
            final(self).addr == old(self).addr,
    {
        let pu: u32 = pin as u32;
        proof {
            assert(pu < 16 ==> pu << 1 < 32) by (bit_vector);
        }
        self.regs.moder.mask_set(0b11u32 << (pu << 1), pu << 1, mode.code());
    }

    /// Select the pull resistors of one pin: the pin's two-bit field
    /// is replaced, every other pin's is kept.
    pub fn set_pin_pupd(&mut self, pin: u16, pupd: PuPdMode)
        requires
            pin < 16,
        ensures
            final(self).regs@ == (RegistersView {
                pupdr: (old(self).regs@.pupdr & !(0b11u32 << ((pin as u32) << 1))) | ((
                pupd.spec_code() << ((pin as u32) << 1)) & (0b11u32 << ((pin as u32) << 1))),
                ..old(self).regs@
            }),
            final(self).addr == old(self).addr,
    {
        let pu: u32 = pin as u32;
        proof {
            assert(pu < 16 ==> pu << 1 < 32) by (bit_vector);
        }
        self.regs.pupdr.mask_set(0b11u32 << (pu << 1), pu << 1, pupd.code());
    }

    /// Route one pin to an alternate function: pins above seven live in
    /// the high alternate-function register, the rest in the low one.
    /// The field is addressed by the shift of the register routine,
    /// the pin's index modulo eight.
    pub fn set_pin_af(&mut self, pin: u16, af: PeripheralFunction)
        ensures
            pin > 7 ==> final(self).regs@ == (RegistersView {
                afrh: (old(self).regs@.afrh & !(0b1111u32 << ((pin as u32) % 8))) | ((
                af.spec_code() << ((pin as u32) % 8)) & (0b1111u32 << ((pin as u32) % 8))),
                ..old(self).regs@
            }),
            pin <= 7 ==> final(self).regs@ == (RegistersView {
                afrl: (old(self).regs@.afrl & !(0b1111u32 << ((pin as u32) % 8))) | ((
                af.spec_code() << ((pin as u32) % 8)) & (0b1111u32 << ((pin as u32) % 8))),
                ..old(self).regs@
            }),
            final(self).addr == old(self).addr,
    {
        if pin > 7 {
            self.regs.afrh.mask_set(0b1111u32 << ((pin as u32) % 8), (pin as u32) % 8, af.code());
        } else {
            self.regs.afrl.mask_set(0b1111u32 << ((pin as u32) % 8), (pin as u32) % 8, af.code());
        }
    }
}

} // verus!
