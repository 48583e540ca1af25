//! Reset and clock control: peripheral clock gating, oscillator control,
//! PLL programming, bus prescalers, the system-clock switch, and the
//! orchestrated clock-tree bring-up sequence.
//!
//! The driver works on a register image (see [`crate::volatile_cell`]).
//! [`ClockTree`] bundles the clock-control, power-control and
//! flash-control blocks together with a model of the hardware's own
//! behaviour: [`ClockTree::settle`] makes every ready flag follow its
//! enable bit and the switch status follow the selection, which is what
//! the real silicon does while the driver polls.

use vstd::prelude::*;

use crate::flash;
use crate::pwr;
use crate::volatile_cell::VolatileCell;

verus! {

// ---------------------------------------------------------------------
// Register fields
// ---------------------------------------------------------------------

/* CFGR: clock configuration register */
pub const CFGR_PPRE2_SHIFT: u32 = 13;
pub const CFGR_PPRE2_MASK: u32 = 0x7;
pub const CFGR_PPRE1_SHIFT: u32 = 10;
pub const CFGR_PPRE1_MASK: u32 = 0x7;
pub const CFGR_PPRE_DIV_NONE: u32 = 0x0;
pub const CFGR_PPRE_DIV_2: u32 = 0x4;
pub const CFGR_PPRE_DIV_4: u32 = 0x5;
pub const CFGR_PPRE_DIV_8: u32 = 0x6;
pub const CFGR_PPRE_DIV_16: u32 = 0x7;

pub const CFGR_HPRE_SHIFT: u32 = 4;
pub const CFGR_HPRE_MASK: u32 = 0xf;
pub const CFGR_HPRE_DIV_NONE: u32 = 0x0;
pub const CFGR_HPRE_DIV_2: u32 = 0x8 + 0;
pub const CFGR_HPRE_DIV_4: u32 = 0x8 + 1;
pub const CFGR_HPRE_DIV_8: u32 = 0x8 + 2;
pub const CFGR_HPRE_DIV_16: u32 = 0x8 + 3;
pub const CFGR_HPRE_DIV_64: u32 = 0x8 + 4;
pub const CFGR_HPRE_DIV_128: u32 = 0x8 + 5;
pub const CFGR_HPRE_DIV_256: u32 = 0x8 + 6;
pub const CFGR_HPRE_DIV_512: u32 = 0x8 + 7;

pub const CFGR_SWS_SHIFT: u32 = 2;
pub const CFGR_SWS_MASK: u32 = 0x3;
pub const CFGR_SWS_HSI: u32 = 0x0;
pub const CFGR_SWS_HSE: u32 = 0x1;
pub const CFGR_SWS_PLL: u32 = 0x2;

pub const CFGR_SW_SHIFT: u32 = 0;
pub const CFGR_SW_MASK: u32 = 0x3;
pub const CFGR_SW_HSI: u32 = 0x0;
pub const CFGR_SW_HSE: u32 = 0x1;
pub const CFGR_SW_PLL: u32 = 0x2;

/* PLLCFGR: PLL configuration register */
pub const PLLCFGR_PLLR_SHIFT: u32 = 28;
pub const PLLCFGR_PLLR_MASK: u32 = 0x7;
pub const PLLCFGR_PLLQ_SHIFT: u32 = 24;
pub const PLLCFGR_PLLQ_MASK: u32 = 0xf;
pub const PLLCFGR_PLLSRC: u32 = 1 << 22;
pub const PLLCFGR_PLLP_SHIFT: u32 = 16;
pub const PLLCFGR_PLLP_MASK: u32 = 0x3;
pub const PLLCFGR_PLLN_SHIFT: u32 = 6;
pub const PLLCFGR_PLLN_MASK: u32 = 0x1ff;
pub const PLLCFGR_PLLM_SHIFT: u32 = 0;
pub const PLLCFGR_PLLM_MASK: u32 = 0x3f;

/* CR: clock control register */
pub const CR_PLLSAIRDY: u32 = 1 << 29;
pub const CR_PLLSAION: u32 = 1 << 28;
pub const CR_PLLI2SRDY: u32 = 1 << 27;
pub const CR_PLLI2SON: u32 = 1 << 26;
pub const CR_PLLRDY: u32 = 1 << 25;
pub const CR_PLLON: u32 = 1 << 24;
pub const CR_CSSON: u32 = 1 << 19;
pub const CR_HSEBYP: u32 = 1 << 18;
pub const CR_HSERDY: u32 = 1 << 17;
pub const CR_HSEON: u32 = 1 << 16;
pub const CR_HSITRIM_SHIFT: u32 = 3;
pub const CR_HSITRIM_MASK: u32 = 0x1f;
pub const CR_HSIRDY: u32 = 1 << 1;
pub const CR_HSION: u32 = 1 << 0;

/* CSR: control/status register */
pub const CSR_LPWRRSTF: u32 = 1 << 31;
pub const CSR_WWDGRSTF: u32 = 1 << 30;
pub const CSR_IWDGRSTF: u32 = 1 << 29;
pub const CSR_SFTRSTF: u32 = 1 << 28;
pub const CSR_PORRSTF: u32 = 1 << 27;
pub const CSR_PINRSTF: u32 = 1 << 26;
pub const CSR_BORRSTF: u32 = 1 << 25;
pub const CSR_RMVF: u32 = 1 << 24;
pub const CSR_LSIRDY: u32 = 1 << 1;
pub const CSR_LSION: u32 = 1 << 0;

/* BDCR: backup domain control register */
pub const BDCR_BDRST: u32 = 1 << 16;
pub const BDCR_RTCEN: u32 = 1 << 15;
pub const BDCR_RTCSEL_SHIFT: u32 = 8;
pub const BDCR_RTCSEL_MASK: u32 = 0x3;
pub const BDCR_LSEMOD: u32 = 1 << 3;
pub const BDCR_LSEBYP: u32 = 1 << 2;
pub const BDCR_LSERDY: u32 = 1 << 1;
pub const BDCR_LSEON: u32 = 1 << 0;

// ---------------------------------------------------------------------
// Enumerations
// ---------------------------------------------------------------------

/// Every gateable peripheral, identified by its bus (upper byte of the
/// code) and its enable-bit position's mask value (lower byte).
#[derive(Clone, Copy, PartialEq, Eq, Structural, Debug)]
#[allow(non_camel_case_types)]
pub enum Peripheral {
    /* AHB1 peripherals */
    GPIOA,
    GPIOB,
    GPIOC,
    GPIOD,
    GPIOE,
    GPIOF,
    GPIOG,
    GPIOH,
    GPIOI,
    GPIOJ,
    GPIOK,
    CRC,
    FLTIF,
    SRAM1,
    SRAM2,
    BKPSRAM,
    SRAM3,
    DMA1,
    DMA2,
    DMA2D,
    ETHMAC,
    ETHMACTX,
    ETHMACRX,
    ETHMACPTP,
    OTGHS,
    OTGHSULPI,
    /* AHB2 peripherals */
    DCMI,
    CRYP,
    HASH,
    RNG,
    OTGFS,
    /* AHB3 peripherals */
    FSMC,
    QSPIC,
    /* APB1 peripherals */
    TIM2,
    TIM3,
    TIM4,
    TIM5,
    TIM6,
    TIM7,
    TIM12,
    TIM13,
    TIM14,
    WWDG,
    SPI2,
    SPI3,
    USART2,
    USART3,
    UART4,
    UART5,
    I2C1,
    I2C2,
    I2C3,
    CAN1,
    CAN2,
    PWR,
    DAC,
    UART7,
    UART8,
    /* APB2 peripherals */
    TIM1,
    TIM8,
    USART1,
    USART6,
    ADC1,
    ADC2,
    ADC3,
    SDIO,
    SPI1,
    SPI4,
    SYSCFG,
    TIM9,
    TIM10,
    TIM11,
    SPI5,
    SPI6,
    SAI1,
    LTDC,
    DSI,
    /* BDCR */
    RTC,
}

impl Peripheral {
    /// Bus (upper byte) and bit value (lower byte) of the peripheral.
    pub open spec fn spec_code(self) -> u32 {
        match self {
            Peripheral::GPIOA => 0x000,
            Peripheral::GPIOB => 0x001,
            Peripheral::GPIOC => 0x002,
            Peripheral::GPIOD => 0x003,
            Peripheral::GPIOE => 0x004,
            Peripheral::GPIOF => 0x005,
            Peripheral::GPIOG => 0x006,
            Peripheral::GPIOH => 0x007,
            Peripheral::GPIOI => 0x008,
            Peripheral::GPIOJ => 0x009,
            Peripheral::GPIOK => 0x00A,
            Peripheral::CRC => 0x00C,
            Peripheral::FLTIF => 0x00F,
            Peripheral::SRAM1 => 0x010,
            Peripheral::SRAM2 => 0x011,
            Peripheral::BKPSRAM => 0x012,
            Peripheral::SRAM3 => 0x013,
            Peripheral::DMA1 => 0x015,
            Peripheral::DMA2 => 0x016,
            Peripheral::DMA2D => 0x017,
            Peripheral::ETHMAC => 0x019,
            Peripheral::ETHMACTX => 0x01A,
            Peripheral::ETHMACRX => 0x01B,
            Peripheral::ETHMACPTP => 0x01C,
            Peripheral::OTGHS => 0x01D,
            Peripheral::OTGHSULPI => 0x01E,
            Peripheral::DCMI => 0x100,
            Peripheral::CRYP => 0x104,
            Peripheral::HASH => 0x105,
            Peripheral::RNG => 0x106,
            Peripheral::OTGFS => 0x107,
            Peripheral::FSMC => 0x200,
            Peripheral::QSPIC => 0x201,
            Peripheral::TIM2 => 0x300,
            Peripheral::TIM3 => 0x301,
            Peripheral::TIM4 => 0x302,
            Peripheral::TIM5 => 0x303,
            Peripheral::TIM6 => 0x304,
            Peripheral::TIM7 => 0x305,
            Peripheral::TIM12 => 0x306,
            Peripheral::TIM13 => 0x307,
            Peripheral::TIM14 => 0x308,
            Peripheral::WWDG => 0x30B,
            Peripheral::SPI2 => 0x30E,
            Peripheral::SPI3 => 0x30F,
            Peripheral::USART2 => 0x311,
            Peripheral::USART3 => 0x312,
            Peripheral::UART4 => 0x313,
            Peripheral::UART5 => 0x314,
            Peripheral::I2C1 => 0x315,
            Peripheral::I2C2 => 0x316,
            Peripheral::I2C3 => 0x317,
            Peripheral::CAN1 => 0x319,
            Peripheral::CAN2 => 0x31A,
            Peripheral::PWR => 0x31C,
            Peripheral::DAC => 0x31D,
            Peripheral::UART7 => 0x31E,
            Peripheral::UART8 => 0x31F,
            Peripheral::TIM1 => 0x400,
            Peripheral::TIM8 => 0x401,
            Peripheral::USART1 => 0x404,
            Peripheral::USART6 => 0x405,
            Peripheral::ADC1 => 0x408,
            Peripheral::ADC2 => 0x409,
            Peripheral::ADC3 => 0x40A,
            Peripheral::SDIO => 0x40B,
            Peripheral::SPI1 => 0x40C,
            Peripheral::SPI4 => 0x40D,
            Peripheral::SYSCFG => 0x40E,
            Peripheral::TIM9 => 0x410,
            Peripheral::TIM10 => 0x411,
            Peripheral::TIM11 => 0x412,
            Peripheral::SPI5 => 0x414,
            Peripheral::SPI6 => 0x415,
            Peripheral::SAI1 => 0x416,
            Peripheral::LTDC => 0x41A,
            Peripheral::DSI => 0x41B,
            Peripheral::RTC => 0x50F,
        }
    }

    pub fn code(self) -> (r: u32)
        ensures
            r == self.spec_code(),
    {
        match self {
            Peripheral::GPIOA => 0x000,
            Peripheral::GPIOB => 0x001,
            Peripheral::GPIOC => 0x002,
            Peripheral::GPIOD => 0x003,
            Peripheral::GPIOE => 0x004,
            Peripheral::GPIOF => 0x005,
            Peripheral::GPIOG => 0x006,
            Peripheral::GPIOH => 0x007,
            Peripheral::GPIOI => 0x008,
            Peripheral::GPIOJ => 0x009,
            Peripheral::GPIOK => 0x00A,
            Peripheral::CRC => 0x00C,
            Peripheral::FLTIF => 0x00F,
            Peripheral::SRAM1 => 0x010,
            Peripheral::SRAM2 => 0x011,
            Peripheral::BKPSRAM => 0x012,
            Peripheral::SRAM3 => 0x013,
            Peripheral::DMA1 => 0x015,
            Peripheral::DMA2 => 0x016,
            Peripheral::DMA2D => 0x017,
            Peripheral::ETHMAC => 0x019,
            Peripheral::ETHMACTX => 0x01A,
            Peripheral::ETHMACRX => 0x01B,
            Peripheral::ETHMACPTP => 0x01C,
            Peripheral::OTGHS => 0x01D,
            Peripheral::OTGHSULPI => 0x01E,
            Peripheral::DCMI => 0x100,
            Peripheral::CRYP => 0x104,
            Peripheral::HASH => 0x105,
            Peripheral::RNG => 0x106,
            Peripheral::OTGFS => 0x107,
            Peripheral::FSMC => 0x200,
            Peripheral::QSPIC => 0x201,
            Peripheral::TIM2 => 0x300,
            Peripheral::TIM3 => 0x301,
            Peripheral::TIM4 => 0x302,
            Peripheral::TIM5 => 0x303,
            Peripheral::TIM6 => 0x304,
            Peripheral::TIM7 => 0x305,
            Peripheral::TIM12 => 0x306,
            Peripheral::TIM13 => 0x307,
            Peripheral::TIM14 => 0x308,
            Peripheral::WWDG => 0x30B,
            Peripheral::SPI2 => 0x30E,
            Peripheral::SPI3 => 0x30F,
            Peripheral::USART2 => 0x311,
            Peripheral::USART3 => 0x312,
            Peripheral::UART4 => 0x313,
            Peripheral::UART5 => 0x314,
            Peripheral::I2C1 => 0x315,
            Peripheral::I2C2 => 0x316,
            Peripheral::I2C3 => 0x317,
            Peripheral::CAN1 => 0x319,
            Peripheral::CAN2 => 0x31A,
            Peripheral::PWR => 0x31C,
            Peripheral::DAC => 0x31D,
            Peripheral::UART7 => 0x31E,
            Peripheral::UART8 => 0x31F,
            Peripheral::TIM1 => 0x400,
            Peripheral::TIM8 => 0x401,
            Peripheral::USART1 => 0x404,
            Peripheral::USART6 => 0x405,
            Peripheral::ADC1 => 0x408,
            Peripheral::ADC2 => 0x409,
            Peripheral::ADC3 => 0x40A,
            Peripheral::SDIO => 0x40B,
            Peripheral::SPI1 => 0x40C,
            Peripheral::SPI4 => 0x40D,
            Peripheral::SYSCFG => 0x40E,
            Peripheral::TIM9 => 0x410,
            Peripheral::TIM10 => 0x411,
            Peripheral::TIM11 => 0x412,
            Peripheral::SPI5 => 0x414,
            Peripheral::SPI6 => 0x415,
            Peripheral::SAI1 => 0x416,
            Peripheral::LTDC => 0x41A,
            Peripheral::DSI => 0x41B,
            Peripheral::RTC => 0x50F,
        }
    }

    /// Which bus register bank holds the peripheral's bits.
    pub open spec fn spec_bus(self) -> u32 {
        (self.spec_code() >> 8) & 0xFF
    }

    /// The value or-ed into (or cleared from) the bank's register.
    pub open spec fn spec_bit(self) -> u32 {
        self.spec_code() & 0xFF
    }
}

/// A clock source with an enable bit and a ready flag.
#[derive(Clone, Copy, PartialEq, Eq, Structural, Debug)]
pub enum Osc {
    PLL,
    PLLSAI,
    PLLI2S,
    HSE,
    HSI,
    LSE,
    LSI,
}

/// The supported input crystal frequencies.
#[derive(Clone, Copy, PartialEq, Eq, Structural, Debug)]
pub enum CrystalClock {
    Clock8MHz,
    Clock12MHz,
    Clock16MHz,
    Clock25MHz,
}

/// The supported target system-clock tiers.
#[derive(Clone, Copy, PartialEq, Eq, Structural, Debug)]
pub enum Clock {
    Clock48MHz,
    Clock84MHz,
    Clock120MHz,
    Clock168MHz,
}

// ---------------------------------------------------------------------
// The register block
// ---------------------------------------------------------------------

/// Image of the reset-and-clock-control register block.
#[derive(Clone, Copy, PartialEq, Eq, Structural, Debug)]
pub struct Registers {
    pub cr: VolatileCell,
    pub pllcfgr: VolatileCell,
    pub cfgr: VolatileCell,
    pub cir: VolatileCell,
    pub ahb1rstr: VolatileCell,
    pub ahb2rstr: VolatileCell,
    pub ahb3rstr: VolatileCell,
    pub apb1rstr: VolatileCell,
    pub apb2rstr: VolatileCell,
    pub ahb1enr: VolatileCell,
    pub ahb2enr: VolatileCell,
    pub ahb3enr: VolatileCell,
    pub apb1enr: VolatileCell,
    pub apb2enr: VolatileCell,
    pub ahb1lpenr: VolatileCell,
    pub ahb2lpenr: VolatileCell,
    pub ahb3lpenr: VolatileCell,
    pub apb1lpenr: VolatileCell,
    pub apb2lpenr: VolatileCell,
    pub bdcr: VolatileCell,
    pub csr: VolatileCell,
    pub sscgr: VolatileCell,
    pub plli2scfgr: VolatileCell,
}

/// The plain values behind a `Registers` image.
pub struct RegistersView {
    pub cr: u32,
    pub pllcfgr: u32,
    pub cfgr: u32,
    pub cir: u32,
    pub ahb1rstr: u32,
    pub ahb2rstr: u32,
    pub ahb3rstr: u32,
    pub apb1rstr: u32,
    pub apb2rstr: u32,
    pub ahb1enr: u32,
    pub ahb2enr: u32,
    pub ahb3enr: u32,
    pub apb1enr: u32,
    pub apb2enr: u32,
    pub ahb1lpenr: u32,
    pub ahb2lpenr: u32,
    pub ahb3lpenr: u32,
    pub apb1lpenr: u32,
    pub apb2lpenr: u32,
    pub bdcr: u32,
    pub csr: u32,
    pub sscgr: u32,
    pub plli2scfgr: u32,
}

impl View for Registers {
    type V = RegistersView;

    open spec fn view(&self) -> RegistersView {
        RegistersView {
            cr: self.cr@,
            pllcfgr: self.pllcfgr@,
            cfgr: self.cfgr@,
            cir: self.cir@,
            ahb1rstr: self.ahb1rstr@,
            ahb2rstr: self.ahb2rstr@,
            ahb3rstr: self.ahb3rstr@,
            apb1rstr: self.apb1rstr@,
            apb2rstr: self.apb2rstr@,
            ahb1enr: self.ahb1enr@,
            ahb2enr: self.ahb2enr@,
            ahb3enr: self.ahb3enr@,
            apb1enr: self.apb1enr@,
            apb2enr: self.apb2enr@,
            ahb1lpenr: self.ahb1lpenr@,
            ahb2lpenr: self.ahb2lpenr@,
            ahb3lpenr: self.ahb3lpenr@,
            apb1lpenr: self.apb1lpenr@,
            apb2lpenr: self.apb2lpenr@,
            bdcr: self.bdcr@,
            csr: self.csr@,
            sscgr: self.sscgr@,
            plli2scfgr: self.plli2scfgr@,
        }
    }
}

/// The all-zero register image.
pub open spec fn spec_registers_zero() -> RegistersView {
    RegistersView {
        cr: 0,
        pllcfgr: 0,
        cfgr: 0,
        cir: 0,
        ahb1rstr: 0,
        ahb2rstr: 0,
        ahb3rstr: 0,
        apb1rstr: 0,
        apb2rstr: 0,
        ahb1enr: 0,
        ahb2enr: 0,
        ahb3enr: 0,
        apb1enr: 0,
        apb2enr: 0,
        ahb1lpenr: 0,
        ahb2lpenr: 0,
        ahb3lpenr: 0,
        apb1lpenr: 0,
        apb2lpenr: 0,
        bdcr: 0,
        csr: 0,
        sscgr: 0,
        plli2scfgr: 0,
    }
}

impl Registers {
    /// A register image with every register at zero.
    pub fn new() -> (r: Registers)
        ensures
            r@ == spec_registers_zero(),
    {
        Registers {
            cr: VolatileCell::new(0),
            pllcfgr: VolatileCell::new(0),
            cfgr: VolatileCell::new(0),
            cir: VolatileCell::new(0),
            ahb1rstr: VolatileCell::new(0),
            ahb2rstr: VolatileCell::new(0),
            ahb3rstr: VolatileCell::new(0),
            apb1rstr: VolatileCell::new(0),
            apb2rstr: VolatileCell::new(0),
            ahb1enr: VolatileCell::new(0),
            ahb2enr: VolatileCell::new(0),
            ahb3enr: VolatileCell::new(0),
            apb1enr: VolatileCell::new(0),
            apb2enr: VolatileCell::new(0),
            ahb1lpenr: VolatileCell::new(0),
            ahb2lpenr: VolatileCell::new(0),
            ahb3lpenr: VolatileCell::new(0),
            apb1lpenr: VolatileCell::new(0),
            apb2lpenr: VolatileCell::new(0),
            bdcr: VolatileCell::new(0),
            csr: VolatileCell::new(0),
            sscgr: VolatileCell::new(0),
            plli2scfgr: VolatileCell::new(0),
        }
    }
}

// ---------------------------------------------------------------------
// Peripheral clock gating and reset
// ---------------------------------------------------------------------

/// The effect of `enable`: the peripheral's bit value is or-ed into the
/// enable register of its bus.
pub open spec fn spec_enable(v: RegistersView, p: Peripheral) -> RegistersView {
    let bit = p.spec_bit();
    let bus = p.spec_bus();
    if bus == 0 {
        RegistersView { ahb1enr: v.ahb1enr | bit, ..v }
    } else if bus == 1 {
        RegistersView { ahb2enr: v.ahb2enr | bit, ..v }
    } else if bus == 2 {
        RegistersView { ahb3enr: v.ahb3enr | bit, ..v }
    } else if bus == 3 {
        RegistersView { apb1enr: v.apb1enr | bit, ..v }
    } else if bus == 4 {
        RegistersView { apb2enr: v.apb2enr | bit, ..v }
    } else if bus == 5 {
        RegistersView { bdcr: v.bdcr | bit, ..v }
    } else {
        v
    }
}

/// Gate the peripheral's clock on.
pub fn enable(rcc: &mut Registers, perph: Peripheral)
    ensures
        final(rcc)@ == spec_enable(old(rcc)@, perph),
{
    let p = perph.code();
    let bit = p & 0xFF;
    let bus = (p >> 8) & 0xFF;
    match bus {
        0 => rcc.ahb1enr.check(bit),
        1 => rcc.ahb2enr.check(bit),
        2 => rcc.ahb3enr.check(bit),
        3 => rcc.apb1enr.check(bit),
        4 => rcc.apb2enr.check(bit),
        5 => rcc.bdcr.check(bit),
        _ => {},
    }
}

/// The effect of `disable`: the peripheral's bit value is cleared from
/// the enable register of its bus.
pub open spec fn spec_disable(v: RegistersView, p: Peripheral) -> RegistersView {
    let bit = p.spec_bit();
    let bus = p.spec_bus();
    if bus == 0 {
        RegistersView { ahb1enr: v.ahb1enr & !bit, ..v }
    } else if bus == 1 {
        RegistersView { ahb2enr: v.ahb2enr & !bit, ..v }
    } else if bus == 2 {
        RegistersView { ahb3enr: v.ahb3enr & !bit, ..v }
    } else if bus == 3 {
        RegistersView { apb1enr: v.apb1enr & !bit, ..v }
    } else if bus == 4 {
        RegistersView { apb2enr: v.apb2enr & !bit, ..v }
    } else if bus == 5 {
        RegistersView { bdcr: v.bdcr & !bit, ..v }
    } else {
        v
    }
}

/// Gate the peripheral's clock off.
pub fn disable(rcc: &mut Registers, perph: Peripheral)
    ensures
        final(rcc)@ == spec_disable(old(rcc)@, perph),
{
    let p = perph.code();
    let bit = p & 0xFF;
    let bus = (p >> 8) & 0xFF;
    match bus {
        0 => rcc.ahb1enr.uncheck(bit),
        1 => rcc.ahb2enr.uncheck(bit),
        2 => rcc.ahb3enr.uncheck(bit),
        3 => rcc.apb1enr.uncheck(bit),
        4 => rcc.apb2enr.uncheck(bit),
        5 => rcc.bdcr.uncheck(bit),
        _ => {},
    }
}

/// The effect of `reset_pulse`: the peripheral's bit value is or-ed
/// into, and then cleared from, the reset register of its bus.  The
/// backup domain has no pulse reset.
pub open spec fn spec_reset_pulse(v: RegistersView, p: Peripheral) -> RegistersView {
    let bit = p.spec_bit();
    let bus = p.spec_bus();
    if bus == 0 {
        RegistersView { ahb1rstr: (v.ahb1rstr | bit) & !bit, ..v }
    } else if bus == 1 {
        RegistersView { ahb2rstr: (v.ahb2rstr | bit) & !bit, ..v }
    } else if bus == 2 {
        RegistersView { ahb3rstr: (v.ahb3rstr | bit) & !bit, ..v }
    } else if bus == 3 {
        RegistersView { apb1rstr: (v.apb1rstr | bit) & !bit, ..v }
    } else if bus == 4 {
        RegistersView { apb2rstr: (v.apb2rstr | bit) & !bit, ..v }
    } else {
        v
    }
}

/// Put the peripheral into reset and release it again.
pub fn reset_pulse(rcc: &mut Registers, perph: Peripheral)
    ensures
        final(rcc)@ == spec_reset_pulse(old(rcc)@, perph),
{
    let p = perph.code();
    let bit = p & 0xFF;
    let bus = (p >> 8) & 0xFF;
    match bus {
        0 => {
            rcc.ahb1rstr.check(bit);
            rcc.ahb1rstr.uncheck(bit);
        },
        1 => {
            rcc.ahb2rstr.check(bit);
            rcc.ahb2rstr.uncheck(bit);
        },
        2 => {
            rcc.ahb3rstr.check(bit);
            rcc.ahb3rstr.uncheck(bit);
        },
        3 => {
            rcc.apb1rstr.check(bit);
            rcc.apb1rstr.uncheck(bit);
        },
        4 => {
            rcc.apb2rstr.check(bit);
            rcc.apb2rstr.uncheck(bit);
        },
        _ => {},
    }
}

/// The effect of `reset_hold`: the peripheral's bit value is or-ed into
/// the reset register of its bus.
pub open spec fn spec_reset_hold(v: RegistersView, p: Peripheral) -> RegistersView {
    let bit = p.spec_bit();
    let bus = p.spec_bus();
    if bus == 0 {
        RegistersView { ahb1rstr: v.ahb1rstr | bit, ..v }
    } else if bus == 1 {
        RegistersView { ahb2rstr: v.ahb2rstr | bit, ..v }
    } else if bus == 2 {
        RegistersView { ahb3rstr: v.ahb3rstr | bit, ..v }
    } else if bus == 3 {
        RegistersView { apb1rstr: v.apb1rstr | bit, ..v }
    } else if bus == 4 {
        RegistersView { apb2rstr: v.apb2rstr | bit, ..v }
    } else {
        v
    }
}

/// Hold the peripheral in reset.
pub fn reset_hold(rcc: &mut Registers, perph: Peripheral)
    ensures
        final(rcc)@ == spec_reset_hold(old(rcc)@, perph),
{
    let p = perph.code();
    let bit = p & 0xFF;
    let bus = (p >> 8) & 0xFF;
    match bus {
        0 => rcc.ahb1rstr.check(bit),
        1 => rcc.ahb2rstr.check(bit),
        2 => rcc.ahb3rstr.check(bit),
        3 => rcc.apb1rstr.check(bit),
        4 => rcc.apb2rstr.check(bit),
        _ => {},
    }
}

/// The effect of `reset_release`: the peripheral's bit value is cleared
/// from the reset register of its bus.
pub open spec fn spec_reset_release(v: RegistersView, p: Peripheral) -> RegistersView {
    let bit = p.spec_bit();
    let bus = p.spec_bus();
    if bus == 0 {
        RegistersView { ahb1rstr: v.ahb1rstr & !bit, ..v }
    } else if bus == 1 {
        RegistersView { ahb2rstr: v.ahb2rstr & !bit, ..v }
    } else if bus == 2 {
        RegistersView { ahb3rstr: v.ahb3rstr & !bit, ..v }
    } else if bus == 3 {
        RegistersView { apb1rstr: v.apb1rstr & !bit, ..v }
    } else if bus == 4 {
        RegistersView { apb2rstr: v.apb2rstr & !bit, ..v }
    } else {
        v
    }
}

/// Take the peripheral back out of reset.
pub fn reset_release(rcc: &mut Registers, perph: Peripheral)
    ensures
        final(rcc)@ == spec_reset_release(old(rcc)@, perph),
{
    let p = perph.code();
    let bit = p & 0xFF;
    let bus = (p >> 8) & 0xFF;
    match bus {
        0 => rcc.ahb1rstr.uncheck(bit),
        1 => rcc.ahb2rstr.uncheck(bit),
        2 => rcc.ahb3rstr.uncheck(bit),
        3 => rcc.apb1rstr.uncheck(bit),
        4 => rcc.apb2rstr.uncheck(bit),
        _ => {},
    }
}


// ---------------------------------------------------------------------
// Oscillator control
// ---------------------------------------------------------------------

/// Whether the enable bit of `osc` is set.
pub open spec fn spec_osc_enabled(v: RegistersView, osc: Osc) -> bool {
    match osc {
        Osc::PLL => v.cr & CR_PLLON != 0,
        Osc::PLLSAI => v.cr & CR_PLLSAION != 0,
        Osc::PLLI2S => v.cr & CR_PLLI2SON != 0,
        Osc::HSE => v.cr & CR_HSEON != 0,
        Osc::HSI => v.cr & CR_HSION != 0,
        Osc::LSE => v.bdcr & BDCR_LSEON != 0,
        Osc::LSI => v.csr & CSR_LSION != 0,
    }
}

/// Whether the ready flag of `osc` is set.
pub open spec fn spec_osc_ready(v: RegistersView, osc: Osc) -> bool {
    match osc {
        Osc::PLL => v.cr & CR_PLLRDY != 0,
        Osc::PLLSAI => v.cr & CR_PLLSAIRDY != 0,
        Osc::PLLI2S => v.cr & CR_PLLI2SRDY != 0,
        Osc::HSE => v.cr & CR_HSERDY != 0,
        Osc::HSI => v.cr & CR_HSIRDY != 0,
        Osc::LSE => v.bdcr & BDCR_LSERDY != 0,
        Osc::LSI => v.csr & CSR_LSIRDY != 0,
    }
}

/// The effect of `osc_on`: the enable bit of `osc` is set.
pub open spec fn spec_osc_on(v: RegistersView, osc: Osc) -> RegistersView {
    match osc {
        Osc::PLL => RegistersView { cr: v.cr | CR_PLLON, ..v },
        Osc::PLLSAI => RegistersView { cr: v.cr | CR_PLLSAION, ..v },
        Osc::PLLI2S => RegistersView { cr: v.cr | CR_PLLI2SON, ..v },
        Osc::HSE => RegistersView { cr: v.cr | CR_HSEON, ..v },
        Osc::HSI => RegistersView { cr: v.cr | CR_HSION, ..v },
        Osc::LSE => RegistersView { bdcr: v.bdcr | BDCR_LSEON, ..v },
        Osc::LSI => RegistersView { csr: v.csr | CSR_LSION, ..v },
    }
}

/// The effect of `osc_off`: the enable bit of `osc` is cleared.
pub open spec fn spec_osc_off(v: RegistersView, osc: Osc) -> RegistersView {
    match osc {
        Osc::PLL => RegistersView { cr: v.cr & !CR_PLLON, ..v },
        Osc::PLLSAI => RegistersView { cr: v.cr & !CR_PLLSAION, ..v },
        Osc::PLLI2S => RegistersView { cr: v.cr & !CR_PLLI2SON, ..v },
        Osc::HSE => RegistersView { cr: v.cr & !CR_HSEON, ..v },
        Osc::HSI => RegistersView { cr: v.cr & !CR_HSION, ..v },
        Osc::LSE => RegistersView { bdcr: v.bdcr & !BDCR_LSEON, ..v },
        Osc::LSI => RegistersView { csr: v.csr & !CSR_LSION, ..v },
    }
}

/// Switch the oscillator on.
pub fn osc_on(rcc: &mut Registers, osc: Osc)
    ensures
        final(rcc)@ == spec_osc_on(old(rcc)@, osc),
        spec_osc_enabled(final(rcc)@, osc),
{
    let ghost pre_cr = rcc@.cr;
    let ghost pre_bdcr = rcc@.bdcr;
    let ghost pre_csr = rcc@.csr;
    match osc {
        Osc::PLL => rcc.cr.check(CR_PLLON),
        Osc::PLLSAI => rcc.cr.check(CR_PLLSAION),
        Osc::PLLI2S => rcc.cr.check(CR_PLLI2SON),
        Osc::HSE => rcc.cr.check(CR_HSEON),
        Osc::HSI => rcc.cr.check(CR_HSION),
        Osc::LSE => rcc.bdcr.check(BDCR_LSEON),
        Osc::LSI => rcc.csr.check(CSR_LSION),
    }
    proof {
        match osc {
            Osc::PLL => {
                assert((pre_cr | CR_PLLON) & CR_PLLON != 0) by (bit_vector);
            },
            Osc::PLLSAI => {
                assert((pre_cr | CR_PLLSAION) & CR_PLLSAION != 0) by (bit_vector);
            },
            Osc::PLLI2S => {
                assert((pre_cr | CR_PLLI2SON) & CR_PLLI2SON != 0) by (bit_vector);
            },
            Osc::HSE => {
                assert((pre_cr | CR_HSEON) & CR_HSEON != 0) by (bit_vector);
            },
            Osc::HSI => {
                assert((pre_cr | CR_HSION) & CR_HSION != 0) by (bit_vector);
            },
            Osc::LSE => {
                assert((pre_bdcr | BDCR_LSEON) & BDCR_LSEON != 0) by (bit_vector);
            },
            Osc::LSI => {
                assert((pre_csr | CSR_LSION) & CSR_LSION != 0) by (bit_vector);
            },
        }
    }
}

/// Switch the oscillator off.
pub fn osc_off(rcc: &mut Registers, osc: Osc)
    ensures
        final(rcc)@ == spec_osc_off(old(rcc)@, osc),
{
    match osc {
        Osc::PLL => rcc.cr.uncheck(CR_PLLON),
        Osc::PLLSAI => rcc.cr.uncheck(CR_PLLSAION),
        Osc::PLLI2S => rcc.cr.uncheck(CR_PLLI2SON),
        Osc::HSE => rcc.cr.uncheck(CR_HSEON),
        Osc::HSI => rcc.cr.uncheck(CR_HSION),
        Osc::LSE => rcc.bdcr.uncheck(BDCR_LSEON),
        Osc::LSI => rcc.csr.uncheck(CSR_LSION),
    }
}

/// A single, non-blocking poll of the oscillator's ready flag.
pub fn is_osc_ready(rcc: &Registers, osc: Osc) -> (r: bool)
    ensures
        r == spec_osc_ready(rcc@, osc),
{
    match osc {
        Osc::PLL => rcc.cr.test(CR_PLLRDY),
        Osc::PLLSAI => rcc.cr.test(CR_PLLSAIRDY),
        Osc::PLLI2S => rcc.cr.test(CR_PLLI2SRDY),
        Osc::HSE => rcc.cr.test(CR_HSERDY),
        Osc::HSI => rcc.cr.test(CR_HSIRDY),
        Osc::LSE => rcc.bdcr.test(BDCR_LSERDY),
        Osc::LSI => rcc.csr.test(CSR_LSIRDY),
    }
}

/// Poll the ready flag until it is seen set.  On a register image the
/// flag cannot change between polls, so it must already be set; on the
/// hardware this is the fail-stop wait of the bring-up sequence (see
/// `wait_for_osc_ready_timeout` for the bounded variant).
pub fn wait_for_osc_ready(rcc: &Registers, osc: Osc)
    requires
        spec_osc_ready(rcc@, osc),
{
    while !is_osc_ready(rcc, osc)
        invariant
            spec_osc_ready(rcc@, osc),
        decreases 0int,
    {
    }
}

// ---------------------------------------------------------------------
// System clock switch and prescalers
// ---------------------------------------------------------------------

/// The switch-status field of the clock configuration register.
pub open spec fn spec_sysclk_status(v: RegistersView) -> u32 {
    (v.cfgr >> CFGR_SWS_SHIFT) & CFGR_SWS_MASK
}

/// The effect of `set_sysclk_source`: the source-select field is
/// replaced by `clk`.
pub open spec fn spec_set_sysclk_source(v: RegistersView, clk: u32) -> RegistersView {
    RegistersView { cfgr: (v.cfgr & !CFGR_SW_MASK) | clk, ..v }
}

/// Select the system clock source.
pub fn set_sysclk_source(rcc: &mut Registers, clk: u32)
    ensures
        final(rcc)@ == spec_set_sysclk_source(old(rcc)@, clk),
        clk <= 3 ==> final(rcc)@.cfgr & CFGR_SW_MASK == clk,
{
    let ghost pre_cfgr = rcc@.cfgr;
    let mut reg32 = rcc.cfgr.get();
    reg32 &= !CFGR_SW_MASK;
    rcc.cfgr.set(reg32 | clk);
    proof {
        assert(clk <= 3 ==> ((pre_cfgr & !CFGR_SW_MASK) | clk) & CFGR_SW_MASK == clk)
            by (bit_vector);
    }
}

/// Poll the switch-status field until it confirms `osc` as the active
/// source (a no-op for sources the switch cannot select).  On a register
/// image the status cannot change between polls, so it must already
/// confirm `osc`; see `wait_for_sysclk_status_timeout` for the bounded
/// variant.
pub fn wait_for_sysclk_status(rcc: &Registers, osc: Osc)
    requires
        osc is PLL ==> spec_sysclk_status(rcc@) == CFGR_SWS_PLL,
        osc is HSE ==> spec_sysclk_status(rcc@) == CFGR_SWS_HSE,
        osc is HSI ==> spec_sysclk_status(rcc@) == CFGR_SWS_HSI,
{
    match osc {
        Osc::PLL => {
            while (rcc.cfgr.get() >> CFGR_SWS_SHIFT) & CFGR_SWS_MASK != CFGR_SWS_PLL
                invariant
                    spec_sysclk_status(rcc@) == CFGR_SWS_PLL,
                decreases 0int,
            {
            }
        },
        Osc::HSE => {
            while (rcc.cfgr.get() >> CFGR_SWS_SHIFT) & CFGR_SWS_MASK != CFGR_SWS_HSE
                invariant
                    spec_sysclk_status(rcc@) == CFGR_SWS_HSE,
                decreases 0int,
            {
            }
        },
        Osc::HSI => {
            while (rcc.cfgr.get() >> CFGR_SWS_SHIFT) & CFGR_SWS_MASK != CFGR_SWS_HSI
                invariant
                    spec_sysclk_status(rcc@) == CFGR_SWS_HSI,
                decreases 0int,
            {
            }
        },
        _ => {},
    }
}

/// The effect of `set_hpre` on the configuration register: the AHB
/// prescaler field is replaced by `hpre` and every other bit is left
/// unchanged.
pub open spec fn spec_set_hpre(v: RegistersView, hpre: u32) -> RegistersView {
    RegistersView {
        cfgr: (v.cfgr & !(CFGR_HPRE_MASK << CFGR_HPRE_SHIFT)) | (hpre << CFGR_HPRE_SHIFT),
        ..v
    }
}

/// Program the AHB prescaler field.
pub fn set_hpre(rcc: &mut Registers, hpre: u32)
    ensures
        final(rcc)@ == spec_set_hpre(old(rcc)@, hpre),
{
    let mut reg32 = rcc.cfgr.get();
    reg32 &= !(CFGR_HPRE_MASK << CFGR_HPRE_SHIFT);
    rcc.cfgr.set(reg32 | (hpre << CFGR_HPRE_SHIFT));
}

/// The effect of `set_ppre1`: the APB1 prescaler field is replaced by
/// `ppre1` and every other bit is left unchanged.
pub open spec fn spec_set_ppre1(v: RegistersView, ppre1: u32) -> RegistersView {
    RegistersView {
        cfgr: (v.cfgr & !(CFGR_PPRE1_MASK << CFGR_PPRE1_SHIFT)) | (ppre1 << CFGR_PPRE1_SHIFT),
        ..v
    }
}

/// Program the APB1 prescaler field.
pub fn set_ppre1(rcc: &mut Registers, ppre1: u32)
    ensures
        final(rcc)@ == spec_set_ppre1(old(rcc)@, ppre1),
{
    let mut reg32 = rcc.cfgr.get();
    reg32 &= !(CFGR_PPRE1_MASK << CFGR_PPRE1_SHIFT);
    rcc.cfgr.set(reg32 | (ppre1 << CFGR_PPRE1_SHIFT));
}

/// The effect of `set_ppre2`: the APB2 prescaler field is replaced by
/// `ppre2` and every other bit is left unchanged.
pub open spec fn spec_set_ppre2(v: RegistersView, ppre2: u32) -> RegistersView {
    RegistersView {
        cfgr: (v.cfgr & !(CFGR_PPRE2_MASK << CFGR_PPRE2_SHIFT)) | (ppre2 << CFGR_PPRE2_SHIFT),
        ..v
    }
}

/// Program the APB2 prescaler field.
pub fn set_ppre2(rcc: &mut Registers, ppre2: u32)
    ensures
        final(rcc)@ == spec_set_ppre2(old(rcc)@, ppre2),
{
    let mut reg32 = rcc.cfgr.get();
    reg32 &= !(CFGR_PPRE2_MASK << CFGR_PPRE2_SHIFT);
    rcc.cfgr.set(reg32 | (ppre2 << CFGR_PPRE2_SHIFT));
}

// ---------------------------------------------------------------------
// PLL configuration
// ---------------------------------------------------------------------

/// The single value written into the PLL configuration register: the
/// external oscillator as PLL input and the five divider fields.  A
/// requested `pllr` below two is clamped to the hardware reset value of
/// two rather than rejected.
pub open spec fn spec_pllcfgr_value(pllm: u32, plln: u32, pllp: u32, pllq: u32, pllr: u32) -> u32 {
    let r = if pllr < 2 { 2u32 } else { pllr };
    PLLCFGR_PLLSRC | ((pllm & PLLCFGR_PLLM_MASK) << PLLCFGR_PLLM_SHIFT) | ((plln
        & PLLCFGR_PLLN_MASK) << PLLCFGR_PLLN_SHIFT) | (((((pllp >> 1) - 1) as u32)
        & PLLCFGR_PLLP_MASK) << PLLCFGR_PLLP_SHIFT) | ((pllq & PLLCFGR_PLLQ_MASK)
        << PLLCFGR_PLLQ_SHIFT) | ((r & PLLCFGR_PLLR_MASK) << PLLCFGR_PLLR_SHIFT)
}

/// Program all PLL divider fields in one write, with the external
/// oscillator selected as PLL input.  The PLL must not be running;
/// `pllp` is an even divider of at least two.
pub fn set_main_pll_hse(rcc: &mut Registers, pllm: u32, plln: u32, pllp: u32, pllq: u32, pllr: u32)
    requires
        pllp >= 2,
    ensures
        final(rcc)@ == (RegistersView {
            pllcfgr: spec_pllcfgr_value(pllm, plln, pllp, pllq, pllr),
            ..old(rcc)@
        }),
{
    let mut pllr = pllr;
    /* Use the reset value if not legal, for parts without PLLR. */
    if pllr < 2 {
        pllr = 2;
    }
    proof {
        assert(pllp >= 2 ==> pllp >> 1 >= 1) by (bit_vector);
    }
    rcc.pllcfgr.set(
        PLLCFGR_PLLSRC | ((pllm & PLLCFGR_PLLM_MASK) << PLLCFGR_PLLM_SHIFT) | ((plln
            & PLLCFGR_PLLN_MASK) << PLLCFGR_PLLN_SHIFT) | ((((pllp >> 1) - 1)
            & PLLCFGR_PLLP_MASK) << PLLCFGR_PLLP_SHIFT) | ((pllq & PLLCFGR_PLLQ_MASK)
            << PLLCFGR_PLLQ_SHIFT) | ((pllr & PLLCFGR_PLLR_MASK) << PLLCFGR_PLLR_SHIFT),
    );
}


// ---------------------------------------------------------------------
// The profile table
// ---------------------------------------------------------------------

/// One clock-tree profile: PLL dividers, bus prescaler codes, the
/// regulator mode and the flash configuration for one (crystal, target)
/// pair.
#[derive(Clone, Copy, PartialEq, Eq, Structural, Debug)]
pub struct ClockScale {
    pub pllm: u32,
    pub plln: u32,
    pub pllp: u32,
    pub pllq: u32,
    pub pllr: u32,
    pub hpre: u32,
    pub ppre1: u32,
    pub ppre2: u32,
    pub power_save: bool,
    pub flash_config: u32,
}

impl ClockScale {
    pub fn new(
        pllm: u32,
        plln: u32,
        pllp: u32,
        pllq: u32,
        pllr: u32,
        hpre: u32,
        ppre1: u32,
        ppre2: u32,
        power_save: bool,
        flash_config: u32,
    ) -> (r: ClockScale)
        ensures
            r == (ClockScale {
                pllm,
                plln,
                pllp,
                pllq,
                pllr,
                hpre,
                ppre1,
                ppre2,
                power_save,
                flash_config,
            }),
    {
        ClockScale { pllm, plln, pllp, pllq, pllr, hpre, ppre1, ppre2, power_save, flash_config }
    }
}

/// The fixed profile table, indexed by the two closed enumerations, so
/// a lookup can never be out of range.
pub open spec fn spec_clock_scale(c: CrystalClock, t: Clock) -> ClockScale {
    let pllm = match c {
        CrystalClock::Clock8MHz => 8u32,
        CrystalClock::Clock12MHz => 12u32,
        CrystalClock::Clock16MHz => 16u32,
        CrystalClock::Clock25MHz => 25u32,
    };
    match t {
        Clock::Clock48MHz => ClockScale {
            pllm,
            plln: 96,
            pllp: 2,
            pllq: 2,
            pllr: 0,
            hpre: CFGR_HPRE_DIV_NONE,
            ppre1: CFGR_PPRE_DIV_4,
            ppre2: CFGR_PPRE_DIV_2,
            power_save: true,
            flash_config: flash::ACR_LATENCY_3WS,
        },
        Clock::Clock84MHz => ClockScale {
            pllm,
            plln: 336,
            pllp: 4,
            pllq: 7,
            pllr: 0,
            hpre: CFGR_HPRE_DIV_NONE,
            ppre1: CFGR_PPRE_DIV_2,
            ppre2: CFGR_PPRE_DIV_NONE,
            power_save: false,
            flash_config: flash::ACR_LATENCY_2WS,
        },
        Clock::Clock120MHz => ClockScale {
            pllm,
            plln: 240,
            pllp: 2,
            pllq: 5,
            pllr: 0,
            hpre: CFGR_HPRE_DIV_NONE,
            ppre1: CFGR_PPRE_DIV_4,
            ppre2: CFGR_PPRE_DIV_2,
            power_save: true,
            flash_config: flash::ACR_LATENCY_3WS,
        },
        Clock::Clock168MHz => ClockScale {
            pllm,
            plln: 336,
            pllp: 2,
            pllq: 7,
            pllr: 0,
            hpre: CFGR_HPRE_DIV_NONE,
            ppre1: CFGR_PPRE_DIV_4,
            ppre2: CFGR_PPRE_DIV_2,
            power_save: false,
            flash_config: flash::ACR_LATENCY_5WS,
        },
    }
}

/// Look the profile up for a (crystal, target) pair.
pub fn clock_scale_for(c: CrystalClock, t: Clock) -> (r: ClockScale)
    ensures
        r == spec_clock_scale(c, t),
{
    let pllm: u32 = match c {
        CrystalClock::Clock8MHz => 8,
        CrystalClock::Clock12MHz => 12,
        CrystalClock::Clock16MHz => 16,
        CrystalClock::Clock25MHz => 25,
    };
    match t {
        Clock::Clock48MHz => ClockScale::new(
            pllm,
            96,
            2,
            2,
            0,
            CFGR_HPRE_DIV_NONE,
            CFGR_PPRE_DIV_4,
            CFGR_PPRE_DIV_2,
            true,
            flash::ACR_LATENCY_3WS,
        ),
        Clock::Clock84MHz => ClockScale::new(
            pllm,
            336,
            4,
            7,
            0,
            CFGR_HPRE_DIV_NONE,
            CFGR_PPRE_DIV_2,
            CFGR_PPRE_DIV_NONE,
            false,
            flash::ACR_LATENCY_2WS,
        ),
        Clock::Clock120MHz => ClockScale::new(
            pllm,
            240,
            2,
            5,
            0,
            CFGR_HPRE_DIV_NONE,
            CFGR_PPRE_DIV_4,
            CFGR_PPRE_DIV_2,
            true,
            flash::ACR_LATENCY_3WS,
        ),
        Clock::Clock168MHz => ClockScale::new(
            pllm,
            336,
            2,
            7,
            0,
            CFGR_HPRE_DIV_NONE,
            CFGR_PPRE_DIV_4,
            CFGR_PPRE_DIV_2,
            false,
            flash::ACR_LATENCY_5WS,
        ),
    }
}

// ---------------------------------------------------------------------
// Published bus frequencies
// ---------------------------------------------------------------------

/// The bus frequencies published by one successful reconfiguration,
/// with the derived per-millisecond and per-microsecond prescalers.
/// Timing-dependent drivers read only this value.
#[derive(Clone, Copy, PartialEq, Eq, Structural, Debug)]
pub struct Frequencies {
    pub ahb: u32,
    pub apb1: u32,
    pub apb2: u32,
    pub ahb_mspsc: u32,
    pub apb1_mspsc: u32,
    pub apb2_mspsc: u32,
    pub ahb_uspsc: u32,
    pub apb1_uspsc: u32,
    pub apb2_uspsc: u32,
}

/// The registry value determined by three bus frequencies.
pub open spec fn spec_frequencies_from(ahb: u32, apb1: u32, apb2: u32) -> Frequencies {
    Frequencies {
        ahb,
        apb1,
        apb2,
        ahb_mspsc: ahb / 1000,
        apb1_mspsc: apb1 / 1000,
        apb2_mspsc: apb2 / 1000,
        ahb_uspsc: ahb / 1000_000,
        apb1_uspsc: apb1 / 1000_000,
        apb2_uspsc: apb2 / 1000_000,
    }
}

impl Frequencies {
    pub fn new(ahb: u32, apb1: u32, apb2: u32) -> (r: Frequencies)
        ensures
            r == spec_frequencies_from(ahb, apb1, apb2),
    {
        Frequencies {
            ahb,
            apb1,
            apb2,
            ahb_mspsc: ahb / 1000,
            apb1_mspsc: apb1 / 1000,
            apb2_mspsc: apb2 / 1000,
            ahb_uspsc: ahb / 1000_000,
            apb1_uspsc: apb1 / 1000_000,
            apb2_uspsc: apb2 / 1000_000,
        }
    }

    /// Replace the whole registry in one batched update.
    pub fn update(&mut self, ahb: u32, apb1: u32, apb2: u32)
        ensures
            *final(self) == spec_frequencies_from(ahb, apb1, apb2),
    {
        self.ahb = ahb;
        self.apb1 = apb1;
        self.apb2 = apb2;
        self.ahb_mspsc = ahb / 1000;
        self.apb1_mspsc = apb1 / 1000;
        self.apb2_mspsc = apb2 / 1000;
        self.ahb_uspsc = ahb / 1000_000;
        self.apb1_uspsc = apb1 / 1000_000;
        self.apb2_uspsc = apb2 / 1000_000;
    }

    pub fn ahb_frequency(&self) -> (r: u32)
        ensures
            r == self.ahb,
    {
        self.ahb
    }

    pub fn apb1_frequency(&self) -> (r: u32)
        ensures
            r == self.apb1,
    {
        self.apb1
    }

    pub fn apb2_frequency(&self) -> (r: u32)
        ensures
            r == self.apb2,
    {
        self.apb2
    }

    pub fn ahb_ms_psc(&self) -> (r: u32)
        ensures
            r == self.ahb_mspsc,
    {
        self.ahb_mspsc
    }

    pub fn apb1_ms_psc(&self) -> (r: u32)
        ensures
            r == self.apb1_mspsc,
    {
        self.apb1_mspsc
    }

    pub fn apb2_ms_psc(&self) -> (r: u32)
        ensures
            r == self.apb2_mspsc,
    {
        self.apb2_mspsc
    }

    pub fn ahb_us_psc(&self) -> (r: u32)
        ensures
            r == self.ahb_uspsc,
    {
        self.ahb_uspsc
    }

    pub fn apb1_us_psc(&self) -> (r: u32)
        ensures
            r == self.apb1_uspsc,
    {
        self.apb1_uspsc
    }

    pub fn apb2_us_psc(&self) -> (r: u32)
        ensures
            r == self.apb2_uspsc,
    {
        self.apb2_uspsc
    }
}

impl Default for Frequencies {
    /// The power-on registry: the internal oscillator feeds every bus
    /// at eight megahertz.
    fn default() -> (r: Frequencies)
        ensures
            r == spec_frequencies_from(8_000_000, 8_000_000, 8_000_000),
    {
        Frequencies::new(8_000_000, 8_000_000, 8_000_000)
    }
}

// ---------------------------------------------------------------------
// The clock-tree device
// ---------------------------------------------------------------------

/// A reported bring-up failure of the bounded-wait variants.
#[derive(Clone, Copy, PartialEq, Eq, Structural, Debug)]
pub enum ClockError {
    /// The oscillator never reported ready within the poll budget.
    OscillatorTimeout(Osc),
    /// The switch-status field never confirmed the source within the
    /// poll budget.
    ClockSwitchTimeout(Osc),
}

/// The three register blocks the clock bring-up touches, as one
/// simulated device.  The hardware's autonomous behaviour is modelled
/// by [`ClockTree::settle`].
#[derive(Clone, Copy, PartialEq, Eq, Structural, Debug)]
pub struct ClockTree {
    pub rcc: Registers,
    pub pwr: pwr::Registers,
    pub flash: flash::Registers,
}

/// The plain values behind a `ClockTree`.
pub struct ClockTreeView {
    pub rcc: RegistersView,
    pub pwr: pwr::RegistersView,
    pub flash: flash::RegistersView,
}

impl View for ClockTree {
    type V = ClockTreeView;

    open spec fn view(&self) -> ClockTreeView {
        ClockTreeView { rcc: self.rcc@, pwr: self.pwr@, flash: self.flash@ }
    }
}

/// One settle step of the clock control register: every ready flag
/// follows its enable bit.
pub open spec fn settle_cr(cr: u32) -> u32 {
    (cr & !(CR_PLLRDY | CR_PLLSAIRDY | CR_PLLI2SRDY | CR_HSERDY | CR_HSIRDY)) | (if cr & CR_PLLON
        != 0 {
        CR_PLLRDY
    } else {
        0u32
    }) | (if cr & CR_PLLSAION != 0 {
        CR_PLLSAIRDY
    } else {
        0u32
    }) | (if cr & CR_PLLI2SON != 0 {
        CR_PLLI2SRDY
    } else {
        0u32
    }) | (if cr & CR_HSEON != 0 {
        CR_HSERDY
    } else {
        0u32
    }) | (if cr & CR_HSION != 0 {
        CR_HSIRDY
    } else {
        0u32
    })
}

/// One settle step of the configuration register: the switch status
/// follows the selected source.
pub open spec fn settle_cfgr(cfgr: u32) -> u32 {
    (cfgr & !(CFGR_SWS_MASK << CFGR_SWS_SHIFT)) | ((cfgr & CFGR_SW_MASK) << CFGR_SWS_SHIFT)
}

/// One settle step of the backup domain register: the external
/// low-speed ready flag follows its enable bit.
pub open spec fn settle_bdcr(bdcr: u32) -> u32 {
    (bdcr & !BDCR_LSERDY) | (if bdcr & BDCR_LSEON != 0 {
        BDCR_LSERDY
    } else {
        0u32
    })
}

/// One settle step of the control/status register: the internal
/// low-speed ready flag follows its enable bit.
pub open spec fn settle_csr(csr: u32) -> u32 {
    (csr & !CSR_LSIRDY) | (if csr & CSR_LSION != 0 {
        CSR_LSIRDY
    } else {
        0u32
    })
}

/// One settle step of the whole device.
pub open spec fn spec_settle(v: ClockTreeView) -> ClockTreeView {
    ClockTreeView {
        rcc: RegistersView {
            cr: settle_cr(v.rcc.cr),
            cfgr: settle_cfgr(v.rcc.cfgr),
            bdcr: settle_bdcr(v.rcc.bdcr),
            csr: settle_csr(v.rcc.csr),
            ..v.rcc
        },
        ..v
    }
}

impl ClockTree {
    /// A device image with every register at zero.
    pub fn new() -> (r: ClockTree)
        ensures
            r@.rcc == spec_registers_zero(),
            r@.pwr == (pwr::RegistersView { cr: 0, csr: 0 }),
            r@.flash == (flash::RegistersView {
                acr: 0,
                keyr: 0,
                optkeyr: 0,
                sr: 0,
                cr: 0,
                optcr: 0,
            }),
    {
        ClockTree { rcc: Registers::new(), pwr: pwr::Registers::new(), flash: flash::Registers::new() }
    }

    /// One step of the modelled hardware: every oscillator's ready flag
    /// comes to agree with its enable bit, and the switch status comes
    /// to agree with the selected source.  On the target this happens
    /// on its own while the driver polls; on the image it is an
    /// explicit step of the simulation.
    pub fn settle(&mut self)
        ensures
            final(self)@ == spec_settle(old(self)@),
            forall|o: Osc| #[trigger]
                spec_osc_ready(final(self)@.rcc, o) == spec_osc_enabled(old(self)@.rcc, o),
            spec_sysclk_status(final(self)@.rcc) == old(self)@.rcc.cfgr & CFGR_SW_MASK,
    {
        let ghost pre_cr = self@.rcc.cr;
        let ghost pre_cfgr = self@.rcc.cfgr;
        let ghost pre_bdcr = self@.rcc.bdcr;
        let ghost pre_csr = self@.rcc.csr;
        let cr = self.rcc.cr.get();
        self.rcc.cr.set(
            (cr & !(CR_PLLRDY | CR_PLLSAIRDY | CR_PLLI2SRDY | CR_HSERDY | CR_HSIRDY)) | (if cr
                & CR_PLLON != 0 {
                CR_PLLRDY
            } else {
                0u32
            }) | (if cr & CR_PLLSAION != 0 {
                CR_PLLSAIRDY
            } else {
                0u32
            }) | (if cr & CR_PLLI2SON != 0 {
                CR_PLLI2SRDY
            } else {
                0u32
            }) | (if cr & CR_HSEON != 0 {
                CR_HSERDY
            } else {
                0u32
            }) | (if cr & CR_HSION != 0 {
                CR_HSIRDY
            } else {
                0u32
            }),
        );
        let cfgr = self.rcc.cfgr.get();
        self.rcc.cfgr.set(
            (cfgr & !(CFGR_SWS_MASK << CFGR_SWS_SHIFT)) | ((cfgr & CFGR_SW_MASK)
                << CFGR_SWS_SHIFT),
        );
        let bdcr = self.rcc.bdcr.get();
        self.rcc.bdcr.set(
            (bdcr & !BDCR_LSERDY) | (if bdcr & BDCR_LSEON != 0 {
                BDCR_LSERDY
            } else {
                0u32
            }),
        );
        let csr = self.rcc.csr.get();
        self.rcc.csr.set(
            (csr & !CSR_LSIRDY) | (if csr & CSR_LSION != 0 {
                CSR_LSIRDY
            } else {
                0u32
            }),
        );
        proof {
            assert(settle_cr(pre_cr) & CR_PLLRDY != 0 <==> pre_cr & CR_PLLON != 0)
                by (bit_vector);
            assert(settle_cr(pre_cr) & CR_PLLSAIRDY != 0 <==> pre_cr & CR_PLLSAION != 0)
                by (bit_vector);
            assert(settle_cr(pre_cr) & CR_PLLI2SRDY != 0 <==> pre_cr & CR_PLLI2SON != 0)
                by (bit_vector);
            assert(settle_cr(pre_cr) & CR_HSERDY != 0 <==> pre_cr & CR_HSEON != 0)
                by (bit_vector);
            assert(settle_cr(pre_cr) & CR_HSIRDY != 0 <==> pre_cr & CR_HSION != 0)
                by (bit_vector);
            assert(settle_bdcr(pre_bdcr) & BDCR_LSERDY != 0 <==> pre_bdcr & BDCR_LSEON != 0)
                by (bit_vector);
            assert(settle_csr(pre_csr) & CSR_LSIRDY != 0 <==> pre_csr & CSR_LSION != 0)
                by (bit_vector);
            assert((settle_cfgr(pre_cfgr) >> CFGR_SWS_SHIFT) & CFGR_SWS_MASK == pre_cfgr
                & CFGR_SW_MASK) by (bit_vector);
            assert forall|o: Osc|
                #[trigger] spec_osc_ready(self@.rcc, o) == spec_osc_enabled(old(self)@.rcc, o) by {
                match o {
                    Osc::PLL => {},
                    Osc::PLLSAI => {},
                    Osc::PLLI2S => {},
                    Osc::HSE => {},
                    Osc::HSI => {},
                    Osc::LSE => {},
                    Osc::LSI => {},
                }
            }
        }
    }
}

/// Poll the ready flag up to `budget` times, reporting a distinct
/// timeout instead of hanging: the bounded variant of
/// [`wait_for_osc_ready`].  It succeeds exactly when the budget is not
/// zero and the flag is set.
pub fn wait_for_osc_ready_timeout(rcc: &Registers, osc: Osc, budget: u32) -> (r: Result<
    (),
    ClockError,
>)
    ensures
        r == (if budget >= 1 && spec_osc_ready(rcc@, osc) {
            Ok::<(), ClockError>(())
        } else {
            Err::<(), ClockError>(ClockError::OscillatorTimeout(osc))
        }),
{
    let mut i: u32 = 0;
    while i < budget
        invariant
            i <= budget,
            !spec_osc_ready(rcc@, osc) || i == 0,
        decreases budget - i,
    {
        if is_osc_ready(rcc, osc) {
            return Ok(());
        }
        i = i + 1;
    }
    Err(ClockError::OscillatorTimeout(osc))
}

/// Which switch-status value confirms `osc`, if the switch can select
/// it at all.
pub open spec fn spec_sysclk_wanted(osc: Osc) -> Option<u32> {
    match osc {
        Osc::PLL => Some(CFGR_SWS_PLL),
        Osc::HSE => Some(CFGR_SWS_HSE),
        Osc::HSI => Some(CFGR_SWS_HSI),
        _ => None,
    }
}

/// Poll the switch-status field up to `budget` times, reporting a
/// distinct timeout instead of hanging: the bounded variant of
/// [`wait_for_sysclk_status`].  For a source the switch cannot select
/// it returns at once, as the unbounded wait does.
pub fn wait_for_sysclk_status_timeout(rcc: &Registers, osc: Osc, budget: u32) -> (r: Result<
    (),
    ClockError,
>)
    ensures
        spec_sysclk_wanted(osc) is None ==> r == Ok::<(), ClockError>(()),
        spec_sysclk_wanted(osc) matches Some(w) ==> r == (if budget >= 1 && spec_sysclk_status(
            rcc@,
        ) == w {
            Ok::<(), ClockError>(())
        } else {
            Err::<(), ClockError>(ClockError::ClockSwitchTimeout(osc))
        }),
{
    let want: u32 = match osc {
        Osc::PLL => CFGR_SWS_PLL,
        Osc::HSE => CFGR_SWS_HSE,
        Osc::HSI => CFGR_SWS_HSI,
        _ => {
            return Ok(());
        },
    };
    let mut i: u32 = 0;
    while i < budget
        invariant
            i <= budget,
            spec_sysclk_status(rcc@) != want || i == 0,
            spec_sysclk_wanted(osc) == Some(want),
        decreases budget - i,
    {
        if (rcc.cfgr.get() >> CFGR_SWS_SHIFT) & CFGR_SWS_MASK == want {
            return Ok(());
        }
        i = i + 1;
    }
    Err(ClockError::ClockSwitchTimeout(osc))
}


// ---------------------------------------------------------------------
// The bring-up sequence as a trace of actions
// ---------------------------------------------------------------------

/// One step of the clock-tree bring-up, at the granularity of the
/// components that carry it out.
#[derive(Clone, Copy, PartialEq, Eq, Structural, Debug)]
pub enum ClockAction {
    /// The oscillator controller sets an enable bit.
    EnableOsc(Osc),
    /// The oscillator controller polls a ready flag; the modelled
    /// hardware settles while it does.
    AwaitOscReady(Osc),
    /// The clock switch writes the source-select field.
    SelectSysclkSource(u32),
    /// The voltage scaler selects a regulator range.
    SetVoltageScale(pwr::VOSScale),
    /// The prescaler controller writes the AHB divider field.
    SetAhbPrescaler(u32),
    /// The prescaler controller writes the APB1 divider field.
    SetApb1Prescaler(u32),
    /// The prescaler controller writes the APB2 divider field.
    SetApb2Prescaler(u32),
    /// The PLL configurator writes all divider fields in one value.
    ConfigurePll { pllm: u32, plln: u32, pllp: u32, pllq: u32, pllr: u32 },
    /// The flash coordinator writes wait-states and cache enables.
    SetFlashWaitStates(u32),
    /// The clock switch polls the status field; the modelled hardware
    /// settles while it does.
    AwaitSysclkSwitch(Osc),
    /// The oscillator controller clears an enable bit.
    DisableOsc(Osc),
}

/// What one action does to the device.
pub open spec fn apply_action(d: ClockTreeView, a: ClockAction) -> ClockTreeView {
    match a {
        ClockAction::EnableOsc(o) => ClockTreeView { rcc: spec_osc_on(d.rcc, o), ..d },
        ClockAction::AwaitOscReady(_) => spec_settle(d),
        ClockAction::SelectSysclkSource(clk) => ClockTreeView {
            rcc: spec_set_sysclk_source(d.rcc, clk),
            ..d
        },
        ClockAction::SetVoltageScale(sel) => ClockTreeView {
            pwr: pwr::spec_set_vos_scale(d.pwr, sel),
            ..d
        },
        ClockAction::SetAhbPrescaler(h) => ClockTreeView { rcc: spec_set_hpre(d.rcc, h), ..d },
        ClockAction::SetApb1Prescaler(p) => ClockTreeView { rcc: spec_set_ppre1(d.rcc, p), ..d },
        ClockAction::SetApb2Prescaler(p) => ClockTreeView { rcc: spec_set_ppre2(d.rcc, p), ..d },
        ClockAction::ConfigurePll { pllm, plln, pllp, pllq, pllr } => ClockTreeView {
            rcc: RegistersView {
                pllcfgr: spec_pllcfgr_value(pllm, plln, pllp, pllq, pllr),
                ..d.rcc
            },
            ..d
        },
        ClockAction::SetFlashWaitStates(ws) => ClockTreeView {
            flash: flash::spec_set_ws(d.flash, ws),
            ..d
        },
        ClockAction::AwaitSysclkSwitch(_) => spec_settle(d),
        ClockAction::DisableOsc(o) => ClockTreeView { rcc: spec_osc_off(d.rcc, o), ..d },
    }
}

/// What a whole trace does to the device, action by action.
pub open spec fn apply_actions(d: ClockTreeView, s: Seq<ClockAction>) -> ClockTreeView
    decreases s.len(),
{
    if s.len() == 0 {
        d
    } else {
        apply_action(apply_actions(d, s.drop_last()), s.last())
    }
}

/// The action at position `i` of the bring-up trace for one
/// (crystal, target) pair.
pub open spec fn configure_action_at(c: CrystalClock, t: Clock, i: int) -> ClockAction {
    let s = spec_clock_scale(c, t);
    if i == 0 {
        ClockAction::EnableOsc(Osc::HSI)
    } else if i == 1 {
        ClockAction::AwaitOscReady(Osc::HSI)
    } else if i == 2 {
        ClockAction::SelectSysclkSource(CFGR_SW_HSI)
    } else if i == 3 {
        ClockAction::EnableOsc(Osc::HSE)
    } else if i == 4 {
        ClockAction::AwaitOscReady(Osc::HSE)
    } else if i == 5 {
        ClockAction::SetVoltageScale(
            if s.power_save {
                pwr::VOSScale::Scale2
            } else {
                pwr::VOSScale::Scale1
            },
        )
    } else if i == 6 {
        ClockAction::SetAhbPrescaler(s.hpre)
    } else if i == 7 {
        ClockAction::SetApb1Prescaler(s.ppre1)
    } else if i == 8 {
        ClockAction::SetApb2Prescaler(s.ppre2)
    } else if i == 9 {
        ClockAction::ConfigurePll {
            pllm: s.pllm,
            plln: s.plln,
            pllp: s.pllp,
            pllq: s.pllq,
            pllr: s.pllr,
        }
    } else if i == 10 {
        ClockAction::EnableOsc(Osc::PLL)
    } else if i == 11 {
        ClockAction::AwaitOscReady(Osc::PLL)
    } else if i == 12 {
        ClockAction::SetFlashWaitStates(flash::ACR_DCEN | flash::ACR_ICEN | s.flash_config)
    } else if i == 13 {
        ClockAction::SelectSysclkSource(CFGR_SW_PLL)
    } else if i == 14 {
        ClockAction::AwaitSysclkSwitch(Osc::PLL)
    } else {
        ClockAction::DisableOsc(Osc::HSI)
    }
}

/// The full bring-up trace: the fixed, linear order that the hardware
/// mandates.
pub open spec fn configure_trace(c: CrystalClock, t: Clock) -> Seq<ClockAction> {
    Seq::new(16, |i: int| configure_action_at(c, t, i))
}

/// The action at position `i` of the trace, computed.
pub fn configure_action(c: CrystalClock, t: Clock, i: usize) -> (a: ClockAction)
    requires
        i < 16,
    ensures
        a == configure_action_at(c, t, i as int),
{
    let s = clock_scale_for(c, t);
    if i == 0 {
        ClockAction::EnableOsc(Osc::HSI)
    } else if i == 1 {
        ClockAction::AwaitOscReady(Osc::HSI)
    } else if i == 2 {
        ClockAction::SelectSysclkSource(CFGR_SW_HSI)
    } else if i == 3 {
        ClockAction::EnableOsc(Osc::HSE)
    } else if i == 4 {
        ClockAction::AwaitOscReady(Osc::HSE)
    } else if i == 5 {
        ClockAction::SetVoltageScale(
            if s.power_save {
                pwr::VOSScale::Scale2
            } else {
                pwr::VOSScale::Scale1
            },
        )
    } else if i == 6 {
        ClockAction::SetAhbPrescaler(s.hpre)
    } else if i == 7 {
        ClockAction::SetApb1Prescaler(s.ppre1)
    } else if i == 8 {
        ClockAction::SetApb2Prescaler(s.ppre2)
    } else if i == 9 {
        ClockAction::ConfigurePll {
            pllm: s.pllm,
            plln: s.plln,
            pllp: s.pllp,
            pllq: s.pllq,
            pllr: s.pllr,
        }
    } else if i == 10 {
        ClockAction::EnableOsc(Osc::PLL)
    } else if i == 11 {
        ClockAction::AwaitOscReady(Osc::PLL)
    } else if i == 12 {
        ClockAction::SetFlashWaitStates(flash::ACR_DCEN | flash::ACR_ICEN | s.flash_config)
    } else if i == 13 {
        ClockAction::SelectSysclkSource(CFGR_SW_PLL)
    } else if i == 14 {
        ClockAction::AwaitSysclkSwitch(Osc::PLL)
    } else {
        ClockAction::DisableOsc(Osc::HSI)
    }
}

/// The full bring-up trace, computed.
pub fn configure_actions(c: CrystalClock, t: Clock) -> (v: Vec<ClockAction>)
    ensures
        v@ == configure_trace(c, t),
{
    let mut v: Vec<ClockAction> = Vec::new();
    let mut i: usize = 0;
    while i < 16
        invariant
            i <= 16,
            v@.len() == i as int,
            forall|k: int| 0 <= k < i as int ==> v@[k] == configure_action_at(c, t, k),
        decreases 16 - i,
    {
        let a = configure_action(c, t, i);
        v.push(a);
        i = i + 1;
    }
    proof {
        assert(v@ =~= configure_trace(c, t));
    }
    v
}

// ---------------------------------------------------------------------
// The orchestrated reconfiguration
// ---------------------------------------------------------------------

/// What the whole sequence does to the clock control register.
pub open spec fn configure_cr(x: u32) -> u32 {
    settle_cr(settle_cr(settle_cr(settle_cr(x | CR_HSION) | CR_HSEON) | CR_PLLON)) & !CR_HSION
}

/// What the whole sequence does to the configuration register.
pub open spec fn configure_cfgr(x: u32, hpre: u32, ppre1: u32, ppre2: u32) -> u32 {
    let a = settle_cfgr(x);
    let b = (a & !CFGR_SW_MASK) | CFGR_SW_HSI;
    let c = settle_cfgr(b);
    let d = (c & !(CFGR_HPRE_MASK << CFGR_HPRE_SHIFT)) | (hpre << CFGR_HPRE_SHIFT);
    let e = (d & !(CFGR_PPRE1_MASK << CFGR_PPRE1_SHIFT)) | (ppre1 << CFGR_PPRE1_SHIFT);
    let f = (e & !(CFGR_PPRE2_MASK << CFGR_PPRE2_SHIFT)) | (ppre2 << CFGR_PPRE2_SHIFT);
    let g = settle_cfgr(f);
    let h = (g & !CFGR_SW_MASK) | CFGR_SW_PLL;
    settle_cfgr(h)
}

/// What the whole sequence does to the backup domain register.
pub open spec fn configure_bdcr(x: u32) -> u32 {
    settle_bdcr(settle_bdcr(settle_bdcr(settle_bdcr(x))))
}

/// What the whole sequence does to the control/status register.
pub open spec fn configure_csr(x: u32) -> u32 {
    settle_csr(settle_csr(settle_csr(settle_csr(x))))
}

/// What one `set_clock(c, t)` call does to the whole device.
pub open spec fn spec_configure(d: ClockTreeView, c: CrystalClock, t: Clock) -> ClockTreeView {
    let s = spec_clock_scale(c, t);
    let sel = if s.power_save {
        pwr::VOSScale::Scale2
    } else {
        pwr::VOSScale::Scale1
    };
    ClockTreeView {
        rcc: RegistersView {
            cr: configure_cr(d.rcc.cr),
            cfgr: configure_cfgr(d.rcc.cfgr, s.hpre, s.ppre1, s.ppre2),
            pllcfgr: spec_pllcfgr_value(s.pllm, s.plln, s.pllp, s.pllq, s.pllr),
            bdcr: configure_bdcr(d.rcc.bdcr),
            csr: configure_csr(d.rcc.csr),
            ..d.rcc
        },
        pwr: pwr::RegistersView {
            cr: (d.pwr.cr & !pwr::CR_VOS_MASK) | sel.spec_range_bits(),
            ..d.pwr
        },
        flash: flash::RegistersView {
            acr: (d.flash.acr & !flash::ACR_LATENCY_MASK) | (flash::ACR_DCEN | flash::ACR_ICEN
                | s.flash_config),
            ..d.flash
        },
    }
}

/// The system clock the configured PLL produces: the crystal divided
/// by M gives the PLL input, multiplied by N gives the VCO frequency,
/// divided by P gives the master clock.
pub open spec fn spec_master_clock(crystal_hz: u32, s: ClockScale) -> u32 {
    ((((crystal_hz / s.pllm) * s.plln) / (s.pllp as int)) as u32)
}

/// An APB bus frequency derived from the master clock by a prescaler
/// code.
pub open spec fn spec_apb_scaled(master: u32, ppre: u32) -> u32 {
    if ppre == CFGR_PPRE_DIV_NONE {
        master
    } else if ppre == CFGR_PPRE_DIV_2 {
        master >> 1
    } else if ppre == CFGR_PPRE_DIV_4 {
        master >> 2
    } else if ppre == CFGR_PPRE_DIV_8 {
        master >> 3
    } else if ppre == CFGR_PPRE_DIV_16 {
        master >> 4
    } else {
        master
    }
}

/// The registry that one `set_clock(c, t)` call publishes.  It depends
/// on the arguments alone, never on the prior device state.
pub open spec fn spec_frequencies_for(c: CrystalClock, t: Clock) -> Frequencies {
    let s = spec_clock_scale(c, t);
    let master = spec_master_clock(spec_crystal_hz(c), s);
    spec_frequencies_from(
        master,
        spec_apb_scaled(master, s.ppre1),
        spec_apb_scaled(master, s.ppre2),
    )
}

fn apb_scaled(master: u32, ppre: u32) -> (r: u32)
    requires
        ppre == CFGR_PPRE_DIV_NONE || ppre == CFGR_PPRE_DIV_2 || ppre == CFGR_PPRE_DIV_4 || ppre
            == CFGR_PPRE_DIV_8 || ppre == CFGR_PPRE_DIV_16,
    ensures
        r == spec_apb_scaled(master, ppre),
{
    if ppre == CFGR_PPRE_DIV_NONE {
        master
    } else if ppre == CFGR_PPRE_DIV_2 {
        master >> 1
    } else if ppre == CFGR_PPRE_DIV_4 {
        master >> 2
    } else if ppre == CFGR_PPRE_DIV_8 {
        master >> 3
    } else {
        master >> 4
    }
}

/// Reconfigure the clock tree for `(base_clock, target_clock)` and
/// publish the resulting bus frequencies.
///
/// The steps follow the hardware-mandated order: fall back to the
/// internal oscillator, bring the crystal up, scale the regulator, set
/// the bus prescalers (before the PLL is touched: the hardware demands
/// this order and documents no reason), program and lock the PLL, raise
/// the flash wait-states for the target frequency, and only then switch
/// the system clock over; the internal oscillator is dropped last.  The
/// published frequencies follow the master-clock formula: the crystal
/// through the PLL's M, N and P dividers, then the bus prescalers.
/// Every wait polls a flag the modelled hardware has settled, so the
/// sequence as a whole has no failure path.
pub fn set_clock(dev: &mut ClockTree, base_clock: CrystalClock, target_clock: Clock) -> (freqs:
    Frequencies)
    ensures
        final(dev)@ == spec_configure(old(dev)@, base_clock, target_clock),
        final(dev)@ == apply_actions(old(dev)@, configure_trace(base_clock, target_clock)),
        freqs == spec_frequencies_for(base_clock, target_clock),
{
    let ghost d0 = dev@;
    let scale = clock_scale_for(base_clock, target_clock);

    /* Enable the internal high-speed oscillator and wait for it. */
    osc_on(&mut dev.rcc, Osc::HSI);
    dev.settle();
    wait_for_osc_ready(&dev.rcc, Osc::HSI);

    /* Select it as the system clock: the safe source to reconfigure under. */
    set_sysclk_source(&mut dev.rcc, CFGR_SW_HSI);

    /* Enable the external crystal oscillator and wait for it. */
    osc_on(&mut dev.rcc, Osc::HSE);
    dev.settle();
    wait_for_osc_ready(&dev.rcc, Osc::HSE);

    /* Select the regulator range for the target tier. */
    if !scale.power_save {
        pwr::set_vos_scale(&mut dev.pwr, pwr::VOSScale::Scale1);
    } else {
        pwr::set_vos_scale(&mut dev.pwr, pwr::VOSScale::Scale2);
    }

    /* Set the prescalers for AHB, APB1, APB2.  This must happen before
       the PLL is touched; the hardware mandates the order without
       documenting why, so it is preserved as a hard constraint. */
    set_hpre(&mut dev.rcc, scale.hpre);
    set_ppre1(&mut dev.rcc, scale.ppre1);
    set_ppre2(&mut dev.rcc, scale.ppre2);

    set_main_pll_hse(&mut dev.rcc, scale.pllm, scale.plln, scale.pllp, scale.pllq, scale.pllr);

    /* Enable the PLL and wait for it to stabilise. */
    osc_on(&mut dev.rcc, Osc::PLL);
    dev.settle();
    wait_for_osc_ready(&dev.rcc, Osc::PLL);

    /* Configure flash wait-states and caches for the target frequency,
       before the faster clock is switched in. */
    flash::set_ws(&mut dev.flash, flash::ACR_DCEN | flash::ACR_ICEN | scale.flash_config);

    /* Select the PLL as the system clock and wait for the switch. */
    set_sysclk_source(&mut dev.rcc, CFGR_SW_PLL);
    dev.settle();
    wait_for_sysclk_status(&dev.rcc, Osc::PLL);

    /* Publish the peripheral clock frequencies now in force: the
       crystal through the PLL's M, N and P dividers, then the bus
       prescalers. */
    let pll_input: u32 = crystal_hz(base_clock) / scale.pllm;
    proof {
        assert(pll_input == 1_000_000);
        assert(scale.plln <= 511);
        assert(pll_input * scale.plln <= 511_000_000) by (nonlinear_arith)
            requires
                pll_input == 1_000_000,
                scale.plln <= 511,
        ;
    }
    let vco: u32 = pll_input * scale.plln;
    let master_clock: u32 = vco / scale.pllp;
    let apb1 = apb_scaled(master_clock, scale.ppre1);
    let apb2 = apb_scaled(master_clock, scale.ppre2);
    let freqs = Frequencies::new(master_clock, apb1, apb2);

    /* The internal oscillator is no longer needed. */
    osc_off(&mut dev.rcc, Osc::HSI);

    proof {
        lemma_configure_trace_apply(d0, base_clock, target_clock);
    }
    freqs
}


// ---------------------------------------------------------------------
// Laws of the bring-up sequence
// ---------------------------------------------------------------------

/// The trace's effect, unrolled: applying the sixteen actions of
/// `configure_trace(c, t)` to any device is exactly `spec_configure`.
pub proof fn lemma_configure_trace_apply(d: ClockTreeView, c: CrystalClock, t: Clock)
    ensures
        apply_actions(d, configure_trace(c, t)) == spec_configure(d, c, t),
{
    let tr = configure_trace(c, t);
    assert(tr.len() == 16);
    let t15 = tr.drop_last();
    let t14 = t15.drop_last();
    let t13 = t14.drop_last();
    let t12 = t13.drop_last();
    let t11 = t12.drop_last();
    let t10 = t11.drop_last();
    let t9 = t10.drop_last();
    let t8 = t9.drop_last();
    let t7 = t8.drop_last();
    let t6 = t7.drop_last();
    let t5 = t6.drop_last();
    let t4 = t5.drop_last();
    let t3 = t4.drop_last();
    let t2 = t3.drop_last();
    let t1 = t2.drop_last();
    let t0 = t1.drop_last();
    assert(t0.len() == 0);
    assert(apply_actions(d, t0) == d);
    assert(t1.last() == configure_action_at(c, t, 0));
    assert(apply_actions(d, t1) == apply_action(apply_actions(d, t0), t1.last()));
    assert(t2.last() == configure_action_at(c, t, 1));
    assert(apply_actions(d, t2) == apply_action(apply_actions(d, t1), t2.last()));
    assert(t3.last() == configure_action_at(c, t, 2));
    assert(apply_actions(d, t3) == apply_action(apply_actions(d, t2), t3.last()));
    assert(t4.last() == configure_action_at(c, t, 3));
    assert(apply_actions(d, t4) == apply_action(apply_actions(d, t3), t4.last()));
    assert(t5.last() == configure_action_at(c, t, 4));
    assert(apply_actions(d, t5) == apply_action(apply_actions(d, t4), t5.last()));
    assert(t6.last() == configure_action_at(c, t, 5));
    assert(apply_actions(d, t6) == apply_action(apply_actions(d, t5), t6.last()));
    assert(t7.last() == configure_action_at(c, t, 6));
    assert(apply_actions(d, t7) == apply_action(apply_actions(d, t6), t7.last()));
    assert(t8.last() == configure_action_at(c, t, 7));
    assert(apply_actions(d, t8) == apply_action(apply_actions(d, t7), t8.last()));
    assert(t9.last() == configure_action_at(c, t, 8));
    assert(apply_actions(d, t9) == apply_action(apply_actions(d, t8), t9.last()));
    assert(t10.last() == configure_action_at(c, t, 9));
    assert(apply_actions(d, t10) == apply_action(apply_actions(d, t9), t10.last()));
    assert(t11.last() == configure_action_at(c, t, 10));
    assert(apply_actions(d, t11) == apply_action(apply_actions(d, t10), t11.last()));
    assert(t12.last() == configure_action_at(c, t, 11));
    assert(apply_actions(d, t12) == apply_action(apply_actions(d, t11), t12.last()));
    assert(t13.last() == configure_action_at(c, t, 12));
    assert(apply_actions(d, t13) == apply_action(apply_actions(d, t12), t13.last()));
    assert(t14.last() == configure_action_at(c, t, 13));
    assert(apply_actions(d, t14) == apply_action(apply_actions(d, t13), t14.last()));
    assert(t15.last() == configure_action_at(c, t, 14));
    assert(apply_actions(d, t15) == apply_action(apply_actions(d, t14), t15.last()));
    assert(tr.last() == configure_action_at(c, t, 15));
    assert(apply_actions(d, tr) == apply_action(apply_actions(d, t15), tr.last()));
}

/// True of the actions that program a bus prescaler field.
pub open spec fn is_prescaler_write(a: ClockAction) -> bool {
    a is SetAhbPrescaler || a is SetApb1Prescaler || a is SetApb2Prescaler
}

/// True of the action that programs the PLL divider fields.
pub open spec fn is_pll_configure(a: ClockAction) -> bool {
    a is ConfigurePll
}

/// True of the action that writes the flash wait-states.
pub open spec fn is_flash_wait_states_write(a: ClockAction) -> bool {
    a is SetFlashWaitStates
}

/// True of the action that switches the system clock to the PLL.
pub open spec fn is_pll_select(a: ClockAction) -> bool {
    a matches ClockAction::SelectSysclkSource(clk) && clk == CFGR_SW_PLL
}

/// Ordering of the traced bring-up: every prescaler write precedes the
/// PLL configuration, and the flash wait-states write precedes the
/// switch of the system clock to the PLL.
pub proof fn lemma_configure_ordering(c: CrystalClock, t: Clock)
    ensures
        forall|i: int, j: int|
            0 <= i < configure_trace(c, t).len() && 0 <= j < configure_trace(c, t).len()
                && is_prescaler_write(#[trigger] configure_trace(c, t)[i]) && is_pll_configure(
                #[trigger] configure_trace(c, t)[j],
            ) ==> i < j,
        forall|i: int, j: int|
            0 <= i < configure_trace(c, t).len() && 0 <= j < configure_trace(c, t).len()
                && is_flash_wait_states_write(#[trigger] configure_trace(c, t)[i]) && is_pll_select(
                #[trigger] configure_trace(c, t)[j],
            ) ==> i < j,
{
    assert forall|i: int| 0 <= i < configure_trace(c, t).len() implies ((is_prescaler_write(
        #[trigger] configure_trace(c, t)[i],
    ) ==> 6 <= i <= 8) && (is_pll_configure(configure_trace(c, t)[i]) ==> i == 9) && (
    is_flash_wait_states_write(configure_trace(c, t)[i]) ==> i == 12) && (is_pll_select(
        configure_trace(c, t)[i],
    ) ==> i == 13)) by {
        assert(configure_trace(c, t)[i] == configure_action_at(c, t, i));
    }
}

proof fn lemma_settle_cr_absorb(y: u32, m: u32)
    requires
        m & (CR_PLLRDY | CR_PLLSAIRDY | CR_PLLI2SRDY | CR_HSERDY | CR_HSIRDY) == 0,
    ensures
        settle_cr(settle_cr(y) | m) == settle_cr(y | m),
{
    assert(settle_cr(settle_cr(y) | m) == settle_cr(y | m)) by (bit_vector)
        requires
            m & (CR_PLLRDY | CR_PLLSAIRDY | CR_PLLI2SRDY | CR_HSERDY | CR_HSIRDY) == 0,
    ;
}

proof fn lemma_settle_cr_idem(y: u32)
    ensures
        settle_cr(settle_cr(y)) == settle_cr(y),
{
    assert(settle_cr(settle_cr(y)) == settle_cr(y)) by (bit_vector);
}

/// The four settles of the sequence collapse: the clock control
/// register ends at one settle of the register with the three enables
/// set, with the internal oscillator's enable cleared again.
proof fn lemma_configure_cr_closed(x: u32)
    ensures
        configure_cr(x) == settle_cr(((x | CR_HSION) | CR_HSEON) | CR_PLLON) & !CR_HSION,
{
    assert(CR_HSEON & (CR_PLLRDY | CR_PLLSAIRDY | CR_PLLI2SRDY | CR_HSERDY | CR_HSIRDY) == 0)
        by (bit_vector);
    assert(CR_PLLON & (CR_PLLRDY | CR_PLLSAIRDY | CR_PLLI2SRDY | CR_HSERDY | CR_HSIRDY) == 0)
        by (bit_vector);
    lemma_settle_cr_absorb(x | CR_HSION, CR_HSEON);
    lemma_settle_cr_absorb((x | CR_HSION) | CR_HSEON, CR_PLLON);
    lemma_settle_cr_idem(((x | CR_HSION) | CR_HSEON) | CR_PLLON);
}

proof fn lemma_settle_cr_reapply(v: u32)
    requires
        v & CR_HSION != 0,
        v & CR_HSEON != 0,
        v & CR_PLLON != 0,
    ensures
        settle_cr((((settle_cr(v) & !CR_HSION) | CR_HSION) | CR_HSEON) | CR_PLLON) == settle_cr(v),
{
    assert(settle_cr((((settle_cr(v) & !CR_HSION) | CR_HSION) | CR_HSEON) | CR_PLLON)
        == settle_cr(v)) by (bit_vector)
        requires
            v & CR_HSION != 0,
            v & CR_HSEON != 0,
            v & CR_PLLON != 0,
    ;
}

proof fn lemma_cr_idempotent(x: u32)
    ensures
        configure_cr(configure_cr(x)) == configure_cr(x),
{
    let v = ((x | CR_HSION) | CR_HSEON) | CR_PLLON;
    lemma_configure_cr_closed(x);
    lemma_configure_cr_closed(configure_cr(x));
    assert((((x | CR_HSION) | CR_HSEON) | CR_PLLON) & CR_HSION != 0 && (((x | CR_HSION)
        | CR_HSEON) | CR_PLLON) & CR_HSEON != 0 && (((x | CR_HSION) | CR_HSEON) | CR_PLLON)
        & CR_PLLON != 0) by (bit_vector);
    lemma_settle_cr_reapply(v);
}

#[verifier::rlimit(100)]
proof fn lemma_cfgr_idempotent(x: u32, hpre: u32, ppre1: u32, ppre2: u32)
    ensures
        configure_cfgr(configure_cfgr(x, hpre, ppre1, ppre2), hpre, ppre1, ppre2)
            == configure_cfgr(x, hpre, ppre1, ppre2),
{
    assert(configure_cfgr(configure_cfgr(x, hpre, ppre1, ppre2), hpre, ppre1, ppre2)
        == configure_cfgr(x, hpre, ppre1, ppre2)) by (bit_vector);
}

proof fn lemma_bdcr_idempotent(x: u32)
    ensures
        configure_bdcr(configure_bdcr(x)) == configure_bdcr(x),
{
    assert(configure_bdcr(configure_bdcr(x)) == configure_bdcr(x)) by (bit_vector);
}

proof fn lemma_csr_idempotent(x: u32)
    ensures
        configure_csr(configure_csr(x)) == configure_csr(x),
{
    assert(configure_csr(configure_csr(x)) == configure_csr(x)) by (bit_vector);
}

proof fn lemma_masked_or_idempotent(x: u32, m: u32, v: u32)
    ensures
        ((((x & !m) | v) & !m) | v) == (x & !m) | v,
{
    assert(((((x & !m) | v) & !m) | v) == (x & !m) | v) by (bit_vector);
}

/// Idempotence of reconfiguration: running the whole sequence a second
/// time with the same arguments leaves the device exactly where the
/// first run left it.  The published registry is a function of the
/// arguments alone (see `set_clock`), so two consecutive calls with the
/// same arguments also publish the identical `Frequencies`.
pub proof fn lemma_configure_idempotent(d: ClockTreeView, c: CrystalClock, t: Clock)
    ensures
        spec_configure(spec_configure(d, c, t), c, t) == spec_configure(d, c, t),
{
    let s = spec_clock_scale(c, t);
    let sel = if s.power_save {
        pwr::VOSScale::Scale2
    } else {
        pwr::VOSScale::Scale1
    };
    lemma_cr_idempotent(d.rcc.cr);
    lemma_cfgr_idempotent(d.rcc.cfgr, s.hpre, s.ppre1, s.ppre2);
    lemma_bdcr_idempotent(d.rcc.bdcr);
    lemma_csr_idempotent(d.rcc.csr);
    lemma_masked_or_idempotent(d.pwr.cr, pwr::CR_VOS_MASK, sel.spec_range_bits());
    lemma_masked_or_idempotent(
        d.flash.acr,
        flash::ACR_LATENCY_MASK,
        flash::ACR_DCEN | flash::ACR_ICEN | s.flash_config,
    );
}

/// The crystal frequency named by each supported input.
pub open spec fn spec_crystal_hz(c: CrystalClock) -> u32 {
    match c {
        CrystalClock::Clock8MHz => 8_000_000,
        CrystalClock::Clock12MHz => 12_000_000,
        CrystalClock::Clock16MHz => 16_000_000,
        CrystalClock::Clock25MHz => 25_000_000,
    }
}

/// The crystal frequency, computed.
pub fn crystal_hz(c: CrystalClock) -> (r: u32)
    ensures
        r == spec_crystal_hz(c),
{
    match c {
        CrystalClock::Clock8MHz => 8_000_000,
        CrystalClock::Clock12MHz => 12_000_000,
        CrystalClock::Clock16MHz => 16_000_000,
        CrystalClock::Clock25MHz => 25_000_000,
    }
}

/// The system clock frequency of each target tier.
pub open spec fn spec_target_hz(t: Clock) -> u32 {
    match t {
        Clock::Clock48MHz => 48_000_000,
        Clock::Clock84MHz => 84_000_000,
        Clock::Clock120MHz => 120_000_000,
        Clock::Clock168MHz => 168_000_000,
    }
}

/// The flash wait-states a profile programs (the low bits of its flash
/// configuration word).
pub open spec fn spec_flash_wait_states(c: CrystalClock, t: Clock) -> u32 {
    spec_clock_scale(c, t).flash_config
}

/// Table validity: for every profile of a tier above the lowest, the
/// PLL input frequency lies between one and two megahertz, and the VCO
/// frequency between one hundred and four hundred and thirty-two
/// megahertz.  The lowest tier is excluded: its multiplier of
/// ninety-six puts the VCO at ninety-six megahertz, below the floor.
pub proof fn lemma_table_pll_ranges(c: CrystalClock, t: Clock)
    requires
        !(t is Clock48MHz),
    ensures
        1_000_000 <= spec_crystal_hz(c) / spec_clock_scale(c, t).pllm,
        spec_crystal_hz(c) / spec_clock_scale(c, t).pllm <= 2_000_000,
        100_000_000 <= (spec_crystal_hz(c) / spec_clock_scale(c, t).pllm) * spec_clock_scale(
            c,
            t,
        ).plln,
        (spec_crystal_hz(c) / spec_clock_scale(c, t).pllm) * spec_clock_scale(c, t).plln
            <= 432_000_000,
{
    assert(spec_crystal_hz(c) / spec_clock_scale(c, t).pllm == 1_000_000);
    assert(spec_clock_scale(c, t).plln == 336 || spec_clock_scale(c, t).plln == 240);
}

/// Monotonic latency: between two tiers neither of which is the
/// over-provisioned lowest one, the programmed flash wait-states never
/// decrease as the target frequency increases.  The pair from the
/// lowest tier up to the next is excluded: the lowest tier programs
/// three wait-states where two suffice, so that one step goes down.
pub proof fn lemma_flash_latency_monotonic(c: CrystalClock, t1: Clock, t2: Clock)
    requires
        spec_target_hz(t1) <= spec_target_hz(t2),
        !(t1 is Clock48MHz && t2 is Clock84MHz),
    ensures
        spec_flash_wait_states(c, t1) <= spec_flash_wait_states(c, t2),
{
}

} // verus!
