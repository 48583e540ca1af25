//! Timer driver: counting modes, output compare, input capture, break
//! and dead-time control, and the slave-mode controller.

use vstd::prelude::*;

use crate::rcc;
use crate::volatile_cell::VolatileCell;

verus! {

pub const TIM1_ADDR: usize = 0x4001_0000;
pub const TIM2_ADDR: usize = 0x4000_0000;
pub const TIM3_ADDR: usize = 0x4000_0400;
pub const TIM4_ADDR: usize = 0x4000_0800;
pub const TIM5_ADDR: usize = 0x4000_0c00;
pub const TIM6_ADDR: usize = 0x4000_1000;
pub const TIM7_ADDR: usize = 0x4000_1400;
pub const TIM8_ADDR: usize = 0x4001_0400;
pub const TIM9_ADDR: usize = 0x4001_4000;
pub const TIM10_ADDR: usize = 0x4001_4400;
pub const TIM11_ADDR: usize = 0x4001_4800;
pub const TIM12_ADDR: usize = 0x4000_1800;
pub const TIM13_ADDR: usize = 0x4000_1c00;
pub const TIM14_ADDR: usize = 0x4000_2000;

/* CR1 */
pub const CR1_CKD_CK_INT_MASK: u32 = 0x3 << 8;
pub const CR1_ARPE: u32 = 1 << 7;
pub const CR1_CMS_MASK: u32 = 0x3 << 5;
pub const CR1_DIR_DOWN: u32 = 1 << 4;
pub const CR1_OPM: u32 = 1 << 3;
pub const CR1_URS: u32 = 1 << 2;
pub const CR1_UDIS: u32 = 1 << 1;
pub const CR1_CEN: u32 = 1 << 0;

/* CR2 */
pub const CR2_OIS4: u32 = 1 << 14;
pub const CR2_OIS3N: u32 = 1 << 13;
pub const CR2_OIS3: u32 = 1 << 12;
pub const CR2_OIS2N: u32 = 1 << 11;
pub const CR2_OIS2: u32 = 1 << 10;
pub const CR2_OIS1N: u32 = 1 << 9;
pub const CR2_OIS1: u32 = 1 << 8;
pub const CR2_OIS_MASK: u32 = 0x7f << 8;
pub const CR2_TI1S: u32 = 1 << 7;
pub const CR2_MMS_MASK: u32 = 0x7 << 4;
pub const CR2_CCDS: u32 = 1 << 3;
pub const CR2_CCUS: u32 = 1 << 2;
pub const CR2_CCPC: u32 = 1 << 0;

/* SMCR */
pub const SMCR_ETP: u32 = 1 << 15;
pub const SMCR_ETPS_MASK: u32 = 0x3 << 12;
pub const SMCR_ETF_MASK: u32 = 0xF << 8;
pub const SMCR_TS_MASK: u32 = 0x7 << 4;
pub const SMCR_SMS_MASK: u32 = 0x7 << 0;

/* DIER */
pub const DIER_UIE: u32 = 1 << 0;

/* SR */
pub const SR_BIF: u32 = 1 << 7;
pub const SR_TIF: u32 = 1 << 6;
pub const SR_COMIF: u32 = 1 << 5;
pub const SR_CC4IF: u32 = 1 << 4;
pub const SR_CC3IF: u32 = 1 << 3;
pub const SR_CC2IF: u32 = 1 << 2;
pub const SR_CC1IF: u32 = 1 << 1;
pub const SR_UIF: u32 = 1 << 0;

/* EGR */
pub const EGR_BG: u32 = 1 << 7;
pub const EGR_TG: u32 = 1 << 6;
pub const EGR_COMG: u32 = 1 << 5;
pub const EGR_CC4G: u32 = 1 << 4;
pub const EGR_CC3G: u32 = 1 << 3;
pub const EGR_CC2G: u32 = 1 << 2;
pub const EGR_CC1G: u32 = 1 << 1;
pub const EGR_UG: u32 = 1 << 0;

/* CCMR1 */
pub const CCMR1_OC2CE: u32 = 1 << 15;
pub const CCMR1_OC2M_FROZEN: u32 = 0x0 << 12;
pub const CCMR1_OC2M_ACTIVE: u32 = 0x1 << 12;
pub const CCMR1_OC2M_INACTIVE: u32 = 0x2 << 12;
pub const CCMR1_OC2M_TOGGLE: u32 = 0x3 << 12;
pub const CCMR1_OC2M_FORCE_LOW: u32 = 0x4 << 12;
pub const CCMR1_OC2M_FORCE_HIGH: u32 = 0x5 << 12;
pub const CCMR1_OC2M_PWM1: u32 = 0x6 << 12;
pub const CCMR1_OC2M_PWM2: u32 = 0x7 << 12;
pub const CCMR1_OC2M_MASK: u32 = 0x7 << 12;
pub const CCMR1_OC2PE: u32 = 1 << 11;
pub const CCMR1_OC2FE: u32 = 1 << 10;
pub const CCMR1_CC2S_OUT: u32 = 0x0 << 8;
pub const CCMR1_CC2S_MASK: u32 = 0x3 << 8;
pub const CCMR1_OC1CE: u32 = 1 << 7;
pub const CCMR1_OC1M_FROZEN: u32 = 0x0 << 4;
pub const CCMR1_OC1M_ACTIVE: u32 = 0x1 << 4;
pub const CCMR1_OC1M_INACTIVE: u32 = 0x2 << 4;
pub const CCMR1_OC1M_TOGGLE: u32 = 0x3 << 4;
pub const CCMR1_OC1M_FORCE_LOW: u32 = 0x4 << 4;
pub const CCMR1_OC1M_FORCE_HIGH: u32 = 0x5 << 4;
pub const CCMR1_OC1M_PWM1: u32 = 0x6 << 4;
pub const CCMR1_OC1M_PWM2: u32 = 0x7 << 4;
pub const CCMR1_OC1M_MASK: u32 = 0x7 << 4;
pub const CCMR1_OC1PE: u32 = 1 << 3;
pub const CCMR1_OC1FE: u32 = 1 << 2;
pub const CCMR1_CC1S_OUT: u32 = 0x0 << 0;
pub const CCMR1_CC1S_MASK: u32 = 0x3 << 0;
pub const CCMR1_IC2F_MASK: u32 = 0xF << 12;
pub const CCMR1_IC2PSC_MASK: u32 = 0x3 << 10;
pub const CCMR1_IC1F_MASK: u32 = 0xF << 4;
pub const CCMR1_IC1PSC_MASK: u32 = 0x3 << 2;

/* CCMR2 */
pub const CCMR2_OC4CE: u32 = 1 << 15;
pub const CCMR2_OC4M_FROZEN: u32 = 0x0 << 12;
pub const CCMR2_OC4M_ACTIVE: u32 = 0x1 << 12;
pub const CCMR2_OC4M_INACTIVE: u32 = 0x2 << 12;
pub const CCMR2_OC4M_TOGGLE: u32 = 0x3 << 12;
pub const CCMR2_OC4M_FORCE_LOW: u32 = 0x4 << 12;
pub const CCMR2_OC4M_FORCE_HIGH: u32 = 0x5 << 12;
pub const CCMR2_OC4M_PWM1: u32 = 0x6 << 12;
pub const CCMR2_OC4M_PWM2: u32 = 0x7 << 12;
pub const CCMR2_OC4M_MASK: u32 = 0x7 << 12;
pub const CCMR2_OC4PE: u32 = 1 << 11;
pub const CCMR2_OC4FE: u32 = 1 << 10;
pub const CCMR2_CC4S_OUT: u32 = 0x0 << 8;
pub const CCMR2_CC4S_MASK: u32 = 0x3 << 8;
pub const CCMR2_OC3CE: u32 = 1 << 7;
pub const CCMR2_OC3M_FROZEN: u32 = 0x0 << 4;
pub const CCMR2_OC3M_ACTIVE: u32 = 0x1 << 4;
pub const CCMR2_OC3M_INACTIVE: u32 = 0x2 << 4;
pub const CCMR2_OC3M_TOGGLE: u32 = 0x3 << 4;
pub const CCMR2_OC3M_FORCE_LOW: u32 = 0x4 << 4;
pub const CCMR2_OC3M_FORCE_HIGH: u32 = 0x5 << 4;
pub const CCMR2_OC3M_PWM1: u32 = 0x6 << 4;
pub const CCMR2_OC3M_PWM2: u32 = 0x7 << 4;
pub const CCMR2_OC3M_MASK: u32 = 0x7 << 4;
pub const CCMR2_OC3PE: u32 = 1 << 3;
pub const CCMR2_OC3FE: u32 = 1 << 2;
pub const CCMR2_CC3S_OUT: u32 = 0x0 << 0;
pub const CCMR2_CC3S_MASK: u32 = 0x3 << 0;
pub const CCMR2_IC4F_MASK: u32 = 0xF << 12;
pub const CCMR2_IC4PSC_MASK: u32 = 0x3 << 10;
pub const CCMR2_IC3F_MASK: u32 = 0xF << 4;
pub const CCMR2_IC3PSC_MASK: u32 = 0x3 << 2;

/* CCER */
pub const CCER_CC4NP: u32 = 1 << 15;
pub const CCER_CC4NE: u32 = 1 << 14;
pub const CCER_CC4P: u32 = 1 << 13;
pub const CCER_CC4E: u32 = 1 << 12;
pub const CCER_CC3NP: u32 = 1 << 11;
pub const CCER_CC3NE: u32 = 1 << 10;
pub const CCER_CC3P: u32 = 1 << 9;
pub const CCER_CC3E: u32 = 1 << 8;
pub const CCER_CC2NP: u32 = 1 << 7;
pub const CCER_CC2NE: u32 = 1 << 6;
pub const CCER_CC2P: u32 = 1 << 5;
pub const CCER_CC2E: u32 = 1 << 4;
pub const CCER_CC1NP: u32 = 1 << 3;
pub const CCER_CC1NE: u32 = 1 << 2;
pub const CCER_CC1P: u32 = 1 << 1;
pub const CCER_CC1E: u32 = 1 << 0;

/* BDTR */
pub const BDTR_MOE: u32 = 1 << 15;
pub const BDTR_AOE: u32 = 1 << 14;
pub const BDTR_BKP: u32 = 1 << 13;
pub const BDTR_BKE: u32 = 1 << 12;
pub const BDTR_OSSR: u32 = 1 << 11;
pub const BDTR_OSSI: u32 = 1 << 10;

/* OR */
pub const OR_ITR1_RMP_MASK: u32 = 0x3 << 10;
pub const OR_ITR4_RMP_MASK: u32 = 0x3 << 6;

/// Input-capture edge selection.
#[derive(Clone, Copy, PartialEq, Eq, Structural, Debug)]
pub enum InputCapturePolarity {
    Rising,
    Falling,
    Both,
}

/// Output-compare channel designators, plain and complementary.
#[derive(Clone, Copy, PartialEq, Eq, Structural, Debug)]
pub enum OutputCompareChannel {
    OChannel1,
    OChannel1N,
    OChannel2,
    OChannel2N,
    OChannel3,
    OChannel3N,
    OChannel4,
}

/// How the comparator output responds to a compare match.
#[derive(Clone, Copy, PartialEq, Eq, Structural, Debug)]
pub enum OutputCompareMode {
    Frozen,
    Active,
    Inactive,
    Toggle,
    ForceLow,
    ForceHigh,
    PWM1,
    PWM2,
}

/// Input-capture channel designators.
#[derive(Clone, Copy, PartialEq, Eq, Structural, Debug)]
pub enum InputCaptureChannel {
    Channel1,
    Channel2,
    Channel3,
    Channel4,
}

/// Input filter: the sampling clock and the number of events that
/// validate a transition.
#[derive(Clone, Copy, PartialEq, Eq, Structural, Debug)]
#[allow(non_camel_case_types)]
pub enum InputCaptureFilter {
    OFF,
    CK_INT_N_2,
    CK_INT_N_4,
    CK_INT_N_8,
    DTF_DIV_2_N_6,
    DTF_DIV_2_N_8,
    DTF_DIV_4_N_6,
    DTF_DIV_4_N_8,
    DTF_DIV_8_N_6,
    DTF_DIV_8_N_8,
    DTF_DIV_16_N_5,
    DTF_DIV_16_N_6,
    DTF_DIV_16_N_8,
    DTF_DIV_32_N_5,
    DTF_DIV_32_N_6,
    DTF_DIV_32_N_8,
}

/// A capture every so many events.
#[derive(Clone, Copy, PartialEq, Eq, Structural, Debug)]
pub enum InputCapturePrescaler {
    PrescalerOff,
    Prescaler2,
    Prescaler4,
    Prescaler8,
}

/// Direction of a capture/compare channel and, for inputs, the input
/// it maps to.
#[derive(Clone, Copy, PartialEq, Eq, Structural, Debug)]
pub enum InputCaptureSource {
    Out,
    InTI1,
    InTI2,
    InTRC,
    InTI3,
    InTI4,
}

/// Polarity of the slave controller's external trigger.
#[derive(Clone, Copy, PartialEq, Eq, Structural, Debug)]
pub enum ExternalTriggerPolarity {
    Rising,
    Falling,
}

impl InputCaptureChannel {
    /// The channel's index, from zero.
    pub open spec fn spec_code(self) -> u32 {
        match self {
            InputCaptureChannel::Channel1 => 0,
            InputCaptureChannel::Channel2 => 1,
            InputCaptureChannel::Channel3 => 2,
            InputCaptureChannel::Channel4 => 3,
        }
    }

    pub fn code(self) -> (r: u32)
        ensures
            r == self.spec_code(),
    {
        match self {
            InputCaptureChannel::Channel1 => 0,
            InputCaptureChannel::Channel2 => 1,
            InputCaptureChannel::Channel3 => 2,
            InputCaptureChannel::Channel4 => 3,
        }
    }
}

impl InputCaptureFilter {
    /// The filter's four-bit field value.
    pub open spec fn spec_code(self) -> u32 {
        match self {
            InputCaptureFilter::OFF => 0,
            InputCaptureFilter::CK_INT_N_2 => 1,
            InputCaptureFilter::CK_INT_N_4 => 2,
            InputCaptureFilter::CK_INT_N_8 => 3,
            InputCaptureFilter::DTF_DIV_2_N_6 => 4,
            InputCaptureFilter::DTF_DIV_2_N_8 => 5,
            InputCaptureFilter::DTF_DIV_4_N_6 => 6,
            InputCaptureFilter::DTF_DIV_4_N_8 => 7,
            InputCaptureFilter::DTF_DIV_8_N_6 => 8,
            InputCaptureFilter::DTF_DIV_8_N_8 => 9,
            InputCaptureFilter::DTF_DIV_16_N_5 => 10,
            InputCaptureFilter::DTF_DIV_16_N_6 => 11,
            InputCaptureFilter::DTF_DIV_16_N_8 => 12,
            InputCaptureFilter::DTF_DIV_32_N_5 => 13,
            InputCaptureFilter::DTF_DIV_32_N_6 => 14,
            InputCaptureFilter::DTF_DIV_32_N_8 => 15,
        }
    }

    pub fn code(self) -> (r: u32)
        ensures
            r == self.spec_code(),
    {
        match self {
            InputCaptureFilter::OFF => 0,
            InputCaptureFilter::CK_INT_N_2 => 1,
            InputCaptureFilter::CK_INT_N_4 => 2,
            InputCaptureFilter::CK_INT_N_8 => 3,
            InputCaptureFilter::DTF_DIV_2_N_6 => 4,
            InputCaptureFilter::DTF_DIV_2_N_8 => 5,
            InputCaptureFilter::DTF_DIV_4_N_6 => 6,
            InputCaptureFilter::DTF_DIV_4_N_8 => 7,
            InputCaptureFilter::DTF_DIV_8_N_6 => 8,
            InputCaptureFilter::DTF_DIV_8_N_8 => 9,
            InputCaptureFilter::DTF_DIV_16_N_5 => 10,
            InputCaptureFilter::DTF_DIV_16_N_6 => 11,
            InputCaptureFilter::DTF_DIV_16_N_8 => 12,
            InputCaptureFilter::DTF_DIV_32_N_5 => 13,
            InputCaptureFilter::DTF_DIV_32_N_6 => 14,
            InputCaptureFilter::DTF_DIV_32_N_8 => 15,
        }
    }
}

impl InputCapturePrescaler {
    /// The prescaler's two-bit field value.
    pub open spec fn spec_code(self) -> u32 {
        match self {
            InputCapturePrescaler::PrescalerOff => 0,
            InputCapturePrescaler::Prescaler2 => 1,
            InputCapturePrescaler::Prescaler4 => 2,
            InputCapturePrescaler::Prescaler8 => 3,
        }
    }

    pub fn code(self) -> (r: u32)
        ensures
            r == self.spec_code(),
    {
        match self {
            InputCapturePrescaler::PrescalerOff => 0,
            InputCapturePrescaler::Prescaler2 => 1,
            InputCapturePrescaler::Prescaler4 => 2,
            InputCapturePrescaler::Prescaler8 => 3,
        }
    }
}

impl InputCaptureSource {
    /// The source's selection value.
    pub open spec fn spec_code(self) -> u32 {
        match self {
            InputCaptureSource::Out => 0,
            InputCaptureSource::InTI1 => 1,
            InputCaptureSource::InTI2 => 2,
            InputCaptureSource::InTRC => 3,
            InputCaptureSource::InTI3 => 5,
            InputCaptureSource::InTI4 => 6,
        }
    }

    pub fn code(self) -> (r: u32)
        ensures
            r == self.spec_code(),
    {
        match self {
            InputCaptureSource::Out => 0,
            InputCaptureSource::InTI1 => 1,
            InputCaptureSource::InTI2 => 2,
            InputCaptureSource::InTRC => 3,
            InputCaptureSource::InTI3 => 5,
            InputCaptureSource::InTI4 => 6,
        }
    }
}

/// Image of one timer's register block.
#[derive(Clone, Copy, PartialEq, Eq, Structural, Debug)]
pub struct Registers {
    pub cr1: VolatileCell,
    pub cr2: VolatileCell,
    pub smcr: VolatileCell,
    pub dier: VolatileCell,
    pub sr: VolatileCell,
    pub egr: VolatileCell,
    pub ccmr1: VolatileCell,
    pub ccmr2: VolatileCell,
    pub ccer: VolatileCell,
    pub cnt: VolatileCell,
    pub psc: VolatileCell,
    pub arr: VolatileCell,
    pub rcr: VolatileCell,
    pub ccr1: VolatileCell,
    pub ccr2: VolatileCell,
    pub ccr3: VolatileCell,
    pub ccr4: VolatileCell,
    pub bdtr: VolatileCell,
    pub dcr: VolatileCell,
    pub dmar: VolatileCell,
    pub or: VolatileCell,
}

/// The plain values behind a `Registers` image.
pub struct RegistersView {
    pub cr1: u32,
    pub cr2: u32,
    pub smcr: u32,
    pub dier: u32,
    pub sr: u32,
    pub egr: u32,
    pub ccmr1: u32,
    pub ccmr2: u32,
    pub ccer: u32,
    pub cnt: u32,
    pub psc: u32,
    pub arr: u32,
    pub rcr: u32,
    pub ccr1: u32,
    pub ccr2: u32,
    pub ccr3: u32,
    pub ccr4: u32,
    pub bdtr: u32,
    pub dcr: u32,
    pub dmar: u32,
    pub or: u32,
}

impl View for Registers {
    type V = RegistersView;

    open spec fn view(&self) -> RegistersView {
        RegistersView {
            cr1: self.cr1@,
            cr2: self.cr2@,
            smcr: self.smcr@,
            dier: self.dier@,
            sr: self.sr@,
            egr: self.egr@,
            ccmr1: self.ccmr1@,
            ccmr2: self.ccmr2@,
            ccer: self.ccer@,
            cnt: self.cnt@,
            psc: self.psc@,
            arr: self.arr@,
            rcr: self.rcr@,
            ccr1: self.ccr1@,
            ccr2: self.ccr2@,
            ccr3: self.ccr3@,
            ccr4: self.ccr4@,
            bdtr: self.bdtr@,
            dcr: self.dcr@,
            dmar: self.dmar@,
            or: self.or@,
        }
    }
}

/// The all-zero timer image.
pub open spec fn spec_timer_registers_zero() -> RegistersView {
    RegistersView {
        cr1: 0,
        cr2: 0,
        smcr: 0,
        dier: 0,
        sr: 0,
        egr: 0,
        ccmr1: 0,
        ccmr2: 0,
        ccer: 0,
        cnt: 0,
        psc: 0,
        arr: 0,
        rcr: 0,
        ccr1: 0,
        ccr2: 0,
        ccr3: 0,
        ccr4: 0,
        bdtr: 0,
        dcr: 0,
        dmar: 0,
        or: 0,
    }
}

/// One timer: its base address and its register image.
#[derive(Clone, Copy, PartialEq, Eq, Structural, Debug)]
pub struct Timer {
    pub addr: usize,
    pub regs: Registers,
}

impl Timer {
    /// The timer at `addr`, with a fresh register image.
    pub fn new(addr: usize) -> (r: Timer)
        ensures
            r.addr == addr,
            r.regs@ == spec_timer_registers_zero(),
    {
        Timer {
            addr,
            regs: Registers {
                cr1: VolatileCell::new(0),
                cr2: VolatileCell::new(0),
                smcr: VolatileCell::new(0),
                dier: VolatileCell::new(0),
                sr: VolatileCell::new(0),
                egr: VolatileCell::new(0),
                ccmr1: VolatileCell::new(0),
                ccmr2: VolatileCell::new(0),
                ccer: VolatileCell::new(0),
                cnt: VolatileCell::new(0),
                psc: VolatileCell::new(0),
                arr: VolatileCell::new(0),
                rcr: VolatileCell::new(0),
                ccr1: VolatileCell::new(0),
                ccr2: VolatileCell::new(0),
                ccr3: VolatileCell::new(0),
                ccr4: VolatileCell::new(0),
                bdtr: VolatileCell::new(0),
                dcr: VolatileCell::new(0),
                dmar: VolatileCell::new(0),
                or: VolatileCell::new(0),
            },
        }
    }

    /// The two advanced-control timers carry break, dead-time and
    /// complementary-output machinery the plain ones lack.
    pub open spec fn spec_is_advanced(&self) -> bool {
        self.addr == TIM1_ADDR || self.addr == TIM8_ADDR
    }

    pub fn is_advanced(&self) -> (r: bool)
        ensures
            r == self.spec_is_advanced(),
    {
        self.addr == TIM1_ADDR || self.addr == TIM8_ADDR
    }
}

/// The clock-control effect of resetting the timer at `addr`: the
/// reset pulse of the matching peripheral, or nothing for an unknown
/// address.
pub open spec fn spec_timer_reset(v: rcc::RegistersView, addr: usize) -> rcc::RegistersView {
    if addr == TIM1_ADDR {
        rcc::spec_reset_pulse(v, rcc::Peripheral::TIM1)
    } else if addr == TIM2_ADDR {
        rcc::spec_reset_pulse(v, rcc::Peripheral::TIM2)
    } else if addr == TIM3_ADDR {
        rcc::spec_reset_pulse(v, rcc::Peripheral::TIM3)
    } else if addr == TIM4_ADDR {
        rcc::spec_reset_pulse(v, rcc::Peripheral::TIM4)
    } else if addr == TIM5_ADDR {
        rcc::spec_reset_pulse(v, rcc::Peripheral::TIM5)
    } else if addr == TIM6_ADDR {
        rcc::spec_reset_pulse(v, rcc::Peripheral::TIM6)
    } else if addr == TIM7_ADDR {
        rcc::spec_reset_pulse(v, rcc::Peripheral::TIM7)
    } else if addr == TIM8_ADDR {
        rcc::spec_reset_pulse(v, rcc::Peripheral::TIM8)
    } else if addr == TIM9_ADDR {
        rcc::spec_reset_pulse(v, rcc::Peripheral::TIM9)
    } else if addr == TIM10_ADDR {
        rcc::spec_reset_pulse(v, rcc::Peripheral::TIM10)
    } else if addr == TIM11_ADDR {
        rcc::spec_reset_pulse(v, rcc::Peripheral::TIM11)
    } else if addr == TIM12_ADDR {
        rcc::spec_reset_pulse(v, rcc::Peripheral::TIM12)
    } else if addr == TIM13_ADDR {
        rcc::spec_reset_pulse(v, rcc::Peripheral::TIM13)
    } else if addr == TIM14_ADDR {
        rcc::spec_reset_pulse(v, rcc::Peripheral::TIM14)
    } else {
        v
    }
}

/// Place the timer and its configuration in the reset state, through
/// the clock controller's peripheral reset system.
pub fn reset(timer: &Timer, rcc: &mut rcc::Registers)
    ensures
        final(rcc)@ == spec_timer_reset(old(rcc)@, timer.addr),
{
    if timer.addr == TIM1_ADDR {
        rcc::reset_pulse(rcc, rcc::Peripheral::TIM1);
    } else if timer.addr == TIM2_ADDR {
        rcc::reset_pulse(rcc, rcc::Peripheral::TIM2);
    } else if timer.addr == TIM3_ADDR {
        rcc::reset_pulse(rcc, rcc::Peripheral::TIM3);
    } else if timer.addr == TIM4_ADDR {
        rcc::reset_pulse(rcc, rcc::Peripheral::TIM4);
    } else if timer.addr == TIM5_ADDR {
        rcc::reset_pulse(rcc, rcc::Peripheral::TIM5);
    } else if timer.addr == TIM6_ADDR {
        rcc::reset_pulse(rcc, rcc::Peripheral::TIM6);
    } else if timer.addr == TIM7_ADDR {
        rcc::reset_pulse(rcc, rcc::Peripheral::TIM7);
    } else if timer.addr == TIM8_ADDR {
        rcc::reset_pulse(rcc, rcc::Peripheral::TIM8);
    } else if timer.addr == TIM9_ADDR {
        rcc::reset_pulse(rcc, rcc::Peripheral::TIM9);
    } else if timer.addr == TIM10_ADDR {
        rcc::reset_pulse(rcc, rcc::Peripheral::TIM10);
    } else if timer.addr == TIM11_ADDR {
        rcc::reset_pulse(rcc, rcc::Peripheral::TIM11);
    } else if timer.addr == TIM12_ADDR {
        rcc::reset_pulse(rcc, rcc::Peripheral::TIM12);
    } else if timer.addr == TIM13_ADDR {
        rcc::reset_pulse(rcc, rcc::Peripheral::TIM13);
    } else if timer.addr == TIM14_ADDR {
        rcc::reset_pulse(rcc, rcc::Peripheral::TIM14);
    }
}

/// Interrupt on update events.
pub fn enable_update_irq(timer: &mut Timer)
    ensures
        final(timer).regs@ == (RegistersView {
            dier: old(timer).regs@.dier | DIER_UIE,
            ..old(timer).regs@
        }),
        final(timer).addr == old(timer).addr,
{
    timer.regs.dier.check(DIER_UIE);
}

/// Stop interrupting on update events.
pub fn disable_update_irq(timer: &mut Timer)
    ensures
        final(timer).regs@ == (RegistersView {
            dier: old(timer).regs@.dier & !DIER_UIE,
            ..old(timer).regs@
        }),
        final(timer).addr == old(timer).addr,
{
    timer.regs.dier.uncheck(DIER_UIE);
}

/// Set the interrupt-enable bits of `irq`.
pub fn enable_irq(timer: &mut Timer, irq: u32)
    ensures
        final(timer).regs@ == (RegistersView {
            dier: old(timer).regs@.dier | irq,
            ..old(timer).regs@
        }),
        final(timer).addr == old(timer).addr,
{
    timer.regs.dier.check(irq);
}

/// Clear the interrupt-enable bits of `irq`.
pub fn disable_irq(timer: &mut Timer, irq: u32)
    ensures
        final(timer).regs@ == (RegistersView {
            dier: old(timer).regs@.dier & !irq,
            ..old(timer).regs@
        }),
        final(timer).addr == old(timer).addr,
{
    timer.regs.dier.uncheck(irq);
}

/// Whether `flag` names an interrupt that is both raised and enabled:
/// false when the flag is clear, the interrupt disabled or `flag` not
/// an interrupt flag at all; the break and commutation flags exist
/// only on the advanced timers.
pub fn interrupt_source(timer: &Timer, flag: u32) -> (r: bool)
    ensures
        r == (if timer.regs@.sr & timer.regs@.dier & flag == 0 || flag > SR_BIF {
            false
        } else if flag == SR_BIF || flag == SR_COMIF {
            timer.spec_is_advanced()
        } else {
            true
        }),
{
    /* flag not set or interrupt disabled or not an interrupt source */
    if (timer.regs.sr.get() & timer.regs.dier.get() & flag) == 0 || flag > SR_BIF {
        return false;
    }
    if flag == SR_BIF || flag == SR_COMIF {
        return timer.is_advanced();
    }
    true
}

/// Whether the update flag is set.
pub fn is_update_flag_checked(timer: &Timer) -> (r: bool)
    ensures
        r == (timer.regs@.sr & SR_UIF != 0),
{
    timer.regs.sr.test(SR_UIF)
}

/// Acknowledge the update flag (the status register is written with every other bit held high).
pub fn clear_update_flag(timer: &mut Timer)
    ensures
        final(timer).regs@ == (RegistersView {
            sr: !SR_UIF,
            ..old(timer).regs@
        }),
        final(timer).addr == old(timer).addr,
{
    timer.regs.sr.set(!SR_UIF);
}

/// Whether any status flag of `flag` is set.
pub fn get_flag(timer: &Timer, flag: u32) -> (r: bool)
    ensures
        r == (timer.regs@.sr & flag != 0),
{
    timer.regs.sr.test(flag)
}

/// Acknowledge the flags of `flag` (the status register is written with their bits held low).
pub fn clear_flag(timer: &mut Timer, flag: u32)
    ensures
        final(timer).regs@ == (RegistersView {
            sr: !flag,
            ..old(timer).regs@
        }),
        final(timer).addr == old(timer).addr,
{
    timer.regs.sr.set(!flag);
}

/// Set clock division, alignment and count direction in one step.
pub fn set_mode(timer: &mut Timer, clock_div: u32, alignment: u32, direction: u32)
    ensures
        final(timer).regs@ == (RegistersView {
            cr1: (old(timer).regs@.cr1 & !(CR1_CKD_CK_INT_MASK | CR1_CMS_MASK | CR1_DIR_DOWN)) | (clock_div | alignment | direction),
            ..old(timer).regs@
        }),
        final(timer).addr == old(timer).addr,
{
    timer.regs.cr1.uncheck(CR1_CKD_CK_INT_MASK | CR1_CMS_MASK | CR1_DIR_DOWN);
    timer.regs.cr1.check(clock_div | alignment | direction);
}

/// Set the input filter and dead-time clock division ratio.
pub fn set_clock_division(timer: &mut Timer, clock_div: u32)
    ensures
        final(timer).regs@ == (RegistersView {
            cr1: (old(timer).regs@.cr1 & !CR1_CKD_CK_INT_MASK) | (clock_div & CR1_CKD_CK_INT_MASK),
            ..old(timer).regs@
        }),
        final(timer).addr == old(timer).addr,
{
    timer.regs.cr1.uncheck(CR1_CKD_CK_INT_MASK);
    timer.regs.cr1.check(clock_div & CR1_CKD_CK_INT_MASK);
}

/// Load the counter from the auto-reload register only at update events.
pub fn enable_preload(timer: &mut Timer)
    ensures
        final(timer).regs@ == (RegistersView {
            cr1: old(timer).regs@.cr1 | CR1_ARPE,
            ..old(timer).regs@
        }),
        final(timer).addr == old(timer).addr,
{
    timer.regs.cr1.check(CR1_ARPE);
}

/// Load the counter immediately when the auto-reload register is written.
pub fn disable_preload(timer: &mut Timer)
    ensures
        final(timer).regs@ == (RegistersView {
            cr1: old(timer).regs@.cr1 & !CR1_ARPE,
            ..old(timer).regs@
        }),
        final(timer).addr == old(timer).addr,
{
    timer.regs.cr1.uncheck(CR1_ARPE);
}

/// Select edge-aligned or centre-aligned counting.
pub fn set_alignment(timer: &mut Timer, alignment: u32)
    ensures
        final(timer).regs@ == (RegistersView {
            cr1: (old(timer).regs@.cr1 & !CR1_CMS_MASK) | (alignment & CR1_CMS_MASK),
            ..old(timer).regs@
        }),
        final(timer).addr == old(timer).addr,
{
    timer.regs.cr1.uncheck(CR1_CMS_MASK);
    timer.regs.cr1.check(alignment & CR1_CMS_MASK);
}

/// Count up (no effect when centre-aligned).
pub fn direction_up(timer: &mut Timer)
    ensures
        final(timer).regs@ == (RegistersView {
            cr1: old(timer).regs@.cr1 & !CR1_DIR_DOWN,
            ..old(timer).regs@
        }),
        final(timer).addr == old(timer).addr,
{
    timer.regs.cr1.uncheck(CR1_DIR_DOWN);
}

/// Count down (no effect when centre-aligned).
pub fn direction_down(timer: &mut Timer)
    ensures
        final(timer).regs@ == (RegistersView {
            cr1: old(timer).regs@.cr1 | CR1_DIR_DOWN,
            ..old(timer).regs@
        }),
        final(timer).addr == old(timer).addr,
{
    timer.regs.cr1.check(CR1_DIR_DOWN);
}

/// Run one cycle and stop.
pub fn one_shot_mode(timer: &mut Timer)
    ensures
        final(timer).regs@ == (RegistersView {
            cr1: old(timer).regs@.cr1 | CR1_OPM,
            ..old(timer).regs@
        }),
        final(timer).addr == old(timer).addr,
{
    timer.regs.cr1.check(CR1_OPM);
}

/// Run continuously.
pub fn continuous_mode(timer: &mut Timer)
    ensures
        final(timer).regs@ == (RegistersView {
            cr1: old(timer).regs@.cr1 & !CR1_OPM,
            ..old(timer).regs@
        }),
        final(timer).addr == old(timer).addr,
{
    timer.regs.cr1.uncheck(CR1_OPM);
}

/// Generate update requests on any event.
pub fn update_on_any(timer: &mut Timer)
    ensures
        final(timer).regs@ == (RegistersView {
            cr1: old(timer).regs@.cr1 & !CR1_URS,
            ..old(timer).regs@
        }),
        final(timer).addr == old(timer).addr,
{
    timer.regs.cr1.uncheck(CR1_URS);
}

/// Generate update requests only on overflow and underflow.
pub fn update_on_overflow(timer: &mut Timer)
    ensures
        final(timer).regs@ == (RegistersView {
            cr1: old(timer).regs@.cr1 | CR1_URS,
            ..old(timer).regs@
        }),
        final(timer).addr == old(timer).addr,
{
    timer.regs.cr1.check(CR1_URS);
}

/// Generate update events.
pub fn enable_update_event(timer: &mut Timer)
    ensures
        final(timer).regs@ == (RegistersView {
            cr1: old(timer).regs@.cr1 & !CR1_UDIS,
            ..old(timer).regs@
        }),
        final(timer).addr == old(timer).addr,
{
    timer.regs.cr1.uncheck(CR1_UDIS);
}

/// Suppress update events; shadow registers keep their values.
pub fn disable_update_event(timer: &mut Timer)
    ensures
        final(timer).regs@ == (RegistersView {
            cr1: old(timer).regs@.cr1 | CR1_UDIS,
            ..old(timer).regs@
        }),
        final(timer).addr == old(timer).addr,
{
    timer.regs.cr1.check(CR1_UDIS);
}

/// Start counting.
pub fn enable_counter(timer: &mut Timer)
    ensures
        final(timer).regs@ == (RegistersView {
            cr1: old(timer).regs@.cr1 | CR1_CEN,
            ..old(timer).regs@
        }),
        final(timer).addr == old(timer).addr,
{
    timer.regs.cr1.check(CR1_CEN);
}

/// Stop counting.
pub fn disable_counter(timer: &mut Timer)
    ensures
        final(timer).regs@ == (RegistersView {
            cr1: old(timer).regs@.cr1 & !CR1_CEN,
            ..old(timer).regs@
        }),
        final(timer).addr == old(timer).addr,
{
    timer.regs.cr1.uncheck(CR1_CEN);
}

/// Idle the selected compare outputs high.  Plain timers are left untouched.
pub fn set_output_idle_state(timer: &mut Timer, outputs: u32)
    ensures
        old(timer).spec_is_advanced() ==> final(timer).regs@ == (RegistersView {
            cr2: old(timer).regs@.cr2 | (outputs & CR2_OIS_MASK),
            ..old(timer).regs@
        }),
        !old(timer).spec_is_advanced() ==> final(timer).regs@ == old(timer).regs@,
        final(timer).addr == old(timer).addr,
{
    if timer.is_advanced() {
        timer.regs.cr2.check(outputs & CR2_OIS_MASK);
    }
}

/// Idle the selected compare outputs low.  Plain timers are left untouched.
pub fn reset_output_idle_state(timer: &mut Timer, outputs: u32)
    ensures
        old(timer).spec_is_advanced() ==> final(timer).regs@ == (RegistersView {
            cr2: old(timer).regs@.cr2 & !(outputs & CR2_OIS_MASK),
            ..old(timer).regs@
        }),
        !old(timer).spec_is_advanced() ==> final(timer).regs@ == old(timer).regs@,
        final(timer).addr == old(timer).addr,
{
    if timer.is_advanced() {
        timer.regs.cr2.uncheck(outputs & CR2_OIS_MASK);
    }
}

/// Form the first capture input from the exclusive-or of channels one, two and three.
pub fn set_ti1_ch123_xor(timer: &mut Timer)
    ensures
        final(timer).regs@ == (RegistersView {
            cr2: old(timer).regs@.cr2 | CR2_TI1S,
            ..old(timer).regs@
        }),
        final(timer).addr == old(timer).addr,
{
    timer.regs.cr2.check(CR2_TI1S);
}

/// Take the first capture input from channel one alone.
pub fn set_ti1_ch1(timer: &mut Timer)
    ensures
        final(timer).regs@ == (RegistersView {
            cr2: old(timer).regs@.cr2 & !CR2_TI1S,
            ..old(timer).regs@
        }),
        final(timer).addr == old(timer).addr,
{
    timer.regs.cr2.uncheck(CR2_TI1S);
}

/// Select what drives the trigger output for slave timers.
pub fn set_master_mode(timer: &mut Timer, mode: u32)
    ensures
        final(timer).regs@ == (RegistersView {
            cr2: (old(timer).regs@.cr2 & !CR2_MMS_MASK) | mode,
            ..old(timer).regs@
        }),
        final(timer).addr == old(timer).addr,
{
    timer.regs.cr2.uncheck(CR2_MMS_MASK);
    timer.regs.cr2.check(mode);
}

/// Raise DMA requests on capture/compare events.
pub fn set_dma_on_compare_event(timer: &mut Timer)
    ensures
        final(timer).regs@ == (RegistersView {
            cr2: old(timer).regs@.cr2 & !CR2_CCDS,
            ..old(timer).regs@
        }),
        final(timer).addr == old(timer).addr,
{
    timer.regs.cr2.uncheck(CR2_CCDS);
}

/// Raise DMA requests on update events.
pub fn set_dma_on_update_event(timer: &mut Timer)
    ensures
        final(timer).regs@ == (RegistersView {
            cr2: old(timer).regs@.cr2 | CR2_CCDS,
            ..old(timer).regs@
        }),
        final(timer).addr == old(timer).addr,
{
    timer.regs.cr2.check(CR2_CCDS);
}

/// Update preloaded compare-control bits on a commutation event or a trigger edge.  Plain timers are left untouched.
pub fn enable_compare_control_update_on_trigger(timer: &mut Timer)
    ensures
        old(timer).spec_is_advanced() ==> final(timer).regs@ == (RegistersView {
            cr2: old(timer).regs@.cr2 | (CR2_CCUS),
            ..old(timer).regs@
        }),
        !old(timer).spec_is_advanced() ==> final(timer).regs@ == old(timer).regs@,
        final(timer).addr == old(timer).addr,
{
    if timer.is_advanced() {
        timer.regs.cr2.check(CR2_CCUS);
    }
}

/// Update preloaded compare-control bits on a commutation event only.  Plain timers are left untouched.
pub fn disable_compare_control_update_on_trigger(timer: &mut Timer)
    ensures
        old(timer).spec_is_advanced() ==> final(timer).regs@ == (RegistersView {
            cr2: old(timer).regs@.cr2 & !(CR2_CCUS),
            ..old(timer).regs@
        }),
        !old(timer).spec_is_advanced() ==> final(timer).regs@ == old(timer).regs@,
        final(timer).addr == old(timer).addr,
{
    if timer.is_advanced() {
        timer.regs.cr2.uncheck(CR2_CCUS);
    }
}

/// Preload the compare-control bits until a commutation event.  Plain timers are left untouched.
pub fn enable_preload_complementry_enable_bits(timer: &mut Timer)
    ensures
        old(timer).spec_is_advanced() ==> final(timer).regs@ == (RegistersView {
            cr2: old(timer).regs@.cr2 | (CR2_CCPC),
            ..old(timer).regs@
        }),
        !old(timer).spec_is_advanced() ==> final(timer).regs@ == old(timer).regs@,
        final(timer).addr == old(timer).addr,
{
    if timer.is_advanced() {
        timer.regs.cr2.check(CR2_CCPC);
    }
}

/// Apply compare-control bits immediately.  Plain timers are left untouched.
pub fn disable_preload_complementry_enable_bits(timer: &mut Timer)
    ensures
        old(timer).spec_is_advanced() ==> final(timer).regs@ == (RegistersView {
            cr2: old(timer).regs@.cr2 & !(CR2_CCPC),
            ..old(timer).regs@
        }),
        !old(timer).spec_is_advanced() ==> final(timer).regs@ == old(timer).regs@,
        final(timer).addr == old(timer).addr,
{
    if timer.is_advanced() {
        timer.regs.cr2.uncheck(CR2_CCPC);
    }
}

/// The clock is divided by the value plus one.
pub fn set_prescaler(timer: &mut Timer, value: u32)
    ensures
        final(timer).regs@ == (RegistersView {
            psc: value,
            ..old(timer).regs@
        }),
        final(timer).addr == old(timer).addr,
{
    timer.regs.psc.set(value);
}

/// Generate an update only after this many repeat cycles.  Plain timers are left untouched.
pub fn set_repetition_counter(timer: &mut Timer, value: u32)
    ensures
        old(timer).spec_is_advanced() ==> final(timer).regs@ == (RegistersView {
            rcr: value,
            ..old(timer).regs@
        }),
        !old(timer).spec_is_advanced() ==> final(timer).regs@ == old(timer).regs@,
        final(timer).addr == old(timer).addr,
{
    if timer.is_advanced() {
        timer.regs.rcr.set(value);
    }
}

/// Set the period in the auto-reload register.
pub fn set_period(timer: &mut Timer, period: u32)
    ensures
        final(timer).regs@ == (RegistersView {
            arr: period,
            ..old(timer).regs@
        }),
        final(timer).addr == old(timer).addr,
{
    timer.regs.arr.set(period);
}

/// Clear the compare output when the external trigger goes high.  Complementary channels take no action.
pub fn enable_oc_clear(timer: &mut Timer, oc_id: OutputCompareChannel)
    ensures
        oc_id is OChannel1 ==> final(timer).regs@ == (RegistersView {
            ccmr1: old(timer).regs@.ccmr1 | CCMR1_OC1CE,
            ..old(timer).regs@
        }),
        oc_id is OChannel2 ==> final(timer).regs@ == (RegistersView {
            ccmr1: old(timer).regs@.ccmr1 | CCMR1_OC2CE,
            ..old(timer).regs@
        }),
        oc_id is OChannel3 ==> final(timer).regs@ == (RegistersView {
            ccmr2: old(timer).regs@.ccmr2 | CCMR2_OC3CE,
            ..old(timer).regs@
        }),
        oc_id is OChannel4 ==> final(timer).regs@ == (RegistersView {
            ccmr2: old(timer).regs@.ccmr2 | CCMR2_OC4CE,
            ..old(timer).regs@
        }),
        oc_id !is OChannel1 && oc_id !is OChannel2 && oc_id !is OChannel3 && oc_id !is OChannel4 ==> final(timer).regs@ == old(timer).regs@,
        final(timer).addr == old(timer).addr,
{
    match oc_id {
        OutputCompareChannel::OChannel1 => timer.regs.ccmr1.check(CCMR1_OC1CE),
        OutputCompareChannel::OChannel2 => timer.regs.ccmr1.check(CCMR1_OC2CE),
        OutputCompareChannel::OChannel3 => timer.regs.ccmr2.check(CCMR2_OC3CE),
        OutputCompareChannel::OChannel4 => timer.regs.ccmr2.check(CCMR2_OC4CE),
        _ => {},
    }
}

/// Stop clearing the compare output on the external trigger.  Complementary channels take no action.
pub fn disable_oc_clear(timer: &mut Timer, oc_id: OutputCompareChannel)
    ensures
        oc_id is OChannel1 ==> final(timer).regs@ == (RegistersView {
            ccmr1: old(timer).regs@.ccmr1 & !CCMR1_OC1CE,
            ..old(timer).regs@
        }),
        oc_id is OChannel2 ==> final(timer).regs@ == (RegistersView {
            ccmr1: old(timer).regs@.ccmr1 & !CCMR1_OC2CE,
            ..old(timer).regs@
        }),
        oc_id is OChannel3 ==> final(timer).regs@ == (RegistersView {
            ccmr2: old(timer).regs@.ccmr2 & !CCMR2_OC3CE,
            ..old(timer).regs@
        }),
        oc_id is OChannel4 ==> final(timer).regs@ == (RegistersView {
            ccmr2: old(timer).regs@.ccmr2 & !CCMR2_OC4CE,
            ..old(timer).regs@
        }),
        oc_id !is OChannel1 && oc_id !is OChannel2 && oc_id !is OChannel3 && oc_id !is OChannel4 ==> final(timer).regs@ == old(timer).regs@,
        final(timer).addr == old(timer).addr,
{
    match oc_id {
        OutputCompareChannel::OChannel1 => timer.regs.ccmr1.uncheck(CCMR1_OC1CE),
        OutputCompareChannel::OChannel2 => timer.regs.ccmr1.uncheck(CCMR1_OC2CE),
        OutputCompareChannel::OChannel3 => timer.regs.ccmr2.uncheck(CCMR2_OC3CE),
        OutputCompareChannel::OChannel4 => timer.regs.ccmr2.uncheck(CCMR2_OC4CE),
        _ => {},
    }
}

/// Force the compare output to its state directly from a trigger edge.  Complementary channels take no action.
pub fn set_oc_fast_mode(timer: &mut Timer, oc_id: OutputCompareChannel)
    ensures
        oc_id is OChannel1 ==> final(timer).regs@ == (RegistersView {
            ccmr1: old(timer).regs@.ccmr1 | CCMR1_OC1FE,
            ..old(timer).regs@
        }),
        oc_id is OChannel2 ==> final(timer).regs@ == (RegistersView {
            ccmr1: old(timer).regs@.ccmr1 | CCMR1_OC2FE,
            ..old(timer).regs@
        }),
        oc_id is OChannel3 ==> final(timer).regs@ == (RegistersView {
            ccmr2: old(timer).regs@.ccmr2 | CCMR2_OC3FE,
            ..old(timer).regs@
        }),
        oc_id is OChannel4 ==> final(timer).regs@ == (RegistersView {
            ccmr2: old(timer).regs@.ccmr2 | CCMR2_OC4FE,
            ..old(timer).regs@
        }),
        oc_id !is OChannel1 && oc_id !is OChannel2 && oc_id !is OChannel3 && oc_id !is OChannel4 ==> final(timer).regs@ == old(timer).regs@,
        final(timer).addr == old(timer).addr,
{
    match oc_id {
        OutputCompareChannel::OChannel1 => timer.regs.ccmr1.check(CCMR1_OC1FE),
        OutputCompareChannel::OChannel2 => timer.regs.ccmr1.check(CCMR1_OC2FE),
        OutputCompareChannel::OChannel3 => timer.regs.ccmr2.check(CCMR2_OC3FE),
        OutputCompareChannel::OChannel4 => timer.regs.ccmr2.check(CCMR2_OC4FE),
        _ => {},
    }
}

/// Let the compare output follow counter and compare register alone.  Complementary channels take no action.
pub fn set_oc_slow_mode(timer: &mut Timer, oc_id: OutputCompareChannel)
    ensures
        oc_id is OChannel1 ==> final(timer).regs@ == (RegistersView {
            ccmr1: old(timer).regs@.ccmr1 & !CCMR1_OC1FE,
            ..old(timer).regs@
        }),
        oc_id is OChannel2 ==> final(timer).regs@ == (RegistersView {
            ccmr1: old(timer).regs@.ccmr1 & !CCMR1_OC2FE,
            ..old(timer).regs@
        }),
        oc_id is OChannel3 ==> final(timer).regs@ == (RegistersView {
            ccmr2: old(timer).regs@.ccmr2 & !CCMR2_OC3FE,
            ..old(timer).regs@
        }),
        oc_id is OChannel4 ==> final(timer).regs@ == (RegistersView {
            ccmr2: old(timer).regs@.ccmr2 & !CCMR2_OC4FE,
            ..old(timer).regs@
        }),
        oc_id !is OChannel1 && oc_id !is OChannel2 && oc_id !is OChannel3 && oc_id !is OChannel4 ==> final(timer).regs@ == old(timer).regs@,
        final(timer).addr == old(timer).addr,
{
    match oc_id {
        OutputCompareChannel::OChannel1 => timer.regs.ccmr1.uncheck(CCMR1_OC1FE),
        OutputCompareChannel::OChannel2 => timer.regs.ccmr1.uncheck(CCMR1_OC2FE),
        OutputCompareChannel::OChannel3 => timer.regs.ccmr2.uncheck(CCMR2_OC3FE),
        OutputCompareChannel::OChannel4 => timer.regs.ccmr2.uncheck(CCMR2_OC4FE),
        _ => {},
    }
}

/// The mode field value of compare channel 1 for each mode.
pub open spec fn spec_oc1m_flag(m: OutputCompareMode) -> u32 {
    match m {
            OutputCompareMode::Frozen => CCMR1_OC1M_FROZEN,
            OutputCompareMode::Active => CCMR1_OC1M_ACTIVE,
            OutputCompareMode::Inactive => CCMR1_OC1M_INACTIVE,
            OutputCompareMode::Toggle => CCMR1_OC1M_TOGGLE,
            OutputCompareMode::ForceLow => CCMR1_OC1M_FORCE_LOW,
            OutputCompareMode::ForceHigh => CCMR1_OC1M_FORCE_HIGH,
            OutputCompareMode::PWM1 => CCMR1_OC1M_PWM1,
            OutputCompareMode::PWM2 => CCMR1_OC1M_PWM2,
    }
}

/// The mode field value of compare channel 2 for each mode.
pub open spec fn spec_oc2m_flag(m: OutputCompareMode) -> u32 {
    match m {
            OutputCompareMode::Frozen => CCMR1_OC2M_FROZEN,
            OutputCompareMode::Active => CCMR1_OC2M_ACTIVE,
            OutputCompareMode::Inactive => CCMR1_OC2M_INACTIVE,
            OutputCompareMode::Toggle => CCMR1_OC2M_TOGGLE,
            OutputCompareMode::ForceLow => CCMR1_OC2M_FORCE_LOW,
            OutputCompareMode::ForceHigh => CCMR1_OC2M_FORCE_HIGH,
            OutputCompareMode::PWM1 => CCMR1_OC2M_PWM1,
            OutputCompareMode::PWM2 => CCMR1_OC2M_PWM2,
    }
}

/// The mode field value of compare channel 3 for each mode.
pub open spec fn spec_oc3m_flag(m: OutputCompareMode) -> u32 {
    match m {
            OutputCompareMode::Frozen => CCMR2_OC3M_FROZEN,
            OutputCompareMode::Active => CCMR2_OC3M_ACTIVE,
            OutputCompareMode::Inactive => CCMR2_OC3M_INACTIVE,
            OutputCompareMode::Toggle => CCMR2_OC3M_TOGGLE,
            OutputCompareMode::ForceLow => CCMR2_OC3M_FORCE_LOW,
            OutputCompareMode::ForceHigh => CCMR2_OC3M_FORCE_HIGH,
            OutputCompareMode::PWM1 => CCMR2_OC3M_PWM1,
            OutputCompareMode::PWM2 => CCMR2_OC3M_PWM2,
    }
}

/// The mode field value of compare channel 4 for each mode.
pub open spec fn spec_oc4m_flag(m: OutputCompareMode) -> u32 {
    match m {
            OutputCompareMode::Frozen => CCMR2_OC4M_FROZEN,
            OutputCompareMode::Active => CCMR2_OC4M_ACTIVE,
            OutputCompareMode::Inactive => CCMR2_OC4M_INACTIVE,
            OutputCompareMode::Toggle => CCMR2_OC4M_TOGGLE,
            OutputCompareMode::ForceLow => CCMR2_OC4M_FORCE_LOW,
            OutputCompareMode::ForceHigh => CCMR2_OC4M_FORCE_HIGH,
            OutputCompareMode::PWM1 => CCMR2_OC4M_PWM1,
            OutputCompareMode::PWM2 => CCMR2_OC4M_PWM2,
    }
}

/// Make the channel an output and select how the comparator output
/// responds to a match.  Complementary channels take no action.
pub fn set_oc_mode(timer: &mut Timer, oc_id: OutputCompareChannel, oc_mode: OutputCompareMode)
    ensures
        oc_id is OChannel1 ==> final(timer).regs@ == (RegistersView {
            ccmr1: (((old(timer).regs@.ccmr1 & !CCMR1_CC1S_MASK) | CCMR1_CC1S_OUT) & !CCMR1_OC1M_MASK) | spec_oc1m_flag(oc_mode),
            ..old(timer).regs@
        }),
        oc_id is OChannel2 ==> final(timer).regs@ == (RegistersView {
            ccmr1: (((old(timer).regs@.ccmr1 & !CCMR1_CC2S_MASK) | CCMR1_CC2S_OUT) & !CCMR1_OC2M_MASK) | spec_oc2m_flag(oc_mode),
            ..old(timer).regs@
        }),
        oc_id is OChannel3 ==> final(timer).regs@ == (RegistersView {
            ccmr2: (((old(timer).regs@.ccmr2 & !CCMR2_CC3S_MASK) | CCMR2_CC3S_OUT) & !CCMR2_OC3M_MASK) | spec_oc3m_flag(oc_mode),
            ..old(timer).regs@
        }),
        oc_id is OChannel4 ==> final(timer).regs@ == (RegistersView {
            ccmr2: (((old(timer).regs@.ccmr2 & !CCMR2_CC4S_MASK) | CCMR2_CC4S_OUT) & !CCMR2_OC4M_MASK) | spec_oc4m_flag(oc_mode),
            ..old(timer).regs@
        }),
        oc_id !is OChannel1 && oc_id !is OChannel2 && oc_id !is OChannel3 && oc_id !is OChannel4 ==> final(timer).regs@ == old(timer).regs@,
        final(timer).addr == old(timer).addr,
{
    match oc_id {
        OutputCompareChannel::OChannel1 => {
            timer.regs.ccmr1.uncheck(CCMR1_CC1S_MASK);
            timer.regs.ccmr1.check(CCMR1_CC1S_OUT);
            timer.regs.ccmr1.uncheck(CCMR1_OC1M_MASK);
            match oc_mode {
                OutputCompareMode::Frozen => timer.regs.ccmr1.check(CCMR1_OC1M_FROZEN),
                OutputCompareMode::Active => timer.regs.ccmr1.check(CCMR1_OC1M_ACTIVE),
                OutputCompareMode::Inactive => timer.regs.ccmr1.check(CCMR1_OC1M_INACTIVE),
                OutputCompareMode::Toggle => timer.regs.ccmr1.check(CCMR1_OC1M_TOGGLE),
                OutputCompareMode::ForceLow => timer.regs.ccmr1.check(CCMR1_OC1M_FORCE_LOW),
                OutputCompareMode::ForceHigh => timer.regs.ccmr1.check(CCMR1_OC1M_FORCE_HIGH),
                OutputCompareMode::PWM1 => timer.regs.ccmr1.check(CCMR1_OC1M_PWM1),
                OutputCompareMode::PWM2 => timer.regs.ccmr1.check(CCMR1_OC1M_PWM2),
            }
        },
        OutputCompareChannel::OChannel2 => {
            timer.regs.ccmr1.uncheck(CCMR1_CC2S_MASK);
            timer.regs.ccmr1.check(CCMR1_CC2S_OUT);
            timer.regs.ccmr1.uncheck(CCMR1_OC2M_MASK);
            match oc_mode {
                OutputCompareMode::Frozen => timer.regs.ccmr1.check(CCMR1_OC2M_FROZEN),
                OutputCompareMode::Active => timer.regs.ccmr1.check(CCMR1_OC2M_ACTIVE),
                OutputCompareMode::Inactive => timer.regs.ccmr1.check(CCMR1_OC2M_INACTIVE),
                OutputCompareMode::Toggle => timer.regs.ccmr1.check(CCMR1_OC2M_TOGGLE),
                OutputCompareMode::ForceLow => timer.regs.ccmr1.check(CCMR1_OC2M_FORCE_LOW),
                OutputCompareMode::ForceHigh => timer.regs.ccmr1.check(CCMR1_OC2M_FORCE_HIGH),
                OutputCompareMode::PWM1 => timer.regs.ccmr1.check(CCMR1_OC2M_PWM1),
                OutputCompareMode::PWM2 => timer.regs.ccmr1.check(CCMR1_OC2M_PWM2),
            }
        },
        OutputCompareChannel::OChannel3 => {
            timer.regs.ccmr2.uncheck(CCMR2_CC3S_MASK);
            timer.regs.ccmr2.check(CCMR2_CC3S_OUT);
            timer.regs.ccmr2.uncheck(CCMR2_OC3M_MASK);
            match oc_mode {
                OutputCompareMode::Frozen => timer.regs.ccmr2.check(CCMR2_OC3M_FROZEN),
                OutputCompareMode::Active => timer.regs.ccmr2.check(CCMR2_OC3M_ACTIVE),
                OutputCompareMode::Inactive => timer.regs.ccmr2.check(CCMR2_OC3M_INACTIVE),
                OutputCompareMode::Toggle => timer.regs.ccmr2.check(CCMR2_OC3M_TOGGLE),
                OutputCompareMode::ForceLow => timer.regs.ccmr2.check(CCMR2_OC3M_FORCE_LOW),
                OutputCompareMode::ForceHigh => timer.regs.ccmr2.check(CCMR2_OC3M_FORCE_HIGH),
                OutputCompareMode::PWM1 => timer.regs.ccmr2.check(CCMR2_OC3M_PWM1),
                OutputCompareMode::PWM2 => timer.regs.ccmr2.check(CCMR2_OC3M_PWM2),
            }
        },
        OutputCompareChannel::OChannel4 => {
            timer.regs.ccmr2.uncheck(CCMR2_CC4S_MASK);
            timer.regs.ccmr2.check(CCMR2_CC4S_OUT);
            timer.regs.ccmr2.uncheck(CCMR2_OC4M_MASK);
            match oc_mode {
                OutputCompareMode::Frozen => timer.regs.ccmr2.check(CCMR2_OC4M_FROZEN),
                OutputCompareMode::Active => timer.regs.ccmr2.check(CCMR2_OC4M_ACTIVE),
                OutputCompareMode::Inactive => timer.regs.ccmr2.check(CCMR2_OC4M_INACTIVE),
                OutputCompareMode::Toggle => timer.regs.ccmr2.check(CCMR2_OC4M_TOGGLE),
                OutputCompareMode::ForceLow => timer.regs.ccmr2.check(CCMR2_OC4M_FORCE_LOW),
                OutputCompareMode::ForceHigh => timer.regs.ccmr2.check(CCMR2_OC4M_FORCE_HIGH),
                OutputCompareMode::PWM1 => timer.regs.ccmr2.check(CCMR2_OC4M_PWM1),
                OutputCompareMode::PWM2 => timer.regs.ccmr2.check(CCMR2_OC4M_PWM2),
            }
        },
        _ => {},
    }
}

/// Delay compare-register writes to the next update event.  Complementary channels take no action.
pub fn enable_oc_preload(timer: &mut Timer, oc_id: OutputCompareChannel)
    ensures
        oc_id is OChannel1 ==> final(timer).regs@ == (RegistersView {
            ccmr1: old(timer).regs@.ccmr1 | CCMR1_OC1PE,
            ..old(timer).regs@
        }),
        oc_id is OChannel2 ==> final(timer).regs@ == (RegistersView {
            ccmr1: old(timer).regs@.ccmr1 | CCMR1_OC2PE,
            ..old(timer).regs@
        }),
        oc_id is OChannel3 ==> final(timer).regs@ == (RegistersView {
            ccmr2: old(timer).regs@.ccmr2 | CCMR2_OC3PE,
            ..old(timer).regs@
        }),
        oc_id is OChannel4 ==> final(timer).regs@ == (RegistersView {
            ccmr2: old(timer).regs@.ccmr2 | CCMR2_OC4PE,
            ..old(timer).regs@
        }),
        oc_id !is OChannel1 && oc_id !is OChannel2 && oc_id !is OChannel3 && oc_id !is OChannel4 ==> final(timer).regs@ == old(timer).regs@,
        final(timer).addr == old(timer).addr,
{
    match oc_id {
        OutputCompareChannel::OChannel1 => timer.regs.ccmr1.check(CCMR1_OC1PE),
        OutputCompareChannel::OChannel2 => timer.regs.ccmr1.check(CCMR1_OC2PE),
        OutputCompareChannel::OChannel3 => timer.regs.ccmr2.check(CCMR2_OC3PE),
        OutputCompareChannel::OChannel4 => timer.regs.ccmr2.check(CCMR2_OC4PE),
        _ => {},
    }
}

/// Apply compare-register writes immediately.  Complementary channels take no action.
pub fn disable_oc_preload(timer: &mut Timer, oc_id: OutputCompareChannel)
    ensures
        oc_id is OChannel1 ==> final(timer).regs@ == (RegistersView {
            ccmr1: old(timer).regs@.ccmr1 & !CCMR1_OC1PE,
            ..old(timer).regs@
        }),
        oc_id is OChannel2 ==> final(timer).regs@ == (RegistersView {
            ccmr1: old(timer).regs@.ccmr1 & !CCMR1_OC2PE,
            ..old(timer).regs@
        }),
        oc_id is OChannel3 ==> final(timer).regs@ == (RegistersView {
            ccmr2: old(timer).regs@.ccmr2 & !CCMR2_OC3PE,
            ..old(timer).regs@
        }),
        oc_id is OChannel4 ==> final(timer).regs@ == (RegistersView {
            ccmr2: old(timer).regs@.ccmr2 & !CCMR2_OC4PE,
            ..old(timer).regs@
        }),
        oc_id !is OChannel1 && oc_id !is OChannel2 && oc_id !is OChannel3 && oc_id !is OChannel4 ==> final(timer).regs@ == old(timer).regs@,
        final(timer).addr == old(timer).addr,
{
    match oc_id {
        OutputCompareChannel::OChannel1 => timer.regs.ccmr1.uncheck(CCMR1_OC1PE),
        OutputCompareChannel::OChannel2 => timer.regs.ccmr1.uncheck(CCMR1_OC2PE),
        OutputCompareChannel::OChannel3 => timer.regs.ccmr2.uncheck(CCMR2_OC3PE),
        OutputCompareChannel::OChannel4 => timer.regs.ccmr2.uncheck(CCMR2_OC4PE),
        _ => {},
    }
}

/// Active-high compare output.  On the advanced timers the complementary signal follows;
/// complementary channel designators take no action.
pub fn set_oc_polarity_high(timer: &mut Timer, oc_id: OutputCompareChannel)
    ensures
        oc_id is OChannel1 ==> final(timer).regs@ == (RegistersView {
            ccer: (if old(timer).spec_is_advanced() {
                (old(timer).regs@.ccer & !CCER_CC1P) & !CCER_CC1NP
            } else {
                old(timer).regs@.ccer & !CCER_CC1P
            }),
            ..old(timer).regs@
        }),
        oc_id is OChannel2 ==> final(timer).regs@ == (RegistersView {
            ccer: (if old(timer).spec_is_advanced() {
                (old(timer).regs@.ccer & !CCER_CC2P) & !CCER_CC2NP
            } else {
                old(timer).regs@.ccer & !CCER_CC2P
            }),
            ..old(timer).regs@
        }),
        oc_id is OChannel3 ==> final(timer).regs@ == (RegistersView {
            ccer: (if old(timer).spec_is_advanced() {
                (old(timer).regs@.ccer & !CCER_CC3P) & !CCER_CC3NP
            } else {
                old(timer).regs@.ccer & !CCER_CC3P
            }),
            ..old(timer).regs@
        }),
        oc_id is OChannel4 ==> final(timer).regs@ == (RegistersView {
            ccer: (if old(timer).spec_is_advanced() {
                (old(timer).regs@.ccer & !CCER_CC4P) & !CCER_CC4NP
            } else {
                old(timer).regs@.ccer & !CCER_CC4P
            }),
            ..old(timer).regs@
        }),
        oc_id !is OChannel1 && oc_id !is OChannel2 && oc_id !is OChannel3 && oc_id !is OChannel4 ==> final(timer).regs@ == old(timer).regs@,
        final(timer).addr == old(timer).addr,
{
    match oc_id {
        OutputCompareChannel::OChannel1 => timer.regs.ccer.uncheck(CCER_CC1P),
        OutputCompareChannel::OChannel2 => timer.regs.ccer.uncheck(CCER_CC2P),
        OutputCompareChannel::OChannel3 => timer.regs.ccer.uncheck(CCER_CC3P),
        OutputCompareChannel::OChannel4 => timer.regs.ccer.uncheck(CCER_CC4P),
        _ => {},
    }
    if !timer.is_advanced() {
        return ;
    }
    match oc_id {
        OutputCompareChannel::OChannel1 => timer.regs.ccer.uncheck(CCER_CC1NP),
        OutputCompareChannel::OChannel2 => timer.regs.ccer.uncheck(CCER_CC2NP),
        OutputCompareChannel::OChannel3 => timer.regs.ccer.uncheck(CCER_CC3NP),
        OutputCompareChannel::OChannel4 => timer.regs.ccer.uncheck(CCER_CC4NP),
        _ => {},
    }
}

/// Active-low compare output.  On the advanced timers the complementary signal follows;
/// complementary channel designators take no action.
pub fn set_oc_polarity_low(timer: &mut Timer, oc_id: OutputCompareChannel)
    ensures
        oc_id is OChannel1 ==> final(timer).regs@ == (RegistersView {
            ccer: (if old(timer).spec_is_advanced() {
                (old(timer).regs@.ccer | CCER_CC1P) | CCER_CC1NP
            } else {
                old(timer).regs@.ccer | CCER_CC1P
            }),
            ..old(timer).regs@
        }),
        oc_id is OChannel2 ==> final(timer).regs@ == (RegistersView {
            ccer: (if old(timer).spec_is_advanced() {
                (old(timer).regs@.ccer | CCER_CC2P) | CCER_CC2NP
            } else {
                old(timer).regs@.ccer | CCER_CC2P
            }),
            ..old(timer).regs@
        }),
        oc_id is OChannel3 ==> final(timer).regs@ == (RegistersView {
            ccer: (if old(timer).spec_is_advanced() {
                (old(timer).regs@.ccer | CCER_CC3P) | CCER_CC3NP
            } else {
                old(timer).regs@.ccer | CCER_CC3P
            }),
            ..old(timer).regs@
        }),
        oc_id is OChannel4 ==> final(timer).regs@ == (RegistersView {
            ccer: (if old(timer).spec_is_advanced() {
                (old(timer).regs@.ccer | CCER_CC4P) | CCER_CC4NP
            } else {
                old(timer).regs@.ccer | CCER_CC4P
            }),
            ..old(timer).regs@
        }),
        oc_id !is OChannel1 && oc_id !is OChannel2 && oc_id !is OChannel3 && oc_id !is OChannel4 ==> final(timer).regs@ == old(timer).regs@,
        final(timer).addr == old(timer).addr,
{
    match oc_id {
        OutputCompareChannel::OChannel1 => timer.regs.ccer.check(CCER_CC1P),
        OutputCompareChannel::OChannel2 => timer.regs.ccer.check(CCER_CC2P),
        OutputCompareChannel::OChannel3 => timer.regs.ccer.check(CCER_CC3P),
        OutputCompareChannel::OChannel4 => timer.regs.ccer.check(CCER_CC4P),
        _ => {},
    }
    if !timer.is_advanced() {
        return ;
    }
    match oc_id {
        OutputCompareChannel::OChannel1 => timer.regs.ccer.check(CCER_CC1NP),
        OutputCompareChannel::OChannel2 => timer.regs.ccer.check(CCER_CC2NP),
        OutputCompareChannel::OChannel3 => timer.regs.ccer.check(CCER_CC3NP),
        OutputCompareChannel::OChannel4 => timer.regs.ccer.check(CCER_CC4NP),
        _ => {},
    }
}

/// Enable the compare output.  On the advanced timers the complementary signal follows;
/// complementary channel designators take no action.
pub fn enable_oc_output(timer: &mut Timer, oc_id: OutputCompareChannel)
    ensures
        oc_id is OChannel1 ==> final(timer).regs@ == (RegistersView {
            ccer: (if old(timer).spec_is_advanced() {
                (old(timer).regs@.ccer | CCER_CC1E) | CCER_CC1NE
            } else {
                old(timer).regs@.ccer | CCER_CC1E
            }),
            ..old(timer).regs@
        }),
        oc_id is OChannel2 ==> final(timer).regs@ == (RegistersView {
            ccer: (if old(timer).spec_is_advanced() {
                (old(timer).regs@.ccer | CCER_CC2E) | CCER_CC2NE
            } else {
                old(timer).regs@.ccer | CCER_CC2E
            }),
            ..old(timer).regs@
        }),
        oc_id is OChannel3 ==> final(timer).regs@ == (RegistersView {
            ccer: (if old(timer).spec_is_advanced() {
                (old(timer).regs@.ccer | CCER_CC3E) | CCER_CC3NE
            } else {
                old(timer).regs@.ccer | CCER_CC3E
            }),
            ..old(timer).regs@
        }),
        oc_id is OChannel4 ==> final(timer).regs@ == (RegistersView {
            ccer: (if old(timer).spec_is_advanced() {
                (old(timer).regs@.ccer | CCER_CC4E) | CCER_CC4NE
            } else {
                old(timer).regs@.ccer | CCER_CC4E
            }),
            ..old(timer).regs@
        }),
        oc_id !is OChannel1 && oc_id !is OChannel2 && oc_id !is OChannel3 && oc_id !is OChannel4 ==> final(timer).regs@ == old(timer).regs@,
        final(timer).addr == old(timer).addr,
{
    match oc_id {
        OutputCompareChannel::OChannel1 => timer.regs.ccer.check(CCER_CC1E),
        OutputCompareChannel::OChannel2 => timer.regs.ccer.check(CCER_CC2E),
        OutputCompareChannel::OChannel3 => timer.regs.ccer.check(CCER_CC3E),
        OutputCompareChannel::OChannel4 => timer.regs.ccer.check(CCER_CC4E),
        _ => {},
    }
    if !timer.is_advanced() {
        return ;
    }
    match oc_id {
        OutputCompareChannel::OChannel1 => timer.regs.ccer.check(CCER_CC1NE),
        OutputCompareChannel::OChannel2 => timer.regs.ccer.check(CCER_CC2NE),
        OutputCompareChannel::OChannel3 => timer.regs.ccer.check(CCER_CC3NE),
        OutputCompareChannel::OChannel4 => timer.regs.ccer.check(CCER_CC4NE),
        _ => {},
    }
}

/// Disable the compare output.  On the advanced timers the complementary signal follows;
/// complementary channel designators take no action.
pub fn disable_oc_output(timer: &mut Timer, oc_id: OutputCompareChannel)
    ensures
        oc_id is OChannel1 ==> final(timer).regs@ == (RegistersView {
            ccer: (if old(timer).spec_is_advanced() {
                (old(timer).regs@.ccer & !CCER_CC1E) & !CCER_CC1NE
            } else {
                old(timer).regs@.ccer & !CCER_CC1E
            }),
            ..old(timer).regs@
        }),
        oc_id is OChannel2 ==> final(timer).regs@ == (RegistersView {
            ccer: (if old(timer).spec_is_advanced() {
                (old(timer).regs@.ccer & !CCER_CC2E) & !CCER_CC2NE
            } else {
                old(timer).regs@.ccer & !CCER_CC2E
            }),
            ..old(timer).regs@
        }),
        oc_id is OChannel3 ==> final(timer).regs@ == (RegistersView {
            ccer: (if old(timer).spec_is_advanced() {
                (old(timer).regs@.ccer & !CCER_CC3E) & !CCER_CC3NE
            } else {
                old(timer).regs@.ccer & !CCER_CC3E
            }),
            ..old(timer).regs@
        }),
        oc_id is OChannel4 ==> final(timer).regs@ == (RegistersView {
            ccer: (if old(timer).spec_is_advanced() {
                (old(timer).regs@.ccer & !CCER_CC4E) & !CCER_CC4NE
            } else {
                old(timer).regs@.ccer & !CCER_CC4E
            }),
            ..old(timer).regs@
        }),
        oc_id !is OChannel1 && oc_id !is OChannel2 && oc_id !is OChannel3 && oc_id !is OChannel4 ==> final(timer).regs@ == old(timer).regs@,
        final(timer).addr == old(timer).addr,
{
    match oc_id {
        OutputCompareChannel::OChannel1 => timer.regs.ccer.uncheck(CCER_CC1E),
        OutputCompareChannel::OChannel2 => timer.regs.ccer.uncheck(CCER_CC2E),
        OutputCompareChannel::OChannel3 => timer.regs.ccer.uncheck(CCER_CC3E),
        OutputCompareChannel::OChannel4 => timer.regs.ccer.uncheck(CCER_CC4E),
        _ => {},
    }
    if !timer.is_advanced() {
        return ;
    }
    match oc_id {
        OutputCompareChannel::OChannel1 => timer.regs.ccer.uncheck(CCER_CC1NE),
        OutputCompareChannel::OChannel2 => timer.regs.ccer.uncheck(CCER_CC2NE),
        OutputCompareChannel::OChannel3 => timer.regs.ccer.uncheck(CCER_CC3NE),
        OutputCompareChannel::OChannel4 => timer.regs.ccer.uncheck(CCER_CC4NE),
        _ => {},
    }
}

/// Idle the selected compare output high.  Plain timers are left untouched.
pub fn set_oc_idle_state_set(timer: &mut Timer, oc_id: OutputCompareChannel)
    ensures
        old(timer).spec_is_advanced() && oc_id is OChannel1 ==> final(timer).regs@ == (RegistersView {
            cr2: old(timer).regs@.cr2 | CR2_OIS1,
            ..old(timer).regs@
        }),
        old(timer).spec_is_advanced() && oc_id is OChannel1N ==> final(timer).regs@ == (RegistersView {
            cr2: old(timer).regs@.cr2 | CR2_OIS1N,
            ..old(timer).regs@
        }),
        old(timer).spec_is_advanced() && oc_id is OChannel2 ==> final(timer).regs@ == (RegistersView {
            cr2: old(timer).regs@.cr2 | CR2_OIS2,
            ..old(timer).regs@
        }),
        old(timer).spec_is_advanced() && oc_id is OChannel2N ==> final(timer).regs@ == (RegistersView {
            cr2: old(timer).regs@.cr2 | CR2_OIS2N,
            ..old(timer).regs@
        }),
        old(timer).spec_is_advanced() && oc_id is OChannel3 ==> final(timer).regs@ == (RegistersView {
            cr2: old(timer).regs@.cr2 | CR2_OIS3,
            ..old(timer).regs@
        }),
        old(timer).spec_is_advanced() && oc_id is OChannel3N ==> final(timer).regs@ == (RegistersView {
            cr2: old(timer).regs@.cr2 | CR2_OIS3N,
            ..old(timer).regs@
        }),
        old(timer).spec_is_advanced() && oc_id is OChannel4 ==> final(timer).regs@ == (RegistersView {
            cr2: old(timer).regs@.cr2 | CR2_OIS4,
            ..old(timer).regs@
        }),
        !old(timer).spec_is_advanced() ==> final(timer).regs@ == old(timer).regs@,
        final(timer).addr == old(timer).addr,
{
    if timer.is_advanced() {
        match oc_id {
            OutputCompareChannel::OChannel1 => timer.regs.cr2.check(CR2_OIS1),
            OutputCompareChannel::OChannel1N => timer.regs.cr2.check(CR2_OIS1N),
            OutputCompareChannel::OChannel2 => timer.regs.cr2.check(CR2_OIS2),
            OutputCompareChannel::OChannel2N => timer.regs.cr2.check(CR2_OIS2N),
            OutputCompareChannel::OChannel3 => timer.regs.cr2.check(CR2_OIS3),
            OutputCompareChannel::OChannel3N => timer.regs.cr2.check(CR2_OIS3N),
            OutputCompareChannel::OChannel4 => timer.regs.cr2.check(CR2_OIS4),
        }
    }
}

/// Idle the selected compare output low.  Plain timers are left untouched.
pub fn set_oc_idle_state_unset(timer: &mut Timer, oc_id: OutputCompareChannel)
    ensures
        old(timer).spec_is_advanced() && oc_id is OChannel1 ==> final(timer).regs@ == (RegistersView {
            cr2: old(timer).regs@.cr2 & !CR2_OIS1,
            ..old(timer).regs@
        }),
        old(timer).spec_is_advanced() && oc_id is OChannel1N ==> final(timer).regs@ == (RegistersView {
            cr2: old(timer).regs@.cr2 & !CR2_OIS1N,
            ..old(timer).regs@
        }),
        old(timer).spec_is_advanced() && oc_id is OChannel2 ==> final(timer).regs@ == (RegistersView {
            cr2: old(timer).regs@.cr2 & !CR2_OIS2,
            ..old(timer).regs@
        }),
        old(timer).spec_is_advanced() && oc_id is OChannel2N ==> final(timer).regs@ == (RegistersView {
            cr2: old(timer).regs@.cr2 & !CR2_OIS2N,
            ..old(timer).regs@
        }),
        old(timer).spec_is_advanced() && oc_id is OChannel3 ==> final(timer).regs@ == (RegistersView {
            cr2: old(timer).regs@.cr2 & !CR2_OIS3,
            ..old(timer).regs@
        }),
        old(timer).spec_is_advanced() && oc_id is OChannel3N ==> final(timer).regs@ == (RegistersView {
            cr2: old(timer).regs@.cr2 & !CR2_OIS3N,
            ..old(timer).regs@
        }),
        old(timer).spec_is_advanced() && oc_id is OChannel4 ==> final(timer).regs@ == (RegistersView {
            cr2: old(timer).regs@.cr2 & !CR2_OIS4,
            ..old(timer).regs@
        }),
        !old(timer).spec_is_advanced() ==> final(timer).regs@ == old(timer).regs@,
        final(timer).addr == old(timer).addr,
{
    if timer.is_advanced() {
        match oc_id {
            OutputCompareChannel::OChannel1 => timer.regs.cr2.uncheck(CR2_OIS1),
            OutputCompareChannel::OChannel1N => timer.regs.cr2.uncheck(CR2_OIS1N),
            OutputCompareChannel::OChannel2 => timer.regs.cr2.uncheck(CR2_OIS2),
            OutputCompareChannel::OChannel2N => timer.regs.cr2.uncheck(CR2_OIS2N),
            OutputCompareChannel::OChannel3 => timer.regs.cr2.uncheck(CR2_OIS3),
            OutputCompareChannel::OChannel3N => timer.regs.cr2.uncheck(CR2_OIS3N),
            OutputCompareChannel::OChannel4 => timer.regs.cr2.uncheck(CR2_OIS4),
        }
    }
}

/// Write the channel's compare register.  Complementary channels take
/// no action.
pub fn set_oc_value(timer: &mut Timer, oc_id: OutputCompareChannel, value: u32)
    ensures
        oc_id is OChannel1 ==> final(timer).regs@ == (RegistersView {
            ccr1: value,
            ..old(timer).regs@
        }),
        oc_id is OChannel2 ==> final(timer).regs@ == (RegistersView {
            ccr2: value,
            ..old(timer).regs@
        }),
        oc_id is OChannel3 ==> final(timer).regs@ == (RegistersView {
            ccr3: value,
            ..old(timer).regs@
        }),
        oc_id is OChannel4 ==> final(timer).regs@ == (RegistersView {
            ccr4: value,
            ..old(timer).regs@
        }),
        oc_id !is OChannel1 && oc_id !is OChannel2 && oc_id !is OChannel3 && oc_id !is OChannel4 ==> final(timer).regs@ == old(timer).regs@,
        final(timer).addr == old(timer).addr,
{
    match oc_id {
        OutputCompareChannel::OChannel1 => timer.regs.ccr1.set(value),
        OutputCompareChannel::OChannel2 => timer.regs.ccr2.set(value),
        OutputCompareChannel::OChannel3 => timer.regs.ccr3.set(value),
        OutputCompareChannel::OChannel4 => timer.regs.ccr4.set(value),
        _ => {},
    }
}

/// Set the master output enable of the break and dead-time register.  Plain timers are left untouched.
pub fn enable_break_main_output(timer: &mut Timer)
    ensures
        old(timer).spec_is_advanced() ==> final(timer).regs@ == (RegistersView {
            bdtr: old(timer).regs@.bdtr | (BDTR_MOE),
            ..old(timer).regs@
        }),
        !old(timer).spec_is_advanced() ==> final(timer).regs@ == old(timer).regs@,
        final(timer).addr == old(timer).addr,
{
    if timer.is_advanced() {
        timer.regs.bdtr.check(BDTR_MOE);
    }
}

/// Clear the master output enable.  Plain timers are left untouched.
pub fn disable_break_main_output(timer: &mut Timer)
    ensures
        old(timer).spec_is_advanced() ==> final(timer).regs@ == (RegistersView {
            bdtr: old(timer).regs@.bdtr & !(BDTR_MOE),
            ..old(timer).regs@
        }),
        !old(timer).spec_is_advanced() ==> final(timer).regs@ == old(timer).regs@,
        final(timer).addr == old(timer).addr,
{
    if timer.is_advanced() {
        timer.regs.bdtr.uncheck(BDTR_MOE);
    }
}

/// Re-enable the outputs automatically after a break event.  Plain timers are left untouched.
pub fn enable_break_automatic_output(timer: &mut Timer)
    ensures
        old(timer).spec_is_advanced() ==> final(timer).regs@ == (RegistersView {
            bdtr: old(timer).regs@.bdtr | (BDTR_AOE),
            ..old(timer).regs@
        }),
        !old(timer).spec_is_advanced() ==> final(timer).regs@ == old(timer).regs@,
        final(timer).addr == old(timer).addr,
{
    if timer.is_advanced() {
        timer.regs.bdtr.check(BDTR_AOE);
    }
}

/// Leave the outputs disabled after a break event.  Plain timers are left untouched.
pub fn disable_break_automatic_output(timer: &mut Timer)
    ensures
        old(timer).spec_is_advanced() ==> final(timer).regs@ == (RegistersView {
            bdtr: old(timer).regs@.bdtr & !(BDTR_AOE),
            ..old(timer).regs@
        }),
        !old(timer).spec_is_advanced() ==> final(timer).regs@ == old(timer).regs@,
        final(timer).addr == old(timer).addr,
{
    if timer.is_advanced() {
        timer.regs.bdtr.uncheck(BDTR_AOE);
    }
}

/// Break on a high break input.  Plain timers are left untouched.
pub fn set_break_polarity_high(timer: &mut Timer)
    ensures
        old(timer).spec_is_advanced() ==> final(timer).regs@ == (RegistersView {
            bdtr: old(timer).regs@.bdtr | (BDTR_BKP),
            ..old(timer).regs@
        }),
        !old(timer).spec_is_advanced() ==> final(timer).regs@ == old(timer).regs@,
        final(timer).addr == old(timer).addr,
{
    if timer.is_advanced() {
        timer.regs.bdtr.check(BDTR_BKP);
    }
}

/// Break on a low break input.  Plain timers are left untouched.
pub fn set_break_polarity_low(timer: &mut Timer)
    ensures
        old(timer).spec_is_advanced() ==> final(timer).regs@ == (RegistersView {
            bdtr: old(timer).regs@.bdtr & !(BDTR_BKP),
            ..old(timer).regs@
        }),
        !old(timer).spec_is_advanced() ==> final(timer).regs@ == old(timer).regs@,
        final(timer).addr == old(timer).addr,
{
    if timer.is_advanced() {
        timer.regs.bdtr.uncheck(BDTR_BKP);
    }
}

/// Enable the break input.  Plain timers are left untouched.
pub fn enable_break(timer: &mut Timer)
    ensures
        old(timer).spec_is_advanced() ==> final(timer).regs@ == (RegistersView {
            bdtr: old(timer).regs@.bdtr | (BDTR_BKE),
            ..old(timer).regs@
        }),
        !old(timer).spec_is_advanced() ==> final(timer).regs@ == old(timer).regs@,
        final(timer).addr == old(timer).addr,
{
    if timer.is_advanced() {
        timer.regs.bdtr.check(BDTR_BKE);
    }
}

/// Disable the break input.  Plain timers are left untouched.
pub fn disable_break(timer: &mut Timer)
    ensures
        old(timer).spec_is_advanced() ==> final(timer).regs@ == (RegistersView {
            bdtr: old(timer).regs@.bdtr & !(BDTR_BKE),
            ..old(timer).regs@
        }),
        !old(timer).spec_is_advanced() ==> final(timer).regs@ == old(timer).regs@,
        final(timer).addr == old(timer).addr,
{
    if timer.is_advanced() {
        timer.regs.bdtr.uncheck(BDTR_BKE);
    }
}

/// In run mode, drive disabled outputs to their inactive level.  Plain timers are left untouched.
pub fn set_enabled_off_state_in_run_mode(timer: &mut Timer)
    ensures
        old(timer).spec_is_advanced() ==> final(timer).regs@ == (RegistersView {
            bdtr: old(timer).regs@.bdtr | (BDTR_OSSR),
            ..old(timer).regs@
        }),
        !old(timer).spec_is_advanced() ==> final(timer).regs@ == old(timer).regs@,
        final(timer).addr == old(timer).addr,
{
    if timer.is_advanced() {
        timer.regs.bdtr.check(BDTR_OSSR);
    }
}

/// In run mode, leave disabled outputs off.  Plain timers are left untouched.
pub fn set_disabled_off_state_in_run_mode(timer: &mut Timer)
    ensures
        old(timer).spec_is_advanced() ==> final(timer).regs@ == (RegistersView {
            bdtr: old(timer).regs@.bdtr & !(BDTR_OSSR),
            ..old(timer).regs@
        }),
        !old(timer).spec_is_advanced() ==> final(timer).regs@ == old(timer).regs@,
        final(timer).addr == old(timer).addr,
{
    if timer.is_advanced() {
        timer.regs.bdtr.uncheck(BDTR_OSSR);
    }
}

/// In idle mode, drive disabled outputs to their inactive level.  Plain timers are left untouched.
pub fn set_enabled_off_state_in_idle_mode(timer: &mut Timer)
    ensures
        old(timer).spec_is_advanced() ==> final(timer).regs@ == (RegistersView {
            bdtr: old(timer).regs@.bdtr | (BDTR_OSSI),
            ..old(timer).regs@
        }),
        !old(timer).spec_is_advanced() ==> final(timer).regs@ == old(timer).regs@,
        final(timer).addr == old(timer).addr,
{
    if timer.is_advanced() {
        timer.regs.bdtr.check(BDTR_OSSI);
    }
}

/// In idle mode, leave disabled outputs off.  Plain timers are left untouched.
pub fn set_disabled_off_state_in_idle_mode(timer: &mut Timer)
    ensures
        old(timer).spec_is_advanced() ==> final(timer).regs@ == (RegistersView {
            bdtr: old(timer).regs@.bdtr & !(BDTR_OSSI),
            ..old(timer).regs@
        }),
        !old(timer).spec_is_advanced() ==> final(timer).regs@ == old(timer).regs@,
        final(timer).addr == old(timer).addr,
{
    if timer.is_advanced() {
        timer.regs.bdtr.uncheck(BDTR_OSSI);
    }
}

/// Or the lock bits into the break and dead-time register.  Plain timers are left untouched.
pub fn set_break_lock(timer: &mut Timer, lock: u32)
    ensures
        old(timer).spec_is_advanced() ==> final(timer).regs@ == (RegistersView {
            bdtr: old(timer).regs@.bdtr | (lock),
            ..old(timer).regs@
        }),
        !old(timer).spec_is_advanced() ==> final(timer).regs@ == old(timer).regs@,
        final(timer).addr == old(timer).addr,
{
    if timer.is_advanced() {
        timer.regs.bdtr.check(lock);
    }
}

/// Or the dead-time value into the break and dead-time register.  Plain timers are left untouched.
pub fn set_deadtime(timer: &mut Timer, deadtime: u32)
    ensures
        old(timer).spec_is_advanced() ==> final(timer).regs@ == (RegistersView {
            bdtr: old(timer).regs@.bdtr | (deadtime),
            ..old(timer).regs@
        }),
        !old(timer).spec_is_advanced() ==> final(timer).regs@ == old(timer).regs@,
        final(timer).addr == old(timer).addr,
{
    if timer.is_advanced() {
        timer.regs.bdtr.check(deadtime);
    }
}

/// Force-generate the events of `event` through the event-generation
/// register.
pub fn generate_event(timer: &mut Timer, event: u32)
    ensures
        final(timer).regs@ == (RegistersView {
            egr: old(timer).regs@.egr | event,
            ..old(timer).regs@
        }),
        final(timer).addr == old(timer).addr,
{
    timer.regs.egr.check(event);
}

/// Read the counter.
pub fn get_counter(timer: &Timer) -> (r: u32)
    ensures
        r == timer.regs@.cnt,
{
    timer.regs.cnt.get()
}

/// Write the counter.
pub fn set_counter(timer: &mut Timer, count: u32)
    ensures
        final(timer).regs@ == (RegistersView {
            cnt: count,
            ..old(timer).regs@
        }),
        final(timer).addr == old(timer).addr,
{
    timer.regs.cnt.set(count);
}

/// Select the input filter of a capture channel.
pub fn ic_set_filter(timer: &mut Timer, ic: InputCaptureChannel, flt: InputCaptureFilter)
    ensures
        ic is Channel1 ==> final(timer).regs@ == (RegistersView {
            ccmr1: (old(timer).regs@.ccmr1 & !CCMR1_IC1F_MASK) | ((flt.spec_code() << 4) & CCMR1_IC1F_MASK),
            ..old(timer).regs@
        }),
        ic is Channel2 ==> final(timer).regs@ == (RegistersView {
            ccmr1: (old(timer).regs@.ccmr1 & !CCMR1_IC2F_MASK) | ((flt.spec_code() << 12) & CCMR1_IC2F_MASK),
            ..old(timer).regs@
        }),
        ic is Channel3 ==> final(timer).regs@ == (RegistersView {
            ccmr2: (old(timer).regs@.ccmr2 & !CCMR2_IC3F_MASK) | ((flt.spec_code() << 4) & CCMR2_IC3F_MASK),
            ..old(timer).regs@
        }),
        ic is Channel4 ==> final(timer).regs@ == (RegistersView {
            ccmr2: (old(timer).regs@.ccmr2 & !CCMR2_IC4F_MASK) | ((flt.spec_code() << 12) & CCMR2_IC4F_MASK),
            ..old(timer).regs@
        }),
        final(timer).addr == old(timer).addr,
{
    match ic {
        InputCaptureChannel::Channel1 => timer.regs.ccmr1.mask_set(CCMR1_IC1F_MASK, 4, flt.code()),
        InputCaptureChannel::Channel2 => timer.regs.ccmr1.mask_set(CCMR1_IC2F_MASK, 12, flt.code()),
        InputCaptureChannel::Channel3 => timer.regs.ccmr2.mask_set(CCMR2_IC3F_MASK, 4, flt.code()),
        InputCaptureChannel::Channel4 => timer.regs.ccmr2.mask_set(CCMR2_IC4F_MASK, 12, flt.code()),
    }
}

/// Select how many events pass between captures.
pub fn ic_set_prescaler(timer: &mut Timer, ic: InputCaptureChannel, psc: InputCapturePrescaler)
    ensures
        ic is Channel1 ==> final(timer).regs@ == (RegistersView {
            ccmr1: (old(timer).regs@.ccmr1 & !CCMR1_IC1PSC_MASK) | ((psc.spec_code() << 2) & CCMR1_IC1PSC_MASK),
            ..old(timer).regs@
        }),
        ic is Channel2 ==> final(timer).regs@ == (RegistersView {
            ccmr1: (old(timer).regs@.ccmr1 & !CCMR1_IC2PSC_MASK) | ((psc.spec_code() << 10) & CCMR1_IC2PSC_MASK),
            ..old(timer).regs@
        }),
        ic is Channel3 ==> final(timer).regs@ == (RegistersView {
            ccmr2: (old(timer).regs@.ccmr2 & !CCMR2_IC3PSC_MASK) | ((psc.spec_code() << 2) & CCMR2_IC3PSC_MASK),
            ..old(timer).regs@
        }),
        ic is Channel4 ==> final(timer).regs@ == (RegistersView {
            ccmr2: (old(timer).regs@.ccmr2 & !CCMR2_IC4PSC_MASK) | ((psc.spec_code() << 10) & CCMR2_IC4PSC_MASK),
            ..old(timer).regs@
        }),
        final(timer).addr == old(timer).addr,
{
    match ic {
        InputCaptureChannel::Channel1 => timer.regs.ccmr1.mask_set(CCMR1_IC1PSC_MASK, 2, psc.code()),
        InputCaptureChannel::Channel2 => timer.regs.ccmr1.mask_set(CCMR1_IC2PSC_MASK, 10, psc.code()),
        InputCaptureChannel::Channel3 => timer.regs.ccmr2.mask_set(CCMR2_IC3PSC_MASK, 2, psc.code()),
        InputCaptureChannel::Channel4 => timer.regs.ccmr2.mask_set(CCMR2_IC4PSC_MASK, 10, psc.code()),
    }
}

/// The selection bits `ic_set_input` writes: the low two bits of the
/// source, flipped for the channel pairs whose inputs are crossed.
pub open spec fn spec_ic_input_bits(ic: InputCaptureChannel, ics: InputCaptureSource) -> u32 {
    let input = ics.spec_code() & 3;
    if (ic is Channel2 || ic is Channel4) && (ics is InTI1 || ics is InTI2) {
        input ^ 3
    } else {
        input
    }
}

/// Define the channel as output or input and map its input.  The input
/// select bits are flipped for the second and fourth channels when
/// they map the first or second input.
pub fn ic_set_input(timer: &mut Timer, ic: InputCaptureChannel, ics: InputCaptureSource)
    ensures
        ic is Channel1 ==> final(timer).regs@ == (RegistersView {
            ccmr1: (old(timer).regs@.ccmr1 & !CCMR1_CC1S_MASK) | ((spec_ic_input_bits(ic, ics) << 0) & CCMR1_CC1S_MASK),
            ..old(timer).regs@
        }),
        ic is Channel2 ==> final(timer).regs@ == (RegistersView {
            ccmr1: (old(timer).regs@.ccmr1 & !CCMR1_CC2S_MASK) | ((spec_ic_input_bits(ic, ics) << 8) & CCMR1_CC2S_MASK),
            ..old(timer).regs@
        }),
        ic is Channel3 ==> final(timer).regs@ == (RegistersView {
            ccmr2: (old(timer).regs@.ccmr2 & !CCMR2_CC3S_MASK) | ((spec_ic_input_bits(ic, ics) << 0) & CCMR2_CC3S_MASK),
            ..old(timer).regs@
        }),
        ic is Channel4 ==> final(timer).regs@ == (RegistersView {
            ccmr2: (old(timer).regs@.ccmr2 & !CCMR2_CC4S_MASK) | ((spec_ic_input_bits(ic, ics) << 8) & CCMR2_CC4S_MASK),
            ..old(timer).regs@
        }),
        final(timer).addr == old(timer).addr,
{
    let mut input: u32 = ics.code() & 3;
    if (ic == InputCaptureChannel::Channel2 || ic == InputCaptureChannel::Channel4) && (ics
        == InputCaptureSource::InTI1 || ics == InputCaptureSource::InTI2) {
        /* Input select bits are flipped for these combinations. */
        input ^= 3;
    }
    match ic {
        InputCaptureChannel::Channel1 => timer.regs.ccmr1.mask_set(CCMR1_CC1S_MASK, 0, input),
        InputCaptureChannel::Channel2 => timer.regs.ccmr1.mask_set(CCMR1_CC2S_MASK, 8, input),
        InputCaptureChannel::Channel3 => timer.regs.ccmr2.mask_set(CCMR2_CC3S_MASK, 0, input),
        InputCaptureChannel::Channel4 => timer.regs.ccmr2.mask_set(CCMR2_CC4S_MASK, 8, input),
    }
}

/// Enable capture on the channel.
pub fn ic_enable(timer: &mut Timer, ic: InputCaptureChannel)
    ensures
        final(timer).regs@ == (RegistersView {
            ccer: old(timer).regs@.ccer | (0x1u32 << (ic.spec_code() * 4)),
            ..old(timer).regs@
        }),
        final(timer).addr == old(timer).addr,
{
    timer.regs.ccer.check(0x1u32 << (ic.code() * 4));
}

/// Disable capture on the channel.
pub fn ic_disable(timer: &mut Timer, ic: InputCaptureChannel)
    ensures
        final(timer).regs@ == (RegistersView {
            ccer: old(timer).regs@.ccer & !(0x1u32 << (ic.spec_code() * 4)),
            ..old(timer).regs@
        }),
        final(timer).addr == old(timer).addr,
{
    timer.regs.ccer.uncheck(0x1u32 << (ic.code() * 4));
}

/// Select the input filter of the external trigger.
pub fn slave_set_filter(timer: &mut Timer, flt: InputCaptureFilter)
    ensures
        final(timer).regs@ == (RegistersView {
            smcr: (old(timer).regs@.smcr & !SMCR_ETF_MASK) | (flt.spec_code() << 8),
            ..old(timer).regs@
        }),
        final(timer).addr == old(timer).addr,
{
    timer.regs.smcr.uncheck(SMCR_ETF_MASK);
    timer.regs.smcr.check(flt.code() << 8);
}

/// Select the external trigger's frequency division ratio.
pub fn slave_set_prescaler(timer: &mut Timer, psc: InputCapturePrescaler)
    ensures
        final(timer).regs@ == (RegistersView {
            smcr: (old(timer).regs@.smcr & !SMCR_ETPS_MASK) | (psc.spec_code() << 12),
            ..old(timer).regs@
        }),
        final(timer).addr == old(timer).addr,
{
    timer.regs.smcr.uncheck(SMCR_ETPS_MASK);
    timer.regs.smcr.check(psc.code() << 12);
}

/// Select which edge of the external trigger clocks the slave
/// controller.
pub fn slave_set_polarity(timer: &mut Timer, pol: ExternalTriggerPolarity)
    ensures
        pol is Rising ==> final(timer).regs@ == (RegistersView {
            smcr: old(timer).regs@.smcr & !SMCR_ETP,
            ..old(timer).regs@
        }),
        pol is Falling ==> final(timer).regs@ == (RegistersView {
            smcr: old(timer).regs@.smcr | SMCR_ETP,
            ..old(timer).regs@
        }),
        final(timer).addr == old(timer).addr,
{
    match pol {
        ExternalTriggerPolarity::Rising => timer.regs.smcr.uncheck(SMCR_ETP),
        ExternalTriggerPolarity::Falling => timer.regs.smcr.check(SMCR_ETP),
    }
}

/// Select the slave mode.
pub fn slave_set_mode(timer: &mut Timer, mode: u8)
    ensures
        final(timer).regs@ == (RegistersView {
            smcr: (old(timer).regs@.smcr & !SMCR_SMS_MASK) | (mode as u32),
            ..old(timer).regs@
        }),
        final(timer).addr == old(timer).addr,
{
    timer.regs.smcr.uncheck(SMCR_SMS_MASK);
    timer.regs.smcr.check(mode as u32);
}

/// Select the slave controller's trigger input.
pub fn slave_set_trigger(timer: &mut Timer, trigger: u8)
    ensures
        final(timer).regs@ == (RegistersView {
            smcr: (old(timer).regs@.smcr & !SMCR_TS_MASK) | (trigger as u32),
            ..old(timer).regs@
        }),
        final(timer).addr == old(timer).addr,
{
    timer.regs.smcr.uncheck(SMCR_TS_MASK);
    timer.regs.smcr.check(trigger as u32);
}

/// Remap the internal trigger input of the two timers that have an
/// option register; any other timer is left untouched.
pub fn set_option(timer: &mut Timer, option: u32)
    ensures
        old(timer).addr == TIM2_ADDR ==> final(timer).regs@ == (RegistersView {
            or: (old(timer).regs@.or & !OR_ITR1_RMP_MASK) | option,
            ..old(timer).regs@
        }),
        old(timer).addr == TIM5_ADDR ==> final(timer).regs@ == (RegistersView {
            or: (old(timer).regs@.or & !OR_ITR4_RMP_MASK) | option,
            ..old(timer).regs@
        }),
        old(timer).addr != TIM2_ADDR && old(timer).addr != TIM5_ADDR ==> final(timer).regs@ == old(timer).regs@,
        final(timer).addr == old(timer).addr,
{
    if timer.addr == TIM2_ADDR {
        timer.regs.or.uncheck(OR_ITR1_RMP_MASK);
        timer.regs.or.check(option);
    } else if timer.addr == TIM5_ADDR {
        timer.regs.or.uncheck(OR_ITR4_RMP_MASK);
        timer.regs.or.check(option);
    }
}

/// Select the capture edge of a channel: both polarity fields are
/// cleared, then the falling or both-edges pattern is set; a rising
/// selection leaves the cleared fields.
pub fn ic_set_polarity(timer: &mut Timer, ic: InputCaptureChannel, pol: InputCapturePolarity)
    ensures
        pol is Rising ==> final(timer).regs@ == (RegistersView {
            ccer: old(timer).regs@.ccer & !(0xau32 << (ic.spec_code() * 4)),
            ..old(timer).regs@
        }),
        pol is Falling ==> final(timer).regs@ == (RegistersView {
            ccer: (old(timer).regs@.ccer & !(0xau32 << (ic.spec_code() * 4))) | (0x2u32 << (ic.spec_code()
                * 4)),
            ..old(timer).regs@
        }),
        pol is Both ==> final(timer).regs@ == (RegistersView {
            ccer: (old(timer).regs@.ccer & !(0xau32 << (ic.spec_code() * 4))) | (0xau32 << (ic.spec_code()
                * 4)),
            ..old(timer).regs@
        }),
        final(timer).addr == old(timer).addr,
{
    /* Clear both polarity fields to zero.  For the both-edges trigger
       both fields are set. */
    timer.regs.ccer.uncheck(0xau32 << (ic.code() * 4));
    match pol {
        InputCapturePolarity::Falling => timer.regs.ccer.check(0x2u32 << (ic.code() * 4)),
        InputCapturePolarity::Both => timer.regs.ccer.check(0xau32 << (ic.code() * 4)),
        _ => {},
    }
}

} // verus!
