//! Interrupt-controller driver: enabling, disabling and acknowledging
//! interrupt signals.

use vstd::prelude::*;

verus! {

/// Every interrupt signal the controller routes, in vector order.
#[derive(Clone, Copy, PartialEq, Eq, Structural, Debug)]
#[allow(non_camel_case_types)]
pub enum NvicIdx {
    WWDG,
    PVD,
    TAMP_STAMP,
    RTC_WKUP,
    FLASH,
    RCC,
    EXTI0,
    EXTI1,
    EXTI2,
    EXTI3,
    EXTI4,
    DMA1_STREAM0,
    DMA1_STREAM1,
    DMA1_STREAM2,
    DMA1_STREAM3,
    DMA1_STREAM4,
    DMA1_STREAM5,
    DMA1_STREAM6,
    ADC,
    CAN1_TX,
    CAN1_RX0,
    CAN1_RX1,
    CAN1_SCE,
    EXTI9_5,
    TIM1_BRK_TIM9,
    TIM1_UP_TIM10,
    TIM1_TRG_COM_TIM11,
    TIM1_CC,
    TIM2,
    TIM3,
    TIM4,
    I2C1_EV,
    I2C1_ER,
    I2C2_EV,
    I2C2_ER,
    SPI1,
    SPI2,
    USART1,
    USART2,
    USART3,
    EXTI15_10,
    RTC_ALARM,
    OTG_FS_WKUP,
    TIM8_BRK_TIM12,
    TIM8_UP_TIM13,
    TIM8_TRG_COM_TIM14,
    TIM8_CC,
    DMA1_STREAM7,
    FSMC,
    SDIO,
    TIM5,
    SPI3,
    UART4,
    UART5,
    TIM6_DAC,
    TIM7,
    DMA2_STREAM0,
    DMA2_STREAM1,
    DMA2_STREAM2,
    DMA2_STREAM3,
    DMA2_STREAM4,
    ETH,
    ETH_WKUP,
    CAN2_TX,
    CAN2_RX0,
    CAN2_RX1,
    CAN2_SCE,
    OTG_FS,
    DMA2_STREAM5,
    DMA2_STREAM6,
    DMA2_STREAM7,
    USART6,
    I2C3_EV,
    I2C3_ER,
    OTG_HS_EP1_OUT,
    OTG_HS_EP1_IN,
    OTG_HS_WKUP,
    OTG_HS,
    DCMI,
    CRYP,
    HASH_RNG,
    FPU,
    _reserved0,
    _reserved1,
    _reserved2,
    _reserved3,
    _reserved4,
    _reserved5,
    LCD_TFT,
    LCD_TFT_1,
}

impl NvicIdx {
    /// The position of the signal in the interrupt vector.
    pub open spec fn spec_index(self) -> usize {
        match self {
            NvicIdx::WWDG => 0,
            NvicIdx::PVD => 1,
            NvicIdx::TAMP_STAMP => 2,
            NvicIdx::RTC_WKUP => 3,
            NvicIdx::FLASH => 4,
            NvicIdx::RCC => 5,
            NvicIdx::EXTI0 => 6,
            NvicIdx::EXTI1 => 7,
            NvicIdx::EXTI2 => 8,
            NvicIdx::EXTI3 => 9,
            NvicIdx::EXTI4 => 10,
            NvicIdx::DMA1_STREAM0 => 11,
            NvicIdx::DMA1_STREAM1 => 12,
            NvicIdx::DMA1_STREAM2 => 13,
            NvicIdx::DMA1_STREAM3 => 14,
            NvicIdx::DMA1_STREAM4 => 15,
            NvicIdx::DMA1_STREAM5 => 16,
            NvicIdx::DMA1_STREAM6 => 17,
            NvicIdx::ADC => 18,
            NvicIdx::CAN1_TX => 19,
            NvicIdx::CAN1_RX0 => 20,
            NvicIdx::CAN1_RX1 => 21,
            NvicIdx::CAN1_SCE => 22,
            NvicIdx::EXTI9_5 => 23,
            NvicIdx::TIM1_BRK_TIM9 => 24,
            NvicIdx::TIM1_UP_TIM10 => 25,
            NvicIdx::TIM1_TRG_COM_TIM11 => 26,
            NvicIdx::TIM1_CC => 27,
            NvicIdx::TIM2 => 28,
            NvicIdx::TIM3 => 29,
            NvicIdx::TIM4 => 30,
            NvicIdx::I2C1_EV => 31,
            NvicIdx::I2C1_ER => 32,
            NvicIdx::I2C2_EV => 33,
            NvicIdx::I2C2_ER => 34,
            NvicIdx::SPI1 => 35,
            NvicIdx::SPI2 => 36,
            NvicIdx::USART1 => 37,
            NvicIdx::USART2 => 38,
            NvicIdx::USART3 => 39,
            NvicIdx::EXTI15_10 => 40,
            NvicIdx::RTC_ALARM => 41,
            NvicIdx::OTG_FS_WKUP => 42,
            NvicIdx::TIM8_BRK_TIM12 => 43,
            NvicIdx::TIM8_UP_TIM13 => 44,
            NvicIdx::TIM8_TRG_COM_TIM14 => 45,
            NvicIdx::TIM8_CC => 46,
            NvicIdx::DMA1_STREAM7 => 47,
            NvicIdx::FSMC => 48,
            NvicIdx::SDIO => 49,
            NvicIdx::TIM5 => 50,
            NvicIdx::SPI3 => 51,
            NvicIdx::UART4 => 52,
            NvicIdx::UART5 => 53,
            NvicIdx::TIM6_DAC => 54,
            NvicIdx::TIM7 => 55,
            NvicIdx::DMA2_STREAM0 => 56,
            NvicIdx::DMA2_STREAM1 => 57,
            NvicIdx::DMA2_STREAM2 => 58,
            NvicIdx::DMA2_STREAM3 => 59,
            NvicIdx::DMA2_STREAM4 => 60,
            NvicIdx::ETH => 61,
            NvicIdx::ETH_WKUP => 62,
            NvicIdx::CAN2_TX => 63,
            NvicIdx::CAN2_RX0 => 64,
            NvicIdx::CAN2_RX1 => 65,
            NvicIdx::CAN2_SCE => 66,
            NvicIdx::OTG_FS => 67,
            NvicIdx::DMA2_STREAM5 => 68,
            NvicIdx::DMA2_STREAM6 => 69,
            NvicIdx::DMA2_STREAM7 => 70,
            NvicIdx::USART6 => 71,
            NvicIdx::I2C3_EV => 72,
            NvicIdx::I2C3_ER => 73,
            NvicIdx::OTG_HS_EP1_OUT => 74,
            NvicIdx::OTG_HS_EP1_IN => 75,
            NvicIdx::OTG_HS_WKUP => 76,
            NvicIdx::OTG_HS => 77,
            NvicIdx::DCMI => 78,
            NvicIdx::CRYP => 79,
            NvicIdx::HASH_RNG => 80,
            NvicIdx::FPU => 81,
            NvicIdx::_reserved0 => 82,
            NvicIdx::_reserved1 => 83,
            NvicIdx::_reserved2 => 84,
            NvicIdx::_reserved3 => 85,
            NvicIdx::_reserved4 => 86,
            NvicIdx::_reserved5 => 87,
            NvicIdx::LCD_TFT => 88,
            NvicIdx::LCD_TFT_1 => 89,
        }
    }

    pub fn index(self) -> (r: usize)
        ensures
            r == self.spec_index(),
            r < 90,
    {
        match self {
            NvicIdx::WWDG => 0,
            NvicIdx::PVD => 1,
            NvicIdx::TAMP_STAMP => 2,
            NvicIdx::RTC_WKUP => 3,
            NvicIdx::FLASH => 4,
            NvicIdx::RCC => 5,
            NvicIdx::EXTI0 => 6,
            NvicIdx::EXTI1 => 7,
            NvicIdx::EXTI2 => 8,
            NvicIdx::EXTI3 => 9,
            NvicIdx::EXTI4 => 10,
            NvicIdx::DMA1_STREAM0 => 11,
            NvicIdx::DMA1_STREAM1 => 12,
            NvicIdx::DMA1_STREAM2 => 13,
            NvicIdx::DMA1_STREAM3 => 14,
            NvicIdx::DMA1_STREAM4 => 15,
            NvicIdx::DMA1_STREAM5 => 16,
            NvicIdx::DMA1_STREAM6 => 17,
            NvicIdx::ADC => 18,
            NvicIdx::CAN1_TX => 19,
            NvicIdx::CAN1_RX0 => 20,
            NvicIdx::CAN1_RX1 => 21,
            NvicIdx::CAN1_SCE => 22,
            NvicIdx::EXTI9_5 => 23,
            NvicIdx::TIM1_BRK_TIM9 => 24,
            NvicIdx::TIM1_UP_TIM10 => 25,
            NvicIdx::TIM1_TRG_COM_TIM11 => 26,
            NvicIdx::TIM1_CC => 27,
            NvicIdx::TIM2 => 28,
            NvicIdx::TIM3 => 29,
            NvicIdx::TIM4 => 30,
            NvicIdx::I2C1_EV => 31,
            NvicIdx::I2C1_ER => 32,
            NvicIdx::I2C2_EV => 33,
            NvicIdx::I2C2_ER => 34,
            NvicIdx::SPI1 => 35,
            NvicIdx::SPI2 => 36,
            NvicIdx::USART1 => 37,
            NvicIdx::USART2 => 38,
            NvicIdx::USART3 => 39,
            NvicIdx::EXTI15_10 => 40,
            NvicIdx::RTC_ALARM => 41,
            NvicIdx::OTG_FS_WKUP => 42,
            NvicIdx::TIM8_BRK_TIM12 => 43,
            NvicIdx::TIM8_UP_TIM13 => 44,
            NvicIdx::TIM8_TRG_COM_TIM14 => 45,
            NvicIdx::TIM8_CC => 46,
            NvicIdx::DMA1_STREAM7 => 47,
            NvicIdx::FSMC => 48,
            NvicIdx::SDIO => 49,
            NvicIdx::TIM5 => 50,
            NvicIdx::SPI3 => 51,
            NvicIdx::UART4 => 52,
            NvicIdx::UART5 => 53,
            NvicIdx::TIM6_DAC => 54,
            NvicIdx::TIM7 => 55,
            NvicIdx::DMA2_STREAM0 => 56,
            NvicIdx::DMA2_STREAM1 => 57,
            NvicIdx::DMA2_STREAM2 => 58,
            NvicIdx::DMA2_STREAM3 => 59,
            NvicIdx::DMA2_STREAM4 => 60,
            NvicIdx::ETH => 61,
            NvicIdx::ETH_WKUP => 62,
            NvicIdx::CAN2_TX => 63,
            NvicIdx::CAN2_RX0 => 64,
            NvicIdx::CAN2_RX1 => 65,
            NvicIdx::CAN2_SCE => 66,
            NvicIdx::OTG_FS => 67,
            NvicIdx::DMA2_STREAM5 => 68,
            NvicIdx::DMA2_STREAM6 => 69,
            NvicIdx::DMA2_STREAM7 => 70,
            NvicIdx::USART6 => 71,
            NvicIdx::I2C3_EV => 72,
            NvicIdx::I2C3_ER => 73,
            NvicIdx::OTG_HS_EP1_OUT => 74,
            NvicIdx::OTG_HS_EP1_IN => 75,
            NvicIdx::OTG_HS_WKUP => 76,
            NvicIdx::OTG_HS => 77,
            NvicIdx::DCMI => 78,
            NvicIdx::CRYP => 79,
            NvicIdx::HASH_RNG => 80,
            NvicIdx::FPU => 81,
            NvicIdx::_reserved0 => 82,
            NvicIdx::_reserved1 => 83,
            NvicIdx::_reserved2 => 84,
            NvicIdx::_reserved3 => 85,
            NvicIdx::_reserved4 => 86,
            NvicIdx::_reserved5 => 87,
            NvicIdx::LCD_TFT => 88,
            NvicIdx::LCD_TFT_1 => 89,
        }
    }
}

impl Default for NvicIdx {
    /// The first signal of the vector.
    fn default() -> (r: NvicIdx)
        ensures
            r == NvicIdx::WWDG,
    {
        NvicIdx::WWDG
    }
}

/// Image of the interrupt controller's register banks: set-enable,
/// clear-enable, set-pending, clear-pending and active registers of 32
/// signals each, and one priority byte per signal.
pub struct Nvic {
    pub iser: Vec<u32>,
    pub icer: Vec<u32>,
    pub ispr: Vec<u32>,
    pub icpr: Vec<u32>,
    pub iabr: Vec<u32>,
    pub ipr: Vec<u8>,
}

impl Nvic {
    /// The banks have their hardware sizes: eight word registers each
    /// and two hundred and forty priority bytes.
    pub open spec fn wf(&self) -> bool {
        self.iser@.len() == 8 && self.icer@.len() == 8 && self.ispr@.len() == 8 && self.icpr@.len()
            == 8 && self.iabr@.len() == 8 && self.ipr@.len() == 240
    }

    /// A controller image with every register at zero.
    pub fn new() -> (r: Nvic)
        ensures
            r.wf(),
            r.iser@ =~= Seq::new(8nat, |i: int| 0u32),
            r.icer@ =~= Seq::new(8nat, |i: int| 0u32),
            r.ispr@ =~= Seq::new(8nat, |i: int| 0u32),
            r.icpr@ =~= Seq::new(8nat, |i: int| 0u32),
            r.iabr@ =~= Seq::new(8nat, |i: int| 0u32),
            r.ipr@ =~= Seq::new(240nat, |i: int| 0u8),
    {
        let mut iser: Vec<u32> = Vec::new();
        let mut icer: Vec<u32> = Vec::new();
        let mut ispr: Vec<u32> = Vec::new();
        let mut icpr: Vec<u32> = Vec::new();
        let mut iabr: Vec<u32> = Vec::new();
        let mut ipr: Vec<u8> = Vec::new();
        let mut i: usize = 0;
        while i < 8
            invariant
                i <= 8,
                iser@ =~= Seq::new(i as nat, |k: int| 0u32),
                icer@ =~= Seq::new(i as nat, |k: int| 0u32),
                ispr@ =~= Seq::new(i as nat, |k: int| 0u32),
                icpr@ =~= Seq::new(i as nat, |k: int| 0u32),
                iabr@ =~= Seq::new(i as nat, |k: int| 0u32),
            decreases 8 - i,
        {
            iser.push(0);
            icer.push(0);
            ispr.push(0);
            icpr.push(0);
            iabr.push(0);
            i = i + 1;
            proof {
                assert(iser@ =~= Seq::new(i as nat, |k: int| 0u32));
                assert(icer@ =~= Seq::new(i as nat, |k: int| 0u32));
                assert(ispr@ =~= Seq::new(i as nat, |k: int| 0u32));
                assert(icpr@ =~= Seq::new(i as nat, |k: int| 0u32));
                assert(iabr@ =~= Seq::new(i as nat, |k: int| 0u32));
            }
        }
        let mut j: usize = 0;
        while j < 240
            invariant
                j <= 240,
                ipr@ =~= Seq::new(j as nat, |k: int| 0u8),
            decreases 240 - j,
        {
            ipr.push(0);
            j = j + 1;
            proof {
                assert(ipr@ =~= Seq::new(j as nat, |k: int| 0u8));
            }
        }
        Nvic { iser, icer, ispr, icpr, iabr, ipr }
    }
}

/// Enable the signal: its priority byte is written to zero (the highest
/// priority) and the single bit for the signal is written into its
/// set-enable register.
pub fn enable(nvic: &mut Nvic, signal: NvicIdx)
    requires
        old(nvic).wf(),
    ensures
        final(nvic).wf(),
        final(nvic).ipr@ == old(nvic).ipr@.update(signal.spec_index() as int, 0u8),
        final(nvic).iser@ == old(nvic).iser@.update(
            (signal.spec_index() / 32) as int,
            1u32 << ((signal.spec_index() & 0b11111) as u32),
        ),
        final(nvic).icer@ == old(nvic).icer@,
        final(nvic).ispr@ == old(nvic).ispr@,
        final(nvic).icpr@ == old(nvic).icpr@,
        final(nvic).iabr@ == old(nvic).iabr@,
{
    let interrupt = signal.index();
    proof {
        assert((interrupt & 0b11111) < 32usize) by (bit_vector);
    }
    nvic.ipr[interrupt] = 0u8;
    let bit: u32 = 1u32 << ((interrupt & 0b11111) as u32);
    nvic.iser[interrupt / 32] = bit;
}

/// Disable the signal: the single bit for it is written into its
/// clear-enable register.
pub fn disable(nvic: &mut Nvic, signal: NvicIdx)
    requires
        old(nvic).wf(),
    ensures
        final(nvic).wf(),
        final(nvic).icer@ == old(nvic).icer@.update(
            (signal.spec_index() / 32) as int,
            1u32 << ((signal.spec_index() & 0b11111) as u32),
        ),
        final(nvic).iser@ == old(nvic).iser@,
        final(nvic).ispr@ == old(nvic).ispr@,
        final(nvic).icpr@ == old(nvic).icpr@,
        final(nvic).iabr@ == old(nvic).iabr@,
        final(nvic).ipr@ == old(nvic).ipr@,
{
    let interrupt = signal.index();
    proof {
        assert((interrupt & 0b11111) < 32usize) by (bit_vector);
    }
    let bit: u32 = 1u32 << ((interrupt & 0b11111) as u32);
    nvic.icer[interrupt / 32] = bit;
}

/// Drop a pending occurrence of the signal: the single bit for it is
/// written into its clear-pending register.
pub fn clear_pending(nvic: &mut Nvic, signal: NvicIdx)
    requires
        old(nvic).wf(),
    ensures
        final(nvic).wf(),
        final(nvic).icpr@ == old(nvic).icpr@.update(
            (signal.spec_index() / 32) as int,
            1u32 << ((signal.spec_index() & 0b11111) as u32),
        ),
        final(nvic).iser@ == old(nvic).iser@,
        final(nvic).icer@ == old(nvic).icer@,
        final(nvic).ispr@ == old(nvic).ispr@,
        final(nvic).iabr@ == old(nvic).iabr@,
        final(nvic).ipr@ == old(nvic).ipr@,
{
    let interrupt = signal.index();
    proof {
        assert((interrupt & 0b11111) < 32usize) by (bit_vector);
    }
    let bit: u32 = 1u32 << ((interrupt & 0b11111) as u32);
    nvic.icpr[interrupt / 32] = bit;
}

} // verus!
