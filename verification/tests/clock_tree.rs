//! The clock-tree bring-up, end to end on the simulated device.

use stm32f4_hal::flash;
use stm32f4_hal::rcc;
use stm32f4_hal::rcc::{Clock, ClockAction, ClockError, ClockTree, CrystalClock, Osc};

#[test]
fn scenario_8mhz_crystal_to_48mhz() {
    let mut dev = ClockTree::new();
    let freqs = rcc::set_clock(&mut dev, CrystalClock::Clock8MHz, Clock::Clock48MHz);
    // pllm = 8, plln = 96, pllp = 2: input 1 MHz, VCO 96 MHz, SYSCLK 48 MHz.
    assert_eq!(freqs.ahb_frequency(), 48_000_000);
    // ppre1 divides by four, ppre2 by two.
    assert_eq!(freqs.apb1_frequency(), 12_000_000);
    assert_eq!(freqs.apb2_frequency(), 24_000_000);
    assert_eq!(freqs.ahb_ms_psc(), 48_000);
    assert_eq!(freqs.ahb_us_psc(), 48);
    assert_eq!(freqs.apb1_ms_psc(), 12_000);
    assert_eq!(freqs.apb1_us_psc(), 12);
    assert_eq!(freqs.apb2_ms_psc(), 24_000);
    assert_eq!(freqs.apb2_us_psc(), 24);
}

#[test]
fn scenario_25mhz_crystal_to_168mhz() {
    let mut dev = ClockTree::new();
    let freqs = rcc::set_clock(&mut dev, CrystalClock::Clock25MHz, Clock::Clock168MHz);
    // pllm = 25, plln = 336, pllp = 2: input 1 MHz, VCO 336 MHz, SYSCLK 168 MHz.
    assert_eq!(freqs.ahb_frequency(), 168_000_000);
    // Five flash wait-states, with both caches enabled.
    let acr = dev.flash.acr.get();
    assert_eq!(acr & flash::ACR_LATENCY_MASK, 5);
    assert_ne!(acr & flash::ACR_DCEN, 0);
    assert_ne!(acr & flash::ACR_ICEN, 0);
    // The PLL configuration register in one write: source = crystal,
    // m = 25, n = 336, p encoded as zero, q = 7, r clamped to 2.
    let expected = (1u32 << 22) | 25 | (336 << 6) | (7 << 24) | (2 << 28);
    assert_eq!(dev.rcc.pllcfgr.get(), expected);
}

#[test]
fn scenario_16mhz_crystal_to_84mhz() {
    let mut dev = ClockTree::new();
    let freqs = rcc::set_clock(&mut dev, CrystalClock::Clock16MHz, Clock::Clock84MHz);
    // pllm = 16, plln = 336, pllp = 4: input 1 MHz, VCO 336 MHz,
    // SYSCLK 84 MHz -- the divide-by-P matters on this tier.
    assert_eq!(freqs.ahb_frequency(), 84_000_000);
    // ppre1 divides by two, ppre2 not at all.
    assert_eq!(freqs.apb1_frequency(), 42_000_000);
    assert_eq!(freqs.apb2_frequency(), 84_000_000);
}

#[test]
fn prescaler_writes_touch_only_their_fields() {
    let mut regs = rcc::Registers::new();
    regs.cfgr.set(0x8000_0000);
    rcc::set_hpre(&mut regs, 0);
    assert_eq!(regs.cfgr.get(), 0x8000_0000);
    regs.cfgr.set(0x8000_0001);
    rcc::set_ppre1(&mut regs, 4);
    assert_eq!(regs.cfgr.get(), 0x8000_1001);
    regs.cfgr.set(0x1000);
    rcc::set_ppre2(&mut regs, 4);
    assert_eq!(regs.cfgr.get(), 0x9000);
}

#[test]
fn prescaler_fields_survive_reconfiguration() {
    // The APB1 divider written by the sequence is still in the
    // configuration register at the end, so the device state agrees
    // with the published registry.
    let mut dev = ClockTree::new();
    let _ = rcc::set_clock(&mut dev, CrystalClock::Clock8MHz, Clock::Clock48MHz);
    let scale = rcc::clock_scale_for(CrystalClock::Clock8MHz, Clock::Clock48MHz);
    let cfgr = dev.rcc.cfgr.get();
    assert_eq!((cfgr >> rcc::CFGR_HPRE_SHIFT) & rcc::CFGR_HPRE_MASK, scale.hpre);
    assert_eq!((cfgr >> rcc::CFGR_PPRE1_SHIFT) & rcc::CFGR_PPRE1_MASK, scale.ppre1);
    assert_eq!((cfgr >> rcc::CFGR_PPRE2_SHIFT) & rcc::CFGR_PPRE2_MASK, scale.ppre2);
}

#[test]
fn oscillators_after_reconfiguration() {
    let mut dev = ClockTree::new();
    let _ = rcc::set_clock(&mut dev, CrystalClock::Clock8MHz, Clock::Clock120MHz);
    let cr = dev.rcc.cr.get();
    // The crystal oscillator and the PLL are on and ready.
    assert_ne!(cr & rcc::CR_HSEON, 0);
    assert_ne!(cr & rcc::CR_HSERDY, 0);
    assert_ne!(cr & rcc::CR_PLLON, 0);
    assert_ne!(cr & rcc::CR_PLLRDY, 0);
    // The internal oscillator has been dropped.
    assert_eq!(cr & rcc::CR_HSION, 0);
    // The system clock selection and status both point at the PLL.
    let cfgr = dev.rcc.cfgr.get();
    assert_eq!(cfgr & rcc::CFGR_SW_MASK, rcc::CFGR_SW_PLL);
    assert_eq!((cfgr >> rcc::CFGR_SWS_SHIFT) & rcc::CFGR_SWS_MASK, rcc::CFGR_SWS_PLL);
}

#[test]
fn reconfiguration_is_idempotent() {
    let mut once = ClockTree::new();
    let f1 = rcc::set_clock(&mut once, CrystalClock::Clock16MHz, Clock::Clock84MHz);
    let mut twice = ClockTree::new();
    let _ = rcc::set_clock(&mut twice, CrystalClock::Clock16MHz, Clock::Clock84MHz);
    let f2 = rcc::set_clock(&mut twice, CrystalClock::Clock16MHz, Clock::Clock84MHz);
    assert_eq!(once, twice);
    assert_eq!(f1, f2);
}

#[test]
fn idempotence_from_arbitrary_initial_state() {
    let mut once = ClockTree::new();
    once.rcc.cr.set(0xDEAD_BEEF);
    once.rcc.cfgr.set(0x1234_5678);
    once.rcc.csr.set(0x0000_0001);
    once.pwr.cr.set(0xFFFF_FFFF);
    once.flash.acr.set(0x0000_0707);
    let mut twice = ClockTree::new();
    twice.rcc.cr.set(0xDEAD_BEEF);
    twice.rcc.cfgr.set(0x1234_5678);
    twice.rcc.csr.set(0x0000_0001);
    twice.pwr.cr.set(0xFFFF_FFFF);
    twice.flash.acr.set(0x0000_0707);
    let _ = rcc::set_clock(&mut once, CrystalClock::Clock12MHz, Clock::Clock168MHz);
    let _ = rcc::set_clock(&mut twice, CrystalClock::Clock12MHz, Clock::Clock168MHz);
    let _ = rcc::set_clock(&mut twice, CrystalClock::Clock12MHz, Clock::Clock168MHz);
    assert_eq!(once, twice);
}

#[test]
fn trace_orders_prescalers_before_pll_and_flash_before_switch() {
    for c in [
        CrystalClock::Clock8MHz,
        CrystalClock::Clock12MHz,
        CrystalClock::Clock16MHz,
        CrystalClock::Clock25MHz,
    ] {
        for t in [
            Clock::Clock48MHz,
            Clock::Clock84MHz,
            Clock::Clock120MHz,
            Clock::Clock168MHz,
        ] {
            let actions = rcc::configure_actions(c, t);
            assert_eq!(actions.len(), 16);
            let pos = |pred: &dyn Fn(&ClockAction) -> bool| {
                actions.iter().position(|a| pred(a)).unwrap()
            };
            let ahb = pos(&|a| matches!(a, ClockAction::SetAhbPrescaler(_)));
            let apb1 = pos(&|a| matches!(a, ClockAction::SetApb1Prescaler(_)));
            let apb2 = pos(&|a| matches!(a, ClockAction::SetApb2Prescaler(_)));
            let pll = pos(&|a| matches!(a, ClockAction::ConfigurePll { .. }));
            let ws = pos(&|a| matches!(a, ClockAction::SetFlashWaitStates(_)));
            let select_pll = pos(
                &|a| matches!(a, ClockAction::SelectSysclkSource(v) if *v == rcc::CFGR_SW_PLL),
            );
            assert!(ahb < pll);
            assert!(apb1 < pll);
            assert!(apb2 < pll);
            assert!(ws < select_pll);
        }
    }
}

#[test]
fn table_pll_input_and_vco_ranges() {
    // Every tier above the lowest keeps the PLL input at one megahertz
    // and the VCO between one hundred and four hundred and thirty-two
    // megahertz.
    let crystals = [
        (CrystalClock::Clock8MHz, 8_000_000u32),
        (CrystalClock::Clock12MHz, 12_000_000),
        (CrystalClock::Clock16MHz, 16_000_000),
        (CrystalClock::Clock25MHz, 25_000_000),
    ];
    for (c, hz) in crystals {
        for t in [Clock::Clock84MHz, Clock::Clock120MHz, Clock::Clock168MHz] {
            let s = rcc::clock_scale_for(c, t);
            let input = hz / s.pllm;
            assert!((1_000_000..=2_000_000).contains(&input));
            let vco = input as u64 * s.plln as u64;
            assert!((100_000_000..=432_000_000).contains(&vco));
        }
        // The lowest tier's VCO sits below the floor: the table keeps
        // it for parity with the hardware description.
        let low = rcc::clock_scale_for(c, Clock::Clock48MHz);
        assert_eq!((hz / low.pllm) as u64 * low.plln as u64, 96_000_000);
    }
}

#[test]
fn flash_latency_monotonic_above_lowest_tier() {
    for c in [
        CrystalClock::Clock8MHz,
        CrystalClock::Clock12MHz,
        CrystalClock::Clock16MHz,
        CrystalClock::Clock25MHz,
    ] {
        let l84 = rcc::clock_scale_for(c, Clock::Clock84MHz).flash_config;
        let l120 = rcc::clock_scale_for(c, Clock::Clock120MHz).flash_config;
        let l168 = rcc::clock_scale_for(c, Clock::Clock168MHz).flash_config;
        assert!(l84 <= l120);
        assert!(l120 <= l168);
        // The lowest tier over-provisions: three wait-states where the
        // next tier needs only two, the one dip in the table.
        let l48 = rcc::clock_scale_for(c, Clock::Clock48MHz).flash_config;
        assert_eq!(l48, 3);
        assert_eq!(l84, 2);
    }
}

#[test]
fn oscillator_wait_reports_timeout() {
    let regs = rcc::Registers::new();
    assert_eq!(
        rcc::wait_for_osc_ready_timeout(&regs, Osc::HSE, 5),
        Err(ClockError::OscillatorTimeout(Osc::HSE))
    );
    let mut on = rcc::Registers::new();
    rcc::osc_on(&mut on, Osc::HSE);
    // Enabled but not yet settled: still not ready.
    assert_eq!(
        rcc::wait_for_osc_ready_timeout(&on, Osc::HSE, 5),
        Err(ClockError::OscillatorTimeout(Osc::HSE))
    );
    let mut dev = ClockTree::new();
    rcc::osc_on(&mut dev.rcc, Osc::LSI);
    dev.settle();
    assert_eq!(rcc::wait_for_osc_ready_timeout(&dev.rcc, Osc::LSI, 5), Ok(()));
    // A zero budget never observes the flag.
    assert_eq!(
        rcc::wait_for_osc_ready_timeout(&dev.rcc, Osc::LSI, 0),
        Err(ClockError::OscillatorTimeout(Osc::LSI))
    );
}

#[test]
fn switch_wait_reports_timeout() {
    let regs = rcc::Registers::new();
    // A fresh image reports the internal oscillator as active source.
    assert_eq!(rcc::wait_for_sysclk_status_timeout(&regs, Osc::HSI, 3), Ok(()));
    assert_eq!(
        rcc::wait_for_sysclk_status_timeout(&regs, Osc::PLL, 3),
        Err(ClockError::ClockSwitchTimeout(Osc::PLL))
    );
    // Sources the switch cannot select succeed vacuously.
    assert_eq!(rcc::wait_for_sysclk_status_timeout(&regs, Osc::LSE, 0), Ok(()));
}

#[test]
fn frequencies_derive_prescalers() {
    let f = rcc::Frequencies::new(48_000_000, 12_000_000, 24_000_000);
    assert_eq!(f.ahb, 48_000_000);
    assert_eq!(f.ahb_mspsc, 48_000);
    assert_eq!(f.ahb_uspsc, 48);
    assert_eq!(f.apb1_mspsc, 12_000);
    assert_eq!(f.apb2_uspsc, 24);
    let mut g = rcc::Frequencies::default();
    assert_eq!(g.ahb_frequency(), 8_000_000);
    assert_eq!(g.ahb_us_psc(), 8);
    g.update(100_000, 50_000, 25_000);
    assert_eq!(g.ahb_ms_psc(), 100);
    assert_eq!(g.ahb_us_psc(), 0);
}

#[test]
fn peripheral_clock_gating() {
    let mut regs = rcc::Registers::new();
    rcc::enable(&mut regs, rcc::Peripheral::DMA1);
    assert_eq!(regs.ahb1enr.get(), 0x15);
    rcc::enable(&mut regs, rcc::Peripheral::SPI2);
    assert_eq!(regs.apb1enr.get(), 0x0E);
    rcc::disable(&mut regs, rcc::Peripheral::DMA1);
    assert_eq!(regs.ahb1enr.get(), 0);
    rcc::reset_hold(&mut regs, rcc::Peripheral::USART1);
    assert_eq!(regs.apb2rstr.get(), 0x04);
    rcc::reset_release(&mut regs, rcc::Peripheral::USART1);
    assert_eq!(regs.apb2rstr.get(), 0);
    regs.apb1rstr.set(0x100);
    rcc::reset_pulse(&mut regs, rcc::Peripheral::SPI2);
    // The pulse sets and clears the peripheral's bits, leaving others.
    assert_eq!(regs.apb1rstr.get(), 0x100);
}

#[test]
fn oscillator_controls() {
    let mut regs = rcc::Registers::new();
    rcc::osc_on(&mut regs, Osc::PLLI2S);
    assert_eq!(regs.cr.get(), rcc::CR_PLLI2SON);
    assert!(!rcc::is_osc_ready(&regs, Osc::PLLI2S));
    rcc::osc_on(&mut regs, Osc::LSE);
    assert_eq!(regs.bdcr.get(), rcc::BDCR_LSEON);
    rcc::osc_off(&mut regs, Osc::PLLI2S);
    assert_eq!(regs.cr.get(), 0);
    rcc::set_sysclk_source(&mut regs, rcc::CFGR_SW_HSE);
    assert_eq!(regs.cfgr.get() & rcc::CFGR_SW_MASK, rcc::CFGR_SW_HSE);
}
