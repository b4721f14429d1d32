use demo_core_nucleo::clock::{bring_up, ClockSequencer, ClockState};
use demo_core_nucleo::consts::{HCLK, SYS_TICK_SEC};
use demo_core_nucleo::ready::{flag_readiness, Readiness};
use demo_core_nucleo::reg::ClockHw;

fn full_order() -> Vec<ClockState> {
    vec![
        ClockState::Reset,
        ClockState::LseStarting,
        ClockState::LseReady,
        ClockState::PllConfiguring,
        ClockState::PllLocked,
        ClockState::FlashTuned,
        ClockState::ClockSwitched,
        ClockState::Ready,
    ]
}

#[test]
fn clock_consts_derive_80mhz() {
    assert_eq!(HCLK, 80_000_000);
    assert_eq!(SYS_TICK_SEC, 10_000_000);
}

#[test]
fn clock_bring_up_trace_is_the_defined_sequence() {
    let mut hw = ClockHw::at_reset(0, 0);
    let trace = bring_up(&mut hw);
    assert_eq!(trace, full_order());
}

#[test]
fn clock_bring_up_trace_with_slow_oscillators() {
    let mut hw = ClockHw::at_reset(5, 17);
    let trace = bring_up(&mut hw);
    assert_eq!(trace, full_order());
}

#[test]
fn clock_bring_up_programs_the_target_configuration() {
    let mut hw = ClockHw::at_reset(3, 4);
    bring_up(&mut hw);
    let r = hw.regs;
    assert!(r.rcc_apb1enr1.pwren);
    assert!(r.pwr_cr1.dbp);
    assert!(r.rcc_bdcr.lseon);
    assert!(!r.rcc_bdcr.lsebyp);
    assert_eq!(r.rcc_bdcr.rtcsel, 1);
    assert!(r.rcc_bdcr.lserdy);
    assert!(r.rcc_bdcr.lsecsson);
    assert!(r.rcc_cier.lsecssie);
    assert!(r.rcc_cr.msipllen);
    assert!(r.rcc_cr.msirgsel);
    assert_eq!(r.rcc_cr.msirange, 7);
    assert_eq!(r.rcc_pllcfgr.pllsrc, 1);
    assert!(r.rcc_pllcfgr.pllren);
    assert_eq!(r.rcc_pllcfgr.pllm, 0);
    assert_eq!(r.rcc_pllcfgr.plln, 20);
    assert_eq!(r.rcc_pllcfgr.pllr, 0);
    assert!(r.rcc_cier.pllrdyie);
    assert!(r.rcc_cr.pllon);
    assert!(r.rcc_cr.pllrdy);
    assert!(!r.rcc_cifr.pllrdyf);
    assert!(!r.rcc_cifr.lsecssf);
    assert!(r.flash_acr.prften);
    assert!(r.flash_acr.icen);
    assert!(r.flash_acr.dcen);
    assert_eq!(r.flash_acr.latency, 2);
    assert_eq!(r.rcc_cfgr.sw, 3);
}

#[test]
fn clock_sequencer_waits_while_lse_settles() {
    let mut hw = ClockHw::at_reset(2, 0);
    let mut s = ClockSequencer::new();
    assert_eq!(s.state, ClockState::Reset);
    s.resume(&mut hw);
    assert_eq!(s.state, ClockState::LseStarting);
    s.resume(&mut hw);
    assert_eq!(s.state, ClockState::LseStarting);
    s.resume(&mut hw);
    assert_eq!(s.state, ClockState::LseStarting);
    s.resume(&mut hw);
    assert_eq!(s.state, ClockState::LseReady);
    assert!(hw.regs.rcc_bdcr.lserdy);
    assert!(hw.regs.rcc_bdcr.lsecsson);
    assert!(hw.regs.rcc_cier.lsecssie);
}

#[test]
fn clock_sequencer_acknowledges_the_pll_ready_flag() {
    let mut hw = ClockHw::at_reset(0, 1);
    let mut s = ClockSequencer::new();
    for _ in 0..4 {
        s.resume(&mut hw);
    }
    assert_eq!(s.state, ClockState::PllConfiguring);
    assert!(!hw.regs.rcc_cr.pllrdy);
    s.resume(&mut hw);
    assert_eq!(s.state, ClockState::PllLocked);
    assert!(hw.regs.rcc_cr.pllrdy);
    assert!(!hw.regs.rcc_cifr.pllrdyf);
}

#[test]
fn clock_sequencer_tunes_flash_before_switching() {
    let mut hw = ClockHw::at_reset(0, 0);
    let mut s = ClockSequencer::new();
    while s.state != ClockState::FlashTuned {
        s.resume(&mut hw);
    }
    assert_eq!(hw.regs.flash_acr.latency, 2);
    assert_eq!(hw.regs.rcc_cfgr.sw, 0);
    s.resume(&mut hw);
    assert_eq!(s.state, ClockState::ClockSwitched);
    assert_eq!(hw.regs.rcc_cfgr.sw, 3);
}

#[test]
fn clock_readiness_of_a_flag() {
    assert_eq!(flag_readiness(true), Readiness::Ready);
    assert_eq!(flag_readiness(false), Readiness::Pending);
}
