//! The clock bring-up sequencer: drives the clock tree from its reset state
//! to the fully calibrated maximum-frequency state.
//!
//! The sequencer is a resumable state machine.  Each call of
//! [`ClockSequencer::resume`] performs at most one step: it either programs
//! the registers of the next bring-up stage, or re-checks a hardware ready
//! flag and stays where it is.  [`bring_up`] spins the sequencer to
//! completion and returns the exact sequence of states passed through.
//!
//! Ordering matters twice: the clock-security monitor is armed immediately
//! after the oscillator is confirmed ready and before any further
//! reconfiguration, and the flash timing is widened before the system clock
//! switches to the faster source.

use vstd::prelude::*;

verus! {

use crate::consts::{PLLCLK_FACTOR, PLL_INPUT_FACTOR, PLL_OUTPUT_FACTOR};
use crate::ready::{flag_readiness, Readiness};
use crate::reg::{
    lse_poll_spec, pll_poll_spec, ClockHw, ClockRegs, FlashAcr, PwrCr1, RccApb1Enr1, RccBdcr,
    RccCfgr, RccCier, RccCifr, RccCr, RccPllcfgr,
};

/// The stages of clock bring-up, in the order they are passed through.
/// Flash timing is widened before the clock switch: fetching at the new
/// frequency with the old wait states would be undefined.
#[derive(Clone, Copy, PartialEq, Eq, Structural, Debug)]
pub enum ClockState {
    /// Nothing configured; the machine runs on the uncalibrated MSI.
    Reset,
    /// Backup-domain access enabled and the LSE oscillator started.
    LseStarting,
    /// LSE confirmed ready and the fault monitor armed.
    LseReady,
    /// MSI auto-calibration on, PLL factors programmed, PLL starting.
    PllConfiguring,
    /// PLL lock observed and its interrupt flag acknowledged.
    PllLocked,
    /// Flash prefetch, caches and wait states set for the new frequency.
    FlashTuned,
    /// System clock switched to the PLL output.
    ClockSwitched,
    /// Bring-up complete.
    Ready,
}

/// Position of a state in the bring-up order.
pub open spec fn rank(s: ClockState) -> int {
    match s {
        ClockState::Reset => 0,
        ClockState::LseStarting => 1,
        ClockState::LseReady => 2,
        ClockState::PllConfiguring => 3,
        ClockState::PllLocked => 4,
        ClockState::FlashTuned => 5,
        ClockState::ClockSwitched => 6,
        ClockState::Ready => 7,
    }
}

/// The state that follows `s` in the bring-up order.
pub open spec fn next_state(s: ClockState) -> ClockState {
    match s {
        ClockState::Reset => ClockState::LseStarting,
        ClockState::LseStarting => ClockState::LseReady,
        ClockState::LseReady => ClockState::PllConfiguring,
        ClockState::PllConfiguring => ClockState::PllLocked,
        ClockState::PllLocked => ClockState::FlashTuned,
        ClockState::FlashTuned => ClockState::ClockSwitched,
        ClockState::ClockSwitched => ClockState::Ready,
        ClockState::Ready => ClockState::Ready,
    }
}

/// The full bring-up order, from reset to ready.
pub open spec fn bring_up_order() -> Seq<ClockState> {
    seq![
        ClockState::Reset,
        ClockState::LseStarting,
        ClockState::LseReady,
        ClockState::PllConfiguring,
        ClockState::PllLocked,
        ClockState::FlashTuned,
        ClockState::ClockSwitched,
        ClockState::Ready,
    ]
}

/// The PLL division and multiplication factors, as programmed: source is the
/// MSI, the input and output division factors are register-encoded with an
/// offset of one, and the system clock output is enabled.
pub open spec fn pll_target() -> RccPllcfgr {
    RccPllcfgr {
        pllsrc: 1,
        pllren: true,
        pllm: (PLL_INPUT_FACTOR - 1) as u32,
        plln: PLL_OUTPUT_FACTOR,
        pllr: ((PLLCLK_FACTOR >> 1) - 1) as u32,
    }
}

/// Flash settings for the target frequency: prefetch and both caches on,
/// two wait states.
pub open spec fn acr_target() -> FlashAcr {
    FlashAcr { prften: true, icen: true, dcen: true, latency: 2 }
}

/// The complete register file after a successful bring-up.
pub open spec fn configured_spec() -> ClockRegs {
    ClockRegs {
        pwr_cr1: PwrCr1 { dbp: true },
        rcc_apb1enr1: RccApb1Enr1 { pwren: true },
        rcc_bdcr: RccBdcr { lseon: true, lsebyp: false, rtcsel: 1, lserdy: true, lsecsson: true },
        rcc_cr: RccCr { msipllen: true, msirgsel: true, msirange: 7, pllon: true, pllrdy: true },
        rcc_pllcfgr: pll_target(),
        rcc_cier: RccCier { lsecssie: true, pllrdyie: true },
        rcc_cifr: RccCifr { lsecssf: false, pllrdyf: false },
        flash_acr: acr_target(),
        rcc_cfgr: RccCfgr { sw: 3 },
    }
}

/// Enables write access to the backup domain, required before the LSE
/// control bits can be touched.
pub fn backup_domain_init(hw: &mut ClockHw)
    ensures
        *final(hw) == (ClockHw {
            regs: ClockRegs {
                rcc_apb1enr1: (RccApb1Enr1 { pwren: true }),
                pwr_cr1: (PwrCr1 { dbp: true }),
                ..old(hw).regs
            },
            ..*old(hw)
        }),
{
    hw.regs.rcc_apb1enr1.pwren = true;
    hw.regs.pwr_cr1.dbp = true;
}

/// Starts the on-board LSE crystal (no bypass) and routes it to the RTC
/// domain.  The oscillator settles on its own time; readiness is polled
/// separately.
pub fn lse_start(hw: &mut ClockHw)
    requires
        old(hw).regs.rcc_apb1enr1.pwren,
        old(hw).regs.pwr_cr1.dbp,
    ensures
        *final(hw) == (ClockHw {
            regs: ClockRegs {
                rcc_bdcr: (RccBdcr {
                    lseon: true,
                    lsebyp: false,
                    rtcsel: 1,
                    ..old(hw).regs.rcc_bdcr
                }),
                ..old(hw).regs
            },
            ..*old(hw)
        }),
{
    hw.regs.rcc_bdcr.lseon = true;
    hw.regs.rcc_bdcr.lsebyp = false;
    hw.regs.rcc_bdcr.rtcsel = 1;
}

/// Arms the clock-security fault monitor on the LSE: enables its interrupt
/// and its hardware detection circuit.  Only armed once the oscillator is
/// confirmed ready, and before any further clock reconfiguration.
pub fn css_arm(hw: &mut ClockHw)
    requires
        old(hw).regs.rcc_bdcr.lserdy,
    ensures
        *final(hw) == (ClockHw {
            regs: ClockRegs {
                rcc_cier: (RccCier { lsecssie: true, ..old(hw).regs.rcc_cier }),
                rcc_bdcr: (RccBdcr { lsecsson: true, ..old(hw).regs.rcc_bdcr }),
                ..old(hw).regs
            },
            ..*old(hw)
        }),
{
    hw.regs.rcc_cier.lsecssie = true;
    hw.regs.rcc_bdcr.lsecsson = true;
}

/// Puts the MSI into hardware auto-calibration referenced to the LSE, at its
/// 8 MHz range.  The reference oscillator must already be ready.
pub fn msi_calibrate(hw: &mut ClockHw)
    requires
        old(hw).regs.rcc_bdcr.lserdy,
    ensures
        *final(hw) == (ClockHw {
            regs: ClockRegs {
                rcc_cr: (RccCr {
                    msipllen: true,
                    msirgsel: true,
                    msirange: 7,
                    ..old(hw).regs.rcc_cr
                }),
                ..old(hw).regs
            },
            ..*old(hw)
        }),
{
    hw.regs.rcc_cr.msipllen = true;
    hw.regs.rcc_cr.msirgsel = true;
    hw.regs.rcc_cr.msirange = 7;
}

/// Programs the PLL factors from the configuration constants, enables the
/// PLL-ready interrupt and turns the PLL on.  Lock is awaited separately.
pub fn pll_start(hw: &mut ClockHw)
    ensures
        *final(hw) == (ClockHw {
            regs: ClockRegs {
                rcc_pllcfgr: pll_target(),
                rcc_cier: (RccCier { pllrdyie: true, ..old(hw).regs.rcc_cier }),
                rcc_cr: (RccCr { pllon: true, ..old(hw).regs.rcc_cr }),
                ..old(hw).regs
            },
            ..*old(hw)
        }),
{
    proof {
        assert(PLLCLK_FACTOR >> 1 == 1) by (bit_vector);
    }
    hw.regs.rcc_pllcfgr.pllsrc = 1;
    hw.regs.rcc_pllcfgr.pllren = true;
    hw.regs.rcc_pllcfgr.pllr = (PLLCLK_FACTOR >> 1) - 1;
    hw.regs.rcc_pllcfgr.pllm = PLL_INPUT_FACTOR - 1;
    hw.regs.rcc_pllcfgr.plln = PLL_OUTPUT_FACTOR;
    hw.regs.rcc_cier.pllrdyie = true;
    hw.regs.rcc_cr.pllon = true;
}

/// `h` with the PLL-ready interrupt flag acknowledged.
pub open spec fn with_pll_flag_cleared(h: ClockHw) -> ClockHw {
    ClockHw {
        regs: ClockRegs {
            rcc_cifr: RccCifr { pllrdyf: false, ..h.regs.rcc_cifr },
            ..h.regs
        },
        ..h
    }
}

/// One suspending-form check for PLL lock: reads the PLL-ready interrupt
/// flag once; when the flag is up, acknowledges it and reports readiness.
pub fn pll_wait_step(hw: &mut ClockHw) -> (r: Readiness)
    ensures
        ({
            let mid = pll_poll_spec(*old(hw));
            if mid.regs.rcc_cifr.pllrdyf {
                r is Ready && *final(hw) == with_pll_flag_cleared(mid)
            } else {
                r is Pending && *final(hw) == mid
            }
        }),
{
    let flagged = hw.poll_pll_ready();
    match flag_readiness(flagged) {
        Readiness::Ready => {
            hw.clear_pll_ready_flag();
            Readiness::Ready
        },
        Readiness::Pending => Readiness::Pending,
    }
}

/// Reconfigures flash for the target frequency: prefetch, instruction
/// cache, data cache, then the wider wait-state latency, in that order.
pub fn flash_tune(hw: &mut ClockHw)
    ensures
        *final(hw) == (ClockHw {
            regs: ClockRegs { flash_acr: acr_target(), ..old(hw).regs },
            ..*old(hw)
        }),
{
    hw.regs.flash_acr.prften = true;
    hw.regs.flash_acr.icen = true;
    hw.regs.flash_acr.dcen = true;
    hw.regs.flash_acr.latency = 2;
}

/// Switches the system clock source to the PLL output.  The PLL must be
/// locked and the flash timing must already be widened: instruction fetch at
/// the new frequency with the reset-state wait states is undefined.
pub fn sysclk_switch(hw: &mut ClockHw)
    requires
        old(hw).regs.rcc_cr.pllrdy,
        old(hw).regs.flash_acr == acr_target(),
    ensures
        *final(hw) == (ClockHw {
            regs: ClockRegs { rcc_cfgr: (RccCfgr { sw: 3 }), ..old(hw).regs },
            ..*old(hw)
        }),
{
    hw.regs.rcc_cfgr.sw = 3;
}

/// The bring-up task: a resumable computation advancing one stage per
/// resumption, suspended on a hardware flag while an oscillator settles.
pub struct ClockSequencer {
    /// The stage reached so far.
    pub state: ClockState,
}

impl ClockSequencer {
    /// What the hardware looks like at each stage: every stage guarantees
    /// the effects of all the stages before it.
    pub open spec fn wf(self, hw: ClockHw) -> bool {
        &&& rank(self.state) >= 1 ==> {
            &&& hw.regs.rcc_apb1enr1.pwren
            &&& hw.regs.pwr_cr1.dbp
            &&& hw.regs.rcc_bdcr.lseon
            &&& !hw.regs.rcc_bdcr.lsebyp
            &&& hw.regs.rcc_bdcr.rtcsel == 1
        }
        &&& rank(self.state) >= 2 ==> {
            &&& hw.regs.rcc_bdcr.lserdy
            &&& hw.regs.rcc_cier.lsecssie
            &&& hw.regs.rcc_bdcr.lsecsson
        }
        &&& rank(self.state) >= 3 ==> {
            &&& hw.regs.rcc_cr.msipllen
            &&& hw.regs.rcc_cr.msirgsel
            &&& hw.regs.rcc_cr.msirange == 7
            &&& hw.regs.rcc_pllcfgr == pll_target()
            &&& hw.regs.rcc_cier.pllrdyie
            &&& hw.regs.rcc_cr.pllon
        }
        &&& rank(self.state) < 3 ==> {
            &&& !hw.regs.rcc_cr.pllon
            &&& !hw.regs.rcc_cr.pllrdy
            &&& !hw.regs.rcc_cifr.pllrdyf
        }
        &&& self.state is PllConfiguring ==> (hw.regs.rcc_cr.pllrdy <==> hw.regs.rcc_cifr.pllrdyf)
        &&& rank(self.state) >= 4 ==> {
            &&& hw.regs.rcc_cr.pllrdy
            &&& !hw.regs.rcc_cifr.pllrdyf
        }
        &&& rank(self.state) >= 5 ==> hw.regs.flash_acr == acr_target()
        &&& rank(self.state) >= 6 ==> hw.regs.rcc_cfgr.sw == 3
    }

    /// A sequencer that has not started yet.
    pub fn new() -> (s: ClockSequencer)
        ensures
            s.state is Reset,
    {
        ClockSequencer { state: ClockState::Reset }
    }

    /// One resumption of the bring-up task.  A stage whose work is plain
    /// register programming completes in one call; a stage waiting on an
    /// oscillator re-checks its flag and either advances or stays put, each
    /// stay bringing the oscillator one poll closer to ready.
    pub fn resume(&mut self, hw: &mut ClockHw) -> (r: Readiness)
        requires
            old(self).wf(*old(hw)),
        ensures
            final(self).wf(*final(hw)),
            r is Ready <==> final(self).state is Ready,
            final(self).state == old(self).state || final(self).state == next_state(
                old(self).state,
            ),
            !(old(self).state is LseStarting || old(self).state is PllConfiguring
                || old(self).state is Ready) ==> final(self).state == next_state(old(self).state),
            old(self).state is Ready ==> *final(hw) == *old(hw),
            final(hw).regs.rcc_cifr.lsecssf == old(hw).regs.rcc_cifr.lsecssf,
            (old(self).state is LseStarting && final(self).state is LseStarting) ==> {
                &&& final(hw).lse_settle < old(hw).lse_settle
                &&& final(hw).pll_settle == old(hw).pll_settle
            },
            (old(self).state is PllConfiguring && final(self).state is PllConfiguring) ==> {
                &&& final(hw).pll_settle < old(hw).pll_settle
                &&& final(hw).lse_settle == old(hw).lse_settle
            },
    {
        match self.state {
            ClockState::Reset => {
                backup_domain_init(hw);
                lse_start(hw);
                self.state = ClockState::LseStarting;
                Readiness::Pending
            },
            ClockState::LseStarting => {
                let lse_ready = hw.poll_lse_ready();
                match flag_readiness(lse_ready) {
                    Readiness::Ready => {
                        css_arm(hw);
                        self.state = ClockState::LseReady;
                    },
                    Readiness::Pending => {},
                }
                Readiness::Pending
            },
            ClockState::LseReady => {
                msi_calibrate(hw);
                pll_start(hw);
                self.state = ClockState::PllConfiguring;
                Readiness::Pending
            },
            ClockState::PllConfiguring => {
                let locked = pll_wait_step(hw);
                match locked {
                    Readiness::Ready => {
                        self.state = ClockState::PllLocked;
                    },
                    Readiness::Pending => {},
                }
                Readiness::Pending
            },
            ClockState::PllLocked => {
                flash_tune(hw);
                self.state = ClockState::FlashTuned;
                Readiness::Pending
            },
            ClockState::FlashTuned => {
                sysclk_switch(hw);
                self.state = ClockState::ClockSwitched;
                Readiness::Pending
            },
            ClockState::ClockSwitched => {
                self.state = ClockState::Ready;
                Readiness::Ready
            },
            ClockState::Ready => Readiness::Ready,
        }
    }
}

/// Runs the whole bring-up from hardware reset, blocking until done, and
/// returns the sequence of states passed through.  The trace is exactly the
/// defined bring-up order: no stage skipped, none repeated.  Completion
/// implies the PLL lock was observed (and acknowledged), and the returned
/// hardware holds the complete target configuration.
pub fn bring_up(hw: &mut ClockHw) -> (trace: Vec<ClockState>)
    requires
        old(hw).regs == ClockRegs::reset_spec(),
    ensures
        trace@ == bring_up_order(),
        final(hw).regs == configured_spec(),
{
    let mut sequencer = ClockSequencer::new();
    let mut trace: Vec<ClockState> = Vec::new();
    trace.push(ClockState::Reset);
    let mut done = false;
    while !done
        invariant
            sequencer.wf(*hw),
            !hw.regs.rcc_cifr.lsecssf,
            trace@ == bring_up_order().take(rank(sequencer.state) + 1),
            done <==> sequencer.state is Ready,
        decreases 7 - rank(sequencer.state), hw.lse_settle, hw.pll_settle,
    {
        let prev = sequencer.state;
        let step = sequencer.resume(hw);
        if sequencer.state != prev {
            proof {
                assert(bring_up_order().take(rank(prev) + 1).push(
                    bring_up_order()[rank(prev) + 1],
                ) =~= bring_up_order().take(rank(prev) + 2));
            }
            trace.push(sequencer.state);
        }
        done = matches!(step, Readiness::Ready);
    }
    proof {
        assert(trace@ =~= bring_up_order());
    }
    trace
}

} // verus!
