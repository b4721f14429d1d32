//! Plain-value model of the memory-mapped register fields that the firmware
//! reads and writes, together with the physical settling behaviour of the two
//! oscillators it waits on.
//!
//! Each struct mirrors one hardware register, holding only the fields this
//! firmware touches.  The register layout is an external contract: an
//! embedding copies these values to and from the real registers.

use vstd::prelude::*;

verus! {

/// Power control register: backup-domain write access.
#[derive(Clone, Copy, PartialEq, Eq, Structural, Debug)]
pub struct PwrCr1 {
    /// Disable backup domain write protection.
    pub dbp: bool,
}

/// Peripheral clock enable register for the power controller.
#[derive(Clone, Copy, PartialEq, Eq, Structural, Debug)]
pub struct RccApb1Enr1 {
    /// Power interface clock enable.
    pub pwren: bool,
}

/// Backup domain control register: the low-speed external oscillator.
#[derive(Clone, Copy, PartialEq, Eq, Structural, Debug)]
pub struct RccBdcr {
    /// LSE oscillator enable.
    pub lseon: bool,
    /// LSE oscillator bypass.
    pub lsebyp: bool,
    /// RTC clock source selection.
    pub rtcsel: u8,
    /// LSE oscillator ready (read-only status).
    pub lserdy: bool,
    /// CSS on LSE enable.
    pub lsecsson: bool,
}

/// Clock control register: MSI calibration and the main PLL.
#[derive(Clone, Copy, PartialEq, Eq, Structural, Debug)]
pub struct RccCr {
    /// MSI clock PLL-mode (auto-calibration against LSE) enable.
    pub msipllen: bool,
    /// MSI range selected by `msirange` rather than by standby state.
    pub msirgsel: bool,
    /// MSI clock range.
    pub msirange: u8,
    /// Main PLL enable.
    pub pllon: bool,
    /// Main PLL locked (read-only status).
    pub pllrdy: bool,
}

/// PLL configuration register.
#[derive(Clone, Copy, PartialEq, Eq, Structural, Debug)]
pub struct RccPllcfgr {
    /// PLL input clock source.
    pub pllsrc: u8,
    /// PLL system clock output enable.
    pub pllren: bool,
    /// Division factor for the PLL input clock, encoded as factor - 1.
    pub pllm: u32,
    /// Multiplication factor for the VCO.
    pub plln: u32,
    /// Division factor for the system clock output, encoded as factor/2 - 1.
    pub pllr: u32,
}

/// Clock interrupt enable register.
#[derive(Clone, Copy, PartialEq, Eq, Structural, Debug)]
pub struct RccCier {
    /// CSS-on-LSE interrupt enable.
    pub lsecssie: bool,
    /// PLL-ready interrupt enable.
    pub pllrdyie: bool,
}

/// Clock interrupt flag register (cleared through the clock interrupt clear
/// register, modelled here as direct clears of these flags).
#[derive(Clone, Copy, PartialEq, Eq, Structural, Debug)]
pub struct RccCifr {
    /// CSS-on-LSE failure detected.
    pub lsecssf: bool,
    /// PLL-ready flag.
    pub pllrdyf: bool,
}

/// Flash access control register.
#[derive(Clone, Copy, PartialEq, Eq, Structural, Debug)]
pub struct FlashAcr {
    /// Prefetch enable.
    pub prften: bool,
    /// Instruction cache enable.
    pub icen: bool,
    /// Data cache enable.
    pub dcen: bool,
    /// Number of flash wait states.
    pub latency: u8,
}

/// Clock configuration register.
#[derive(Clone, Copy, PartialEq, Eq, Structural, Debug)]
pub struct RccCfgr {
    /// System clock source selection.
    pub sw: u8,
}

/// SysTick timer registers.
#[derive(Clone, Copy, PartialEq, Eq, Structural, Debug)]
pub struct Stk {
    /// Reload value: clocks between firings.
    pub reload: u32,
    /// Counter enable.
    pub enable: bool,
    /// Interrupt on zero enable.
    pub tickint: bool,
}

/// Pending-edge flag of external interrupt line 13 (the push button).
#[derive(Clone, Copy, PartialEq, Eq, Structural, Debug)]
pub struct ExtiPr1 {
    /// Line 13 edge pending (cleared by the handler).
    pub pr13: bool,
}

/// The register fields driven by the clock bring-up and the fault monitor.
#[derive(Clone, Copy, PartialEq, Eq, Structural, Debug)]
pub struct ClockRegs {
    pub pwr_cr1: PwrCr1,
    pub rcc_apb1enr1: RccApb1Enr1,
    pub rcc_bdcr: RccBdcr,
    pub rcc_cr: RccCr,
    pub rcc_pllcfgr: RccPllcfgr,
    pub rcc_cier: RccCier,
    pub rcc_cifr: RccCifr,
    pub flash_acr: FlashAcr,
    pub rcc_cfgr: RccCfgr,
}

impl ClockRegs {
    /// The register values at hardware reset: everything this firmware
    /// touches starts disabled or zero.
    pub open spec fn reset_spec() -> ClockRegs {
        ClockRegs {
            pwr_cr1: PwrCr1 { dbp: false },
            rcc_apb1enr1: RccApb1Enr1 { pwren: false },
            rcc_bdcr: RccBdcr {
                lseon: false,
                lsebyp: false,
                rtcsel: 0,
                lserdy: false,
                lsecsson: false,
            },
            rcc_cr: RccCr {
                msipllen: false,
                msirgsel: false,
                msirange: 0,
                pllon: false,
                pllrdy: false,
            },
            rcc_pllcfgr: RccPllcfgr { pllsrc: 0, pllren: false, pllm: 0, plln: 0, pllr: 0 },
            rcc_cier: RccCier { lsecssie: false, pllrdyie: false },
            rcc_cifr: RccCifr { lsecssf: false, pllrdyf: false },
            flash_acr: FlashAcr { prften: false, icen: false, dcen: false, latency: 0 },
            rcc_cfgr: RccCfgr { sw: 0 },
        }
    }
}

/// The clock register file together with the settling model of the two
/// oscillators: each `*_settle` field counts how many more polls the
/// corresponding ready flag takes to assert once the oscillator is enabled.
/// The counts are arbitrary; the waits themselves are unbounded by design.
#[derive(Clone, Copy, PartialEq, Eq, Structural, Debug)]
pub struct ClockHw {
    pub regs: ClockRegs,
    /// Polls left before the LSE ready flag asserts.
    pub lse_settle: u32,
    /// Polls left before the PLL lock flag asserts.
    pub pll_settle: u32,
}

/// What one poll of the LSE ready flag does to the hardware: nothing once
/// ready or while the oscillator is off; otherwise the oscillator either
/// finishes settling or comes one poll closer to it.
pub open spec fn lse_poll_spec(pre: ClockHw) -> ClockHw {
    if pre.regs.rcc_bdcr.lserdy || !pre.regs.rcc_bdcr.lseon {
        pre
    } else if pre.lse_settle == 0 {
        ClockHw {
            regs: ClockRegs {
                rcc_bdcr: RccBdcr { lserdy: true, ..pre.regs.rcc_bdcr },
                ..pre.regs
            },
            ..pre
        }
    } else {
        ClockHw { lse_settle: (pre.lse_settle - 1) as u32, ..pre }
    }
}

/// What one poll of the PLL-ready interrupt flag does to the hardware: once
/// the PLL locks, the lock status latches and the interrupt flag is raised,
/// staying raised until explicitly cleared.
pub open spec fn pll_poll_spec(pre: ClockHw) -> ClockHw {
    if pre.regs.rcc_cifr.pllrdyf || !pre.regs.rcc_cr.pllon || pre.regs.rcc_cr.pllrdy {
        pre
    } else if pre.pll_settle == 0 {
        ClockHw {
            regs: ClockRegs {
                rcc_cr: RccCr { pllrdy: true, ..pre.regs.rcc_cr },
                rcc_cifr: RccCifr { pllrdyf: true, ..pre.regs.rcc_cifr },
                ..pre.regs
            },
            ..pre
        }
    } else {
        ClockHw { pll_settle: (pre.pll_settle - 1) as u32, ..pre }
    }
}

impl ClockHw {
    /// A machine fresh out of reset whose oscillators will settle after the
    /// given numbers of polls.
    pub fn at_reset(lse_settle: u32, pll_settle: u32) -> (hw: ClockHw)
        ensures
            hw == (ClockHw { regs: ClockRegs::reset_spec(), lse_settle, pll_settle }),
    {
        ClockHw {
            regs: ClockRegs {
                pwr_cr1: PwrCr1 { dbp: false },
                rcc_apb1enr1: RccApb1Enr1 { pwren: false },
                rcc_bdcr: RccBdcr {
                    lseon: false,
                    lsebyp: false,
                    rtcsel: 0,
                    lserdy: false,
                    lsecsson: false,
                },
                rcc_cr: RccCr {
                    msipllen: false,
                    msirgsel: false,
                    msirange: 0,
                    pllon: false,
                    pllrdy: false,
                },
                rcc_pllcfgr: RccPllcfgr { pllsrc: 0, pllren: false, pllm: 0, plln: 0, pllr: 0 },
                rcc_cier: RccCier { lsecssie: false, pllrdyie: false },
                rcc_cifr: RccCifr { lsecssf: false, pllrdyf: false },
                flash_acr: FlashAcr { prften: false, icen: false, dcen: false, latency: 0 },
                rcc_cfgr: RccCfgr { sw: 0 },
            },
            lse_settle,
            pll_settle,
        }
    }

    /// One read of the LSE ready flag, advancing the settling model.
    pub fn poll_lse_ready(&mut self) -> (r: bool)
        ensures
            *final(self) == lse_poll_spec(*old(self)),
            r == final(self).regs.rcc_bdcr.lserdy,
    {
        if self.regs.rcc_bdcr.lserdy {
            true
        } else if !self.regs.rcc_bdcr.lseon {
            false
        } else if self.lse_settle == 0 {
            self.regs.rcc_bdcr.lserdy = true;
            true
        } else {
            self.lse_settle = self.lse_settle - 1;
            false
        }
    }

    /// One read of the PLL-ready interrupt flag, advancing the settling
    /// model.
    pub fn poll_pll_ready(&mut self) -> (r: bool)
        ensures
            *final(self) == pll_poll_spec(*old(self)),
            r == final(self).regs.rcc_cifr.pllrdyf,
    {
        if self.regs.rcc_cifr.pllrdyf {
            true
        } else if !self.regs.rcc_cr.pllon || self.regs.rcc_cr.pllrdy {
            false
        } else if self.pll_settle == 0 {
            self.regs.rcc_cr.pllrdy = true;
            self.regs.rcc_cifr.pllrdyf = true;
            true
        } else {
            self.pll_settle = self.pll_settle - 1;
            false
        }
    }

    /// Acknowledge the PLL-ready interrupt (the write to the clear bit of the
    /// clock interrupt clear register).
    pub fn clear_pll_ready_flag(&mut self)
        ensures
            *final(self) == (ClockHw {
                regs: ClockRegs {
                    rcc_cifr: RccCifr { pllrdyf: false, ..old(self).regs.rcc_cifr },
                    ..old(self).regs
                },
                ..*old(self)
            }),
    {
        self.regs.rcc_cifr.pllrdyf = false;
    }

    /// Acknowledge the CSS-on-LSE failure interrupt (the write to the clear
    /// bit of the clock interrupt clear register).
    pub fn clear_lse_css_flag(&mut self)
        ensures
            *final(self) == (ClockHw {
                regs: ClockRegs {
                    rcc_cifr: RccCifr { lsecssf: false, ..old(self).regs.rcc_cifr },
                    ..old(self).regs
                },
                ..*old(self)
            }),
    {
        self.regs.rcc_cifr.lsecssf = false;
    }

    /// A loss of the external oscillator, as the clock security system
    /// reports it: the failure flag rises and the oscillator is no longer
    /// ready.
    pub fn inject_lse_failure(&mut self)
        ensures
            *final(self) == (ClockHw {
                regs: ClockRegs {
                    rcc_bdcr: RccBdcr { lserdy: false, ..old(self).regs.rcc_bdcr },
                    rcc_cifr: RccCifr { lsecssf: true, ..old(self).regs.rcc_cifr },
                    ..old(self).regs
                },
                ..*old(self)
            }),
    {
        self.regs.rcc_bdcr.lserdy = false;
        self.regs.rcc_cifr.lsecssf = true;
    }
}

} // verus!
