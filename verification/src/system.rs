//! The whole firmware after bring-up: one process-wide context owning every
//! piece of mutable state, with one method per interrupt handler.
//!
//! There is no thread scheduler.  The single execution context is
//! multiplexed by hardware interrupt priority: each handler here runs to
//! completion, resuming the cooperative tasks bound to its interrupt.  The
//! only state crossing task boundaries is the speed flag (the button task
//! writes it, the LED task reads it) and the debounce guard counter; each
//! task's other state is owned by exactly one handler.

use vstd::prelude::*;

verus! {

use crate::button::{press_accepted, press_spec, tick_spec, Debounce, DEBOUNCE_INTERVAL};
use crate::clock::{bring_up, bring_up_order, configured_spec, ClockState};
use crate::consts::{SYS_TICK_SEC, TICK_RATE};
use crate::fault::{nmi_handler, FaultKind};
use crate::gpio::{gpio_init, gpio_init_spec, GpioRegs};
use crate::led::{advance_spec, drive_spec, LedPins, LedTask};
use crate::reg::{ClockHw, ClockRegs, ExtiPr1, Stk};

/// The process-wide context: hardware model plus every task's state.
pub struct System {
    /// The clock register file and oscillator model.
    pub hw: ClockHw,
    /// The pin configuration registers.
    pub gpio: GpioRegs,
    /// The tick source.
    pub stk: Stk,
    /// The pending-edge flag of the button interrupt line.
    pub exti_pr1: ExtiPr1,
    /// Where the clock bring-up got to; `Ready` for the system's lifetime.
    pub clock: ClockState,
    /// The LED pattern task.
    pub led: LedTask,
    /// The three LED output pins.
    pub pins: LedPins,
    /// The shared speed flag: written by the button task, read by the LED
    /// task, the only state crossing task boundaries.
    pub fast: bool,
    /// The button debounce task.
    pub debounce: Debounce,
    /// The fault latch: set at most once, after which the system is halted.
    pub fault: Option<FaultKind>,
}

impl System {
    /// What every handler preserves: bring-up stays complete and the guard
    /// counter never exceeds its interval.
    pub open spec fn wf(self) -> bool {
        &&& self.clock is Ready
        &&& self.stk == (Stk { reload: SYS_TICK_SEC / TICK_RATE, enable: true, tickint: true })
        &&& self.hw.regs.rcc_cfgr.sw == 3
        &&& self.hw.regs.rcc_cier.lsecssie
        &&& self.hw.regs.rcc_bdcr.lsecsson
        &&& self.debounce.counter <= DEBOUNCE_INTERVAL
    }

    /// The entry point: brings the clock tree up from reset, configures the
    /// pins, programs the tick source and registers the two tasks.  Returns
    /// the running system and the bring-up trace.
    pub fn trunk(hw: ClockHw, gpio: GpioRegs) -> (r: (System, Vec<ClockState>))
        requires
            hw.regs == ClockRegs::reset_spec(),
        ensures
            r.0.wf(),
            r.1@ == bring_up_order(),
            r.0.hw.regs == configured_spec(),
            r.0.gpio == gpio_init_spec(gpio),
            r.0.exti_pr1.pr13 == false,
            r.0.led.counter == 0,
            r.0.pins == (LedPins { pb14: false, pb7: false, pc7: false }),
            r.0.fast == false,
            r.0.debounce.counter == 0,
            r.0.fault is None,
    {
        let mut hw = hw;
        let trace = bring_up(&mut hw);
        let mut gpio = gpio;
        gpio_init(&mut gpio);
        let sys = System {
            hw,
            gpio,
            stk: Stk { reload: SYS_TICK_SEC / TICK_RATE, enable: true, tickint: true },
            exti_pr1: ExtiPr1 { pr13: false },
            clock: ClockState::Ready,
            led: LedTask::new(),
            pins: LedPins::all_low(),
            fast: false,
            debounce: Debounce::new(),
            fault: None,
        };
        (sys, trace)
    }

    /// The tick interrupt handler: resumes the tick-driven routines in
    /// registration order — the LED task, then the guard countdown of the
    /// button task.  The two touch disjoint state.
    pub fn on_sys_tick(&mut self)
        requires
            old(self).wf(),
            old(self).fault is None,
        ensures
            final(self).wf(),
            final(self).pins == drive_spec(old(self).led.counter, old(self).pins),
            final(self).led.counter == advance_spec(old(self).led.counter, old(self).fast),
            final(self).debounce.counter == tick_spec(old(self).debounce.counter),
            final(self).fast == old(self).fast,
            final(self).fault == old(self).fault,
            final(self).hw == old(self).hw,
            final(self).gpio == old(self).gpio,
            final(self).stk == old(self).stk,
            final(self).exti_pr1 == old(self).exti_pr1,
            final(self).clock == old(self).clock,
    {
        let fast = self.fast;
        self.led.step(fast, &mut self.pins);
        self.debounce.on_tick();
    }

    /// A rising edge on the button pin: the hardware latches the pending
    /// flag of the interrupt line.
    pub fn button_edge(&mut self)
        ensures
            *final(self) == (System { exti_pr1: (ExtiPr1 { pr13: true }), ..*old(self) }),
    {
        self.exti_pr1.pr13 = true;
    }

    /// The button-line interrupt handler: with the line-13 edge pending,
    /// clears the pending flag and lets the debounce task judge the press;
    /// without it (the line fired for another reason) nothing happens.
    pub fn on_exti15_10(&mut self)
        requires
            old(self).wf(),
            old(self).fault is None,
        ensures
            final(self).wf(),
            final(self).exti_pr1.pr13 == false,
            old(self).exti_pr1.pr13 ==> {
                &&& final(self).debounce.counter == press_spec(old(self).debounce.counter)
                &&& final(self).fast == (if press_accepted(old(self).debounce.counter) {
                    !old(self).fast
                } else {
                    old(self).fast
                })
            },
            !old(self).exti_pr1.pr13 ==> final(self).debounce == old(self).debounce
                && final(self).fast == old(self).fast,
            final(self).fault == old(self).fault,
            final(self).hw == old(self).hw,
            final(self).gpio == old(self).gpio,
            final(self).stk == old(self).stk,
            final(self).clock == old(self).clock,
            final(self).led == old(self).led,
            final(self).pins == old(self).pins,
    {
        if self.exti_pr1.pr13 {
            self.exti_pr1.pr13 = false;
            let _accepted = self.debounce.on_press(&mut self.fast);
        }
    }

    /// The non-maskable interrupt handler: acknowledges an oscillator-loss
    /// flag and latches the fatal reaction.  The system is halted from here
    /// on; no other handler runs again.
    pub fn on_nmi(&mut self) -> (r: FaultKind)
        requires
            old(self).fault is None,
        ensures
            old(self).hw.regs.rcc_cifr.lsecssf ==> r is LseClockFailure,
            !old(self).hw.regs.rcc_cifr.lsecssf ==> r is UnknownNmi,
            final(self).hw.regs.rcc_cifr.lsecssf == false,
            final(self).fault == Some(r),
            final(self).hw.regs == (ClockRegs {
                rcc_cifr: final(self).hw.regs.rcc_cifr,
                ..old(self).hw.regs
            }),
            final(self).hw.regs.rcc_cifr.pllrdyf == old(self).hw.regs.rcc_cifr.pllrdyf,
            final(self).hw.lse_settle == old(self).hw.lse_settle,
            final(self).hw.pll_settle == old(self).hw.pll_settle,
            final(self).gpio == old(self).gpio,
            final(self).stk == old(self).stk,
            final(self).exti_pr1 == old(self).exti_pr1,
            final(self).clock == old(self).clock,
            final(self).led == old(self).led,
            final(self).pins == old(self).pins,
            final(self).fast == old(self).fast,
            final(self).debounce == old(self).debounce,
    {
        let r = nmi_handler(&mut self.hw);
        self.fault = Some(r);
        r
    }

    /// The hard fault handler: any processor fault is fatal and latched.
    pub fn on_hard_fault(&mut self) -> (r: FaultKind)
        requires
            old(self).fault is None,
        ensures
            r is HardFault,
            *final(self) == (System { fault: Some(FaultKind::HardFault), ..*old(self) }),
    {
        self.fault = Some(FaultKind::HardFault);
        FaultKind::HardFault
    }
}

} // verus!
