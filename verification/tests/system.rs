use demo_core_nucleo::button::DEBOUNCE_INTERVAL;
use demo_core_nucleo::clock::ClockState;
use demo_core_nucleo::fault::FaultKind;
use demo_core_nucleo::gpio::GpioRegs;
use demo_core_nucleo::led::{LedPins, LedTask};
use demo_core_nucleo::reg::ClockHw;
use demo_core_nucleo::system::System;

fn booted() -> System {
    let hw = ClockHw::at_reset(3, 7);
    let gpio = GpioRegs::at_reset();
    let (sys, trace) = System::trunk(hw, gpio);
    assert_eq!(trace.len(), 8);
    sys
}

#[test]
fn system_trunk_boots_to_ready() {
    let hw = ClockHw::at_reset(0, 0);
    let gpio = GpioRegs::at_reset();
    let (sys, trace) = System::trunk(hw, gpio);
    assert_eq!(trace.first(), Some(&ClockState::Reset));
    assert_eq!(trace.last(), Some(&ClockState::Ready));
    assert_eq!(sys.clock, ClockState::Ready);
    assert_eq!(sys.stk.reload, 666);
    assert!(sys.stk.enable);
    assert!(sys.stk.tickint);
    assert_eq!(sys.led.counter, 0);
    assert_eq!(sys.pins, LedPins { pb14: false, pb7: false, pc7: false });
    assert!(!sys.fast);
    assert_eq!(sys.debounce.counter, 0);
    assert_eq!(sys.fault, None);
}

#[test]
fn system_trunk_configures_the_pins() {
    let sys = booted();
    assert!(sys.gpio.apb2_syscfgen);
    assert!(sys.gpio.ahb2_gpioben);
    assert!(sys.gpio.ahb2_gpiocen);
    assert_eq!(sys.gpio.exticr4_exti13, 2);
    assert!(sys.gpio.exti_imr13);
    assert!(sys.gpio.exti_rtsr13);
    assert_eq!(sys.gpio.pb7.moder, 1);
    assert_eq!(sys.gpio.pb14.moder, 1);
    assert_eq!(sys.gpio.pc7.moder, 1);
    assert_eq!(sys.gpio.pc13.moder, 0);
    assert_eq!(sys.gpio.pb7.ospeedr, 3);
    assert_eq!(sys.gpio.pc13.pupdr, 2);
}

#[test]
fn system_ticks_drive_the_pins_like_the_bare_task() {
    let mut sys = booted();
    let mut task = LedTask::new();
    let mut pins = LedPins { pb14: false, pb7: false, pc7: false };
    for _ in 0..200 {
        sys.on_sys_tick();
        task.step(false, &mut pins);
        assert_eq!(sys.pins, pins);
        assert_eq!(sys.led.counter, task.counter);
    }
}

#[test]
fn system_press_toggles_speed_and_arms_the_guard() {
    let mut sys = booted();
    sys.button_edge();
    assert!(sys.exti_pr1.pr13);
    sys.on_exti15_10();
    assert!(!sys.exti_pr1.pr13);
    assert!(sys.fast);
    assert_eq!(sys.debounce.counter, DEBOUNCE_INTERVAL);
}

#[test]
fn system_spurious_line_interrupt_does_nothing() {
    let mut sys = booted();
    sys.on_exti15_10();
    assert!(!sys.fast);
    assert_eq!(sys.debounce.counter, 0);
}

#[test]
fn system_guard_expires_after_the_interval_of_ticks() {
    let mut sys = booted();
    sys.button_edge();
    sys.on_exti15_10();
    assert!(sys.fast);
    // A bounce right away is ignored.
    sys.button_edge();
    sys.on_exti15_10();
    assert!(sys.fast);
    for _ in 0..DEBOUNCE_INTERVAL {
        sys.on_sys_tick();
    }
    sys.button_edge();
    sys.on_exti15_10();
    assert!(!sys.fast);
}

#[test]
fn system_ticks_in_fast_mode_keep_the_counter_aligned() {
    let mut sys = booted();
    for _ in 0..5 {
        sys.on_sys_tick();
    }
    assert_eq!(sys.led.counter, 5);
    sys.button_edge();
    sys.on_exti15_10();
    sys.on_sys_tick();
    assert_eq!(sys.led.counter, 8);
    sys.on_sys_tick();
    assert_eq!(sys.led.counter, 12);
}

#[test]
fn system_nmi_latches_the_oscillator_loss() {
    let mut sys = booted();
    sys.hw.inject_lse_failure();
    let r = sys.on_nmi();
    assert_eq!(r, FaultKind::LseClockFailure);
    assert_eq!(sys.fault, Some(FaultKind::LseClockFailure));
    assert!(!sys.hw.regs.rcc_cifr.lsecssf);
}

#[test]
fn system_spurious_nmi_latches_too() {
    let mut sys = booted();
    let r = sys.on_nmi();
    assert_eq!(r, FaultKind::UnknownNmi);
    assert_eq!(sys.fault, Some(FaultKind::UnknownNmi));
}

#[test]
fn system_hard_fault_latches() {
    let mut sys = booted();
    let r = sys.on_hard_fault();
    assert_eq!(r, FaultKind::HardFault);
    assert_eq!(sys.fault, Some(FaultKind::HardFault));
}

#[test]
fn system_pins_match_the_bare_task_across_speed_changes() {
    let mut sys = booted();
    let mut task = LedTask::new();
    let mut pins = LedPins { pb14: false, pb7: false, pc7: false };
    for i in 0..6000u32 {
        if i == 100 || i == 4000 {
            // The second press falls well past the guard interval.
            sys.button_edge();
            sys.on_exti15_10();
        }
        let fast = sys.fast;
        sys.on_sys_tick();
        task.step(fast, &mut pins);
        assert_eq!(sys.pins, pins);
        assert_eq!(sys.led.counter, task.counter);
    }
    assert!(!sys.fast);
}
