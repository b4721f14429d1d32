use demo_core_nucleo::led::{advance, pivot, LedPins, LedTask, STEP, WIDTH};

#[test]
fn led_step_is_two_thirds_of_the_cycle() {
    assert_eq!(WIDTH, 6);
    assert_eq!(1u32 << WIDTH, 64);
    assert_eq!(STEP, 42);
}

#[test]
fn led_pivot_exact_values() {
    assert_eq!(pivot(0, 0), 0);
    assert_eq!(pivot(0, STEP), 42);
    assert_eq!(pivot(0, STEP * 2), 84);
    assert_eq!(pivot(64, 0), 1);
    assert_eq!(pivot(127 * 64, 0), 127);
    assert_eq!(pivot(128 * 64, 0), 127);
    assert_eq!(pivot(129 * 64, 0), 126);
    assert_eq!(pivot(255 * 64, 0), 0);
    assert_eq!(pivot(256 * 64, 0), 0);
    assert_eq!(pivot(0, 200), 55);
    assert_eq!(pivot(108 * 64, STEP * 2), 63);
    assert_eq!(pivot(u32::MAX, 0), 0);
    assert_eq!(pivot(0, u32::MAX), 0);
}

#[test]
fn led_advance_slow_counts_and_wraps() {
    assert_eq!(advance(0, false), 1);
    assert_eq!(advance(5, false), 6);
    assert_eq!(advance(u32::MAX, false), 0);
}

#[test]
fn led_advance_fast_snaps_to_four_aligned_boundaries() {
    assert_eq!(advance(0, true), 4);
    assert_eq!(advance(5, true), 8);
    assert_eq!(advance(6, true), 8);
    assert_eq!(advance(7, true), 8);
    assert_eq!(advance(8, true), 12);
    assert_eq!(advance(42, true), 44);
    assert_eq!(advance(u32::MAX, true), 0);
    assert_eq!(advance(0xFFFF_FFFC, true), 0);
}

#[test]
fn led_first_cycle_schedule_at_the_named_phases() {
    let mut task = LedTask::new();
    let mut pins = LedPins::all_low();
    let mut after: Vec<LedPins> = Vec::new();
    for _ in 0..64 {
        task.step(false, &mut pins);
        after.push(pins);
    }
    // Phase 0: all three driven low at the cycle start, then pin B14 (pivot
    // offset 0) immediately high.
    assert_eq!(after[0], LedPins { pb14: true, pb7: false, pc7: false });
    // Phases 1 and 21: no pivot reached, nothing changes.
    assert_eq!(after[1], after[0]);
    assert_eq!(after[21], after[0]);
    // Phase 42: pin B7 reaches its pivot (offset 42).
    assert_eq!(after[42], LedPins { pb14: true, pb7: true, pc7: false });
    // Phase 63: pin C7's pivot (84) lies beyond this cycle; it stays low.
    assert_eq!(after[63], LedPins { pb14: true, pb7: true, pc7: false });
}

#[test]
fn led_third_pin_fires_when_its_pivot_folds_into_the_cycle() {
    // At sweep position 108 the folded pivot of offset 84 is 63.
    let mut task = LedTask { counter: 108 * 64 };
    let mut pins = LedPins::all_low();
    let mut last = pins;
    for _ in 0..64 {
        task.step(false, &mut pins);
        last = pins;
    }
    assert_eq!(last, LedPins { pb14: false, pb7: false, pc7: true });
}

#[test]
fn led_fast_mode_mid_cycle_snaps_and_stays_aligned() {
    let mut task = LedTask::new();
    let mut pins = LedPins::all_low();
    // Five slow ticks leave the counter mid-cycle, off the fast grid.
    for _ in 0..5 {
        task.step(false, &mut pins);
    }
    assert_eq!(task.counter, 5);
    // The first fast tick snaps to the next multiple of four...
    task.step(true, &mut pins);
    assert_eq!(task.counter, 8);
    // ...and every further fast tick stays on the grid.
    for _ in 0..10 {
        task.step(true, &mut pins);
        assert_eq!(task.counter % 4, 0);
    }
    assert_eq!(task.counter, 48);
}

#[test]
fn led_save_restore_reproduces_the_continuous_run() {
    let fasts = |i: u32| i % 3 == 0 || i % 7 == 0;

    let mut cont = LedTask::new();
    let mut cont_pins = LedPins::all_low();
    let mut cont_trace: Vec<LedPins> = Vec::new();
    for i in 0..100 {
        cont.step(fasts(i), &mut cont_pins);
        cont_trace.push(cont_pins);
    }

    let mut first = LedTask::new();
    let mut first_pins = LedPins::all_low();
    for i in 0..60 {
        first.step(fasts(i), &mut first_pins);
    }
    // Save the task state, then resume a fresh task from it.
    let saved_counter = first.counter;
    let saved_pins = first_pins;
    let mut resumed = LedTask { counter: saved_counter };
    let mut resumed_pins = saved_pins;
    for i in 60..100 {
        resumed.step(fasts(i), &mut resumed_pins);
        assert_eq!(resumed_pins, cont_trace[i as usize]);
    }
    assert_eq!(resumed.counter, cont.counter);
    assert_eq!(resumed_pins, cont_pins);
}
