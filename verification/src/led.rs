//! The LED pattern task: three output pins swept through a repeating
//! triangular brightness waveform.
//!
//! One tick drives the pins from the current phase counter and then advances
//! the counter: by one normally, or in fast mode by a jump to the next
//! multiple-of-four boundary, so that fast mode skips phases evenly without
//! ever landing off the quantized schedule.  Within each 64-tick cycle the
//! pins are pulled low at the cycle start and each pin is pulled high at its
//! own pivot phase, the pivots staggered by a third of the sweep.

use vstd::prelude::*;

verus! {

use vstd::wrapping::u32_specs;

/// Log2 of the cycle width: a cycle is `1 << WIDTH` ticks.
pub const WIDTH: u32 = 6;

/// Stagger between the pivot phases of consecutive pins: two thirds of the
/// `1 << WIDTH` cycle width.
pub const STEP: u32 = 64 * 2 / 3;

/// The pivot phase of a pin at the given stagger offset: the sweep position
/// `counter / 64 + offset` folded triangularly into `0 ..= 127`, so that
/// each pin's turn-on phase walks up and back down across cycles.
pub open spec fn pivot_spec(counter: u32, offset: u32) -> int {
    let p = (counter / 64 + offset) % 256;
    if p < 128 {
        p
    } else {
        255 - p
    }
}

/// Computes the pivot phase with the shift-and-mask arithmetic the schedule
/// is quantized by.
pub fn pivot(counter: u32, offset: u32) -> (r: u32)
    ensures
        r == pivot_spec(counter, offset),
{
    let mut p: u32 = (counter >> WIDTH).wrapping_add(offset);
    proof {
        assert(p == u32_specs::wrapping_add(counter >> 6, offset));
        assert(1u32 << 7 == 128 && (1u32 << 7) - 1 == 127) by (bit_vector);
        assert({
            let q = u32_specs::wrapping_add(counter >> 6, offset);
            let f = if q & 128 != 0 {
                !q
            } else {
                q
            };
            let m = (counter / 64 + offset) % 256;
            (f & 127) == (if m < 128 {
                m
            } else {
                255 - m
            })
        }) by (bit_vector);
    }
    if p & (1 << (WIDTH + 1)) != 0 {
        p = !p;
    }
    p & ((1 << (WIDTH + 1)) - 1)
}

/// What one counter advance yields: one phase forward, or in fast mode the
/// next multiple-of-four boundary strictly above, wrapping at the counter
/// width.
pub open spec fn advance_spec(c: u32, fast: bool) -> u32 {
    if fast {
        (((c / 4) * 4 + 4) % 0x1_0000_0000) as u32
    } else {
        ((c + 1) % 0x1_0000_0000) as u32
    }
}

/// Advances the phase counter for one tick.
pub fn advance(counter: u32, fast: bool) -> (r: u32)
    ensures
        r == advance_spec(counter, fast),
{
    if fast {
        let r = counter.wrapping_add(0b100) & !0b011u32;
        proof {
            assert(u32_specs::wrapping_add(counter, 4) & !3u32 == ((counter / 4) * 4 + 4)
                % 0x1_0000_0000) by (bit_vector);
        }
        r
    } else {
        let r = counter.wrapping_add(0b001);
        proof {
            assert(u32_specs::wrapping_add(counter, 1) == (counter + 1) % 0x1_0000_0000)
                by (bit_vector);
        }
        r
    }
}

/// Fast mode never desynchronizes the pattern from its quantization: the
/// advance lands exactly on a multiple of four, at most four phases ahead
/// and always strictly ahead short of the wrap point.
pub proof fn lemma_fast_advance_aligned(c: u32)
    by (bit_vector)
    ensures
        advance_spec(c, true) % 4 == 0,
        c < 0xFFFF_FFFC ==> c < advance_spec(c, true) <= c + 4,
        c >= 0xFFFF_FFFC ==> advance_spec(c, true) == 0,
{
}

/// Levels of the three LED output pins.
#[derive(Clone, Copy, PartialEq, Eq, Structural, Debug)]
pub struct LedPins {
    /// Pin B14, pivot offset zero.
    pub pb14: bool,
    /// Pin B7, pivot offset `STEP`.
    pub pb7: bool,
    /// Pin C7, pivot offset `2 * STEP`.
    pub pc7: bool,
}

impl LedPins {
    /// All three pins low.
    pub fn all_low() -> (p: LedPins)
        ensures
            p == (LedPins { pb14: false, pb7: false, pc7: false }),
    {
        LedPins { pb14: false, pb7: false, pc7: false }
    }
}

/// What one tick at phase counter `c` does to the pins: at the cycle start
/// every pin is pulled low, and a pin whose pivot phase equals the cycle
/// phase is pulled high (winning over the cycle-start reset); any other pin
/// keeps its level.
pub open spec fn drive_spec(c: u32, prev: LedPins) -> LedPins {
    let cyc = c % 64;
    LedPins {
        pb14: if cyc == pivot_spec(c, 0) {
            true
        } else if cyc == 0 {
            false
        } else {
            prev.pb14
        },
        pb7: if cyc == pivot_spec(c, STEP) {
            true
        } else if cyc == 0 {
            false
        } else {
            prev.pb7
        },
        pc7: if cyc == pivot_spec(c, (2 * STEP) as u32) {
            true
        } else if cyc == 0 {
            false
        } else {
            prev.pc7
        },
    }
}

/// The LED pattern task: private phase counter, resumed once per tick.
pub struct LedTask {
    /// The animation phase, wrapping over the full counter range.
    pub counter: u32,
}

impl LedTask {
    /// The task as registered at startup, at phase zero.
    pub fn new() -> (t: LedTask)
        ensures
            t.counter == 0,
    {
        LedTask { counter: 0 }
    }

    /// One resumption of the task: drive the pins from the current phase,
    /// then advance the phase at the speed the shared flag selects.
    pub fn step(&mut self, fast: bool, pins: &mut LedPins)
        ensures
            *final(pins) == drive_spec(old(self).counter, *old(pins)),
            final(self).counter == advance_spec(old(self).counter, fast),
    {
        let c: u32 = self.counter;
        proof {
            assert(1u32 << 6 == 64) by (bit_vector);
        }
        let cycle = c & ((1u32 << WIDTH) - 1);
        proof {
            assert(c & (((1u32 << 6) - 1) as u32) == c % 64) by (bit_vector);
        }
        if cycle == 0 {
            pins.pb7 = false;
            pins.pb14 = false;
            pins.pc7 = false;
        }
        if cycle == pivot(c, 0) {
            pins.pb14 = true;
        }
        if cycle == pivot(c, STEP) {
            pins.pb7 = true;
        }
        if cycle == pivot(c, STEP * 2) {
            pins.pc7 = true;
        }
        self.counter = advance(c, fast);
    }
}

/// The phase counter after a stretch of ticks, one advance per tick at the
/// speed each tick saw.
pub open spec fn run_counter(c0: u32, fasts: Seq<bool>) -> u32
    decreases fasts.len(),
{
    if fasts.len() == 0 {
        c0
    } else {
        run_counter(advance_spec(c0, fasts[0]), fasts.drop_first())
    }
}

/// The pin levels after a stretch of ticks starting from phase `c0` and pin
/// levels `p0`.
pub open spec fn run_pins(c0: u32, p0: LedPins, fasts: Seq<bool>) -> LedPins
    decreases fasts.len(),
{
    if fasts.len() == 0 {
        p0
    } else {
        run_pins(advance_spec(c0, fasts[0]), drive_spec(c0, p0), fasts.drop_first())
    }
}

/// The task is idempotent under save and restore: suspending after any
/// stretch of ticks and resuming from the saved phase counter and pin
/// levels drives the pins exactly as running the whole stretch without the
/// interruption.
pub proof fn lemma_save_restore(c0: u32, p0: LedPins, s1: Seq<bool>, s2: Seq<bool>)
    ensures
        run_counter(c0, s1 + s2) == run_counter(run_counter(c0, s1), s2),
        run_pins(c0, p0, s1 + s2) == run_pins(run_counter(c0, s1), run_pins(c0, p0, s1), s2),
    decreases s1.len(),
{
    if s1.len() == 0 {
        assert(s1 + s2 =~= s2);
    } else {
        assert((s1 + s2).drop_first() =~= s1.drop_first() + s2);
        assert((s1 + s2)[0] == s1[0]);
        lemma_save_restore(advance_spec(c0, s1[0]), drive_spec(c0, p0), s1.drop_first(), s2);
    }
}

} // verus!
