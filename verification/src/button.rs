//! The button debounce task: a press toggles the LED speed flag, and a
//! guard-interval counter swallows the mechanical bounce that follows.
//!
//! Two interrupt sources drive it: the edge interrupt of the button pin
//! fires [`Debounce::on_press`], and every tick fires [`Debounce::on_tick`],
//! which counts the guard down toward zero.  An edge is accepted only when
//! the guard has run out; an accepted edge rearms the guard.

use vstd::prelude::*;

verus! {

/// Guard interval after an accepted press, in ticks.
pub const DEBOUNCE_INTERVAL: u32 = 2000;

/// One tick of the guard counter: counts down, stopping at zero.
pub open spec fn tick_spec(c: u32) -> u32 {
    if c > 0 {
        (c - 1) as u32
    } else {
        0
    }
}

/// What an edge firing does to the guard counter: an accepted press rearms
/// it to the full interval, a bouncing press leaves it alone.
pub open spec fn press_spec(c: u32) -> u32 {
    if c == 0 {
        DEBOUNCE_INTERVAL
    } else {
        c
    }
}

/// Whether an edge firing is accepted at guard counter `c`.
pub open spec fn press_accepted(c: u32) -> bool {
    c == 0
}

/// The debounce guard counter, owned by the button task.
pub struct Debounce {
    /// Ticks left until the next press can be accepted.
    pub counter: u32,
}

impl Debounce {
    /// The task as registered at startup: the guard starts expired, so the
    /// first press is accepted.
    pub fn new() -> (d: Debounce)
        ensures
            d.counter == 0,
    {
        Debounce { counter: 0 }
    }

    /// One tick resumption: the guard counts down toward zero.
    pub fn on_tick(&mut self)
        ensures
            final(self).counter == tick_spec(old(self).counter),
    {
        if self.counter != 0 {
            self.counter = self.counter - 1;
        }
    }

    /// One edge-interrupt resumption: with the guard expired the press is
    /// accepted, toggling the shared speed flag and rearming the guard;
    /// otherwise the edge is still bounce and is ignored.
    pub fn on_press(&mut self, fast: &mut bool) -> (accepted: bool)
        ensures
            accepted == press_accepted(old(self).counter),
            final(self).counter == press_spec(old(self).counter),
            *final(fast) == (if accepted {
                !*old(fast)
            } else {
                *old(fast)
            }),
    {
        if self.counter == 0 {
            *fast = !*fast;
            self.counter = DEBOUNCE_INTERVAL;
            true
        } else {
            false
        }
    }
}

/// The guard counter after `d` further ticks.
pub open spec fn ticks_spec(c: u32, d: nat) -> u32
    decreases d,
{
    if d == 0 {
        c
    } else {
        ticks_spec(tick_spec(c), (d - 1) as nat)
    }
}

/// Ticking the guard `d` times is saturating subtraction.
pub proof fn lemma_ticks_decay(c: u32, d: nat)
    ensures
        ticks_spec(c, d) == (if d >= c {
            0u32
        } else {
            (c - d) as u32
        }),
    decreases d,
{
    if d > 0 {
        lemma_ticks_decay(tick_spec(c), (d - 1) as nat);
    }
}

/// Edge firings at strictly increasing tick times.
pub open spec fn times_increasing(times: Seq<int>) -> bool {
    &&& forall|i: int| 0 <= i < times.len() ==> #[trigger] times[i] >= 0
    &&& forall|i: int| 1 <= i < times.len() ==> times[i - 1] < #[trigger] times[i]
}

/// The guard counter found by edge firing number `k` of a timeline: the
/// guard starts expired, each firing acts on it, and between firings it
/// ticks down once per elapsed tick.
pub open spec fn guard_before(times: Seq<int>, k: int) -> u32
    decreases k,
{
    if k <= 0 {
        0
    } else {
        ticks_spec(press_spec(guard_before(times, k - 1)), (times[k] - times[k - 1]) as nat)
    }
}

/// Whether edge firing number `k` of the timeline is accepted.
pub open spec fn accepted_at(times: Seq<int>, k: int) -> bool {
    press_accepted(guard_before(times, k))
}

/// Edge firings bunched within one guard interval of the first: only the
/// first is accepted, every later one still finds the guard running.
pub proof fn lemma_burst_rejected(times: Seq<int>, k: int)
    requires
        times_increasing(times),
        0 <= k < times.len(),
        forall|i: int| 1 <= i < times.len() ==> #[trigger] times[i] - times[0] < DEBOUNCE_INTERVAL,
    ensures
        accepted_at(times, 0),
        k >= 1 ==> guard_before(times, k) == DEBOUNCE_INTERVAL - (times[k] - times[0]),
        k >= 1 ==> !accepted_at(times, k),
    decreases k,
{
    if k == 1 {
        lemma_ticks_decay(DEBOUNCE_INTERVAL, (times[1] - times[0]) as nat);
    } else if k > 1 {
        lemma_burst_rejected(times, k - 1);
        lemma_ticks_decay(guard_before(times, k - 1), (times[k] - times[k - 1]) as nat);
    }
}

/// Edge firings spaced at least one guard interval apart: every one finds
/// the guard expired and is accepted.
pub proof fn lemma_spaced_accepted(times: Seq<int>, k: int)
    requires
        times_increasing(times),
        0 <= k < times.len(),
        forall|i: int| 1 <= i < times.len() ==> #[trigger] times[i] - times[i - 1]
            >= DEBOUNCE_INTERVAL,
    ensures
        accepted_at(times, k),
    decreases k,
{
    if k > 0 {
        lemma_spaced_accepted(times, k - 1);
        lemma_ticks_decay(press_spec(guard_before(times, k - 1)), (times[k] - times[k - 1]) as nat);
    }
}

} // verus!
