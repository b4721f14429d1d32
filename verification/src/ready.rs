//! The hardware readiness primitive: turning one read of a hardware flag
//! into a poll result.
//!
//! The blocking form of a wait is a loop that re-reads the flag until this
//! returns [`Readiness::Ready`]; the suspending form checks it once per
//! resumption and yields on [`Readiness::Pending`].  Neither form bounds the
//! wait: a flag that never asserts stalls its caller, by design.

use vstd::prelude::*;

verus! {

/// Whether a polled hardware condition has become true.
#[derive(Clone, Copy, PartialEq, Eq, Structural, Debug)]
pub enum Readiness {
    /// The condition was not yet true; poll again on the next firing.
    Pending,
    /// The condition was observed true.
    Ready,
}

/// Classifies one observation of a hardware flag.
pub fn flag_readiness(flag: bool) -> (r: Readiness)
    ensures
        r is Ready <==> flag,
{
    if flag {
        Readiness::Ready
    } else {
        Readiness::Pending
    }
}

} // verus!
