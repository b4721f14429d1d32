//! The clock-security fault monitor: the handler bound to the
//! highest-priority non-maskable interrupt.
//!
//! The handler is strictly terminal: every invocation ends in a fatal
//! reaction, never a silent return.  When the failure flag is up it is
//! acknowledged in hardware before the reaction; a spurious invocation with
//! the flag down is fatal as well.  The embedding turns the returned
//! reaction into an unconditional halt.

use vstd::prelude::*;

verus! {

use crate::reg::{ClockHw, ClockRegs, RccCifr};

/// The fatal reactions this system knows.  None of them is recovered from.
#[derive(Clone, Copy, PartialEq, Eq, Structural, Debug)]
pub enum FaultKind {
    /// The external low-speed oscillator was lost.
    LseClockFailure,
    /// The non-maskable interrupt fired without the failure flag set.
    UnknownNmi,
    /// A processor hard fault.
    HardFault,
}

/// The non-maskable interrupt handler.  With the failure flag set, the flag
/// is acknowledged (cleared) and the oscillator-loss reaction is returned;
/// with the flag clear, the hardware is left untouched and the spurious
/// invocation is still reported as fatal.
pub fn nmi_handler(hw: &mut ClockHw) -> (r: FaultKind)
    ensures
        old(hw).regs.rcc_cifr.lsecssf ==> r is LseClockFailure,
        !old(hw).regs.rcc_cifr.lsecssf ==> r is UnknownNmi,
        *final(hw) == (ClockHw {
            regs: ClockRegs {
                rcc_cifr: (RccCifr { lsecssf: false, ..old(hw).regs.rcc_cifr }),
                ..old(hw).regs
            },
            ..*old(hw)
        }),
{
    if hw.regs.rcc_cifr.lsecssf {
        hw.clear_lse_css_flag();
        FaultKind::LseClockFailure
    } else {
        FaultKind::UnknownNmi
    }
}

/// The message the firmware dies with for each fatal reaction.
pub fn fault_message(k: FaultKind) -> (m: &'static str)
    ensures
        k is LseClockFailure ==> m@ == "LSE clock failure"@,
        k is UnknownNmi ==> m@ == "Unknown NMI"@,
        k is HardFault ==> m@ == "Hard Fault"@,
{
    match k {
        FaultKind::LseClockFailure => "LSE clock failure",
        FaultKind::UnknownNmi => "Unknown NMI",
        FaultKind::HardFault => "Hard Fault",
    }
}

} // verus!
