//! Clock bring-up sequencer and interrupt-driven task model for an
//! STM32L496-style microcontroller.
//!
//! The library models the register fields that the firmware touches as plain
//! values, and verifies the logic that drives them: the ordered clock
//! bring-up (LSE start, MSI auto-calibration, PLL lock, flash timing, system
//! clock switch), the clock-security fault monitor, the LED pattern task and
//! the button debounce task.  An embedding runs the same logic against real
//! memory-mapped registers; here every decision is a function from observed
//! hardware state to the next state and the values to program.

pub mod button;
pub mod clock;
pub mod consts;
pub mod fault;
pub mod gpio;
pub mod led;
pub mod ready;
pub mod reg;
pub mod system;
