//! Build-time configuration constants of the clock tree and the tick source.

use vstd::prelude::*;

verus! {

/// MSI (multispeed internal) RC oscillator clock frequency, in Hz.
pub const MSI_CLK: u32 = 8_000_000;

/// Division factor for the main PLL input clock.
pub const PLL_INPUT_FACTOR: u32 = 1;

/// Main PLL multiplication factor for the VCO.
pub const PLL_OUTPUT_FACTOR: u32 = 20;

/// Main PLL division factor for PLLCLK (the system clock).
pub const PLLCLK_FACTOR: u32 = 2;

/// Processor clock frequency after bring-up, in Hz.
pub const HCLK: u32 = MSI_CLK / PLL_INPUT_FACTOR * PLL_OUTPUT_FACTOR / PLLCLK_FACTOR;

/// SysTick timer clocks in one second (the timer runs at an eighth of HCLK).
pub const SYS_TICK_SEC: u32 = HCLK / 8;

/// SysTick firings per second once the application tasks are running.
pub const TICK_RATE: u32 = 15_000;

} // verus!
