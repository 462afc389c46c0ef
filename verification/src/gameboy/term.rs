//! The console variants and the constants of the hardware.

use vstd::prelude::*;

verus! {

/// Width of the screen in pixels.
pub const SCREEN_W: usize = 160;

/// Height of the screen in pixels.
pub const SCREEN_H: usize = 144;

/// Ticks of the master clock per second.
pub const CLOCK_FREQUENCY: u32 = 4_194_304;

/// Length of one pacing step in milliseconds.
pub const STEP_TIME: u32 = 16;

/// Ticks of the master clock in one pacing step: the integer part of
/// `STEP_TIME * CLOCK_FREQUENCY / 1000`.
pub const STEP_CYCLES: u32 = 67_108;

/// The console variant that is emulated.
#[derive(Debug, Clone, Copy, PartialEq, Eq, Structural)]
pub enum Term {
    /// The first Game Boy.
    GB,
    /// Game Boy Pocket / Game Boy Light.
    GBP,
    /// Game Boy Color.
    GBC,
    /// Super Game Boy.
    SGB,
}

/// `STEP_CYCLES` is the number of whole clock ticks in `STEP_TIME` milliseconds.
pub proof fn lemma_step_cycles()
    ensures
        STEP_CYCLES as int == (STEP_TIME as int * CLOCK_FREQUENCY as int) / 1000,
{
}

} // verus!
