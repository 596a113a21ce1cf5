//! Compile-time sizing of the kernel's fixed tables.

use vstd::prelude::*;

verus! {

/// Number of priority slots. A task's priority is also its identity and its
/// index into every fixed-size table, so the table holds one slot per
/// priority. Bounded by 32 because readiness is tracked in a `u32` bitmask.
pub const MAX_TASKS: usize = 8;

/// Length, in 32-bit words, of the stack region reserved for each priority
/// slot. Must be at least [`STACK_FRAME_WORDS`] so that the initial exception
/// frame of the idle task always fits.
pub const MAX_STACK_SIZE: usize = 64;

/// Minimum usable stack length in words: the hardware exception frame plus
/// the software-saved registers that the context-switch trampoline pushes.
pub const STACK_FRAME_WORDS: usize = 32;

} // verus!
