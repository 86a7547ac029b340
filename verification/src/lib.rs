//! Cycle-level simulation core for a fixed-function 8-bit home console:
//! a 6502-family CPU interpreter, a dot-driven picture unit, an audio
//! unit with a frame sequencer, cartridge mappers, the shared address
//! bus that ties them together, and a snapshot codec for the whole
//! machine state.

use vstd::prelude::*;

pub mod apu;
pub mod cart;
pub mod cpu;
pub mod decode;
pub mod disasm;
pub mod input;
pub mod machine;
pub mod mapper;
pub mod ops;
pub mod ppu;
pub mod render;
pub mod resampler;
pub mod snapshot;

verus! {

/// Number of picture-unit dots per CPU cycle on the reference timing.
pub const DOTS_PER_CPU_CYCLE: u64 = 3;

} // verus!
