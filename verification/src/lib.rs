//! A CHIP-8 virtual machine: the architectural state, the instruction set,
//! and a fetch-decode-execute cycle that advances the state by one
//! instruction per call.
//!
//! [`Emu`] is the executable machine. Its state is modelled by
//! [`machine::Machine`], and every operation says in its contract how the
//! model changes. [`instruction`] holds the instruction set and its
//! decoder, [`laws`] what is proved of the instructions.
//!
//! Where descriptions of the instruction set differ, this machine does the
//! following. Reverse subtract stores `Vy - Vx` in `Vx`. Shift left puts
//! bit 7 of the old value into the flag register, as 0 or 1. The bulk store
//! and load instructions move the registers below `Vx` and leave `I` as it
//! is. A word outside the instruction set is never executed: the decoder
//! returns `None` for it, and a cycle may not be run on it.

pub mod consts;
pub mod draw;
pub mod emu;
pub mod instruction;
pub mod laws;
pub mod machine;
mod memory;
mod ops;
mod random;

pub use consts::{SCREEN_HEIGHT, SCREEN_WIDTH};
pub use emu::Emu;
pub use instruction::{decode, Instruction};
