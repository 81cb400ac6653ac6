//! Hardware abstraction for a microcontroller clock-generation unit and its
//! I2C bus controller.
//!
//! The crate covers two subsystems: a clock-mode typestate sequencer with its
//! frequency-derivation math (`mcg`), and an interrupt-driven I2C master
//! protocol engine with a single-slot cross-context transaction handoff
//! (`i2c`). Both operate on plain-value models of the memory-mapped control
//! registers; the code that copies those models to and from the real
//! registers is hardware-specific and lives outside this library.

use vstd::prelude::*;

pub mod delay;
pub mod i2c;
pub mod mcg;

verus! {

/// Errors reported to callers rather than treated as fatal configuration
/// mistakes.
#[derive(Clone, Copy, Debug, PartialEq, Eq, Structural)]
pub enum Error {
    /// The requested delay needs a timer reload value above the hardware
    /// counter width (24 bits).
    InvalidDelay,
}

} // verus!
