//! Drivers for the TC37x family of microcontrollers.
//!
//! The library computes what the drivers decide: bit timings, register values,
//! message RAM layouts and the effects that a register access produces.
pub mod can;
pub mod cpu;
pub mod gpio;
pub mod intrinsics;
pub mod log;
pub mod scu;
pub mod ssw;
pub mod tracing;

use vstd::prelude::*;

verus! {

/// Traits that only this crate implements.
pub trait Sealed {
}

} // verus!
