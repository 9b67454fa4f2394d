//! A Game Boy Advance core: the ARM7TDMI interpreter, the memory bus with its
//! memory-mapped registers, timers and DMA channels, and the scanline
//! renderer of the picture processing unit.
//!
//! Every executable function carries a contract over spec functions that
//! describe the machine as plain values; the laws that relate several
//! functions are stated as proof functions next to them.
use vstd::prelude::*;

pub mod arm;
pub mod bits;
pub mod gba;
pub mod mmu;
pub mod ppu;

verus! {

} // verus!
