//! The interpreter: the processor state and the handlers of both
//! instruction sets.
use vstd::prelude::*;

pub mod arm7tdmi;
pub mod block;
pub mod data;
pub mod decode;
pub mod execute;
pub mod thumb;
pub mod thumb_transfer;
pub mod transfer;

verus! {

} // verus!
