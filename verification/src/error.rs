//! The ways in which an access can fail.

use vstd::prelude::*;

verus! {

/// Why an access was refused. Neither kind can be recovered from: each shows
/// a gap in the model or a caller that left its side of the bus contract.
#[derive(Clone, Copy, Debug, PartialEq, Eq, Structural)]
pub enum PpuError {
    /// A video memory access outside `0x0000..=0x3FFF`.
    InvalidAddress,
    /// An operation that the model does not carry out: a write to the sprite
    /// data register, or a 16-bit store to video memory.
    Unimplemented,
}

} // verus!
