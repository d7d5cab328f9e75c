//! The memory interface through which the picture processing unit reaches
//! its video memory and its sprite memory.

use vstd::prelude::*;
use crate::error::PpuError;

verus! {

/// A byte-addressed memory with a 16-bit address space.
///
/// Every operation takes the memory mutably, since on some memories a load
/// changes what later accesses see. What an operation may do is stated by a
/// predicate of its own, over the memory before the call, the arguments, the
/// memory after the call and the result. An implementation chooses the
/// predicates and proves its operations against them; code that is generic
/// over a memory reasons through them. A predicate that an implementation
/// leaves as it is here admits every outcome, and so promises nothing.
pub trait Mem {
    /// Whether a byte load at `addr` may leave `after` and return `r`.
    open spec fn loadb_spec(&self, addr: u16, after: &Self, r: Result<u8, PpuError>) -> bool {
        true
    }

    /// Whether a byte store of `val` at `addr` may leave `after` and return
    /// `r`.
    open spec fn storeb_spec(&self, addr: u16, val: u8, after: &Self, r: Result<(), PpuError>) -> bool {
        true
    }

    /// Whether a 16-bit load at `addr` may leave `after` and return `r`.
    open spec fn loadw_spec(&self, addr: u16, after: &Self, r: Result<u16, PpuError>) -> bool {
        true
    }

    /// Whether a 16-bit store of `val` at `addr` may leave `after` and return
    /// `r`.
    open spec fn storew_spec(&self, addr: u16, val: u16, after: &Self, r: Result<(), PpuError>) -> bool {
        true
    }

    /// Loads the byte at `addr`.
    fn loadb(&mut self, addr: u16) -> (r: Result<u8, PpuError>)
        ensures
            old(self).loadb_spec(addr, final(self), r),
    ;

    /// Stores `val` at `addr`.
    fn storeb(&mut self, addr: u16, val: u8) -> (r: Result<(), PpuError>)
        ensures
            old(self).storeb_spec(addr, val, final(self), r),
    ;

    /// Loads the 16-bit value at `addr`.
    fn loadw(&mut self, addr: u16) -> (r: Result<u16, PpuError>)
        ensures
            old(self).loadw_spec(addr, final(self), r),
    ;

    /// Stores the 16-bit value `val` at `addr`.
    fn storew(&mut self, addr: u16, val: u16) -> (r: Result<(), PpuError>)
        ensures
            old(self).storew_spec(addr, val, final(self), r),
    ;
}

} // verus!
