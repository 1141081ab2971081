//! Recorded memory-mapped I/O traffic.
//!
//! A driver in this crate never touches a register silently: every write
//! it issues is appended to the owning device model's trace, in program
//! order. The trace stands for the volatile, non-reordered access
//! semantics the hardware requires — a test harness (or a proof) can
//! inspect it to see exactly which registers were written, with which
//! values, in which order.

use vstd::prelude::*;

verus! {

/// One memory-mapped register write: the register's byte offset from the
/// device's base address, and the 32-bit value stored.
#[derive(Clone, Copy, PartialEq, Eq, Structural, Debug)]
pub struct RegWrite {
    pub offset: u64,
    pub value: u32,
}

/// Builds a write record; convenient in contracts that spell out a
/// device's exact write sequence.
pub open spec fn reg_write(offset: u64, value: u32) -> RegWrite {
    RegWrite { offset, value }
}

} // verus!
