//! Fault values surfaced by the bus and the processor.

use vstd::prelude::*;

verus! {

/// A fatal condition detected at an access or instruction boundary.
///
/// The machine never panics on bad input: every entry point returns one of
/// these instead, and the caller decides whether to halt, trap or propagate.
#[derive(Clone, Copy, Debug, PartialEq, Eq, Structural)]
pub enum Fault {
    /// An address outside physical RAM, the offset register and every
    /// mapped device window.
    OutOfRangeAccess,
    /// A device base below the reserved device region, or a window that
    /// does not fit in the 32-bit address space.
    InvalidMapping,
    /// An opcode with no entry in the instruction table, or a register
    /// operand byte that does not name a register.
    IllegalInstruction,
    /// An attempt to write through a non-addressable (immediate) operand.
    InvalidDestination,
}

} // verus!
