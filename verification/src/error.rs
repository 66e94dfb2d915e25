//! The error taxonomy of the core. Both kinds are fatal to execution:
//! an opcode without a table entry must not be skipped (the program
//! counter would desynchronize from real hardware), and an address outside
//! the 16-bit architecture width signals a defect in address arithmetic.

use vstd::prelude::*;

verus! {

/// A fatal condition reported by the decoder or the memory unit.
#[derive(Clone, Copy, Debug, PartialEq, Eq, Structural)]
pub enum EmuError {
    /// The byte at `address` selects no operation in the opcode tables.
    UnimplementedOpcode { byte: u8, address: u16 },
    /// An address outside the 16-bit address space was computed.
    InvalidAddress { address: usize },
}

} // verus!
