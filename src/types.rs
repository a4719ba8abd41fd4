use vstd::prelude::*;

verus! {

/// A physical address.
pub type Address = u64;

/// A raw 32-bit instruction parcel.
pub type RawInstruction = u32;

/// A raw 16-bit compressed instruction parcel.
pub type RawShortInstruction = u16;

/// A general-purpose register index.
pub type RegIdx = u8;

/// A sign-extended immediate.
pub type Imm = i64;

/// A shift amount.
pub type Shamt = u32;

/// Width of a general-purpose register in bits.
pub const XLEN: u8 = 64;

/// Address at which physical memory starts, and the hart's reset vector.
pub const MEMORY_BASE: u64 = 0x8000_0000;

/// Faults surfaced by fetch, decode and execute.
#[derive(Debug, Clone, Copy, PartialEq, Eq, Structural)]
pub enum Exception {
    /// No decoding table entry matches the parcel.
    UnknownInstruction(RawInstruction),
    /// The access lies outside mapped memory.
    InvalidMemoryAccess(Address),
    /// The control-and-status register address is out of range.
    InvalidCsrAccess(u16),
}

} // verus!
