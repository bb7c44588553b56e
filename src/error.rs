use vstd::prelude::*;

verus! {

/// Errors raised by memory accesses and by instruction fetch.
#[derive(Debug, Clone, Copy, PartialEq, Eq, Structural)]
pub enum EmulatorError {
    /// The address does not resolve to mapped memory: it lies below the
    /// mapped base, or the access runs past the end of the region.
    AddressOutOfRange { address: u64, base: u64 },
    /// A load was asked for a width other than 8, 16, 32 or 64 bits.
    InvalidWidth { width: u64 },
    /// The fetched word is the all-zero end-of-program sentinel.
    InvalidInstruction,
    /// The program image does not fit in the memory region.
    ProgramTooLarge { len: usize, capacity: u64 },
}

} // verus!
