use vstd::prelude::*;

verus! {

/// Default capacity of the emulated DRAM: 128 MiB.
pub const DRAM_SIZE: u64 = 0x0800_0000;

/// Default address at which the DRAM is mapped (as on QEMU's virt machine).
pub const DRAM_BASE: u64 = 0x8000_0000;

} // verus!
