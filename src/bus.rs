use vstd::prelude::*;

use crate::dram::{is_valid_width, loaded_image, Dram};
use crate::error::EmulatorError;

verus! {

/// The system bus: maps the address space onto the memory region, which it
/// owns, and turns away addresses that the region does not cover.
#[derive(Debug)]
pub struct Bus {
    pub dram: Dram,
}

impl Bus {
    /// The memory behind the bus is well formed.
    pub open spec fn wf(&self) -> bool {
        self.dram.wf()
    }

    /// What a load of `width` bits at `addr` through the bus yields.
    pub open spec fn spec_load(&self, addr: u64, width: u64) -> Result<u64, EmulatorError> {
        if addr < self.dram.base || (is_valid_width(width) && !self.dram.fits(addr, width)) {
            Err(EmulatorError::AddressOutOfRange { address: addr, base: self.dram.base })
        } else {
            self.dram.spec_load(addr, width)
        }
    }

    /// A bus whose memory holds `code` at `base`, in a region of `size`
    /// bytes. Fails as `Dram::new` does.
    pub fn new(code: Vec<u8>, base: u64, size: u64) -> (r: Result<Bus, EmulatorError>)
        requires
            base + size <= u64::MAX,
            size <= usize::MAX,
        ensures
            match r {
                Ok(b) => {
                    &&& code@.len() <= size
                    &&& b.dram.base == base
                    &&& b.dram.dram@ == loaded_image(code@, size)
                    &&& b.wf()
                },
                Err(e) => code@.len() > size && e == (EmulatorError::ProgramTooLarge {
                    len: code@.len() as usize,
                    capacity: size,
                }),
            },
    {
        match Dram::new(code, base, size) {
            Ok(dram) => Ok(Bus { dram }),
            Err(e) => Err(e),
        }
    }

    /// Loads `width` bits, little-endian, from `addr`. Addresses below the
    /// mapped base, and accesses that run past the end of the region, fail
    /// with `AddressOutOfRange`; unsupported widths with `InvalidWidth`.
    pub fn load(&self, addr: u64, width: u64) -> (r: Result<u64, EmulatorError>)
        requires
            self.wf(),
        ensures
            r == self.spec_load(addr, width),
    {
        let base = self.dram.base;
        if addr < base {
            return Err(EmulatorError::AddressOutOfRange { address: addr, base });
        }
        let valid = width == 8 || width == 16 || width == 32 || width == 64;
        let index = addr - base;
        let len = self.dram.dram.len() as u64;
        if valid && (index > len || width / 8 > len - index) {
            return Err(EmulatorError::AddressOutOfRange { address: addr, base });
        }
        self.dram.load(addr, width)
    }

    /// Below the mapped base a bus load fails with `AddressOutOfRange`; at or
    /// above it, for an access inside the region, it yields what a direct
    /// load from memory at the same address yields.
    pub proof fn lemma_load_translates(&self, addr: u64, width: u64)
        ensures
            addr < self.dram.base ==> self.spec_load(addr, width) == Err::<u64, EmulatorError>(
                EmulatorError::AddressOutOfRange { address: addr, base: self.dram.base },
            ),
            self.dram.fits(addr, width) ==> self.spec_load(addr, width) == self.dram.spec_load(
                addr,
                width,
            ),
            is_valid_width(width) && self.dram.fits(addr, width) ==> self.spec_load(
                addr,
                width,
            ) is Ok,
    {
    }
}

} // verus!
