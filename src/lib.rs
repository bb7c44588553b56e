//! A small RV64I/M emulator core: a byte-addressable memory, a bus that maps
//! it into the address space, an instruction decoder and a CPU that executes
//! the decoded instructions against its register file.
pub mod consts;
pub mod dram;
pub mod error;
pub mod instruction;
pub mod bus;
pub mod cpu;
