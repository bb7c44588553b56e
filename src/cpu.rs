use vstd::prelude::*;

use crate::bus::Bus;
use crate::dram::loaded_image;
use crate::error::EmulatorError;
use crate::instruction::{
    decode, funct3_of, funct7_of, i_imm_of, opcode_of, rd_of, rs1_of, rs2_of, spec_decode,
    Instruction,
};

verus! {

/// The operations this core executes.
#[derive(Debug, Clone, Copy, PartialEq, Eq, Structural)]
pub enum Operation {
    Addi,
    Add,
    Mul,
    Sub,
    Sll,
    Div,
    Rem,
}

/// Why an instruction word was not executed. Each is recoverable: the
/// registers stay as they were and execution goes on with the next word.
#[derive(Debug, Clone, Copy, PartialEq, Eq, Structural)]
pub enum Diagnostic {
    /// The opcode belongs to no supported group.
    UnknownOpcode { opcode: u32 },
    /// The register-immediate group has no operation for this `funct3`.
    InvalidFunct3 { funct3: u32 },
    /// The register-register group has no operation for this pair.
    InvalidFunct { funct3: u32, funct7: u32 },
}

/// The register-immediate operation selected by `funct3`.
pub open spec fn i_operation(funct3: u32) -> Option<Operation> {
    if funct3 == 0 {
        Some(Operation::Addi)
    } else {
        None
    }
}

/// The register-register operation selected by `(funct3, funct7)`.
pub open spec fn r_operation(funct3: u32, funct7: u32) -> Option<Operation> {
    if funct3 == 0x0 && funct7 == 0x00 {
        Some(Operation::Add)
    } else if funct3 == 0x0 && funct7 == 0x01 {
        Some(Operation::Mul)
    } else if funct3 == 0x0 && funct7 == 0x20 {
        Some(Operation::Sub)
    } else if funct3 == 0x1 && funct7 == 0x00 {
        Some(Operation::Sll)
    } else if funct3 == 0x4 && funct7 == 0x01 {
        Some(Operation::Div)
    } else if funct3 == 0x6 && funct7 == 0x01 {
        Some(Operation::Rem)
    } else {
        None
    }
}

/// What executing the word `w` does: the operation it selects, or why it
/// is not executed.
pub open spec fn spec_dispatch(w: u32) -> Result<Operation, Diagnostic> {
    match spec_decode(w) {
        Instruction::I(i) => match i_operation(i.funct3) {
            Some(op) => Ok(op),
            None => Err(Diagnostic::InvalidFunct3 { funct3: i.funct3 }),
        },
        Instruction::R(r) => match r_operation(r.funct3, r.funct7) {
            Some(op) => Ok(op),
            None => Err(Diagnostic::InvalidFunct { funct3: r.funct3, funct7: r.funct7 }),
        },
        Instruction::Unknown { opcode } => Err(Diagnostic::UnknownOpcode { opcode }),
    }
}

/// `x` reduced modulo 2^64.
pub open spec fn wrap64(x: int) -> u64 {
    (x % 0x1_0000_0000_0000_0000) as u64
}

/// The value `op` writes to the destination register, from the first
/// source register's value `a` and the second operand `b` (the second
/// source register's value, or the immediate for `Addi`). Arithmetic wraps
/// modulo 2^64; a division by zero yields the dividend.
pub open spec fn operation_value(op: Operation, a: u64, b: u64) -> u64 {
    match op {
        Operation::Addi | Operation::Add => wrap64(a + b),
        Operation::Sub => wrap64(a - b),
        Operation::Mul => wrap64(a * b),
        Operation::Sll => a << (b & 0x3f),
        Operation::Div => if b == 0 {
            a
        } else {
            a / b
        },
        Operation::Rem => if b == 0 {
            a
        } else {
            a % b
        },
    }
}

/// The second operand of `w` against the registers `regs`: the immediate
/// in the register-immediate group, else the value of register `rs2`.
pub open spec fn second_operand(regs: Seq<u64>, w: u32) -> u64 {
    if opcode_of(w) == 0x13 {
        i_imm_of(w)
    } else {
        regs[rs2_of(w) as int]
    }
}

/// The registers after executing `w` against `regs`. Register 0 is not
/// special: a write to it sticks.
pub open spec fn next_regs(regs: Seq<u64>, w: u32) -> Seq<u64> {
    match spec_dispatch(w) {
        Ok(op) => regs.update(
            rd_of(w) as int,
            operation_value(op, regs[rs1_of(w) as int], second_operand(regs, w)),
        ),
        Err(_) => regs,
    }
}

/// What a fetch returns, given what the bus load at the program counter
/// returned: the all-zero word ends the program.
pub open spec fn fetch_result(load: Result<u64, EmulatorError>) -> Result<u32, EmulatorError> {
    match load {
        Ok(v) => if v == 0 {
            Err(EmulatorError::InvalidInstruction)
        } else {
            Ok(v as u32)
        },
        Err(e) => Err(e),
    }
}

/// Looks up the register-register operation for `(funct3, funct7)`.
fn lookup_r_operation(funct3: u32, funct7: u32) -> (r: Option<Operation>)
    ensures
        r == r_operation(funct3, funct7),
{
    match (funct3, funct7) {
        (0x0, 0x00) => Some(Operation::Add),
        (0x0, 0x01) => Some(Operation::Mul),
        (0x0, 0x20) => Some(Operation::Sub),
        (0x1, 0x00) => Some(Operation::Sll),
        (0x4, 0x01) => Some(Operation::Div),
        (0x6, 0x01) => Some(Operation::Rem),
        _ => None,
    }
}

proof fn lemma_shift_amount(a: u64, b: u64)
    by (bit_vector)
    ensures
        a << (((b & 0x3f) as u32) % 64) == a << (b & 0x3f),
{
}

/// Computes what `op` writes to its destination register.
fn apply(op: Operation, a: u64, b: u64) -> (r: u64)
    ensures
        r == operation_value(op, a, b),
{
    match op {
        Operation::Addi | Operation::Add => a.wrapping_add(b),
        Operation::Sub => a.wrapping_sub(b),
        Operation::Mul => a.wrapping_mul(b),
        Operation::Sll => {
            let shamt = (b & 0x3f) as u32;
            proof {
                lemma_shift_amount(a, b);
            }
            a.wrapping_shl(shamt)
        },
        Operation::Div => if b == 0 {
            a
        } else {
            a / b
        },
        Operation::Rem => if b == 0 {
            a
        } else {
            a % b
        },
    }
}

/// A single-hart RV64 core: 32 general-purpose registers, the program
/// counter, and the bus through which it fetches. Register 0 is an ordinary
/// register here: it is not wired to zero, and what is written to it stays.
#[derive(Debug)]
pub struct Cpu {
    pub regs: [u64; 32],
    pub pc: u64,
    pub bus: Bus,
}

impl Cpu {
    /// The bus, and so the memory behind it, is well formed.
    pub open spec fn wf(&self) -> bool {
        self.bus.wf()
    }

    /// A core whose memory of `size` bytes at `base` holds `code` at its
    /// start. The program counter starts at `base`, register 2 (the stack
    /// pointer) at the end of memory, every other register at zero. Fails
    /// when `code` is longer than the memory.
    pub fn new(code: Vec<u8>, base: u64, size: u64) -> (r: Result<Cpu, EmulatorError>)
        requires
            base + size <= u64::MAX,
            size <= usize::MAX,
        ensures
            match r {
                Ok(c) => {
                    &&& code@.len() <= size
                    &&& c.pc == base
                    &&& c.regs@ == Seq::new(
                        32,
                        |i: int| if i == 2 { (base + size) as u64 } else { 0u64 },
                    )
                    &&& c.bus.dram.base == base
                    &&& c.bus.dram.dram@ == loaded_image(code@, size)
                    &&& c.wf()
                },
                Err(e) => code@.len() > size && e == (EmulatorError::ProgramTooLarge {
                    len: code@.len() as usize,
                    capacity: size,
                }),
            },
    {
        let bus = match Bus::new(code, base, size) {
            Ok(b) => b,
            Err(e) => return Err(e),
        };
        let mut regs = [0u64; 32];
        regs[2] = base + size;
        let c = Cpu { regs, pc: base, bus };
        assert(c.regs@ =~= Seq::new(
            32,
            |i: int| if i == 2 { (base + size) as u64 } else { 0u64 },
        ));
        Ok(c)
    }

    /// Reads the 32-bit word at the program counter and advances the
    /// counter by 4, whether or not the read succeeds. An address the bus
    /// rejects, or the all-zero word, ends execution.
    pub fn fetch(&mut self) -> (r: Result<u32, EmulatorError>)
        requires
            old(self).wf(),
            old(self).pc + 4 <= u64::MAX,
        ensures
            final(self).pc == old(self).pc + 4,
            final(self).regs == old(self).regs,
            final(self).bus == old(self).bus,
            r == fetch_result(old(self).bus.spec_load(old(self).pc, 32)),
    {
        let curr_pc = self.pc;
        self.pc = self.pc + 4;
        match self.bus.load(curr_pc, 32) {
            Ok(v) => {
                if v == 0 {
                    Err(EmulatorError::InvalidInstruction)
                } else {
                    Ok(v as u32)
                }
            },
            Err(e) => Err(e),
        }
    }

    /// Decodes and executes `inst` against the registers. An opcode or
    /// function code that selects no operation leaves every register as it
    /// was and is reported back. The program counter is not touched here.
    pub fn execute(&mut self, inst: u32) -> (r: Result<Operation, Diagnostic>)
        ensures
            r == spec_dispatch(inst),
            final(self).regs@ == next_regs(old(self).regs@, inst),
            final(self).pc == old(self).pc,
            final(self).bus == old(self).bus,
    {
        match decode(inst) {
            Instruction::I(i) => {
                if i.funct3 == 0 {
                    let v = apply(Operation::Addi, self.regs[i.rs1], i.imm);
                    self.regs[i.rd] = v;
                    Ok(Operation::Addi)
                } else {
                    Err(Diagnostic::InvalidFunct3 { funct3: i.funct3 })
                }
            },
            Instruction::R(r) => match lookup_r_operation(r.funct3, r.funct7) {
                Some(op) => {
                    let v = apply(op, self.regs[r.rs1], self.regs[r.rs2]);
                    self.regs[r.rd] = v;
                    Ok(op)
                },
                None => Err(Diagnostic::InvalidFunct { funct3: r.funct3, funct7: r.funct7 }),
            },
            Instruction::Unknown { opcode } => Err(Diagnostic::UnknownOpcode { opcode }),
        }
    }

    /// One fetch-decode-execute cycle. A failed fetch halts: its error is
    /// returned and no register changes. Otherwise the fetched word is
    /// executed, and returned with what came of executing it. Either way
    /// the program counter has advanced by 4.
    pub fn step(&mut self) -> (r: Result<(u32, Result<Operation, Diagnostic>), EmulatorError>)
        requires
            old(self).wf(),
            old(self).pc + 4 <= u64::MAX,
        ensures
            final(self).pc == old(self).pc + 4,
            final(self).bus == old(self).bus,
            match fetch_result(old(self).bus.spec_load(old(self).pc, 32)) {
                Ok(w) => {
                    &&& r == Ok::<(u32, Result<Operation, Diagnostic>), EmulatorError>(
                        (w, spec_dispatch(w)),
                    )
                    &&& final(self).regs@ == next_regs(old(self).regs@, w)
                },
                Err(e) => {
                    &&& r == Err::<(u32, Result<Operation, Diagnostic>), EmulatorError>(e)
                    &&& final(self).regs == old(self).regs
                },
            },
    {
        match self.fetch() {
            Ok(inst) => {
                let outcome = self.execute(inst);
                Ok((inst, outcome))
            },
            Err(e) => Err(e),
        }
    }
}

/// The signed value of the 12-bit immediate in bits [20, 32) of `w`.
pub open spec fn i_imm_signed(w: u32) -> int {
    let raw = w / 0x10_0000;
    if raw < 0x800 {
        raw as int
    } else {
        raw - 0x1000
    }
}

/// After `ADDI rd, rs1, imm`, register `rd` holds the value of `rs1` plus the
/// sign-extended immediate, modulo 2^64.
pub proof fn lemma_addi(regs: Seq<u64>, w: u32)
    requires
        regs.len() == 32,
        opcode_of(w) == 0x13,
        funct3_of(w) == 0,
    ensures
        spec_dispatch(w) == Ok::<Operation, Diagnostic>(Operation::Addi),
        next_regs(regs, w)[rd_of(w) as int] as int == (regs[rs1_of(w) as int] + i_imm_signed(w))
            % 0x1_0000_0000_0000_0000,
{
    let a = regs[rs1_of(w) as int] as int;
    let raw = (w / 0x10_0000) as int;
    let m = 0x1_0000_0000_0000_0000int;
    if raw >= 0x800 {
        assert((a + raw + 0xFFFF_FFFF_FFFF_F000) % m == (a + (raw - 0x1000)) % m) by {
            vstd::arithmetic::div_mod::lemma_mod_add_multiples_vanish(a + raw - 0x1000, m);
        }
    }
}

/// A division or remainder by zero leaves the dividend, the value of `rs1`,
/// in `rd`.
pub proof fn lemma_divide_by_zero(regs: Seq<u64>, w: u32)
    requires
        regs.len() == 32,
        spec_dispatch(w) == Ok::<Operation, Diagnostic>(Operation::Div) || spec_dispatch(w)
            == Ok::<Operation, Diagnostic>(Operation::Rem),
        regs[rs2_of(w) as int] == 0,
    ensures
        next_regs(regs, w)[rd_of(w) as int] == regs[rs1_of(w) as int],
{
}

/// A multiplication keeps the low 64 bits of the product: it wraps, with
/// no fault and no saturation.
pub proof fn lemma_mul_wraps(regs: Seq<u64>, w: u32)
    requires
        regs.len() == 32,
        spec_dispatch(w) == Ok::<Operation, Diagnostic>(Operation::Mul),
    ensures
        next_regs(regs, w)[rd_of(w) as int] as int == (regs[rs1_of(w) as int] * regs[rs2_of(
            w,
        ) as int]) % 0x1_0000_0000_0000_0000,
{
}

proof fn lemma_low_six_bits(b: u64)
    by (bit_vector)
    ensures
        b & 0x3f == b % 64,
{
}

/// A left shift by register shifts by the low 6 bits of `rs2` only.
pub proof fn lemma_sll_masks_amount(regs: Seq<u64>, w: u32)
    requires
        regs.len() == 32,
        spec_dispatch(w) == Ok::<Operation, Diagnostic>(Operation::Sll),
    ensures
        next_regs(regs, w)[rd_of(w) as int] == regs[rs1_of(w) as int] << (regs[rs2_of(w) as int]
            % 64),
{
    lemma_low_six_bits(regs[rs2_of(w) as int]);
}

/// A word whose opcode is neither 0x13 nor 0x33 is reported as an unknown
/// opcode and changes no register.
pub proof fn lemma_unknown_opcode_is_noop(regs: Seq<u64>, w: u32)
    requires
        opcode_of(w) != 0x13,
        opcode_of(w) != 0x33,
    ensures
        spec_dispatch(w) == Err::<Operation, Diagnostic>(
            Diagnostic::UnknownOpcode { opcode: opcode_of(w) },
        ),
        next_regs(regs, w) == regs,
{
}

} // verus!
