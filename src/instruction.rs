use vstd::prelude::*;

verus! {

/// Bits [0, 7) of an instruction word.
pub open spec fn opcode_of(w: u32) -> u32 {
    w % 0x80
}

/// Bits [7, 12).
pub open spec fn rd_of(w: u32) -> u32 {
    (w / 0x80) % 0x20
}

/// Bits [12, 15).
pub open spec fn funct3_of(w: u32) -> u32 {
    (w / 0x1000) % 0x8
}

/// Bits [15, 20).
pub open spec fn rs1_of(w: u32) -> u32 {
    (w / 0x8000) % 0x20
}

/// Bits [20, 25).
pub open spec fn rs2_of(w: u32) -> u32 {
    (w / 0x10_0000) % 0x20
}

/// Bits [25, 32).
pub open spec fn funct7_of(w: u32) -> u32 {
    w / 0x200_0000
}

/// Bits [20, 32) read as a two's-complement 12-bit number and sign-extended
/// to 64 bits.
pub open spec fn i_imm_of(w: u32) -> u64 {
    let raw = w / 0x10_0000;
    if raw < 0x800 {
        raw as u64
    } else {
        (raw + 0xFFFF_FFFF_FFFF_F000) as u64
    }
}

/// Bits [12, 32) in place, the low 12 bits zero, sign-extended from bit 31
/// to 64 bits.
pub open spec fn u_imm_of(w: u32) -> u64 {
    let raw = (w / 0x1000) * 0x1000;
    if raw < 0x8000_0000 {
        raw as u64
    } else {
        (raw + 0xFFFF_FFFF_0000_0000) as u64
    }
}

proof fn lemma_fields(w: u32)
    by (bit_vector)
    ensures
        w & 0x7f == w % 0x80,
        (w >> 7) & 0x1f == (w / 0x80) % 0x20,
        (w >> 12) & 0x7 == (w / 0x1000) % 0x8,
        (w >> 15) & 0x1f == (w / 0x8000) % 0x20,
        (w >> 20) & 0x1f == (w / 0x10_0000) % 0x20,
        (w >> 25) & 0x7f == w / 0x200_0000,
        w >> 20 == w / 0x10_0000,
        w & 0xffff_f000 == (w / 0x1000) * 0x1000,
{
}

proof fn lemma_sign_extend(raw: u64, sign: u64, high: u64)
    by (bit_vector)
    requires
        (sign == 0x800 && high == 0xFFFF_FFFF_FFFF_F000) || (sign == 0x8000_0000 && high
            == 0xFFFF_FFFF_0000_0000),
        raw < sign * 2,
    ensures
        raw & sign == 0 <==> raw < sign,
        raw >= sign ==> raw | high == raw + high,
{
}

/// The fields of a register-register instruction.
#[derive(Debug, Clone, Copy, PartialEq, Eq, Structural)]
pub struct RType {
    pub rd: usize,
    pub funct3: u32,
    pub rs1: usize,
    pub rs2: usize,
    pub funct7: u32,
}

impl RType {
    /// Splits `inst` into the register-register fields.
    pub fn new(inst: u32) -> (r: Self)
        ensures
            r.rd == rd_of(inst),
            r.funct3 == funct3_of(inst),
            r.rs1 == rs1_of(inst),
            r.rs2 == rs2_of(inst),
            r.funct7 == funct7_of(inst),
    {
        proof {
            lemma_fields(inst);
        }
        let rd = ((inst >> 7) & 0x1f) as usize;
        let funct3 = (inst >> 12) & 0x7;
        let rs1 = ((inst >> 15) & 0x1f) as usize;
        let rs2 = ((inst >> 20) & 0x1f) as usize;
        let funct7 = (inst >> 25) & 0x7f;
        RType { rd, funct3, rs1, rs2, funct7 }
    }
}

/// The fields of a register-immediate instruction.
#[derive(Debug, Clone, Copy, PartialEq, Eq, Structural)]
pub struct IType {
    pub rd: usize,
    pub funct3: u32,
    pub rs1: usize,
    pub imm: u64,
}

impl IType {
    /// Splits `inst` into the register-immediate fields, sign-extending the
    /// 12-bit immediate.
    pub fn new(inst: u32) -> (r: Self)
        ensures
            r.rd == rd_of(inst),
            r.funct3 == funct3_of(inst),
            r.rs1 == rs1_of(inst),
            r.imm == i_imm_of(inst),
    {
        proof {
            lemma_fields(inst);
        }
        let rd = ((inst >> 7) & 0x1f) as usize;
        let funct3 = (inst >> 12) & 0x7;
        let rs1 = ((inst >> 15) & 0x1f) as usize;
        let raw = (inst >> 20) as u64;
        proof {
            lemma_sign_extend(raw, 0x800, 0xFFFF_FFFF_FFFF_F000);
        }
        let imm = if raw & 0x800 == 0 {
            raw
        } else {
            raw | 0xFFFF_FFFF_FFFF_F000
        };
        IType { rd, funct3, rs1, imm }
    }
}

/// The fields of a store instruction.
#[derive(Debug, Clone, Copy, PartialEq, Eq, Structural)]
pub struct SType {
    pub imm0: usize,
    pub funct3: u32,
    pub rs1: usize,
    pub rs2: usize,
    pub imm1: u32,
}

impl SType {
    /// Splits `inst` into the store fields: the low immediate bits sit where
    /// an R-type keeps `rd`, the high ones where it keeps `funct7`.
    pub fn new(inst: u32) -> (r: Self)
        ensures
            r.imm0 == rd_of(inst),
            r.funct3 == funct3_of(inst),
            r.rs1 == rs1_of(inst),
            r.rs2 == rs2_of(inst),
            r.imm1 == funct7_of(inst),
    {
        proof {
            lemma_fields(inst);
        }
        let imm0 = ((inst >> 7) & 0x1f) as usize;
        let funct3 = (inst >> 12) & 0x7;
        let rs1 = ((inst >> 15) & 0x1f) as usize;
        let rs2 = ((inst >> 20) & 0x1f) as usize;
        let imm1 = (inst >> 25) & 0x7f;
        SType { imm0, funct3, rs1, rs2, imm1 }
    }
}

/// The fields of an upper-immediate instruction.
#[derive(Debug, Clone, Copy, PartialEq, Eq, Structural)]
pub struct UType {
    pub rd: usize,
    pub imm: u64,
}

impl UType {
    /// Splits `inst` into the upper-immediate fields, sign-extending the
    /// 32-bit immediate.
    pub fn new(inst: u32) -> (r: Self)
        ensures
            r.rd == rd_of(inst),
            r.imm == u_imm_of(inst),
    {
        proof {
            lemma_fields(inst);
        }
        let rd = ((inst >> 7) & 0x1f) as usize;
        let raw = (inst & 0xffff_f000) as u64;
        proof {
            lemma_sign_extend(raw, 0x8000_0000, 0xFFFF_FFFF_0000_0000);
        }
        let imm = if raw & 0x8000_0000 == 0 {
            raw
        } else {
            raw | 0xFFFF_FFFF_0000_0000
        };
        UType { rd, imm }
    }
}

/// A decoded instruction word: the field layout its opcode selects.
#[derive(Debug, Clone, Copy, PartialEq, Eq, Structural)]
pub enum Instruction {
    /// Opcode 0x33: integer register-register group, multiply and divide
    /// included.
    R(RType),
    /// Opcode 0x13: integer register-immediate group.
    I(IType),
    /// Any other opcode: nothing here executes it.
    Unknown { opcode: u32 },
}

/// The decoding of `w`, selected by its opcode alone.
pub open spec fn spec_decode(w: u32) -> Instruction {
    if opcode_of(w) == 0x13 {
        Instruction::I(
            IType {
                rd: rd_of(w) as usize,
                funct3: funct3_of(w),
                rs1: rs1_of(w) as usize,
                imm: i_imm_of(w),
            },
        )
    } else if opcode_of(w) == 0x33 {
        Instruction::R(
            RType {
                rd: rd_of(w) as usize,
                funct3: funct3_of(w),
                rs1: rs1_of(w) as usize,
                rs2: rs2_of(w) as usize,
                funct7: funct7_of(w),
            },
        )
    } else {
        Instruction::Unknown { opcode: opcode_of(w) }
    }
}

/// Decodes `inst` by its opcode field into one of the supported layouts.
pub fn decode(inst: u32) -> (r: Instruction)
    ensures
        r == spec_decode(inst),
{
    proof {
        lemma_fields(inst);
    }
    let opcode = inst & 0x7f;
    match opcode {
        0x13 => Instruction::I(IType::new(inst)),
        0x33 => Instruction::R(RType::new(inst)),
        _ => Instruction::Unknown { opcode },
    }
}

} // verus!
