use riscv_runner::bus::Bus;
use riscv_runner::consts::{DRAM_BASE, DRAM_SIZE};
use riscv_runner::cpu::{Cpu, Diagnostic, Operation};
use riscv_runner::dram::Dram;
use riscv_runner::error::EmulatorError;
use riscv_runner::instruction::{decode, IType, Instruction, RType, SType, UType};

const BASE: u64 = 0x1000;

fn r_word(funct7: u32, rs2: u32, rs1: u32, funct3: u32, rd: u32) -> u32 {
    (funct7 << 25) | (rs2 << 20) | (rs1 << 15) | (funct3 << 12) | (rd << 7) | 0x33
}

fn i_word(imm: u32, rs1: u32, funct3: u32, rd: u32) -> u32 {
    (imm << 20) | (rs1 << 15) | (funct3 << 12) | (rd << 7) | 0x13
}

fn small_cpu() -> Cpu {
    Cpu::new(vec![], BASE, 64).unwrap()
}

#[test]
fn dram_new_zero_fills_and_copies_code() {
    let d = Dram::new(vec![1, 2, 3], BASE, 8).unwrap();
    assert_eq!(d.dram, vec![1, 2, 3, 0, 0, 0, 0, 0]);
    assert_eq!(d.base, BASE);
}

#[test]
fn dram_new_rejects_oversized_program() {
    let r = Dram::new(vec![0; 9], BASE, 8);
    assert_eq!(r.unwrap_err(), EmulatorError::ProgramTooLarge { len: 9, capacity: 8 });
}

#[test]
fn dram_new_accepts_program_of_exact_capacity() {
    let d = Dram::new(vec![7; 8], BASE, 8).unwrap();
    assert_eq!(d.dram, vec![7; 8]);
}

#[test]
fn dram_load_each_width_is_little_endian() {
    let code = vec![0x01, 0x02, 0x03, 0x04, 0x05, 0x06, 0x07, 0x08, 0x09];
    let d = Dram::new(code, BASE, 16).unwrap();
    assert_eq!(d.load(BASE, 8).unwrap(), 0x01);
    assert_eq!(d.load(BASE + 1, 16).unwrap(), 0x0302);
    assert_eq!(d.load(BASE, 32).unwrap(), 0x0403_0201);
    assert_eq!(d.load(BASE, 64).unwrap(), 0x0807_0605_0403_0201);
    assert_eq!(d.load(BASE + 1, 64).unwrap(), 0x0908_0706_0504_0302);
}

#[test]
fn dram_load_high_bytes_do_not_sign_extend() {
    let d = Dram::new(vec![0xff; 8], BASE, 8).unwrap();
    assert_eq!(d.load(BASE, 8).unwrap(), 0xff);
    assert_eq!(d.load(BASE, 16).unwrap(), 0xffff);
    assert_eq!(d.load(BASE, 32).unwrap(), 0xffff_ffff);
    assert_eq!(d.load(BASE, 64).unwrap(), u64::MAX);
}

#[test]
fn dram_load_rejects_unsupported_width() {
    let d = Dram::new(vec![1, 2, 3, 4], BASE, 8).unwrap();
    assert_eq!(d.load(BASE, 12).unwrap_err(), EmulatorError::InvalidWidth { width: 12 });
    assert_eq!(d.load(BASE, 0).unwrap_err(), EmulatorError::InvalidWidth { width: 0 });
}

#[test]
fn bus_rejects_address_below_base() {
    let b = Bus::new(vec![1, 2, 3, 4], BASE, 8).unwrap();
    assert_eq!(
        b.load(BASE - 1, 8).unwrap_err(),
        EmulatorError::AddressOutOfRange { address: BASE - 1, base: BASE }
    );
    assert_eq!(
        b.load(0, 32).unwrap_err(),
        EmulatorError::AddressOutOfRange { address: 0, base: BASE }
    );
}

#[test]
fn bus_rejects_access_past_end() {
    let b = Bus::new(vec![], BASE, 8).unwrap();
    assert_eq!(
        b.load(BASE + 5, 32).unwrap_err(),
        EmulatorError::AddressOutOfRange { address: BASE + 5, base: BASE }
    );
    assert_eq!(
        b.load(u64::MAX, 8).unwrap_err(),
        EmulatorError::AddressOutOfRange { address: u64::MAX, base: BASE }
    );
    assert_eq!(b.load(BASE + 4, 32).unwrap(), 0);
}

#[test]
fn bus_load_matches_memory_load() {
    let code = vec![0x10, 0x20, 0x30, 0x40, 0x50, 0x60, 0x70, 0x80];
    let b = Bus::new(code.clone(), BASE, 8).unwrap();
    let d = Dram::new(code, BASE, 8).unwrap();
    for width in [8u64, 16, 32, 64] {
        assert_eq!(b.load(BASE, width).unwrap(), d.load(BASE, width).unwrap());
    }
    assert_eq!(b.load(BASE + 2, 16).unwrap(), 0x4030);
    assert_eq!(b.load(BASE, 7).unwrap_err(), EmulatorError::InvalidWidth { width: 7 });
}

#[test]
fn bus_new_rejects_oversized_program() {
    let r = Bus::new(vec![0; 5], BASE, 4);
    assert_eq!(r.unwrap_err(), EmulatorError::ProgramTooLarge { len: 5, capacity: 4 });
}

#[test]
fn rtype_fields() {
    // sub x5, x6, x7
    let r = RType::new(r_word(0x20, 7, 6, 0, 5));
    assert_eq!(r, RType { rd: 5, funct3: 0, rs1: 6, rs2: 7, funct7: 0x20 });
}

#[test]
fn itype_fields_and_negative_immediate() {
    let i = IType::new(i_word(0xfff, 3, 0, 31));
    assert_eq!(i, IType { rd: 31, funct3: 0, rs1: 3, imm: u64::MAX });
    let i = IType::new(i_word(0x800, 0, 2, 1));
    assert_eq!(i.imm, 0xFFFF_FFFF_FFFF_F800);
    assert_eq!(i.funct3, 2);
    let i = IType::new(i_word(0x7ff, 0, 0, 1));
    assert_eq!(i.imm, 0x7ff);
}

#[test]
fn stype_fields() {
    // sd x2, 0x7ff(x1): imm[11:5] = 0x3f, imm[4:0] = 0x1f
    let w = (0x3f << 25) | (2 << 20) | (1 << 15) | (3 << 12) | (0x1f << 7) | 0x23;
    let s = SType::new(w);
    assert_eq!(s, SType { imm0: 0x1f, funct3: 3, rs1: 1, rs2: 2, imm1: 0x3f });
}

#[test]
fn utype_fields_and_sign_extension() {
    let u = UType::new(0x1234_50b7);
    assert_eq!(u, UType { rd: 1, imm: 0x1234_5000 });
    let u = UType::new(0x8000_0137);
    assert_eq!(u, UType { rd: 2, imm: 0xFFFF_FFFF_8000_0000 });
}

#[test]
fn decode_selects_format_by_opcode() {
    assert!(matches!(decode(0x0010_0093), Instruction::I(IType { rd: 1, funct3: 0, rs1: 0, imm: 1 })));
    assert!(matches!(decode(r_word(0, 2, 1, 0, 3)), Instruction::R(RType { rd: 3, rs1: 1, rs2: 2, .. })));
    assert_eq!(decode(0x0000_007f), Instruction::Unknown { opcode: 0x7f });
    assert_eq!(decode(0x1234_50b7), Instruction::Unknown { opcode: 0x37 });
}

#[test]
fn cpu_new_sets_pc_and_stack_pointer() {
    let c = Cpu::new(vec![0x93, 0, 0x10, 0], BASE, 64).unwrap();
    assert_eq!(c.pc, BASE);
    assert_eq!(c.regs[2], BASE + 64);
    for i in 0..32 {
        if i != 2 {
            assert_eq!(c.regs[i], 0);
        }
    }
    assert_eq!(c.bus.dram.dram.len(), 64);
}

#[test]
fn cpu_new_rejects_oversized_program() {
    let r = Cpu::new(vec![1; 65], BASE, 64);
    assert_eq!(r.unwrap_err(), EmulatorError::ProgramTooLarge { len: 65, capacity: 64 });
}

#[test]
fn addi_minus_one_wraps_zero_to_all_ones() {
    let mut c = small_cpu();
    let r = c.execute(i_word(0xfff, 0, 0, 1));
    assert_eq!(r, Ok(Operation::Addi));
    assert_eq!(c.regs[1], 0xFFFF_FFFF_FFFF_FFFF);
}

#[test]
fn addi_adds_sign_extended_immediate() {
    let mut c = small_cpu();
    c.regs[3] = 10;
    c.execute(i_word(0xffe, 3, 0, 4));
    assert_eq!(c.regs[4], 8);
    c.execute(i_word(0x7ff, 3, 0, 4));
    assert_eq!(c.regs[4], 10 + 0x7ff);
}

#[test]
fn div_by_zero_leaves_dividend() {
    let mut c = small_cpu();
    c.regs[1] = 42;
    c.regs[2] = 0;
    assert_eq!(c.execute(r_word(1, 2, 1, 4, 3)), Ok(Operation::Div));
    assert_eq!(c.regs[3], 42);
}

#[test]
fn rem_by_zero_leaves_dividend() {
    let mut c = small_cpu();
    c.regs[1] = 42;
    c.regs[2] = 0;
    assert_eq!(c.execute(r_word(1, 2, 1, 6, 3)), Ok(Operation::Rem));
    assert_eq!(c.regs[3], 42);
}

#[test]
fn div_and_rem_truncate() {
    let mut c = small_cpu();
    c.regs[1] = 43;
    c.regs[2] = 5;
    c.execute(r_word(1, 2, 1, 4, 3));
    assert_eq!(c.regs[3], 8);
    c.execute(r_word(1, 2, 1, 6, 4));
    assert_eq!(c.regs[4], 3);
}

#[test]
fn mul_overflow_wraps() {
    let mut c = small_cpu();
    c.regs[1] = 0xFFFF_FFFF_FFFF_FFFF;
    c.regs[2] = 2;
    assert_eq!(c.execute(r_word(1, 2, 1, 0, 3)), Ok(Operation::Mul));
    assert_eq!(c.regs[3], 0xFFFF_FFFF_FFFF_FFFE);
}

#[test]
fn add_and_sub_wrap() {
    let mut c = small_cpu();
    c.regs[1] = u64::MAX;
    c.regs[2] = 3;
    assert_eq!(c.execute(r_word(0, 2, 1, 0, 3)), Ok(Operation::Add));
    assert_eq!(c.regs[3], 2);
    c.regs[5] = 0;
    c.regs[6] = 1;
    assert_eq!(c.execute(r_word(0x20, 6, 5, 0, 7)), Ok(Operation::Sub));
    assert_eq!(c.regs[7], u64::MAX);
}

#[test]
fn sll_masks_shift_amount_to_six_bits() {
    let mut c = small_cpu();
    c.regs[1] = 1;
    c.regs[2] = 65;
    assert_eq!(c.execute(r_word(0, 2, 1, 1, 3)), Ok(Operation::Sll));
    assert_eq!(c.regs[3], 2);
    c.regs[2] = 63;
    c.execute(r_word(0, 2, 1, 1, 3));
    assert_eq!(c.regs[3], 1 << 63);
}

#[test]
fn write_to_register_zero_sticks() {
    let mut c = small_cpu();
    c.execute(i_word(5, 0, 0, 0));
    assert_eq!(c.regs[0], 5);
}

#[test]
fn unknown_opcode_is_reported_and_changes_nothing() {
    let mut c = Cpu::new(vec![0x7f, 0, 0, 0], BASE, 64).unwrap();
    c.regs[9] = 99;
    let before = c.regs;
    let w = c.fetch().unwrap();
    assert_eq!(w, 0x7f);
    assert_eq!(c.pc, BASE + 4);
    assert_eq!(c.execute(w), Err(Diagnostic::UnknownOpcode { opcode: 0x7f }));
    assert_eq!(c.regs, before);
    assert_eq!(c.pc, BASE + 4);
}

#[test]
fn unsupported_function_codes_are_reported() {
    let mut c = small_cpu();
    c.regs[1] = 7;
    let before = c.regs;
    assert_eq!(c.execute(i_word(1, 1, 4, 2)), Err(Diagnostic::InvalidFunct3 { funct3: 4 }));
    assert_eq!(
        c.execute(r_word(0x20, 1, 1, 1, 2)),
        Err(Diagnostic::InvalidFunct { funct3: 1, funct7: 0x20 })
    );
    assert_eq!(c.regs, before);
}

#[test]
fn fetch_advances_pc_even_when_halting() {
    let mut c = Cpu::new(vec![], BASE, 8).unwrap();
    assert_eq!(c.fetch().unwrap_err(), EmulatorError::InvalidInstruction);
    assert_eq!(c.pc, BASE + 4);
    assert_eq!(c.fetch().unwrap_err(), EmulatorError::InvalidInstruction);
    assert_eq!(c.pc, BASE + 8);
    assert_eq!(
        c.fetch().unwrap_err(),
        EmulatorError::AddressOutOfRange { address: BASE + 8, base: BASE }
    );
    assert_eq!(c.pc, BASE + 12);
}

#[test]
fn fetch_below_base_is_out_of_range() {
    let mut c = small_cpu();
    c.pc = BASE - 4;
    assert_eq!(
        c.fetch().unwrap_err(),
        EmulatorError::AddressOutOfRange { address: BASE - 4, base: BASE }
    );
    assert_eq!(c.pc, BASE);
}

#[test]
fn end_to_end_addi_then_halt() {
    let mut c = Cpu::new(vec![0x93, 0x00, 0x10, 0x00], DRAM_BASE, DRAM_SIZE).unwrap();
    let r = c.step().unwrap();
    assert_eq!(r, (0x0010_0093, Ok(Operation::Addi)));
    assert_eq!(c.regs[1], 1);
    assert_eq!(c.pc, DRAM_BASE + 4);
    assert_eq!(c.step().unwrap_err(), EmulatorError::InvalidInstruction);
    assert_eq!(c.pc, DRAM_BASE + 8);
    assert_eq!(c.regs[1], 1);
    assert_eq!(c.regs[2], DRAM_BASE + DRAM_SIZE);
}

#[test]
fn step_runs_a_small_program() {
    // addi x1, x0, 6; addi x2, x0, 7; mul x3, x1, x2
    let words = [i_word(6, 0, 0, 1), i_word(7, 0, 0, 2), r_word(1, 2, 1, 0, 3)];
    let mut code = Vec::new();
    for w in words {
        code.extend_from_slice(&w.to_le_bytes());
    }
    let mut c = Cpu::new(code, BASE, 64).unwrap();
    let mut steps = 0;
    while c.step().is_ok() {
        steps += 1;
    }
    assert_eq!(steps, 3);
    assert_eq!(c.regs[3], 42);
    assert_eq!(c.pc, BASE + 16);
}
