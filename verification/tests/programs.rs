//! Programs run through the full hart loop, covering the jumps, branches,
//! memory accesses and 32-bit operations.

use riscv_emulator::constants::DRAM_BASE;
use riscv_emulator::emulator::{Cpu, RunOutcome};

fn op_imm(funct3: u32, rd: u32, rs1: u32, imm12: u32) -> u32 {
    ((imm12 & 0xFFF) << 20) | (rs1 << 15) | (funct3 << 12) | (rd << 7) | 0x13
}

fn addi(rd: u32, rs1: u32, imm: i32) -> u32 {
    op_imm(0x0, rd, rs1, imm as u32)
}

fn op(funct3: u32, funct7: u32, rd: u32, rs1: u32, rs2: u32) -> u32 {
    (funct7 << 25) | (rs2 << 20) | (rs1 << 15) | (funct3 << 12) | (rd << 7) | 0x33
}

fn op32(funct3: u32, funct7: u32, rd: u32, rs1: u32, rs2: u32) -> u32 {
    (funct7 << 25) | (rs2 << 20) | (rs1 << 15) | (funct3 << 12) | (rd << 7) | 0x3B
}

fn addiw(rd: u32, rs1: u32, imm: i32) -> u32 {
    (((imm as u32) & 0xFFF) << 20) | (rs1 << 15) | (rd << 7) | 0x1B
}

fn load(funct3: u32, rd: u32, rs1: u32, imm: i32) -> u32 {
    (((imm as u32) & 0xFFF) << 20) | (rs1 << 15) | (funct3 << 12) | (rd << 7) | 0x03
}

fn store(funct3: u32, rs2: u32, rs1: u32, imm: i32) -> u32 {
    let imm = imm as u32;
    ((imm >> 5) << 25) | (rs2 << 20) | (rs1 << 15) | (funct3 << 12) | ((imm & 0x1F) << 7) | 0x23
}

fn branch(funct3: u32, rs1: u32, rs2: u32, offset: i32) -> u32 {
    let imm = offset as u32;
    (((imm >> 12) & 0x1) << 31) | (((imm >> 5) & 0x3F) << 25) | (rs2 << 20) | (rs1 << 15)
        | (funct3 << 12) | (((imm >> 1) & 0xF) << 8) | (((imm >> 11) & 0x1) << 7) | 0x63
}

fn jal(rd: u32, offset: i32) -> u32 {
    let imm = offset as u32;
    (((imm >> 20) & 0x1) << 31) | (((imm >> 1) & 0x3FF) << 21) | (((imm >> 11) & 0x1) << 20)
        | (((imm >> 12) & 0xFF) << 12) | (rd << 7) | 0x6F
}

fn jalr(rd: u32, rs1: u32, imm: i32) -> u32 {
    (((imm as u32) & 0xFFF) << 20) | (rs1 << 15) | (rd << 7) | 0x67
}

fn auipc(rd: u32, imm20: u32) -> u32 {
    (imm20 << 12) | (rd << 7) | 0x17
}

fn image(words: &[u32]) -> Vec<u8> {
    let mut bytes = Vec::new();
    for w in words.iter() {
        bytes.extend_from_slice(&w.to_le_bytes());
    }
    bytes
}

fn run_program(words: &[u32]) -> Cpu {
    let mut cpu = Cpu::new(image(words));
    assert_eq!(cpu.run(1000), RunOutcome::Halted);
    cpu
}

#[test]
fn test_branch_taken_skips_instruction() {
    // x1 = 1; if x1 == x2 nothing is skipped; if x1 != x2 the poison write
    // to x3 is jumped over.
    let cpu = run_program(&[
        addi(1, 0, 1),
        branch(0x1, 1, 2, 8), // bne x1, x2, +8
        addi(3, 0, 99),       // skipped
        addi(4, 0, 7),
    ]);
    assert_eq!(cpu.regs[3], 0);
    assert_eq!(cpu.regs[4], 7);
}

#[test]
fn test_branch_not_taken_falls_through() {
    let cpu = run_program(&[
        addi(1, 0, 1),
        branch(0x0, 1, 2, 8), // beq x1, x2, +8: x1 != x2, falls through
        addi(3, 0, 99),
        addi(4, 0, 7),
    ]);
    assert_eq!(cpu.regs[3], 99);
    assert_eq!(cpu.regs[4], 7);
}

#[test]
fn test_blt_is_signed_bltu_unsigned() {
    // x1 = -1, x2 = 1: signed -1 < 1, unsigned 0xFFFF... > 1.
    let cpu = run_program(&[
        addi(1, 0, -1),
        addi(2, 0, 1),
        op(0x2, 0, 3, 1, 2), // slt x3, x1, x2 = 1
        op(0x3, 0, 4, 1, 2), // sltu x4, x1, x2 = 0
    ]);
    assert_eq!(cpu.regs[3], 1);
    assert_eq!(cpu.regs[4], 0);
}

#[test]
fn test_jal_links_and_jumps() {
    let cpu = run_program(&[
        jal(1, 8),      // to the third instruction, x1 = return address
        addi(3, 0, 99), // skipped
        addi(4, 0, 7),
    ]);
    assert_eq!(cpu.regs[1], DRAM_BASE + 4);
    assert_eq!(cpu.regs[3], 0);
    assert_eq!(cpu.regs[4], 7);
}

#[test]
fn test_jalr_masks_low_bit() {
    // x5 = start of the fourth instruction plus one; jalr clears bit 0.
    let mut cpu = Cpu::new(image(&[
        addi(0, 0, 0),  // nop
        jalr(1, 5, 0),
        addi(3, 0, 99), // skipped
        addi(4, 0, 7),
    ]));
    cpu.regs[5] = DRAM_BASE + 13; // odd target: bit 0 is dropped
    assert_eq!(cpu.run(1000), RunOutcome::Halted);
    assert_eq!(cpu.regs[1], DRAM_BASE + 8);
    assert_eq!(cpu.regs[3], 0);
    assert_eq!(cpu.regs[4], 7);
}

#[test]
fn test_auipc_is_pc_relative() {
    let cpu = run_program(&[addi(1, 0, 0), auipc(2, 1)]);
    assert_eq!(cpu.regs[2], DRAM_BASE + 4 + 0x1000);
}

#[test]
fn test_load_store_roundtrip_in_dram() {
    // x2 starts one past the end of DRAM: store doubleword below the stack
    // pointer, read it back in pieces.
    let cpu = run_program(&[
        addi(1, 0, 0x7F),
        op_imm(0x1, 1, 1, 56),  // slli x1, x1, 56
        op_imm(0x5, 1, 1, 8),   // srli x1, x1, 8: x1 = 0x007F_0000_0000_0000
        addi(1, 1, 0x55),
        store(0x3, 1, 2, -8),   // sd x1, -8(x2)
        load(0x3, 3, 2, -8),    // ld x3, -8(x2)
        load(0x0, 4, 2, -8),    // lb x4, -8(x2) = 0x55
        load(0x4, 5, 2, -2),    // lbu x5, -2(x2) = 0x7F
    ]);
    assert_eq!(cpu.regs[3], 0x007F_0000_0000_0055);
    assert_eq!(cpu.regs[4], 0x55);
    assert_eq!(cpu.regs[5], 0x7F);
}

#[test]
fn test_lb_sign_extends_lbu_does_not() {
    let cpu = run_program(&[
        addi(1, 0, -1),      // x1 = 0xFF...FF
        store(0x0, 1, 2, -1), // sb x1, -1(x2)
        load(0x0, 3, 2, -1),  // lb: sign-extended
        load(0x4, 4, 2, -1),  // lbu: zero-extended
    ]);
    assert_eq!(cpu.regs[3], u64::MAX);
    assert_eq!(cpu.regs[4], 0xFF);
}

#[test]
fn test_op32_truncates_and_sign_extends() {
    let cpu = run_program(&[
        addi(1, 0, 1),
        op_imm(0x1, 1, 1, 31),   // slli x1, x1, 31: x1 = 0x8000_0000
        addiw(3, 1, 0),          // addiw x3, x1, 0 = sign-extended low word
        op32(0x0, 0, 4, 1, 1),   // addw x4, x1, x1 = 0 (wraps in 32 bits)
        op32(0x5, 0x20, 5, 1, 0),// sraw x5, x1, x0 = sign-extended
    ]);
    assert_eq!(cpu.regs[3], 0xFFFF_FFFF_8000_0000);
    assert_eq!(cpu.regs[4], 0);
    assert_eq!(cpu.regs[5], 0xFFFF_FFFF_8000_0000);
}

#[test]
fn test_sub_and_shifts_by_register() {
    let cpu = run_program(&[
        addi(1, 0, 5),
        addi(2, 0, 3),
        op(0x0, 0x20, 3, 1, 2), // sub x3, x1, x2 = 2
        op(0x0, 0x20, 4, 2, 1), // sub x4, x2, x1 = -2
        op(0x1, 0, 5, 1, 2),    // sll x5, x1, x2 = 40
        op(0x5, 0x20, 6, 4, 2), // sra x6, x4, x2 = -1
    ]);
    assert_eq!(cpu.regs[3], 2);
    assert_eq!(cpu.regs[4], (-2i64) as u64);
    assert_eq!(cpu.regs[5], 40);
    assert_eq!(cpu.regs[6], u64::MAX);
}

#[test]
fn test_fence_is_a_nop() {
    let fence: u32 = 0x0000_000F;
    let cpu = run_program(&[addi(1, 0, 4), fence, addi(3, 0, 6)]);
    assert_eq!(cpu.regs[1], 4);
    assert_eq!(cpu.regs[3], 6);
    assert_eq!(cpu.pc, DRAM_BASE + 12);
}
