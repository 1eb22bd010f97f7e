//! Executor tests driven through `Cpu::decode` and `Cpu::execute` on
//! hand-assembled RV64I instruction words.

use riscv_emulator::emulator::Cpu;

/// `ADDI rd, rs1, imm` (also the encoder for the other OP-IMM forms via
/// `funct3` and a raw 12-bit immediate).
fn enc_op_imm(funct3: u32, rd: u32, rs1: u32, imm12: u32) -> u32 {
    ((imm12 & 0xFFF) << 20) | (rs1 << 15) | (funct3 << 12) | (rd << 7) | 0x13
}

fn addi(rd: u32, rs1: u32, imm: i32) -> u32 {
    enc_op_imm(0x0, rd, rs1, imm as u32)
}

fn slli(rd: u32, rs1: u32, shamt: u32) -> u32 {
    enc_op_imm(0x1, rd, rs1, shamt)
}

fn slti(rd: u32, rs1: u32, imm: i32) -> u32 {
    enc_op_imm(0x2, rd, rs1, imm as u32)
}

fn sltiu(rd: u32, rs1: u32, imm: i32) -> u32 {
    enc_op_imm(0x3, rd, rs1, imm as u32)
}

fn xori(rd: u32, rs1: u32, imm: i32) -> u32 {
    enc_op_imm(0x4, rd, rs1, imm as u32)
}

fn srli(rd: u32, rs1: u32, shamt: u32) -> u32 {
    enc_op_imm(0x5, rd, rs1, shamt)
}

fn srai(rd: u32, rs1: u32, shamt: u32) -> u32 {
    enc_op_imm(0x5, rd, rs1, 0x400 | shamt)
}

fn ori(rd: u32, rs1: u32, imm: i32) -> u32 {
    enc_op_imm(0x6, rd, rs1, imm as u32)
}

fn andi(rd: u32, rs1: u32, imm: i32) -> u32 {
    enc_op_imm(0x7, rd, rs1, imm as u32)
}

fn add(rd: u32, rs1: u32, rs2: u32) -> u32 {
    (rs2 << 20) | (rs1 << 15) | (rd << 7) | 0x33
}

fn lui(rd: u32, imm20: u32) -> u32 {
    (imm20 << 12) | (rd << 7) | 0x37
}

fn execute_instructions(cpu: &mut Cpu, instr: &[u32]) {
    for inst in instr.iter() {
        let d = cpu.decode(*inst);
        let _ = cpu.execute(d);
    }
}

// Register names: t1 = x6, t2 = x7, t3 = x28, t4 = x29, t5 = x30, t6 = x31.

#[test]
fn test_execute_lui() {
    let mut cpu = Cpu::new(Vec::new());

    let instr = [lui(28, 1), lui(29, 256)];
    execute_instructions(&mut cpu, &instr);

    assert_eq!(cpu.regs[28], 1 << 12);
    assert_eq!(cpu.regs[29], 256 << 12);
}

#[test]
fn test_execute_add_addi() {
    let mut cpu = Cpu::new(Vec::new());

    let instr = [addi(28, 28, 3), addi(29, 29, 4), add(30, 28, 29)];
    execute_instructions(&mut cpu, &instr);

    assert_eq!(cpu.regs[28], 3);
    assert_eq!(cpu.regs[29], 4);
    assert_eq!(cpu.regs[30], 7);
}

#[test]
fn test_execute_slli_srli() {
    let mut cpu = Cpu::new(Vec::new());

    let instr = [addi(29, 29, 2), slli(28, 29, 1), srli(30, 29, 1)];
    execute_instructions(&mut cpu, &instr);

    assert_eq!(cpu.regs[28], 4);
    assert_eq!(cpu.regs[30], 1);
}

#[test]
fn test_execute_srai() {
    let mut cpu = Cpu::new(Vec::new());

    let instr = [addi(29, 29, -2), srai(28, 29, 1)];
    execute_instructions(&mut cpu, &instr);

    // The immediate is sign-extended, so x29 holds -2, and the arithmetic
    // shift replicates the sign bit: -2 >> 1 == -1.
    assert_eq!(cpu.regs[28], u64::MAX);
}

#[test]
fn test_execute_andi_ori_xori() {
    let mut cpu = Cpu::new(Vec::new());

    let instr = [addi(29, 29, 3), andi(28, 29, 5), ori(30, 29, 4), xori(31, 29, 3)];
    execute_instructions(&mut cpu, &instr);

    assert_eq!(cpu.regs[28], 1);
    assert_eq!(cpu.regs[30], 7);
    assert_eq!(cpu.regs[31], 0);
}

#[test]
fn test_execute_stli_stliu() {
    let mut cpu = Cpu::new(Vec::new());

    let instr = [
        addi(6, 6, 3),
        slti(7, 6, 1),
        slti(28, 6, 5),
        sltiu(29, 6, 1),
        sltiu(30, 6, 5),
    ];
    execute_instructions(&mut cpu, &instr);

    assert_eq!(cpu.regs[6], 3);
    assert_eq!(cpu.regs[7], 0);
    assert_eq!(cpu.regs[28], 1);
    assert_eq!(cpu.regs[29], 0);
    assert_eq!(cpu.regs[30], 1);
}

#[test]
fn test_execute_csrrc() {
    let mut cpu = Cpu::new(Vec::new());
    cpu.csr.store(3, 1);

    let inst = format!("{}{}{}{}{}", "000000000011", "00010", "011", "00001", "1110011");
    let inst_bin = u32::from_str_radix(&inst, 2).unwrap();
    let inst_obj = cpu.decode(inst_bin);
    let _ = cpu.execute(inst_obj);

    let expected_csr_value = 1;
    let expected_reg_value = 1;

    assert_eq!(expected_csr_value, cpu.csr.load(3));
    assert_eq!(expected_reg_value, cpu.regs[1]);
}
