//! End-to-end scenarios through the full hart loop, plus trap-pipeline and
//! trap-return behavior on concrete states.

use riscv_emulator::constants::{DRAM_BASE, DRAM_SIZE};
use riscv_emulator::csr;
use riscv_emulator::emulator::{Cpu, RunOutcome, MACHINE, SUPERVISOR, USER};
use riscv_emulator::errors::Exception;

fn op_imm(funct3: u32, rd: u32, rs1: u32, imm12: u32) -> u32 {
    ((imm12 & 0xFFF) << 20) | (rs1 << 15) | (funct3 << 12) | (rd << 7) | 0x13
}

fn addi(rd: u32, rs1: u32, imm: i32) -> u32 {
    op_imm(0x0, rd, rs1, imm as u32)
}

fn srai(rd: u32, rs1: u32, shamt: u32) -> u32 {
    op_imm(0x5, rd, rs1, 0x400 | shamt)
}

fn add(rd: u32, rs1: u32, rs2: u32) -> u32 {
    (rs2 << 20) | (rs1 << 15) | (rd << 7) | 0x33
}

fn lui(rd: u32, imm20: u32) -> u32 {
    (imm20 << 12) | (rd << 7) | 0x37
}

fn lbu(rd: u32, rs1: u32, imm: i32) -> u32 {
    (((imm as u32) & 0xFFF) << 20) | (rs1 << 15) | (0x4 << 12) | (rd << 7) | 0x03
}

fn sb(rs2: u32, rs1: u32, imm: i32) -> u32 {
    let imm = imm as u32;
    ((imm >> 5) << 25) | (rs2 << 20) | (rs1 << 15) | ((imm & 0x1F) << 7) | 0x23
}

fn image(words: &[u32]) -> Vec<u8> {
    let mut bytes = Vec::new();
    for w in words.iter() {
        bytes.extend_from_slice(&w.to_le_bytes());
    }
    bytes
}

#[test]
fn test_addi_chain() {
    let prog = [addi(29, 0, 5), addi(30, 0, 37), add(31, 29, 30)];
    let mut cpu = Cpu::new(image(&prog));

    let outcome = cpu.run(100);

    assert_eq!(outcome, RunOutcome::Halted);
    let mut expected = vec![0u64; 32];
    expected[2] = DRAM_BASE + DRAM_SIZE;
    expected[29] = 5;
    expected[30] = 37;
    expected[31] = 42;
    assert_eq!(cpu.regs, expected);
    assert_eq!(cpu.pc, DRAM_BASE + 12);
}

#[test]
fn test_lui_semantics() {
    let prog = [lui(28, 1), lui(29, 256)];
    let mut cpu = Cpu::new(image(&prog));

    assert_eq!(cpu.run(100), RunOutcome::Halted);
    assert_eq!(cpu.regs[28], 0x1000);
    assert_eq!(cpu.regs[29], 0x100000);
}

#[test]
fn test_srai_sign_extension() {
    let prog = [addi(29, 0, -2), srai(28, 29, 1)];
    let mut cpu = Cpu::new(image(&prog));

    assert_eq!(cpu.run(100), RunOutcome::Halted);
    assert_eq!(cpu.regs[28], 0xFFFF_FFFF_FFFF_FFFF);
}

#[test]
fn test_csrrc_masking() {
    let mut cpu = Cpu::new(Vec::new());
    cpu.csr.store(3, 1);
    cpu.regs[2] = 0;

    // csrrc x1, 3, x2 with x2 == 0: the clear mask is empty.
    let csrrc = (3 << 20) | (2 << 15) | (0x3 << 12) | (1 << 7) | 0x73;
    let inst = cpu.decode(csrrc);
    let result = cpu.execute(inst);

    assert_eq!(result, Ok(DRAM_BASE + 4));
    assert_eq!(cpu.regs[1], 1);
    assert_eq!(cpu.csr.load(3), 1);
}

#[test]
fn test_ecall_from_u_mode_with_delegation() {
    let ecall: u32 = 0x0000_0073;
    let mut cpu = Cpu::new(image(&[ecall]));
    let handler: u64 = DRAM_BASE + 0x100;
    cpu.mode = USER;
    cpu.csr.store(csr::MEDELEG, 1 << 8);
    cpu.csr.store(csr::STVEC, handler);

    let inst = cpu.decode(ecall);
    let result = cpu.execute(inst);
    assert_eq!(result, Err(Exception::EnvironmentCallFromUMode));
    let fatal = cpu.handle_error(Exception::EnvironmentCallFromUMode);

    assert!(!fatal);
    assert_eq!(cpu.mode, SUPERVISOR);
    assert_eq!(cpu.csr.load(csr::SEPC), DRAM_BASE);
    assert_eq!(cpu.csr.load(csr::SCAUSE), 8);
    assert_eq!(cpu.pc, handler);
}

#[test]
fn test_ecall_without_delegation_traps_to_machine() {
    let mut cpu = Cpu::new(Vec::new());
    let handler: u64 = DRAM_BASE + 0x200;
    cpu.mode = USER;
    cpu.csr.store(csr::MTVEC, handler);

    let fatal = cpu.handle_error(Exception::EnvironmentCallFromUMode);

    assert!(!fatal);
    assert_eq!(cpu.mode, MACHINE);
    assert_eq!(cpu.csr.load(csr::MEPC), DRAM_BASE);
    assert_eq!(cpu.csr.load(csr::MCAUSE), 8);
    assert_eq!(cpu.pc, handler);
}

#[test]
fn test_uart_echo() {
    // The guest loads the received byte from the UART receiver and stores
    // it straight back to the transmitter.
    let prog = [
        lui(5, 0x10000),  // x5 = UART_BASE
        lbu(1, 5, 0),     // x1 = RHR
        sb(1, 5, 0),      // THR = x1
    ];
    let mut cpu = Cpu::new(image(&prog));
    assert!(cpu.bus.uart.receive_byte(b'A'));

    assert_eq!(cpu.run(100), RunOutcome::Halted);

    assert_eq!(cpu.bus.uart.output, vec![b'A']);
    assert_eq!(cpu.bus.uart.regs[5] & 1, 0);
    assert_eq!(cpu.regs[1], b'A' as u64);
}

#[test]
fn test_uart_receive_refused_while_full() {
    let mut cpu = Cpu::new(Vec::new());
    assert!(cpu.bus.uart.receive_byte(b'A'));
    // The receiver still holds 'A'; the producer must wait.
    assert!(!cpu.bus.uart.receive_byte(b'B'));
    assert_eq!(cpu.bus.uart.regs[0], b'A');
}

#[test]
fn test_mret_restores_interrupt_enable() {
    let mut cpu = Cpu::new(Vec::new());
    let mret: u32 = 0x3020_0073;
    // MPIE set, MIE clear, MPP = Machine; return address in mepc.
    cpu.csr.store(csr::MSTATUS, csr::MASK_MPIE | csr::MASK_MPP);
    cpu.csr.store(csr::MEPC, DRAM_BASE + 0x40);

    let inst = cpu.decode(mret);
    let result = cpu.execute(inst);

    assert_eq!(result, Ok(DRAM_BASE + 0x40));
    let status = cpu.csr.load(csr::MSTATUS);
    assert_ne!(status & csr::MASK_MIE, 0); // MIE == old MPIE
    assert_ne!(status & csr::MASK_MPIE, 0); // MPIE == 1
    assert_eq!(status & csr::MASK_MPP, 0); // MPP falls back to User
    assert_eq!(cpu.mode, MACHINE);
}

#[test]
fn test_sret_restores_interrupt_enable() {
    let mut cpu = Cpu::new(Vec::new());
    let sret: u32 = 0x1020_0073;
    cpu.mode = SUPERVISOR;
    // SPIE set, SPP = Supervisor, through the sstatus alias.
    cpu.csr.store(csr::SSTATUS, csr::MASK_SPIE | csr::MASK_SPP);
    cpu.csr.store(csr::SEPC, DRAM_BASE + 0x80);

    let inst = cpu.decode(sret);
    let result = cpu.execute(inst);

    assert_eq!(result, Ok(DRAM_BASE + 0x80));
    let status = cpu.csr.load(csr::SSTATUS);
    assert_ne!(status & csr::MASK_SIE, 0); // SIE == old SPIE
    assert_ne!(status & csr::MASK_SPIE, 0); // SPIE == 1
    assert_eq!(status & csr::MASK_SPP, 0); // SPP falls back to User
    assert_eq!(cpu.mode, SUPERVISOR);
}

#[test]
fn test_ecall_names_the_current_privilege() {
    let ecall: u32 = 0x0000_0073;
    let mut cpu = Cpu::new(Vec::new());

    let inst = cpu.decode(ecall);
    assert_eq!(cpu.execute(inst), Err(Exception::EnvironmentCallFromMMode));

    cpu.mode = SUPERVISOR;
    let inst = cpu.decode(ecall);
    assert_eq!(cpu.execute(inst), Err(Exception::EnvironmentCallFromSMode));

    cpu.mode = USER;
    let inst = cpu.decode(ecall);
    assert_eq!(cpu.execute(inst), Err(Exception::EnvironmentCallFromUMode));
}

#[test]
fn test_ebreak_raises_breakpoint() {
    let ebreak: u32 = 0x0010_0073;
    let mut cpu = Cpu::new(Vec::new());

    let inst = cpu.decode(ebreak);
    assert_eq!(cpu.execute(inst), Err(Exception::Breakpoint));
}

#[test]
fn test_illegal_opcode_carries_the_word() {
    let mut cpu = Cpu::new(Vec::new());

    let inst = cpu.decode(0);
    assert_eq!(cpu.execute(inst), Err(Exception::IllegalInstruction(0)));

    let word: u32 = 0x0000_002B; // an opcode outside the implemented set
    let inst = cpu.decode(word);
    assert_eq!(cpu.execute(inst), Err(Exception::IllegalInstruction(word as u64)));
}

#[test]
fn test_csrrs_with_x0_suppresses_the_write() {
    let mut cpu = Cpu::new(Vec::new());
    cpu.csr.store(csr::MSTATUS, 0xAA);

    // csrrs x1, mstatus, x0: the read still occurs, the write does not.
    let csrrs = ((csr::MSTATUS as u32) << 20) | (0 << 15) | (0x2 << 12) | (1 << 7) | 0x73;
    let inst = cpu.decode(csrrs);
    assert_eq!(cpu.execute(inst), Ok(DRAM_BASE + 4));

    assert_eq!(cpu.regs[1], 0xAA);
    assert_eq!(cpu.csr.load(csr::MSTATUS), 0xAA);
}

#[test]
fn test_write_to_x0_is_discarded() {
    let prog = [addi(0, 0, 7)];
    let mut cpu = Cpu::new(image(&prog));

    assert_eq!(cpu.run(10), RunOutcome::Halted);
    assert_eq!(cpu.regs[0], 0);
}

#[test]
fn test_mret_outside_machine_mode_is_illegal() {
    let mut cpu = Cpu::new(Vec::new());
    let mret: u32 = 0x3020_0073;
    cpu.mode = USER;

    let inst = cpu.decode(mret);
    let result = cpu.execute(inst);

    assert_eq!(result, Err(Exception::IllegalInstruction(mret as u64)));
}

#[test]
fn test_fatal_load_fault_aborts_run() {
    // x1 = 0 points below every mapped region; the load access fault is
    // fatal and aborts the hart loop.
    let prog = [lbu(1, 0, 0)];
    let mut cpu = Cpu::new(image(&prog));

    assert_eq!(cpu.run(100), RunOutcome::Fatal(Exception::LoadAccessFault(0)));
}

#[test]
fn test_uart_interrupt_reaches_supervisor_handler() {
    // A pending UART byte claims the PLIC line and raises SEIP; with SEIE
    // enabled and supervisor external interrupts delegated, the retired
    // instruction is followed by a trap into the supervisor handler.
    let prog = [addi(1, 0, 1)];
    let mut cpu = Cpu::new(image(&prog));
    let handler: u64 = DRAM_BASE + 0x400;
    cpu.csr.store(csr::MSTATUS, csr::MASK_MIE);
    cpu.csr.store(csr::MIE, csr::MASK_SEIP);
    cpu.csr.store(csr::MIDELEG, 1 << 9);
    cpu.csr.store(csr::STVEC, handler);
    cpu.mode = USER;
    assert!(cpu.bus.uart.receive_byte(b'Z'));

    let outcome = cpu.step();

    assert_eq!(outcome, riscv_emulator::emulator::StepOutcome::Retired);
    assert_eq!(cpu.mode, SUPERVISOR);
    assert_eq!(cpu.pc, handler);
    assert_eq!(cpu.csr.load(csr::SEPC), DRAM_BASE + 4);
    assert_eq!(cpu.csr.load(csr::SCAUSE), (1 << 63) | 9);
    assert_eq!(cpu.bus.plic.claim, riscv_emulator::uart::UART_IRQ);
    // The taken interrupt's pending bit was cleared again.
    assert_eq!(cpu.csr.load(csr::MIP) & csr::MASK_SEIP, 0);
}
