//! The hart: integer register file, program counter, privilege mode, CSR
//! file and bus, driven by the fetch/decode/execute loop with trap and
//! interrupt delivery after each retired instruction.

use vstd::prelude::*;
use crate::alu;
use crate::bus::Bus;
use crate::constants::{DRAM_BASE, DRAM_SIZE};
use crate::csr;
use crate::csr::{Csr, csr_read_spec, csr_write_spec};
use crate::dram::Dram;
use crate::errors::Exception;
use crate::instructions::{Instruction, R_Instr, I_Instr, S_Instr, B_Instr, U_Instr, J_Instr};
use crate::interrupt::Interrupt;
use crate::plic::PLIC_CLAIM_ADDR;
use crate::uart::UART_IRQ;

verus! {

/// Privilege modes, encoded as in `mstatus.MPP`.
pub type Mode = u64;

pub const USER: Mode = 0;

pub const SUPERVISOR: Mode = 1;

pub const MACHINE: Mode = 3;

/// Why [`Cpu::step`] stopped or went on.
#[derive(Debug, Clone, Copy, PartialEq, Eq, Structural)]
pub enum StepOutcome {
    /// One instruction retired (a handled trap included); the loop goes on.
    Retired,
    /// The program counter left the loaded program; the hart halts.
    Halted,
    /// A fatal exception; the hart aborts with it.
    Fatal(Exception),
}

/// Why [`Cpu::run`] came back.
#[derive(Debug, Clone, Copy, PartialEq, Eq, Structural)]
pub enum RunOutcome {
    /// The program counter left the loaded program: an orderly halt.
    Halted,
    /// A fatal exception aborted the hart loop.
    Fatal(Exception),
    /// The step budget ran out with the hart still running.
    OutOfSteps,
}

/// The register file after writing `v` to register `rd`: a write to `x0`
/// is discarded, so `x0` always reads as zero.
pub open spec fn write_reg_spec(regs: Seq<u64>, rd: int, v: u64) -> Seq<u64>
    recommends
        regs.len() == 32,
        0 <= rd < 32,
{
    if rd == 0 {
        regs
    } else {
        regs.update(rd, v)
    }
}

/// Bus states that hold the same values, component by component.
pub open spec fn bus_eq(a: Bus, b: Bus) -> bool {
    &&& b.dram.dram@ == a.dram.dram@
    &&& b.uart.regs@ == a.uart.regs@
    &&& b.uart.interrupt == a.uart.interrupt
    &&& b.uart.output@ == a.uart.output@
    &&& b.plic.spriority@ == a.plic.spriority@
    &&& b.plic.pending == a.plic.pending
    &&& b.plic.claim == a.plic.claim
    &&& b.plic.completed == a.plic.completed
}

/// The hart state is untouched.
pub open spec fn cpu_same(pre: Cpu, post: Cpu) -> bool {
    &&& post.regs@ == pre.regs@
    &&& post.pc == pre.pc
    &&& post.mode == pre.mode
    &&& post.code_end == pre.code_end
    &&& post.csr.csrs@ == pre.csr.csrs@
    &&& bus_eq(pre.bus, post.bus)
}

/// Exactly one register write happened; everything else is untouched.
pub open spec fn only_reg_write(pre: Cpu, post: Cpu, rd: int, v: u64) -> bool {
    &&& post.regs@ == write_reg_spec(pre.regs@, rd, v)
    &&& post.pc == pre.pc
    &&& post.mode == pre.mode
    &&& post.code_end == pre.code_end
    &&& post.csr.csrs@ == pre.csr.csrs@
    &&& bus_eq(pre.bus, post.bus)
}

/// `sstatus` on entry to a supervisor trap: `SPIE` saves the old `SIE`,
/// `SIE` is cleared, and `SPP` records the interrupted privilege (User = 0,
/// Supervisor = 1).
pub open spec fn s_trap_status(status: u64, mode: Mode) -> u64
    recommends
        mode == USER || mode == SUPERVISOR,
{
    (status & !(csr::MASK_SIE | csr::MASK_SPIE | csr::MASK_SPP)) | (
    if status & csr::MASK_SIE != 0 {
        csr::MASK_SPIE
    } else {
        0u64
    }) | (mode << 8)
}

/// `mstatus` on entry to a machine trap: `MPIE` saves the old `MIE`, `MIE`
/// is cleared, and the two `MPP` bits record the interrupted privilege.
pub open spec fn m_trap_status(status: u64, mode: Mode) -> u64
    recommends
        mode == USER || mode == SUPERVISOR || mode == MACHINE,
{
    (status & !(csr::MASK_MIE | csr::MASK_MPIE | csr::MASK_MPP)) | (
    if status & csr::MASK_MIE != 0 {
        csr::MASK_MPIE
    } else {
        0u64
    }) | (mode << 11)
}

/// `sstatus` after SRET: `SIE` is restored from `SPIE`, `SPIE` is set, and
/// `SPP` falls back to User.
pub open spec fn sret_status(status: u64) -> u64 {
    (status & !(csr::MASK_SIE | csr::MASK_SPIE | csr::MASK_SPP)) | (
    if status & csr::MASK_SPIE != 0 {
        csr::MASK_SIE
    } else {
        0u64
    }) | csr::MASK_SPIE
}

/// `mstatus` after MRET: `MIE` is restored from `MPIE`, `MPIE` is set, and
/// `MPP` falls back to User.
pub open spec fn mret_status(status: u64) -> u64 {
    (status & !(csr::MASK_MIE | csr::MASK_MPIE | csr::MASK_MPP)) | (
    if status & csr::MASK_MPIE != 0 {
        csr::MASK_MIE
    } else {
        0u64
    }) | csr::MASK_MPIE
}

/// The privilege SRET returns to: the one `SPP` bit.
pub open spec fn sret_mode(status: u64) -> Mode {
    if status & csr::MASK_SPP != 0 {
        SUPERVISOR
    } else {
        USER
    }
}

/// The privilege MRET returns to: the two `MPP` bits, with the reserved
/// encoding 2 falling back to User.
pub open spec fn mret_mode(status: u64) -> Mode {
    if (status & csr::MASK_MPP) >> 11 == 3 {
        MACHINE
    } else if (status & csr::MASK_MPP) >> 11 == 1 {
        SUPERVISOR
    } else {
        USER
    }
}

/// The CSR bank after a trap is taken in supervisor mode: the saved
/// program counter, cause and trap value land in `sepc`, `scause` and
/// `stval`, and `sstatus` is updated through its alias onto `mstatus`.
pub open spec fn trap_to_s_csrs(c: Seq<u64>, pc: u64, cause: u64, tval: u64, mode: Mode) -> Seq<
    u64,
>
    recommends
        c.len() == csr::NUM_CSRS,
{
    let c1 = csr_write_spec(c, csr::SEPC, pc);
    let c2 = csr_write_spec(c1, csr::SCAUSE, cause);
    let c3 = csr_write_spec(c2, csr::STVAL, tval);
    csr_write_spec(c3, csr::SSTATUS, s_trap_status(csr_read_spec(c3, csr::SSTATUS), mode))
}

/// The CSR bank after a trap is taken in machine mode.
pub open spec fn trap_to_m_csrs(c: Seq<u64>, pc: u64, cause: u64, tval: u64, mode: Mode) -> Seq<
    u64,
>
    recommends
        c.len() == csr::NUM_CSRS,
{
    let c1 = csr_write_spec(c, csr::MEPC, pc);
    let c2 = csr_write_spec(c1, csr::MCAUSE, cause);
    let c3 = csr_write_spec(c2, csr::MTVAL, tval);
    csr_write_spec(c3, csr::MSTATUS, m_trap_status(csr_read_spec(c3, csr::MSTATUS), mode))
}

/// The handler address a trap vectors to. The low two bits of `xTVEC`
/// select the mode and are masked off the base; in vectored mode (1) an
/// interrupt lands at `base + 4 * cause`, while a synchronous exception
/// always lands at the base.
pub open spec fn trap_target(tvec: u64, index: u64, is_interrupt: bool) -> u64
    recommends
        index < 16,
{
    if is_interrupt && tvec & 0b11 == 1 {
        alu::wadd(tvec & !0b11u64, (4 * index) as u64)
    } else {
        tvec & !0b11u64
    }
}

/// An `OP` or `OP-32` instruction retired: the destination register took
/// the operation's value and the next program counter is four past this
/// one; an undefined funct combination raised `IllegalInstruction` with the
/// reassembled word and changed nothing.
pub open spec fn r_step(pre: Cpu, post: Cpu, x: R_Instr, res: Result<u64, Exception>) -> bool
    recommends
        pre.wf(),
        x.wf(),
{
    let a = pre.regs@[x.rs1 as int];
    let b = pre.regs@[x.rs2 as int];
    let next = alu::wadd(pre.pc, 4);
    let val = if x.opcode == 0x33 {
        alu::op_value(x.funct3 as u64, x.funct7 as u64, a, b)
    } else if x.opcode == 0x3B {
        alu::op32_value(x.funct3 as u64, x.funct7 as u64, a, b)
    } else {
        Option::None
    };
    match val {
        Option::Some(v) => only_reg_write(pre, post, x.rd as int, v) && res == Ok::<
            u64,
            Exception,
        >(next),
        Option::None => cpu_same(pre, post) && res == Err::<u64, Exception>(
            Exception::IllegalInstruction(x.encode_spec() as u64),
        ),
    }
}

/// An I-format instruction that names no operation: nothing changed and the
/// reassembled word came back as `IllegalInstruction`.
pub open spec fn illegal_i(pre: Cpu, post: Cpu, x: I_Instr, res: Result<u64, Exception>) -> bool {
    cpu_same(pre, post) && res == Err::<u64, Exception>(
        Exception::IllegalInstruction(x.encode_spec() as u64),
    )
}

/// A `LOAD` retired: the addressed bytes, extended per the funct3, landed
/// in the destination register; a bus fault came back unchanged with no
/// register written.
pub open spec fn load_step(pre: Cpu, post: Cpu, x: I_Instr, res: Result<u64, Exception>) -> bool
    recommends
        pre.wf(),
        x.wf(),
        x.opcode == 0x03,
{
    let a = pre.regs@[x.rs1 as int];
    let next = alu::wadd(pre.pc, 4);
    match alu::load_size(x.funct3 as u64) {
        Option::Some(size) => {
            let addr = alu::wadd(a, alu::sext12(x.imm as u64));
            &&& Bus::load_post(pre.bus, post.bus, addr, size)
            &&& post.pc == pre.pc
            &&& post.mode == pre.mode
            &&& post.code_end == pre.code_end
            &&& post.csr.csrs@ == pre.csr.csrs@
            &&& match Bus::load_result(pre.bus, addr, size) {
                Result::Ok(v) => post.regs@ == write_reg_spec(
                    pre.regs@,
                    x.rd as int,
                    alu::load_extend(x.funct3 as u64, v),
                ) && res == Ok::<u64, Exception>(next),
                Result::Err(e) => post.regs@ == pre.regs@ && res == Err::<u64, Exception>(e),
            }
        },
        Option::None => illegal_i(pre, post, x, res),
    }
}

/// A Zicsr instruction retired: the old CSR value landed in the
/// destination register and the CSR took the new value its funct3 calls
/// for; with `rs1 == x0` (or a zero immediate mask) the write side effect
/// of the set/clear forms is suppressed while the read still occurs.
pub open spec fn csr_op_step(pre: Cpu, post: Cpu, x: I_Instr, res: Result<u64, Exception>) -> bool
    recommends
        pre.wf(),
        x.wf(),
        x.opcode == 0x73,
        x.funct3 != 0 && x.funct3 != 4,
{
    let a = pre.regs@[x.rs1 as int];
    let zimm = x.rs1 as u64;
    let t = csr_read_spec(pre.csr.csrs@, x.imm);
    let next = alu::wadd(pre.pc, 4);
    let newval = if x.funct3 == 1 {  // CSRRW
        Option::Some(a)
    } else if x.funct3 == 2 {  // CSRRS
        if x.rs1 != 0 {
            Option::Some(t | a)
        } else {
            Option::None
        }
    } else if x.funct3 == 3 {  // CSRRC
        if x.rs1 != 0 {
            Option::Some(t & !a)
        } else {
            Option::None
        }
    } else if x.funct3 == 5 {  // CSRRWI
        Option::Some(zimm)
    } else if x.funct3 == 6 {  // CSRRSI
        if zimm != 0 {
            Option::Some(t | zimm)
        } else {
            Option::None
        }
    } else {  // CSRRCI
        if zimm != 0 {
            Option::Some(t & !zimm)
        } else {
            Option::None
        }
    };
    &&& post.csr.csrs@ == match newval {
        Option::Some(nv) => csr_write_spec(pre.csr.csrs@, x.imm, nv),
        Option::None => pre.csr.csrs@,
    }
    &&& post.regs@ == write_reg_spec(pre.regs@, x.rd as int, t)
    &&& post.pc == pre.pc
    &&& post.mode == pre.mode
    &&& post.code_end == pre.code_end
    &&& bus_eq(pre.bus, post.bus)
    &&& res == Ok::<u64, Exception>(next)
}

/// SRET retired: the mode falls back to the privilege `SPP` recorded,
/// `sstatus` is rewritten by [`sret_status`] through its alias, and control
/// returns to `sepc` with the low bits masked off.
pub open spec fn sret_step(pre: Cpu, post: Cpu, res: Result<u64, Exception>) -> bool
    recommends
        pre.wf(),
{
    let st = csr_read_spec(pre.csr.csrs@, csr::SSTATUS);
    &&& post.csr.csrs@ == csr_write_spec(pre.csr.csrs@, csr::SSTATUS, sret_status(st))
    &&& post.mode == sret_mode(st)
    &&& post.regs@ == pre.regs@
    &&& post.pc == pre.pc
    &&& post.code_end == pre.code_end
    &&& bus_eq(pre.bus, post.bus)
    &&& res == Ok::<u64, Exception>(csr_read_spec(pre.csr.csrs@, csr::SEPC) & !0b11u64)
}

/// MRET retired: the mode falls back to the privilege `MPP` recorded,
/// `mstatus` is rewritten by [`mret_status`], and control returns to `mepc`
/// with the low bits masked off.
pub open spec fn mret_step(pre: Cpu, post: Cpu, res: Result<u64, Exception>) -> bool
    recommends
        pre.wf(),
{
    let st = csr_read_spec(pre.csr.csrs@, csr::MSTATUS);
    &&& post.csr.csrs@ == csr_write_spec(pre.csr.csrs@, csr::MSTATUS, mret_status(st))
    &&& post.mode == mret_mode(st)
    &&& post.regs@ == pre.regs@
    &&& post.pc == pre.pc
    &&& post.code_end == pre.code_end
    &&& bus_eq(pre.bus, post.bus)
    &&& res == Ok::<u64, Exception>(csr_read_spec(pre.csr.csrs@, csr::MEPC) & !0b11u64)
}

/// A `SYSTEM` instruction: ECALL raises the environment call of the current
/// privilege, EBREAK raises `Breakpoint`, the trap returns hand back per
/// [`sret_step`] and [`mret_step`] (and are illegal below the privilege
/// they belong to), and the Zicsr forms go through [`csr_op_step`].
pub open spec fn system_step(pre: Cpu, post: Cpu, x: I_Instr, res: Result<u64, Exception>) -> bool
    recommends
        pre.wf(),
        x.wf(),
        x.opcode == 0x73,
{
    if x.funct3 == 0 {
        if x.imm == 0 {  // ECALL
            cpu_same(pre, post) && res == Err::<u64, Exception>(
                if pre.mode == MACHINE {
                    Exception::EnvironmentCallFromMMode
                } else if pre.mode == SUPERVISOR {
                    Exception::EnvironmentCallFromSMode
                } else {
                    Exception::EnvironmentCallFromUMode
                },
            )
        } else if x.imm == 1 {  // EBREAK
            cpu_same(pre, post) && res == Err::<u64, Exception>(Exception::Breakpoint)
        } else if x.imm == 0x102 {  // SRET
            if pre.mode == SUPERVISOR || pre.mode == MACHINE {
                sret_step(pre, post, res)
            } else {
                illegal_i(pre, post, x, res)
            }
        } else if x.imm == 0x302 {  // MRET
            if pre.mode == MACHINE {
                mret_step(pre, post, res)
            } else {
                illegal_i(pre, post, x, res)
            }
        } else {
            illegal_i(pre, post, x, res)
        }
    } else if x.funct3 == 4 {
        illegal_i(pre, post, x, res)
    } else {
        csr_op_step(pre, post, x, res)
    }
}

/// An I-format instruction retired, dispatched by opcode: the immediate
/// operations, their 32-bit forms, JALR, the loads, FENCE (a no-op on a
/// single in-order hart) and the SYSTEM group.
pub open spec fn i_step(pre: Cpu, post: Cpu, x: I_Instr, res: Result<u64, Exception>) -> bool
    recommends
        pre.wf(),
        x.wf(),
{
    let a = pre.regs@[x.rs1 as int];
    let imm12 = x.imm as u64;
    let next = alu::wadd(pre.pc, 4);
    if x.opcode == 0x13 {
        match alu::op_imm_value(x.funct3 as u64, imm12, a) {
            Option::Some(v) => only_reg_write(pre, post, x.rd as int, v) && res == Ok::<
                u64,
                Exception,
            >(next),
            Option::None => illegal_i(pre, post, x, res),
        }
    } else if x.opcode == 0x1B {
        match alu::op_imm32_value(x.funct3 as u64, imm12, a) {
            Option::Some(v) => only_reg_write(pre, post, x.rd as int, v) && res == Ok::<
                u64,
                Exception,
            >(next),
            Option::None => illegal_i(pre, post, x, res),
        }
    } else if x.opcode == 0x67 {  // JALR
        if x.funct3 == 0 {
            only_reg_write(pre, post, x.rd as int, next) && res == Ok::<u64, Exception>(
                alu::wadd(a, alu::sext12(imm12)) & !1u64,
            )
        } else {
            illegal_i(pre, post, x, res)
        }
    } else if x.opcode == 0x03 {
        load_step(pre, post, x, res)
    } else if x.opcode == 0x0F {  // FENCE
        cpu_same(pre, post) && res == Ok::<u64, Exception>(next)
    } else if x.opcode == 0x73 {
        system_step(pre, post, x, res)
    } else {
        illegal_i(pre, post, x, res)
    }
}

/// A `STORE` retired: the low bits of `rs2` went to the addressed bytes; a
/// bus fault came back unchanged.
pub open spec fn s_step(pre: Cpu, post: Cpu, x: S_Instr, res: Result<u64, Exception>) -> bool
    recommends
        pre.wf(),
        x.wf(),
{
    let a = pre.regs@[x.rs1 as int];
    let b = pre.regs@[x.rs2 as int];
    let next = alu::wadd(pre.pc, 4);
    if x.opcode == 0x23 {
        match alu::store_size(x.funct3 as u64) {
            Option::Some(size) => {
                let addr = alu::wadd(a, alu::sext12(x.imm as u64));
                &&& Bus::store_post(pre.bus, post.bus, addr, size, b)
                &&& post.regs@ == pre.regs@
                &&& post.pc == pre.pc
                &&& post.mode == pre.mode
                &&& post.code_end == pre.code_end
                &&& post.csr.csrs@ == pre.csr.csrs@
                &&& res == match Bus::store_result(pre.bus, addr, size, b) {
                    Result::Ok(u) => Ok::<u64, Exception>(next),
                    Result::Err(e) => Err::<u64, Exception>(e),
                }
            },
            Option::None => cpu_same(pre, post) && res == Err::<u64, Exception>(
                Exception::IllegalInstruction(x.encode_spec() as u64),
            ),
        }
    } else {
        cpu_same(pre, post) && res == Err::<u64, Exception>(
            Exception::IllegalInstruction(x.encode_spec() as u64),
        )
    }
}

/// A `BRANCH` retired: control moves to the PC-relative target when the
/// condition holds, else falls through.
pub open spec fn b_step(pre: Cpu, post: Cpu, x: B_Instr, res: Result<u64, Exception>) -> bool
    recommends
        pre.wf(),
        x.wf(),
{
    let a = pre.regs@[x.rs1 as int];
    let b = pre.regs@[x.rs2 as int];
    let next = alu::wadd(pre.pc, 4);
    if x.opcode == 0x63 {
        match alu::branch_taken(x.funct3 as u64, a, b) {
            Option::Some(taken) => cpu_same(pre, post) && res == Ok::<u64, Exception>(
                if taken {
                    alu::wadd(pre.pc, alu::sext13(x.imm as u64))
                } else {
                    next
                },
            ),
            Option::None => cpu_same(pre, post) && res == Err::<u64, Exception>(
                Exception::IllegalInstruction(x.encode_spec() as u64),
            ),
        }
    } else {
        cpu_same(pre, post) && res == Err::<u64, Exception>(
            Exception::IllegalInstruction(x.encode_spec() as u64),
        )
    }
}

/// LUI or AUIPC retired: the upper immediate (shifted up by 12 and
/// sign-extended from bit 31), alone or added to this instruction's PC,
/// landed in the destination register.
pub open spec fn u_step(pre: Cpu, post: Cpu, x: U_Instr, res: Result<u64, Exception>) -> bool
    recommends
        pre.wf(),
        x.wf(),
{
    let next = alu::wadd(pre.pc, 4);
    let imm = alu::sext32((x.imm as u64) << 12);
    if x.opcode == 0x37 {  // LUI
        only_reg_write(pre, post, x.rd as int, imm) && res == Ok::<u64, Exception>(next)
    } else if x.opcode == 0x17 {  // AUIPC
        only_reg_write(pre, post, x.rd as int, alu::wadd(pre.pc, imm)) && res == Ok::<
            u64,
            Exception,
        >(next)
    } else {
        cpu_same(pre, post) && res == Err::<u64, Exception>(
            Exception::IllegalInstruction(x.encode_spec() as u64),
        )
    }
}

/// JAL retired: the return address went to the destination register and
/// control moved to the PC-relative target.
pub open spec fn j_step(pre: Cpu, post: Cpu, x: J_Instr, res: Result<u64, Exception>) -> bool
    recommends
        pre.wf(),
        x.wf(),
{
    let next = alu::wadd(pre.pc, 4);
    if x.opcode == 0x6F {
        only_reg_write(pre, post, x.rd as int, next) && res == Ok::<u64, Exception>(
            alu::wadd(pre.pc, alu::sext21(x.imm as u64)),
        )
    } else {
        cpu_same(pre, post) && res == Err::<u64, Exception>(
            Exception::IllegalInstruction(x.encode_spec() as u64),
        )
    }
}

/// One instruction executed: the per-format step relation its variant
/// selects, with an unrecognised word raising `IllegalInstruction` whole.
pub open spec fn execute_rel(pre: Cpu, post: Cpu, inst: Instruction, res: Result<
    u64,
    Exception,
>) -> bool
    recommends
        pre.wf(),
        inst.wf(),
{
    match inst {
        Instruction::R(x) => r_step(pre, post, x, res),
        Instruction::I(x) => i_step(pre, post, x, res),
        Instruction::S(x) => s_step(pre, post, x, res),
        Instruction::B(x) => b_step(pre, post, x, res),
        Instruction::U(x) => u_step(pre, post, x, res),
        Instruction::J(x) => j_step(pre, post, x, res),
        Instruction::Illegal(w) => cpu_same(pre, post) && res == Err::<u64, Exception>(
            Exception::IllegalInstruction(w as u64),
        ),
    }
}

/// Masking the two `xTVEC` mode bits off a trap vector leaves a 4-byte
/// aligned address.
pub proof fn lemma_mask_low2_aligned(x: u64)
    ensures
        (x & !0b11u64) % 4 == 0,
{
    assert((x & !0b11u64) % 4 == 0) by (bit_vector);
}

/// The program counter is 4-byte aligned after every taken trap: the
/// pipeline masks the mode bits off `xTVEC`, and a vectored interrupt adds
/// a multiple of four to that base.
pub proof fn lemma_trap_target_aligned(tvec: u64, index: u64, is_interrupt: bool)
    requires
        index < 16,
    ensures
        trap_target(tvec, index, is_interrupt) % 4 == 0,
{
    lemma_mask_low2_aligned(tvec);
}

/// After MRET, the machine interrupt enable is the saved `MPIE`, and
/// `MPIE` itself reads as one.
pub proof fn lemma_mret_restores_interrupt_enable(status: u64)
    ensures
        (mret_status(status) & csr::MASK_MIE != 0) == (status & csr::MASK_MPIE != 0),
        mret_status(status) & csr::MASK_MPIE == csr::MASK_MPIE,
{
    assert({
        let r = (status & !((1u64 << 3) | (1u64 << 7) | (0b11u64 << 11))) | (
        if status & (1u64 << 7) != 0 {
            1u64 << 3
        } else {
            0u64
        }) | (1u64 << 7);
        ((r & (1u64 << 3) != 0) == (status & (1u64 << 7) != 0)) && (r & (1u64 << 7) == (1u64
            << 7))
    }) by (bit_vector);
}

/// After SRET, the supervisor interrupt enable is the saved `SPIE`, and
/// `SPIE` itself reads as one.
pub proof fn lemma_sret_restores_interrupt_enable(status: u64)
    ensures
        (sret_status(status) & csr::MASK_SIE != 0) == (status & csr::MASK_SPIE != 0),
        sret_status(status) & csr::MASK_SPIE == csr::MASK_SPIE,
{
    assert({
        let r = (status & !((1u64 << 1) | (1u64 << 5) | (1u64 << 8))) | (
        if status & (1u64 << 5) != 0 {
            1u64 << 1
        } else {
            0u64
        }) | (1u64 << 5);
        ((r & (1u64 << 1) != 0) == (status & (1u64 << 5) != 0)) && (r & (1u64 << 5) == (1u64
            << 5))
    }) by (bit_vector);
}

/// An asynchronous interrupt was taken: the saved program counter is the
/// next instruction's, the cause carries the interrupt flag, the trap value
/// is zero, and the trap lands in supervisor mode exactly when the hart was
/// below machine mode and the cause's `MIDELEG` bit is set.
pub open spec fn interrupt_taken(pre: Cpu, post: Cpu, intr: Interrupt) -> bool
    recommends
        pre.wf(),
{
    let idx = intr.index_spec();
    let cause = intr.code_spec();
    let deleg = pre.mode != MACHINE && (csr_read_spec(pre.csr.csrs@, csr::MIDELEG) >> idx) & 1
        == 1;
    &&& post.regs@ == pre.regs@
    &&& post.code_end == pre.code_end
    &&& bus_eq(pre.bus, post.bus)
    &&& if deleg {
        &&& post.mode == SUPERVISOR
        &&& post.csr.csrs@ == trap_to_s_csrs(pre.csr.csrs@, pre.pc, cause, 0, pre.mode)
        &&& post.pc == trap_target(csr_read_spec(pre.csr.csrs@, csr::STVEC), idx, true)
    } else {
        &&& post.mode == MACHINE
        &&& post.csr.csrs@ == trap_to_m_csrs(pre.csr.csrs@, pre.pc, cause, 0, pre.mode)
        &&& post.pc == trap_target(csr_read_spec(pre.csr.csrs@, csr::MTVEC), idx, true)
    }
}

/// A synchronous exception was taken: the saved program counter is the
/// faulting instruction's own, the trap value is the exception's, and the
/// trap lands in supervisor mode exactly when the hart was below machine
/// mode and the cause's `MEDELEG` bit is set. Synchronous traps always
/// vector to the handler base, whatever the `xTVEC` mode bits say.
pub open spec fn exception_taken(pre: Cpu, post: Cpu, e: Exception) -> bool
    recommends
        pre.wf(),
{
    let cause = e.code_spec();
    let deleg = pre.mode != MACHINE && (csr_read_spec(pre.csr.csrs@, csr::MEDELEG) >> cause) & 1
        == 1;
    &&& post.regs@ == pre.regs@
    &&& post.code_end == pre.code_end
    &&& bus_eq(pre.bus, post.bus)
    &&& if deleg {
        &&& post.mode == SUPERVISOR
        &&& post.csr.csrs@ == trap_to_s_csrs(
            pre.csr.csrs@,
            pre.pc,
            cause,
            e.value_spec(),
            pre.mode,
        )
        &&& post.pc == trap_target(csr_read_spec(pre.csr.csrs@, csr::STVEC), cause, false)
    } else {
        &&& post.mode == MACHINE
        &&& post.csr.csrs@ == trap_to_m_csrs(
            pre.csr.csrs@,
            pre.pc,
            cause,
            e.value_spec(),
            pre.mode,
        )
        &&& post.pc == trap_target(csr_read_spec(pre.csr.csrs@, csr::MTVEC), cause, false)
    }
}

/// The `mip`/`mie` bit of an interrupt.
pub open spec fn int_mask(i: Interrupt) -> u64 {
    match i {
        Interrupt::SupervisorSoftwareInterrupt => csr::MASK_SSIP,
        Interrupt::MachineSoftwareInterrupt => csr::MASK_MSIP,
        Interrupt::SupervisorTimerInterrupt => csr::MASK_STIP,
        Interrupt::MachineTimerInterrupt => csr::MASK_MTIP,
        Interrupt::SupervisorExternalInterrupt => csr::MASK_SEIP,
        Interrupt::MachineExternalInterrupt => csr::MASK_MEIP,
    }
}

/// The one interrupt selected from the enabled-and-pending set, in the
/// fixed priority order MEI, MSI, MTI, SEI, SSI, STI; with supervisor
/// delivery masked only the machine interrupts are eligible.
pub open spec fn pick_pending(pend: u64, s_masked: bool) -> Option<Interrupt> {
    if pend & csr::MASK_MEIP != 0 {
        Option::Some(Interrupt::MachineExternalInterrupt)
    } else if pend & csr::MASK_MSIP != 0 {
        Option::Some(Interrupt::MachineSoftwareInterrupt)
    } else if pend & csr::MASK_MTIP != 0 {
        Option::Some(Interrupt::MachineTimerInterrupt)
    } else if !s_masked && pend & csr::MASK_SEIP != 0 {
        Option::Some(Interrupt::SupervisorExternalInterrupt)
    } else if !s_masked && pend & csr::MASK_SSIP != 0 {
        Option::Some(Interrupt::SupervisorSoftwareInterrupt)
    } else if !s_masked && pend & csr::MASK_STIP != 0 {
        Option::Some(Interrupt::SupervisorTimerInterrupt)
    } else {
        Option::None
    }
}

/// One pass of the interrupt check between retired instructions. With
/// machine interrupts globally disabled in machine mode nothing moves;
/// otherwise the UART is polled (a pending byte claims the PLIC line for
/// the UART and raises `mip.SEIP`), and one enabled pending interrupt is
/// selected by [`pick_pending`], its `mip` bit cleared, and handed back for
/// delivery.
pub open spec fn interrupt_poll(pre: Cpu, post: Cpu, r: Option<Interrupt>) -> bool
    recommends
        pre.wf(),
{
    let mstatus = csr_read_spec(pre.csr.csrs@, csr::MSTATUS);
    if pre.mode == MACHINE && mstatus & csr::MASK_MIE == 0 {
        cpu_same(pre, post) && r is None
    } else {
        let s_masked = pre.mode == SUPERVISOR && mstatus & csr::MASK_SIE == 0;
        let c1 = if pre.bus.uart.interrupt {
            csr_write_spec(
                pre.csr.csrs@,
                csr::MIP,
                csr_read_spec(pre.csr.csrs@, csr::MIP) | csr::MASK_SEIP,
            )
        } else {
            pre.csr.csrs@
        };
        let pend = csr_read_spec(c1, csr::MIE) & csr_read_spec(c1, csr::MIP);
        let sel = pick_pending(pend, s_masked);
        &&& r == sel
        &&& post.csr.csrs@ == match sel {
            Option::Some(i) => csr_write_spec(
                c1,
                csr::MIP,
                csr_read_spec(c1, csr::MIP) & !int_mask(i),
            ),
            Option::None => c1,
        }
        &&& post.regs@ == pre.regs@
        &&& post.pc == pre.pc
        &&& post.mode == pre.mode
        &&& post.code_end == pre.code_end
        &&& post.bus.dram.dram@ == pre.bus.dram.dram@
        &&& post.bus.uart.regs@ == pre.bus.uart.regs@
        &&& post.bus.uart.output@ == pre.bus.uart.output@
        &&& post.bus.uart.interrupt == false
        &&& post.bus.plic.claim == if pre.bus.uart.interrupt {
            UART_IRQ
        } else {
            pre.bus.plic.claim
        }
        &&& post.bus.plic.pending == pre.bus.plic.pending
        &&& post.bus.plic.spriority@ == pre.bus.plic.spriority@
        &&& post.bus.plic.completed == pre.bus.plic.completed
    }
}

/// The states agree everywhere but in the program counter, which `b` holds
/// as `pc`: the hart between the execute and the interrupt check.
pub open spec fn same_but_pc(a: Cpu, b: Cpu, pc: u64) -> bool {
    &&& b.regs@ == a.regs@
    &&& b.pc == pc
    &&& b.mode == a.mode
    &&& b.code_end == a.code_end
    &&& b.csr.csrs@ == a.csr.csrs@
    &&& bus_eq(a.bus, b.bus)
}

/// What follows an executed instruction, from the state `mid` it left
/// behind. A returned next program counter is installed and the interrupt
/// check runs, delivering at most one interrupt; a raised exception goes
/// through the trap pipeline instead, unless it was fatal, which stops the
/// hart with `mid` untouched.
pub open spec fn retire_rel(mid: Cpu, post: Cpu, res: Result<u64, Exception>, r: StepOutcome) -> bool
    recommends
        mid.wf(),
{
    match res {
        Result::Ok(new_pc) => r == StepOutcome::Retired && (exists|
            mid2: Cpu,
            mid3: Cpu,
            sel: Option<Interrupt>,
        |
            {
                &&& same_but_pc(mid, mid2, new_pc)
                &&& #[trigger] interrupt_poll(mid2, mid3, sel)
                &&& match sel {
                    Option::Some(i) => interrupt_taken(mid3, post, i),
                    Option::None => cpu_same(mid3, post),
                }
            }),
        Result::Err(e) => if e.is_fatal_spec() {
            r == StepOutcome::Fatal(e) && cpu_same(mid, post)
        } else {
            r == StepOutcome::Retired && exception_taken(mid, post, e)
        },
    }
}

/// One full turn of the hart loop, composed from the phases' own
/// relations: with the program counter outside the loaded program the hart
/// halts untouched; otherwise the word at the program counter is fetched
/// (a fetch fault is delivered as its exception, or stops a fatal one),
/// decoded by [`Cpu::decode_spec`], executed per [`execute_rel`] from a
/// state the fetch left as it was, and retired per [`retire_rel`].
pub open spec fn step_rel(pre: Cpu, post: Cpu, r: StepOutcome) -> bool
    recommends
        pre.wf(),
{
    if !(DRAM_BASE <= pre.pc < pre.code_end) {
        r == StepOutcome::Halted && cpu_same(pre, post)
    } else {
        match Bus::load_result(pre.bus, pre.pc, 32) {
            Result::Err(e) => if e.is_fatal_spec() {
                r == StepOutcome::Fatal(e) && cpu_same(pre, post)
            } else {
                r == StepOutcome::Retired && exception_taken(pre, post, e)
            },
            Result::Ok(w) => exists|mid0: Cpu, mid: Cpu, res: Result<u64, Exception>|
                {
                    &&& cpu_same(pre, mid0)
                    &&& #[trigger] execute_rel(mid0, mid, Cpu::decode_spec(w as u32), res)
                    &&& retire_rel(mid, post, res, r)
                },
        }
    }
}

/// The hart state `post` is reachable from `pre` by exactly `n` retired
/// turns of the loop, each one a [`step_rel`].
pub open spec fn reaches(pre: Cpu, post: Cpu, n: nat) -> bool
    decreases n,
{
    if n == 0 {
        cpu_same(pre, post)
    } else {
        exists|mid: Cpu|
            reaches(pre, mid, (n - 1) as nat) && #[trigger] step_rel(
                mid,
                post,
                StepOutcome::Retired,
            )
    }
}

/// A single simulated hart.
pub struct Cpu {
    /// The 32 integer registers; `x0` is hardwired to zero.
    pub regs: Vec<u64>,
    /// The program counter.
    pub pc: u64,
    /// The bus with DRAM, UART and PLIC behind it.
    pub bus: Bus,
    /// The control and status register file.
    pub csr: Csr,
    /// The current privilege mode.
    pub mode: Mode,
    /// One past the last byte of the loaded program image: the hart halts
    /// when the program counter leaves `[DRAM_BASE, code_end)`.
    pub code_end: u64,
}

impl Cpu {
    pub open spec fn wf(&self) -> bool {
        &&& self.regs@.len() == 32
        &&& self.regs@[0] == 0
        &&& self.csr.wf()
        &&& self.bus.wf()
        &&& (self.mode == USER || self.mode == SUPERVISOR || self.mode == MACHINE)
        &&& DRAM_BASE <= self.code_end <= DRAM_BASE + DRAM_SIZE
    }

    /// A fresh hart over the given program image: the image bytes occupy
    /// the DRAM prefix, the program counter sits at the image start, the
    /// privilege is machine mode, and every register is zero but for the
    /// stack pointer `x2`, which points one past the end of DRAM.
    pub fn new(code: Vec<u8>) -> (r: Cpu)
        requires
            code@.len() <= DRAM_SIZE,
        ensures
            r.wf(),
            r.pc == DRAM_BASE,
            r.mode == MACHINE,
            r.code_end == DRAM_BASE + code@.len(),
            r.regs@.len() == 32,
            r.regs@[2] == DRAM_BASE + DRAM_SIZE,
            forall|i: int| 0 <= i < 32 && i != 2 ==> r.regs@[i] == 0u64,
            forall|i: int| 0 <= i < csr::NUM_CSRS ==> r.csr.csrs@[i] == 0u64,
            forall|i: int| 0 <= i < code@.len() ==> r.bus.dram.dram@[i] == code@[i],
            forall|i: int| code@.len() <= i < DRAM_SIZE ==> r.bus.dram.dram@[i] == 0u8,
            r.bus.uart.interrupt == false,
            r.bus.uart.output@ == Seq::<u8>::empty(),
            r.bus.uart.regs@[crate::uart::UART_LSR_INDEX as int]
                == crate::uart::UART_LSR_THR_STATUS_FLAG,
            forall|i: int|
                0 <= i < 8 && i != crate::uart::UART_LSR_INDEX ==> r.bus.uart.regs@[i] == 0u8,
            r.bus.plic.claim == 0,
    {
        let code_len = code.len();
        let dram = Dram::new(code);
        let bus = Bus::new(dram);
        let csrfile = Csr::new();
        let mut regs: Vec<u64> = vec![0u64; 32];
        // The stack grows down from the end of memory.
        regs[2] = DRAM_BASE + DRAM_SIZE;
        Cpu {
            regs,
            pc: DRAM_BASE,
            bus,
            csr: csrfile,
            mode: MACHINE,
            code_end: DRAM_BASE + (code_len as u64),
        }
    }

    /// The value register `i` holds; `x0` reads as zero by the register
    /// file invariant.
    pub fn read_reg(&self, i: usize) -> (r: u64)
        requires
            self.wf(),
            i < 32,
        ensures
            r == self.regs@[i as int],
    {
        self.regs[i]
    }

    /// Writes `v` to register `i`; a write to `x0` is discarded.
    fn write_reg(&mut self, i: usize, v: u64)
        requires
            old(self).wf(),
            i < 32,
        ensures
            final(self).wf(),
            final(self).regs@ == write_reg_spec(old(self).regs@, i as int, v),
            final(self).pc == old(self).pc,
            final(self).mode == old(self).mode,
            final(self).code_end == old(self).code_end,
            final(self).csr == old(self).csr,
            final(self).bus == old(self).bus,
    {
        if i != 0 {
            self.regs[i] = v;
        }
    }

    /// Reads the 32-bit instruction word at the current program counter
    /// from the bus.
    pub fn fetch(&mut self) -> (r: Result<u64, Exception>)
        requires
            old(self).wf(),
        ensures
            final(self).wf(),
            r == Bus::load_result(old(self).bus, old(self).pc, 32),
            Bus::load_post(old(self).bus, final(self).bus, old(self).pc, 32),
            final(self).regs@ == old(self).regs@,
            final(self).pc == old(self).pc,
            final(self).mode == old(self).mode,
            final(self).code_end == old(self).code_end,
            final(self).csr == old(self).csr,
    {
        self.bus.load(self.pc, 32)
    }

    /// The format a word decodes into, by opcode.
    pub open spec fn decode_spec(inst: u32) -> Instruction {
        let op = inst & 0x7F;
        if op == 0x33 || op == 0x3B {
            Instruction::R(R_Instr::decode_spec(inst))
        } else if op == 0x13 || op == 0x1B || op == 0x67 || op == 0x03 || op == 0x0F || op
            == 0x73 {
            Instruction::I(I_Instr::decode_spec(inst))
        } else if op == 0x23 {
            Instruction::S(S_Instr::decode_spec(inst))
        } else if op == 0x63 {
            Instruction::B(B_Instr::decode_spec(inst))
        } else if op == 0x37 || op == 0x17 {
            Instruction::U(U_Instr::decode_spec(inst))
        } else if op == 0x6F {
            Instruction::J(J_Instr::decode_spec(inst))
        } else {
            Instruction::Illegal(inst)
        }
    }

    /// Decodes a 32-bit word into the format its opcode selects; a word
    /// with an unknown opcode is kept whole as `Illegal`.
    pub fn decode(&self, inst: u32) -> (r: Instruction)
        ensures
            r == Self::decode_spec(inst),
            r.wf(),
    {
        let op: u32 = inst & 0x7F;
        if op == 0x33 || op == 0x3B {
            Instruction::R(R_Instr::from_u32(inst))
        } else if op == 0x13 || op == 0x1B || op == 0x67 || op == 0x03 || op == 0x0F || op
            == 0x73 {
            Instruction::I(I_Instr::from_u32(inst))
        } else if op == 0x23 {
            Instruction::S(S_Instr::from_u32(inst))
        } else if op == 0x63 {
            Instruction::B(B_Instr::from_u32(inst))
        } else if op == 0x37 || op == 0x17 {
            Instruction::U(U_Instr::from_u32(inst))
        } else if op == 0x6F {
            Instruction::J(J_Instr::from_u32(inst))
        } else {
            Instruction::Illegal(inst)
        }
    }

    /// The `OP` and `OP-32` register-register operations.
    fn exec_r(&mut self, x: R_Instr) -> (r: Result<u64, Exception>)
        requires
            old(self).wf(),
            x.wf(),
        ensures
            final(self).wf(),
            r_step(*old(self), *final(self), x, r),
    {
        let a = self.read_reg(x.rs1);
        let b = self.read_reg(x.rs2);
        let next = self.pc.wrapping_add(4);
        let val: Option<u64> = if x.opcode == 0x33 {
            if x.funct3 == 0 && x.funct7 == 0 {  // ADD
                Some(a.wrapping_add(b))
            } else if x.funct3 == 0 && x.funct7 == 0x20 {  // SUB
                Some(a.wrapping_sub(b))
            } else if x.funct3 == 1 && x.funct7 == 0 {  // SLL
                Some(a << alu::shamt6(b))
            } else if x.funct3 == 2 && x.funct7 == 0 {  // SLT
                Some(
                    if alu::signed_lt_exec(a, b) {
                        1u64
                    } else {
                        0u64
                    },
                )
            } else if x.funct3 == 3 && x.funct7 == 0 {  // SLTU
                Some(
                    if a < b {
                        1u64
                    } else {
                        0u64
                    },
                )
            } else if x.funct3 == 4 && x.funct7 == 0 {  // XOR
                Some(a ^ b)
            } else if x.funct3 == 5 && x.funct7 == 0 {  // SRL
                Some(a >> alu::shamt6(b))
            } else if x.funct3 == 5 && x.funct7 == 0x20 {  // SRA
                Some(alu::sra64_exec(a, alu::shamt6(b)))
            } else if x.funct3 == 6 && x.funct7 == 0 {  // OR
                Some(a | b)
            } else if x.funct3 == 7 && x.funct7 == 0 {  // AND
                Some(a & b)
            } else {
                None
            }
        } else if x.opcode == 0x3B {
            if x.funct3 == 0 && x.funct7 == 0 {  // ADDW
                Some(alu::sext32_exec(a.wrapping_add(b)))
            } else if x.funct3 == 0 && x.funct7 == 0x20 {  // SUBW
                Some(alu::sext32_exec(a.wrapping_sub(b)))
            } else if x.funct3 == 1 && x.funct7 == 0 {  // SLLW
                Some(alu::sext32_exec(a << alu::shamt5(b)))
            } else if x.funct3 == 5 && x.funct7 == 0 {  // SRLW
                Some(alu::sext32_exec((a & 0xFFFF_FFFF) >> alu::shamt5(b)))
            } else if x.funct3 == 5 && x.funct7 == 0x20 {  // SRAW
                Some(alu::sra64_exec(alu::sext32_exec(a), alu::shamt5(b)))
            } else {
                None
            }
        } else {
            None
        };
        match val {
            Some(v) => {
                self.write_reg(x.rd, v);
                Ok(next)
            },
            None => Err(Exception::IllegalInstruction(x.encode() as u64)),
        }
    }

    /// The `OP-IMM` and `OP-IMM-32` operations, JALR and FENCE.
    fn exec_i_arith(&mut self, x: I_Instr) -> (r: Result<u64, Exception>)
        requires
            old(self).wf(),
            x.wf(),
            x.opcode != 0x03 && x.opcode != 0x73,
        ensures
            final(self).wf(),
            i_step(*old(self), *final(self), x, r),
    {
        let a = self.read_reg(x.rs1);
        let imm12 = x.imm as u64;
        let next = self.pc.wrapping_add(4);
        if x.opcode == 0x13 {
            let val: Option<u64> = if x.funct3 == 0 {  // ADDI
                Some(a.wrapping_add(alu::sext12_exec(imm12)))
            } else if x.funct3 == 1 {  // SLLI
                if imm12 >> 6 == 0 {
                    Some(a << alu::shamt6(imm12))
                } else {
                    None
                }
            } else if x.funct3 == 2 {  // SLTI
                Some(
                    if alu::signed_lt_exec(a, alu::sext12_exec(imm12)) {
                        1u64
                    } else {
                        0u64
                    },
                )
            } else if x.funct3 == 3 {  // SLTIU
                Some(
                    if a < alu::sext12_exec(imm12) {
                        1u64
                    } else {
                        0u64
                    },
                )
            } else if x.funct3 == 4 {  // XORI
                Some(a ^ alu::sext12_exec(imm12))
            } else if x.funct3 == 5 {  // SRLI / SRAI
                if imm12 >> 6 == 0 {
                    Some(a >> alu::shamt6(imm12))
                } else if imm12 >> 6 == 0x10 {
                    Some(alu::sra64_exec(a, alu::shamt6(imm12)))
                } else {
                    None
                }
            } else if x.funct3 == 6 {  // ORI
                Some(a | alu::sext12_exec(imm12))
            } else {  // ANDI
                Some(a & alu::sext12_exec(imm12))
            };
            match val {
                Some(v) => {
                    self.write_reg(x.rd, v);
                    Ok(next)
                },
                None => Err(Exception::IllegalInstruction(x.encode() as u64)),
            }
        } else if x.opcode == 0x1B {
            let val: Option<u64> = if x.funct3 == 0 {  // ADDIW
                Some(alu::sext32_exec(a.wrapping_add(alu::sext12_exec(imm12))))
            } else if x.funct3 == 1 {  // SLLIW
                if imm12 >> 5 == 0 {
                    Some(alu::sext32_exec(a << alu::shamt5(imm12)))
                } else {
                    None
                }
            } else if x.funct3 == 5 {  // SRLIW / SRAIW
                if imm12 >> 5 == 0 {
                    Some(alu::sext32_exec((a & 0xFFFF_FFFF) >> alu::shamt5(imm12)))
                } else if imm12 >> 5 == 0x20 {
                    Some(alu::sra64_exec(alu::sext32_exec(a), alu::shamt5(imm12)))
                } else {
                    None
                }
            } else {
                None
            };
            match val {
                Some(v) => {
                    self.write_reg(x.rd, v);
                    Ok(next)
                },
                None => Err(Exception::IllegalInstruction(x.encode() as u64)),
            }
        } else if x.opcode == 0x67 {  // JALR
            if x.funct3 == 0 {
                let target = a.wrapping_add(alu::sext12_exec(imm12)) & !1u64;
                self.write_reg(x.rd, next);
                Ok(target)
            } else {
                Err(Exception::IllegalInstruction(x.encode() as u64))
            }
        } else if x.opcode == 0x0F {  // FENCE: nothing to order on one hart
            Ok(next)
        } else {
            Err(Exception::IllegalInstruction(x.encode() as u64))
        }
    }

    /// The `LOAD` group: a bus read, extended into the destination register.
    fn exec_load(&mut self, x: I_Instr) -> (r: Result<u64, Exception>)
        requires
            old(self).wf(),
            x.wf(),
            x.opcode == 0x03,
        ensures
            final(self).wf(),
            load_step(*old(self), *final(self), x, r),
    {
        let size: u64 = if x.funct3 == 0 || x.funct3 == 4 {
            8
        } else if x.funct3 == 1 || x.funct3 == 5 {
            16
        } else if x.funct3 == 2 || x.funct3 == 6 {
            32
        } else if x.funct3 == 3 {
            64
        } else {
            return Err(Exception::IllegalInstruction(x.encode() as u64));
        };
        let a = self.read_reg(x.rs1);
        let addr = a.wrapping_add(alu::sext12_exec(x.imm as u64));
        let next = self.pc.wrapping_add(4);
        match self.bus.load(addr, size) {
            Ok(v) => {
                let extended = if x.funct3 == 0 {
                    alu::sext8_exec(v)
                } else if x.funct3 == 1 {
                    alu::sext16_exec(v)
                } else if x.funct3 == 2 {
                    alu::sext32_exec(v)
                } else {
                    v
                };
                self.write_reg(x.rd, extended);
                Ok(next)
            },
            Err(e) => Err(e),
        }
    }

    /// The `SYSTEM` group: ECALL, EBREAK, the trap returns and Zicsr.
    fn exec_system(&mut self, x: I_Instr) -> (r: Result<u64, Exception>)
        requires
            old(self).wf(),
            x.wf(),
            x.opcode == 0x73,
        ensures
            final(self).wf(),
            system_step(*old(self), *final(self), x, r),
    {
        let next = self.pc.wrapping_add(4);
        if x.funct3 == 0 {
            if x.imm == 0 {  // ECALL
                Err(
                    if self.mode == MACHINE {
                        Exception::EnvironmentCallFromMMode
                    } else if self.mode == SUPERVISOR {
                        Exception::EnvironmentCallFromSMode
                    } else {
                        Exception::EnvironmentCallFromUMode
                    },
                )
            } else if x.imm == 1 {  // EBREAK
                Err(Exception::Breakpoint)
            } else if x.imm == 0x102 {  // SRET
                if self.mode == SUPERVISOR || self.mode == MACHINE {
                    let st = self.csr.load(csr::SSTATUS);
                    let epc = self.csr.load(csr::SEPC);
                    let new_mode = if st & csr::MASK_SPP != 0 {
                        SUPERVISOR
                    } else {
                        USER
                    };
                    let new_status = (st & !(csr::MASK_SIE | csr::MASK_SPIE | csr::MASK_SPP)) | (
                    if st & csr::MASK_SPIE != 0 {
                        csr::MASK_SIE
                    } else {
                        0u64
                    }) | csr::MASK_SPIE;
                    self.csr.store(csr::SSTATUS, new_status);
                    self.mode = new_mode;
                    Ok(epc & !0b11u64)
                } else {
                    Err(Exception::IllegalInstruction(x.encode() as u64))
                }
            } else if x.imm == 0x302 {  // MRET
                if self.mode == MACHINE {
                    let st = self.csr.load(csr::MSTATUS);
                    let epc = self.csr.load(csr::MEPC);
                    let mpp = (st & csr::MASK_MPP) >> 11;
                    let new_mode = if mpp == 3 {
                        MACHINE
                    } else if mpp == 1 {
                        SUPERVISOR
                    } else {
                        USER
                    };
                    let new_status = (st & !(csr::MASK_MIE | csr::MASK_MPIE | csr::MASK_MPP)) | (
                    if st & csr::MASK_MPIE != 0 {
                        csr::MASK_MIE
                    } else {
                        0u64
                    }) | csr::MASK_MPIE;
                    self.csr.store(csr::MSTATUS, new_status);
                    self.mode = new_mode;
                    Ok(epc & !0b11u64)
                } else {
                    Err(Exception::IllegalInstruction(x.encode() as u64))
                }
            } else {
                Err(Exception::IllegalInstruction(x.encode() as u64))
            }
        } else if x.funct3 == 4 {
            Err(Exception::IllegalInstruction(x.encode() as u64))
        } else {
            let addr = x.imm;
            let t = self.csr.load(addr);
            let a = self.read_reg(x.rs1);
            let zimm = x.rs1 as u64;
            if x.funct3 == 1 {  // CSRRW
                self.csr.store(addr, a);
            } else if x.funct3 == 2 {  // CSRRS
                if x.rs1 != 0 {
                    self.csr.store(addr, t | a);
                }
            } else if x.funct3 == 3 {  // CSRRC
                if x.rs1 != 0 {
                    self.csr.store(addr, t & !a);
                }
            } else if x.funct3 == 5 {  // CSRRWI
                self.csr.store(addr, zimm);
            } else if x.funct3 == 6 {  // CSRRSI
                if zimm != 0 {
                    self.csr.store(addr, t | zimm);
                }
            } else {  // CSRRCI
                if zimm != 0 {
                    self.csr.store(addr, t & !zimm);
                }
            }
            self.write_reg(x.rd, t);
            Ok(next)
        }
    }

    /// The `STORE` group: the low bits of `rs2` written through the bus.
    fn exec_s(&mut self, x: S_Instr) -> (r: Result<u64, Exception>)
        requires
            old(self).wf(),
            x.wf(),
        ensures
            final(self).wf(),
            s_step(*old(self), *final(self), x, r),
    {
        if x.opcode != 0x23 {
            return Err(Exception::IllegalInstruction(x.encode() as u64));
        }
        let size: u64 = if x.funct3 == 0 {
            8
        } else if x.funct3 == 1 {
            16
        } else if x.funct3 == 2 {
            32
        } else if x.funct3 == 3 {
            64
        } else {
            return Err(Exception::IllegalInstruction(x.encode() as u64));
        };
        let a = self.read_reg(x.rs1);
        let b = self.read_reg(x.rs2);
        let addr = a.wrapping_add(alu::sext12_exec(x.imm as u64));
        let next = self.pc.wrapping_add(4);
        match self.bus.store(addr, size, b) {
            Ok(u) => Ok(next),
            Err(e) => Err(e),
        }
    }

    /// The `BRANCH` group.
    fn exec_b(&mut self, x: B_Instr) -> (r: Result<u64, Exception>)
        requires
            old(self).wf(),
            x.wf(),
        ensures
            final(self).wf(),
            b_step(*old(self), *final(self), x, r),
    {
        if x.opcode != 0x63 {
            return Err(Exception::IllegalInstruction(x.encode() as u64));
        }
        let a = self.read_reg(x.rs1);
        let b = self.read_reg(x.rs2);
        let next = self.pc.wrapping_add(4);
        let taken: bool = if x.funct3 == 0 {  // BEQ
            a == b
        } else if x.funct3 == 1 {  // BNE
            a != b
        } else if x.funct3 == 4 {  // BLT
            alu::signed_lt_exec(a, b)
        } else if x.funct3 == 5 {  // BGE
            !alu::signed_lt_exec(a, b)
        } else if x.funct3 == 6 {  // BLTU
            a < b
        } else if x.funct3 == 7 {  // BGEU
            a >= b
        } else {
            return Err(Exception::IllegalInstruction(x.encode() as u64));
        };
        if taken {
            Ok(self.pc.wrapping_add(alu::sext13_exec(x.imm as u64)))
        } else {
            Ok(next)
        }
    }

    /// LUI and AUIPC.
    fn exec_u(&mut self, x: U_Instr) -> (r: Result<u64, Exception>)
        requires
            old(self).wf(),
            x.wf(),
        ensures
            final(self).wf(),
            u_step(*old(self), *final(self), x, r),
    {
        let next = self.pc.wrapping_add(4);
        let imm = alu::sext32_exec((x.imm as u64) << 12);
        if x.opcode == 0x37 {  // LUI
            self.write_reg(x.rd, imm);
            Ok(next)
        } else if x.opcode == 0x17 {  // AUIPC
            self.write_reg(x.rd, self.pc.wrapping_add(imm));
            Ok(next)
        } else {
            Err(Exception::IllegalInstruction(x.encode() as u64))
        }
    }

    /// JAL.
    fn exec_j(&mut self, x: J_Instr) -> (r: Result<u64, Exception>)
        requires
            old(self).wf(),
            x.wf(),
        ensures
            final(self).wf(),
            j_step(*old(self), *final(self), x, r),
    {
        if x.opcode != 0x6F {
            return Err(Exception::IllegalInstruction(x.encode() as u64));
        }
        let next = self.pc.wrapping_add(4);
        let target = self.pc.wrapping_add(alu::sext21_exec(x.imm as u64));
        self.write_reg(x.rd, next);
        Ok(target)
    }

    /// Executes one decoded instruction against the hart state and returns
    /// the next program counter; a raised exception leaves the program
    /// counter to the trap pipeline. What retired and how is pinned down
    /// per format by [`r_step`], [`i_step`], [`s_step`], [`b_step`],
    /// [`u_step`] and [`j_step`].
    pub fn execute(&mut self, inst: Instruction) -> (r: Result<u64, Exception>)
        requires
            old(self).wf(),
            inst.wf(),
        ensures
            final(self).wf(),
            final(self).pc == old(self).pc,
            final(self).code_end == old(self).code_end,
            final(self).regs@[0] == 0,
            execute_rel(*old(self), *final(self), inst, r),
    {
        match inst {
            Instruction::R(x) => self.exec_r(x),
            Instruction::I(x) => {
                if x.opcode == 0x03 {
                    self.exec_load(x)
                } else if x.opcode == 0x73 {
                    self.exec_system(x)
                } else {
                    self.exec_i_arith(x)
                }
            },
            Instruction::S(x) => self.exec_s(x),
            Instruction::B(x) => self.exec_b(x),
            Instruction::U(x) => self.exec_u(x),
            Instruction::J(x) => self.exec_j(x),
            Instruction::Illegal(w) => Err(Exception::IllegalInstruction(w as u64)),
        }
    }

    /// Delivers an asynchronous interrupt through the trap pipeline: the
    /// saved program counter is the next instruction's (the current `pc`),
    /// the trap value is zero, and a vectored `xTVEC` offsets the handler
    /// by four times the cause.
    pub fn handle_interrupt(&mut self, interrupt: Interrupt)
        requires
            old(self).wf(),
        ensures
            final(self).wf(),
            interrupt_taken(*old(self), *final(self), interrupt),
            final(self).pc % 4 == 0,
    {
        let pc = self.pc;
        let mode = self.mode;
        let idx = interrupt.index();
        let cause = interrupt.code();
        let deleg = mode != MACHINE && (self.csr.load(csr::MIDELEG) >> idx) & 1 == 1;
        if deleg {
            let tvec = self.csr.load(csr::STVEC);
            self.pc = if tvec & 0b11 == 1 {
                (tvec & !0b11u64).wrapping_add(4 * idx)
            } else {
                tvec & !0b11u64
            };
            self.csr.store(csr::SEPC, pc);
            self.csr.store(csr::SCAUSE, cause);
            self.csr.store(csr::STVAL, 0);
            let status = self.csr.load(csr::SSTATUS);
            let new_status = (status & !(csr::MASK_SIE | csr::MASK_SPIE | csr::MASK_SPP)) | (
            if status & csr::MASK_SIE != 0 {
                csr::MASK_SPIE
            } else {
                0u64
            }) | (mode << 8);
            self.csr.store(csr::SSTATUS, new_status);
            self.mode = SUPERVISOR;
            proof {
                lemma_trap_target_aligned(tvec, interrupt.index_spec(), true);
            }
        } else {
            let tvec = self.csr.load(csr::MTVEC);
            self.pc = if tvec & 0b11 == 1 {
                (tvec & !0b11u64).wrapping_add(4 * idx)
            } else {
                tvec & !0b11u64
            };
            self.csr.store(csr::MEPC, pc);
            self.csr.store(csr::MCAUSE, cause);
            self.csr.store(csr::MTVAL, 0);
            let status = self.csr.load(csr::MSTATUS);
            let new_status = (status & !(csr::MASK_MIE | csr::MASK_MPIE | csr::MASK_MPP)) | (
            if status & csr::MASK_MIE != 0 {
                csr::MASK_MPIE
            } else {
                0u64
            }) | (mode << 11);
            self.csr.store(csr::MSTATUS, new_status);
            self.mode = MACHINE;
            proof {
                lemma_trap_target_aligned(tvec, interrupt.index_spec(), true);
            }
        }
    }

    /// Delivers a synchronous exception through the trap pipeline, or
    /// reports it fatal and leaves the hart untouched so the loop can
    /// abort. The saved program counter is the faulting instruction's own.
    pub fn handle_error(&mut self, error: Exception) -> (fatal: bool)
        requires
            old(self).wf(),
        ensures
            final(self).wf(),
            fatal == error.is_fatal_spec(),
            fatal ==> cpu_same(*old(self), *final(self)),
            !fatal ==> exception_taken(*old(self), *final(self), error),
            !fatal ==> final(self).pc % 4 == 0,
    {
        if error.is_fatal() {
            return true;
        }
        let pc = self.pc;
        let mode = self.mode;
        let cause = error.code();
        let tval = error.value();
        let deleg = mode != MACHINE && (self.csr.load(csr::MEDELEG) >> cause) & 1 == 1;
        if deleg {
            let tvec = self.csr.load(csr::STVEC);
            self.pc = tvec & !0b11u64;
            self.csr.store(csr::SEPC, pc);
            self.csr.store(csr::SCAUSE, cause);
            self.csr.store(csr::STVAL, tval);
            let status = self.csr.load(csr::SSTATUS);
            let new_status = (status & !(csr::MASK_SIE | csr::MASK_SPIE | csr::MASK_SPP)) | (
            if status & csr::MASK_SIE != 0 {
                csr::MASK_SPIE
            } else {
                0u64
            }) | (mode << 8);
            self.csr.store(csr::SSTATUS, new_status);
            self.mode = SUPERVISOR;
            proof {
                lemma_mask_low2_aligned(tvec);
            }
        } else {
            let tvec = self.csr.load(csr::MTVEC);
            self.pc = tvec & !0b11u64;
            self.csr.store(csr::MEPC, pc);
            self.csr.store(csr::MCAUSE, cause);
            self.csr.store(csr::MTVAL, tval);
            let status = self.csr.load(csr::MSTATUS);
            let new_status = (status & !(csr::MASK_MIE | csr::MASK_MPIE | csr::MASK_MPP)) | (
            if status & csr::MASK_MIE != 0 {
                csr::MASK_MPIE
            } else {
                0u64
            }) | (mode << 11);
            self.csr.store(csr::MSTATUS, new_status);
            self.mode = MACHINE;
            proof {
                lemma_mask_low2_aligned(tvec);
            }
        }
        false
    }

    /// Evaluates pending interrupts after a retired instruction, as
    /// [`interrupt_poll`] states: machine mode with `mstatus.MIE` clear
    /// takes nothing; supervisor mode with `mstatus.SIE` clear masks
    /// supervisor delivery; a pending UART byte claims the PLIC line and
    /// raises `mip.SEIP`; then the highest-priority enabled pending
    /// interrupt is picked and its pending bit cleared.
    pub fn check_pending_interrupt(&mut self) -> (r: Option<Interrupt>)
        requires
            old(self).wf(),
        ensures
            final(self).wf(),
            interrupt_poll(*old(self), *final(self), r),
    {
        if self.mode == MACHINE && (self.csr.load(csr::MSTATUS) & csr::MASK_MIE) == 0 {
            return None;
        }
        let s_masked = self.mode == SUPERVISOR && (self.csr.load(csr::MSTATUS) & csr::MASK_SIE)
            == 0;
        if self.bus.uart.is_interrupting() {
            let _ = self.bus.store(PLIC_CLAIM_ADDR, 32, UART_IRQ);
            let mip = self.csr.load(csr::MIP);
            self.csr.store(csr::MIP, mip | csr::MASK_SEIP);
        }
        let pending = self.csr.load(csr::MIE) & self.csr.load(csr::MIP);
        if pending & csr::MASK_MEIP != 0 {
            let mip = self.csr.load(csr::MIP);
            self.csr.store(csr::MIP, mip & !csr::MASK_MEIP);
            return Some(Interrupt::MachineExternalInterrupt);
        }
        if pending & csr::MASK_MSIP != 0 {
            let mip = self.csr.load(csr::MIP);
            self.csr.store(csr::MIP, mip & !csr::MASK_MSIP);
            return Some(Interrupt::MachineSoftwareInterrupt);
        }
        if pending & csr::MASK_MTIP != 0 {
            let mip = self.csr.load(csr::MIP);
            self.csr.store(csr::MIP, mip & !csr::MASK_MTIP);
            return Some(Interrupt::MachineTimerInterrupt);
        }
        if s_masked {
            return None;
        }
        if pending & csr::MASK_SEIP != 0 {
            let mip = self.csr.load(csr::MIP);
            self.csr.store(csr::MIP, mip & !csr::MASK_SEIP);
            return Some(Interrupt::SupervisorExternalInterrupt);
        }
        if pending & csr::MASK_SSIP != 0 {
            let mip = self.csr.load(csr::MIP);
            self.csr.store(csr::MIP, mip & !csr::MASK_SSIP);
            return Some(Interrupt::SupervisorSoftwareInterrupt);
        }
        if pending & csr::MASK_STIP != 0 {
            let mip = self.csr.load(csr::MIP);
            self.csr.store(csr::MIP, mip & !csr::MASK_STIP);
            return Some(Interrupt::SupervisorTimerInterrupt);
        }
        None
    }

    /// Drives one turn of the hart loop: fetch, decode, execute, then the
    /// interrupt check; a raised exception goes through the trap pipeline
    /// and the hart resumes, unless it was fatal. With the program counter
    /// outside the loaded program nothing moves and the hart halts. The
    /// whole turn is pinned down by [`step_rel`].
    pub fn step(&mut self) -> (r: StepOutcome)
        requires
            old(self).wf(),
        ensures
            final(self).wf(),
            final(self).regs@[0] == 0,
            final(self).code_end == old(self).code_end,
            (r == StepOutcome::Halted) == !(DRAM_BASE <= old(self).pc < old(self).code_end),
            forall|e: Exception| r == StepOutcome::Fatal(e) ==> e.is_fatal_spec(),
            step_rel(*old(self), *final(self), r),
    {
        if !(DRAM_BASE <= self.pc && self.pc < self.code_end) {
            return StepOutcome::Halted;
        }
        let word = match self.fetch() {
            Ok(w) => w,
            Err(e) => {
                if self.handle_error(e) {
                    return StepOutcome::Fatal(e);
                }
                return StepOutcome::Retired;
            },
        };
        let ghost mid0: Cpu = *self;
        let inst = self.decode(word as u32);
        let res = self.execute(inst);
        let ghost mid: Cpu = *self;
        match res {
            Ok(new_pc) => {
                self.pc = new_pc;
                let ghost mid2: Cpu = *self;
                let sel = self.check_pending_interrupt();
                let ghost mid3: Cpu = *self;
                match sel {
                    Some(intr) => self.handle_interrupt(intr),
                    None => (),
                }
                proof {
                    assert(same_but_pc(mid, mid2, new_pc));
                    assert(interrupt_poll(mid2, mid3, sel));
                    assert(retire_rel(mid, *self, Result::Ok(new_pc), StepOutcome::Retired));
                    assert(execute_rel(mid0, mid, Self::decode_spec(word as u32), res));
                }
                StepOutcome::Retired
            },
            Err(e) => {
                if self.handle_error(e) {
                    proof {
                        assert(execute_rel(mid0, mid, Self::decode_spec(word as u32), res));
                    }
                    return StepOutcome::Fatal(e);
                }
                proof {
                    assert(execute_rel(mid0, mid, Self::decode_spec(word as u32), res));
                }
                return StepOutcome::Retired;
            },
        }
    }

    /// Runs the hart loop for at most `max_steps` retired instructions:
    /// until the program counter leaves the loaded program (an orderly
    /// halt), a fatal exception aborts the loop, or the budget runs out
    /// with the hart still running (the caller then calls again to go on).
    /// Whatever the program did, the final state was reached from the
    /// initial one by a chain of [`step_rel`] turns, and `x0` still reads
    /// as zero.
    pub fn run(&mut self, max_steps: u64) -> (r: RunOutcome)
        requires
            old(self).wf(),
        ensures
            final(self).wf(),
            final(self).regs@[0] == 0,
            final(self).code_end == old(self).code_end,
            r == RunOutcome::Halted ==> !(DRAM_BASE <= final(self).pc < final(self).code_end),
            forall|e: Exception| r == RunOutcome::Fatal(e) ==> e.is_fatal_spec(),
            match r {
                RunOutcome::OutOfSteps => reaches(*old(self), *final(self), max_steps as nat),
                RunOutcome::Halted => exists|n: nat, last: Cpu|
                    n <= max_steps && #[trigger] reaches(*old(self), last, n) && step_rel(
                        last,
                        *final(self),
                        StepOutcome::Halted,
                    ),
                RunOutcome::Fatal(e) => exists|n: nat, last: Cpu|
                    n <= max_steps && #[trigger] reaches(*old(self), last, n) && step_rel(
                        last,
                        *final(self),
                        StepOutcome::Fatal(e),
                    ),
            },
    {
        let mut steps: u64 = 0;
        while steps < max_steps
            invariant
                self.wf(),
                self.code_end == old(self).code_end,
                steps <= max_steps,
                reaches(*old(self), *self, steps as nat),
            decreases max_steps - steps,
        {
            let ghost before: Cpu = *self;
            let outcome = self.step();
            match outcome {
                StepOutcome::Retired => {
                    proof {
                        let n1: nat = (steps + 1) as nat;
                        assert(reaches(*old(self), before, (n1 - 1) as nat));
                        assert(step_rel(before, *self, StepOutcome::Retired));
                        assert(reaches(*old(self), *self, n1));
                    }
                    steps = steps + 1;
                },
                StepOutcome::Halted => {
                    return RunOutcome::Halted;
                },
                StepOutcome::Fatal(e) => {
                    return RunOutcome::Fatal(e);
                },
            }
        }
        RunOutcome::OutOfSteps
    }
}

} // verus!
