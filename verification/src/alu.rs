//! Value-level semantics of the RV64I integer operations.
//!
//! Spec functions state what each operation computes on 64-bit register
//! values; the executable helpers mirror them and are what the executor
//! calls. All arithmetic wraps around, as the base ISA demands.

use vstd::prelude::*;

verus! {

/// Sign bit of a 64-bit register value.
pub const SIGN_BIT: u64 = 1u64 << 63;

/// Addition modulo 2^64.
pub open spec fn wadd(a: u64, b: u64) -> u64 {
    vstd::wrapping::u64_specs::wrapping_add(a, b)
}

/// Subtraction modulo 2^64.
pub open spec fn wsub(a: u64, b: u64) -> u64 {
    vstd::wrapping::u64_specs::wrapping_sub(a, b)
}

/// The value of a register read as a two's-complement signed integer.
pub open spec fn as_signed(a: u64) -> int {
    if a < SIGN_BIT {
        a as int
    } else {
        a - 0x1_0000_0000_0000_0000
    }
}

/// Signed less-than on two's-complement register values.
pub open spec fn signed_lt(a: u64, b: u64) -> bool {
    as_signed(a) < as_signed(b)
}

/// A 12-bit immediate sign-extended to 64 bits.
pub open spec fn sext12(imm: u64) -> u64
    recommends
        imm < 0x1000,
{
    if imm & 0x800 != 0 {
        imm | 0xFFFF_FFFF_FFFF_F000
    } else {
        imm
    }
}

/// A 13-bit branch offset sign-extended to 64 bits.
pub open spec fn sext13(imm: u64) -> u64
    recommends
        imm < 0x2000,
{
    if imm & 0x1000 != 0 {
        imm | 0xFFFF_FFFF_FFFF_E000
    } else {
        imm
    }
}

/// A 21-bit jump offset sign-extended to 64 bits.
pub open spec fn sext21(imm: u64) -> u64
    recommends
        imm < 0x20_0000,
{
    if imm & 0x10_0000 != 0 {
        imm | 0xFFFF_FFFF_FFE0_0000
    } else {
        imm
    }
}

/// The low byte of a loaded value sign-extended to 64 bits.
pub open spec fn sext8(v: u64) -> u64 {
    if v & 0x80 != 0 {
        (v & 0xFF) | 0xFFFF_FFFF_FFFF_FF00
    } else {
        v & 0xFF
    }
}

/// The low half-word of a loaded value sign-extended to 64 bits.
pub open spec fn sext16(v: u64) -> u64 {
    if v & 0x8000 != 0 {
        (v & 0xFFFF) | 0xFFFF_FFFF_FFFF_0000
    } else {
        v & 0xFFFF
    }
}

/// The low word of a value sign-extended to 64 bits, as every
/// 32-bit operation's result is.
pub open spec fn sext32(v: u64) -> u64 {
    if v & 0x8000_0000 != 0 {
        (v & 0xFFFF_FFFF) | 0xFFFF_FFFF_0000_0000
    } else {
        v & 0xFFFF_FFFF
    }
}

/// 64-bit arithmetic shift right: the sign bit is replicated into the
/// vacated positions.
pub open spec fn sra64(a: u64, s: u64) -> u64
    recommends
        s < 64,
{
    if s == 0 {
        a
    } else if a & SIGN_BIT == 0 {
        a >> s
    } else {
        (a >> s) | (0xFFFF_FFFF_FFFF_FFFFu64 << (64 - s))
    }
}

/// What an `OP-IMM` instruction computes from the register value `a` and
/// the raw 12-bit immediate, or `None` when the funct fields name no
/// operation. Shifts take their amount from the low 6 bits of the
/// immediate; the remaining bits select between the logical and the
/// arithmetic right shift and must otherwise be zero.
pub open spec fn op_imm_value(funct3: u64, imm12: u64, a: u64) -> Option<u64>
    recommends
        funct3 < 8,
        imm12 < 0x1000,
{
    if funct3 == 0 {  // ADDI
        Some(wadd(a, sext12(imm12)))
    } else if funct3 == 1 {  // SLLI
        if imm12 >> 6 == 0 {
            Some(a << (imm12 & 0x3F))
        } else {
            None
        }
    } else if funct3 == 2 {  // SLTI
        Some(
            if signed_lt(a, sext12(imm12)) {
                1u64
            } else {
                0u64
            },
        )
    } else if funct3 == 3 {  // SLTIU
        Some(
            if a < sext12(imm12) {
                1u64
            } else {
                0u64
            },
        )
    } else if funct3 == 4 {  // XORI
        Some(a ^ sext12(imm12))
    } else if funct3 == 5 {  // SRLI / SRAI
        if imm12 >> 6 == 0 {
            Some(a >> (imm12 & 0x3F))
        } else if imm12 >> 6 == 0x10 {
            Some(sra64(a, imm12 & 0x3F))
        } else {
            None
        }
    } else if funct3 == 6 {  // ORI
        Some(a | sext12(imm12))
    } else {  // ANDI
        Some(a & sext12(imm12))
    }
}

/// What an `OP-IMM-32` instruction computes: the 32-bit result,
/// sign-extended to 64 bits.
pub open spec fn op_imm32_value(funct3: u64, imm12: u64, a: u64) -> Option<u64>
    recommends
        funct3 < 8,
        imm12 < 0x1000,
{
    if funct3 == 0 {  // ADDIW
        Some(sext32(wadd(a, sext12(imm12))))
    } else if funct3 == 1 {  // SLLIW
        if imm12 >> 5 == 0 {
            Some(sext32(a << (imm12 & 0x1F)))
        } else {
            None
        }
    } else if funct3 == 5 {  // SRLIW / SRAIW
        if imm12 >> 5 == 0 {
            Some(sext32((a & 0xFFFF_FFFF) >> (imm12 & 0x1F)))
        } else if imm12 >> 5 == 0x20 {
            Some(sra64(sext32(a), imm12 & 0x1F))
        } else {
            None
        }
    } else {
        None
    }
}

/// What an `OP` instruction computes from the register values `a` and `b`.
/// Shifts take their amount from the low 6 bits of `b`.
pub open spec fn op_value(funct3: u64, funct7: u64, a: u64, b: u64) -> Option<u64>
    recommends
        funct3 < 8,
        funct7 < 128,
{
    if funct3 == 0 && funct7 == 0 {  // ADD
        Some(wadd(a, b))
    } else if funct3 == 0 && funct7 == 0x20 {  // SUB
        Some(wsub(a, b))
    } else if funct3 == 1 && funct7 == 0 {  // SLL
        Some(a << (b & 0x3F))
    } else if funct3 == 2 && funct7 == 0 {  // SLT
        Some(
            if signed_lt(a, b) {
                1u64
            } else {
                0u64
            },
        )
    } else if funct3 == 3 && funct7 == 0 {  // SLTU
        Some(
            if a < b {
                1u64
            } else {
                0u64
            },
        )
    } else if funct3 == 4 && funct7 == 0 {  // XOR
        Some(a ^ b)
    } else if funct3 == 5 && funct7 == 0 {  // SRL
        Some(a >> (b & 0x3F))
    } else if funct3 == 5 && funct7 == 0x20 {  // SRA
        Some(sra64(a, b & 0x3F))
    } else if funct3 == 6 && funct7 == 0 {  // OR
        Some(a | b)
    } else if funct3 == 7 && funct7 == 0 {  // AND
        Some(a & b)
    } else {
        None
    }
}

/// What an `OP-32` instruction computes: the 32-bit result, sign-extended
/// to 64 bits. Shifts take their amount from the low 5 bits of `b`.
pub open spec fn op32_value(funct3: u64, funct7: u64, a: u64, b: u64) -> Option<u64>
    recommends
        funct3 < 8,
        funct7 < 128,
{
    if funct3 == 0 && funct7 == 0 {  // ADDW
        Some(sext32(wadd(a, b)))
    } else if funct3 == 0 && funct7 == 0x20 {  // SUBW
        Some(sext32(wsub(a, b)))
    } else if funct3 == 1 && funct7 == 0 {  // SLLW
        Some(sext32(a << (b & 0x1F)))
    } else if funct3 == 5 && funct7 == 0 {  // SRLW
        Some(sext32((a & 0xFFFF_FFFF) >> (b & 0x1F)))
    } else if funct3 == 5 && funct7 == 0x20 {  // SRAW
        Some(sra64(sext32(a), b & 0x1F))
    } else {
        None
    }
}

/// Whether a `BRANCH` instruction takes its target, or `None` when the
/// funct3 names no condition.
pub open spec fn branch_taken(funct3: u64, a: u64, b: u64) -> Option<bool>
    recommends
        funct3 < 8,
{
    if funct3 == 0 {  // BEQ
        Some(a == b)
    } else if funct3 == 1 {  // BNE
        Some(a != b)
    } else if funct3 == 4 {  // BLT
        Some(signed_lt(a, b))
    } else if funct3 == 5 {  // BGE
        Some(!signed_lt(a, b))
    } else if funct3 == 6 {  // BLTU
        Some(a < b)
    } else if funct3 == 7 {  // BGEU
        Some(a >= b)
    } else {
        None
    }
}

/// The access width of a `LOAD` in bits, or `None` when the funct3 names no
/// load.
pub open spec fn load_size(funct3: u64) -> Option<u64>
    recommends
        funct3 < 8,
{
    if funct3 == 0 || funct3 == 4 {  // LB / LBU
        Some(8u64)
    } else if funct3 == 1 || funct3 == 5 {  // LH / LHU
        Some(16u64)
    } else if funct3 == 2 || funct3 == 6 {  // LW / LWU
        Some(32u64)
    } else if funct3 == 3 {  // LD
        Some(64u64)
    } else {
        None
    }
}

/// How a loaded value lands in the destination register: sign-extended for
/// LB, LH and LW, unchanged for LD and the unsigned loads (the bus already
/// zero-extends).
pub open spec fn load_extend(funct3: u64, v: u64) -> u64
    recommends
        funct3 < 8,
        funct3 != 7,
{
    if funct3 == 0 {
        sext8(v)
    } else if funct3 == 1 {
        sext16(v)
    } else if funct3 == 2 {
        sext32(v)
    } else {
        v
    }
}

/// The access width of a `STORE` in bits, or `None` when the funct3 names
/// no store.
pub open spec fn store_size(funct3: u64) -> Option<u64>
    recommends
        funct3 < 8,
{
    if funct3 == 0 {  // SB
        Some(8u64)
    } else if funct3 == 1 {  // SH
        Some(16u64)
    } else if funct3 == 2 {  // SW
        Some(32u64)
    } else if funct3 == 3 {  // SD
        Some(64u64)
    } else {
        None
    }
}

/// Executable mirror of [`signed_lt`], computed without a signed cast: when
/// the sign bits differ the negative operand is the smaller, otherwise the
/// unsigned order is the signed order.
pub fn signed_lt_exec(a: u64, b: u64) -> (r: bool)
    ensures
        r == signed_lt(a, b),
{
    if (a >= SIGN_BIT) != (b >= SIGN_BIT) {
        a >= SIGN_BIT
    } else {
        a < b
    }
}

/// A shift amount confined to the low 6 bits, as RV64 shifts demand.
pub fn shamt6(x: u64) -> (s: u64)
    ensures
        s == x & 0x3F,
        s < 64,
{
    proof {
        assert(x & 0x3F < 64) by (bit_vector);
    }
    x & 0x3F
}

/// A shift amount confined to the low 5 bits, for the 32-bit shifts.
pub fn shamt5(x: u64) -> (s: u64)
    ensures
        s == x & 0x1F,
        s < 32,
{
    proof {
        assert(x & 0x1F < 32) by (bit_vector);
    }
    x & 0x1F
}

/// Executable mirror of [`sext12`].
pub fn sext12_exec(imm: u64) -> (r: u64)
    ensures
        r == sext12(imm),
{
    if imm & 0x800 != 0 {
        imm | 0xFFFF_FFFF_FFFF_F000
    } else {
        imm
    }
}

/// Executable mirror of [`sext13`].
pub fn sext13_exec(imm: u64) -> (r: u64)
    ensures
        r == sext13(imm),
{
    if imm & 0x1000 != 0 {
        imm | 0xFFFF_FFFF_FFFF_E000
    } else {
        imm
    }
}

/// Executable mirror of [`sext21`].
pub fn sext21_exec(imm: u64) -> (r: u64)
    ensures
        r == sext21(imm),
{
    if imm & 0x10_0000 != 0 {
        imm | 0xFFFF_FFFF_FFE0_0000
    } else {
        imm
    }
}

/// Executable mirror of [`sext8`].
pub fn sext8_exec(v: u64) -> (r: u64)
    ensures
        r == sext8(v),
{
    if v & 0x80 != 0 {
        (v & 0xFF) | 0xFFFF_FFFF_FFFF_FF00
    } else {
        v & 0xFF
    }
}

/// Executable mirror of [`sext16`].
pub fn sext16_exec(v: u64) -> (r: u64)
    ensures
        r == sext16(v),
{
    if v & 0x8000 != 0 {
        (v & 0xFFFF) | 0xFFFF_FFFF_FFFF_0000
    } else {
        v & 0xFFFF
    }
}

/// Executable mirror of [`sext32`].
pub fn sext32_exec(v: u64) -> (r: u64)
    ensures
        r == sext32(v),
{
    if v & 0x8000_0000 != 0 {
        (v & 0xFFFF_FFFF) | 0xFFFF_FFFF_0000_0000
    } else {
        v & 0xFFFF_FFFF
    }
}

/// Executable mirror of [`sra64`].
pub fn sra64_exec(a: u64, s: u64) -> (r: u64)
    requires
        s < 64,
    ensures
        r == sra64(a, s),
{
    if s == 0 {
        a
    } else if a & SIGN_BIT == 0 {
        a >> s
    } else {
        (a >> s) | (0xFFFF_FFFF_FFFF_FFFFu64 << (64 - s))
    }
}

} // verus!
