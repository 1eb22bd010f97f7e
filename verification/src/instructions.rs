//! Decoding of 32-bit instruction words into the six RISC-V formats.
//!
//! Field layout, low bits to the right:
//!
//! ```text
//! | funct7        | rs2 | rs1 | funct3 | rd              | opcode |  R
//! | imm[11:0]           | rs1 | funct3 | rd              | opcode |  I
//! | imm[11:5]     | rs2 | rs1 | funct3 | imm[4:0]        | opcode |  S
//! | imm[12|10:5]  | rs2 | rs1 | funct3 | imm[4:1] imm[11]| opcode |  B
//! | imm[31:12]                         | rd              | opcode |  U
//! | imm[20|10:1|11|19:12]              | rd              | opcode |  J
//! ```
//!
//! The structs hold each immediate as the raw, zero-extended bit pattern
//! (with the implicit low zero bit of the B and J offsets restored); the
//! executor sign-extends it to 64 bits.

use vstd::prelude::*;

verus! {

#[derive(Debug, PartialEq, Eq, Structural)]
pub struct R_Instr {
    pub opcode: u32,
    pub rd: usize,
    pub funct3: usize,
    pub rs1: usize,
    pub rs2: usize,
    pub funct7: usize,
}

impl R_Instr {
    pub open spec fn decode_spec(inst: u32) -> R_Instr {
        R_Instr {
            opcode: inst & 0x7F,
            rd: ((inst >> 7) & 0x1F) as usize,
            funct3: ((inst >> 12) & 0x7) as usize,
            rs1: ((inst >> 15) & 0x1F) as usize,
            rs2: ((inst >> 20) & 0x1F) as usize,
            funct7: ((inst >> 25) & 0x7F) as usize,
        }
    }

    pub open spec fn wf(&self) -> bool {
        &&& self.opcode <= 0x7F
        &&& self.rd < 32
        &&& self.funct3 < 8
        &&& self.rs1 < 32
        &&& self.rs2 < 32
        &&& self.funct7 < 128
    }

    pub fn from_u32(inst: u32) -> (r: R_Instr)
        ensures
            r == Self::decode_spec(inst),
            r.wf(),
    {
        proof {
            assert(((inst & 0x7F) <= 0x7F) && (((inst >> 7) & 0x1F) < 32) && (((inst >> 12) & 0x7)
                < 8) && (((inst >> 15) & 0x1F) < 32) && (((inst >> 20) & 0x1F) < 32) && (((inst
                >> 25) & 0x7F) < 128)) by (bit_vector);
        }
        let op: u32 = inst & 0x7F;
        let rd = ((inst >> 7) & 0x1F) as usize;
        let funct3 = ((inst >> 12) & 0x7) as usize;
        let rs1 = ((inst >> 15) & 0x1F) as usize;
        let rs2 = ((inst >> 20) & 0x1F) as usize;
        let funct7 = ((inst >> 25) & 0x7F) as usize;
        R_Instr { opcode: op, rd, funct3, rs1, rs2, funct7 }
    }
}

#[derive(Debug, PartialEq, Eq, Structural)]
pub struct I_Instr {
    pub opcode: u32,
    pub rd: usize,
    pub funct3: usize,
    pub rs1: usize,
    pub imm: usize,
}

impl I_Instr {
    pub open spec fn decode_spec(inst: u32) -> I_Instr {
        I_Instr {
            opcode: inst & 0x7F,
            rd: ((inst >> 7) & 0x1F) as usize,
            funct3: ((inst >> 12) & 0x7) as usize,
            rs1: ((inst >> 15) & 0x1F) as usize,
            imm: ((inst >> 20) & 0xFFF) as usize,
        }
    }

    pub open spec fn wf(&self) -> bool {
        &&& self.opcode <= 0x7F
        &&& self.rd < 32
        &&& self.funct3 < 8
        &&& self.rs1 < 32
        &&& self.imm < 0x1000
    }

    pub fn from_u32(inst: u32) -> (r: I_Instr)
        ensures
            r == Self::decode_spec(inst),
            r.wf(),
    {
        proof {
            assert((inst & 0x7F) <= 0x7F && ((inst >> 7) & 0x1F) < 32 && ((inst >> 12) & 0x7) < 8
                && ((inst >> 15) & 0x1F) < 32 && ((inst >> 20) & 0xFFF) < 0x1000) by (bit_vector);
        }
        let op: u32 = inst & 0x7F;
        let rd = ((inst >> 7) & 0x1F) as usize;
        let funct3 = ((inst >> 12) & 0x7) as usize;
        let rs1 = ((inst >> 15) & 0x1F) as usize;
        let imm = ((inst >> 20) & 0xFFF) as usize;
        I_Instr { opcode: op, rd, funct3, rs1, imm }
    }
}

#[derive(Debug, PartialEq, Eq, Structural)]
pub struct S_Instr {
    pub opcode: u32,
    pub funct3: usize,
    pub rs1: usize,
    pub rs2: usize,
    pub imm: usize,
}

impl S_Instr {
    pub open spec fn decode_spec(inst: u32) -> S_Instr {
        S_Instr {
            opcode: inst & 0x7F,
            funct3: ((inst >> 12) & 0x7) as usize,
            rs1: ((inst >> 15) & 0x1F) as usize,
            rs2: ((inst >> 20) & 0x1F) as usize,
            imm: ((((inst >> 25) & 0x7F) as usize) << 5) | (((inst >> 7) & 0x1F) as usize),
        }
    }

    pub open spec fn wf(&self) -> bool {
        &&& self.opcode <= 0x7F
        &&& self.funct3 < 8
        &&& self.rs1 < 32
        &&& self.rs2 < 32
        &&& self.imm < 0x1000
    }

    pub fn from_u32(inst: u32) -> (r: S_Instr)
        ensures
            r == Self::decode_spec(inst),
            r.wf(),
    {
        proof {
            assert(((inst & 0x7F) <= 0x7F) && (((inst >> 12) & 0x7) < 8) && (((inst >> 15) & 0x1F)
                < 32) && (((inst >> 20) & 0x1F) < 32) && (((inst >> 25) & 0x7F) < 128) && (((inst
                >> 7) & 0x1F) < 32)) by (bit_vector);
        }
        let op: u32 = inst & 0x7F;
        let imm1 = ((inst >> 7) & 0x1F) as usize;
        let funct3 = ((inst >> 12) & 0x7) as usize;
        let rs1 = ((inst >> 15) & 0x1F) as usize;
        let rs2 = ((inst >> 20) & 0x1F) as usize;
        let imm2 = ((inst >> 25) & 0x7F) as usize;
        let imm = (imm2 << 5) | imm1;
        proof {
            assert(((imm2 << 5) | imm1) < 0x1000) by (bit_vector)
                requires
                    imm2 < 128 && imm1 < 32,
            ;
        }
        S_Instr { opcode: op, funct3, rs1, rs2, imm }
    }
}

#[derive(Debug, PartialEq, Eq, Structural)]
pub struct B_Instr {
    pub opcode: u32,
    pub funct3: usize,
    pub rs1: usize,
    pub rs2: usize,
    pub imm: usize,
}

impl B_Instr {
    pub open spec fn decode_spec(inst: u32) -> B_Instr {
        B_Instr {
            opcode: inst & 0x7F,
            funct3: ((inst >> 12) & 0x7) as usize,
            rs1: ((inst >> 15) & 0x1F) as usize,
            rs2: ((inst >> 20) & 0x1F) as usize,
            imm: ((((inst >> 31) & 0x1) as usize) << 12) | ((((inst >> 7) & 0x1) as usize) << 11)
                | ((((inst >> 25) & 0x3F) as usize) << 5) | ((((inst >> 8) & 0xF) as usize) << 1),
        }
    }

    pub open spec fn wf(&self) -> bool {
        &&& self.opcode <= 0x7F
        &&& self.funct3 < 8
        &&& self.rs1 < 32
        &&& self.rs2 < 32
        &&& self.imm < 0x2000
        &&& self.imm % 2 == 0
    }

    pub fn from_u32(inst: u32) -> (r: B_Instr)
        ensures
            r == Self::decode_spec(inst),
            r.wf(),
    {
        proof {
            assert(((inst & 0x7F) <= 0x7F) && (((inst >> 12) & 0x7) < 8) && (((inst >> 15) & 0x1F)
                < 32) && (((inst >> 20) & 0x1F) < 32) && (((inst >> 31) & 0x1) < 2) && (((inst
                >> 7) & 0x1) < 2) && (((inst >> 25) & 0x3F) < 64) && (((inst >> 8) & 0xF)
                < 16)) by (bit_vector);
        }
        let op: u32 = inst & 0x7F;
        let imm3 = ((inst >> 7) & 0x1) as usize;
        let imm1 = ((inst >> 8) & 0xF) as usize;
        let imm2 = ((inst >> 25) & 0x3F) as usize;
        let imm4 = ((inst >> 31) & 0x1) as usize;
        let funct3 = ((inst >> 12) & 0x7) as usize;
        let rs1 = ((inst >> 15) & 0x1F) as usize;
        let rs2 = ((inst >> 20) & 0x1F) as usize;
        // The offset's low zero bit is implicit in the encoding; restore it.
        let imm = (imm4 << 12) | (imm3 << 11) | (imm2 << 5) | (imm1 << 1);
        proof {
            assert({
                let v = (imm4 << 12) | (imm3 << 11) | (imm2 << 5) | (imm1 << 1);
                v < 0x2000 && v % 2 == 0
            }) by (bit_vector)
                requires
                    imm4 < 2 && imm3 < 2 && imm2 < 64 && imm1 < 16,
            ;
        }
        B_Instr { opcode: op, funct3, rs1, rs2, imm }
    }
}

#[derive(Debug, PartialEq, Eq, Structural)]
pub struct U_Instr {
    pub opcode: u32,
    pub rd: usize,
    pub imm: usize,
}

impl U_Instr {
    pub open spec fn decode_spec(inst: u32) -> U_Instr {
        U_Instr {
            opcode: inst & 0x7F,
            rd: ((inst >> 7) & 0x1F) as usize,
            imm: (inst >> 12) as usize,
        }
    }

    pub open spec fn wf(&self) -> bool {
        &&& self.opcode <= 0x7F
        &&& self.rd < 32
        &&& self.imm < 0x10_0000
    }

    pub fn from_u32(inst: u32) -> (r: U_Instr)
        ensures
            r == Self::decode_spec(inst),
            r.wf(),
    {
        proof {
            assert(((inst & 0x7F) <= 0x7F) && (((inst >> 7) & 0x1F) < 32) && ((inst >> 12)
                < 0x10_0000)) by (bit_vector);
        }
        let op: u32 = inst & 0x7F;
        let rd = ((inst >> 7) & 0x1F) as usize;
        // The most-significant 20 bits of the word; the executor shifts them
        // back up by 12 and sign-extends.
        let imm = (inst >> 12) as usize;
        U_Instr { opcode: op, rd, imm }
    }
}

#[derive(Debug, PartialEq, Eq, Structural)]
pub struct J_Instr {
    pub opcode: u32,
    pub rd: usize,
    pub imm: usize,
}

impl J_Instr {
    pub open spec fn decode_spec(inst: u32) -> J_Instr {
        J_Instr {
            opcode: inst & 0x7F,
            rd: ((inst >> 7) & 0x1F) as usize,
            imm: (((inst >> 31) as usize) << 20) | ((((inst >> 12) & 0xFF) as usize) << 12) | ((((
            inst >> 20) & 0x1) as usize) << 11) | ((((inst >> 21) & 0x3FF) as usize) << 1),
        }
    }

    pub open spec fn wf(&self) -> bool {
        &&& self.opcode <= 0x7F
        &&& self.rd < 32
        &&& self.imm < 0x20_0000
        &&& self.imm % 2 == 0
    }

    pub fn from_u32(inst: u32) -> (r: J_Instr)
        ensures
            r == Self::decode_spec(inst),
            r.wf(),
    {
        proof {
            assert(((inst & 0x7F) <= 0x7F) && (((inst >> 7) & 0x1F) < 32) && ((inst >> 31) < 2)
                && (((inst >> 12) & 0xFF) < 256) && (((inst >> 20) & 0x1) < 2) && (((inst >> 21)
                & 0x3FF) < 1024)) by (bit_vector);
        }
        let op: u32 = inst & 0x7F;
        let rd = ((inst >> 7) & 0x1F) as usize;
        let imm4 = (inst >> 31) as usize;
        let imm1 = ((inst >> 21) & 0x3FF) as usize;
        let imm2 = ((inst >> 20) & 0x1) as usize;
        let imm3 = ((inst >> 12) & 0xFF) as usize;
        // As in the B format, the offset's low zero bit is implicit.
        let imm = (imm4 << 20) | (imm3 << 12) | (imm2 << 11) | (imm1 << 1);
        proof {
            assert({
                let v = (imm4 << 20) | (imm3 << 12) | (imm2 << 11) | (imm1 << 1);
                v < 0x20_0000 && v % 2 == 0
            }) by (bit_vector)
                requires
                    imm4 < 2 && imm3 < 256 && imm2 < 2 && imm1 < 1024,
            ;
        }
        J_Instr { opcode: op, rd, imm }
    }
}

impl R_Instr {
    /// The instruction word the fields were decoded from, reassembled so an
    /// in-context illegal instruction can report the offending word.
    pub open spec fn encode_spec(&self) -> u32 {
        ((self.funct7 as u32) << 25) | ((self.rs2 as u32) << 20) | ((self.rs1 as u32) << 15) | ((
        self.funct3 as u32) << 12) | ((self.rd as u32) << 7) | self.opcode
    }

    pub fn encode(&self) -> (r: u32)
        requires
            self.wf(),
        ensures
            r == self.encode_spec(),
    {
        ((self.funct7 as u32) << 25) | ((self.rs2 as u32) << 20) | ((self.rs1 as u32) << 15) | ((
        self.funct3 as u32) << 12) | ((self.rd as u32) << 7) | self.opcode
    }
}

impl I_Instr {
    /// The instruction word the fields were decoded from, reassembled.
    pub open spec fn encode_spec(&self) -> u32 {
        ((self.imm as u32) << 20) | ((self.rs1 as u32) << 15) | ((self.funct3 as u32) << 12) | ((
        self.rd as u32) << 7) | self.opcode
    }

    pub fn encode(&self) -> (r: u32)
        requires
            self.wf(),
        ensures
            r == self.encode_spec(),
    {
        ((self.imm as u32) << 20) | ((self.rs1 as u32) << 15) | ((self.funct3 as u32) << 12) | ((
        self.rd as u32) << 7) | self.opcode
    }
}

impl S_Instr {
    /// The instruction word the fields were decoded from, reassembled.
    pub open spec fn encode_spec(&self) -> u32 {
        (((self.imm as u32) >> 5) << 25) | ((self.rs2 as u32) << 20) | ((self.rs1 as u32) << 15)
            | ((self.funct3 as u32) << 12) | (((self.imm as u32) & 0x1F) << 7) | self.opcode
    }

    pub fn encode(&self) -> (r: u32)
        requires
            self.wf(),
        ensures
            r == self.encode_spec(),
    {
        (((self.imm as u32) >> 5) << 25) | ((self.rs2 as u32) << 20) | ((self.rs1 as u32) << 15)
            | ((self.funct3 as u32) << 12) | (((self.imm as u32) & 0x1F) << 7) | self.opcode
    }
}

impl B_Instr {
    /// The instruction word the fields were decoded from, reassembled.
    pub open spec fn encode_spec(&self) -> u32 {
        ((((self.imm as u32) >> 12) & 0x1) << 31) | ((((self.imm as u32) >> 5) & 0x3F) << 25) | ((
        self.rs2 as u32) << 20) | ((self.rs1 as u32) << 15) | ((self.funct3 as u32) << 12) | ((((
        self.imm as u32) >> 1) & 0xF) << 8) | ((((self.imm as u32) >> 11) & 0x1) << 7)
            | self.opcode
    }

    pub fn encode(&self) -> (r: u32)
        requires
            self.wf(),
        ensures
            r == self.encode_spec(),
    {
        ((((self.imm as u32) >> 12) & 0x1) << 31) | ((((self.imm as u32) >> 5) & 0x3F) << 25) | ((
        self.rs2 as u32) << 20) | ((self.rs1 as u32) << 15) | ((self.funct3 as u32) << 12) | ((((
        self.imm as u32) >> 1) & 0xF) << 8) | ((((self.imm as u32) >> 11) & 0x1) << 7)
            | self.opcode
    }
}

impl U_Instr {
    /// The instruction word the fields were decoded from, reassembled.
    pub open spec fn encode_spec(&self) -> u32 {
        ((self.imm as u32) << 12) | ((self.rd as u32) << 7) | self.opcode
    }

    pub fn encode(&self) -> (r: u32)
        requires
            self.wf(),
        ensures
            r == self.encode_spec(),
    {
        ((self.imm as u32) << 12) | ((self.rd as u32) << 7) | self.opcode
    }
}

impl J_Instr {
    /// The instruction word the fields were decoded from, reassembled.
    pub open spec fn encode_spec(&self) -> u32 {
        ((((self.imm as u32) >> 20) & 0x1) << 31) | ((((self.imm as u32) >> 1) & 0x3FF) << 21) | ((
        ((self.imm as u32) >> 11) & 0x1) << 20) | ((((self.imm as u32) >> 12) & 0xFF) << 12) | ((
        self.rd as u32) << 7) | self.opcode
    }

    pub fn encode(&self) -> (r: u32)
        requires
            self.wf(),
        ensures
            r == self.encode_spec(),
    {
        ((((self.imm as u32) >> 20) & 0x1) << 31) | ((((self.imm as u32) >> 1) & 0x3FF) << 21) | ((
        ((self.imm as u32) >> 11) & 0x1) << 20) | ((((self.imm as u32) >> 12) & 0xFF) << 12) | ((
        self.rd as u32) << 7) | self.opcode
    }
}

/// A decoded instruction: one of the six format variants, or an
/// unrecognised word kept whole so the executor can raise
/// `IllegalInstruction` with it.
#[derive(Debug, PartialEq, Eq, Structural)]
pub enum Instruction {
    R(R_Instr),
    I(I_Instr),
    S(S_Instr),
    B(B_Instr),
    U(U_Instr),
    J(J_Instr),
    Illegal(u32),
}

impl Instruction {
    pub open spec fn wf(&self) -> bool {
        match self {
            Instruction::R(r) => r.wf(),
            Instruction::I(i) => i.wf(),
            Instruction::S(s) => s.wf(),
            Instruction::B(b) => b.wf(),
            Instruction::U(u) => u.wf(),
            Instruction::J(j) => j.wf(),
            Instruction::Illegal(_) => true,
        }
    }
}

} // verus!
