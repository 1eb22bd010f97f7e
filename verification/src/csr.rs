//! The control and status register file: a flat 4096-entry bank with the
//! architected aliasing between the supervisor views (`sstatus`, `sie`,
//! `sip`) and the machine-level underlying storage.

use vstd::prelude::*;

verus! {

// Machine-level CSR addresses.
pub const MSTATUS: usize = 0x300;
pub const MEDELEG: usize = 0x302;
pub const MIDELEG: usize = 0x303;
pub const MIE: usize = 0x304;
pub const MTVEC: usize = 0x305;
pub const MEPC: usize = 0x341;
pub const MCAUSE: usize = 0x342;
pub const MTVAL: usize = 0x343;
pub const MIP: usize = 0x344;

// Supervisor-level CSR addresses.
pub const SSTATUS: usize = 0x100;
pub const SIE: usize = 0x104;
pub const STVEC: usize = 0x105;
pub const SEPC: usize = 0x141;
pub const SCAUSE: usize = 0x142;
pub const STVAL: usize = 0x143;
pub const SIP: usize = 0x144;

// Fields of mstatus and sstatus.
pub const MASK_SIE: u64 = 1u64 << 1;
pub const MASK_MIE: u64 = 1u64 << 3;
pub const MASK_SPIE: u64 = 1u64 << 5;
pub const MASK_UBE: u64 = 1u64 << 6;
pub const MASK_MPIE: u64 = 1u64 << 7;
pub const MASK_SPP: u64 = 1u64 << 8;
pub const MASK_MPP: u64 = 0b11u64 << 11;
pub const MASK_FS: u64 = 0b11u64 << 13;
pub const MASK_XS: u64 = 0b11u64 << 15;
pub const MASK_SUM: u64 = 1u64 << 18;
pub const MASK_MXR: u64 = 1u64 << 19;
pub const MASK_UXL: u64 = 0b11u64 << 32;
pub const MASK_SD: u64 = 1u64 << 63;

/// The part of `mstatus` that `sstatus` reflects.
pub const MASK_SSTATUS: u64 = MASK_SIE | MASK_SPIE | MASK_UBE | MASK_SPP | MASK_FS | MASK_XS
    | MASK_SUM | MASK_MXR | MASK_UXL | MASK_SD;

// Bits of mip and mie, one per interrupt number.
pub const MASK_SSIP: u64 = 1u64 << 1;
pub const MASK_MSIP: u64 = 1u64 << 3;
pub const MASK_STIP: u64 = 1u64 << 5;
pub const MASK_MTIP: u64 = 1u64 << 7;
pub const MASK_SEIP: u64 = 1u64 << 9;
pub const MASK_MEIP: u64 = 1u64 << 11;

/// Number of CSR addresses.
pub const NUM_CSRS: usize = 4096;

/// What a read of CSR `addr` returns, given the underlying bank.
pub open spec fn csr_read_spec(csrs: Seq<u64>, addr: usize) -> u64
    recommends
        csrs.len() == NUM_CSRS,
        addr < NUM_CSRS,
{
    if addr == SIE {
        csrs[MIE as int] & csrs[MIDELEG as int]
    } else if addr == SIP {
        csrs[MIP as int] & csrs[MIDELEG as int]
    } else if addr == SSTATUS {
        csrs[MSTATUS as int] & MASK_SSTATUS
    } else {
        csrs[addr as int]
    }
}

/// The bank after a write of `value` to CSR `addr`.
pub open spec fn csr_write_spec(csrs: Seq<u64>, addr: usize, value: u64) -> Seq<u64>
    recommends
        csrs.len() == NUM_CSRS,
        addr < NUM_CSRS,
{
    if addr == SIE {
        let deleg = csrs[MIDELEG as int];
        csrs.update(MIE as int, (csrs[MIE as int] & !deleg) | (value & deleg))
    } else if addr == SIP {
        let deleg = csrs[MIDELEG as int];
        csrs.update(MIP as int, (csrs[MIP as int] & !deleg) | (value & deleg))
    } else if addr == SSTATUS {
        csrs.update(MSTATUS as int, (csrs[MSTATUS as int] & !MASK_SSTATUS) | (value
            & MASK_SSTATUS))
    } else {
        csrs.update(addr as int, value)
    }
}

/// What a read of CSR `addr` returns right after `value` was written to it:
/// the write and the read both pass through the alias masks, so only the
/// writable part of `value` comes back.
pub open spec fn effective_read(csrs: Seq<u64>, addr: usize, value: u64) -> u64
    recommends
        csrs.len() == NUM_CSRS,
        addr < NUM_CSRS,
{
    if addr == SIE || addr == SIP {
        value & csrs[MIDELEG as int]
    } else if addr == SSTATUS {
        value & MASK_SSTATUS
    } else {
        value
    }
}

/// For every CSR, a load after a store returns the stored value as filtered
/// by the alias masks: `csr_read_spec(csr_write_spec(c, a, v), a) ==
/// effective_read(c, a, v)`.
pub proof fn lemma_csr_store_then_load(csrs: Seq<u64>, addr: usize, value: u64)
    requires
        csrs.len() == NUM_CSRS,
        addr < NUM_CSRS,
    ensures
        csr_read_spec(csr_write_spec(csrs, addr, value), addr) == effective_read(
            csrs,
            addr,
            value,
        ),
{
    // A masked write followed by a masked read through the same mask
    // returns the masked value, whatever the mask.
    let m0 = if addr == SIE {
        csrs[MIE as int]
    } else if addr == SIP {
        csrs[MIP as int]
    } else {
        csrs[MSTATUS as int]
    };
    let k = if addr == SSTATUS {
        MASK_SSTATUS
    } else {
        csrs[MIDELEG as int]
    };
    assert(((m0 & !k) | (value & k)) & k == value & k) by (bit_vector);
}

/// The 4096-entry register bank. Reads and writes of the supervisor aliases
/// are redirected onto the machine-level storage by [`csr_read_spec`] and
/// [`csr_write_spec`].
pub struct Csr {
    pub csrs: Vec<u64>,
}

impl Csr {
    pub open spec fn wf(&self) -> bool {
        self.csrs@.len() == NUM_CSRS
    }

    pub fn new() -> (r: Csr)
        ensures
            r.wf(),
            forall|i: int| 0 <= i < NUM_CSRS ==> r.csrs@[i] == 0u64,
    {
        Csr { csrs: vec![0u64; NUM_CSRS] }
    }

    pub fn load(&self, addr: usize) -> (r: u64)
        requires
            self.wf(),
            addr < NUM_CSRS,
        ensures
            r == csr_read_spec(self.csrs@, addr),
    {
        if addr == SIE {
            self.csrs[MIE] & self.csrs[MIDELEG]
        } else if addr == SIP {
            self.csrs[MIP] & self.csrs[MIDELEG]
        } else if addr == SSTATUS {
            self.csrs[MSTATUS] & MASK_SSTATUS
        } else {
            self.csrs[addr]
        }
    }

    pub fn store(&mut self, addr: usize, value: u64)
        requires
            old(self).wf(),
            addr < NUM_CSRS,
        ensures
            final(self).wf(),
            final(self).csrs@ == csr_write_spec(old(self).csrs@, addr, value),
    {
        if addr == SIE {
            let deleg = self.csrs[MIDELEG];
            let cur = self.csrs[MIE];
            self.csrs[MIE] = (cur & !deleg) | (value & deleg);
        } else if addr == SIP {
            let deleg = self.csrs[MIDELEG];
            let cur = self.csrs[MIP];
            self.csrs[MIP] = (cur & !deleg) | (value & deleg);
        } else if addr == SSTATUS {
            let cur = self.csrs[MSTATUS];
            self.csrs[MSTATUS] = (cur & !MASK_SSTATUS) | (value & MASK_SSTATUS);
        } else {
            self.csrs[addr] = value;
        }
    }
}

} // verus!
