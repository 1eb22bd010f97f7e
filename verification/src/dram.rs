//! Backing store for the contiguous physical DRAM region: byte-addressable,
//! little-endian load/store of 1, 2, 4 or 8-byte words.

use vstd::prelude::*;
use crate::constants::{DRAM_BASE, DRAM_SIZE};
use crate::errors::Exception;

verus! {

/// Whether `size` is a bus access width, in bits.
pub open spec fn valid_size(size: u64) -> bool {
    size == 8 || size == 16 || size == 32 || size == 64
}

/// Whether the `size`-bit access at absolute address `addr` lies wholly
/// inside DRAM. Misaligned accesses are permitted; only the range matters.
pub open spec fn in_dram(addr: u64, size: u64) -> bool {
    DRAM_BASE <= addr && addr - DRAM_BASE + size / 8 <= DRAM_SIZE
}

/// The little-endian value of the `size`-bit word at offset `off`: the byte
/// at the lowest address contributes the least-significant 8 bits.
pub open spec fn le_read(mem: Seq<u8>, off: int, size: u64) -> u64
    recommends
        valid_size(size),
        0 <= off && off + size / 8 <= mem.len(),
{
    if size == 8 {
        mem[off] as u64
    } else if size == 16 {
        (mem[off] as u64) | ((mem[off + 1] as u64) << 8)
    } else if size == 32 {
        (mem[off] as u64) | ((mem[off + 1] as u64) << 8) | ((mem[off + 2] as u64) << 16) | ((
        mem[off + 3] as u64) << 24)
    } else {
        (mem[off] as u64) | ((mem[off + 1] as u64) << 8) | ((mem[off + 2] as u64) << 16) | ((
        mem[off + 3] as u64) << 24) | ((mem[off + 4] as u64) << 32) | ((mem[off + 5] as u64) << 40)
            | ((mem[off + 6] as u64) << 48) | ((mem[off + 7] as u64) << 56)
    }
}

/// The memory after the low `size` bits of `value` are stored little-endian
/// at offset `off`; every other byte is unchanged.
pub open spec fn le_write(mem: Seq<u8>, off: int, size: u64, value: u64) -> Seq<u8>
    recommends
        valid_size(size),
        0 <= off && off + size / 8 <= mem.len(),
{
    if size == 8 {
        mem.update(off, (value & 0xFF) as u8)
    } else if size == 16 {
        mem.update(off, (value & 0xFF) as u8).update(off + 1, ((value >> 8) & 0xFF) as u8)
    } else if size == 32 {
        mem.update(off, (value & 0xFF) as u8).update(off + 1, ((value >> 8) & 0xFF) as u8).update(
            off + 2,
            ((value >> 16) & 0xFF) as u8,
        ).update(off + 3, ((value >> 24) & 0xFF) as u8)
    } else {
        mem.update(off, (value & 0xFF) as u8).update(off + 1, ((value >> 8) & 0xFF) as u8).update(
            off + 2,
            ((value >> 16) & 0xFF) as u8,
        ).update(off + 3, ((value >> 24) & 0xFF) as u8).update(
            off + 4,
            ((value >> 32) & 0xFF) as u8,
        ).update(off + 5, ((value >> 40) & 0xFF) as u8).update(
            off + 6,
            ((value >> 48) & 0xFF) as u8,
        ).update(off + 7, ((value >> 56) & 0xFF) as u8)
    }
}

/// The low `size` bits of a 64-bit value.
pub open spec fn size_mask(value: u64, size: u64) -> u64
    recommends
        valid_size(size),
{
    if size == 8 {
        value & 0xFF
    } else if size == 16 {
        value & 0xFFFF
    } else if size == 32 {
        value & 0xFFFF_FFFF
    } else {
        value
    }
}

/// Load/store round-trip: storing `value` and loading at the same offset
/// and size returns the low `size` bits of `value`, in little-endian byte
/// order.
pub proof fn lemma_le_store_then_load(mem: Seq<u8>, off: int, size: u64, value: u64)
    requires
        valid_size(size),
        0 <= off && off + size / 8 <= mem.len(),
    ensures
        le_read(le_write(mem, off, size, value), off, size) == size_mask(value, size),
{
    let v = value;
    assert(((v & 0xFF) < 256) && (((v >> 8) & 0xFF) < 256) && (((v >> 16) & 0xFF) < 256) && (((v
        >> 24) & 0xFF) < 256) && (((v >> 32) & 0xFF) < 256) && (((v >> 40) & 0xFF) < 256) && (((v
        >> 48) & 0xFF) < 256) && (((v >> 56) & 0xFF) < 256)) by (bit_vector);
    assert(((v & 0xFF) | (((v >> 8) & 0xFF) << 8)) == (v & 0xFFFF)) by (bit_vector);
    assert(((v & 0xFF) | (((v >> 8) & 0xFF) << 8) | (((v >> 16) & 0xFF) << 16) | (((v >> 24)
        & 0xFF) << 24)) == (v & 0xFFFF_FFFF)) by (bit_vector);
    assert(((v & 0xFF) | (((v >> 8) & 0xFF) << 8) | (((v >> 16) & 0xFF) << 16) | (((v >> 24)
        & 0xFF) << 24) | (((v >> 32) & 0xFF) << 32) | (((v >> 40) & 0xFF) << 40) | (((v >> 48)
        & 0xFF) << 48) | (((v >> 56) & 0xFF) << 56)) == v) by (bit_vector);
}

/// The DRAM: a zero-initialized byte vector with the program image copied
/// into its prefix at construction.
pub struct Dram {
    pub dram: Vec<u8>,
}

impl Dram {
    pub open spec fn wf(&self) -> bool {
        self.dram@.len() == DRAM_SIZE
    }

    pub fn new(code: Vec<u8>) -> (r: Dram)
        requires
            code@.len() <= DRAM_SIZE,
        ensures
            r.wf(),
            forall|i: int| 0 <= i < code@.len() ==> r.dram@[i] == code@[i],
            forall|i: int| code@.len() <= i < DRAM_SIZE ==> r.dram@[i] == 0u8,
    {
        let mut dram: Vec<u8> = vec![0u8; DRAM_SIZE as usize];
        let mut i: usize = 0;
        while i < code.len()
            invariant
                i <= code@.len(),
                code@.len() <= DRAM_SIZE,
                dram@.len() == DRAM_SIZE,
                forall|j: int| 0 <= j < i ==> dram@[j] == code@[j],
                forall|j: int| i <= j < DRAM_SIZE ==> dram@[j] == 0u8,
            decreases code@.len() - i,
        {
            dram[i] = code[i];
            i = i + 1;
        }
        Dram { dram }
    }

    /// Loads the `size`-bit little-endian word at absolute address `addr`
    /// (relative to `DRAM_BASE`); an access not wholly inside DRAM, or a
    /// size outside {8, 16, 32, 64}, faults.
    pub fn load(&self, addr: u64, size: u64) -> (r: Result<u64, Exception>)
        requires
            self.wf(),
        ensures
            r == (if valid_size(size) && in_dram(addr, size) {
                Result::<u64, Exception>::Ok(le_read(self.dram@, addr - DRAM_BASE, size))
            } else {
                Result::<u64, Exception>::Err(Exception::LoadAccessFault(addr))
            }),
    {
        if !(size == 8 || size == 16 || size == 32 || size == 64) {
            return Err(Exception::LoadAccessFault(addr));
        }
        let nbytes = size / 8;
        if addr < DRAM_BASE || addr - DRAM_BASE > DRAM_SIZE - nbytes {
            return Err(Exception::LoadAccessFault(addr));
        }
        let off = (addr - DRAM_BASE) as usize;
        if size == 8 {
            Ok(self.dram[off] as u64)
        } else if size == 16 {
            Ok((self.dram[off] as u64) | ((self.dram[off + 1] as u64) << 8))
        } else if size == 32 {
            Ok((self.dram[off] as u64) | ((self.dram[off + 1] as u64) << 8) | ((self.dram[off
                + 2] as u64) << 16) | ((self.dram[off + 3] as u64) << 24))
        } else {
            Ok((self.dram[off] as u64) | ((self.dram[off + 1] as u64) << 8) | ((self.dram[off
                + 2] as u64) << 16) | ((self.dram[off + 3] as u64) << 24) | ((self.dram[off
                + 4] as u64) << 32) | ((self.dram[off + 5] as u64) << 40) | ((self.dram[off
                + 6] as u64) << 48) | ((self.dram[off + 7] as u64) << 56))
        }
    }

    /// Stores the low `size` bits of `value` little-endian at absolute
    /// address `addr`; the same range and size rules as for `load` apply.
    pub fn store(&mut self, addr: u64, size: u64, value: u64) -> (r: Result<(), Exception>)
        requires
            old(self).wf(),
        ensures
            final(self).wf(),
            valid_size(size) && in_dram(addr, size) ==> r == Result::<(), Exception>::Ok(())
                && final(self).dram@ == le_write(old(self).dram@, addr - DRAM_BASE, size, value),
            !(valid_size(size) && in_dram(addr, size)) ==> r == Result::<(), Exception>::Err(
                Exception::StoreAMOAccessFault(addr),
            ) && final(self).dram@ == old(self).dram@,
    {
        if !(size == 8 || size == 16 || size == 32 || size == 64) {
            return Err(Exception::StoreAMOAccessFault(addr));
        }
        let nbytes = size / 8;
        if addr < DRAM_BASE || addr - DRAM_BASE > DRAM_SIZE - nbytes {
            return Err(Exception::StoreAMOAccessFault(addr));
        }
        proof {
            let v = value;
            assert(((v & 0xFF) < 256) && (((v >> 8) & 0xFF) < 256) && (((v >> 16) & 0xFF) < 256)
                && (((v >> 24) & 0xFF) < 256) && (((v >> 32) & 0xFF) < 256) && (((v >> 40) & 0xFF)
                < 256) && (((v >> 48) & 0xFF) < 256) && (((v >> 56) & 0xFF) < 256)) by (bit_vector);
        }
        let off = (addr - DRAM_BASE) as usize;
        self.dram[off] = (value & 0xFF) as u8;
        if size >= 16 {
            self.dram[off + 1] = ((value >> 8) & 0xFF) as u8;
        }
        if size >= 32 {
            self.dram[off + 2] = ((value >> 16) & 0xFF) as u8;
            self.dram[off + 3] = ((value >> 24) & 0xFF) as u8;
        }
        if size == 64 {
            self.dram[off + 4] = ((value >> 32) & 0xFF) as u8;
            self.dram[off + 5] = ((value >> 40) & 0xFF) as u8;
            self.dram[off + 6] = ((value >> 48) & 0xFF) as u8;
            self.dram[off + 7] = ((value >> 56) & 0xFF) as u8;
        }
        Ok(())
    }
}

} // verus!
