//! Platform-level interrupt controller: a source-priority array plus
//! pending, claim and complete registers, mapped into the PLIC region of
//! the bus.

use vstd::prelude::*;
use crate::constants::PLIC_BASE;
use crate::errors::Exception;

verus! {

/// Number of interrupt inputs the platform supports; all of their pending
/// flags fit in one 64-bit register.
pub const NUM_INPUTS: u64 = 64;

/// First byte of the source-priority array.
pub const PLIC_SPRIORITY_ADDR: u64 = PLIC_BASE + 4;

/// Last byte of the source-priority array: 64 entries, one 64-byte stride
/// each.
pub const PLIC_SPRIORITY_END: u64 = PLIC_SPRIORITY_ADDR + (NUM_INPUTS * 8 * 8) - 1;

/// The pending register.
pub const PLIC_SPENDING_ADDR: u64 = PLIC_SPRIORITY_END + 4;

/// The claim register.
pub const PLIC_CLAIM_ADDR: u64 = PLIC_SPENDING_ADDR + 4;

/// The complete register.
pub const PLIC_COMPLETED_ADDR: u64 = PLIC_CLAIM_ADDR + 4;

pub struct Plic {
    pub spriority: Vec<u64>,
    pub pending: u64,
    pub claim: u64,
    pub completed: u64,
}

impl Plic {
    pub open spec fn wf(&self) -> bool {
        self.spriority@.len() == NUM_INPUTS
    }

    /// What a read of `addr` returns, or the fault for an unmapped offset.
    pub open spec fn load_spec(&self, addr: u64) -> Result<u64, Exception> {
        if PLIC_SPRIORITY_ADDR <= addr <= PLIC_SPRIORITY_END {
            Result::Ok(self.spriority@[(addr - PLIC_SPRIORITY_ADDR) as int / 64])
        } else if addr == PLIC_SPENDING_ADDR {
            Result::Ok(self.pending)
        } else if addr == PLIC_CLAIM_ADDR {
            Result::Ok(self.claim)
        } else if addr == PLIC_COMPLETED_ADDR {
            Result::Ok(self.completed)
        } else {
            Result::Err(Exception::LoadAccessFault(addr))
        }
    }

    pub fn new() -> (r: Plic)
        ensures
            r.wf(),
            forall|i: int| 0 <= i < NUM_INPUTS ==> r.spriority@[i] == 0u64,
            r.pending == 0 && r.claim == 0 && r.completed == 0,
    {
        Plic { spriority: vec![0u64; NUM_INPUTS as usize], pending: 0, claim: 0, completed: 0 }
    }

    pub fn load(&self, addr: u64) -> (r: Result<u64, Exception>)
        requires
            self.wf(),
        ensures
            r == self.load_spec(addr),
    {
        if PLIC_SPRIORITY_ADDR <= addr && addr <= PLIC_SPRIORITY_END {
            let index = (addr - PLIC_SPRIORITY_ADDR) / 64;
            Ok(self.spriority[index as usize])
        } else if addr == PLIC_SPENDING_ADDR {
            Ok(self.pending)
        } else if addr == PLIC_CLAIM_ADDR {
            Ok(self.claim)
        } else if addr == PLIC_COMPLETED_ADDR {
            Ok(self.completed)
        } else {
            Err(Exception::LoadAccessFault(addr))
        }
    }

    /// Writes `value` to the register at `addr`; an unmapped offset faults
    /// and changes nothing.
    pub fn store(&mut self, addr: u64, value: u64) -> (r: Result<(), Exception>)
        requires
            old(self).wf(),
        ensures
            final(self).wf(),
            PLIC_SPRIORITY_ADDR <= addr <= PLIC_SPRIORITY_END ==> r == Result::<
                (),
                Exception,
            >::Ok(()) && final(self).spriority@ == old(self).spriority@.update(
                (addr - PLIC_SPRIORITY_ADDR) as int / 64,
                value,
            ) && final(self).pending == old(self).pending && final(self).claim == old(self).claim
                && final(self).completed == old(self).completed,
            addr == PLIC_SPENDING_ADDR ==> r == Result::<(), Exception>::Ok(())
                && final(self).pending == value && final(self).spriority@ == old(self).spriority@
                && final(self).claim == old(self).claim
                && final(self).completed == old(self).completed,
            addr == PLIC_CLAIM_ADDR ==> r == Result::<(), Exception>::Ok(()) && final(self).claim
                == value && final(self).spriority@ == old(self).spriority@ && final(self).pending
                == old(self).pending && final(self).completed == old(self).completed,
            addr == PLIC_COMPLETED_ADDR ==> r == Result::<(), Exception>::Ok(())
                && final(self).completed == value
                && final(self).spriority@ == old(self).spriority@
                && final(self).pending == old(self).pending
                && final(self).claim == old(self).claim,
            !(PLIC_SPRIORITY_ADDR <= addr <= PLIC_SPRIORITY_END) && addr != PLIC_SPENDING_ADDR
                && addr != PLIC_CLAIM_ADDR && addr != PLIC_COMPLETED_ADDR ==> r == Result::<
                (),
                Exception,
            >::Err(Exception::StoreAMOAccessFault(addr)) && *final(self) == *old(self),
    {
        if PLIC_SPRIORITY_ADDR <= addr && addr <= PLIC_SPRIORITY_END {
            let index = (addr - PLIC_SPRIORITY_ADDR) / 64;
            self.spriority[index as usize] = value;
            Ok(())
        } else if addr == PLIC_SPENDING_ADDR {
            self.pending = value;
            Ok(())
        } else if addr == PLIC_CLAIM_ADDR {
            self.claim = value;
            Ok(())
        } else if addr == PLIC_COMPLETED_ADDR {
            self.completed = value;
            Ok(())
        } else {
            Err(Exception::StoreAMOAccessFault(addr))
        }
    }
}

} // verus!
