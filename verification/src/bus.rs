//! The system bus: decodes physical addresses and dispatches loads and
//! stores to DRAM, the UART or the PLIC. Unmapped addresses raise access
//! faults; device faults propagate verbatim. The bus performs no caching
//! and no reordering.

use vstd::prelude::*;
use crate::constants::{DRAM_BASE, DRAM_END, PLIC_BASE, PLIC_END, UART_BASE, UART_END};
use crate::dram;
use crate::dram::Dram;
use crate::errors::Exception;
use crate::plic::Plic;
use crate::uart::{Uart, UART_NUM_REGS, UART_LSR_INDEX, UART_RHR_INDEX, UART_THR_INDEX};

verus! {

pub struct Bus {
    pub dram: Dram,
    pub uart: Uart,
    pub plic: Plic,
}

impl Bus {
    pub open spec fn wf(&self) -> bool {
        &&& self.dram.wf()
        &&& self.uart.wf()
        &&& self.plic.wf()
    }

    /// What a load of `size` bits at `addr` returns, given the current bus
    /// state.
    pub open spec fn load_result(pre: Bus, addr: u64, size: u64) -> Result<u64, Exception> {
        if DRAM_BASE <= addr <= DRAM_END {
            if dram::valid_size(size) && dram::in_dram(addr, size) {
                Result::Ok(dram::le_read(pre.dram.dram@, addr - DRAM_BASE, size))
            } else {
                Result::Err(Exception::LoadAccessFault(addr))
            }
        } else if UART_BASE <= addr <= UART_END {
            if addr - UART_BASE < UART_NUM_REGS {
                Result::Ok(pre.uart.regs@[addr - UART_BASE] as u64)
            } else {
                Result::Err(Exception::LoadAccessFault(addr))
            }
        } else if PLIC_BASE <= addr <= PLIC_END {
            pre.plic.load_spec(addr)
        } else {
            Result::Err(Exception::LoadAccessFault(addr))
        }
    }

    /// How a load changes the bus: only a read of the UART receiver has a
    /// side effect (it clears the "data ready" bit); everything else leaves
    /// the bus as it was.
    pub open spec fn load_post(pre: Bus, post: Bus, addr: u64, size: u64) -> bool {
        &&& post.dram.dram@ == pre.dram.dram@
        &&& post.uart.interrupt == pre.uart.interrupt
        &&& post.uart.output@ == pre.uart.output@
        &&& post.plic == pre.plic
        &&& post.uart.regs@ == if addr == UART_BASE {
            pre.uart.regs@.update(
                UART_LSR_INDEX as int,
                pre.uart.regs@[UART_LSR_INDEX as int] & 0xFE,
            )
        } else {
            pre.uart.regs@
        }
    }

    /// What a store of `value` at `addr` returns.
    pub open spec fn store_result(pre: Bus, addr: u64, size: u64, value: u64) -> Result<
        (),
        Exception,
    > {
        if DRAM_BASE <= addr <= DRAM_END {
            if dram::valid_size(size) && dram::in_dram(addr, size) {
                Result::Ok(())
            } else {
                Result::Err(Exception::StoreAMOAccessFault(addr))
            }
        } else if UART_BASE <= addr <= UART_END {
            if addr - UART_BASE < UART_NUM_REGS {
                Result::Ok(())
            } else {
                Result::Err(Exception::StoreAMOAccessFault(addr))
            }
        } else if PLIC_BASE <= addr <= PLIC_END {
            if crate::plic::PLIC_SPRIORITY_ADDR <= addr <= crate::plic::PLIC_SPRIORITY_END || addr
                == crate::plic::PLIC_SPENDING_ADDR || addr == crate::plic::PLIC_CLAIM_ADDR || addr
                == crate::plic::PLIC_COMPLETED_ADDR {
                Result::Ok(())
            } else {
                Result::Err(Exception::StoreAMOAccessFault(addr))
            }
        } else {
            Result::Err(Exception::StoreAMOAccessFault(addr))
        }
    }

    /// How a successful or failed store changes the bus: exactly the
    /// selected device's state moves, and a fault moves nothing.
    pub open spec fn store_post(pre: Bus, post: Bus, addr: u64, size: u64, value: u64) -> bool {
        &&& post.uart.interrupt == pre.uart.interrupt
        &&& post.dram.dram@ == if DRAM_BASE <= addr <= DRAM_END && dram::valid_size(size)
            && dram::in_dram(addr, size) {
            dram::le_write(pre.dram.dram@, addr - DRAM_BASE, size, value)
        } else {
            pre.dram.dram@
        }
        &&& post.uart.output@ == if addr == UART_BASE {
            pre.uart.output@.push(value as u8)
        } else {
            pre.uart.output@
        }
        &&& post.uart.regs@ == if UART_BASE < addr <= UART_END && addr - UART_BASE
            < UART_NUM_REGS {
            pre.uart.regs@.update(addr - UART_BASE, value as u8)
        } else {
            pre.uart.regs@
        }
        &&& post.plic.spriority@ == if crate::plic::PLIC_SPRIORITY_ADDR <= addr
            <= crate::plic::PLIC_SPRIORITY_END {
            pre.plic.spriority@.update((addr - crate::plic::PLIC_SPRIORITY_ADDR) as int / 64, value)
        } else {
            pre.plic.spriority@
        }
        &&& post.plic.pending == if addr == crate::plic::PLIC_SPENDING_ADDR {
            value
        } else {
            pre.plic.pending
        }
        &&& post.plic.claim == if addr == crate::plic::PLIC_CLAIM_ADDR {
            value
        } else {
            pre.plic.claim
        }
        &&& post.plic.completed == if addr == crate::plic::PLIC_COMPLETED_ADDR {
            value
        } else {
            pre.plic.completed
        }
    }

    pub fn new(dram: Dram) -> (r: Bus)
        requires
            dram.wf(),
        ensures
            r.wf(),
            r.dram == dram,
            r.uart.regs@[UART_LSR_INDEX as int] == crate::uart::UART_LSR_THR_STATUS_FLAG,
            forall|i: int|
                0 <= i < UART_NUM_REGS && i != UART_LSR_INDEX ==> r.uart.regs@[i] == 0u8,
            r.uart.interrupt == false,
            r.uart.output@ == Seq::<u8>::empty(),
            forall|i: int| 0 <= i < crate::plic::NUM_INPUTS ==> r.plic.spriority@[i] == 0u64,
            r.plic.pending == 0 && r.plic.claim == 0 && r.plic.completed == 0,
    {
        Bus { dram, uart: Uart::new(), plic: Plic::new() }
    }

    /// Loads `size` bits at `addr` from the selected device.
    pub fn load(&mut self, addr: u64, size: u64) -> (r: Result<u64, Exception>)
        requires
            old(self).wf(),
        ensures
            final(self).wf(),
            r == Self::load_result(*old(self), addr, size),
            Self::load_post(*old(self), *final(self), addr, size),
    {
        if DRAM_BASE <= addr && addr <= DRAM_END {
            self.dram.load(addr, size)
        } else if UART_BASE <= addr && addr <= UART_END {
            self.uart.load(addr, size)
        } else if PLIC_BASE <= addr && addr <= PLIC_END {
            self.plic.load(addr)
        } else {
            Err(Exception::LoadAccessFault(addr))
        }
    }

    /// Stores the low `size` bits of `value` at `addr` into the selected
    /// device.
    pub fn store(&mut self, addr: u64, size: u64, value: u64) -> (r: Result<(), Exception>)
        requires
            old(self).wf(),
        ensures
            final(self).wf(),
            r == Self::store_result(*old(self), addr, size, value),
            Self::store_post(*old(self), *final(self), addr, size, value),
    {
        if DRAM_BASE <= addr && addr <= DRAM_END {
            self.dram.store(addr, size, value)
        } else if UART_BASE <= addr && addr <= UART_END {
            self.uart.store(addr, size, value)
        } else if PLIC_BASE <= addr && addr <= PLIC_END {
            self.plic.store(addr, value)
        } else {
            Err(Exception::StoreAMOAccessFault(addr))
        }
    }
}

} // verus!
