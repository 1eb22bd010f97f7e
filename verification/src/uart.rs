//! 8250-style UART: an 8-byte register window, a single-byte receiver fed
//! by an external input producer, and a byte sink for transmitted output.
//!
//! The producer and the sink are thin collaborators outside the core: input
//! arrives through [`Uart::receive_byte`], which refuses a byte while the
//! receiver still holds one, and transmitted bytes accumulate in `output`
//! until the host drains them. The `interrupt` flag conveys the
//! "input ready" edge to the hart, which consumes it with
//! [`Uart::is_interrupting`].

use vstd::prelude::*;
use crate::constants::{UART_BASE, UART_END};
use crate::errors::Exception;

verus! {

/// Number of byte-wide UART registers.
pub const UART_NUM_REGS: u64 = 8;

/// Receiver holding register (read at offset 0).
pub const UART_RHR_INDEX: u64 = 0;

/// Transmit holding register (write at offset 0).
pub const UART_THR_INDEX: u64 = 0;

/// Line status register.
pub const UART_LSR_INDEX: u64 = 5;

/// LSR bit 0: the receiver holds a byte.
pub const UART_LSR_RHR_STATUS_FLAG: u8 = 1;

/// LSR bit 5: the transmitter is empty (always set in this model).
pub const UART_LSR_THR_STATUS_FLAG: u8 = 1u8 << 5;

/// The PLIC input line the UART interrupts on.
pub const UART_IRQ: u64 = 10;

pub struct Uart {
    /// The 8-byte register backing array.
    pub regs: Vec<u8>,
    /// The "interrupt pending" edge from the input producer to the hart.
    pub interrupt: bool,
    /// Bytes written to the transmit holding register, oldest first, until
    /// the host drains them to its output sink.
    pub output: Vec<u8>,
}

impl Uart {
    pub open spec fn wf(&self) -> bool {
        self.regs@.len() == UART_NUM_REGS
    }

    /// A quiescent UART: no byte held, no interrupt pending, and the line
    /// status showing only "transmit empty", which this model keeps set
    /// since transmitted bytes leave at once.
    pub fn new() -> (r: Uart)
        ensures
            r.wf(),
            r.regs@[UART_LSR_INDEX as int] == UART_LSR_THR_STATUS_FLAG,
            forall|i: int|
                0 <= i < UART_NUM_REGS && i != UART_LSR_INDEX ==> r.regs@[i] == 0u8,
            r.interrupt == false,
            r.output@ == Seq::<u8>::empty(),
    {
        let mut regs: Vec<u8> = vec![0u8; UART_NUM_REGS as usize];
        regs[UART_LSR_INDEX as usize] = UART_LSR_THR_STATUS_FLAG;
        let uart = Uart { regs, interrupt: false, output: Vec::new() };
        proof {
            assert(uart.output@ =~= Seq::<u8>::empty());
        }
        uart
    }

    /// Reads the byte-wide register at absolute address `addr`. A read of
    /// the receiver holding register returns the held byte and clears the
    /// "data ready" bit of the line status register; every other offset
    /// inside the window reads the backing array with no side effect, and an
    /// offset past the eight registers faults.
    pub fn load(&mut self, addr: u64, size: u64) -> (r: Result<u64, Exception>)
        requires
            old(self).wf(),
            UART_BASE <= addr <= UART_END,
        ensures
            final(self).wf(),
            final(self).interrupt == old(self).interrupt,
            final(self).output@ == old(self).output@,
            addr - UART_BASE >= UART_NUM_REGS ==> r == Result::<u64, Exception>::Err(
                Exception::LoadAccessFault(addr),
            ) && final(self).regs@ == old(self).regs@,
            addr == UART_BASE ==> r == Result::<u64, Exception>::Ok(
                old(self).regs@[UART_RHR_INDEX as int] as u64,
            ) && final(self).regs@ == old(self).regs@.update(
                UART_LSR_INDEX as int,
                old(self).regs@[UART_LSR_INDEX as int] & 0xFE,
            ),
            UART_BASE < addr && addr - UART_BASE < UART_NUM_REGS ==> r == Result::<
                u64,
                Exception,
            >::Ok(old(self).regs@[addr - UART_BASE] as u64) && final(self).regs@ == old(
                self,
            ).regs@,
    {
        let index = addr - UART_BASE;
        if index >= UART_NUM_REGS {
            return Err(Exception::LoadAccessFault(addr));
        }
        if index == UART_RHR_INDEX {
            // Space is free again: the input producer may deliver the next
            // byte through `receive_byte`.
            let lsr = self.regs[UART_LSR_INDEX as usize];
            self.regs[UART_LSR_INDEX as usize] = lsr & 0xFE;
            Ok(self.regs[UART_RHR_INDEX as usize] as u64)
        } else {
            Ok(self.regs[index as usize] as u64)
        }
    }

    /// Writes the byte-wide register at absolute address `addr`. A write of
    /// the transmit holding register emits the low byte of `value` to the
    /// output sink; every other offset inside the window writes the backing
    /// array with no side effect, and an offset past the eight registers
    /// faults.
    pub fn store(&mut self, addr: u64, size: u64, value: u64) -> (r: Result<(), Exception>)
        requires
            old(self).wf(),
            UART_BASE <= addr <= UART_END,
        ensures
            final(self).wf(),
            final(self).interrupt == old(self).interrupt,
            addr - UART_BASE >= UART_NUM_REGS ==> r == Result::<(), Exception>::Err(
                Exception::StoreAMOAccessFault(addr),
            ) && final(self).regs@ == old(self).regs@ && final(self).output@ == old(self).output@,
            addr == UART_BASE ==> r == Result::<(), Exception>::Ok(()) && final(self).regs@ == old(
                self,
            ).regs@ && final(self).output@ == old(self).output@.push(value as u8),
            UART_BASE < addr && addr - UART_BASE < UART_NUM_REGS ==> r == Result::<
                (),
                Exception,
            >::Ok(()) && final(self).regs@ == old(self).regs@.update(addr - UART_BASE, value as u8)
                && final(self).output@ == old(self).output@,
    {
        let index = addr - UART_BASE;
        if index >= UART_NUM_REGS {
            return Err(Exception::StoreAMOAccessFault(addr));
        }
        if index == UART_THR_INDEX {
            self.output.push(value as u8);
            Ok(())
        } else {
            self.regs[index as usize] = value as u8;
            Ok(())
        }
    }

    /// Returns the pending flag and clears it: the hart consumes each
    /// "input ready" edge exactly once.
    pub fn is_interrupting(&mut self) -> (r: bool)
        ensures
            r == old(self).interrupt,
            final(self).interrupt == false,
            final(self).regs@ == old(self).regs@,
            final(self).output@ == old(self).output@,
    {
        let r = self.interrupt;
        self.interrupt = false;
        r
    }

    /// Delivers one byte from the input producer. While the receiver still
    /// holds an unread byte the delivery is refused and the producer must
    /// retry after the hart reads the receiver; otherwise the byte lands in
    /// the receiver, the "data ready" bit is set and an interrupt becomes
    /// pending.
    pub fn receive_byte(&mut self, byte: u8) -> (r: bool)
        requires
            old(self).wf(),
        ensures
            final(self).wf(),
            final(self).output@ == old(self).output@,
            old(self).regs@[UART_LSR_INDEX as int] & UART_LSR_RHR_STATUS_FLAG != 0 ==> r == false
                && final(self).regs@ == old(self).regs@ && final(self).interrupt == old(
                self,
            ).interrupt,
            old(self).regs@[UART_LSR_INDEX as int] & UART_LSR_RHR_STATUS_FLAG == 0 ==> r == true
                && final(self).regs@ == old(self).regs@.update(UART_RHR_INDEX as int,
                byte,
            ).update(
                UART_LSR_INDEX as int,
                old(self).regs@[UART_LSR_INDEX as int] | UART_LSR_RHR_STATUS_FLAG,
            ) && final(self).interrupt == true,
    {
        let lsr = self.regs[UART_LSR_INDEX as usize];
        if lsr & UART_LSR_RHR_STATUS_FLAG != 0 {
            return false;
        }
        self.regs[UART_RHR_INDEX as usize] = byte;
        self.regs[UART_LSR_INDEX as usize] = lsr | UART_LSR_RHR_STATUS_FLAG;
        self.interrupt = true;
        true
    }
}

} // verus!
