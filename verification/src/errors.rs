//! Synchronous exceptions raised by instructions.
//!
//! Exceptions are values threaded through the fetch/execute return type and
//! consumed exclusively by the trap pipeline; they never unwind as panics.

use vstd::prelude::*;

verus! {

/// A synchronous exception, carrying the faulting address, the offending
/// instruction word, or nothing, as the architected cause demands.
#[derive(Debug, Clone, Copy, PartialEq, Eq, Structural)]
pub enum Exception {
    InstructionAddressMisaligned(u64),
    InstructionAccessFault(u64),
    IllegalInstruction(u64),
    Breakpoint,
    LoadAddressMisaligned(u64),
    LoadAccessFault(u64),
    StoreAMOAddressMisaligned(u64),
    StoreAMOAccessFault(u64),
    EnvironmentCallFromUMode,
    EnvironmentCallFromSMode,
    EnvironmentCallFromMMode,
    InstructionPageFault(u64),
    LoadPageFault(u64),
    StoreAMOPageFault(u64),
}

impl Exception {
    /// The architected synchronous cause code, as written to `xCAUSE`.
    pub open spec fn code_spec(&self) -> u64 {
        match self {
            Exception::InstructionAddressMisaligned(_) => 0,
            Exception::InstructionAccessFault(_) => 1,
            Exception::IllegalInstruction(_) => 2,
            Exception::Breakpoint => 3,
            Exception::LoadAddressMisaligned(_) => 4,
            Exception::LoadAccessFault(_) => 5,
            Exception::StoreAMOAddressMisaligned(_) => 6,
            Exception::StoreAMOAccessFault(_) => 7,
            Exception::EnvironmentCallFromUMode => 8,
            Exception::EnvironmentCallFromSMode => 9,
            Exception::EnvironmentCallFromMMode => 11,
            Exception::InstructionPageFault(_) => 12,
            Exception::LoadPageFault(_) => 13,
            Exception::StoreAMOPageFault(_) => 15,
        }
    }

    /// The trap value written to `xTVAL`: the faulting address, the
    /// offending instruction word, or 0.
    pub open spec fn value_spec(&self) -> u64 {
        match self {
            Exception::InstructionAddressMisaligned(addr) => *addr,
            Exception::InstructionAccessFault(addr) => *addr,
            Exception::IllegalInstruction(word) => *word,
            Exception::Breakpoint => 0,
            Exception::LoadAddressMisaligned(addr) => *addr,
            Exception::LoadAccessFault(addr) => *addr,
            Exception::StoreAMOAddressMisaligned(addr) => *addr,
            Exception::StoreAMOAccessFault(addr) => *addr,
            Exception::EnvironmentCallFromUMode => 0,
            Exception::EnvironmentCallFromSMode => 0,
            Exception::EnvironmentCallFromMMode => 0,
            Exception::InstructionPageFault(addr) => *addr,
            Exception::LoadPageFault(addr) => *addr,
            Exception::StoreAMOPageFault(addr) => *addr,
        }
    }

    /// Access faults are classified as unrecoverable: they abort the hart
    /// loop instead of entering the trap pipeline.
    pub open spec fn is_fatal_spec(&self) -> bool {
        match self {
            Exception::InstructionAccessFault(_) => true,
            Exception::LoadAccessFault(_) => true,
            Exception::StoreAMOAccessFault(_) => true,
            _ => false,
        }
    }

    pub fn code(&self) -> (r: u64)
        ensures
            r == self.code_spec(),
            r < 16,
    {
        match self {
            Exception::InstructionAddressMisaligned(_) => 0,
            Exception::InstructionAccessFault(_) => 1,
            Exception::IllegalInstruction(_) => 2,
            Exception::Breakpoint => 3,
            Exception::LoadAddressMisaligned(_) => 4,
            Exception::LoadAccessFault(_) => 5,
            Exception::StoreAMOAddressMisaligned(_) => 6,
            Exception::StoreAMOAccessFault(_) => 7,
            Exception::EnvironmentCallFromUMode => 8,
            Exception::EnvironmentCallFromSMode => 9,
            Exception::EnvironmentCallFromMMode => 11,
            Exception::InstructionPageFault(_) => 12,
            Exception::LoadPageFault(_) => 13,
            Exception::StoreAMOPageFault(_) => 15,
        }
    }

    pub fn value(&self) -> (r: u64)
        ensures
            r == self.value_spec(),
    {
        match self {
            Exception::InstructionAddressMisaligned(addr) => *addr,
            Exception::InstructionAccessFault(addr) => *addr,
            Exception::IllegalInstruction(word) => *word,
            Exception::Breakpoint => 0,
            Exception::LoadAddressMisaligned(addr) => *addr,
            Exception::LoadAccessFault(addr) => *addr,
            Exception::StoreAMOAddressMisaligned(addr) => *addr,
            Exception::StoreAMOAccessFault(addr) => *addr,
            Exception::EnvironmentCallFromUMode => 0,
            Exception::EnvironmentCallFromSMode => 0,
            Exception::EnvironmentCallFromMMode => 0,
            Exception::InstructionPageFault(addr) => *addr,
            Exception::LoadPageFault(addr) => *addr,
            Exception::StoreAMOPageFault(addr) => *addr,
        }
    }

    pub fn is_fatal(&self) -> (r: bool)
        ensures
            r == self.is_fatal_spec(),
    {
        match self {
            Exception::InstructionAccessFault(_) => true,
            Exception::LoadAccessFault(_) => true,
            Exception::StoreAMOAccessFault(_) => true,
            _ => false,
        }
    }
}

} // verus!
