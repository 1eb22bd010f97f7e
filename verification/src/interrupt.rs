//! Asynchronous interrupts delivered between retired instructions.

use vstd::prelude::*;

verus! {

/// Bit 63 of `xCAUSE` distinguishes an interrupt code from an exception code.
pub const MASK_INTERRUPT_BIT: u64 = 1u64 << 63;

#[derive(Debug, Clone, Copy, PartialEq, Eq, Structural)]
pub enum Interrupt {
    SupervisorSoftwareInterrupt,
    MachineSoftwareInterrupt,
    SupervisorTimerInterrupt,
    MachineTimerInterrupt,
    SupervisorExternalInterrupt,
    MachineExternalInterrupt,
}

impl Interrupt {
    /// The architected interrupt number, without the interrupt flag.
    pub open spec fn index_spec(&self) -> u64 {
        match self {
            Interrupt::SupervisorSoftwareInterrupt => 1,
            Interrupt::MachineSoftwareInterrupt => 3,
            Interrupt::SupervisorTimerInterrupt => 5,
            Interrupt::MachineTimerInterrupt => 7,
            Interrupt::SupervisorExternalInterrupt => 9,
            Interrupt::MachineExternalInterrupt => 11,
        }
    }

    /// The value written to `xCAUSE`: the interrupt number with bit 63 set.
    pub open spec fn code_spec(&self) -> u64 {
        self.index_spec() | MASK_INTERRUPT_BIT
    }

    /// The interrupt number alone, used to index `MIDELEG` and to offset a
    /// vectored trap handler.
    pub fn index(&self) -> (r: u64)
        ensures
            r == self.index_spec(),
            r < 16,
    {
        match self {
            Interrupt::SupervisorSoftwareInterrupt => 1,
            Interrupt::MachineSoftwareInterrupt => 3,
            Interrupt::SupervisorTimerInterrupt => 5,
            Interrupt::MachineTimerInterrupt => 7,
            Interrupt::SupervisorExternalInterrupt => 9,
            Interrupt::MachineExternalInterrupt => 11,
        }
    }

    /// The cause code with the interrupt flag in bit 63, so the handler can
    /// tell it apart from a synchronous exception code.
    pub fn code(&self) -> (r: u64)
        ensures
            r == self.code_spec(),
    {
        self.index() | MASK_INTERRUPT_BIT
    }
}

} // verus!
