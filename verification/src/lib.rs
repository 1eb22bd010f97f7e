//! Core of a 64-bit RISC-V instruction-set simulator: a single hart executing
//! RV64I plus Zicsr against a physical address space with memory-mapped
//! peripherals (UART, PLIC) and the privileged architecture's trap and
//! interrupt delivery.

pub mod alu;
pub mod bus;
pub mod constants;
pub mod csr;
pub mod dram;
pub mod emulator;
pub mod errors;
pub mod instructions;
pub mod interrupt;
pub mod plic;
pub mod uart;
