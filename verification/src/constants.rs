//! Physical address map of the simulated platform.

use vstd::prelude::*;

verus! {

/// First byte of DRAM; also the reset program counter.
pub const DRAM_BASE: u64 = 0x8000_0000;

/// Size of the backing DRAM in bytes (128 MiB).
pub const DRAM_SIZE: u64 = 1024 * 1024 * 128;

/// Last byte of DRAM.
pub const DRAM_END: u64 = DRAM_BASE + DRAM_SIZE - 1;

/// First byte of the UART register window.
pub const UART_BASE: u64 = 0x1000_0000;

/// Size of the UART window on the bus.
pub const UART_SIZE: u64 = 0x100;

/// Last byte of the UART window.
pub const UART_END: u64 = UART_BASE + UART_SIZE - 1;

/// First byte of the PLIC region.
pub const PLIC_BASE: u64 = 0x0C00_0000;

/// Last byte of the PLIC region.
pub const PLIC_END: u64 = 0x0FFF_FFFF;

} // verus!
