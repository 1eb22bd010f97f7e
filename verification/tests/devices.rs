//! Component-level tests: DRAM round trips and byte order, CSR aliasing,
//! bus decoding and the faults of each region.

use riscv_emulator::bus::Bus;
use riscv_emulator::constants::{DRAM_BASE, DRAM_SIZE, UART_BASE};
use riscv_emulator::csr;
use riscv_emulator::csr::Csr;
use riscv_emulator::dram::Dram;
use riscv_emulator::errors::Exception;
use riscv_emulator::plic;
use riscv_emulator::uart::Uart;

#[test]
fn test_dram_store_load_roundtrip_all_sizes() {
    let mut dram = Dram::new(Vec::new());
    let addr = DRAM_BASE + 0x1000;
    let value: u64 = 0x0102_0304_0506_0708;

    for (size, mask) in [
        (8u64, 0xFFu64),
        (16, 0xFFFF),
        (32, 0xFFFF_FFFF),
        (64, 0xFFFF_FFFF_FFFF_FFFF),
    ] {
        assert_eq!(dram.store(addr, size, value), Ok(()));
        assert_eq!(dram.load(addr, size), Ok(value & mask));
    }
}

#[test]
fn test_dram_little_endian_byte_order() {
    let mut dram = Dram::new(Vec::new());
    let addr = DRAM_BASE + 8;
    assert_eq!(dram.store(addr, 32, 0x0102_0304), Ok(()));

    // The byte at the lowest address is the least significant one.
    assert_eq!(dram.load(addr, 8), Ok(0x04));
    assert_eq!(dram.load(addr + 1, 8), Ok(0x03));
    assert_eq!(dram.load(addr + 2, 8), Ok(0x02));
    assert_eq!(dram.load(addr + 3, 8), Ok(0x01));
}

#[test]
fn test_dram_misaligned_access_succeeds() {
    let mut dram = Dram::new(Vec::new());
    let addr = DRAM_BASE + 5;
    assert_eq!(dram.store(addr, 64, 0xDEAD_BEEF_CAFE_F00D), Ok(()));
    assert_eq!(dram.load(addr, 64), Ok(0xDEAD_BEEF_CAFE_F00D));
}

#[test]
fn test_dram_faults() {
    let mut dram = Dram::new(Vec::new());
    // Below the base.
    assert_eq!(dram.load(DRAM_BASE - 1, 8), Err(Exception::LoadAccessFault(DRAM_BASE - 1)));
    // An access running past the end.
    let last = DRAM_BASE + DRAM_SIZE - 1;
    assert_eq!(dram.load(last, 8), Ok(0));
    assert_eq!(dram.load(last, 16), Err(Exception::LoadAccessFault(last)));
    assert_eq!(dram.store(last, 16, 0), Err(Exception::StoreAMOAccessFault(last)));
    // A size outside {8, 16, 32, 64}.
    assert_eq!(dram.load(DRAM_BASE, 12), Err(Exception::LoadAccessFault(DRAM_BASE)));
    assert_eq!(dram.store(DRAM_BASE, 12, 0), Err(Exception::StoreAMOAccessFault(DRAM_BASE)));
}

#[test]
fn test_dram_image_loaded_into_prefix() {
    let dram = Dram::new(vec![0xAA, 0xBB, 0xCC]);
    assert_eq!(dram.load(DRAM_BASE, 8), Ok(0xAA));
    assert_eq!(dram.load(DRAM_BASE + 1, 8), Ok(0xBB));
    assert_eq!(dram.load(DRAM_BASE + 2, 8), Ok(0xCC));
    assert_eq!(dram.load(DRAM_BASE + 3, 8), Ok(0x00));
}

#[test]
fn test_csr_store_then_load_plain() {
    let mut csrs = Csr::new();
    csrs.store(csr::MEPC, 0x8000_1234);
    assert_eq!(csrs.load(csr::MEPC), 0x8000_1234);
}

#[test]
fn test_csr_sstatus_alias_masks_write_and_read() {
    let mut csrs = Csr::new();
    // A write through sstatus touches only the SSTATUS_MASK part of
    // mstatus; MIE (bit 3) is outside it.
    csrs.store(csr::MSTATUS, csr::MASK_MIE);
    csrs.store(csr::SSTATUS, u64::MAX);
    assert_eq!(csrs.load(csr::SSTATUS), csr::MASK_SSTATUS);
    assert_eq!(csrs.load(csr::MSTATUS), csr::MASK_SSTATUS | csr::MASK_MIE);
}

#[test]
fn test_csr_sie_alias_masks_by_mideleg() {
    let mut csrs = Csr::new();
    csrs.store(csr::MIDELEG, 0x222);
    csrs.store(csr::MIE, 0x111);
    // Only the delegated bits are writable and readable through sie.
    csrs.store(csr::SIE, u64::MAX);
    assert_eq!(csrs.load(csr::SIE), 0x222);
    assert_eq!(csrs.load(csr::MIE), 0x333);
    // The same masking rules hold for sip onto mip.
    csrs.store(csr::SIP, 0x2);
    assert_eq!(csrs.load(csr::SIP), 0x2);
    assert_eq!(csrs.load(csr::MIP), 0x2);
}

#[test]
fn test_bus_dispatch_and_unmapped_fault() {
    let mut bus = Bus::new(Dram::new(Vec::new()));

    assert_eq!(bus.store(DRAM_BASE, 32, 0xABCD), Ok(()));
    assert_eq!(bus.load(DRAM_BASE, 32), Ok(0xABCD));

    // UART window: plain registers read back what was written.
    assert_eq!(bus.store(UART_BASE + 3, 8, 0x5A), Ok(()));
    assert_eq!(bus.load(UART_BASE + 3, 8), Ok(0x5A));

    // PLIC claim register.
    assert_eq!(bus.store(plic::PLIC_CLAIM_ADDR, 32, 7), Ok(()));
    assert_eq!(bus.load(plic::PLIC_CLAIM_ADDR, 32), Ok(7));

    // Unmapped addresses fault on either side.
    assert_eq!(bus.load(0x100, 32), Err(Exception::LoadAccessFault(0x100)));
    assert_eq!(bus.store(0x100, 32, 0), Err(Exception::StoreAMOAccessFault(0x100)));
}

#[test]
fn test_uart_rhr_read_clears_data_ready() {
    let mut uart = Uart::new();
    // The line status starts with only "transmit empty" set.
    assert_eq!(uart.regs[5], 1 << 5);
    assert!(uart.receive_byte(0x41));
    assert_eq!(uart.regs[5] & 1, 1);
    assert_eq!(uart.load(UART_BASE + 5, 8), Ok((1 << 5) | 1));

    assert_eq!(uart.load(UART_BASE, 8), Ok(0x41));
    assert_eq!(uart.regs[5] & 1, 0);
    // The producer may deliver again now.
    assert!(uart.receive_byte(0x42));
}

#[test]
fn test_uart_interrupt_flag_swaps_clear() {
    let mut uart = Uart::new();
    assert!(!uart.is_interrupting());
    assert!(uart.receive_byte(0x41));
    assert!(uart.is_interrupting());
    assert!(!uart.is_interrupting());
}

#[test]
fn test_uart_store_thr_appends_output() {
    let mut uart = Uart::new();
    assert_eq!(uart.store(UART_BASE, 8, b'h' as u64), Ok(()));
    assert_eq!(uart.store(UART_BASE, 8, b'i' as u64), Ok(()));
    assert_eq!(uart.output, b"hi".to_vec());
}

#[test]
fn test_uart_offset_past_registers_faults() {
    let mut uart = Uart::new();
    assert_eq!(uart.load(UART_BASE + 8, 8), Err(Exception::LoadAccessFault(UART_BASE + 8)));
    assert_eq!(
        uart.store(UART_BASE + 0xFF, 8, 0),
        Err(Exception::StoreAMOAccessFault(UART_BASE + 0xFF))
    );
}

#[test]
fn test_plic_registers() {
    let mut p = plic::Plic::new();
    assert_eq!(p.store(plic::PLIC_SPRIORITY_ADDR, 5), Ok(()));
    assert_eq!(p.load(plic::PLIC_SPRIORITY_ADDR), Ok(5));
    assert_eq!(p.store(plic::PLIC_SPENDING_ADDR, 3), Ok(()));
    assert_eq!(p.load(plic::PLIC_SPENDING_ADDR), Ok(3));
    assert_eq!(p.store(plic::PLIC_COMPLETED_ADDR, 9), Ok(()));
    assert_eq!(p.load(plic::PLIC_COMPLETED_ADDR), Ok(9));
    // A hole between the mapped registers faults.
    let hole = plic::PLIC_SPRIORITY_END + 1;
    assert_eq!(p.load(hole), Err(Exception::LoadAccessFault(hole)));
    assert_eq!(p.store(hole, 0), Err(Exception::StoreAMOAccessFault(hole)));
}
