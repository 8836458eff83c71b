use dw_apb_uart::mmio::MmioRegion;
use dw_apb_uart::regs::{UartReg, UART_BLOCK_WORDS};
use dw_apb_uart::uart::{baud_divisor, UartDriver, UartError};

const BASE: usize = 0x1000;
const LSR: usize = BASE + 0x14;

fn fresh_uart() -> (MmioRegion, UartDriver) {
    (MmioRegion::new(BASE, UART_BLOCK_WORDS), UartDriver::new(BASE))
}

#[test]
fn divisor_reference_pair() {
    // 24 MHz source clock at 1,500,000 baud: 24e6 / (16 * 1.5e6) = 1 exactly.
    assert_eq!(baud_divisor(24_000_000, 1_500_000), 1);
}

#[test]
fn divisor_rounds_down() {
    // 24e6 / (16 * 115200) = 13.02...; nearest integer is 13.
    assert_eq!(baud_divisor(24_000_000, 115_200), 13);
    // 100 / (16 * 2) = 3.125; nearest integer is 3.
    assert_eq!(baud_divisor(100, 2), 3);
}

#[test]
fn divisor_rounds_half_up() {
    // 24 / (16 * 1) = 1.5; halves round upward to 2.
    assert_eq!(baud_divisor(24, 1), 2);
    // 8 / (16 * 1) = 0.5 rounds to 1; anything below stays 0.
    assert_eq!(baud_divisor(8, 1), 1);
    assert_eq!(baud_divisor(7, 1), 0);
}

#[test]
fn register_map_offsets() {
    assert_eq!(UartReg::Rbr.offset(), 0x00);
    assert_eq!(UartReg::Ier.offset(), 0x04);
    assert_eq!(UartReg::Fcr.offset(), 0x08);
    assert_eq!(UartReg::Lcr.offset(), 0x0C);
    assert_eq!(UartReg::Mcr.offset(), 0x10);
    assert_eq!(UartReg::Lsr.offset(), 0x14);
    assert_eq!(UartReg::Msr.offset(), 0x18);
    assert_eq!(UartReg::Scr.offset(), 0x1C);
    assert_eq!(UartReg::Lpdll.offset(), 0x20);
    assert_eq!(UartReg::Usr.offset(), 0x7C);
    assert_eq!(UartReg::Srr.offset(), 0x88);
    assert_eq!(UartReg::Dlf.offset(), 0xC0);
}

#[test]
fn register_map_access() {
    assert!(UartReg::Lsr.is_read_only());
    assert!(UartReg::Msr.is_read_only());
    assert!(UartReg::Usr.is_read_only());
    assert!(!UartReg::Rbr.is_read_only());
    assert!(!UartReg::Ier.is_read_only());
    assert!(!UartReg::Lcr.is_read_only());
    assert!(!UartReg::Srr.is_read_only());
}

#[test]
fn initialize_write_sequence_verbatim() {
    let (mut bus, drv) = fresh_uart();
    // Transmitter empty from the start: line-status bit 6 set.
    bus.poke(LSR, 1 << 6);
    let r = drv.initialize(&mut bus, 24_000_000, 1_500_000, 8);
    assert_eq!(r, Ok(()));
    // Divisor 1: low byte 1 to the rbr offset, high byte 0 to the ier offset.
    let expected: [(usize, u32); 8] = [
        (BASE + 0x04, 0x00),
        (BASE + 0x08, 0x06),
        (BASE + 0x10, 0x03),
        (BASE + 0x0C, 0x03),
        (BASE + 0x0C, 0x83),
        (BASE + 0x00, 0x01),
        (BASE + 0x04, 0x00),
        (BASE + 0x0C, 0x03),
    ];
    assert_eq!(bus.write_count(), expected.len());
    for (i, want) in expected.iter().enumerate() {
        assert_eq!(bus.write_at(i), *want);
    }
}

#[test]
fn initialize_touches_no_read_only_register() {
    let (mut bus, drv) = fresh_uart();
    bus.poke(LSR, 1 << 6);
    drv.initialize(&mut bus, 24_000_000, 1_500_000, 8).unwrap();
    let read_only = [BASE + 0x14, BASE + 0x18, BASE + 0x7C];
    for i in 0..bus.write_count() {
        let (addr, _) = bus.write_at(i);
        assert!(!read_only.contains(&addr));
    }
}

#[test]
fn initialize_divisor_bytes_split() {
    let (mut bus, drv) = fresh_uart();
    bus.poke(LSR, 1 << 6);
    // 400 MHz at 200 baud: divisor 125000 = 0x1E848; latches take the low
    // two bytes 0x48 and 0xE8.
    assert_eq!(baud_divisor(400_000_000, 200), 125_000);
    let r = drv.initialize(&mut bus, 400_000_000, 200, 1);
    assert_eq!(r, Ok(()));
    assert_eq!(bus.write_at(5), (BASE + 0x00, 0x48));
    assert_eq!(bus.write_at(6), (BASE + 0x04, 0xE8));
}

#[test]
fn initialize_timeout_writes_nothing() {
    let (mut bus, drv) = fresh_uart();
    // Line-status bit 6 never rises.
    let r = drv.initialize(&mut bus, 24_000_000, 1_500_000, 16);
    assert_eq!(r, Err(UartError::Timeout));
    assert_eq!(bus.write_count(), 0);
}

#[test]
fn initialize_zero_polls_times_out() {
    let (mut bus, drv) = fresh_uart();
    bus.poke(LSR, 1 << 6);
    let r = drv.initialize(&mut bus, 24_000_000, 1_500_000, 0);
    assert_eq!(r, Err(UartError::Timeout));
    assert_eq!(bus.write_count(), 0);
}

#[test]
fn transmit_writes_byte_after_tx_empty() {
    let (mut bus, drv) = fresh_uart();
    bus.poke(LSR, 1 << 6);
    let r = drv.transmit(&mut bus, 0x41, 4);
    assert_eq!(r, Ok(()));
    assert_eq!(bus.write_count(), 1);
    assert_eq!(bus.write_at(0), (BASE + 0x00, 0x41));
}

#[test]
fn transmit_timeout_writes_nothing() {
    let (mut bus, drv) = fresh_uart();
    let r = drv.transmit(&mut bus, 0x41, 4);
    assert_eq!(r, Err(UartError::Timeout));
    assert_eq!(bus.write_count(), 0);
}

#[test]
fn receive_no_data_when_bit0_clear() {
    let (mut bus, drv) = fresh_uart();
    // Even with a byte sitting in the buffer, bit 0 clear means no data.
    bus.poke(BASE, 0x55);
    assert_eq!(drv.receive(&bus), None);
}

#[test]
fn receive_returns_low_byte() {
    let (mut bus, drv) = fresh_uart();
    bus.poke(LSR, 1);
    bus.poke(BASE, 0x241);
    assert_eq!(drv.receive(&bus), Some(0x41));
}

#[test]
fn receive_boundary_masks_to_ff() {
    let (mut bus, drv) = fresh_uart();
    bus.poke(LSR, 1);
    bus.poke(BASE, 0x1FF);
    assert_eq!(drv.receive(&bus), Some(0xFF));
}

#[test]
fn receive_never_writes() {
    let (mut bus, drv) = fresh_uart();
    bus.poke(LSR, 1);
    bus.poke(BASE, 0x7A);
    assert_eq!(drv.receive(&bus), Some(0x7A));
    assert_eq!(bus.write_count(), 0);
}

#[test]
fn interrupt_enable_overwrites_wholesale() {
    let (mut bus, drv) = fresh_uart();
    // A finer-grained configuration is deliberately not merged with.
    bus.poke(BASE + 0x04, 0x8F);
    drv.set_interrupt_enable(&mut bus, true);
    drv.set_interrupt_enable(&mut bus, false);
    assert_eq!(bus.write_count(), 2);
    assert_eq!(bus.write_at(0), (BASE + 0x04, 1));
    assert_eq!(bus.write_at(1), (BASE + 0x04, 0));
    assert_eq!(bus.read(BASE + 0x04), 0);
}

#[test]
fn end_to_end_reference_bring_up() {
    let (mut bus, drv) = fresh_uart();
    bus.poke(LSR, 1 << 6);
    let r = drv.initialize(&mut bus, 24_000_000, 1_500_000, 8);
    assert_eq!(r, Ok(()));
    let lcr = bus.read(BASE + 0x0C);
    // Divisor latch access bit (bit 7) clear again.
    assert_eq!((lcr >> 7) & 1, 0);
    // Data-bits field set to 0b11: 8 data bits.
    assert_eq!(lcr & 0b11, 0b11);
    // Divisor latch bytes: (1 & 0xFF, 0 & 0xFF).
    assert_eq!(bus.read(BASE + 0x00), 0x01);
    assert_eq!(bus.read(BASE + 0x04), 0x00);
    // The brought-up port can transmit.
    bus.poke(LSR, 1 << 6);
    assert_eq!(drv.transmit(&mut bus, b'U', 4), Ok(()));
    assert_eq!(bus.write_at(bus.write_count() - 1), (BASE, b'U' as u32));
}
