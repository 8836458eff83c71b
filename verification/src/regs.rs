//! The UART's register map: named fields at fixed byte offsets from the
//! peripheral's base address, each 32 bits wide and either read-only or
//! read-write. The map is a pure offset table; it has no behaviour of its
//! own.

use vstd::prelude::*;

verus! {

/// A register field of the DesignWare 8250-compatible UART.
///
/// `Rbr` is overloaded by the hardware: it is the receive buffer on read and
/// the transmit holding register on write, and, while the divisor-latch
/// access bit of `Lcr` is set, it aliases the low divisor byte (`Ier` then
/// aliases the high divisor byte).
#[derive(Clone, Copy, Debug, PartialEq, Eq, Structural)]
pub enum UartReg {
    /// Receive buffer / transmit holding (0x00, read-write).
    Rbr,
    /// Interrupt enable (0x04, read-write).
    Ier,
    /// FIFO control (0x08, read-write).
    Fcr,
    /// Line control (0x0C, read-write).
    Lcr,
    /// Modem control (0x10, read-write).
    Mcr,
    /// Line status (0x14, read-only).
    Lsr,
    /// Modem status (0x18, read-only).
    Msr,
    /// Scratch (0x1C, read-write).
    Scr,
    /// Low-power divisor latch low (0x20, read-write).
    Lpdll,
    /// UART status (0x7C, read-only).
    Usr,
    /// Software reset (0x88, read-write).
    Srr,
    /// Divisor latch fraction (0xC0, read-write).
    Dlf,
}

/// Number of 32-bit words a region must hold so that every field of the map,
/// `Dlf` at byte offset 0xC0 included, lies inside it.
pub const UART_BLOCK_WORDS: usize = 0x31;

impl UartReg {
    /// Byte offset of this field from the peripheral's base address.
    pub open spec fn spec_offset(self) -> usize {
        match self {
            UartReg::Rbr => 0x00,
            UartReg::Ier => 0x04,
            UartReg::Fcr => 0x08,
            UartReg::Lcr => 0x0C,
            UartReg::Mcr => 0x10,
            UartReg::Lsr => 0x14,
            UartReg::Msr => 0x18,
            UartReg::Scr => 0x1C,
            UartReg::Lpdll => 0x20,
            UartReg::Usr => 0x7C,
            UartReg::Srr => 0x88,
            UartReg::Dlf => 0xC0,
        }
    }

    /// Byte offset of this field from the peripheral's base address.
    pub fn offset(self) -> (r: usize)
        ensures
            r == self.spec_offset(),
    {
        match self {
            UartReg::Rbr => 0x00,
            UartReg::Ier => 0x04,
            UartReg::Fcr => 0x08,
            UartReg::Lcr => 0x0C,
            UartReg::Mcr => 0x10,
            UartReg::Lsr => 0x14,
            UartReg::Msr => 0x18,
            UartReg::Scr => 0x1C,
            UartReg::Lpdll => 0x20,
            UartReg::Usr => 0x7C,
            UartReg::Srr => 0x88,
            UartReg::Dlf => 0xC0,
        }
    }

    /// Whether the hardware rejects CPU writes to this field.
    pub open spec fn spec_read_only(self) -> bool {
        match self {
            UartReg::Lsr => true,
            UartReg::Msr => true,
            UartReg::Usr => true,
            _ => false,
        }
    }

    /// Whether the hardware rejects CPU writes to this field.
    pub fn is_read_only(self) -> (r: bool)
        ensures
            r == self.spec_read_only(),
    {
        match self {
            UartReg::Lsr => true,
            UartReg::Msr => true,
            UartReg::Usr => true,
            _ => false,
        }
    }
}

} // verus!
