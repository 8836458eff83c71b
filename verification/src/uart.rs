//! Polled driver for a DesignWare 8250-compatible UART.
//!
//! The driver owns only a base address; all device state lives in the
//! hardware registers, modelled by [`MmioRegion`]. Every operation is
//! specified by the exact sequence of register writes it issues, so a raw
//! memory-mapped runner can replay the same stores against real hardware.
//!
//! The reference design busy-waits forever on the line-status register; here
//! every wait takes an explicit poll bound and reports exhaustion as
//! [`UartError::Timeout`] instead of hanging.

use vstd::prelude::*;
use crate::mmio::MmioRegion;
use crate::regs::UartReg;

verus! {

/// The polled wait gave up before the awaited line-status bit rose.
#[derive(Clone, Copy, Debug, PartialEq, Eq, Structural)]
pub enum UartError {
    Timeout,
}

/// Baud divisor `(src_clock + 8*baud) / (16*baud)`: the standard formula
/// `src_clock / (16*baud)` rounded to the nearest integer, halves upward
/// (see [`lemma_divisor_rounds_to_nearest`]).
pub open spec fn spec_divisor(src_clock: nat, baud: nat) -> nat
    recommends
        baud > 0,
{
    (src_clock + 8 * baud) / (16 * baud)
}

/// Low byte of the divisor, as programmed into the low divisor latch.
pub open spec fn divisor_low(src_clock: nat, baud: nat) -> u32 {
    (spec_divisor(src_clock, baud) % 256) as u32
}

/// High byte of the divisor, as programmed into the high divisor latch.
pub open spec fn divisor_high(src_clock: nat, baud: nat) -> u32 {
    ((spec_divisor(src_clock, baud) / 256) % 256) as u32
}

/// The divisor formula rounds to nearest: `floor(x + 1/2)` for the exact
/// rational `x = src_clock / (16*baud)` is `floor((2*src_clock + 16*baud) /
/// (32*baud))`, and the computed divisor equals it.
pub proof fn lemma_divisor_rounds_to_nearest(src_clock: nat, baud: nat)
    requires
        baud > 0,
    ensures
        spec_divisor(src_clock, baud) == (2 * src_clock + 16 * baud) / (32 * baud),
{
    let a = (src_clock + 8 * baud) as int;
    let n = (16 * baud) as int;
    assert(2 * src_clock + 16 * baud == 2 * a);
    assert(32 * baud == 2 * n);
    vstd::arithmetic::div_mod::lemma_div_denominator(2 * a, 2, n);
    vstd::arithmetic::div_mod::lemma_div_multiples_vanish(a, 2);
}

/// The rounded-nearest baud divisor for `src_clock` and `baud`.
pub fn baud_divisor(src_clock: u32, baud: u32) -> (d: u64)
    requires
        baud > 0,
    ensures
        d == spec_divisor(src_clock as nat, baud as nat),
{
    let s: u64 = src_clock as u64;
    let b: u64 = baud as u64;
    (s + 8 * b) / (16 * b)
}

/// A UART bound to the base address of its register block.
pub struct UartDriver {
    pub base_address: usize,
}

impl UartDriver {
    /// The whole register map, `Dlf` at byte offset 0xC0 included, fits in
    /// the address space.
    pub open spec fn block_in_range(self) -> bool {
        self.base_address + 0xC4 <= usize::MAX + 1
    }

    /// Absolute address of a register field.
    pub open spec fn addr_of(self, r: UartReg) -> usize
        recommends
            self.block_in_range(),
    {
        (self.base_address + r.spec_offset()) as usize
    }

    /// Every field of the register map names a valid register of `bus`.
    pub open spec fn regs_mapped(self, bus: MmioRegion) -> bool {
        &&& self.block_in_range()
        &&& bus.valid_addr(self.addr_of(UartReg::Rbr))
        &&& bus.valid_addr(self.addr_of(UartReg::Ier))
        &&& bus.valid_addr(self.addr_of(UartReg::Fcr))
        &&& bus.valid_addr(self.addr_of(UartReg::Lcr))
        &&& bus.valid_addr(self.addr_of(UartReg::Mcr))
        &&& bus.valid_addr(self.addr_of(UartReg::Lsr))
        &&& bus.valid_addr(self.addr_of(UartReg::Msr))
        &&& bus.valid_addr(self.addr_of(UartReg::Scr))
        &&& bus.valid_addr(self.addr_of(UartReg::Lpdll))
        &&& bus.valid_addr(self.addr_of(UartReg::Usr))
        &&& bus.valid_addr(self.addr_of(UartReg::Srr))
        &&& bus.valid_addr(self.addr_of(UartReg::Dlf))
    }

    /// Bit `bit` of the line-status register is set in `bus`.
    pub open spec fn lsr_bit_set(self, bus: MmioRegion, bit: u32) -> bool {
        (bus.word_at(self.addr_of(UartReg::Lsr)) >> bit) & 1u32 == 1u32
    }

    /// Line-status bit 6, "transmitter empty": no transmission in flight.
    pub open spec fn tx_idle(self, bus: MmioRegion) -> bool {
        self.lsr_bit_set(bus, 6)
    }

    /// Line-status bit 0, "data ready": a received byte is waiting.
    pub open spec fn data_ready(self, bus: MmioRegion) -> bool {
        self.lsr_bit_set(bus, 0)
    }

    /// The exact stores `initialize` issues, in order: interrupts off, FIFOs
    /// cleared, modem control, line control, divisor latch opened, the two
    /// divisor bytes, divisor latch closed.
    pub open spec fn init_writes(self, src_clock: nat, baud: nat) -> Seq<(usize, u32)> {
        seq![
            (self.addr_of(UartReg::Ier), 0u32),
            (self.addr_of(UartReg::Fcr), 0x06u32),
            (self.addr_of(UartReg::Mcr), 0x03u32),
            (self.addr_of(UartReg::Lcr), 0x03u32),
            (self.addr_of(UartReg::Lcr), 0x83u32),
            (self.addr_of(UartReg::Rbr), divisor_low(src_clock, baud)),
            (self.addr_of(UartReg::Ier), divisor_high(src_clock, baud)),
            (self.addr_of(UartReg::Lcr), 0x03u32),
        ]
    }

    /// The bring-up sequence honours the register map's access permissions:
    /// none of its stores targets a read-only field.
    pub proof fn lemma_init_writes_respect_access(self, src_clock: nat, baud: nat, r: UartReg, i: int)
        requires
            self.block_in_range(),
            r.spec_read_only(),
            0 <= i < self.init_writes(src_clock, baud).len(),
        ensures
            self.init_writes(src_clock, baud)[i].0 != self.addr_of(r),
    {
        match r {
            UartReg::Lsr => {
            },
            UartReg::Msr => {
            },
            UartReg::Usr => {
            },
            _ => {
            },
        }
    }

    /// A driver bound to `base_address`; touches no hardware.
    pub fn new(base_address: usize) -> (r: UartDriver)
        ensures
            r.base_address == base_address,
    {
        UartDriver { base_address }
    }

    /// Absolute address of a register field.
    pub fn reg_addr(&self, r: UartReg) -> (a: usize)
        requires
            self.block_in_range(),
        ensures
            a == self.addr_of(r),
    {
        self.base_address + r.offset()
    }

    /// Poll the line-status register until bit `bit` is set, at most
    /// `max_polls` reads; reports whether the bit was observed set.
    fn poll_lsr_bit(&self, bus: &MmioRegion, bit: u32, max_polls: usize) -> (ok: bool)
        requires
            bus.wf(),
            self.regs_mapped(*bus),
            bit <= 31,
        ensures
            ok <==> (max_polls > 0 && self.lsr_bit_set(*bus, bit)),
    {
        let lsr: usize = self.reg_addr(UartReg::Lsr);
        let mut i: usize = 0;
        while i < max_polls
            invariant
                bus.wf(),
                self.regs_mapped(*bus),
                bit <= 31,
                lsr == self.addr_of(UartReg::Lsr),
                i > 0 ==> !self.lsr_bit_set(*bus, bit),
            decreases max_polls - i,
        {
            let v: u32 = bus.read(lsr);
            if (v >> bit) & 1 == 1 {
                return true;
            }
            i = i + 1;
        }
        false
    }

    /// Bring the device up: wait for the transmitter to drain, then program
    /// FIFO, modem and line control and the baud divisor.
    ///
    /// On success the stores issued are exactly `init_writes(src_clock,
    /// baud)`, appended to the log in that order; on timeout nothing is
    /// written.
    pub fn initialize(
        &self,
        bus: &mut MmioRegion,
        src_clock: u32,
        baud: u32,
        max_polls: usize,
    ) -> (r: Result<(), UartError>)
        requires
            old(bus).wf(),
            self.regs_mapped(*old(bus)),
            baud > 0,
        ensures
            final(bus).wf(),
            final(bus).base() == old(bus).base(),
            final(bus).words().len() == old(bus).words().len(),
            r is Ok <==> (max_polls > 0 && self.tx_idle(*old(bus))),
            r is Err ==> final(bus).log() == old(bus).log() && final(bus).words() == old(
                bus,
            ).words(),
            r is Ok ==> final(bus).log() == old(bus).log() + self.init_writes(
                src_clock as nat,
                baud as nat,
            ),
            r is Ok ==> final(bus).word_at(self.addr_of(UartReg::Lcr)) == 0x03u32,
            r is Ok ==> final(bus).word_at(self.addr_of(UartReg::Rbr)) == divisor_low(
                src_clock as nat,
                baud as nat,
            ),
            r is Ok ==> final(bus).word_at(self.addr_of(UartReg::Ier)) == divisor_high(
                src_clock as nat,
                baud as nat,
            ),
            r is Ok ==> final(bus).word_at(self.addr_of(UartReg::Fcr)) == 0x06u32,
            r is Ok ==> final(bus).word_at(self.addr_of(UartReg::Mcr)) == 0x03u32,
            r is Ok ==> forall|a: usize|
                old(bus).valid_addr(a) && a != self.addr_of(UartReg::Ier) && a != self.addr_of(
                    UartReg::Fcr,
                ) && a != self.addr_of(UartReg::Mcr) && a != self.addr_of(UartReg::Lcr) && a
                    != self.addr_of(UartReg::Rbr) ==> #[trigger] final(bus).word_at(a) == old(
                    bus,
                ).word_at(a),
    {
        if !self.poll_lsr_bit(bus, 6, max_polls) {
            return Err(UartError::Timeout);
        }
        let ier: usize = self.reg_addr(UartReg::Ier);
        let fcr: usize = self.reg_addr(UartReg::Fcr);
        let mcr: usize = self.reg_addr(UartReg::Mcr);
        let lcr: usize = self.reg_addr(UartReg::Lcr);
        let rbr: usize = self.reg_addr(UartReg::Rbr);
        proof {
            old(bus).lemma_word_index_injective(ier, fcr);
            old(bus).lemma_word_index_injective(ier, mcr);
            old(bus).lemma_word_index_injective(ier, lcr);
            old(bus).lemma_word_index_injective(ier, rbr);
            old(bus).lemma_word_index_injective(fcr, mcr);
            old(bus).lemma_word_index_injective(fcr, lcr);
            old(bus).lemma_word_index_injective(fcr, rbr);
            old(bus).lemma_word_index_injective(mcr, lcr);
            old(bus).lemma_word_index_injective(mcr, rbr);
            old(bus).lemma_word_index_injective(lcr, rbr);
        }
        // All interrupt sources off.
        bus.write(ier, 0);
        // Clear and disable both FIFOs.
        bus.write(fcr, 0x06);
        // Assert "data terminal ready" and "request to send".
        bus.write(mcr, 0x03);
        // 8 data bits, no parity, 1 stop bit.
        bus.write(lcr, 0x03);
        // Open the divisor latch: set LCR bit 7, exposing the divisor
        // registers at the rbr/ier offsets.
        let lcr_v: u32 = bus.read(lcr);
        proof {
            assert(3u32 | 0x80u32 == 0x83u32) by (bit_vector);
        }
        bus.write(lcr, lcr_v | 0x80);
        // Program the divisor, low byte then high byte.
        let d: u64 = baud_divisor(src_clock, baud);
        bus.write(rbr, (d % 256) as u32);
        bus.write(ier, ((d / 256) % 256) as u32);
        // Close the divisor latch: clear LCR bit 7, restoring normal
        // register semantics.
        let lcr_v2: u32 = bus.read(lcr);
        proof {
            assert(0x83u32 & !0x80u32 == 0x03u32) by (bit_vector);
        }
        bus.write(lcr, lcr_v2 & !0x80u32);
        proof {
            assert(final(bus).log() =~= old(bus).log() + self.init_writes(
                src_clock as nat,
                baud as nat,
            ));
            assert forall|a: usize|
                old(bus).valid_addr(a) && a != self.addr_of(UartReg::Ier) && a != self.addr_of(
                    UartReg::Fcr,
                ) && a != self.addr_of(UartReg::Mcr) && a != self.addr_of(UartReg::Lcr) && a
                    != self.addr_of(UartReg::Rbr) implies #[trigger] final(bus).word_at(a) == old(
                bus,
            ).word_at(a) by {
                old(bus).lemma_word_index_injective(a, ier);
                old(bus).lemma_word_index_injective(a, fcr);
                old(bus).lemma_word_index_injective(a, mcr);
                old(bus).lemma_word_index_injective(a, lcr);
                old(bus).lemma_word_index_injective(a, rbr);
            }
        }
        Ok(())
    }

    /// Send one byte: wait for "transmitter empty" (line-status bit 6), then
    /// store the byte to the transmit holding register. On timeout nothing
    /// is written.
    pub fn transmit(&self, bus: &mut MmioRegion, byte: u8, max_polls: usize) -> (r: Result<
        (),
        UartError,
    >)
        requires
            old(bus).wf(),
            self.regs_mapped(*old(bus)),
        ensures
            final(bus).wf(),
            final(bus).base() == old(bus).base(),
            r is Ok <==> (max_polls > 0 && self.tx_idle(*old(bus))),
            r is Ok ==> final(bus).log() == old(bus).log().push(
                (self.addr_of(UartReg::Rbr), byte as u32),
            ),
            r is Ok ==> final(bus).words() == old(bus).words().update(
                old(bus).word_index(self.addr_of(UartReg::Rbr)),
                byte as u32,
            ),
            r is Err ==> final(bus).log() == old(bus).log() && final(bus).words() == old(
                bus,
            ).words(),
    {
        if !self.poll_lsr_bit(bus, 6, max_polls) {
            return Err(UartError::Timeout);
        }
        let rbr: usize = self.reg_addr(UartReg::Rbr);
        bus.write(rbr, byte as u32);
        Ok(())
    }

    /// Non-blocking poll for one received byte: `None` when line-status bit
    /// 0 ("data ready") is clear, otherwise the low 8 bits of the receive
    /// buffer. Never writes a register.
    pub fn receive(&self, bus: &MmioRegion) -> (r: Option<u8>)
        requires
            bus.wf(),
            self.regs_mapped(*bus),
        ensures
            r == (if self.data_ready(*bus) {
                Some((bus.word_at(self.addr_of(UartReg::Rbr)) & 0xFFu32) as u8)
            } else {
                None::<u8>
            }),
    {
        let lsr: usize = self.reg_addr(UartReg::Lsr);
        let v: u32 = bus.read(lsr);
        if v & 1 == 1 {
            let rbr: usize = self.reg_addr(UartReg::Rbr);
            let w: u32 = bus.read(rbr);
            proof {
                assert(w & 0xFFu32 < 256) by (bit_vector);
                assert(v & 1u32 == 1u32 ==> (v >> 0u32) & 1u32 == 1u32) by (bit_vector);
            }
            Some((w & 0xFF) as u8)
        } else {
            proof {
                assert(v & 1u32 != 1u32 ==> (v >> 0u32) & 1u32 != 1u32) by (bit_vector);
            }
            None
        }
    }

    /// Overwrite the whole interrupt-enable register: `1` (receive-data
    /// interrupt only) when enabling, `0` when disabling. Deliberately not a
    /// masked update.
    pub fn set_interrupt_enable(&self, bus: &mut MmioRegion, enable: bool)
        requires
            old(bus).wf(),
            self.regs_mapped(*old(bus)),
        ensures
            final(bus).wf(),
            final(bus).base() == old(bus).base(),
            final(bus).log() == old(bus).log().push(
                (self.addr_of(UartReg::Ier), if enable { 1u32 } else { 0u32 }),
            ),
            final(bus).words() == old(bus).words().update(
                old(bus).word_index(self.addr_of(UartReg::Ier)),
                if enable { 1u32 } else { 0u32 },
            ),
    {
        let ier: usize = self.reg_addr(UartReg::Ier);
        let v: u32 = if enable { 1 } else { 0 };
        bus.write(ier, v);
    }
}

} // verus!
