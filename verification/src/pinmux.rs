//! Pin-multiplexing and GPIO helpers for Rockchip-style registers.
//!
//! These registers share one convention: the upper 16 bits of a 32-bit store
//! are a write-enable mask, and only the lower-half bits whose mask bit is
//! set take the stored value. Every helper here is one or two such stores on
//! caller-supplied addresses; nothing persists between calls.

use vstd::prelude::*;
use crate::bits::bit_range_mask;
use crate::mmio::MmioRegion;

verus! {

/// The 32-bit word `clear_then_set` stores: the union of the two masks in
/// the upper write-enable half, the new bit values in the lower half.
pub open spec fn spec_clear_set_value(clear_mask: u64, set_mask: u64) -> u32
    recommends
        clear_mask <= 0xFFFF,
        set_mask <= 0xFFFF,
{
    (((clear_mask | set_mask) << 16u64) | set_mask) as u32
}

/// The 32-bit word `clear_then_set` stores for the given masks.
pub fn clear_then_set_value(clear_mask: u64, set_mask: u64) -> (r: u32)
    requires
        clear_mask <= 0xFFFF,
        set_mask <= 0xFFFF,
    ensures
        r == spec_clear_set_value(clear_mask, set_mask),
{
    let combined: u64 = ((clear_mask | set_mask) << 16) | set_mask;
    combined as u32
}

/// One write-enabled register update: permit every bit of
/// `clear_mask | set_mask` to change and drive the permitted bits to
/// `set_mask`. The bit positions of `clear_mask` matter, not its values: a
/// bit set there and clear in `set_mask` is driven low.
pub fn clear_then_set(bus: &mut MmioRegion, addr: usize, clear_mask: u64, set_mask: u64)
    requires
        old(bus).wf(),
        old(bus).valid_addr(addr),
        clear_mask <= 0xFFFF,
        set_mask <= 0xFFFF,
    ensures
        final(bus).wf(),
        final(bus).base() == old(bus).base(),
        final(bus).log() == old(bus).log().push(
            (addr, spec_clear_set_value(clear_mask, set_mask)),
        ),
        final(bus).words() == old(bus).words().update(
            old(bus).word_index(addr),
            spec_clear_set_value(clear_mask, set_mask),
        ),
{
    let v: u32 = clear_then_set_value(clear_mask, set_mask);
    bus.write(addr, v);
}

/// Byte offset of the iomux-select register updated by [`pin_mux_route`],
/// fixed by the SoC relative to the caller-supplied IOC base.
pub const PIN_MUX_REG_OFFSET: usize = 0x2C;

/// Route two peripheral signals to their pins in one write-enabled update of
/// the iomux-select register at `ioc_base + PIN_MUX_REG_OFFSET`: each
/// signal's mux-selector value is shifted into its field, and the union of
/// the two field masks is the write-enable half.
pub fn pin_mux_route(
    bus: &mut MmioRegion,
    ioc_base: usize,
    a_value: u64,
    a_mask: u64,
    a_shift: u64,
    b_value: u64,
    b_mask: u64,
    b_shift: u64,
)
    requires
        old(bus).wf(),
        old(bus).valid_offset_addr(ioc_base, PIN_MUX_REG_OFFSET),
        a_mask <= 0xFFFF,
        b_mask <= 0xFFFF,
        a_shift <= 15,
        b_shift <= 15,
        (a_value << a_shift) <= 0xFFFF,
        (b_value << b_shift) <= 0xFFFF,
    ensures
        final(bus).wf(),
        final(bus).base() == old(bus).base(),
        final(bus).log() == old(bus).log().push(
            (
                ((ioc_base + PIN_MUX_REG_OFFSET) as usize),
                spec_clear_set_value(a_mask | b_mask, (a_value << a_shift) | (b_value << b_shift)),
            ),
        ),
        final(bus).words() == old(bus).words().update(
            old(bus).word_index((ioc_base + PIN_MUX_REG_OFFSET) as usize),
            spec_clear_set_value(a_mask | b_mask, (a_value << a_shift) | (b_value << b_shift)),
        ),
{
    let mask: u64 = a_mask | b_mask;
    let set_bits: u64 = (a_value << a_shift) | (b_value << b_shift);
    proof {
        assert(a_mask <= 0xFFFF && b_mask <= 0xFFFF ==> (a_mask | b_mask) <= 0xFFFF)
            by (bit_vector);
        let av: u64 = a_value << a_shift;
        let bv: u64 = b_value << b_shift;
        assert(av <= 0xFFFF && bv <= 0xFFFF ==> (av | bv) <= 0xFFFF) by (bit_vector);
    }
    let reg: usize = ioc_base + PIN_MUX_REG_OFFSET;
    clear_then_set(bus, reg, mask, set_bits);
}

/// Route UART7 RX and TX, multiplexing variant M2, to the GPIO1 B4/B5 pins:
/// mux selector 10 into the two 4-bit fields `[3:0]` and `[7:4]` of the
/// iomux-select register at `addr + PIN_MUX_REG_OFFSET`. The resulting
/// store is `0x00FF00AA`.
pub fn iomux_uart7_m2(bus: &mut MmioRegion, addr: usize)
    requires
        old(bus).wf(),
        old(bus).valid_offset_addr(addr, PIN_MUX_REG_OFFSET),
    ensures
        final(bus).wf(),
        final(bus).base() == old(bus).base(),
        final(bus).log() == old(bus).log().push(
            (((addr + PIN_MUX_REG_OFFSET) as usize), 0x00FF00AAu32),
        ),
        final(bus).words() == old(bus).words().update(
            old(bus).word_index((addr + PIN_MUX_REG_OFFSET) as usize),
            0x00FF00AAu32,
        ),
{
    // Field masks for pins GPIO1 B4 (bits [3:0]) and B5 (bits [7:4]).
    let rx_mask: u64 = bit_range_mask(3, 0);
    let tx_mask: u64 = bit_range_mask(7, 4);
    proof {
        assert((!0u64 << 0u64) & (!0u64 >> 60u64) == 0x0Fu64) by (bit_vector);
        assert((!0u64 << 4u64) & (!0u64 >> 56u64) == 0xF0u64) by (bit_vector);
        assert(10u64 << 0u64 == 0x0Au64 && 10u64 << 4u64 == 0xA0u64) by (bit_vector);
        assert(0x0Fu64 | 0xF0u64 == 0xFFu64 && 0x0Au64 | 0xA0u64 == 0xAAu64) by (bit_vector);
        assert((((0xFFu64 | 0xAAu64) << 16u64) | 0xAAu64) as u32 == 0x00FF00AAu32) by (bit_vector);
    }
    // Mux selector 10 routes UART7 RX (field [3:0]) and TX (field [7:4]).
    pin_mux_route(bus, addr, 10, rx_mask, 0, 10, tx_mask, 4);
}

/// Which 16-bit half of the direction/data register pair a pin lives in:
/// byte offset 0 for pins 0..=15, byte offset 4 for pins 16..=31.
pub open spec fn spec_gpio_half_offset(number: usize) -> usize {
    if number < 16 {
        0
    } else {
        4
    }
}

/// Bit position of a pin within its 16-bit half.
pub open spec fn spec_gpio_shift(number: usize) -> usize
    recommends
        number < 32,
{
    if number < 16 {
        number
    } else {
        (number - 16) as usize
    }
}

/// The within-half bit position is the pin number modulo 16.
pub proof fn lemma_gpio_shift_is_mod16(number: usize)
    requires
        number < 32,
    ensures
        spec_gpio_shift(number) == number % 16,
{
    if number < 16 {
        vstd::arithmetic::div_mod::lemma_small_mod(number as nat, 16);
    } else {
        vstd::arithmetic::div_mod::lemma_fundamental_div_mod_converse(
            number as int,
            16,
            1,
            number - 16,
        );
    }
}

/// Value stored to the direction register by `gpio_output`: the pin's bit
/// driven to 1 (output mode) under its write-enable bit.
pub open spec fn spec_gpio_dir_value(number: usize) -> u32
    recommends
        number < 32,
{
    (1u32 << spec_gpio_shift(number)) | ((1u32 << spec_gpio_shift(number)) << 16u32)
}

/// Value stored to the data register by `gpio_output`: the pin's bit driven
/// to the requested level under its write-enable bit.
pub open spec fn spec_gpio_data_value(number: usize, is_high: bool) -> u32
    recommends
        number < 32,
{
    ((if is_high {
        1u32
    } else {
        0u32
    }) << spec_gpio_shift(number)) | ((1u32 << spec_gpio_shift(number)) << 16u32)
}

/// Drive one pin of a GPIO bank as an output at the given level: one store
/// to the direction register (`gpio_bank + 0x8 + half`), then one to the
/// data register (`gpio_bank + half`), both under the pin's write-enable
/// bit. The two stores are not atomic together: the device passes through
/// the state after the first.
pub fn gpio_output(bus: &mut MmioRegion, gpio_bank: usize, number: usize, is_high: bool)
    requires
        old(bus).wf(),
        number < 32,
        old(bus).valid_offset_addr(gpio_bank, spec_gpio_half_offset(number)),
        old(bus).valid_offset_addr(gpio_bank, (0x8 + spec_gpio_half_offset(number)) as usize),
    ensures
        final(bus).wf(),
        final(bus).base() == old(bus).base(),
        final(bus).log() == old(bus).log().push(
            (
                ((gpio_bank + 0x8 + spec_gpio_half_offset(number)) as usize),
                spec_gpio_dir_value(number),
            ),
        ).push(
            ((gpio_bank + spec_gpio_half_offset(number)) as usize, spec_gpio_data_value(
                number,
                is_high,
            )),
        ),
        final(bus).words() == old(bus).words().update(
            old(bus).word_index((gpio_bank + 0x8 + spec_gpio_half_offset(number)) as usize),
            spec_gpio_dir_value(number),
        ).update(
            old(bus).word_index((gpio_bank + spec_gpio_half_offset(number)) as usize),
            spec_gpio_data_value(number, is_high),
        ),
{
    let base_offset: usize = if number < 16 {
        0
    } else {
        4
    };
    let num_shift: usize = if number < 16 {
        number
    } else {
        number - 16
    };
    let data_addr: usize = gpio_bank + base_offset;
    let dir_addr: usize = gpio_bank + 0x8 + base_offset;
    let mask: u32 = (1u32 << num_shift) << 16;
    // Data direction: output.
    bus.write(dir_addr, (1u32 << num_shift) | mask);
    let level: u32 = if is_high {
        1
    } else {
        0
    };
    // Data: high = 1, low = 0.
    bus.write(data_addr, (level << num_shift) | mask);
}

/// Drive every pin of a GPIO bank's data register low: a zero value under a
/// full `0xFFFF` write-enable mask, stored to both 16-bit halves
/// (`gpio_bank` and `gpio_bank + 0x4`), so each store is `0xFFFF0000`.
pub fn gpio_output_clear(bus: &mut MmioRegion, gpio_bank: usize)
    requires
        old(bus).wf(),
        old(bus).valid_addr(gpio_bank),
        old(bus).valid_offset_addr(gpio_bank, 0x4),
    ensures
        final(bus).wf(),
        final(bus).base() == old(bus).base(),
        final(bus).log() == old(bus).log().push((gpio_bank, 0xFFFF0000u32)).push(
            (((gpio_bank + 0x4) as usize), 0xFFFF0000u32),
        ),
        final(bus).words() == old(bus).words().update(
            old(bus).word_index(gpio_bank),
            0xFFFF0000u32,
        ).update(old(bus).word_index((gpio_bank + 0x4) as usize), 0xFFFF0000u32),
{
    // Zero data under a full write-enable mask, for each 16-bit half.
    bus.write(gpio_bank, 0xFFFF0000);
    let high_half: usize = gpio_bank + 0x4;
    bus.write(high_half, 0xFFFF0000);
}

} // verus!
