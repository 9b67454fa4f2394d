//! What holds of every access to the bus: mirroring, write-one-to-clear
//! and the round trips through memory.
use vstd::prelude::*;
use crate::bits::{lemma_le16_bytes, lemma_le16_of_bytes, spec_hi8, spec_le16, spec_lo8};
use crate::mmu::bus::{spec_acknowledged, Bus, IO_BASE};
use crate::mmu::{peek16, poke16, Mcu};
use crate::ppu::lcd::spec_align2;

verus! {

/// The size at which the memory of a region repeats: for the two work
/// memories, the palette, the video memory and the object attributes. No
/// other region is a plain memory, and for them the size is 0.
pub open spec fn mirror_size(region: u32) -> int {
    if region == 0x02 {
        0x40000
    } else if region == 0x03 {
        0x8000
    } else if region == 0x05 {
        0x400
    } else if region == 0x06 {
        0x18000
    } else if region == 0x07 {
        0x400
    } else {
        0
    }
}

/// The region of an address: its top byte.
pub open spec fn region_of(address: u32) -> u32 {
    address / 0x100_0000
}

/// Two addresses of one memory region that differ by a multiple of the
/// size of the memory are the same place: they read the same byte, and a
/// write to one is a write to the other.
pub proof fn lemma_memory_mirrors(bus: Bus, a: u32, b: u32, value: u8)
    requires
        region_of(a) == region_of(b),
        mirror_size(region_of(a)) > 0,
        a as int % mirror_size(region_of(a)) == b as int % mirror_size(region_of(a)),
    ensures
        bus.peek8(a) == bus.peek8(b),
        bus.poke8(a, value) == bus.poke8(b, value),
{
    reveal(Bus::read8_spec);
    reveal(Bus::write8_spec);
}

/// The address of the low byte of the request flags.
pub open spec fn request_flags_address() -> u32 {
    (IO_BASE + 0x202) as u32
}

/// A byte write to the request flags followed by a 16-bit read: exactly
/// the flags whose bits are set in the written byte are cleared, and the
/// flags whose bits are clear in it stay as they were.
pub proof fn lemma_request_flags_write_one_to_clear(bus: Bus, value: u8)
    ensures
        peek16(&bus.poke8(request_flags_address(), value), request_flags_address()) == bus.iff.0 & !(
        value as u16),
{
    reveal(Bus::read8_spec);
    reveal(Bus::write8_spec);
    let after = bus.poke8(request_flags_address(), value);
    assert(after.iff.0 == spec_acknowledged(bus.iff.0, value as u16));
    lemma_le16_of_bytes(after.iff.0);
}

/// A byte written to a plain memory reads back.
pub proof fn lemma_written_byte_reads_back(bus: Bus, address: u32, value: u8)
    requires
        mirror_size(region_of(address)) > 0,
    ensures
        bus.poke8(address, value).peek8(address) == value,
{
    reveal(Bus::read8_spec);
    reveal(Bus::write8_spec);
}

/// A byte written to a plain memory leaves the other places of that
/// memory as they were.
pub proof fn lemma_written_byte_leaves_others(bus: Bus, address: u32, other: u32, value: u8)
    requires
        mirror_size(region_of(address)) > 0,
        region_of(other) == region_of(address),
        other as int % mirror_size(region_of(address)) != address as int % mirror_size(region_of(address)),
    ensures
        bus.poke8(address, value).peek8(other) == bus.peek8(other),
{
    reveal(Bus::read8_spec);
    reveal(Bus::write8_spec);
}

/// A 16-bit write to an even address of a plain memory followed by a
/// 16-bit read of the same address returns what was written.
pub proof fn lemma_memory_round_trip(bus: Bus, address: u32, value: u16)
    requires
        mirror_size(region_of(address)) > 0,
        address % 2 == 0,
    ensures
        peek16(&poke16(bus, address, value), address) == value,
{
    let next = address.wrapping_add(1);
    assert(next == address + 1);
    assert(region_of(next) == region_of(address));
    let size = mirror_size(region_of(address));
    assert(address as int % size != next as int % size) by {
        assert(size % 2 == 0);
        assert((address as int % size) % 2 == 0);
    }
    let first = bus.poke8(address, spec_lo8(value));
    lemma_written_byte_reads_back(bus, address, spec_lo8(value));
    lemma_written_byte_leaves_others(first, next, address, spec_hi8(value));
    lemma_written_byte_reads_back(first, next, spec_hi8(value));
    lemma_le16_of_bytes(value);
}

/// The bits of the 16-bit I/O register at `offset` that a write changes
/// and a read returns. A register that cannot be read, a register that
/// cannot be written and an offset without a register have none.
pub open spec fn writable_mask(offset: u32) -> u16 {
    if offset == 0x000 || (0x008 <= offset <= 0x00E) || offset == 0x048 || offset == 0x04A || offset
        == 0x050 {
        0xFFFF
    } else if offset == 0x004 {
        0xFFF8
    } else if offset == 0x0BA || offset == 0x0C6 || offset == 0x0D2 || offset == 0x0DE {
        0xFFE0
    } else if offset == 0x102 || offset == 0x106 || offset == 0x10A || offset == 0x10E {
        0x00C7
    } else if offset == 0x200 || offset == 0x20A {
        0xFFFF
    } else if offset == 0x208 {
        0xFF01
    } else {
        0
    }
}

/// Facts about masks of 16 bits: what a full and an empty mask let
/// through, and DISPSTAT written in two bytes.
proof fn lemma_masks(v: u16, prev: u16)
    by (bit_vector)
    ensures
        (v & 0xFFFFu16) | (prev & !0xFFFFu16) == v,
        (v & 0u16) | (prev & !0u16) == prev,
        ({
            let first = ((v % 256 + 256 * (prev / 256)) as u16 & !0b111u16) | (prev & 0b111u16);
            let second = ((first % 256 + 256 * (v / 256)) as u16 & !0b111u16) | (first & 0b111u16);
            second == (v & 0xFFF8u16) | (prev & !0xFFF8u16)
        }),
        v - v % 32 == v & 0xFFE0u16,
        prev % 32 == 0 ==> prev & !0xFFE0u16 == 0,
        (v & 0xFFE0u16) | 0u16 == v & 0xFFE0u16,
        (0xFF00 + 128 * ((v / 128) % 2) + 64 * ((v / 64) % 2) + 4 * ((v / 4) % 2) + v % 4) as u16 == (v
            & 0x00C7u16) | 0xFF00u16,
        prev >= 0xFF00 && (prev % 64) / 8 == 0 ==> prev & !0x00C7u16 == 0xFF00u16,
        (256 * (v / 256) + (v % 256) % 2) as u16 == v & 0xFF01u16,
        (prev % 256) / 2 == 0 ==> prev & !0xFF01u16 == 0,
        (v & 0xFF01u16) | 0u16 == v & 0xFF01u16,
{
}

/// A 16-bit write to a display register in two bytes, and a 16-bit read.
proof fn lemma_ppu_register(ppu: crate::ppu::lcd::Ppu, offset: u32, value: u16)
    requires
        offset % 2 == 0,
        offset <= 0x54,
    ensures
        ({
            let first = ppu.write8_spec(offset, spec_lo8(value));
            let second = if offset + 1 <= 0x54 {
                first.write8_spec((offset + 1) as u32, spec_hi8(value))
            } else {
                first
            };
            second.read16_spec(offset) == (value & writable_mask(offset)) | (ppu.read16_spec(offset)
                & !writable_mask(offset))
        }),
{
    let prev = ppu.read16_spec(offset);
    lemma_masks(value, prev);
    lemma_le16_of_bytes(value);
    let raw = ppu.raw_read16_spec(offset);
    lemma_le16_bytes(spec_lo8(value), spec_hi8(raw));
    let first = ppu.write8_spec(offset, spec_lo8(value));
    let raw_first = first.raw_read16_spec(offset);
    if offset == 0x000 || (0x008 <= offset <= 0x00E) || offset == 0x048 || offset == 0x04A || offset == 0x050 {
        assert(raw_first == spec_le16(spec_lo8(value), spec_hi8(raw)));
    }
}

/// The control bits of a timer, which all lie in the low byte of its
/// control register, are the same in two values with the same low byte.
proof fn lemma_timer_bits(v: u16, x: u16)
    by (bit_vector)
    requires
        x % 256 == v % 256,
    ensures
        (x / 128) % 2 == (v / 128) % 2,
        (x / 64) % 2 == (v / 64) % 2,
        (x / 4) % 2 == (v / 4) % 2,
        x % 4 == v % 4,
{
}

/// The control bits of a timer survive being read back as a low byte.
proof fn lemma_timer_bits_back(v: u16, y: u16)
    by (bit_vector)
    requires
        y % 256 == 128 * ((v / 128) % 2) + 64 * ((v / 64) % 2) + 4 * ((v / 4) % 2) + v % 4,
    ensures
        (y / 128) % 2 == (v / 128) % 2,
        (y / 64) % 2 == (v / 64) % 2,
        (y / 4) % 2 == (v / 4) % 2,
        y % 4 == v % 4,
{
}

/// The control register of a timer after a write of `x`.
proof fn lemma_timer_applied(t: crate::mmu::timer::Timer, x: u16)
    ensures
        t.apply_tmr_cnt_spec(x).spec_control() == 0xFF00 + 128 * ((x / 128) % 2) + 64 * ((x / 64) % 2) + 4
            * ((x / 4) % 2) + x % 4,
        t.spec_control() >= 0xFF00,
        (t.spec_control() % 64) / 8 == 0,
{
}

/// The low byte of a timer's control register holds all of its control
/// bits: writing them in two bytes leaves what the low byte said.
proof fn lemma_timer_control(t: crate::mmu::timer::Timer, value: u16, raw_high: u8)
    ensures
        ({
            let first = t.apply_tmr_cnt_spec(spec_le16(spec_lo8(value), raw_high));
            let second = first.apply_tmr_cnt_spec(spec_le16(spec_lo8(first.spec_control()), spec_hi8(value)));
            &&& second.spec_control() == 0xFF00 + 128 * ((value / 128) % 2) + 64 * ((value / 64) % 2) + 4 * ((
            value / 4) % 2) + value % 4
            &&& t.spec_control() >= 0xFF00
            &&& (t.spec_control() % 64) / 8 == 0
        }),
{
    let x = spec_le16(spec_lo8(value), raw_high);
    let first = t.apply_tmr_cnt_spec(x);
    let c = first.spec_control();
    let y = spec_le16(spec_lo8(c), spec_hi8(value));
    lemma_timer_applied(t, x);
    lemma_timer_applied(first, y);
    lemma_le16_bytes(spec_lo8(value), raw_high);
    lemma_le16_bytes(spec_lo8(c), spec_hi8(value));
    assert(x % 256 == value % 256);
    assert(y % 256 == c % 256);
    lemma_timer_bits(value, x);
    let bits = 128 * ((value / 128) % 2) + 64 * ((value / 64) % 2) + 4 * ((value / 4) % 2) + value % 4;
    assert(c == 0xFF00 + bits);
    assert(0 <= bits < 256);
    assert(c % 256 == bits);
    lemma_timer_bits_back(value, y);
}

/// A byte write to the low byte of the control register of a timer: the
/// control bits are applied from the new byte beside the old high byte.
proof fn lemma_timer_control_low(timers: crate::mmu::timer::Timers, id: int, value: u8)
    requires
        0 <= id < 4,
    ensures
        ({
            let offset = (0x102 + 4 * id) as u32;
            let t = timers.0[id];
            let after = timers.write8_spec(offset, value);
            &&& after.0[id] == t.apply_tmr_cnt_spec(spec_le16(value, spec_hi8(t.spec_control())))
            &&& timers.read16_spec(offset) == t.spec_control()
        }),
{
    let offset = (0x102 + 4 * id) as u32;
    assert(offset % 4 == 2 && (offset - 0x100) / 4 == id);
    assert(spec_align2(offset) == offset);
}

/// A byte write to the high byte of the control register of a timer: the
/// control bits are applied from the old low byte beside the new byte.
proof fn lemma_timer_control_high(timers: crate::mmu::timer::Timers, id: int, value: u8)
    requires
        0 <= id < 4,
    ensures
        ({
            let offset = (0x102 + 4 * id) as u32;
            let t = timers.0[id];
            let after = timers.write8_spec((offset + 1) as u32, value);
            &&& after.0[id] == t.apply_tmr_cnt_spec(spec_le16(spec_lo8(t.spec_control()), value))
            &&& after.read16_spec(offset) == after.0[id].spec_control()
        }),
{
    let offset = (0x102 + 4 * id) as u32;
    let odd = (offset + 1) as u32;
    assert(odd % 2 == 1 && spec_align2(odd) == offset);
    assert(offset % 4 == 2 && (offset - 0x100) / 4 == id);
}

/// A 16-bit write to the control register of a timer in two bytes.
proof fn lemma_timer_control_register(timers: crate::mmu::timer::Timers, offset: u32, value: u16)
    requires
        0x100 <= offset <= 0x10F,
        offset % 4 == 2,
    ensures
        ({
            let second = timers.write8_spec(offset, spec_lo8(value)).write8_spec(
                (offset + 1) as u32,
                spec_hi8(value),
            );
            &&& second.read16_spec(offset) == 0xFF00 + 128 * ((value / 128) % 2) + 64 * ((value / 64) % 2) + 4
                * ((value / 4) % 2) + value % 4
            &&& timers.read16_spec(offset) >= 0xFF00
            &&& (timers.read16_spec(offset) % 64) / 8 == 0
        }),
{
    let id = ((offset - 0x100) / 4) as int;
    assert(offset == 0x102 + 4 * id);
    let first = timers.write8_spec(offset, spec_lo8(value));
    lemma_timer_control_low(timers, id, spec_lo8(value));
    lemma_timer_control_high(first, id, spec_hi8(value));
    lemma_timer_control(timers.0[id], value, spec_hi8(timers.0[id].spec_control()));
}

/// A 16-bit write to the counter register of a timer sets the reload
/// value and leaves the counter.
proof fn lemma_timer_counter_register(timers: crate::mmu::timer::Timers, offset: u32, value: u16)
    requires
        0x100 <= offset <= 0x10F,
        offset % 4 == 0,
    ensures
        timers.write8_spec(offset, spec_lo8(value)).write8_spec((offset + 1) as u32, spec_hi8(value)).read16_spec(
            offset,
        ) == timers.read16_spec(offset),
{
    let id = ((offset - 0x100) / 4) as int;
    let first = timers.write8_spec(offset, spec_lo8(value));
    let second = first.write8_spec((offset + 1) as u32, spec_hi8(value));
    assert(first.0[id].counter == timers.0[id].counter);
    assert(second.0[id].counter == first.0[id].counter);
}

/// A 16-bit write to a timer register in two bytes, and a 16-bit read.
proof fn lemma_timer_register(timers: crate::mmu::timer::Timers, offset: u32, value: u16)
    requires
        offset % 2 == 0,
        0x100 <= offset <= 0x10F,
    ensures
        timers.write8_spec(offset, spec_lo8(value)).write8_spec((offset + 1) as u32, spec_hi8(value)).read16_spec(
            offset,
        ) == (value & writable_mask(offset)) | (timers.read16_spec(offset) & !writable_mask(offset)),
{
    lemma_masks(value, timers.read16_spec(offset));
    if offset % 4 == 2 {
        lemma_timer_control_register(timers, offset, value);
    } else {
        lemma_timer_counter_register(timers, offset, value);
    }
}

/// The fields of a DMA control register in a value that is written in two
/// bytes: `x` has the low byte of `v`, and `y` the high byte of `v` above
/// the low byte that reads back after `x` was written.
proof fn lemma_dma_bits(v: u16, x: u16, y: u16)
    by (bit_vector)
    requires
        x % 256 == v % 256,
        y / 256 == v / 256,
        y % 256 == 0x80 * ((x / 0x80) % 2) + 0x20 * ((x / 0x20) % 4),
    ensures
        (y / 0x20) % 4 == (v / 0x20) % 4,
        (y / 0x80) % 4 == (v / 0x80) % 4,
        (y / 0x200) % 2 == (v / 0x200) % 2,
        (y / 0x400) % 2 == (v / 0x400) % 2,
        (y / 0x800) % 2 == (v / 0x800) % 2,
        (y / 0x1000) % 4 == (v / 0x1000) % 4,
        (y / 0x4000) % 2 == (v / 0x4000) % 2,
        y / 0x8000 == v / 0x8000,
        0x8000 * (v / 0x8000) + 0x4000 * ((v / 0x4000) % 2) + 0x1000 * ((v / 0x1000) % 4) + 0x800 * ((v
            / 0x800) % 2) + 0x400 * ((v / 0x400) % 2) + 0x200 * ((v / 0x200) % 2) + 0x80 * ((v / 0x80) % 4)
            + 0x20 * ((v / 0x20) % 4) == v - v % 32,
{
}

/// The mode fields of the control register of a DMA channel after a
/// write of `x`.
proof fn lemma_dma_applied_modes(d: crate::mmu::dma::DMA, x: u16)
    ensures
        d.apply_dma_cnt_spec(x).spec_control_modes() == 0x1000 * ((x / 0x1000) % 4) + 0x80 * ((x / 0x80) % 4)
            + 0x20 * ((x / 0x20) % 4),
        d.spec_control_modes() % 32 == 0,
{
    let a = d.apply_dma_cnt_spec(x);
    assert(a.start_timing.spec_raw() == (x / 0x1000) % 4);
    assert(a.src_addr_ctrl.spec_raw() == (x / 0x80) % 4);
    assert(a.dst_addr_ctrl.spec_raw() == (x / 0x20) % 4);
}

/// The flags of the control register of a DMA channel after a write of
/// `x`.
proof fn lemma_dma_applied_flags(d: crate::mmu::dma::DMA, x: u16)
    ensures
        d.apply_dma_cnt_spec(x).spec_control_flags() == 0x8000 * (x / 0x8000) + 0x4000 * ((x / 0x4000) % 2)
            + 0x800 * ((x / 0x800) % 2) + 0x400 * ((x / 0x400) % 2) + 0x200 * ((x / 0x200) % 2),
        d.spec_control_flags() % 32 == 0,
{
    let a = d.apply_dma_cnt_spec(x);
    assert(a.enable == (x / 0x8000 == 1));
    assert(x / 0x8000 <= 1);
}

/// The control register of a DMA channel after a write of `x`.
proof fn lemma_dma_applied(d: crate::mmu::dma::DMA, x: u16)
    ensures
        d.apply_dma_cnt_spec(x).spec_control() == 0x8000 * (x / 0x8000) + 0x4000 * ((x / 0x4000) % 2)
            + 0x1000 * ((x / 0x1000) % 4) + 0x800 * ((x / 0x800) % 2) + 0x400 * ((x / 0x400) % 2) + 0x200
            * ((x / 0x200) % 2) + 0x80 * ((x / 0x80) % 4) + 0x20 * ((x / 0x20) % 4),
        d.spec_control() % 32 == 0,
{
    lemma_dma_applied_modes(d, x);
    lemma_dma_applied_flags(d, x);
    let m = d.spec_control_modes();
    let f = d.spec_control_flags();
    assert(f <= 0xCE00 && m <= 0x31E0);
    assert((f + m) % 32 == 0);
}

/// Writing the control register of a DMA channel in two bytes leaves
/// what the sixteen bits said, without the five bits that do not exist.
proof fn lemma_dma_control(d: crate::mmu::dma::DMA, value: u16)
    ensures
        ({
            let first = d.apply_dma_cnt_spec(spec_le16(spec_lo8(value), spec_hi8(d.spec_control())));
            let second = first.apply_dma_cnt_spec(spec_le16(spec_lo8(first.spec_control()), spec_hi8(value)));
            &&& second.spec_control() == value - value % 32
            &&& d.spec_control() % 32 == 0
        }),
{
    let x = spec_le16(spec_lo8(value), spec_hi8(d.spec_control()));
    let first = d.apply_dma_cnt_spec(x);
    let c = first.spec_control();
    let y = spec_le16(spec_lo8(c), spec_hi8(value));
    lemma_dma_applied(d, x);
    lemma_dma_applied(first, y);
    lemma_le16_bytes(spec_lo8(value), spec_hi8(d.spec_control()));
    lemma_le16_bytes(spec_lo8(c), spec_hi8(value));
    assert(x % 256 == value % 256);
    assert(y / 256 == value / 256);
    assert(y % 256 == c % 256);
    assert(c % 256 == 0x80 * ((x / 0x80) % 2) + 0x20 * ((x / 0x20) % 4)) by {
        lemma_dma_low_byte(x);
    }
    lemma_dma_bits(value, x, y);
}

/// The low byte of the sum that packs a DMA control register.
proof fn lemma_dma_low_byte(x: u16)
    by (bit_vector)
    ensures
        (0x8000 * (x / 0x8000) + 0x4000 * ((x / 0x4000) % 2) + 0x1000 * ((x / 0x1000) % 4) + 0x800 * ((x
            / 0x800) % 2) + 0x400 * ((x / 0x400) % 2) + 0x200 * ((x / 0x200) % 2) + 0x80 * ((x / 0x80) % 4)
            + 0x20 * ((x / 0x20) % 4)) % 256 == 0x80 * ((x / 0x80) % 2) + 0x20 * ((x / 0x20) % 4),
{
}

/// A 16-bit write to a DMA register in two bytes, and a 16-bit read.
proof fn lemma_dma_register(channels: crate::mmu::dma::DMAChannels, offset: u32, value: u16)
    requires
        offset % 2 == 0,
        0xB0 <= offset <= 0xDF,
    ensures
        channels.write8_spec(offset, spec_lo8(value)).write8_spec(
            (offset + 1) as u32,
            spec_hi8(value),
        ).read16_spec(offset) == (value & writable_mask(offset)) | (channels.read16_spec(offset)
            & !writable_mask(offset)),
{
    let prev = channels.read16_spec(offset);
    lemma_masks(value, prev);
    let ch = crate::mmu::dma::spec_channel_of(offset) as int;
    let first = channels.write8_spec(offset, spec_lo8(value));
    let second = first.write8_spec((offset + 1) as u32, spec_hi8(value));
    if crate::mmu::dma::spec_register_of(offset) == 10 {
        lemma_dma_control(channels.0[ch], value);
        assert(channels.raw_read16_spec(offset) == channels.0[ch].spec_control());
        assert(first.0[ch] == channels.0[ch].apply_dma_cnt_spec(
            spec_le16(spec_lo8(value), spec_hi8(channels.0[ch].spec_control())),
        ));
        assert(first.raw_read16_spec(offset) == first.0[ch].spec_control());
        assert(second.0[ch] == first.0[ch].apply_dma_cnt_spec(
            spec_le16(spec_lo8(first.0[ch].spec_control()), spec_hi8(value)),
        ));
        assert(offset == 0x0BA || offset == 0x0C6 || offset == 0x0D2 || offset == 0x0DE);
    } else {
        assert(!(offset == 0x0BA || offset == 0x0C6 || offset == 0x0D2 || offset == 0x0DE));
    }
}

/// What a 16-bit read and a 16-bit write of an I/O register are in terms
/// of the bytes of the I/O region.
proof fn lemma_io_halfword(bus: Bus, offset: u32, value: u16)
    requires
        offset % 2 == 0,
        offset < 0x400,
    ensures
        ({
            let address = (IO_BASE + offset) as u32;
            &&& peek16(&bus, address) == spec_le16(bus.io_peek8(offset), bus.io_peek8((offset + 1) as u32))
            &&& poke16(bus, address, value) == bus.io_poke8(offset, spec_lo8(value)).io_poke8(
                (offset + 1) as u32,
                spec_hi8(value),
            )
        }),
{
    reveal(Bus::read8_spec);
    reveal(Bus::write8_spec);
    let address = (IO_BASE + offset) as u32;
    assert(address.wrapping_add(1) == address + 1);
}

/// The round trip through a display register.
proof fn lemma_round_trip_display(bus: Bus, offset: u32, value: u16)
    requires
        offset % 2 == 0,
        offset <= 0x54,
    ensures
        ({
            let second = bus.io_poke8(offset, spec_lo8(value)).io_poke8((offset + 1) as u32, spec_hi8(value));
            spec_le16(second.io_peek8(offset), second.io_peek8((offset + 1) as u32)) == (value
                & writable_mask(offset)) | (spec_le16(bus.io_peek8(offset), bus.io_peek8((offset + 1) as u32))
                & !writable_mask(offset))
        }),
{
    lemma_ppu_register(bus.ppu, offset, value);
    let second = bus.io_poke8(offset, spec_lo8(value)).io_poke8((offset + 1) as u32, spec_hi8(value));
    lemma_le16_of_bytes(bus.ppu.read16_spec(offset));
    lemma_le16_of_bytes(second.ppu.read16_spec(offset));
    if offset == 0x54 {
        lemma_masks(value, 0);
    }
}

/// The round trip through a DMA register.
proof fn lemma_round_trip_dma(bus: Bus, offset: u32, value: u16)
    requires
        offset % 2 == 0,
        0xB0 <= offset <= 0xDF,
    ensures
        ({
            let second = bus.io_poke8(offset, spec_lo8(value)).io_poke8((offset + 1) as u32, spec_hi8(value));
            spec_le16(second.io_peek8(offset), second.io_peek8((offset + 1) as u32)) == (value
                & writable_mask(offset)) | (spec_le16(bus.io_peek8(offset), bus.io_peek8((offset + 1) as u32))
                & !writable_mask(offset))
        }),
{
    lemma_dma_register(bus.dma_channels, offset, value);
    let second = bus.io_poke8(offset, spec_lo8(value)).io_poke8((offset + 1) as u32, spec_hi8(value));
    lemma_le16_of_bytes(bus.dma_channels.read16_spec(offset));
    lemma_le16_of_bytes(second.dma_channels.read16_spec(offset));
}

/// The round trip through a timer register.
proof fn lemma_round_trip_timer(bus: Bus, offset: u32, value: u16)
    requires
        offset % 2 == 0,
        0x100 <= offset <= 0x10F,
    ensures
        ({
            let second = bus.io_poke8(offset, spec_lo8(value)).io_poke8((offset + 1) as u32, spec_hi8(value));
            spec_le16(second.io_peek8(offset), second.io_peek8((offset + 1) as u32)) == (value
                & writable_mask(offset)) | (spec_le16(bus.io_peek8(offset), bus.io_peek8((offset + 1) as u32))
                & !writable_mask(offset))
        }),
{
    lemma_timer_register(bus.timers, offset, value);
    let second = bus.io_poke8(offset, spec_lo8(value)).io_poke8((offset + 1) as u32, spec_hi8(value));
    lemma_le16_of_bytes(bus.timers.read16_spec(offset));
    lemma_le16_of_bytes(second.timers.read16_spec(offset));
}

/// The round trip through the interrupt enable register.
proof fn lemma_round_trip_enable(bus: Bus, value: u16)
    ensures
        ({
            let second = bus.io_poke8(0x200, spec_lo8(value)).io_poke8(0x201, spec_hi8(value));
            spec_le16(second.io_peek8(0x200), second.io_peek8(0x201)) == value
        }),
{
    lemma_le16_of_bytes(value);
    lemma_le16_bytes(spec_lo8(value), spec_hi8(bus.ie.0));
    lemma_le16_bytes(spec_lo8(value), spec_hi8(value));
}

/// Replacing one of the upper three bytes of a word leaves the other
/// bytes, and the new byte reads back.
proof fn lemma_replaced_byte(x: u32, v: u32)
    by (bit_vector)
    requires
        v < 0x100,
    ensures
        ({
            let y = (x - ((x / 0x100) % 0x100) * 0x100 + v * 0x100) as u32;
            (y / 0x100) % 0x100 == v && y % 0x100 == x % 0x100 && y / 0x1_0000 == x / 0x1_0000
        }),
        ({
            let y = (x - ((x / 0x1_0000) % 0x100) * 0x1_0000 + v * 0x1_0000) as u32;
            (y / 0x1_0000) % 0x100 == v && y % 0x1_0000 == x % 0x1_0000 && y / 0x100_0000 == x / 0x100_0000
        }),
        ({
            let y = (x - (x / 0x100_0000) * 0x100_0000 + v * 0x100_0000) as u32;
            y / 0x100_0000 == v && y % 0x100_0000 == x % 0x100_0000
        }),
{
}

/// Setting bit 0 of a word and then replacing its second byte: both read
/// back.
proof fn lemma_replaced_low_bytes(x: u32, e: u32, h: u32)
    by (bit_vector)
    requires
        e < 2,
        h < 0x100,
    ensures
        ({
            let first = (x - x % 2 + e) as u32;
            let second = (first - ((first / 0x100) % 0x100) * 0x100 + h * 0x100) as u32;
            second % 2 == e && (second / 0x100) % 0x100 == h
        }),
{
}

/// The master enable register written at its two lowest bytes.
proof fn lemma_master_low(ime: crate::mmu::irq::IME, value: u16)
    ensures
        ({
            let first = ime.with_enabled(spec_lo8(value) % 2 == 1);
            let second = crate::mmu::bus::spec_with_byte(first.0, 1, spec_hi8(value));
            &&& (second % 2 == 1) == ((value % 256) % 2 == 1)
            &&& crate::bits::spec_byte(second, 1) == value / 256
        }),
{
    let e: u32 = if spec_lo8(value) % 2 == 1 { 1 } else { 0 };
    lemma_replaced_low_bytes(ime.0, e, spec_hi8(value) as u32);
}

/// Replacing the two upper bytes of a word one after the other: both
/// read back.
proof fn lemma_replaced_upper_bytes(x: u32, a: u32, b: u32)
    by (bit_vector)
    requires
        a < 0x100,
        b < 0x100,
    ensures
        ({
            let first = (x - ((x / 0x1_0000) % 0x100) * 0x1_0000 + a * 0x1_0000) as u32;
            let second = (first - (first / 0x100_0000) * 0x100_0000 + b * 0x100_0000) as u32;
            (second / 0x1_0000) % 0x100 == a && second / 0x100_0000 == b
        }),
{
}

/// The master enable register written at its two highest bytes.
proof fn lemma_master_high(ime: u32, value: u16)
    ensures
        ({
            let first = crate::mmu::bus::spec_with_byte(ime, 2, spec_lo8(value));
            let second = crate::mmu::bus::spec_with_byte(first, 3, spec_hi8(value));
            &&& crate::bits::spec_byte(second, 2) == value % 256
            &&& crate::bits::spec_byte(second, 3) == value / 256
        }),
{
    lemma_replaced_upper_bytes(ime, spec_lo8(value) as u32, spec_hi8(value) as u32);
}

/// The round trip through the lower half of the master enable register.
proof fn lemma_round_trip_master_low(bus: Bus, value: u16)
    ensures
        ({
            let second = bus.io_poke8(0x208, spec_lo8(value)).io_poke8(0x209, spec_hi8(value));
            &&& spec_le16(second.io_peek8(0x208), second.io_peek8(0x209)) == 256 * (value / 256) + (value
                % 256) % 2
            &&& spec_le16(bus.io_peek8(0x208), bus.io_peek8(0x209)) % 256 <= 1
        }),
{
    lemma_master_low(bus.ime, value);
    let first = bus.io_poke8(0x208, spec_lo8(value));
    assert(first.ime == bus.ime.with_enabled(spec_lo8(value) % 2 == 1));
    let second = first.io_poke8(0x209, spec_hi8(value));
    assert(second.ime.0 == crate::mmu::bus::spec_with_byte(first.ime.0, 1, spec_hi8(value)));
}

/// The round trip through the upper half of the master enable register.
proof fn lemma_round_trip_master_high(bus: Bus, value: u16)
    ensures
        ({
            let second = bus.io_poke8(0x20A, spec_lo8(value)).io_poke8(0x20B, spec_hi8(value));
            spec_le16(second.io_peek8(0x20A), second.io_peek8(0x20B)) == value
        }),
{
    lemma_master_high(bus.ime.0, value);
    let first = bus.io_poke8(0x20A, spec_lo8(value));
    assert(first.ime.0 == crate::mmu::bus::spec_with_byte(bus.ime.0, 2, spec_lo8(value)));
    let second = first.io_poke8(0x20B, spec_hi8(value));
    assert(second.ime.0 == crate::mmu::bus::spec_with_byte(first.ime.0, 3, spec_hi8(value)));
    lemma_le16_of_bytes(value);
}

/// An offset without a register that can be read: it reads the same
/// before and after a write.
proof fn lemma_round_trip_inert(bus: Bus, offset: u32, value: u16)
    requires
        offset % 2 == 0,
        offset < 0x400,
        !(offset <= 0x54),
        !(0xB0 <= offset <= 0xDF),
        !(0x100 <= offset <= 0x10F),
        offset != 0x200 && offset != 0x202 && offset != 0x208 && offset != 0x20A,
    ensures
        ({
            let second = bus.io_poke8(offset, spec_lo8(value)).io_poke8((offset + 1) as u32, spec_hi8(value));
            &&& second.io_peek8(offset) == bus.io_peek8(offset)
            &&& second.io_peek8((offset + 1) as u32) == bus.io_peek8((offset + 1) as u32)
            &&& writable_mask(offset) == 0
        }),
{
}

/// The round trip through the other registers: the keys, the interrupt
/// registers, the halt control and the offsets without a register.
proof fn lemma_round_trip_other(bus: Bus, offset: u32, value: u16)
    requires
        offset % 2 == 0,
        offset < 0x400,
        offset != 0x202,
        !(offset <= 0x54),
        !(0xB0 <= offset <= 0xDF),
        !(0x100 <= offset <= 0x10F),
    ensures
        ({
            let second = bus.io_poke8(offset, spec_lo8(value)).io_poke8((offset + 1) as u32, spec_hi8(value));
            spec_le16(second.io_peek8(offset), second.io_peek8((offset + 1) as u32)) == (value
                & writable_mask(offset)) | (spec_le16(bus.io_peek8(offset), bus.io_peek8((offset + 1) as u32))
                & !writable_mask(offset))
        }),
{
    let prev = spec_le16(bus.io_peek8(offset), bus.io_peek8((offset + 1) as u32));
    lemma_masks(value, prev);
    if offset == 0x200 {
        lemma_round_trip_enable(bus, value);
    } else if offset == 0x208 {
        lemma_round_trip_master_low(bus, value);
    } else if offset == 0x20A {
        lemma_round_trip_master_high(bus, value);
    } else {
        lemma_round_trip_inert(bus, offset, value);
    }
}

/// A 16-bit write to an I/O register followed by a 16-bit read of it: the
/// bits of the register that can be written and read return what was
/// written, and every other bit reads as it did before. The request flags
/// are the one register that this does not hold of: writing them clears.
pub proof fn lemma_register_round_trip(bus: Bus, offset: u32, value: u16)
    requires
        offset % 2 == 0,
        offset < 0x400,
        offset != 0x202,
    ensures
        ({
            let address = (IO_BASE + offset) as u32;
            peek16(&poke16(bus, address, value), address) == (value & writable_mask(offset)) | (peek16(
                &bus,
                address,
            ) & !writable_mask(offset))
        }),
{
    let address = (IO_BASE + offset) as u32;
    lemma_io_halfword(bus, offset, value);
    lemma_io_halfword(poke16(bus, address, value), offset, value);
    if offset <= 0x54 {
        lemma_round_trip_display(bus, offset, value);
    } else if 0xB0 <= offset <= 0xDF {
        lemma_round_trip_dma(bus, offset, value);
    } else if 0x100 <= offset <= 0x10F {
        lemma_round_trip_timer(bus, offset, value);
    } else {
        lemma_round_trip_other(bus, offset, value);
    }
}

} // verus!
