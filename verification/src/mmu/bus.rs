//! The bus: the memories, the I/O registers and the dispatch of every
//! access by the top byte of its address.
use vstd::prelude::*;
use vstd::array::spec_array_update;
use vstd::arithmetic::power2::lemma2_to64;
use crate::bits::{
    bit_range, hi8, lemma_ranges, lo8, spec_byte, spec_hi8, spec_le16, spec_lo8, with_bit_range,
};
use crate::mmu::dma::DMAChannels;
use crate::mmu::game_pak::{GamePak, SRAM_SIZE};
use crate::mmu::irq::{IE, IF, IME};
use crate::mmu::timer::Timers;
use crate::mmu::Mcu;
use crate::ppu::lcd::Ppu;

verus! {

/// The size of the BIOS region.
pub const BIOS_SIZE: usize = 0x4000;

/// The size of both work memories together: 256 KiB on the board, then 32
/// KiB on the chip.
pub const WRAM_SIZE: usize = 0x48000;

/// The size of the work memory on the board.
pub const EWRAM_SIZE: usize = 0x40000;

/// The size of the work memory on the chip.
pub const IWRAM_SIZE: usize = 0x8000;

/// The size of palette memory and of object attribute memory.
pub const SMALL_SIZE: usize = 0x400;

/// The size of video memory.
pub const VRAM_SIZE: usize = 0x18000;

/// The address of the first I/O register.
pub const IO_BASE: u32 = 0x0400_0000;

/// KEYINPUT: one bit per key, clear while the key is pressed.
#[derive(Clone, Copy, Debug)]
pub struct KEYINPUT(pub u16);

impl KEYINPUT {
    /// The whole register.
    pub open spec fn spec_keyinput(&self) -> u16 {
        self.0
    }

    /// The whole register.
    #[verifier::when_used_as_spec(spec_keyinput)]
    pub fn keyinput(&self) -> (r: u16)
        ensures
            r == self.0,
    {
        self.0
    }

    /// Replace the whole register.
    pub fn set_keyinput(&mut self, value: u16)
        ensures
            final(self).0 == value,
    {
        self.0 = value;
    }
}

/// The bus and everything that hangs on it.
pub struct Bus {
    /// The system ROM; what lies behind its end reads as 0.
    pub bios: Vec<u8>,
    pub ppu: Ppu,
    pub key_input: KEYINPUT,
    pub ime: IME,
    pub ie: IE,
    pub iff: IF,
    pub timers: Timers,
    pub dma_channels: DMAChannels,
    /// The work memory on the board, then the work memory on the chip.
    pub wram: Box<[u8; WRAM_SIZE]>,
    pub palette_ram: [u8; SMALL_SIZE],
    pub vram: Box<[u8; VRAM_SIZE]>,
    pub oam: [u8; SMALL_SIZE],
    pub game_pak: GamePak,
    /// The processor waits for an interrupt.
    pub halt: bool,
    pub dma_in_progress: [bool; 4],
}

/// A 32-bit register with byte `i` replaced by `value`.
pub open spec fn spec_with_byte(x: u32, i: u32, value: u8) -> u32 {
    if i == 0 {
        (x - spec_byte(x, 0) + value) as u32
    } else if i == 1 {
        (x - spec_byte(x, 1) * 0x100 + value * 0x100) as u32
    } else if i == 2 {
        (x - spec_byte(x, 2) * 0x1_0000 + value * 0x1_0000) as u32
    } else {
        (x - spec_byte(x, 3) * 0x100_0000 + value * 0x100_0000) as u32
    }
}

/// A 32-bit register with byte 1, 2 or 3 replaced by `value`.
fn with_byte(x: u32, i: u32, value: u8) -> (r: u32)
    requires
        1 <= i <= 3,
    ensures
        r == spec_with_byte(x, i, value),
{
    proof {
        lemma2_to64();
        lemma_ranges(x, value as u32, 8, 16, 0x100, 0x100);
        lemma_ranges(x, value as u32, 16, 24, 0x1_0000, 0x100);
        lemma_ranges(x, value as u32, 24, 32, 0x100_0000, 0x100);
    }
    if i == 1 {
        with_bit_range::<8, 16>(x, value as u32)
    } else if i == 2 {
        with_bit_range::<16, 24>(x, value as u32)
    } else {
        with_bit_range::<24, 32>(x, value as u32)
    }
}

/// Byte 1, 2 or 3 of a 32-bit register.
fn byte_of(x: u32, i: u32) -> (r: u8)
    requires
        1 <= i <= 3,
    ensures
        r == spec_byte(x, i),
{
    proof {
        lemma2_to64();
        lemma_ranges(x, 0, 8, 16, 0x100, 0x100);
        lemma_ranges(x, 0, 16, 24, 0x1_0000, 0x100);
        lemma_ranges(x, 0, 24, 32, 0x100_0000, 0x100);
    }
    if i == 1 {
        bit_range::<8, 16>(x) as u8
    } else if i == 2 {
        bit_range::<16, 24>(x) as u8
    } else {
        bit_range::<24, 32>(x) as u8
    }
}

/// The low byte of a 16-bit register.
fn low_byte_of(x: u16) -> (r: u8)
    ensures
        r == spec_lo8(x),
{
    proof {
        lemma2_to64();
        lemma_ranges(x as u32, 0, 0, 8, 1, 0x100);
    }
    bit_range::<0, 8>(x as u32) as u8
}

/// The high byte of a 16-bit register.
fn high_byte_of(x: u16) -> (r: u8)
    ensures
        r == spec_hi8(x),
{
    proof {
        lemma2_to64();
        lemma_ranges(x as u32, 0, 8, 16, 0x100, 0x100);
    }
    bit_range::<8, 16>(x as u32) as u8
}

/// A 16-bit register with its low byte replaced.
fn with_low_byte(x: u16, value: u8) -> (r: u16)
    ensures
        r == spec_le16(value, spec_hi8(x)),
{
    proof {
        lemma2_to64();
        lemma_ranges(x as u32, value as u32, 0, 8, 1, 0x100);
    }
    with_bit_range::<0, 8>(x as u32, value as u32) as u16
}

/// A 16-bit register with its high byte replaced.
fn with_high_byte(x: u16, value: u8) -> (r: u16)
    ensures
        r == spec_le16(spec_lo8(x), value),
{
    proof {
        lemma2_to64();
        lemma_ranges(x as u32, value as u32, 8, 16, 0x100, 0x100);
    }
    with_bit_range::<8, 16>(x as u32, value as u32) as u16
}

/// The request flags after a write to one of their bytes: every flag whose
/// bit is set in `written` is cleared, and every flag whose bit is clear
/// in it stays as it was.
pub open spec fn spec_acknowledged(iff: u16, written: u16) -> u16 {
    iff & !written
}

/// The request flags after a write to one of their bytes.
#[verifier::when_used_as_spec(spec_acknowledged)]
pub fn acknowledged(iff: u16, written: u16) -> (r: u16)
    ensures
        r == spec_acknowledged(iff, written),
{
    iff & !written
}

impl Bus {
    /// What a byte read from the I/O region at offset `offset` returns:
    /// the display registers up to 0x54, the DMA registers from 0xB0 to
    /// 0xDF, the timers from 0x100 to 0x10F, the keys at 0x130, the
    /// interrupt registers from 0x200 to 0x20B, and 0 everywhere else.
    pub open spec fn io_peek8(&self, offset: u32) -> u8 {
        if offset <= 0x54 {
            self.ppu.read8_spec(offset)
        } else if 0xB0 <= offset <= 0xDF {
            self.dma_channels.read8_spec(offset)
        } else if 0x100 <= offset <= 0x10F {
            self.timers.read8_spec(offset)
        } else if offset == 0x130 {
            spec_lo8(self.key_input.0)
        } else if offset == 0x131 {
            spec_hi8(self.key_input.0)
        } else if offset == 0x200 {
            spec_lo8(self.ie.0)
        } else if offset == 0x201 {
            spec_hi8(self.ie.0)
        } else if offset == 0x202 {
            spec_lo8(self.iff.0)
        } else if offset == 0x203 {
            spec_hi8(self.iff.0)
        } else if offset == 0x208 {
            if self.ime.spec_enabled() { 1 } else { 0 }
        } else if 0x209 <= offset <= 0x20B {
            spec_byte(self.ime.0, (offset - 0x208) as u32)
        } else {
            0
        }
    }

    fn io_read8(&self, offset: u32) -> (r: u8)
        ensures
            r == self.io_peek8(offset),
    {
        if offset <= 0x54 {
            self.ppu.read8(offset)
        } else if 0xB0 <= offset && offset <= 0xDF {
            self.dma_channels.read8(offset)
        } else if 0x100 <= offset && offset <= 0x10F {
            self.timers.read8(offset)
        } else if offset == 0x130 {
            lo8(self.key_input.keyinput())
        } else if offset == 0x131 {
            hi8(self.key_input.keyinput())
        } else if offset == 0x200 {
            low_byte_of(self.ie.0)
        } else if offset == 0x201 {
            high_byte_of(self.ie.0)
        } else if offset == 0x202 {
            low_byte_of(self.iff.0)
        } else if offset == 0x203 {
            high_byte_of(self.iff.0)
        } else if offset == 0x208 {
            if self.ime.enabled() { 1 } else { 0 }
        } else if 0x209 <= offset && offset <= 0x20B {
            byte_of(self.ime.0, offset - 0x208)
        } else {
            0
        }
    }

    /// The bus after a byte write of `value` into the I/O region at offset
    /// `offset`. A write to the request flags clears the flags whose bits
    /// are set in `value`; a write to 0x208 sets the master enable from
    /// bit 0; a write to 0x301 halts the processor where bit 7 is clear
    /// and lets it run where it is set; a write to no register changes
    /// nothing.
    pub open spec fn io_poke8(self, offset: u32, value: u8) -> Bus {
        if offset <= 0x54 {
            Bus { ppu: self.ppu.write8_spec(offset, value), ..self }
        } else if 0xB0 <= offset <= 0xDF {
            Bus { dma_channels: self.dma_channels.write8_spec(offset, value), ..self }
        } else if 0x100 <= offset <= 0x10F {
            Bus { timers: self.timers.write8_spec(offset, value), ..self }
        } else if offset == 0x200 {
            Bus { ie: IE(spec_le16(value, spec_hi8(self.ie.0))), ..self }
        } else if offset == 0x201 {
            Bus { ie: IE(spec_le16(spec_lo8(self.ie.0), value)), ..self }
        } else if offset == 0x202 {
            Bus { iff: IF(spec_acknowledged(self.iff.0, value as u16)), ..self }
        } else if offset == 0x203 {
            Bus { iff: IF(spec_acknowledged(self.iff.0, (value as u16) << 8)), ..self }
        } else if offset == 0x208 {
            Bus { ime: self.ime.with_enabled(value % 2 == 1), ..self }
        } else if 0x209 <= offset <= 0x20B {
            Bus { ime: IME(spec_with_byte(self.ime.0, (offset - 0x208) as u32, value)), ..self }
        } else if offset == 0x301 {
            Bus { halt: value < 0x80, ..self }
        } else {
            self
        }
    }

    fn io_write8(&mut self, offset: u32, value: u8)
        requires
            old(self).ppu.timing_wf(),
        ensures
            *final(self) == old(self).io_poke8(offset, value),
            final(self).ppu.timing_wf(),
    {
        if offset <= 0x54 {
            self.ppu.write8(offset, value);
        } else if 0xB0 <= offset && offset <= 0xDF {
            self.dma_channels.write8(offset, value);
        } else if 0x100 <= offset && offset <= 0x10F {
            self.timers.write8(offset, value);
        } else if offset == 0x200 {
            self.ie = IE(with_low_byte(self.ie.0, value));
        } else if offset == 0x201 {
            self.ie = IE(with_high_byte(self.ie.0, value));
        } else if offset == 0x202 {
            self.iff = IF(acknowledged(self.iff.0, value as u16));
        } else if offset == 0x203 {
            self.iff = IF(acknowledged(self.iff.0, (value as u16) << 8));
        } else if offset == 0x208 {
            self.ime.set_enabled(value % 2 == 1);
        } else if 0x209 <= offset && offset <= 0x20B {
            self.ime = IME(with_byte(self.ime.0, offset - 0x208, value));
        } else if offset == 0x301 {
            self.halt = value < 0x80;
        }
    }
}

impl Bus {
    /// The byte that a read at `address` returns. The top byte of the
    /// address selects the region; within a memory the address wraps at
    /// the size of the memory. The BIOS is mapped once; the cartridge image
    /// wraps at 32 MiB and reads as 0xFF behind its end; the first two
    /// bytes of the save memory region read as a memory chip's identity;
    /// an address in no region reads as 0.
    #[verifier::opaque]
    pub open spec fn read8_spec(&self, address: u32) -> u8 {
        let region = address / 0x100_0000;
        if region == 0x00 {
            if address < BIOS_SIZE && address < self.bios@.len() {
                self.bios@[address as int]
            } else {
                0
            }
        } else if region == 0x02 {
            self.wram[address as int % 0x40000]
        } else if region == 0x03 {
            self.wram[address as int % 0x8000 + 0x40000]
        } else if region == 0x04 {
            self.io_peek8((address - IO_BASE) as u32)
        } else if region == 0x05 {
            self.palette_ram[address as int % 0x400]
        } else if region == 0x06 {
            self.vram[address as int % 0x18000]
        } else if region == 0x07 {
            self.oam[address as int % 0x400]
        } else if 0x08 <= region <= 0x0D {
            self.game_pak.rom_byte(address as int % 0x200_0000)
        } else if 0x0E <= region <= 0x0F {
            if address == 0x0E00_0000 {
                0x62
            } else if address == 0x0E00_0001 {
                0x13
            } else {
                self.game_pak.sram[address as int % 0x1_0000]
            }
        } else {
            0
        }
    }

    /// The bus after a byte write. The memories wrap as they do for a
    /// read; the BIOS, the cartridge image and the addresses in no region
    /// take no write.
    #[verifier::opaque]
    pub open spec fn write8_spec(self, address: u32, value: u8) -> Bus {
        let region = address / 0x100_0000;
        if region == 0x02 {
            Bus { wram: Box::new(spec_array_update(*self.wram, address as int % 0x40000, value)), ..self }
        } else if region == 0x03 {
            Bus {
                wram: Box::new(spec_array_update(*self.wram, address as int % 0x8000 + 0x40000, value)),
                ..self
            }
        } else if region == 0x04 {
            self.io_poke8((address - IO_BASE) as u32, value)
        } else if region == 0x05 {
            Bus { palette_ram: spec_array_update(self.palette_ram, address as int % 0x400, value), ..self }
        } else if region == 0x06 {
            Bus { vram: Box::new(spec_array_update(*self.vram, address as int % 0x18000, value)), ..self }
        } else if region == 0x07 {
            Bus { oam: spec_array_update(self.oam, address as int % 0x400, value), ..self }
        } else if 0x0E <= region <= 0x0F {
            Bus {
                game_pak: GamePak {
                    sram: Box::new(spec_array_update(*self.game_pak.sram, address as int % 0x1_0000, value)),
                    ..self.game_pak
                },
                ..self
            }
        } else {
            self
        }
    }
}

impl Mcu for Bus {
    /// The display is in a state that its state machine can go on from.
    open spec fn inv(&self) -> bool {
        self.ppu.timing_wf()
    }

    open spec fn peek8(&self, address: u32) -> u8 {
        self.read8_spec(address)
    }

    open spec fn poke8(self, address: u32, value: u8) -> Bus {
        self.write8_spec(address, value)
    }

    fn read8(&self, address: u32) -> (r: u8) {
        reveal(Bus::read8_spec);
        let region = address / 0x100_0000;
        if region == 0x00 {
            if (address as usize) < BIOS_SIZE && (address as usize) < self.bios.len() {
                self.bios[address as usize]
            } else {
                0
            }
        } else if region == 0x02 {
            self.wram[address as usize % 0x40000]
        } else if region == 0x03 {
            self.wram[address as usize % 0x8000 + 0x40000]
        } else if region == 0x04 {
            self.io_read8(address - IO_BASE)
        } else if region == 0x05 {
            self.palette_ram[address as usize % 0x400]
        } else if region == 0x06 {
            self.vram[address as usize % 0x18000]
        } else if region == 0x07 {
            self.oam[address as usize % 0x400]
        } else if 0x08 <= region && region <= 0x0D {
            self.game_pak.read_rom(address as usize % 0x200_0000)
        } else if 0x0E <= region && region <= 0x0F {
            if address == 0x0E00_0000 {
                0x62
            } else if address == 0x0E00_0001 {
                0x13
            } else {
                self.game_pak.sram[address as usize % 0x1_0000]
            }
        } else {
            0
        }
    }

    fn write8(&mut self, address: u32, value: u8) {
        reveal(Bus::write8_spec);
        let region = address / 0x100_0000;
        if region == 0x02 {
            self.wram[address as usize % 0x40000] = value;
        } else if region == 0x03 {
            self.wram[address as usize % 0x8000 + 0x40000] = value;
        } else if region == 0x04 {
            self.io_write8(address - IO_BASE, value);
        } else if region == 0x05 {
            self.palette_ram[address as usize % 0x400] = value;
        } else if region == 0x06 {
            self.vram[address as usize % 0x18000] = value;
        } else if region == 0x07 {
            self.oam[address as usize % 0x400] = value;
        } else if 0x0E <= region && region <= 0x0F {
            self.game_pak.sram[address as usize % 0x1_0000] = value;
        }
    }
}

} // verus!
