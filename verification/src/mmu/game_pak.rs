//! The cartridge: its read-only image and its save memory.
use vstd::prelude::*;
use vstd::array::spec_array_fill_for_copy_type;

verus! {

/// The size of the cartridge region of the address space.
pub const ROM_REGION: usize = 0x0200_0000;

/// The size of the save memory.
pub const SRAM_SIZE: usize = 0x1_0000;

/// The cartridge.
pub struct GamePak {
    /// The image as it was loaded; what lies behind its end reads as 0xFF.
    pub rom: Vec<u8>,
    /// The save memory.
    pub sram: Box<[u8; SRAM_SIZE]>,
}

impl GamePak {
    /// The byte of the cartridge region at `offset`: that of the image,
    /// and 0xFF behind its end.
    pub open spec fn rom_byte(&self, offset: int) -> u8 {
        if 0 <= offset < self.rom@.len() {
            self.rom@[offset]
        } else {
            0xFF
        }
    }

    /// The byte of the cartridge region at `offset`.
    pub fn read_rom(&self, offset: usize) -> (r: u8)
        ensures
            r == self.rom_byte(offset as int),
    {
        if offset < self.rom.len() {
            self.rom[offset]
        } else {
            0xFF
        }
    }

    /// A cartridge with the image `rom` and save memory of zeros.
    pub fn with_rom(rom: &[u8]) -> (pak: GamePak)
        ensures
            pak.rom@ == rom@,
            *pak.sram == spec_array_fill_for_copy_type::<u8, SRAM_SIZE>(0),
    {
        GamePak { rom: copy_of(rom), sram: Box::new([0; SRAM_SIZE]) }
    }
}

/// The bytes of `source` as a vector of its own.
pub fn copy_of(source: &[u8]) -> (copy: Vec<u8>)
    ensures
        copy@ == source@,
{
    let mut copy: Vec<u8> = Vec::new();
    let mut i: usize = 0;
    while i < source.len()
        invariant
            i <= source.len(),
            copy@ == source@.take(i as int),
        decreases source.len() - i,
    {
        copy.push(source[i]);
        proof {
            assert(source@.take(i + 1) =~= source@.take(i as int).push(source@[i as int]));
        }
        i += 1;
    }
    proof {
        assert(source@.take(source.len() as int) =~= source@);
    }
    copy
}

impl Default for GamePak {
    /// A cartridge slot with nothing in it: every byte reads as 0xFF.
    fn default() -> (pak: GamePak)
        ensures
            pak.rom@ == Seq::<u8>::empty(),
            *pak.sram == spec_array_fill_for_copy_type::<u8, SRAM_SIZE>(0),
    {
        GamePak { rom: Vec::new(), sram: Box::new([0; SRAM_SIZE]) }
    }
}

} // verus!
