//! The Thumb instructions that reach memory.
use vstd::prelude::*;
use vstd::array::spec_array_update;
use crate::arm::interpreter::arm7tdmi::Arm7TDMI;
use crate::arm::interpreter::block::{count, in_list, spec_count, spec_in_list};
use crate::arm::interpreter::thumb::{
    clear_bit0, clear_bit1, imm5, imm8, reg_at0, reg_at3, reg_at6, reg_at8, spec_clear_bit0, spec_clear_bit1,
    spec_imm5, spec_imm8, spec_reg3,
};
use crate::arm::interpreter::transfer::{
    align4, align_half, half_loaded, load_half, load_signed_byte, load_signed_half, load_word,
    signed_byte_loaded, signed_half_loaded, spec_align4, spec_align_half, word_loaded,
};
use crate::bits::{low16, low8, spec_low16, spec_low8, spec_widen, widen};
use crate::mmu::{peek32, poke16, poke32, Mcu};

verus! {

/// The register list in the low byte of a Thumb instruction.
pub open spec fn spec_low_list(opcode: u16) -> u16 {
    opcode % 256
}

/// The register list in the low byte of a Thumb instruction.
#[verifier::when_used_as_spec(spec_low_list)]
pub fn low_list(opcode: u16) -> (r: u16)
    ensures
        r == spec_low_list(opcode),
{
    opcode % 256
}

impl Arm7TDMI {
    /// The processor after a load into, or a store from, the low register
    /// `rd` at `address`: a byte with `b`, else a word, loaded as a word
    /// load reads it and stored to the word that holds the address.
    pub open spec fn thumb_moved(self, l: bool, b: bool, rd: int, address: u32) -> Arm7TDMI {
        if l {
            Arm7TDMI {
                regs: spec_array_update(
                    self.regs,
                    rd,
                    if b { self.bus.peek8(address) as u32 } else { word_loaded(&self.bus, address) },
                ),
                ..self
            }
        } else {
            Arm7TDMI {
                bus: if b {
                    self.bus.poke8(address, spec_low8(self.regs[rd]))
                } else {
                    poke32(self.bus, spec_align4(address), self.regs[rd])
                },
                ..self
            }
        }
    }

    fn thumb_move(&mut self, l: bool, b: bool, rd: usize, address: u32)
        requires
            old(self).wf(),
            rd < 16,
        ensures
            *final(self) == old(self).thumb_moved(l, b, rd as int, address),
            final(self).wf(),
    {
        if l {
            self.regs[rd] = if b { self.bus.read8(address) as u32 } else { load_word(&self.bus, address) };
        } else if b {
            self.bus.write8(address, low8(self.regs[rd]));
        } else {
            self.bus.write32(align4(address), self.regs[rd]);
        }
    }

    /// The processor after a halfword load into, or store from, the low
    /// register `rd` at `address`.
    pub open spec fn thumb_half_moved(self, l: bool, rd: int, address: u32) -> Arm7TDMI {
        if l {
            Arm7TDMI { regs: spec_array_update(self.regs, rd, half_loaded(&self.bus, address)), ..self }
        } else {
            Arm7TDMI { bus: poke16(self.bus, spec_align_half(address), spec_low16(self.regs[rd])), ..self }
        }
    }

    fn thumb_half_move(&mut self, l: bool, rd: usize, address: u32)
        requires
            old(self).wf(),
            rd < 16,
        ensures
            *final(self) == old(self).thumb_half_moved(l, rd as int, address),
            final(self).wf(),
    {
        if l {
            self.regs[rd] = load_half(&self.bus, address);
        } else {
            self.bus.write16(align_half(address), low16(self.regs[rd]));
        }
    }

    /// Format 6, load relative to the program counter: Rd (bits 8 to 10)
    /// takes the word at the program counter 4 bytes ahead without its
    /// bit 1, plus four times the eight-bit immediate.
    pub open spec fn pc_rel_load_spec(self, opcode: u16) -> Arm7TDMI {
        self.thumb_moved(
            true,
            false,
            spec_reg3(opcode, 256),
            spec_clear_bit1(self.regs[15].wrapping_add(4)).wrapping_add((spec_imm8(opcode) * 4) as u32),
        )
    }

    /// Format 6: load relative to the program counter.
    pub fn pc_rel_load(&mut self, opcode: u16)
        requires
            old(self).wf(),
        ensures
            *final(self) == old(self).pc_rel_load_spec(opcode),
            final(self).wf(),
    {
        let address = clear_bit1(self.regs[15].wrapping_add(4)).wrapping_add(imm8(opcode) * 4);
        self.thumb_move(true, false, reg_at8(opcode), address);
    }

    /// Format 7, load and store with register offset: the address is Rb
    /// (bits 3 to 5) plus Ro (bits 6 to 8).
    pub open spec fn load_store_reg_spec(self, l: bool, b: bool, opcode: u16) -> Arm7TDMI {
        self.thumb_moved(
            l,
            b,
            spec_reg3(opcode, 1),
            self.regs[spec_reg3(opcode, 8)].wrapping_add(self.regs[spec_reg3(opcode, 64)]),
        )
    }

    /// Format 7: load and store with register offset.
    pub fn load_store_reg<const L: bool, const B: bool>(&mut self, opcode: u16)
        requires
            old(self).wf(),
        ensures
            *final(self) == old(self).load_store_reg_spec(L, B, opcode),
            final(self).wf(),
    {
        let address = self.regs[reg_at3(opcode)].wrapping_add(self.regs[reg_at6(opcode)]);
        self.thumb_move(L, B, reg_at0(opcode), address);
    }

    /// Format 8, load and store sign-extended byte and halfword at Rb
    /// plus Ro: a halfword store without `s` and `h`, a halfword load
    /// with `h` alone, a signed byte load with `s` alone and a signed
    /// halfword load with both.
    pub open spec fn load_store_hw_signext_spec(self, h: bool, s: bool, opcode: u16) -> Arm7TDMI {
        let rd = spec_reg3(opcode, 1);
        let address = self.regs[spec_reg3(opcode, 8)].wrapping_add(self.regs[spec_reg3(opcode, 64)]);
        if !s {
            self.thumb_half_moved(h, rd, address)
        } else {
            Arm7TDMI {
                regs: spec_array_update(
                    self.regs,
                    rd,
                    if h { signed_half_loaded(&self.bus, address) } else { signed_byte_loaded(&self.bus, address) },
                ),
                ..self
            }
        }
    }

    /// Format 8: load and store sign-extended byte and halfword.
    pub fn load_store_hw_signext<const H: bool, const S: bool>(&mut self, opcode: u16)
        requires
            old(self).wf(),
        ensures
            *final(self) == old(self).load_store_hw_signext_spec(H, S, opcode),
            final(self).wf(),
    {
        let rd = reg_at0(opcode);
        let address = self.regs[reg_at3(opcode)].wrapping_add(self.regs[reg_at6(opcode)]);
        if !S {
            self.thumb_half_move(H, rd, address);
        } else {
            self.regs[rd] = if H {
                load_signed_half(&self.bus, address)
            } else {
                load_signed_byte(&self.bus, address)
            };
        }
    }

    /// Format 9, load and store with immediate offset: the address is Rb
    /// plus the five-bit immediate, counted in bytes with `b` and in
    /// words without.
    pub open spec fn load_store_imm_spec(self, l: bool, b: bool, opcode: u16) -> Arm7TDMI {
        self.thumb_moved(
            l,
            b,
            spec_reg3(opcode, 1),
            self.regs[spec_reg3(opcode, 8)].wrapping_add(
                if b { spec_imm5(opcode) } else { (spec_imm5(opcode) * 4) as u32 },
            ),
        )
    }

    /// Format 9: load and store with immediate offset.
    pub fn load_store_imm<const L: bool, const B: bool>(&mut self, opcode: u16)
        requires
            old(self).wf(),
        ensures
            *final(self) == old(self).load_store_imm_spec(L, B, opcode),
            final(self).wf(),
    {
        let offset = if B { imm5(opcode) } else { imm5(opcode) * 4 };
        let address = self.regs[reg_at3(opcode)].wrapping_add(offset);
        self.thumb_move(L, B, reg_at0(opcode), address);
    }

    /// Format 10, load and store halfword: the address is Rb plus twice
    /// the five-bit immediate.
    pub open spec fn load_store_hw_spec(self, l: bool, opcode: u16) -> Arm7TDMI {
        self.thumb_half_moved(
            l,
            spec_reg3(opcode, 1),
            self.regs[spec_reg3(opcode, 8)].wrapping_add((spec_imm5(opcode) * 2) as u32),
        )
    }

    /// Format 10: load and store halfword.
    pub fn load_store_hw<const L: bool>(&mut self, opcode: u16)
        requires
            old(self).wf(),
        ensures
            *final(self) == old(self).load_store_hw_spec(L, opcode),
            final(self).wf(),
    {
        let address = self.regs[reg_at3(opcode)].wrapping_add(imm5(opcode) * 2);
        self.thumb_half_move(L, reg_at0(opcode), address);
    }

    /// Format 11, load and store relative to the stack pointer: the
    /// address is the stack pointer plus four times the eight-bit
    /// immediate, the register is in bits 8 to 10.
    pub open spec fn sp_rel_load_store_spec(self, l: bool, opcode: u16) -> Arm7TDMI {
        self.thumb_moved(
            l,
            false,
            spec_reg3(opcode, 256),
            self.regs[13].wrapping_add((spec_imm8(opcode) * 4) as u32),
        )
    }

    /// Format 11: load and store relative to the stack pointer.
    pub fn sp_rel_load_store<const L: bool>(&mut self, opcode: u16)
        requires
            old(self).wf(),
        ensures
            *final(self) == old(self).sp_rel_load_store_spec(L, opcode),
            final(self).wf(),
    {
        let address = self.regs[13].wrapping_add(imm8(opcode) * 4);
        self.thumb_move(L, false, reg_at8(opcode), address);
    }

    /// Format 14, push and pop. The list is the low byte, and with `r`
    /// the link register for a push and the program counter for a pop.
    /// A push stores the registers below the word that holds the stack
    /// pointer, the lowest register at the lowest address, and leaves the
    /// stack pointer at that address. A pop loads them from the word that
    /// holds the stack pointer upwards and leaves the stack pointer behind
    /// them; a loaded program counter loses its bit 0 and is a branch.
    pub open spec fn push_pop_spec(self, l: bool, r: bool, opcode: u16) -> Arm7TDMI {
        let list = (spec_low_list(opcode) + (if !r { 0int } else if l { 0x8000int } else { 0x4000int })) as u16;
        let top = spec_align4(self.regs[13]);
        let span = (4 * spec_count(list)) as u32;
        if l {
            let moved = self.block_moved(list, 0, top, true, false, 13, true, top.wrapping_add(span));
            let popped = Arm7TDMI { regs: spec_array_update(moved.regs, 13, top.wrapping_add(span)), ..moved };
            if r {
                Arm7TDMI {
                    regs: spec_array_update(popped.regs, 15, spec_clear_bit0(popped.regs[15])),
                    branch: true,
                    ..popped
                }
            } else {
                popped
            }
        } else {
            let low = top.wrapping_sub(span);
            let moved = self.block_moved(list, 0, low, false, false, 13, true, low);
            Arm7TDMI { regs: spec_array_update(moved.regs, 13, low), ..moved }
        }
    }

    /// Format 14: push and pop registers.
    pub fn push_pop<const L: bool, const R: bool>(&mut self, opcode: u16)
        requires
            old(self).wf(),
        ensures
            *final(self) == old(self).push_pop_spec(L, R, opcode),
            final(self).wf(),
    {
        let list: u16 = low_list(opcode) + if !R { 0 } else if L { 0x8000 } else { 0x4000 };
        let top = align4(self.regs[13]);
        let span: u32 = 4 * count(list);
        if L {
            self.move_block(list, top, true, false, 13, top.wrapping_add(span));
            self.regs[13] = top.wrapping_add(span);
            if R {
                self.regs[15] = clear_bit0(self.regs[15]);
                self.branch = true;
            }
        } else {
            let low = top.wrapping_sub(span);
            self.move_block(list, low, false, false, 13, low);
            self.regs[13] = low;
        }
    }

    /// Format 15, multiple load and store at the base Rb (bits 8 to 10),
    /// upwards, with the list in the low byte. The base is left behind the
    /// block, unless a load has filled it; a store of the base that is not
    /// the first register of the list writes the base as it will be. An
    /// empty list transfers the program counter alone, a load dropping
    /// its bit 0 and a store writing it 6 bytes ahead, and moves the base
    /// by 0x40.
    pub open spec fn ldm_stm_spec(self, l: bool, opcode: u16) -> Arm7TDMI {
        let rb = spec_reg3(opcode, 256);
        let list = spec_low_list(opcode);
        let base = self.regs[rb];
        if list == 0 {
            let moved = if l {
                Arm7TDMI {
                    regs: spec_array_update(
                        self.regs,
                        15,
                        spec_clear_bit0(peek32(&self.bus, spec_align4(base))),
                    ),
                    branch: true,
                    ..self
                }
            } else {
                Arm7TDMI {
                    bus: poke32(self.bus, spec_align4(base), spec_clear_bit0(self.regs[15].wrapping_add(6))),
                    ..self
                }
            };
            Arm7TDMI { regs: spec_array_update(moved.regs, rb, moved.regs[rb].wrapping_add(0x40)), ..moved }
        } else {
            let last = base.wrapping_add((4 * spec_count(list)) as u32);
            let moved = self.block_moved(list, 0, base, l, false, rb, true, last);
            if l && spec_in_list(list, rb as nat) {
                moved
            } else {
                Arm7TDMI { regs: spec_array_update(moved.regs, rb, last), ..moved }
            }
        }
    }

    /// Format 15: multiple load and store.
    pub fn ldm_stm<const L: bool>(&mut self, opcode: u16)
        requires
            old(self).wf(),
        ensures
            *final(self) == old(self).ldm_stm_spec(L, opcode),
            final(self).wf(),
    {
        let rb = reg_at8(opcode);
        let list = low_list(opcode);
        let base = self.regs[rb];
        if list == 0 {
            if L {
                self.regs[15] = clear_bit0(self.bus.read32(align4(base)));
                self.branch = true;
            } else {
                let value = clear_bit0(self.regs[15].wrapping_add(6));
                self.bus.write32(align4(base), value);
            }
            self.regs[rb] = self.regs[rb].wrapping_add(0x40);
        } else {
            let last = base.wrapping_add(4 * count(list));
            self.move_block(list, base, L, false, rb, last);
            if !(L && in_list(list, rb)) {
                self.regs[rb] = last;
            }
        }
    }
}

} // verus!
