//! The ARM instructions that reach memory or branch: single, halfword and
//! signed transfers, the swap and the branches.
use vstd::prelude::*;
use vstd::array::spec_array_update;
use crate::arm::interpreter::arm7tdmi::{Arm7TDMI, State};
use crate::arm::interpreter::data::{
    flag24, nibble0, nibble12, nibble16, nibble8, operand_bits, spec_flag_bit, spec_nibble, spec_operand_bits,
};
use crate::bits::{
    low16, low8, rotate_right, sign_extend, spec_low16, spec_low8, spec_rotate_right, spec_sign_extend,
};
use crate::mmu::bus::Bus;
use crate::mmu::{peek16, peek32, poke16, poke32, Mcu};

verus! {

/// The address of the word that holds the byte at `address`.
pub open spec fn spec_align4(address: u32) -> u32 {
    (address - address % 4) as u32
}

/// The address of the word that holds the byte at `address`.
#[verifier::when_used_as_spec(spec_align4)]
pub fn align4(address: u32) -> (r: u32)
    ensures
        r == spec_align4(address),
{
    address - address % 4
}

/// The address of the halfword that holds the byte at `address`.
pub open spec fn spec_align_half(address: u32) -> u32 {
    (address - address % 2) as u32
}

/// The address of the halfword that holds the byte at `address`.
#[verifier::when_used_as_spec(spec_align_half)]
pub fn align_half(address: u32) -> (r: u32)
    ensures
        r == spec_align_half(address),
{
    address - address % 2
}

/// What a word load from `address` puts into a register: the word that
/// holds the address, rotated right by 8 bits for every byte that the
/// address lies above the start of the word.
pub open spec fn word_loaded(bus: &Bus, address: u32) -> u32 {
    spec_rotate_right(peek32(bus, spec_align4(address)), ((address % 4) * 8) as u32)
}

/// What a halfword load from `address` puts into a register: the
/// halfword that holds the address, rotated right by 8 bits where the
/// address is odd.
pub open spec fn half_loaded(bus: &Bus, address: u32) -> u32 {
    spec_rotate_right(peek16(bus, spec_align_half(address)) as u32, ((address % 2) * 8) as u32)
}

/// What a signed byte load from `address` puts into a register.
pub open spec fn signed_byte_loaded(bus: &Bus, address: u32) -> u32 {
    spec_sign_extend(bus.peek8(address) as u32, 8)
}

/// What a signed halfword load from `address` puts into a register: the
/// sign-extended halfword, and the sign-extended byte where the address
/// is odd.
pub open spec fn signed_half_loaded(bus: &Bus, address: u32) -> u32 {
    if address % 2 == 1 {
        signed_byte_loaded(bus, address)
    } else {
        spec_sign_extend(peek16(bus, address) as u32, 16)
    }
}

/// Load a word as an instruction does.
pub fn load_word(bus: &Bus, address: u32) -> (r: u32)
    requires
        bus.inv(),
    ensures
        r == word_loaded(bus, address),
{
    rotate_right(bus.read32(align4(address)), (address % 4) * 8)
}

/// Load a halfword as an instruction does.
pub fn load_half(bus: &Bus, address: u32) -> (r: u32)
    requires
        bus.inv(),
    ensures
        r == half_loaded(bus, address),
{
    rotate_right(bus.read16(align_half(address)) as u32, (address % 2) * 8)
}

/// Load a signed byte as an instruction does.
pub fn load_signed_byte(bus: &Bus, address: u32) -> (r: u32)
    requires
        bus.inv(),
    ensures
        r == signed_byte_loaded(bus, address),
{
    sign_extend(bus.read8(address) as u32, 8)
}

/// Load a signed halfword as an instruction does.
pub fn load_signed_half(bus: &Bus, address: u32) -> (r: u32)
    requires
        bus.inv(),
    ensures
        r == signed_half_loaded(bus, address),
{
    if address % 2 == 1 {
        load_signed_byte(bus, address)
    } else {
        sign_extend(bus.read16(address) as u32, 16)
    }
}

/// A word load from an address that is not a multiple of 4 returns the
/// word at the address rounded down, rotated right by 8 bits for every
/// byte in between.
pub proof fn lemma_unaligned_word_load(bus: Bus, address: u32)
    requires
        address % 4 != 0,
    ensures
        word_loaded(&bus, address) == spec_rotate_right(
            peek32(&bus, (address - address % 4) as u32),
            ((address % 4) * 8) as u32,
        ),
{
}

impl Arm7TDMI {
    /// The processor after SWP: Rd takes what memory holds at the address
    /// in Rn, and memory takes Rm; a byte with `b`, else a word, which is
    /// read as a word load reads it and written to the word that holds the
    /// address.
    pub open spec fn swap_spec(self, b: bool, opcode: u32) -> Arm7TDMI {
        let rd = spec_nibble(opcode, 0x1000);
        let rn = self.regs[spec_nibble(opcode, 0x1_0000)];
        let rm = self.regs[spec_nibble(opcode, 1)];
        if b {
            Arm7TDMI {
                regs: spec_array_update(self.regs, rd, self.bus.peek8(rn) as u32),
                bus: self.bus.poke8(rn, spec_low8(rm)),
                ..self
            }
        } else {
            Arm7TDMI {
                regs: spec_array_update(self.regs, rd, word_loaded(&self.bus, rn)),
                bus: poke32(self.bus, spec_align4(rn), rm),
                ..self
            }
        }
    }

    /// SWP with the static bit as argument.
    pub fn run_swap(&mut self, b: bool, opcode: u32)
        requires
            old(self).wf(),
        ensures
            *final(self) == old(self).swap_spec(b, opcode),
            final(self).wf(),
    {
        let rd = nibble12(opcode);
        let rn = self.regs[nibble16(opcode)];
        let rm = self.regs[nibble0(opcode)];
        if b {
            let content = self.bus.read8(rn);
            self.bus.write8(rn, low8(rm));
            self.regs[rd] = content as u32;
        } else {
            let content = load_word(&self.bus, rn);
            self.bus.write32(align4(rn), rm);
            self.regs[rd] = content;
        }
    }

    /// Single data swap.
    pub fn swap<const B: bool>(&mut self, opcode: u32)
        requires
            old(self).wf(),
        ensures
            *final(self) == old(self).swap_spec(B, opcode),
            final(self).wf(),
    {
        self.run_swap(B, opcode);
    }

    /// The processor after a branch to `target` with exchange: bit 0 of
    /// the target selects Thumb state, and the program counter takes the
    /// target with that bit cleared and every other bit as it is.
    pub open spec fn exchanged(self, target: u32) -> Arm7TDMI {
        Arm7TDMI {
            cpsr: self.cpsr.with_state(if target % 2 == 1 { State::Thumb } else { State::Arm }),
            regs: spec_array_update(self.regs, 15, (target - target % 2) as u32),
            branch: true,
            ..self
        }
    }

    /// Branch to `target` with exchange.
    pub fn exchange(&mut self, target: u32)
        requires
            old(self).wf(),
        ensures
            *final(self) == old(self).exchanged(target),
            final(self).wf(),
    {
        if target % 2 == 1 {
            self.cpsr.set_state(State::Thumb);
        } else {
            self.cpsr.set_state(State::Arm);
        }
        self.regs[15] = target - target % 2;
        self.branch = true;
    }

    /// The processor after BX: a branch with exchange to the address in
    /// Rn (bits 0 to 3).
    pub open spec fn bx_spec(self, opcode: u32) -> Arm7TDMI {
        self.exchanged(self.regs[spec_nibble(opcode, 1)])
    }

    /// Branch and exchange.
    pub fn bx(&mut self, opcode: u32)
        requires
            old(self).wf(),
        ensures
            *final(self) == old(self).bx_spec(opcode),
            final(self).wf(),
    {
        let rn = self.regs[nibble0(opcode)];
        self.exchange(rn);
    }

    /// The target of B and BL: the 24-bit offset, sign-extended and
    /// counted in words, from 8 bytes ahead of the instruction, modulo
    /// 2^32.
    pub open spec fn branch_target(pc: u32, opcode: u32) -> u32 {
        pc.wrapping_add(8).wrapping_add(spec_sign_extend(opcode % 0x100_0000, 24).wrapping_mul(4))
    }

    /// The processor after B or BL: the program counter is at the target,
    /// and with bit 24 set the link register holds the address of the
    /// next instruction, 4 bytes behind this one.
    pub open spec fn bl_spec(self, opcode: u32) -> Arm7TDMI {
        let pc = self.regs[15];
        let linked = if spec_flag_bit(opcode, 0x100_0000) {
            spec_array_update(self.regs, 14, pc.wrapping_add(4))
        } else {
            self.regs
        };
        Arm7TDMI { regs: spec_array_update(linked, 15, Self::branch_target(pc, opcode)), branch: true, ..self }
    }

    /// Branch, and branch with link.
    pub fn bl(&mut self, opcode: u32)
        requires
            old(self).wf(),
        ensures
            *final(self) == old(self).bl_spec(opcode),
            final(self).wf(),
    {
        let pc = self.regs[15];
        let offset = sign_extend(opcode % 0x100_0000, 24).wrapping_mul(4);
        if flag24(opcode) {
            self.regs[14] = pc.wrapping_add(4);
        }
        self.branch = true;
        self.regs[15] = pc.wrapping_add(8).wrapping_add(offset);
    }

    /// The processor after LDR or STR. The offset is the low twelve bits,
    /// or with `i` register Rm shifted by an immediate amount; `u` adds
    /// it to the base Rn and otherwise it is subtracted; `p` transfers at
    /// the base with the offset and otherwise at the base. A load (`l`)
    /// puts a byte (`b`) or a word, read as a word load reads it, into Rd;
    /// a store writes the low byte of Rd, or Rd to the word that holds the
    /// address. The base takes the address with the offset where `w` is
    /// set or `p` is clear, unless a load has just filled it. The program
    /// counter reads 8 bytes ahead as base and 12 as stored value.
    pub open spec fn single_data_transfer_spec(
        self,
        i: bool,
        p: bool,
        u: bool,
        b: bool,
        w: bool,
        l: bool,
        opcode: u32,
    ) -> Arm7TDMI {
        let rn = spec_nibble(opcode, 0x1_0000);
        let rd = spec_nibble(opcode, 0x1000);
        let offset = if i {
            self.barrel_shifter_spec(false, spec_operand_bits(opcode)).0
        } else {
            opcode % 0x1000
        };
        let base = self.operand_reg(rn, 8);
        let with_offset = if u { base.wrapping_add(offset) } else { base.wrapping_sub(offset) };
        let address = if p { with_offset } else { base };
        let moved = if l {
            Arm7TDMI {
                regs: spec_array_update(
                    self.regs,
                    rd,
                    if b { self.bus.peek8(address) as u32 } else { word_loaded(&self.bus, address) },
                ),
                branch: rd == 15,
                ..self
            }
        } else {
            let data = self.operand_reg(rd, 12);
            Arm7TDMI {
                bus: if b {
                    self.bus.poke8(address, spec_low8(data))
                } else {
                    poke32(self.bus, spec_align4(address), data)
                },
                ..self
            }
        };
        if (w || !p) && (!l || rn != rd) {
            Arm7TDMI { regs: spec_array_update(moved.regs, rn, with_offset), ..moved }
        } else {
            moved
        }
    }

    /// LDR and STR with the static bits as arguments.
    pub fn run_single_data_transfer(&mut self, i: bool, p: bool, u: bool, b: bool, w: bool, l: bool, opcode: u32)
        requires
            old(self).wf(),
        ensures
            *final(self) == old(self).single_data_transfer_spec(i, p, u, b, w, l, opcode),
            final(self).wf(),
    {
        let rn = nibble16(opcode);
        let rd = nibble12(opcode);
        let offset = if i { self.barrel_shifter::<false>(operand_bits(opcode)).0 } else { opcode % 0x1000 };
        let base = self.read_operand(rn, 8);
        let with_offset = if u { base.wrapping_add(offset) } else { base.wrapping_sub(offset) };
        let address = if p { with_offset } else { base };
        if l {
            self.branch = rd == 15;
            self.regs[rd] = if b { self.bus.read8(address) as u32 } else { load_word(&self.bus, address) };
        } else {
            let data = self.read_operand(rd, 12);
            if b {
                self.bus.write8(address, low8(data));
            } else {
                self.bus.write32(align4(address), data);
            }
        }
        if (w || !p) && (!l || rn != rd) {
            self.regs[rn] = with_offset;
        }
    }

    /// LDR and STR.
    pub fn single_data_transfer<
        const I: bool,
        const P: bool,
        const U: bool,
        const B: bool,
        const W: bool,
        const L: bool,
    >(&mut self, opcode: u32)
        requires
            old(self).wf(),
        ensures
            *final(self) == old(self).single_data_transfer_spec(I, P, U, B, W, L, opcode),
            final(self).wf(),
    {
        self.run_single_data_transfer(I, P, U, B, W, L, opcode);
    }

    /// The processor after LDRH, STRH, LDRSB or LDRSH. The offset is the
    /// two nibbles at bits 8 and 0 with `i`, else register Rm; `u`, `p`
    /// and `w` work as for LDR and STR, the program counter as base adding
    /// 8 to the address with the offset. A load (`l`) puts into Rd the
    /// halfword, read as a halfword load reads it, or with `s` the signed
    /// byte or, with `h` too, the signed halfword; a store writes the low
    /// half of Rd, the program counter reading 12 bytes ahead, to the
    /// halfword that holds the address.
    pub open spec fn hw_signed_data_transfer_spec(
        self,
        i: bool,
        p: bool,
        u: bool,
        w: bool,
        l: bool,
        s: bool,
        h: bool,
        opcode: u32,
    ) -> Arm7TDMI {
        let rn = spec_nibble(opcode, 0x1_0000);
        let rd = spec_nibble(opcode, 0x1000);
        let offset = if i {
            (spec_nibble(opcode, 0x100) * 16 + spec_nibble(opcode, 1)) as u32
        } else {
            self.regs[spec_nibble(opcode, 1)]
        };
        let moved_base = if u {
            self.regs[rn].wrapping_add(offset)
        } else {
            self.regs[rn].wrapping_sub(offset)
        };
        let with_offset = if rn == 15 { moved_base.wrapping_add(8) } else { moved_base };
        let address = if p { with_offset } else { self.regs[rn] };
        let moved = if l {
            Arm7TDMI {
                regs: spec_array_update(
                    self.regs,
                    rd,
                    if !s {
                        half_loaded(&self.bus, address)
                    } else if h {
                        signed_half_loaded(&self.bus, address)
                    } else {
                        signed_byte_loaded(&self.bus, address)
                    },
                ),
                branch: rd == 15,
                ..self
            }
        } else {
            Arm7TDMI {
                bus: poke16(self.bus, spec_align_half(address), spec_low16(self.operand_reg(rd, 12))),
                branch: false,
                ..self
            }
        };
        if (w || !p) && (!l || rn != rd) {
            Arm7TDMI { regs: spec_array_update(moved.regs, rn, with_offset), ..moved }
        } else {
            moved
        }
    }

    /// Halfword and signed transfers with the static bits as arguments.
    pub fn run_hw_signed_data_transfer(
        &mut self,
        i: bool,
        p: bool,
        u: bool,
        w: bool,
        l: bool,
        s: bool,
        h: bool,
        opcode: u32,
    )
        requires
            old(self).wf(),
        ensures
            *final(self) == old(self).hw_signed_data_transfer_spec(i, p, u, w, l, s, h, opcode),
            final(self).wf(),
    {
        let rn = nibble16(opcode);
        let rd = nibble12(opcode);
        let offset = if i {
            (nibble8(opcode) * 16 + nibble0(opcode)) as u32
        } else {
            self.regs[nibble0(opcode)]
        };
        let moved_base = if u { self.regs[rn].wrapping_add(offset) } else { self.regs[rn].wrapping_sub(offset) };
        let with_offset = if rn == 15 { moved_base.wrapping_add(8) } else { moved_base };
        let address = if p { with_offset } else { self.regs[rn] };
        if l {
            self.regs[rd] = if !s {
                load_half(&self.bus, address)
            } else if h {
                load_signed_half(&self.bus, address)
            } else {
                load_signed_byte(&self.bus, address)
            };
            self.branch = rd == 15;
        } else {
            let data = low16(self.read_operand(rd, 12));
            self.bus.write16(align_half(address), data);
            self.branch = false;
        }
        if (w || !p) && (!l || rn != rd) {
            self.regs[rn] = with_offset;
        }
    }

    /// LDRH, STRH, LDRSB and LDRSH.
    pub fn hw_signed_data_transfer<
        const I: bool,
        const P: bool,
        const U: bool,
        const W: bool,
        const L: bool,
        const S: bool,
        const H: bool,
    >(&mut self, opcode: u32)
        requires
            old(self).wf(),
        ensures
            *final(self) == old(self).hw_signed_data_transfer_spec(I, P, U, W, L, S, H, opcode),
            final(self).wf(),
    {
        self.run_hw_signed_data_transfer(I, P, U, W, L, S, H, opcode);
    }
}

impl Arm7TDMI {
    /// The address that LDR or STR transfers at: the base Rn, the program
    /// counter reading 8 bytes ahead, with the offset where `p` is set.
    pub open spec fn single_transfer_address(&self, i: bool, p: bool, u: bool, opcode: u32) -> u32 {
        let offset = if i {
            self.barrel_shifter_spec(false, spec_operand_bits(opcode)).0
        } else {
            opcode % 0x1000
        };
        let base = self.operand_reg(spec_nibble(opcode, 0x1_0000), 8);
        if !p {
            base
        } else if u {
            base.wrapping_add(offset)
        } else {
            base.wrapping_sub(offset)
        }
    }
}

/// LDR of a word from an address that is not a multiple of 4 puts into Rd
/// the word at the address rounded down to a multiple of 4, rotated right
/// by 8 bits for every byte that the address lies above it.
pub proof fn lemma_ldr_unaligned(cpu: Arm7TDMI, i: bool, p: bool, u: bool, w: bool, opcode: u32)
    requires
        cpu.single_transfer_address(i, p, u, opcode) % 4 != 0,
    ensures
        ({
            let address = cpu.single_transfer_address(i, p, u, opcode);
            cpu.single_data_transfer_spec(i, p, u, false, w, true, opcode).regs[spec_nibble(opcode, 0x1000)]
                == spec_rotate_right(
                peek32(&cpu.bus, (address - address % 4) as u32),
                ((address % 4) * 8) as u32,
            )
        }),
{
}

/// BX branches to the address in Rn with only its bit 0 cleared, and that
/// bit selects the instruction set; no other register, no flag and no
/// memory changes, and the instruction counts as a branch.
pub proof fn lemma_bx_clears_bit_0(cpu: Arm7TDMI, opcode: u32)
    ensures
        ({
            let target = cpu.regs[spec_nibble(opcode, 1)];
            let after = cpu.bx_spec(opcode);
            &&& after.regs[15] == target & !1u32
            &&& (after.cpsr.spec_state() == State::Thumb) == (target & 1u32 == 1u32)
            &&& forall|r: int| 0 <= r < 15 ==> after.regs[r] == cpu.regs[r]
            &&& after.cpsr.0 % 32 == cpu.cpsr.0 % 32
            &&& after.cpsr.0 / 0x1000_0000 == cpu.cpsr.0 / 0x1000_0000
            &&& after.branch
            &&& after.bus == cpu.bus
        }),
{
    let target = cpu.regs[spec_nibble(opcode, 1)];
    assert((target - target % 2) as u32 == target & !1u32 && (target % 2 == 1) == (target & 1u32 == 1u32))
        by (bit_vector);
    let x = cpu.cpsr.0;
    let y = cpu.bx_spec(opcode).cpsr.0;
    assert(y == x - ((x / 0x20) % 2) * 0x20 + (if target % 2 == 1 { 0x20int } else { 0int }));
}

} // verus!
