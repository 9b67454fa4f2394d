//! Block data transfer: LDM and STM.
use vstd::prelude::*;
use vstd::array::spec_array_update;
use crate::arm::interpreter::arm7tdmi::{Arm7TDMI, BankedRegisters, Mode, Registers};
use crate::arm::interpreter::data::{nibble16, operand_bits, spec_nibble, spec_operand_bits};
use crate::arm::interpreter::transfer::{align4, spec_align4};
use crate::mmu::{peek32, poke32, Mcu};

verus! {

/// The number of registers in a register list.
pub open spec fn spec_count(list: u16) -> nat
    decreases list,
{
    if list == 0 {
        0
    } else {
        (list % 2) as nat + spec_count(list / 2)
    }
}

/// The number of registers in a register list.
pub fn count(list: u16) -> (n: u32)
    ensures
        n == spec_count(list),
        n <= list,
{
    let mut n: u32 = 0;
    let mut rest: u16 = list;
    while rest != 0
        invariant
            n + spec_count(rest) == spec_count(list),
            n + rest <= list,
        decreases rest,
    {
        n = n + (rest % 2) as u32;
        rest = rest / 2;
    }
    n
}

/// Whether register `r` is in a register list.
pub open spec fn spec_in_list(list: u16, r: nat) -> bool
    decreases r,
{
    if r == 0 {
        list % 2 == 1
    } else {
        spec_in_list(list / 2, (r - 1) as nat)
    }
}

/// Whether register `r` is in a register list.
pub fn in_list(list: u16, r: usize) -> (b: bool)
    ensures
        b == spec_in_list(list, r as nat),
{
    let mut rest: u16 = list;
    let mut left: usize = r;
    while left > 0
        invariant
            spec_in_list(rest, left as nat) == spec_in_list(list, r as nat),
        decreases left,
    {
        rest = rest / 2;
        left -= 1;
    }
    rest % 2 == 1
}

impl Arm7TDMI {
    /// Whether register `r` of User mode is one of the live registers
    /// while the processor is in mode `current`.
    pub open spec fn user_reg_live(current: Mode, r: int) -> bool {
        r < 8 || r == 15 || (r < 13 && !current.spec_is_fiq()) || (r >= 13 && current.spec_bank() == 0)
    }

    fn is_user_reg_live(current: Mode, r: usize) -> (b: bool)
        ensures
            b == Self::user_reg_live(current, r as int),
    {
        r < 8 || r == 15 || (r < 13 && !current.is_fiq()) || (r >= 13 && current.bank() == 0)
    }

    /// The value that a block transfer stores for register `r`: that of
    /// the User mode register with `user_bank`, else that of the live
    /// register, the program counter reading 12 bytes ahead.
    pub open spec fn transfer_reg(&self, r: int, user_bank: bool) -> u32 {
        if user_bank {
            self.visible_reg(self.current_mode(), Mode::User, r)
        } else {
            self.operand_reg(r, 12)
        }
    }

    fn read_transfer_reg(&self, r: usize, user_bank: bool) -> (v: u32)
        requires
            self.wf(),
            r < 16,
        ensures
            v == self.transfer_reg(r as int, user_bank),
    {
        let current = match self.cpsr.mode() {
            Some(m) => m,
            None => Mode::System,
        };
        if !user_bank {
            self.read_operand(r, 12)
        } else if Self::is_user_reg_live(current, r) {
            self.regs[r]
        } else {
            self.banked_regs.0[0].bank[r - 8]
        }
    }

    /// The processor after a block transfer loaded `value` into register
    /// `r`: into the User mode register with `user_bank`, which lies in
    /// bank 0 where it is not live, else into the live register.
    pub open spec fn with_transfer_reg(self, r: int, user_bank: bool, value: u32) -> Arm7TDMI {
        if !user_bank || Self::user_reg_live(self.current_mode(), r) {
            Arm7TDMI { regs: spec_array_update(self.regs, r, value), ..self }
        } else {
            let shared = self.banked_regs.0[0];
            Arm7TDMI {
                banked_regs: Registers(
                    spec_array_update(
                        self.banked_regs.0,
                        0,
                        BankedRegisters { bank: spec_array_update(shared.bank, r - 8, value), ..shared },
                    ),
                ),
                ..self
            }
        }
    }

    fn write_transfer_reg(&mut self, r: usize, user_bank: bool, value: u32)
        requires
            old(self).wf(),
            r < 16,
        ensures
            *final(self) == old(self).with_transfer_reg(r as int, user_bank, value),
            final(self).wf(),
    {
        let current = match self.cpsr.mode() {
            Some(m) => m,
            None => Mode::System,
        };
        if !user_bank || Self::is_user_reg_live(current, r) {
            self.regs[r] = value;
        } else {
            let mut shared = self.banked_regs.0[0];
            shared.bank[r - 8] = value;
            self.banked_regs.0[0] = shared;
        }
    }

    /// The processor after the registers from `r` up that the list names
    /// were transferred, `rest` being the list without its `r` lowest
    /// bits. Each register of the list goes to or comes from the word that
    /// holds `address`, and the address moves up by 4. A store of the base
    /// register `rn` writes `last`, the base after the transfer, unless
    /// the base is the `first` register of the list.
    pub open spec fn block_moved(
        self,
        rest: u16,
        r: int,
        address: u32,
        load: bool,
        user_bank: bool,
        rn: int,
        first: bool,
        last: u32,
    ) -> Arm7TDMI
        decreases 16 - r,
    {
        if r >= 16 {
            self
        } else if rest % 2 == 1 {
            let next = if load {
                self.with_transfer_reg(r, user_bank, peek32(&self.bus, spec_align4(address)))
            } else {
                Arm7TDMI {
                    bus: poke32(
                        self.bus,
                        spec_align4(address),
                        if r == rn && !first { last } else { self.transfer_reg(r, user_bank) },
                    ),
                    ..self
                }
            };
            next.block_moved(rest / 2, r + 1, address.wrapping_add(4), load, user_bank, rn, false, last)
        } else {
            self.block_moved(rest / 2, r + 1, address, load, user_bank, rn, first, last)
        }
    }

    /// The processor after LDM or STM with an empty register list: the
    /// program counter alone is transferred, at the address that a
    /// transfer of sixteen registers would start at or end before, and the
    /// base moves by 0x40.
    pub open spec fn empty_block_spec(self, p: bool, u: bool, l: bool, rn: int) -> Arm7TDMI {
        let base = self.regs[rn];
        let address = if u {
            if p { base.wrapping_add(4) } else { base }
        } else if p {
            base.wrapping_sub(0x40)
        } else {
            base.wrapping_sub(0x3C)
        };
        let moved = if l {
            Arm7TDMI {
                regs: spec_array_update(self.regs, 15, peek32(&self.bus, spec_align4(address))),
                branch: true,
                ..self
            }
        } else {
            Arm7TDMI {
                bus: poke32(self.bus, spec_align4(address), spec_align4(self.regs[15].wrapping_add(12))),
                ..self
            }
        };
        Arm7TDMI {
            regs: spec_array_update(
                moved.regs,
                rn,
                if u { moved.regs[rn].wrapping_add(0x40) } else { moved.regs[rn].wrapping_sub(0x40) },
            ),
            ..moved
        }
    }

    fn empty_block(&mut self, p: bool, u: bool, l: bool, rn: usize)
        requires
            old(self).wf(),
            rn < 16,
        ensures
            *final(self) == old(self).empty_block_spec(p, u, l, rn as int),
            final(self).wf(),
    {
        let base = self.regs[rn];
        let address = if u {
            if p { base.wrapping_add(4) } else { base }
        } else if p {
            base.wrapping_sub(0x40)
        } else {
            base.wrapping_sub(0x3C)
        };
        if l {
            self.branch = true;
            self.regs[15] = self.bus.read32(align4(address));
        } else {
            let value = align4(self.regs[15].wrapping_add(12));
            self.bus.write32(align4(address), value);
        }
        self.regs[rn] = if u { self.regs[rn].wrapping_add(0x40) } else { self.regs[rn].wrapping_sub(0x40) };
    }

    /// The processor after LDM or STM. The registers of the list (the low
    /// sixteen bits) are transferred in ascending order to ascending
    /// addresses, the lowest register at the lowest address: with `u` the
    /// block starts at the base Rn, and 4 above it with `p`; without `u`
    /// it ends 4 below the base, and at the base with `p`. With `s` and
    /// without the program counter in the list the registers of User mode
    /// are transferred; with `s` and a load of the program counter the
    /// status register is restored after the transfer. The base is
    /// written back with `w`, unless a load has filled it. An empty list
    /// transfers the program counter alone.
    pub open spec fn block_data_transfer_spec(self, p: bool, u: bool, s: bool, w: bool, l: bool, opcode: u32)
        -> Arm7TDMI {
        let rn = spec_nibble(opcode, 0x1_0000);
        let list = spec_operand_bits(opcode);
        if list == 0 {
            self.empty_block_spec(p, u, l, rn)
        } else {
            let base = self.regs[rn];
            let span = (4 * spec_count(list)) as u32;
            let low = if u {
                if p { base.wrapping_add(4) } else { base }
            } else if p {
                base.wrapping_sub(span)
            } else {
                base.wrapping_sub(span).wrapping_add(4)
            };
            let last = if u { base.wrapping_add(span) } else { base.wrapping_sub(span) };
            let with_pc = list >= 0x8000;
            let moved = self.block_moved(list, 0, low, l, s && !with_pc, rn, true, last);
            let written_back = if w && !(l && spec_in_list(list, rn as nat)) {
                Arm7TDMI { regs: spec_array_update(moved.regs, rn, last), ..moved }
            } else {
                moved
            };
            let restored = if l && s && with_pc { written_back.status_restored() } else { written_back };
            Arm7TDMI { branch: l && with_pc, ..restored }
        }
    }

    pub(crate) fn move_block(
        &mut self,
        list: u16,
        low: u32,
        load: bool,
        user_bank: bool,
        rn: usize,
        last: u32,
    )
        requires
            old(self).wf(),
            rn < 16,
        ensures
            *final(self) == old(self).block_moved(list, 0, low, load, user_bank, rn as int, true, last),
            final(self).wf(),
    {
        let ghost start = *self;
        let mut rest: u16 = list;
        let mut r: usize = 0;
        let mut address: u32 = low;
        let mut first = true;
        while r < 16
            invariant
                r <= 16,
                rn < 16,
                self.wf(),
                self.block_moved(rest, r as int, address, load, user_bank, rn as int, first, last)
                    == start.block_moved(list, 0, low, load, user_bank, rn as int, true, last),
            decreases 16 - r,
        {
            if rest % 2 == 1 {
                if load {
                    let value = self.bus.read32(align4(address));
                    self.write_transfer_reg(r, user_bank, value);
                } else {
                    let value = if r == rn && !first { last } else { self.read_transfer_reg(r, user_bank) };
                    self.bus.write32(align4(address), value);
                }
                address = address.wrapping_add(4);
                first = false;
            }
            rest = rest / 2;
            r += 1;
        }
    }

    /// LDM and STM with the static bits as arguments.
    pub fn run_block_data_transfer(&mut self, p: bool, u: bool, s: bool, w: bool, l: bool, opcode: u32)
        requires
            old(self).wf(),
        ensures
            *final(self) == old(self).block_data_transfer_spec(p, u, s, w, l, opcode),
            final(self).wf(),
    {
        let rn = nibble16(opcode);
        let list = operand_bits(opcode);
        if list == 0 {
            self.empty_block(p, u, l, rn);
            return;
        }
        let base = self.regs[rn];
        let span: u32 = 4 * count(list);
        let low = if u {
            if p { base.wrapping_add(4) } else { base }
        } else if p {
            base.wrapping_sub(span)
        } else {
            base.wrapping_sub(span).wrapping_add(4)
        };
        let last = if u { base.wrapping_add(span) } else { base.wrapping_sub(span) };
        let with_pc = list >= 0x8000;
        self.move_block(list, low, l, s && !with_pc, rn, last);
        if w && !(l && in_list(list, rn)) {
            self.regs[rn] = last;
        }
        if l && s && with_pc {
            self.restore_status();
        }
        self.branch = l && with_pc;
    }

    /// LDM and STM.
    pub fn block_data_transfer<const P: bool, const U: bool, const S: bool, const W: bool, const L: bool>(
        &mut self,
        opcode: u32,
    )
        requires
            old(self).wf(),
        ensures
            *final(self) == old(self).block_data_transfer_spec(P, U, S, W, L, opcode),
            final(self).wf(),
    {
        self.run_block_data_transfer(P, U, S, W, L, opcode);
    }
}

/// The address that a block transfer with an empty register list
/// transfers the program counter at.
pub open spec fn empty_list_address(base: u32, p: bool, u: bool) -> u32 {
    spec_align4(
        if u {
            if p { base.wrapping_add(4) } else { base }
        } else if p {
            base.wrapping_sub(0x40)
        } else {
            base.wrapping_sub(0x3C)
        },
    )
}

/// A load with an empty register list loads the program counter and moves
/// the base by 0x40, up with `u` and down without, the base not being the
/// program counter itself; no other register and no memory changes.
pub proof fn lemma_empty_list_load(cpu: Arm7TDMI, p: bool, u: bool, s: bool, w: bool, opcode: u32)
    requires
        spec_operand_bits(opcode) == 0,
        spec_nibble(opcode, 0x1_0000) != 15,
    ensures
        ({
            let rn = spec_nibble(opcode, 0x1_0000);
            let after = cpu.block_data_transfer_spec(p, u, s, w, true, opcode);
            let base = cpu.regs[rn];
            &&& after.branch
            &&& after.regs[rn] == (if u { base.wrapping_add(0x40) } else { base.wrapping_sub(0x40) })
            &&& after.regs[15] == peek32(&cpu.bus, empty_list_address(base, p, u))
            &&& forall|r: int| 0 <= r < 15 && r != rn ==> after.regs[r] == cpu.regs[r]
            &&& after.bus == cpu.bus
            &&& after.cpsr == cpu.cpsr
        }),
{
}

} // verus!
