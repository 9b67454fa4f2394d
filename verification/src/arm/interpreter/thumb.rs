//! The Thumb instructions that work on registers only, and the branches.
use vstd::prelude::*;
use vstd::array::spec_array_update;
use crate::arm::alu::{add_spec, add_with_carry, shift, shift_spec, sub_spec, sub_with_borrow, AluOut};
use crate::arm::interpreter::arm7tdmi::{Arm7TDMI, Mode};
use crate::bits::{sign_extend, spec_sign_extend, spec_widen, widen};

verus! {

/// The three bits of a Thumb instruction that start at the bit of weight
/// `weight`, as a register number.
pub open spec fn spec_reg3(opcode: u16, weight: u16) -> int {
    ((spec_widen(opcode) / spec_widen(weight)) % 8) as int
}

/// The register number in bits 0 to 2.
pub fn reg_at0(opcode: u16) -> (r: usize)
    ensures
        r == spec_reg3(opcode, 1),
        r < 8,
{
    ((widen(opcode) / 1) % 8) as usize
}

/// The register number in bits 3 to 5.
pub fn reg_at3(opcode: u16) -> (r: usize)
    ensures
        r == spec_reg3(opcode, 8),
        r < 8,
{
    ((opcode / 8) % 8) as usize
}

/// The register number in bits 6 to 8.
pub fn reg_at6(opcode: u16) -> (r: usize)
    ensures
        r == spec_reg3(opcode, 64),
        r < 8,
{
    ((opcode / 64) % 8) as usize
}

/// The register number in bits 8 to 10.
pub fn reg_at8(opcode: u16) -> (r: usize)
    ensures
        r == spec_reg3(opcode, 256),
        r < 8,
{
    ((opcode / 256) % 8) as usize
}

/// The five-bit immediate in bits 6 to 10.
pub open spec fn spec_imm5(opcode: u16) -> u32 {
    ((spec_widen(opcode) / 64) % 32) as u32
}

/// The five-bit immediate in bits 6 to 10.
#[verifier::when_used_as_spec(spec_imm5)]
pub fn imm5(opcode: u16) -> (r: u32)
    ensures
        r == spec_imm5(opcode),
        r < 32,
{
    (widen(opcode) / 64) % 32
}

/// The eight-bit immediate in bits 0 to 7.
pub open spec fn spec_imm8(opcode: u16) -> u32 {
    (spec_widen(opcode) % 256) as u32
}

/// The eight-bit immediate in bits 0 to 7.
#[verifier::when_used_as_spec(spec_imm8)]
pub fn imm8(opcode: u16) -> (r: u32)
    ensures
        r == spec_imm8(opcode),
        r < 256,
{
    widen(opcode) % 256
}

/// The two bits that start at the bit of weight `weight`.
pub open spec fn spec_pair(opcode: u16, weight: u16) -> u32 {
    ((spec_widen(opcode) / spec_widen(weight)) % 4) as u32
}

/// The two bits 8 and 9.
pub fn pair_at8(opcode: u16) -> (r: u32)
    ensures
        r == spec_pair(opcode, 256),
        r < 4,
{
    (widen(opcode) / 256) % 4
}

/// The two bits 11 and 12.
pub fn pair_at11(opcode: u16) -> (r: u32)
    ensures
        r == spec_pair(opcode, 0x800),
        r < 4,
{
    (widen(opcode) / 0x800) % 4
}

/// Bit `n` of a Thumb instruction, `weight` being 2^n.
pub open spec fn spec_tbit(opcode: u16, weight: u16) -> bool {
    (spec_widen(opcode) / spec_widen(weight)) % 2 == 1
}

/// Bit 6 of a Thumb instruction.
pub fn tbit6(opcode: u16) -> (r: bool)
    ensures
        r == spec_tbit(opcode, 0x40),
{
    (widen(opcode) / 0x40) % 2 == 1
}

/// Bit 7 of a Thumb instruction.
pub fn tbit7(opcode: u16) -> (r: bool)
    ensures
        r == spec_tbit(opcode, 0x80),
{
    (widen(opcode) / 0x80) % 2 == 1
}

/// Bit 9 of a Thumb instruction.
pub fn tbit9(opcode: u16) -> (r: bool)
    ensures
        r == spec_tbit(opcode, 0x200),
{
    (widen(opcode) / 0x200) % 2 == 1
}

/// `x` with bit 0 cleared.
pub open spec fn spec_clear_bit0(x: u32) -> u32 {
    (x - x % 2) as u32
}

/// `x` with bit 0 cleared.
#[verifier::when_used_as_spec(spec_clear_bit0)]
pub fn clear_bit0(x: u32) -> (r: u32)
    ensures
        r == spec_clear_bit0(x),
{
    x - x % 2
}

/// `x` with bit 1 cleared.
pub open spec fn spec_clear_bit1(x: u32) -> u32 {
    (x - ((x / 2) % 2) * 2) as u32
}

/// `x` with bit 1 cleared.
#[verifier::when_used_as_spec(spec_clear_bit1)]
pub fn clear_bit1(x: u32) -> (r: u32)
    ensures
        r == spec_clear_bit1(x),
{
    x - ((x / 2) % 2) * 2
}

/// The sixteen operations of format 4 on the operands `rd` and `rs`:
/// the value for Rd, or for the flags alone where the operation only
/// tests, and the carry and overflow flags as they are to be written.
pub open spec fn thumb_alu_spec(operation: u32, rd: u32, rs: u32, c: bool, v: bool) -> AluOut {
    let logical = |result: u32| AluOut { result, carry: c, overflow: v };
    let shifted = |out: (u32, bool)| AluOut { result: out.0, carry: out.1, overflow: v };
    if operation == 0 || operation == 8 {
        logical(rd & rs)
    } else if operation == 1 {
        logical(rd ^ rs)
    } else if operation == 2 {
        shifted(shift_spec(0, rd, rs % 0x100, true, c))
    } else if operation == 3 {
        shifted(shift_spec(1, rd, rs % 0x100, true, c))
    } else if operation == 4 {
        shifted(shift_spec(2, rd, rs % 0x100, true, c))
    } else if operation == 5 {
        add_spec(rd, rs, c)
    } else if operation == 6 {
        sub_spec(rd, rs, !c)
    } else if operation == 7 {
        shifted(shift_spec(3, rd, rs % 0x100, true, c))
    } else if operation == 9 {
        sub_spec(0, rs, false)
    } else if operation == 10 {
        sub_spec(rd, rs, false)
    } else if operation == 11 {
        add_spec(rd, rs, false)
    } else if operation == 12 {
        logical(rd | rs)
    } else if operation == 13 {
        logical(rd.wrapping_mul(rs))
    } else if operation == 14 {
        logical(rd & !rs)
    } else {
        logical(!rs)
    }
}

fn plain(result: u32, c: bool, v: bool) -> (out: AluOut)
    ensures
        out == (AluOut { result, carry: c, overflow: v }),
{
    AluOut { result, carry: c, overflow: v }
}

fn with_shifter_carry(out: (u32, bool), v: bool) -> (r: AluOut)
    ensures
        r == (AluOut { result: out.0, carry: out.1, overflow: v }),
{
    AluOut { result: out.0, carry: out.1, overflow: v }
}

/// Compute one of the sixteen operations of format 4.
pub fn thumb_alu(operation: u32, rd: u32, rs: u32, c: bool, v: bool) -> (out: AluOut)
    ensures
        out == thumb_alu_spec(operation, rd, rs, c, v),
{
    if operation == 0 || operation == 8 {
        plain(rd & rs, c, v)
    } else if operation == 1 {
        plain(rd ^ rs, c, v)
    } else if operation == 2 {
        with_shifter_carry(shift(0, rd, rs % 0x100, true, c), v)
    } else if operation == 3 {
        with_shifter_carry(shift(1, rd, rs % 0x100, true, c), v)
    } else if operation == 4 {
        with_shifter_carry(shift(2, rd, rs % 0x100, true, c), v)
    } else if operation == 5 {
        add_with_carry(rd, rs, c)
    } else if operation == 6 {
        sub_with_borrow(rd, rs, !c)
    } else if operation == 7 {
        with_shifter_carry(shift(3, rd, rs % 0x100, true, c), v)
    } else if operation == 9 {
        sub_with_borrow(0, rs, false)
    } else if operation == 10 {
        sub_with_borrow(rd, rs, false)
    } else if operation == 11 {
        add_with_carry(rd, rs, false)
    } else if operation == 12 {
        plain(rd | rs, c, v)
    } else if operation == 13 {
        plain(rd.wrapping_mul(rs), c, v)
    } else if operation == 14 {
        plain(rd & !rs, c, v)
    } else {
        plain(!rs, c, v)
    }
}

impl Arm7TDMI {
    /// The processor with register `rd` and the four flags written from
    /// what the adder or the shifter handed back.
    pub open spec fn with_result(self, rd: int, out: AluOut) -> Arm7TDMI {
        Arm7TDMI {
            regs: spec_array_update(self.regs, rd, out.result),
            cpsr: self.cpsr.with_flags(out.result, out.carry, out.overflow),
            ..self
        }
    }

    fn write_result(&mut self, rd: usize, out: AluOut)
        requires
            old(self).wf(),
            rd < 16,
        ensures
            *final(self) == old(self).with_result(rd as int, out),
            final(self).wf(),
    {
        self.regs[rd] = out.result;
        self.cpsr.set_flags(out.result, out.carry, out.overflow);
    }

    /// The processor with the four flags written and no register changed.
    pub open spec fn with_test(self, out: AluOut) -> Arm7TDMI {
        Arm7TDMI { cpsr: self.cpsr.with_flags(out.result, out.carry, out.overflow), ..self }
    }

    fn write_test(&mut self, out: AluOut)
        requires
            old(self).wf(),
        ensures
            *final(self) == old(self).with_test(out),
            final(self).wf(),
    {
        self.cpsr.set_flags(out.result, out.carry, out.overflow);
    }

    /// Format 1, move shifted register: Rd takes Rs shifted by the
    /// immediate in bits 6 to 10, bits 11 and 12 selecting the shift; the
    /// carry comes from the shifter, and the sign and zero flags follow
    /// the result.
    pub open spec fn mov_shifted_reg_spec(self, opcode: u16) -> Arm7TDMI {
        let out = shift_spec(
            spec_pair(opcode, 0x800),
            self.regs[spec_reg3(opcode, 8)],
            spec_imm5(opcode),
            false,
            self.cpsr.spec_c(),
        );
        self.with_result(
            spec_reg3(opcode, 1),
            AluOut { result: out.0, carry: out.1, overflow: self.cpsr.spec_v() },
        )
    }

    /// Format 1: move shifted register.
    pub fn mov_shifted_reg(&mut self, opcode: u16)
        requires
            old(self).wf(),
        ensures
            *final(self) == old(self).mov_shifted_reg_spec(opcode),
            final(self).wf(),
    {
        let rd = reg_at0(opcode);
        let rs = reg_at3(opcode);
        let out = shift(pair_at11(opcode), self.regs[rs], imm5(opcode), false, self.cpsr.c());
        let v = self.cpsr.v();
        self.write_result(rd, with_shifter_carry(out, v));
    }

    /// Format 2, add and subtract: Rd takes Rs plus, or with bit 9 minus,
    /// the three-bit immediate in bits 6 to 8 with `i`, else the register
    /// that those bits name; all four flags follow.
    pub open spec fn add_sub_spec(self, i: bool, opcode: u16) -> Arm7TDMI {
        let rs = self.regs[spec_reg3(opcode, 8)];
        let operand = if i { spec_reg3(opcode, 64) as u32 } else { self.regs[spec_reg3(opcode, 64)] };
        self.with_result(
            spec_reg3(opcode, 1),
            if spec_tbit(opcode, 0x200) { sub_spec(rs, operand, false) } else { add_spec(rs, operand, false) },
        )
    }

    /// Format 2: add and subtract.
    pub fn add_sub<const I: bool>(&mut self, opcode: u16)
        requires
            old(self).wf(),
        ensures
            *final(self) == old(self).add_sub_spec(I, opcode),
            final(self).wf(),
    {
        let rd = reg_at0(opcode);
        let rs = self.regs[reg_at3(opcode)];
        let operand = if I { reg_at6(opcode) as u32 } else { self.regs[reg_at6(opcode)] };
        let out = if tbit9(opcode) { sub_with_borrow(rs, operand, false) } else { add_with_carry(rs, operand, false) };
        self.write_result(rd, out);
    }

    /// Format 3, move, compare, add and subtract immediate, bits 11 and 12
    /// selecting which: the register in bits 8 to 10 and the eight-bit
    /// immediate are the operands. A move writes the sign and zero flags
    /// only; a compare writes all four flags and no register; add and
    /// subtract write the register and all four flags.
    pub open spec fn mov_cmp_alu_imm_spec(self, opcode: u16) -> Arm7TDMI {
        let rd = spec_reg3(opcode, 256);
        let kind = spec_pair(opcode, 0x800);
        if kind == 0 {
            Arm7TDMI {
                regs: spec_array_update(self.regs, rd, spec_imm8(opcode)),
                cpsr: self.cpsr.with_nz(spec_imm8(opcode)),
                ..self
            }
        } else if kind == 1 {
            self.with_test(sub_spec(self.regs[rd], spec_imm8(opcode), false))
        } else if kind == 2 {
            self.with_result(rd, add_spec(self.regs[rd], spec_imm8(opcode), false))
        } else {
            self.with_result(rd, sub_spec(self.regs[rd], spec_imm8(opcode), false))
        }
    }

    /// Format 3: move, compare, add and subtract immediate.
    pub fn mov_cmp_alu_imm(&mut self, opcode: u16)
        requires
            old(self).wf(),
        ensures
            *final(self) == old(self).mov_cmp_alu_imm_spec(opcode),
            final(self).wf(),
    {
        let rd = reg_at8(opcode);
        let kind = pair_at11(opcode);
        let offset = imm8(opcode);
        if kind == 0 {
            self.regs[rd] = offset;
            self.cpsr.set_nz(offset);
        } else if kind == 1 {
            self.write_test(sub_with_borrow(self.regs[rd], offset, false));
        } else if kind == 2 {
            self.write_result(rd, add_with_carry(self.regs[rd], offset, false));
        } else {
            self.write_result(rd, sub_with_borrow(self.regs[rd], offset, false));
        }
    }

    /// The operation of format 4: bits 6 to 9.
    pub open spec fn alu_operation(opcode: u16) -> u32 {
        ((spec_widen(opcode) / 64) % 16) as u32
    }

    /// Format 4, the sixteen operations on two low registers: Rd (bits 0
    /// to 2) and Rs (bits 3 to 5) are the operands; TST, CMP and CMN
    /// (operations 8, 10 and 11) write the flags only.
    pub open spec fn alu_ops_spec(self, opcode: u16) -> Arm7TDMI {
        let rd = spec_reg3(opcode, 1);
        let operation = Self::alu_operation(opcode);
        let out = thumb_alu_spec(
            operation,
            self.regs[rd],
            self.regs[spec_reg3(opcode, 8)],
            self.cpsr.spec_c(),
            self.cpsr.spec_v(),
        );
        if operation == 8 || operation == 10 || operation == 11 {
            self.with_test(out)
        } else {
            self.with_result(rd, out)
        }
    }

    /// Format 4: ALU operations.
    pub fn alu_ops(&mut self, opcode: u16)
        requires
            old(self).wf(),
        ensures
            *final(self) == old(self).alu_ops_spec(opcode),
            final(self).wf(),
    {
        let rd = reg_at0(opcode);
        let rs = reg_at3(opcode);
        let operation = (widen(opcode) / 64) % 16;
        let out = thumb_alu(operation, self.regs[rd], self.regs[rs], self.cpsr.c(), self.cpsr.v());
        if operation == 8 || operation == 10 || operation == 11 {
            self.write_test(out);
        } else {
            self.write_result(rd, out);
        }
    }

    /// Format 5, operations on the high registers and branch exchange.
    /// Bit 7 adds 8 to the number of Rd and bit 6 to that of Rs; the
    /// program counter as an operand reads 4 bytes ahead. Bits 8 and 9
    /// select: ADD, which writes no flag; CMP, which writes the flags
    /// only; MOV; and BX, a branch with exchange to Rs. A write of the
    /// program counter is a branch to the value without its bit 0.
    pub open spec fn hi_reg_op_bx_spec(self, opcode: u16) -> Arm7TDMI {
        let dst = spec_reg3(opcode, 1) + (if spec_tbit(opcode, 0x80) { 8int } else { 0int });
        let src = spec_reg3(opcode, 8) + (if spec_tbit(opcode, 0x40) { 8int } else { 0int });
        let operand = self.operand_reg(src, 4);
        let op = spec_pair(opcode, 256);
        if op == 3 {
            self.exchanged(operand)
        } else if op == 1 {
            self.with_test(sub_spec(self.regs[dst], operand, false))
        } else {
            let value = if op == 0 { self.operand_reg(dst, 4).wrapping_add(operand) } else { operand };
            if dst == 15 {
                Arm7TDMI { regs: spec_array_update(self.regs, 15, spec_clear_bit0(value)), branch: true, ..self }
            } else {
                Arm7TDMI { regs: spec_array_update(self.regs, dst, value), ..self }
            }
        }
    }

    /// Format 5: high register operations and branch exchange.
    pub fn hi_reg_op_bx(&mut self, opcode: u16)
        requires
            old(self).wf(),
        ensures
            *final(self) == old(self).hi_reg_op_bx_spec(opcode),
            final(self).wf(),
    {
        let dst = reg_at0(opcode) + if tbit7(opcode) { 8 } else { 0 };
        let src = reg_at3(opcode) + if tbit6(opcode) { 8 } else { 0 };
        let operand = self.read_operand(src, 4);
        let op = pair_at8(opcode);
        if op == 3 {
            self.exchange(operand);
        } else if op == 1 {
            self.write_test(sub_with_borrow(self.regs[dst], operand, false));
        } else {
            let value = if op == 0 { self.read_operand(dst, 4).wrapping_add(operand) } else { operand };
            if dst == 15 {
                self.branch = true;
                self.regs[15] = clear_bit0(value);
            } else {
                self.regs[dst] = value;
            }
        }
    }

    /// Format 12, load address: Rd (bits 8 to 10) takes the stack pointer
    /// with `sp`, else the program counter 4 bytes ahead without its bit
    /// 1, plus four times the eight-bit immediate.
    pub open spec fn load_addr_spec(self, sp: bool, opcode: u16) -> Arm7TDMI {
        let base = if sp { self.regs[13] } else { spec_clear_bit1(self.regs[15].wrapping_add(4)) };
        Arm7TDMI {
            regs: spec_array_update(
                self.regs,
                spec_reg3(opcode, 256),
                base.wrapping_add((spec_imm8(opcode) * 4) as u32),
            ),
            ..self
        }
    }

    /// Format 12: load address.
    pub fn load_addr<const SP: bool>(&mut self, opcode: u16)
        requires
            old(self).wf(),
        ensures
            *final(self) == old(self).load_addr_spec(SP, opcode),
            final(self).wf(),
    {
        let rd = reg_at8(opcode);
        let base = if SP { self.regs[13] } else { clear_bit1(self.regs[15].wrapping_add(4)) };
        self.regs[rd] = base.wrapping_add(imm8(opcode) * 4);
    }

    /// Format 13, add offset to stack pointer: four times the seven-bit
    /// immediate is added, or with bit 7 subtracted.
    pub open spec fn add_sp_spec(self, opcode: u16) -> Arm7TDMI {
        let offset = ((spec_widen(opcode) % 128) * 4) as u32;
        Arm7TDMI {
            regs: spec_array_update(
                self.regs,
                13,
                if spec_tbit(opcode, 0x80) {
                    self.regs[13].wrapping_sub(offset)
                } else {
                    self.regs[13].wrapping_add(offset)
                },
            ),
            ..self
        }
    }

    /// Format 13: add offset to stack pointer.
    pub fn add_sp(&mut self, opcode: u16)
        requires
            old(self).wf(),
        ensures
            *final(self) == old(self).add_sp_spec(opcode),
            final(self).wf(),
    {
        let offset = (widen(opcode) % 128) * 4;
        if tbit7(opcode) {
            self.regs[13] = self.regs[13].wrapping_sub(offset);
        } else {
            self.regs[13] = self.regs[13].wrapping_add(offset);
        }
    }

    /// The target of a Thumb branch: twice the sign-extended offset of
    /// `width` bits, from 4 bytes ahead of the instruction, without bit 0.
    pub open spec fn thumb_target(pc: u32, offset: u32, width: u32) -> u32 {
        spec_clear_bit0(pc.wrapping_add(4).wrapping_add(spec_sign_extend(offset, width).wrapping_mul(2)))
    }

    fn compute_thumb_target(pc: u32, offset: u32, width: u32) -> (r: u32)
        ensures
            r == Self::thumb_target(pc, offset, width),
    {
        clear_bit0(pc.wrapping_add(4).wrapping_add(sign_extend(offset, width).wrapping_mul(2)))
    }

    /// Format 16, conditional branch: where the condition in bits 8 to 11
    /// holds, a branch by the eight-bit offset.
    pub open spec fn cond_branch_spec(self, opcode: u16) -> Arm7TDMI {
        if self.cond_spec(((spec_widen(opcode) / 256) % 16) as u8) {
            Arm7TDMI {
                regs: spec_array_update(self.regs, 15, Self::thumb_target(self.regs[15], spec_imm8(opcode), 8)),
                branch: true,
                ..self
            }
        } else {
            self
        }
    }

    /// Format 16: conditional branch.
    pub fn cond_branch(&mut self, opcode: u16)
        requires
            old(self).wf(),
        ensures
            *final(self) == old(self).cond_branch_spec(opcode),
            final(self).wf(),
    {
        if self.cond(((widen(opcode) / 256) % 16) as u8) {
            self.regs[15] = Self::compute_thumb_target(self.regs[15], imm8(opcode), 8);
            self.branch = true;
        }
    }

    /// Format 17: software interrupt.
    pub fn t_swi(&mut self, _opcode: u16)
        requires
            old(self).wf(),
        ensures
            *final(self) == old(self).swi_spec(true),
            final(self).wf(),
    {
        self.swi::<true>(widen(_opcode));
    }

    /// Format 18, unconditional branch by the eleven-bit offset.
    pub open spec fn branch_spec(self, opcode: u16) -> Arm7TDMI {
        Arm7TDMI {
            regs: spec_array_update(
                self.regs,
                15,
                Self::thumb_target(self.regs[15], (spec_widen(opcode) % 0x800) as u32, 11),
            ),
            branch: true,
            ..self
        }
    }

    /// Format 18: unconditional branch.
    pub fn branch(&mut self, opcode: u16)
        requires
            old(self).wf(),
        ensures
            *final(self) == old(self).branch_spec(opcode),
            final(self).wf(),
    {
        self.regs[15] = Self::compute_thumb_target(self.regs[15], widen(opcode) % 0x800, 11);
        self.branch = true;
    }

    /// Format 19, long branch with link, in two instructions. The first
    /// (`h` clear) puts into the link register the program counter 4
    /// bytes ahead plus the sign-extended eleven-bit offset times 0x1000.
    /// The second adds twice its offset to the link register and branches
    /// there, leaving in the link register the address of the next
    /// instruction with bit 0 set.
    pub open spec fn long_branch_spec(self, h: bool, opcode: u16) -> Arm7TDMI {
        let offset = (spec_widen(opcode) % 0x800) as u32;
        if !h {
            Arm7TDMI {
                regs: spec_array_update(
                    self.regs,
                    14,
                    self.regs[15].wrapping_add(4).wrapping_add(spec_sign_extend(offset, 11).wrapping_mul(0x1000)),
                ),
                ..self
            }
        } else {
            Arm7TDMI {
                regs: spec_array_update(
                    spec_array_update(
                        self.regs,
                        14,
                        (spec_clear_bit0(self.regs[15].wrapping_add(2)) + 1) as u32,
                    ),
                    15,
                    spec_clear_bit0(self.regs[14].wrapping_add((offset * 2) as u32)),
                ),
                branch: true,
                ..self
            }
        }
    }

    /// Format 19: long branch with link.
    pub fn long_branch<const H: bool>(&mut self, opcode: u16)
        requires
            old(self).wf(),
        ensures
            *final(self) == old(self).long_branch_spec(H, opcode),
            final(self).wf(),
    {
        let offset = widen(opcode) % 0x800;
        if !H {
            self.regs[14] = self.regs[15].wrapping_add(4).wrapping_add(sign_extend(offset, 11).wrapping_mul(0x1000));
        } else {
            let target = clear_bit0(self.regs[14].wrapping_add(offset * 2));
            self.regs[14] = clear_bit0(self.regs[15].wrapping_add(2)) + 1;
            self.regs[15] = target;
            self.branch = true;
        }
    }

    /// The undefined Thumb instruction: an exception into Undefined mode
    /// at vector 0x04.
    pub fn t_undefined(&mut self, _opcode: u16)
        requires
            old(self).wf(),
        ensures
            *final(self) == old(self).exception_spec(Mode::Undefined, 0x04, 2, true),
            final(self).wf(),
    {
        self.exception(Mode::Undefined, 0x04, 2, true);
    }
}

} // verus!
