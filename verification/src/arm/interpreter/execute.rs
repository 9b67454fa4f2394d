//! Fetch, decode and execute: one instruction per cycle.
use vstd::prelude::*;
use vstd::array::spec_array_update;
use crate::arm::interpreter::arm7tdmi::{Arm7TDMI, Mode, State};
use crate::arm::interpreter::decode::{arm_decoded, ArmInstruction, Decoder, ThumbInstruction};
use crate::bits::{spec_widen, widen};
use crate::mmu::{peek16, peek32, Mcu};

verus! {

/// The condition field of an ARM instruction: bits 28 to 31.
pub open spec fn spec_condition(opcode: u32) -> u8 {
    (opcode / 0x1000_0000) as u8
}

/// The condition field of an ARM instruction.
#[verifier::when_used_as_spec(spec_condition)]
pub fn condition(opcode: u32) -> (r: u8)
    ensures
        r == spec_condition(opcode),
{
    (opcode / 0x1000_0000) as u8
}

impl Arm7TDMI {
    /// The processor after the handler of a decoded ARM instruction ran.
    pub open spec fn arm_executed(self, instruction: ArmInstruction, opcode: u32) -> Arm7TDMI {
        match instruction {
            ArmInstruction::Multiply { s } => self.multiply_spec(s, opcode),
            ArmInstruction::MultiplyLong { s } => self.multiply_long_spec(s, opcode),
            ArmInstruction::Swap { b } => self.swap_spec(b, opcode),
            ArmInstruction::Bx => self.bx_spec(opcode),
            ArmInstruction::Bl => self.bl_spec(opcode),
            ArmInstruction::HwSignedDataTransfer { i, p, u, w, l, s, h } => self.hw_signed_data_transfer_spec(
                i,
                p,
                u,
                w,
                l,
                s,
                h,
                opcode,
            ),
            ArmInstruction::BlockDataTransfer { p, u, s, w, l } => self.block_data_transfer_spec(
                p,
                u,
                s,
                w,
                l,
                opcode,
            ),
            ArmInstruction::PsrTransfer { i, psr } => self.psr_transfer_spec(i, psr, opcode),
            ArmInstruction::DataProcessing { i, s } => self.data_processing_spec(i, s, opcode),
            ArmInstruction::SingleDataTransfer { i, p, u, b, w, l } => self.single_data_transfer_spec(
                i,
                p,
                u,
                b,
                w,
                l,
                opcode,
            ),
            ArmInstruction::Swi => self.swi_spec(false),
            ArmInstruction::Undefined => self.exception_spec(Mode::Undefined, 0x04, 4, true),
        }
    }

    /// Run the handler of a decoded ARM instruction.
    pub fn execute_arm(&mut self, instruction: ArmInstruction, opcode: u32)
        requires
            old(self).wf(),
        ensures
            *final(self) == old(self).arm_executed(instruction, opcode),
            final(self).wf(),
    {
        match instruction {
            ArmInstruction::Multiply { s } => self.run_multiply(s, opcode),
            ArmInstruction::MultiplyLong { s } => self.run_multiply_long(s, opcode),
            ArmInstruction::Swap { b } => self.run_swap(b, opcode),
            ArmInstruction::Bx => self.bx(opcode),
            ArmInstruction::Bl => self.bl(opcode),
            ArmInstruction::HwSignedDataTransfer { i, p, u, w, l, s, h } => self.run_hw_signed_data_transfer(
                i,
                p,
                u,
                w,
                l,
                s,
                h,
                opcode,
            ),
            ArmInstruction::BlockDataTransfer { p, u, s, w, l } => self.run_block_data_transfer(
                p,
                u,
                s,
                w,
                l,
                opcode,
            ),
            ArmInstruction::PsrTransfer { i, psr } => self.run_psr_transfer(i, psr, opcode),
            ArmInstruction::DataProcessing { i, s } => self.run_data_processing(i, s, opcode),
            ArmInstruction::SingleDataTransfer { i, p, u, b, w, l } => self.run_single_data_transfer(
                i,
                p,
                u,
                b,
                w,
                l,
                opcode,
            ),
            ArmInstruction::Swi => self.swi::<false>(opcode),
            ArmInstruction::Undefined => self.undefined(opcode),
        }
    }

    /// The processor after the handler of a decoded Thumb instruction ran.
    pub open spec fn thumb_executed(self, instruction: ThumbInstruction, opcode: u16) -> Arm7TDMI {
        match instruction {
            ThumbInstruction::AddSub { i } => self.add_sub_spec(i, opcode),
            ThumbInstruction::MovShiftedReg => self.mov_shifted_reg_spec(opcode),
            ThumbInstruction::MovCompareAluImm => self.mov_cmp_alu_imm_spec(opcode),
            ThumbInstruction::AluOps => self.alu_ops_spec(opcode),
            ThumbInstruction::HiRegOpBx => self.hi_reg_op_bx_spec(opcode),
            ThumbInstruction::PcRelLoad => self.pc_rel_load_spec(opcode),
            ThumbInstruction::LoadStoreReg { l, b } => self.load_store_reg_spec(l, b, opcode),
            ThumbInstruction::LoadStoreHwSignext { h, s } => self.load_store_hw_signext_spec(h, s, opcode),
            ThumbInstruction::LoadStoreImm { l, b } => self.load_store_imm_spec(l, b, opcode),
            ThumbInstruction::LoadStoreHw { l } => self.load_store_hw_spec(l, opcode),
            ThumbInstruction::SpRelLoadStore { l } => self.sp_rel_load_store_spec(l, opcode),
            ThumbInstruction::LoadAddr { sp } => self.load_addr_spec(sp, opcode),
            ThumbInstruction::AddSp => self.add_sp_spec(opcode),
            ThumbInstruction::PushPop { l, r } => self.push_pop_spec(l, r, opcode),
            ThumbInstruction::LdmStm { l } => self.ldm_stm_spec(l, opcode),
            ThumbInstruction::Swi => self.swi_spec(true),
            ThumbInstruction::CondBranch => self.cond_branch_spec(opcode),
            ThumbInstruction::Branch => self.branch_spec(opcode),
            ThumbInstruction::LongBranch { h } => self.long_branch_spec(h, opcode),
            ThumbInstruction::Undefined => self.exception_spec(Mode::Undefined, 0x04, 2, true),
        }
    }

    fn execute_thumb_transfer(&mut self, instruction: ThumbInstruction, opcode: u16)
        requires
            old(self).wf(),
            instruction is LoadStoreReg || instruction is LoadStoreHwSignext || instruction is LoadStoreImm
                || instruction is PushPop,
        ensures
            *final(self) == old(self).thumb_executed(instruction, opcode),
            final(self).wf(),
    {
        match instruction {
            ThumbInstruction::LoadStoreReg { l, b } => {
                if l {
                    if b { self.load_store_reg::<true, true>(opcode) } else { self.load_store_reg::<true, false>(opcode) }
                } else if b {
                    self.load_store_reg::<false, true>(opcode)
                } else {
                    self.load_store_reg::<false, false>(opcode)
                }
            },
            ThumbInstruction::LoadStoreHwSignext { h, s } => {
                if h {
                    if s {
                        self.load_store_hw_signext::<true, true>(opcode)
                    } else {
                        self.load_store_hw_signext::<true, false>(opcode)
                    }
                } else if s {
                    self.load_store_hw_signext::<false, true>(opcode)
                } else {
                    self.load_store_hw_signext::<false, false>(opcode)
                }
            },
            ThumbInstruction::LoadStoreImm { l, b } => {
                if l {
                    if b { self.load_store_imm::<true, true>(opcode) } else { self.load_store_imm::<true, false>(opcode) }
                } else if b {
                    self.load_store_imm::<false, true>(opcode)
                } else {
                    self.load_store_imm::<false, false>(opcode)
                }
            },
            ThumbInstruction::PushPop { l, r } => {
                if l {
                    if r { self.push_pop::<true, true>(opcode) } else { self.push_pop::<true, false>(opcode) }
                } else if r {
                    self.push_pop::<false, true>(opcode)
                } else {
                    self.push_pop::<false, false>(opcode)
                }
            },
            _ => {},
        }
    }

    /// Run the handler of a decoded Thumb instruction.
    pub fn execute_thumb(&mut self, instruction: ThumbInstruction, opcode: u16)
        requires
            old(self).wf(),
        ensures
            *final(self) == old(self).thumb_executed(instruction, opcode),
            final(self).wf(),
    {
        match instruction {
            ThumbInstruction::AddSub { i } => {
                if i { self.add_sub::<true>(opcode) } else { self.add_sub::<false>(opcode) }
            },
            ThumbInstruction::MovShiftedReg => self.mov_shifted_reg(opcode),
            ThumbInstruction::MovCompareAluImm => self.mov_cmp_alu_imm(opcode),
            ThumbInstruction::AluOps => self.alu_ops(opcode),
            ThumbInstruction::HiRegOpBx => self.hi_reg_op_bx(opcode),
            ThumbInstruction::PcRelLoad => self.pc_rel_load(opcode),
            ThumbInstruction::LoadStoreReg { .. } => self.execute_thumb_transfer(instruction, opcode),
            ThumbInstruction::LoadStoreHwSignext { .. } => self.execute_thumb_transfer(instruction, opcode),
            ThumbInstruction::LoadStoreImm { .. } => self.execute_thumb_transfer(instruction, opcode),
            ThumbInstruction::LoadStoreHw { l } => {
                if l { self.load_store_hw::<true>(opcode) } else { self.load_store_hw::<false>(opcode) }
            },
            ThumbInstruction::SpRelLoadStore { l } => {
                if l { self.sp_rel_load_store::<true>(opcode) } else { self.sp_rel_load_store::<false>(opcode) }
            },
            ThumbInstruction::LoadAddr { sp } => {
                if sp { self.load_addr::<true>(opcode) } else { self.load_addr::<false>(opcode) }
            },
            ThumbInstruction::AddSp => self.add_sp(opcode),
            ThumbInstruction::PushPop { .. } => self.execute_thumb_transfer(instruction, opcode),
            ThumbInstruction::LdmStm { l } => {
                if l { self.ldm_stm::<true>(opcode) } else { self.ldm_stm::<false>(opcode) }
            },
            ThumbInstruction::Swi => self.t_swi(opcode),
            ThumbInstruction::CondBranch => self.cond_branch(opcode),
            ThumbInstruction::Branch => self.branch(opcode),
            ThumbInstruction::LongBranch { h } => {
                if h { self.long_branch::<true>(opcode) } else { self.long_branch::<false>(opcode) }
            },
            ThumbInstruction::Undefined => self.t_undefined(opcode),
        }
    }

    /// The processor after the instruction at the program counter was
    /// fetched and executed: an ARM instruction runs where its condition
    /// holds, a Thumb instruction always.
    pub open spec fn instruction_executed(self) -> Arm7TDMI {
        match self.cpsr.spec_state() {
            State::Arm => {
                let opcode = peek32(&self.bus, self.regs[15]);
                if self.cond_spec(spec_condition(opcode)) {
                    self.arm_executed(arm_decoded(opcode), opcode)
                } else {
                    self
                }
            },
            State::Thumb => {
                let opcode = peek16(&self.bus, self.regs[15]);
                self.thumb_executed(Decoder::thumb_decoded(opcode), opcode)
            },
        }
    }

    /// The number of bytes that the program counter moves on by after an
    /// instruction: none after a branch, else the size of an instruction
    /// of the current instruction set.
    pub open spec fn pc_step(&self) -> u32 {
        if self.branch {
            0
        } else if self.cpsr.spec_state() == State::Thumb {
            2
        } else {
            4
        }
    }

    /// The processor after one instruction: the instruction at the
    /// program counter is executed, the program counter moves on unless
    /// the instruction has branched, and the branch flag is clear.
    pub open spec fn cycle_spec(self) -> Arm7TDMI {
        let executed = self.instruction_executed();
        Arm7TDMI {
            regs: spec_array_update(executed.regs, 15, executed.regs[15].wrapping_add(executed.pc_step())),
            branch: false,
            ..executed
        }
    }

    fn execute_instruction(&mut self)
        requires
            old(self).wf(),
        ensures
            *final(self) == old(self).instruction_executed(),
            final(self).wf(),
    {
        match self.cpsr.state() {
            State::Arm => {
                let opcode = self.bus.read32(self.regs[15]);
                if self.cond(condition(opcode)) {
                    let instruction = self.decoder.lookup_arm(opcode);
                    self.execute_arm(instruction, opcode);
                }
            },
            State::Thumb => {
                let opcode = self.bus.read16(self.regs[15]);
                let instruction = self.decoder.lookup_thumb(opcode);
                self.execute_thumb(instruction, opcode);
            },
        }
    }

    /// Execute one instruction.
    pub fn cycle(&mut self)
        requires
            old(self).wf(),
        ensures
            *final(self) == old(self).cycle_spec(),
            final(self).wf(),
    {
        self.execute_instruction();
        let step: u32 = if self.branch {
            0
        } else {
            match self.cpsr.state() {
                State::Thumb => 2,
                State::Arm => 4,
            }
        };
        self.regs[15] = self.regs[15].wrapping_add(step);
        self.branch = false;
    }
}

impl Arm7TDMI {
    /// Whether every status register names a mode and the bus and the
    /// tables of handlers are in order.
    pub fn check(&self) -> (ok: bool)
        ensures
            ok == self.wf(),
    {
        if self.cpsr.mode().is_none() || self.spsr.mode().is_none() {
            return false;
        }
        let mut b: usize = 0;
        while b < 6
            invariant
                b <= 6,
                forall|k: int| 0 <= k < b ==> (#[trigger] self.banked_regs.0[k]).spsr.spec_mode() is Some,
            decreases 6 - b,
        {
            if self.banked_regs.0[b].spsr.mode().is_none() {
                return false;
            }
            b += 1;
        }
        self.bus.ppu.check() && self.decoder.check()
    }
}

} // verus!
