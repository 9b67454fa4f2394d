use kba::arm::interpreter::arm7tdmi::{Arm7TDMI, Cpsr, Mode, State};
use kba::arm::interpreter::decode::{decode_thumb, Decoder, ThumbInstruction};
use kba::arm::interpreter::thumb::thumb_alu;
use kba::mmu::Mcu;

fn thumb_cpu() -> Arm7TDMI {
    let mut cpu = Arm7TDMI::new(&[], &[]);
    cpu.cpsr = Cpsr(0x3F);
    cpu
}

#[test]
fn thumb_move_shifted_register() {
    let mut cpu = thumb_cpu();
    cpu.regs[1] = 0x4000_0001;
    // LSL R0, R1, #2.
    cpu.mov_shifted_reg(0x0088);
    assert_eq!(cpu.regs[0], 4);
    assert!(cpu.cpsr.c());
    assert!(!cpu.cpsr.z());
    // LSR R0, R1, #0 stands for a shift by 32.
    cpu.regs[1] = 0x8000_0000;
    cpu.mov_shifted_reg(0x0808);
    assert_eq!(cpu.regs[0], 0);
    assert!(cpu.cpsr.c());
    assert!(cpu.cpsr.z());
    // ASR R0, R1, #4.
    cpu.mov_shifted_reg(0x1108);
    assert_eq!(cpu.regs[0], 0xF800_0000);
    assert!(cpu.cpsr.n());
}

#[test]
fn thumb_add_and_subtract() {
    let mut cpu = thumb_cpu();
    cpu.regs[1] = 0xFFFF_FFFF;
    cpu.regs[2] = 1;
    // ADD R0, R1, R2.
    cpu.add_sub::<false>(0x1888);
    assert_eq!(cpu.regs[0], 0);
    assert!(cpu.cpsr.z() && cpu.cpsr.c() && !cpu.cpsr.v());
    // SUB R0, R1, #1.
    cpu.regs[1] = 0;
    cpu.add_sub::<true>(0x1E48);
    assert_eq!(cpu.regs[0], 0xFFFF_FFFF);
    assert!(cpu.cpsr.n() && !cpu.cpsr.c());
}

#[test]
fn thumb_immediate_operations() {
    let mut cpu = thumb_cpu();
    // MOV R0, #0x2A.
    cpu.mov_cmp_alu_imm(0x202A);
    assert_eq!(cpu.regs[0], 0x2A);
    // CMP R0, #0x2A.
    cpu.mov_cmp_alu_imm(0x282A);
    assert_eq!(cpu.regs[0], 0x2A);
    assert!(cpu.cpsr.z() && cpu.cpsr.c());
    // ADD R0, #1 and SUB R0, #0x2B.
    cpu.mov_cmp_alu_imm(0x3001);
    assert_eq!(cpu.regs[0], 0x2B);
    cpu.mov_cmp_alu_imm(0x382B);
    assert_eq!(cpu.regs[0], 0);
    assert!(cpu.cpsr.z());
}

#[test]
fn thumb_alu_operations() {
    let mut cpu = thumb_cpu();
    cpu.regs[0] = 0;
    cpu.regs[1] = 5;
    // NEG R0, R1.
    cpu.alu_ops(0x4248);
    assert_eq!(cpu.regs[0], 0xFFFF_FFFB);
    assert!(cpu.cpsr.n());
    // MUL R0, R1.
    cpu.regs[0] = 7;
    cpu.alu_ops(0x4348);
    assert_eq!(cpu.regs[0], 35);
    // TST R0, R1 writes no register.
    cpu.regs[0] = 0xF0;
    cpu.regs[1] = 0x0F;
    cpu.alu_ops(0x4208);
    assert_eq!(cpu.regs[0], 0xF0);
    assert!(cpu.cpsr.z());
    // LSL R0, R1 by a register amount of 32.
    cpu.regs[0] = 1;
    cpu.regs[1] = 32;
    cpu.alu_ops(0x4088);
    assert_eq!(cpu.regs[0], 0);
    assert!(cpu.cpsr.c());
    let out = thumb_alu(14, 0xFF, 0x0F, false, false);
    assert_eq!(out.result, 0xF0);
}

#[test]
fn thumb_high_register_operations() {
    let mut cpu = thumb_cpu();
    cpu.regs[0] = 0x1234;
    // MOV R8, R0.
    cpu.hi_reg_op_bx(0x4680);
    assert_eq!(cpu.regs[8], 0x1234);
    // ADD R0, R8.
    cpu.hi_reg_op_bx(0x4440);
    assert_eq!(cpu.regs[0], 0x2468);
    // BX R1 to an ARM address.
    cpu.regs[1] = 0x0800_0000;
    cpu.hi_reg_op_bx(0x4708);
    assert_eq!(cpu.cpsr.state(), State::Arm);
    assert_eq!(cpu.regs[15], 0x0800_0000);
    assert!(cpu.branch);
}

#[test]
fn thumb_loads_and_stores() {
    let mut cpu = thumb_cpu();
    cpu.regs[0] = 0xDEAD_BEEF;
    cpu.regs[1] = 0x0200_0000;
    cpu.regs[2] = 8;
    // STR R0, [R1, R2].
    cpu.load_store_reg::<false, false>(0x5088);
    assert_eq!(cpu.bus.read32(0x0200_0008), 0xDEAD_BEEF);
    // LDRB R3, [R1, R2].
    cpu.load_store_reg::<true, true>(0x5C8B);
    assert_eq!(cpu.regs[3], 0xEF);
    // LDRH R3, [R1, #8] and LDSH R3, [R1, R2].
    cpu.load_store_hw::<true>(0x890B);
    assert_eq!(cpu.regs[3], 0xBEEF);
    cpu.load_store_hw_signext::<true, true>(0x5E8B);
    assert_eq!(cpu.regs[3], 0xFFFF_BEEF);
    // LDSB R3, [R1, R2].
    cpu.load_store_hw_signext::<false, true>(0x568B);
    assert_eq!(cpu.regs[3], 0xFFFF_FFEF);
    // STRH R0, [R1, R2] writes the low half.
    cpu.regs[0] = 0x1111_2222;
    cpu.load_store_hw_signext::<false, false>(0x5288);
    assert_eq!(cpu.bus.read32(0x0200_0008), 0xDEAD_2222);
    // LDR R4, [R1, #8] and STRB R0, [R1, #1].
    cpu.load_store_imm::<true, false>(0x688C);
    assert_eq!(cpu.regs[4], 0xDEAD_2222);
    cpu.load_store_imm::<false, true>(0x7048);
    assert_eq!(cpu.bus.read8(0x0200_0001), 0x22);
    // STR R0, [SP, #4] and LDR R5, [SP, #4].
    cpu.regs[13] = 0x0300_0100;
    cpu.sp_rel_load_store::<false>(0x9001);
    cpu.sp_rel_load_store::<true>(0x9D01);
    assert_eq!(cpu.regs[5], 0x1111_2222);
    // LDR R6, [PC, #4] from an address with bit 1 set.
    cpu.regs[15] = 0x0200_0002;
    cpu.bus.write32(0x0200_0008, 0x0BAD_F00D);
    cpu.pc_rel_load(0x4E01);
    assert_eq!(cpu.regs[6], 0x0BAD_F00D);
}

#[test]
fn thumb_push_and_pop() {
    let mut cpu = thumb_cpu();
    cpu.regs[13] = 0x0300_7F00;
    cpu.regs[0] = 10;
    cpu.regs[1] = 11;
    cpu.regs[14] = 0x0800_0101;
    // PUSH {R0, R1, LR}.
    cpu.push_pop::<false, true>(0xB503);
    assert_eq!(cpu.regs[13], 0x0300_7EF4);
    assert_eq!(cpu.bus.read32(0x0300_7EF4), 10);
    assert_eq!(cpu.bus.read32(0x0300_7EF8), 11);
    assert_eq!(cpu.bus.read32(0x0300_7EFC), 0x0800_0101);
    cpu.regs[0] = 0;
    cpu.regs[1] = 0;
    // POP {R0, R1, PC}.
    cpu.push_pop::<true, true>(0xBD03);
    assert_eq!((cpu.regs[0], cpu.regs[1]), (10, 11));
    assert_eq!(cpu.regs[15], 0x0800_0100);
    assert_eq!(cpu.regs[13], 0x0300_7F00);
    assert!(cpu.branch);
}

#[test]
fn thumb_multiple_load_and_store() {
    let mut cpu = thumb_cpu();
    cpu.regs[0] = 0x0200_0000;
    cpu.regs[1] = 1;
    cpu.regs[2] = 2;
    // STMIA R0!, {R1, R2}.
    cpu.ldm_stm::<false>(0xC006);
    assert_eq!(cpu.regs[0], 0x0200_0008);
    assert_eq!(cpu.bus.read32(0x0200_0000), 1);
    assert_eq!(cpu.bus.read32(0x0200_0004), 2);
    // LDMIA R3!, {R4, R5}.
    cpu.regs[3] = 0x0200_0000;
    cpu.ldm_stm::<true>(0xCB30);
    assert_eq!((cpu.regs[4], cpu.regs[5]), (1, 2));
    assert_eq!(cpu.regs[3], 0x0200_0008);
    // An empty list moves the base by 0x40.
    cpu.regs[15] = 0x0800_0000;
    cpu.ldm_stm::<false>(0xC300);
    assert_eq!(cpu.regs[3], 0x0200_0048);
    assert_eq!(cpu.bus.read32(0x0200_0008), 0x0800_0006);
}

#[test]
fn thumb_branches() {
    let mut cpu = thumb_cpu();
    cpu.regs[15] = 0x0800_0010;
    // BEQ with the zero flag clear is not taken.
    cpu.cond_branch(0xD0FE);
    assert_eq!(cpu.regs[15], 0x0800_0010);
    assert!(!cpu.branch);
    cpu.cpsr.set_z(true);
    cpu.cond_branch(0xD0FE);
    assert_eq!(cpu.regs[15], 0x0800_0010);
    assert!(cpu.branch);
    // B forward by 4 halfwords.
    cpu.branch(0xE004);
    assert_eq!(cpu.regs[15], 0x0800_001C);
    // BL in two halves, offset 0x1002 halfwords.
    cpu.regs[15] = 0x0800_0000;
    cpu.long_branch::<false>(0xF001);
    assert_eq!(cpu.regs[14], 0x0800_1004);
    cpu.regs[15] = 0x0800_0002;
    cpu.long_branch::<true>(0xF802);
    assert_eq!(cpu.regs[15], 0x0800_1008);
    assert_eq!(cpu.regs[14], 0x0800_0005);
}

#[test]
fn thumb_stack_and_address_arithmetic() {
    let mut cpu = thumb_cpu();
    cpu.regs[13] = 0x0300_0100;
    // ADD SP, #8 and SUB SP, #16.
    cpu.add_sp(0xB002);
    assert_eq!(cpu.regs[13], 0x0300_0108);
    cpu.add_sp(0xB084);
    assert_eq!(cpu.regs[13], 0x0300_00F8);
    // ADD R0, SP, #4 and ADD R1, PC, #4.
    cpu.load_addr::<true>(0xA801);
    assert_eq!(cpu.regs[0], 0x0300_00FC);
    cpu.regs[15] = 0x0800_0002;
    cpu.load_addr::<false>(0xA101);
    assert_eq!(cpu.regs[1], 0x0800_0008);
}

#[test]
fn thumb_software_interrupt_returns_behind_the_halfword() {
    let mut cpu = thumb_cpu();
    cpu.regs[15] = 0x0800_0020;
    cpu.t_swi(0xDF00);
    assert_eq!(cpu.cpsr.mode(), Some(Mode::Supervisor));
    assert_eq!(cpu.cpsr.state(), State::Arm);
    assert_eq!(cpu.regs[14], 0x0800_0022);
    assert_eq!(cpu.regs[15], 0x08);
    assert_eq!(cpu.spsr.0, 0x3F);
    let mut cpu = thumb_cpu();
    cpu.regs[15] = 0x0800_0020;
    cpu.t_undefined(0xE800);
    assert_eq!(cpu.cpsr.mode(), Some(Mode::Undefined));
    assert_eq!(cpu.regs[14], 0x0800_0022);
}

#[test]
fn thumb_decoder_table() {
    assert_eq!(decode_thumb(0x18), ThumbInstruction::AddSub { i: false });
    assert_eq!(decode_thumb(0x1E), ThumbInstruction::AddSub { i: true });
    assert_eq!(decode_thumb(0x00), ThumbInstruction::MovShiftedReg);
    assert_eq!(decode_thumb(0x20), ThumbInstruction::MovCompareAluImm);
    assert_eq!(decode_thumb(0x42), ThumbInstruction::AluOps);
    assert_eq!(decode_thumb(0x47), ThumbInstruction::HiRegOpBx);
    assert_eq!(decode_thumb(0x4E), ThumbInstruction::PcRelLoad);
    assert_eq!(decode_thumb(0x5C), ThumbInstruction::LoadStoreReg { l: true, b: true });
    assert_eq!(decode_thumb(0x5E), ThumbInstruction::LoadStoreHwSignext { h: true, s: true });
    assert_eq!(decode_thumb(0x70), ThumbInstruction::LoadStoreImm { l: false, b: true });
    assert_eq!(decode_thumb(0x89), ThumbInstruction::LoadStoreHw { l: true });
    assert_eq!(decode_thumb(0x9D), ThumbInstruction::SpRelLoadStore { l: true });
    assert_eq!(decode_thumb(0xA8), ThumbInstruction::LoadAddr { sp: true });
    assert_eq!(decode_thumb(0xB0), ThumbInstruction::AddSp);
    assert_eq!(decode_thumb(0xBD), ThumbInstruction::PushPop { l: true, r: true });
    assert_eq!(decode_thumb(0xC0), ThumbInstruction::LdmStm { l: false });
    assert_eq!(decode_thumb(0xDF), ThumbInstruction::Swi);
    assert_eq!(decode_thumb(0xD0), ThumbInstruction::CondBranch);
    assert_eq!(decode_thumb(0xE0), ThumbInstruction::Branch);
    assert_eq!(decode_thumb(0xF8), ThumbInstruction::LongBranch { h: true });
    assert_eq!(decode_thumb(0xB1), ThumbInstruction::Undefined);
    assert_eq!(Decoder::new().lookup_thumb(0x202A), ThumbInstruction::MovCompareAluImm);
}

#[test]
fn thumb_cycle_advances_by_two() {
    let mut cpu = thumb_cpu();
    cpu.regs[15] = 0x0200_0000;
    // MOV R0, #1 ; B to itself.
    cpu.bus.write16(0x0200_0000, 0x2001);
    cpu.bus.write16(0x0200_0002, 0xE7FE);
    cpu.cycle();
    assert_eq!(cpu.regs[0], 1);
    assert_eq!(cpu.regs[15], 0x0200_0002);
    cpu.cycle();
    assert_eq!(cpu.regs[15], 0x0200_0002);
}
