use kba::arm::alu::{add_with_carry, dp, shift_lsl, shift_lsr, sub_with_borrow};
use kba::arm::arr_with;
use kba::arm::interpreter::arm7tdmi::{Arm7TDMI, Cpsr, Mode, State};
use kba::arm::interpreter::decode::{decode_arm, ArmInstruction, Decoder};
use kba::mmu::Mcu;

fn cpu() -> Arm7TDMI {
    Arm7TDMI::new(&[], &[])
}

#[test]
fn new_cpu_starts_in_system_mode() {
    let cpu = cpu();
    assert_eq!(cpu.cpsr.0, 0x1F);
    assert_eq!(cpu.cpsr.mode(), Some(Mode::System));
    assert_eq!(cpu.cpsr.state(), State::Arm);
    assert_eq!(cpu.regs, [0; 16]);
    assert!(!cpu.branch);
}

#[test]
fn cmp_sets_borrow_flags() {
    // CMP R0, R1 with R0 = 0 and R1 = 1.
    let mut cpu = cpu();
    cpu.regs[0] = 0;
    cpu.regs[1] = 1;
    cpu.data_processing::<false, true>(0xE150_0001);
    assert!(cpu.cpsr.n());
    assert!(!cpu.cpsr.z());
    assert!(!cpu.cpsr.c());
    assert!(!cpu.cpsr.v());
    assert_eq!(cpu.regs[0], 0);
}

#[test]
fn swi_switches_to_supervisor_and_keeps_user_stack() {
    let mut cpu = cpu();
    cpu.cpsr = Cpsr(0x10);
    cpu.regs[13] = 0x0300_7F00;
    cpu.regs[15] = 0x0800_0100;
    cpu.swi::<false>(0xEF00_0000);
    assert_eq!(cpu.cpsr.mode(), Some(Mode::Supervisor));
    assert_eq!(cpu.spsr.0, 0x10);
    assert_eq!(cpu.banked_regs.0[Mode::User.bank()].bank[5], 0x0300_7F00);
    assert_eq!(cpu.regs[15], 0x08);
    assert_eq!(cpu.regs[14], 0x0800_0104);
    assert!(cpu.cpsr.irq());
    assert_eq!(cpu.cpsr.state(), State::Arm);
    // Bit 4 of the status register stays set.
    assert_eq!(cpu.cpsr.0 & 0x10, 0x10);
}

#[test]
fn movs_lsr_zero_is_lsr_32() {
    // MOVS R0, R1, LSR #0 with R1 = 0x80000000.
    let mut cpu = cpu();
    cpu.regs[1] = 0x8000_0000;
    cpu.regs[0] = 0xFFFF_FFFF;
    cpu.data_processing::<false, true>(0xE1B0_0021);
    assert_eq!(cpu.regs[0], 0);
    assert!(cpu.cpsr.c());
    assert!(cpu.cpsr.z());
}

#[test]
fn stmia_writes_back_and_stores_ascending() {
    // STMIA R0!, {R1, R2, R3}.
    let mut cpu = cpu();
    cpu.regs[0] = 0x0200_0000;
    cpu.regs[1] = 1;
    cpu.regs[2] = 2;
    cpu.regs[3] = 3;
    cpu.block_data_transfer::<false, true, false, true, false>(0xE8A0_000E);
    let expected = [1u8, 0, 0, 0, 2, 0, 0, 0, 3, 0, 0, 0];
    for (i, byte) in expected.iter().enumerate() {
        assert_eq!(cpu.bus.wram[i], *byte);
        assert_eq!(cpu.bus.read8(0x0200_0000 + i as u32), *byte);
    }
    assert_eq!(cpu.regs[0], 0x0200_000C);
}

#[test]
fn stmdb_puts_lowest_register_at_lowest_address() {
    // STMDB R0!, {R1, R2}.
    let mut cpu = cpu();
    cpu.regs[0] = 0x0200_0010;
    cpu.regs[1] = 0x11;
    cpu.regs[2] = 0x22;
    cpu.block_data_transfer::<true, false, false, true, false>(0xE920_0006);
    assert_eq!(cpu.bus.read32(0x0200_0008), 0x11);
    assert_eq!(cpu.bus.read32(0x0200_000C), 0x22);
    assert_eq!(cpu.regs[0], 0x0200_0008);
}

#[test]
fn ldm_with_empty_list_loads_pc_and_moves_base_by_0x40() {
    let mut cpu = cpu();
    cpu.regs[0] = 0x0200_0000;
    cpu.bus.write32(0x0200_0000, 0x0800_1234);
    // LDMIA R0, {} with writeback bit clear.
    cpu.block_data_transfer::<false, true, false, false, true>(0xE890_0000);
    assert_eq!(cpu.regs[15], 0x0800_1234);
    assert_eq!(cpu.regs[0], 0x0200_0040);
    assert!(cpu.branch);
}

#[test]
fn stm_of_base_not_first_stores_new_base() {
    // STMIA R1!, {R0, R1}.
    let mut cpu = cpu();
    cpu.regs[0] = 7;
    cpu.regs[1] = 0x0200_0000;
    cpu.block_data_transfer::<false, true, false, true, false>(0xE8A1_0003);
    assert_eq!(cpu.bus.read32(0x0200_0000), 7);
    assert_eq!(cpu.bus.read32(0x0200_0004), 0x0200_0008);
    // STMIA R0!, {R0, R1}: the base is first, the old value is stored.
    let mut cpu = self::cpu();
    cpu.regs[0] = 0x0200_0000;
    cpu.regs[1] = 9;
    cpu.block_data_transfer::<false, true, false, true, false>(0xE8A0_0003);
    assert_eq!(cpu.bus.read32(0x0200_0000), 0x0200_0000);
    assert_eq!(cpu.bus.read32(0x0200_0004), 9);
}

#[test]
fn ldm_with_base_in_list_suppresses_writeback() {
    // LDMIA R0!, {R0, R1}.
    let mut cpu = cpu();
    cpu.regs[0] = 0x0200_0000;
    cpu.bus.write32(0x0200_0000, 0xAAAA_0001);
    cpu.bus.write32(0x0200_0004, 0xBBBB_0002);
    cpu.block_data_transfer::<false, true, false, true, true>(0xE8B0_0003);
    assert_eq!(cpu.regs[0], 0xAAAA_0001);
    assert_eq!(cpu.regs[1], 0xBBBB_0002);
}

#[test]
fn ldr_from_unaligned_address_rotates() {
    let mut cpu = cpu();
    cpu.bus.write32(0x0200_0000, 0x4433_2211);
    cpu.regs[1] = 0x0200_0001;
    // LDR R0, [R1].
    cpu.single_data_transfer::<false, true, true, false, false, true>(0xE591_0000);
    assert_eq!(cpu.regs[0], 0x4433_2211u32.rotate_right(8));
    cpu.regs[1] = 0x0200_0003;
    cpu.single_data_transfer::<false, true, true, false, false, true>(0xE591_0000);
    assert_eq!(cpu.regs[0], 0x4433_2211u32.rotate_right(24));
}

#[test]
fn str_byte_stores_low_byte_and_post_index_writes_back() {
    let mut cpu = cpu();
    cpu.regs[0] = 0x1234_56AB;
    cpu.regs[1] = 0x0300_0010;
    // STRB R0, [R1], #4.
    cpu.single_data_transfer::<false, false, true, true, false, false>(0xE4C1_0004);
    assert_eq!(cpu.bus.read8(0x0300_0010), 0xAB);
    assert_eq!(cpu.bus.read8(0x0300_0011), 0);
    assert_eq!(cpu.regs[1], 0x0300_0014);
}

#[test]
fn ldrsh_from_odd_address_behaves_as_ldrsb() {
    let mut cpu = cpu();
    cpu.bus.write16(0x0200_0000, 0x80F1);
    cpu.regs[1] = 0x0200_0001;
    // LDRSH R0, [R1].
    cpu.hw_signed_data_transfer::<true, true, true, false, true, true, true>(0xE1D1_00F0);
    assert_eq!(cpu.regs[0], 0xFFFF_FF80);
    cpu.regs[1] = 0x0200_0000;
    cpu.hw_signed_data_transfer::<true, true, true, false, true, true, true>(0xE1D1_00F0);
    assert_eq!(cpu.regs[0], 0xFFFF_80F1);
    // LDRH from an odd address rotates by 8.
    cpu.regs[1] = 0x0200_0001;
    cpu.hw_signed_data_transfer::<true, true, true, false, true, false, true>(0xE1D1_00B0);
    assert_eq!(cpu.regs[0], 0x80F1u32.rotate_right(8));
}

#[test]
fn swp_exchanges_register_and_memory() {
    let mut cpu = cpu();
    cpu.bus.write32(0x0200_0020, 0xCAFE_BABE);
    cpu.regs[1] = 0x0200_0020;
    cpu.regs[2] = 0x1111_2222;
    // SWP R0, R2, [R1].
    cpu.swap::<false>(0xE101_0092);
    assert_eq!(cpu.regs[0], 0xCAFE_BABE);
    assert_eq!(cpu.bus.read32(0x0200_0020), 0x1111_2222);
}

#[test]
fn add_then_sub_gives_first_operand_back() {
    for (rn, op2) in [(0u32, 0u32), (5, 7), (0xFFFF_FFFF, 1), (0x8000_0000, 0x8000_0000), (123, 0xFFFF_FF00)] {
        let sum = dp(4, rn, op2, false, false, false).result;
        assert_eq!(dp(2, sum, op2, false, false, false).result, rn);
    }
}

#[test]
fn adder_flags() {
    let out = add_with_carry(0xFFFF_FFFF, 1, false);
    assert_eq!((out.result, out.carry, out.overflow), (0, true, false));
    let out = add_with_carry(0x7FFF_FFFF, 1, false);
    assert_eq!((out.result, out.carry, out.overflow), (0x8000_0000, false, true));
    let out = add_with_carry(1, 1, true);
    assert_eq!((out.result, out.carry, out.overflow), (3, false, false));
    let out = sub_with_borrow(5, 5, false);
    assert_eq!((out.result, out.carry, out.overflow), (0, true, false));
    let out = sub_with_borrow(0x8000_0000, 1, false);
    assert_eq!((out.result, out.carry, out.overflow), (0x7FFF_FFFF, true, true));
    // SBC with a clear carry flag borrows one more.
    let out = sub_with_borrow(5, 5, true);
    assert_eq!((out.result, out.carry, out.overflow), (0xFFFF_FFFF, false, false));
}

#[test]
fn lsl_by_32_gives_zero_and_bit_0() {
    assert_eq!(shift_lsl(0x8000_0001, 32, false), (0, true));
    assert_eq!(shift_lsl(0x8000_0000, 32, true), (0, false));
    assert_eq!(shift_lsl(0xFFFF_FFFF, 33, true), (0, false));
    assert_eq!(shift_lsl(0x4000_0001, 1, false), (0x8000_0002, false));
    assert_eq!(shift_lsl(0x8000_0001, 1, false), (2, true));
    assert_eq!(shift_lsl(0x1234, 0, true), (0x1234, true));
    assert_eq!(shift_lsr(0x8000_0000, 0, false, false), (0, true));
    assert_eq!(shift_lsr(3, 1, true, false), (1, true));
    let cpu = cpu();
    assert_eq!(cpu.lsl(3, 32, true), (0, true));
    assert_eq!(cpu.asr(0x8000_0000, 0, false), (0xFFFF_FFFF, true));
    assert_eq!(cpu.asr(0x8000_0000, 4, false), (0xF800_0000, false));
    assert_eq!(cpu.ror(0x0000_0001, 0, false), (0, true));
    assert_eq!(cpu.ror(0x0000_00F1, 4, true), (0x1000_000F, false));
    assert_eq!(cpu.lsr(0x10, 0, true), (0x10, false));
}

#[test]
fn barrel_shifter_immediate_rotates() {
    let cpu = cpu();
    // 0xFF rotated right by 2 * 4.
    assert_eq!(cpu.barrel_shifter::<true>(0x4FF), (0xFF00_0000, true));
    assert_eq!(cpu.barrel_shifter::<true>(0x0FF), (0xFF, false));
}

#[test]
fn condition_codes() {
    let mut cpu = cpu();
    cpu.cpsr = Cpsr(0x4000_001F);
    assert!(cpu.cond(0));
    assert!(!cpu.cond(1));
    assert!(cpu.cond(9));
    assert!(cpu.cond(10));
    assert!(!cpu.cond(12));
    assert!(cpu.cond(13));
    assert!(cpu.cond(14));
    assert!(cpu.cond(15));
    cpu.cpsr = Cpsr(0x9000_001F);
    assert!(cpu.cond(4));
    assert!(cpu.cond(6));
    assert!(cpu.cond(10));
    cpu.cpsr = Cpsr(0x2000_001F);
    assert!(cpu.cond(2));
    assert!(cpu.cond(8));
}

#[test]
fn multiply_and_accumulate() {
    let mut cpu = cpu();
    cpu.regs[1] = 6;
    cpu.regs[2] = 7;
    cpu.regs[3] = 100;
    // MLA R0, R1, R2, R3.
    cpu.multiply::<false>(0xE020_3291);
    assert_eq!(cpu.regs[0], 142);
    // MULS R0, R1, R2 with a wrapping product.
    cpu.regs[1] = 0x8000_0000;
    cpu.regs[2] = 2;
    cpu.multiply::<true>(0xE010_0291);
    assert_eq!(cpu.regs[0], 0);
    assert!(cpu.cpsr.z());
}

#[test]
fn multiply_long_signed_and_unsigned() {
    let mut cpu = cpu();
    cpu.regs[2] = 0xFFFF_FFFF;
    cpu.regs[3] = 2;
    // UMULL R0, R1, R2, R3.
    cpu.multiply_long::<false>(0xE081_0392);
    assert_eq!((cpu.regs[1], cpu.regs[0]), (1, 0xFFFF_FFFE));
    // SMULLS R0, R1, R2, R3: -1 * 2.
    cpu.multiply_long::<true>(0xE0D1_0392);
    assert_eq!((cpu.regs[1], cpu.regs[0]), (0xFFFF_FFFF, 0xFFFF_FFFE));
    assert!(cpu.cpsr.n());
    // UMLAL adds the old 64 bits.
    cpu.regs[0] = 1;
    cpu.regs[1] = 0;
    cpu.regs[2] = 3;
    cpu.regs[3] = 4;
    cpu.multiply_long::<false>(0xE0A1_0392);
    assert_eq!((cpu.regs[1], cpu.regs[0]), (0, 13));
}

#[test]
fn branch_with_link_and_exchange() {
    let mut cpu = cpu();
    cpu.regs[15] = 0x0800_0000;
    // BL with offset -2 words.
    cpu.bl(0xEBFF_FFFE);
    assert_eq!(cpu.regs[14], 0x0800_0004);
    assert_eq!(cpu.regs[15], 0x0800_0000);
    assert!(cpu.branch);
    cpu.regs[3] = 0x0300_0101;
    cpu.bx(0xE12F_FF13);
    assert_eq!(cpu.cpsr.state(), State::Thumb);
    assert_eq!(cpu.regs[15], 0x0300_0100);
    // Only bit 0 is cleared: an ARM target keeps its bit 1.
    cpu.regs[3] = 0x0300_0202;
    cpu.bx(0xE12F_FF13);
    assert_eq!(cpu.cpsr.state(), State::Arm);
    assert_eq!(cpu.regs[15], 0x0300_0202);
    cpu.regs[3] = 0x0200_0002;
    cpu.bx(0xE12F_FF13);
    assert_eq!(cpu.regs[15], 0x0200_0002);
    cpu.regs[3] = 0x0200_0003;
    cpu.bx(0xE12F_FF13);
    assert_eq!(cpu.cpsr.state(), State::Thumb);
    assert_eq!(cpu.regs[15], 0x0200_0002);
    // B and BL do not round: from 0x02000002 the target is PC + 8 + offset
    // and the link value PC + 4.
    cpu.cpsr.set_state(State::Arm);
    cpu.bl(0xEB00_0001);
    assert_eq!(cpu.regs[15], 0x0200_000E);
    assert_eq!(cpu.regs[14], 0x0200_0006);
    cpu.bl(0xEAFF_FFFF);
    assert_eq!(cpu.regs[15], 0x0200_0012);
    assert_eq!(cpu.regs[14], 0x0200_0006);
}

#[test]
fn mode_switch_keeps_every_register() {
    let mut cpu = cpu();
    for r in 0..16 {
        cpu.regs[r] = 0x100 + r as u32;
    }
    cpu.swap_regs(Mode::System, Mode::Fiq);
    cpu.cpsr.set_mode(Mode::Fiq);
    for r in 8..15 {
        cpu.regs[r] = 0xF00 + r as u32;
    }
    cpu.swap_regs(Mode::Fiq, Mode::Irq);
    cpu.cpsr.set_mode(Mode::Irq);
    for r in 8..13 {
        assert_eq!(cpu.regs[r], 0x100 + r as u32);
    }
    cpu.regs[13] = 0x1313;
    cpu.swap_regs(Mode::Irq, Mode::User);
    cpu.cpsr.set_mode(Mode::User);
    for r in 0..16 {
        assert_eq!(cpu.regs[r], 0x100 + r as u32);
    }
    assert_eq!(cpu.banked_regs.0[Mode::Irq.bank()].bank[5], 0x1313);
    for r in 8..15 {
        assert_eq!(cpu.banked_regs.0[Mode::Fiq.bank()].bank[r - 8], 0xF00 + r as u32);
    }
}

#[test]
fn msr_changes_mode_and_mrs_reads_back() {
    let mut cpu = cpu();
    cpu.regs[13] = 0xAAAA;
    cpu.regs[0] = 0x0000_0012;
    // MSR CPSR_fc, R0.
    cpu.psr_transfer::<false, false>(0xE129_F000);
    assert_eq!(cpu.cpsr.mode(), Some(Mode::Irq));
    assert_eq!(cpu.banked_regs.0[0].bank[5], 0xAAAA);
    // MRS R1, CPSR.
    cpu.psr_transfer::<false, false>(0xE10F_1000);
    assert_eq!(cpu.regs[1], 0x12);
    // Mode bits that name no mode leave the mode as it is.
    cpu.regs[0] = 0x0000_0004;
    cpu.psr_transfer::<false, false>(0xE129_F000);
    assert_eq!(cpu.cpsr.mode(), Some(Mode::Irq));
    // User mode can write the flags only.
    let mut cpu = self::cpu();
    cpu.cpsr = Cpsr(0x10);
    cpu.regs[0] = 0xF000_001F;
    cpu.psr_transfer::<false, false>(0xE129_F000);
    assert_eq!(cpu.cpsr.0, 0xF000_0010);
}

#[test]
fn movs_pc_restores_status_and_bank() {
    let mut cpu = cpu();
    cpu.cpsr = Cpsr(0x10);
    cpu.regs[13] = 0x0300_7F00;
    cpu.regs[15] = 0x0800_0000;
    cpu.swi::<false>(0xEF00_0000);
    cpu.regs[13] = 0x0300_7FE0;
    // MOVS PC, LR.
    cpu.data_processing::<false, true>(0xE1B0_F00E);
    assert_eq!(cpu.cpsr.0, 0x10);
    assert_eq!(cpu.regs[13], 0x0300_7F00);
    assert_eq!(cpu.regs[15], 0x0800_0004);
    assert!(cpu.branch);
}

#[test]
fn irq_dispatch_needs_enable_pending_and_unmasked() {
    let mut cpu = cpu();
    cpu.regs[15] = 0x0800_0010;
    cpu.bus.write16(0x0400_0200, 0x0001);
    cpu.bus.iff.set_vblank(true);
    cpu.dispatch_irq();
    assert_eq!(cpu.regs[15], 0x0800_0010);
    cpu.bus.write8(0x0400_0208, 1);
    cpu.dispatch_irq();
    assert_eq!(cpu.cpsr.mode(), Some(Mode::Irq));
    assert_eq!(cpu.regs[15], 0x18);
    assert_eq!(cpu.regs[14], 0x0800_0014);
    assert_eq!(cpu.spsr.0, 0x1F);
    assert!(cpu.cpsr.irq());
    // Masked now: nothing more happens.
    cpu.regs[15] = 0x20;
    cpu.dispatch_irq();
    assert_eq!(cpu.regs[15], 0x20);
}

#[test]
fn undefined_instruction_takes_the_exception() {
    let mut cpu = cpu();
    cpu.regs[15] = 0x0800_0000;
    cpu.undefined(0xE7F0_00F0);
    assert_eq!(cpu.cpsr.mode(), Some(Mode::Undefined));
    assert_eq!(cpu.regs[15], 0x04);
    assert_eq!(cpu.regs[14], 0x0800_0004);
}

#[test]
fn decoder_follows_the_pattern_list() {
    let d = Decoder::new();
    assert_eq!(d.lookup_arm(0xE000_0291), ArmInstruction::Multiply { s: false });
    assert_eq!(d.lookup_arm(0xE0D1_0392), ArmInstruction::MultiplyLong { s: true });
    assert_eq!(d.lookup_arm(0xE141_0092), ArmInstruction::Swap { b: true });
    assert_eq!(d.lookup_arm(0xE12F_FF13), ArmInstruction::Bx);
    assert_eq!(d.lookup_arm(0xEBFF_FFFE), ArmInstruction::Bl);
    assert_eq!(
        d.lookup_arm(0xE1D1_00F0),
        ArmInstruction::HwSignedDataTransfer { i: true, p: true, u: true, w: false, l: true, s: true, h: true }
    );
    assert_eq!(
        d.lookup_arm(0xE8A0_000E),
        ArmInstruction::BlockDataTransfer { p: false, u: true, s: false, w: true, l: false }
    );
    assert_eq!(d.lookup_arm(0xE129_F000), ArmInstruction::PsrTransfer { i: false, psr: false });
    assert_eq!(d.lookup_arm(0xE150_0001), ArmInstruction::DataProcessing { i: false, s: true });
    assert_eq!(
        d.lookup_arm(0xE591_0000),
        ArmInstruction::SingleDataTransfer { i: false, p: true, u: true, b: false, w: false, l: true }
    );
    assert_eq!(d.lookup_arm(0xEF00_0000), ArmInstruction::Swi);
    assert_eq!(d.lookup_arm(0xEE00_0000), ArmInstruction::Undefined);
    assert_eq!(decode_arm(0x009), ArmInstruction::Multiply { s: false });
    assert_eq!(d.arm.len(), 4096);
    assert_eq!(d.thumb.len(), 256);
}

#[test]
fn cycle_fetches_executes_and_advances() {
    let mut cpu = cpu();
    cpu.regs[15] = 0x0200_0000;
    // MOV R0, #5 ; conditional MOVEQ R1, #1 (not taken) ; B to itself.
    cpu.bus.write32(0x0200_0000, 0xE3A0_0005);
    cpu.bus.write32(0x0200_0004, 0x03A0_1001);
    cpu.bus.write32(0x0200_0008, 0xEAFF_FFFE);
    cpu.cycle();
    assert_eq!(cpu.regs[0], 5);
    assert_eq!(cpu.regs[15], 0x0200_0004);
    cpu.cycle();
    assert_eq!(cpu.regs[1], 0);
    assert_eq!(cpu.regs[15], 0x0200_0008);
    cpu.cycle();
    assert_eq!(cpu.regs[15], 0x0200_0008);
    assert!(!cpu.branch);
}

#[test]
fn arr_with_places_one_value() {
    let a: [u32; 7] = arr_with(5, 9);
    assert_eq!(a, [0, 0, 0, 0, 0, 9, 0]);
}

#[test]
fn state_converts_to_and_from_the_t_bit() {
    assert_eq!(State::from(true), State::Thumb);
    assert_eq!(State::from(false), State::Arm);
    assert!(bool::from(State::Thumb));
    assert!(!bool::from(State::Arm));
}

#[test]
fn block_transfer_of_user_registers_from_supervisor_mode() {
    let mut cpu = cpu();
    cpu.cpsr = Cpsr(0x10);
    cpu.regs[13] = 0x1000;
    cpu.regs[15] = 0x0800_0000;
    cpu.swi::<false>(0xEF00_0000);
    cpu.regs[13] = 0x2000;
    cpu.regs[0] = 0x0200_0000;
    // STMIA R0, {R13}^ stores the stack pointer of User mode.
    cpu.block_data_transfer::<false, true, true, false, false>(0xE8C0_2000);
    assert_eq!(cpu.bus.read32(0x0200_0000), 0x1000);
    // LDMIA R0, {R13}^ loads it, and leaves that of Supervisor mode.
    cpu.bus.write32(0x0200_0000, 0x3333);
    cpu.block_data_transfer::<false, true, true, false, true>(0xE8D0_2000);
    assert_eq!(cpu.regs[13], 0x2000);
    assert_eq!(cpu.banked_regs.0[Mode::User.bank()].bank[5], 0x3333);
    assert_eq!(cpu.cpsr.mode(), Some(Mode::Supervisor));
}

#[test]
fn block_load_of_pc_with_s_returns_from_the_exception() {
    let mut cpu = cpu();
    cpu.cpsr = Cpsr(0x10);
    cpu.regs[13] = 0x1000;
    cpu.regs[15] = 0x0800_0000;
    cpu.swi::<false>(0xEF00_0000);
    cpu.regs[13] = 0x0300_0000;
    cpu.bus.write32(0x0300_0000, 0x77);
    cpu.bus.write32(0x0300_0004, 0x0800_0004);
    // LDMIA R13!, {R0, PC}^.
    cpu.block_data_transfer::<false, true, true, true, true>(0xE8FD_8001);
    assert_eq!(cpu.cpsr.0, 0x10);
    assert_eq!(cpu.regs[0], 0x77);
    assert_eq!(cpu.regs[15], 0x0800_0004);
    assert!(cpu.branch);
    // The stack pointer of User mode is live again; that of Supervisor mode was written back.
    assert_eq!(cpu.regs[13], 0x1000);
    assert_eq!(cpu.banked_regs.0[Mode::Supervisor.bank()].bank[5], 0x0300_0008);
}

#[test]
fn saved_status_register_transfers() {
    let mut cpu = cpu();
    // System mode has no saved status register: MRS reads the current one, MSR is dropped.
    cpu.psr_transfer::<false, true>(0xE14F_0000);
    assert_eq!(cpu.regs[0], 0x1F);
    cpu.regs[1] = 0xF000_0013;
    cpu.psr_transfer::<false, true>(0xE169_F001);
    assert_eq!(cpu.cpsr.0, 0x1F);
    assert_eq!(cpu.spsr.0, 0x10);
    // In Supervisor mode both reach the saved status register.
    cpu.swi::<false>(0xEF00_0000);
    cpu.psr_transfer::<false, true>(0xE169_F001);
    assert_eq!(cpu.spsr.0, 0xF000_0013);
    cpu.psr_transfer::<false, true>(0xE14F_2000);
    assert_eq!(cpu.regs[2], 0xF000_0013);
    // MSR CPSR_f, #0x40000000 writes the flags only.
    cpu.psr_transfer::<true, false>(0xE328_F101);
    assert!(cpu.cpsr.z());
    assert_eq!(cpu.cpsr.mode(), Some(Mode::Supervisor));
}

#[test]
fn program_counter_reads_ahead() {
    let mut cpu = cpu();
    cpu.regs[15] = 0x0800_0000;
    // MOV R0, PC reads 8 bytes ahead.
    cpu.data_processing::<false, false>(0xE1A0_000F);
    assert_eq!(cpu.regs[0], 0x0800_0008);
    // MOV R0, PC, LSL R1 reads 12 bytes ahead.
    cpu.regs[1] = 0;
    cpu.data_processing::<false, false>(0xE1A0_011F);
    assert_eq!(cpu.regs[0], 0x0800_000C);
    // ADD R0, PC, R1, LSL R2 reads 12 bytes ahead as first operand too.
    cpu.regs[2] = 0;
    cpu.data_processing::<false, false>(0xE08F_0211);
    assert_eq!(cpu.regs[0], 0x0800_000C);
    // STR PC, [R3] stores 12 bytes ahead.
    cpu.regs[3] = 0x0200_0000;
    cpu.single_data_transfer::<false, true, true, false, false, false>(0xE583_F000);
    assert_eq!(cpu.bus.read32(0x0200_0000), 0x0800_000C);
    // LDR R4, [PC, #-8] loads the instruction word itself.
    cpu.regs[15] = 0x0200_0000;
    cpu.single_data_transfer::<false, true, false, false, false, true>(0xE51F_4008);
    assert_eq!(cpu.regs[4], 0x0800_000C);
}

#[test]
fn operations_with_carry() {
    let mut cpu = cpu();
    cpu.cpsr.set_c(true);
    cpu.regs[1] = 5;
    cpu.regs[2] = 3;
    // ADC R0, R1, R2 ; SBC R0, R1, R2 ; RSC R0, R1, R2.
    cpu.data_processing::<false, false>(0xE0A1_0002);
    assert_eq!(cpu.regs[0], 9);
    cpu.data_processing::<false, false>(0xE0C1_0002);
    assert_eq!(cpu.regs[0], 2);
    cpu.data_processing::<false, false>(0xE0E1_0002);
    assert_eq!(cpu.regs[0], 0xFFFF_FFFE);
    cpu.cpsr.set_c(false);
    cpu.data_processing::<false, false>(0xE0C1_0002);
    assert_eq!(cpu.regs[0], 1);
    // Without S no flag changes.
    assert!(!cpu.cpsr.c() && !cpu.cpsr.z() && !cpu.cpsr.n() && !cpu.cpsr.v());
    // ANDS with a shifter carry; the overflow flag stays.
    cpu.cpsr.set_v(true);
    cpu.regs[2] = 0x8000_0001;
    cpu.data_processing::<false, true>(0xE011_0082);
    assert_eq!(cpu.regs[0], 0);
    assert!(cpu.cpsr.c() && cpu.cpsr.z() && cpu.cpsr.v());
    // BIC, MVN, ORR, EOR, RSB.
    cpu.regs[1] = 0xFF;
    cpu.regs[2] = 0x0F;
    cpu.data_processing::<false, false>(0xE1C1_0002);
    assert_eq!(cpu.regs[0], 0xF0);
    cpu.data_processing::<false, false>(0xE1E0_0002);
    assert_eq!(cpu.regs[0], 0xFFFF_FFF0);
    cpu.data_processing::<false, false>(0xE181_0002);
    assert_eq!(cpu.regs[0], 0xFF);
    cpu.data_processing::<false, false>(0xE021_0002);
    assert_eq!(cpu.regs[0], 0xF0);
    cpu.data_processing::<false, false>(0xE061_0002);
    assert_eq!(cpu.regs[0], 0xFFFF_FF10);
    // TST, TEQ and CMN write no register.
    cpu.regs[0] = 1;
    cpu.data_processing::<false, true>(0xE111_0002);
    cpu.data_processing::<false, true>(0xE131_0002);
    cpu.data_processing::<false, true>(0xE171_0002);
    assert_eq!(cpu.regs[0], 1);
}

#[test]
fn halfword_store_and_register_offsets() {
    let mut cpu = cpu();
    cpu.regs[0] = 0xABCD_1234;
    cpu.regs[1] = 0x0200_0010;
    cpu.regs[2] = 4;
    // STRH R0, [R1, R2]! stores the low half and writes back.
    cpu.hw_signed_data_transfer::<false, true, true, true, false, false, true>(0xE1A1_00B2);
    assert_eq!(cpu.bus.read16(0x0200_0014), 0x1234);
    assert_eq!(cpu.regs[1], 0x0200_0014);
    // LDRSB R3, [R1], #-2.
    cpu.bus.write8(0x0200_0014, 0x80);
    cpu.hw_signed_data_transfer::<true, false, false, false, true, true, false>(0xE051_30D2);
    assert_eq!(cpu.regs[3], 0xFFFF_FF80);
    assert_eq!(cpu.regs[1], 0x0200_0012);
    // LDR R4, [R1, -R2, LSL #1] with a shifted register offset.
    cpu.bus.write32(0x0200_0008, 0x600D_F00D);
    cpu.regs[1] = 0x0200_0010;
    cpu.single_data_transfer::<true, true, false, false, false, true>(0xE711_4082);
    assert_eq!(cpu.regs[4], 0x600D_F00D);
    // SWPB R5, R0, [R1].
    cpu.bus.write8(0x0200_0010, 0x99);
    cpu.swap::<true>(0xE141_5090);
    assert_eq!(cpu.regs[5], 0x99);
    assert_eq!(cpu.bus.read8(0x0200_0010), 0x34);
}
