use kba::bits::{le16, rotate_right, sign_extend};
use kba::mmu::bus::Bus;
use kba::mmu::irq::{Interrupt, IF};
use kba::mmu::Mcu;

fn bus() -> Bus {
    Bus::with_images(&[], &[])
}

#[test]
fn memories_mirror_at_their_size() {
    let mut bus = bus();
    bus.write8(0x0300_0000, 0x5A);
    assert_eq!(bus.read8(0x0300_8000), 0x5A);
    assert_eq!(bus.read8(0x03FF_8000), 0x5A);
    bus.write8(0x0204_0001, 0x11);
    assert_eq!(bus.read8(0x0200_0001), 0x11);
    bus.write8(0x0500_0402, 0x22);
    assert_eq!(bus.read8(0x0500_0002), 0x22);
    bus.write8(0x0601_8003, 0x33);
    assert_eq!(bus.read8(0x0600_0003), 0x33);
    bus.write8(0x0700_0404, 0x44);
    assert_eq!(bus.read8(0x0700_0004), 0x44);
    // The two work memories do not overlap.
    assert_eq!(bus.read8(0x0200_0000), 0);
}

#[test]
fn halfword_and_word_round_trip_in_memory() {
    let mut bus = bus();
    for address in [0x0200_0000u32, 0x0203_FFFE, 0x0300_7FFE, 0x0500_0000, 0x0601_7FFE, 0x0700_03FE] {
        bus.write16(address, 0xA55A);
        assert_eq!(bus.read16(address), 0xA55A);
    }
    bus.write32(0x0200_0100, 0x0102_0304);
    assert_eq!(bus.read32(0x0200_0100), 0x0102_0304);
    assert_eq!(bus.read8(0x0200_0100), 0x04);
    assert_eq!(bus.read8(0x0200_0103), 0x01);
    assert_eq!(bus.read16(0x0200_0102), 0x0102);
}

#[test]
fn bios_and_cartridge_are_read_only() {
    let bios = [1u8, 2, 3, 4];
    let rom = [0x10u8, 0x20, 0x30];
    let mut bus = Bus::with_images(&bios, &rom);
    assert_eq!(bus.read8(0x0000_0002), 3);
    assert_eq!(bus.read8(0x0000_0004), 0);
    assert_eq!(bus.read8(0x0000_4000), 0);
    assert_eq!(bus.read8(0x0800_0001), 0x20);
    // Behind the image the cartridge reads as 0xFF.
    assert_eq!(bus.read8(0x0800_0003), 0xFF);
    assert_eq!(bus.read8(0x09FF_FFFF), 0xFF);
    // The region wraps at 32 MiB.
    assert_eq!(bus.read8(0x0A00_0002), 0x30);
    bus.write8(0x0000_0002, 9);
    bus.write8(0x0800_0001, 9);
    assert_eq!(bus.read8(0x0000_0002), 3);
    assert_eq!(bus.read8(0x0800_0001), 0x20);
    // An address in no region.
    assert_eq!(bus.read8(0x1000_0000), 0);
    bus.write8(0x1000_0000, 1);
    assert_eq!(bus.read8(0x1000_0000), 0);
}

#[test]
fn save_memory_and_chip_identity() {
    let mut bus = bus();
    assert_eq!(bus.read8(0x0E00_0000), 0x62);
    assert_eq!(bus.read8(0x0E00_0001), 0x13);
    bus.write8(0x0E00_0010, 0x77);
    assert_eq!(bus.read8(0x0E00_0010), 0x77);
    assert_eq!(bus.read8(0x0E01_0010), 0x77);
}

#[test]
fn request_flags_are_write_one_to_clear() {
    let mut bus = bus();
    bus.iff = IF(0x0FF5);
    bus.write8(0x0400_0202, 0x05);
    assert_eq!(bus.read16(0x0400_0202), 0x0FF0);
    bus.write8(0x0400_0202, 0x00);
    assert_eq!(bus.read16(0x0400_0202), 0x0FF0);
    bus.write8(0x0400_0203, 0x0F);
    assert_eq!(bus.read16(0x0400_0202), 0x00F0);
    // Every bit that is written as 0 stays.
    bus.iff = IF(0xFFFF);
    bus.write8(0x0400_0202, 0x01);
    assert_eq!(bus.read16(0x0400_0202), 0xFFFE);
    bus.write8(0x0400_0203, 0x00);
    assert_eq!(bus.read16(0x0400_0202), 0xFFFE);
}

#[test]
fn interrupt_enable_registers_read_back() {
    let mut bus = bus();
    bus.write16(0x0400_0200, 0x1234);
    assert_eq!(bus.ie.0, 0x1234);
    assert_eq!(bus.read8(0x0400_0200), 0x34);
    assert_eq!(bus.read8(0x0400_0201), 0x12);
    bus.write8(0x0400_0201, 0xAB);
    assert_eq!(bus.read16(0x0400_0200), 0xAB34);
    bus.write32(0x0400_0208, 0xFFFF_FFFF);
    assert!(bus.ime.enabled());
    assert_eq!(bus.ime.0, 0xFFFF_FF01);
    assert_eq!(bus.read32(0x0400_0208), 0xFFFF_FF01);
    bus.write8(0x0400_0208, 0xFE);
    assert!(!bus.ime.enabled());
    bus.write8(0x0400_020A, 0x12);
    assert_eq!(bus.read8(0x0400_020A), 0x12);
    assert_eq!(bus.ime.0, 0xFF12_FF00);
}

#[test]
fn display_status_keeps_its_read_only_bits() {
    let mut bus = bus();
    bus.ppu.dispstat.set_vblank(true);
    bus.ppu.dispstat.set_v_counter(true);
    bus.write16(0x0400_0004, 0xFF38);
    assert_eq!(bus.read16(0x0400_0004), 0xFF3D);
    bus.write16(0x0400_0004, 0x0002);
    assert_eq!(bus.read16(0x0400_0004), 0x0005);
    // The line counter takes no write.
    bus.write16(0x0400_0006, 0x00FF);
    assert_eq!(bus.read16(0x0400_0006), 0);
    // Registers without read-only bits read back what was written.
    bus.write16(0x0400_0000, 0x1F43);
    assert_eq!(bus.read16(0x0400_0000), 0x1F43);
    bus.write16(0x0400_000A, 0xC30F);
    assert_eq!(bus.read16(0x0400_000A), 0xC30F);
    bus.write8(0x0400_0049, 0x3F);
    assert_eq!(bus.read16(0x0400_0048), 0x3F00);
    // Write-only registers read as 0.
    bus.write16(0x0400_0010, 0x01FF);
    assert_eq!(bus.read16(0x0400_0010), 0);
    assert_eq!(bus.ppu.bgxhofs[0], 0x01FF);
}

#[test]
fn reference_point_registers_take_28_bits() {
    let mut bus = bus();
    bus.write32(0x0400_0028, 0xFFFF_FFFF);
    assert_eq!(bus.ppu.bgxx[0], 0x0FFF_FFFF);
    assert_eq!(bus.ppu.internal_ref_xx[0], 0x0FFF_FFFF);
    bus.write16(0x0400_003C, 0x1234);
    bus.write16(0x0400_003E, 0x0ABC);
    assert_eq!(bus.ppu.bgxy[1], 0x0ABC_1234);
    bus.write16(0x0400_0020, 0xFF00);
    assert_eq!(bus.ppu.bgxpa[0], -256);
}

#[test]
fn keys_read_and_halt_control_writes() {
    let mut bus = bus();
    assert_eq!(bus.read16(0x0400_0130), 0x03FF);
    bus.key_input.set_keyinput(0x03FE);
    assert_eq!(bus.read8(0x0400_0130), 0xFE);
    assert_eq!(bus.read8(0x0400_0131), 0x03);
    bus.write16(0x0400_0130, 0);
    assert_eq!(bus.key_input.keyinput(), 0x03FE);
    assert!(!bus.halt);
    bus.write8(0x0400_0301, 0x00);
    assert!(bus.halt);
    bus.write8(0x0400_0301, 0x80);
    assert!(!bus.halt);
    // An unmapped register.
    assert_eq!(bus.read8(0x0400_0300), 0);
}

#[test]
fn request_flag_helpers() {
    let mut iff = IF(0);
    iff.set_timer(2);
    iff.set_dma(3);
    iff.set_hblank(true);
    assert_eq!(iff.iff(), (1 << 5) | (1 << 11) | (1 << 1));
    assert!(iff.has(Interrupt::Timer2));
    assert!(!iff.has(Interrupt::Timer1));
    iff.set(Interrupt::Timer2, false);
    assert!(!iff.has(Interrupt::Timer2));
    assert_eq!(Interrupt::GamePak.index(), 13);
}

#[test]
fn bit_helpers() {
    assert_eq!(rotate_right(0x0000_00F1, 4), 0x1000_000F);
    assert_eq!(rotate_right(0x1234_5678, 32), 0x1234_5678);
    assert_eq!(sign_extend(0x80, 8), 0xFFFF_FF80);
    assert_eq!(sign_extend(0x7F, 8), 0x7F);
    assert_eq!(sign_extend(0x7FF, 11), 0xFFFF_FFFF);
    assert_eq!(sign_extend(0x80_0000, 24), 0xFF80_0000);
    assert_eq!(sign_extend(0x8000, 16), 0xFFFF_8000);
    assert_eq!(le16(0x34, 0x12), 0x1234);
}

#[test]
fn io_registers_as_a_device() {
    let mut io = kba::mmu::io::Io::default();
    assert_eq!(io.read16(0x0130), 0x03FF);
    io.write16(0x0200, 0x0005);
    assert_eq!(io.read16(0x0200), 0x0005);
    io.write16(0x0000, 0x0403);
    assert_eq!(io.read16(0x0000), 0x0403);
    assert_eq!(io.ppu.dispcnt.0, 0x0403);
    assert_eq!(io.read8(0x0300), 0xFF);
    io.iff = IF(0x0007);
    io.write8(0x0202, 0x02);
    assert_eq!(io.read16(0x0202), 0x0005);
    io.write32(0x0208, 0x1234_5601);
    assert_eq!(io.ime.0, 0x1234_5601);
    assert_eq!(io.read32(0x0208), 0x1234_5601);
    // An interrupt is taken where it is enabled, pending and not masked.
    let mut cpu = kba::arm::interpreter::arm7tdmi::Arm7TDMI::new(&[], &[]);
    cpu.regs[15] = 0x0800_0000;
    io.handle_irq(&mut cpu);
    assert_eq!(cpu.regs[15], 0x18);
    assert_eq!(cpu.regs[14], 0x0800_0004);
    assert_eq!(cpu.cpsr.mode(), Some(kba::arm::interpreter::arm7tdmi::Mode::Irq));
    cpu.regs[15] = 0x40;
    io.handle_irq(&mut cpu);
    assert_eq!(cpu.regs[15], 0x40);
}
