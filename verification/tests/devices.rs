use kba::gba::Gba;
use kba::mmu::bus::Bus;
use kba::mmu::dma::{AddrControl, DMAChannels, StartTiming, DMA};
use kba::mmu::irq::{Interrupt, IF};
use kba::mmu::timer::{Freq, Timer, Timers};
use kba::mmu::Mcu;

#[test]
fn timer_0_with_prescaler_1024_overflows_after_1024_cycles() {
    let mut timers = Timers::new();
    let mut iff = IF(0);
    timers.write16(0x0100, 0xFFFF);
    // Start, interrupt on overflow, prescaler 1024.
    timers.write16(0x0102, 0x00C3);
    assert_eq!(timers.0[0].counter, 0xFFFF);
    for cycles in 1..1024 {
        timers.tick(&mut iff, cycles);
        assert_eq!(iff.iff(), 0);
        assert_eq!(timers.0[0].counter, 0xFFFF);
    }
    timers.tick(&mut iff, 1024);
    assert!(iff.has(Interrupt::Timer0));
    assert_eq!(timers.0[0].counter, timers.0[0].reload);
}

#[test]
fn timer_counts_up_and_cascades() {
    let mut timers = Timers::new();
    let mut iff = IF(0);
    timers.write16(0x0100, 0xFFFE);
    timers.write16(0x0102, 0x0080);
    // Timer 1 counts the overflows of timer 0 and requests an interrupt.
    timers.write16(0x0104, 0xFFFF);
    timers.write16(0x0106, 0x00C4);
    timers.tick(&mut iff, 0);
    assert_eq!(timers.read16(0x0100), 0xFFFF);
    assert_eq!(timers.read16(0x0104), 0xFFFF);
    timers.tick(&mut iff, 1);
    assert_eq!(timers.read16(0x0100), 0xFFFE);
    assert_eq!(timers.read16(0x0104), 0xFFFF);
    assert!(iff.has(Interrupt::Timer1));
    // Timer 0 has its interrupt disabled.
    assert!(!iff.has(Interrupt::Timer0));
}

#[test]
fn timer_registers() {
    let mut timers = Timers::new();
    timers.write8(0x0100, 0x34);
    timers.write8(0x0101, 0x12);
    assert_eq!(timers.0[0].reload, 0x1234);
    // The counter reads back, not the reload value.
    assert_eq!(timers.read16(0x0100), 0);
    timers.write16(0x010E, 0x0046);
    assert_eq!(timers.read16(0x010E), 0xFF46);
    assert_eq!(timers.read8(0x010F), 0xFF);
    assert_eq!(timers.0[3].freq, Freq::F256);
    let mut timer = Timer::new();
    timer.counter = 0xFFFF;
    timer.reload = 7;
    assert!(timer.tick());
    assert_eq!(timer.counter, 7);
    assert!(!timer.tick());
    assert_eq!(timer.counter, 8);
    timer.apply_tmr_cnt(0x0081);
    assert_eq!(timer.control(), 0xFF81);
    assert_eq!(timer.counter, 7);
}

#[test]
fn dma_control_register_round_trip() {
    let mut channels = DMAChannels::new();
    channels.write16(0x00BA, 0xB7E0);
    let dma = channels.0[0];
    assert_eq!(dma.dst_addr_ctrl, AddrControl::IncReload);
    assert_eq!(dma.src_addr_ctrl, AddrControl::IncReload);
    assert_eq!(dma.start_timing, StartTiming::Special);
    assert!(dma.repeat && dma.transfer_type && dma.enable && !dma.dma_irq && !dma.pak_drq);
    assert!(dma.enable_edge);
    assert_eq!(channels.read16(0x00BA), 0xB7E0);
    channels.write16(0x00C6, 0x0080);
    assert_eq!(channels.0[1].src_addr_ctrl, AddrControl::Decrement);
    assert_eq!(channels.read16(0x00C6), 0x0080);
    // Unused bits do not read back.
    channels.write16(0x00D2, 0x001F);
    assert_eq!(channels.read16(0x00D2), 0);
    // Address and count registers.
    channels.write16(0x00D4, 0x5678);
    channels.write16(0x00D6, 0xF234);
    assert_eq!(channels.0[3].src, 0x0234_5678);
    channels.write16(0x00B8, 0xFFFF);
    assert_eq!(channels.0[0].word_count, 0x3FFF);
    channels.write16(0x00DC, 0xFFFF);
    assert_eq!(channels.0[3].word_count, 0xFFFF);
    assert_eq!(channels.read16(0x00D4), 0);
    assert_eq!(channels.raw_read16(0x00D4), 0x5678);
    let mut dma = DMA::new();
    dma.apply_dma_cnt(0x8000);
    assert!(dma.enable && dma.enable_edge);
    assert_eq!(dma.units(0), 0x3FFF);
    assert_eq!(dma.units(3), 0xFFFF);
    assert_eq!(AddrControl::Decrement.step(0x100, 4), 0xFC);
    assert_eq!(AddrControl::Fixed.step(0x100, 4), 0x100);
    assert_eq!(AddrControl::Increment.step(0xFFFF_FFFE, 4), 2);
}

#[test]
fn dma_on_vblank_copies_and_disables_the_channel() {
    let mut bus = Bus::with_images(&[], &[]);
    for i in 0..480u32 {
        bus.write8(0x0200_0000 + i, (i % 251) as u8 + 1);
    }
    bus.write32(0x0400_00B0, 0x0200_0000);
    bus.write32(0x0400_00B4, 0x0600_0000);
    bus.write16(0x0400_00B8, 240);
    // Enable, start at vertical blank, 16-bit units, no repeat.
    bus.write16(0x0400_00BA, 0x9000);
    let mut cycles: usize = 0;
    while bus.ppu.vcount.ly() < 160 {
        assert_eq!(bus.read8(0x0600_0000), 0);
        bus.tick(&mut cycles);
        cycles = cycles.wrapping_add(1);
    }
    for i in 0..480u32 {
        assert_eq!(bus.read8(0x0600_0000 + i), (i % 251) as u8 + 1);
    }
    assert_eq!(bus.read8(0x0600_01E0), 0);
    assert!(!bus.dma_channels.0[0].enable);
    assert_eq!(bus.read16(0x0400_00BA) & 0x8000, 0);
    assert_eq!(bus.dma_channels.0[0].src, 0x0200_01E0);
    assert_eq!(bus.dma_channels.0[0].dst, 0x0600_01E0);
    assert!(bus.ppu.dispstat.vblank());
}

#[test]
fn immediate_dma_runs_at_the_next_tick() {
    let mut bus = Bus::with_images(&[], &[]);
    bus.write32(0x0200_0000, 0x1122_3344);
    bus.write32(0x0200_0004, 0x5566_7788);
    bus.write32(0x0400_00D4, 0x0200_0000);
    bus.write32(0x0400_00D8, 0x0300_0000);
    bus.write16(0x0400_00DC, 2);
    // Enable, immediate, 32-bit units, interrupt on completion.
    bus.write16(0x0400_00DE, 0xC400);
    let mut cycles: usize = 0;
    bus.tick(&mut cycles);
    assert_eq!(bus.read32(0x0300_0000), 0x1122_3344);
    assert_eq!(bus.read32(0x0300_0004), 0x5566_7788);
    assert!(!bus.dma_channels.0[3].enable);
    assert!(!bus.dma_channels.0[3].enable_edge);
    assert!(bus.iff.has(Interrupt::DMA3));
    assert_eq!(cycles, 2);
    // Nothing runs again.
    bus.write32(0x0300_0000, 0);
    bus.tick(&mut cycles);
    assert_eq!(bus.read32(0x0300_0000), 0);
}

#[test]
fn console_runs_a_small_program() {
    // MOV R0, #3 ; ADD R0, R0, #4 ; B to itself.
    let rom = [
        0x03, 0x00, 0xA0, 0xE3, 0x04, 0x00, 0x80, 0xE2, 0xFE, 0xFF, 0xFF, 0xEA,
    ];
    let mut gba = Gba::with_rom(&rom, &[]);
    assert_eq!(gba.rom, rom.to_vec());
    gba.cpu.regs[15] = 0x0800_0000;
    gba.run();
    gba.run();
    gba.run();
    gba.run();
    assert_eq!(gba.cpu.regs[0], 7);
    assert_eq!(gba.cpu.regs[15], 0x0800_0008);
    assert_eq!(gba.cycles, 4);
    assert_eq!(gba.cpu.bus.ppu.cycle, 4);
}

#[test]
fn halt_stops_the_processor_until_an_interrupt_waits() {
    let rom = [0x01, 0x00, 0x80, 0xE2, 0xFD, 0xFF, 0xFF, 0xEA];
    let mut gba = Gba::with_rom(&rom, &[]);
    gba.cpu.regs[15] = 0x0800_0000;
    gba.cpu.bus.write8(0x0400_0301, 0);
    gba.run();
    gba.run();
    assert_eq!(gba.cpu.regs[0], 0);
    assert_eq!(gba.cycles, 2);
    gba.cpu.bus.write16(0x0400_0200, 1);
    gba.cpu.bus.iff.set_vblank(true);
    gba.run();
    assert!(!gba.cpu.bus.halt);
    assert_eq!(gba.cpu.regs[0], 1);
}

#[test]
fn program_draws_a_pixel_in_bitmap_mode() {
    // MOV R0, #0x04000000 ; MOV R1, #0x400 ; ORR R1, R1, #3 ; STRH R1, [R0] ;
    // MOV R2, #0x06000000 ; MOV R3, #0x1F ; STRH R3, [R2] ; B to itself.
    let words: [u32; 8] = [
        0xE3A0_0301, 0xE3A0_1B01, 0xE381_1003, 0xE1C0_10B0, 0xE3A0_2406, 0xE3A0_301F, 0xE1C2_30B0, 0xEAFF_FFFE,
    ];
    let mut rom = Vec::new();
    for word in words {
        rom.extend_from_slice(&word.to_le_bytes());
    }
    let mut gba = Gba::with_rom(&rom, &[]);
    gba.cpu.regs[15] = 0x0800_0000;
    assert!(gba.check());
    for _ in 0..1100 {
        gba.run();
    }
    assert!(gba.check());
    assert_eq!(gba.cpu.bus.ppu.dispcnt.0, 0x0403);
    assert_eq!(gba.cpu.bus.read16(0x0600_0000), 0x001F);
    assert_eq!(gba.cpu.bus.ppu.buffer[0], Some(0x001F));
    assert_eq!(gba.cpu.bus.ppu.buffer[1], Some(0));
    assert_eq!(gba.cpu.bus.ppu.buffer[240], None);
    assert_eq!(gba.cpu.regs[15], 0x0800_001C);
    assert_eq!(gba.cycles, 1100);
}

#[test]
fn check_finds_a_console_that_is_out_of_order() {
    let mut gba = Gba::with_rom(&[], &[]);
    assert!(gba.check());
    gba.cpu.cpsr.0 = 0;
    assert!(!gba.check());
    gba.cpu.cpsr.0 = 0x1F;
    gba.cpu.bus.ppu.cycle = 5000;
    assert!(!gba.check());
    gba.cpu.bus.ppu.cycle = 0;
    gba.cpu.decoder.thumb.pop();
    assert!(!gba.check());
}

#[test]
fn repeating_dma_stays_enabled_and_quiet_ticks_copy_nothing() {
    let mut bus = Bus::with_images(&[], &[]);
    bus.write16(0x0200_0000, 0xBEEF);
    bus.write32(0x0400_00B0, 0x0200_0000);
    bus.write32(0x0400_00B4, 0x0600_0000);
    bus.write16(0x0400_00B8, 1);
    // Enable, start at vertical blank, 16-bit units, repeat.
    bus.write16(0x0400_00BA, 0x9200);
    let mut cycles: usize = 0;
    // A tick that ends no phase and sees no enable edge runs no channel;
    // the first tick only forgets the edge.
    for _ in 0..1000 {
        bus.tick(&mut cycles);
        cycles = cycles.wrapping_add(1);
        assert_eq!(bus.read16(0x0600_0000), 0);
        assert!(bus.dma_channels.0[0].enable);
        assert!(!bus.dma_channels.0[0].enable_edge);
    }
    while bus.ppu.vcount.ly() < 160 {
        bus.tick(&mut cycles);
        cycles = cycles.wrapping_add(1);
    }
    assert_eq!(bus.read16(0x0600_0000), 0xBEEF);
    assert!(bus.dma_channels.0[0].enable);
    assert_eq!(bus.dma_channels.0[0].src, 0x0200_0002);
    assert_eq!(bus.dma_channels.0[0].dst, 0x0600_0002);
}
