//! What holds of a whole DMA transfer from the work memory on the board
//! into video memory, and of the ticks in which no channel runs.
use vstd::prelude::*;
use vstd::array::spec_array_update;
use crate::bits::{lemma_le16_bytes, lemma_tabulate, lemma_tabulate_unique, tabulate};
use crate::mmu::bus::{Bus, VRAM_SIZE, WRAM_SIZE};
use crate::mmu::dma::{AddrControl, StartTiming, DMA};
use crate::mmu::{peek16, poke16, Mcu};
use crate::ppu::lcd::{Mode, Ppu, TOTAL_LEN};
use crate::ppu::scanline::{ends_phase, lemma_phase_kept, lemma_vblank_entry};

verus! {

/// The bytes of the work memory from offset `from` on, as a function of
/// the distance.
pub open spec fn wram_from(wram: [u8; WRAM_SIZE], from: int) -> spec_fn(int) -> u8 {
    |i: int| wram[from + i]
}

/// Whether `units` 16-bit units that start at `src` lie in the work memory
/// on the board without running over the end of the memory.
pub open spec fn source_in_ewram(src: u32, units: nat) -> bool {
    &&& 0x0200_0000 <= src
    &&& src + 2 * units <= 0x0300_0000
    &&& src as int % 0x40000 + 2 * units <= 0x40000
}

/// Whether `units` 16-bit units that start at `dst` lie in video memory
/// without running over the end of the memory.
pub open spec fn target_in_vram(dst: u32, units: nat) -> bool {
    &&& 0x0600_0000 <= dst
    &&& dst + 2 * units <= 0x0700_0000
    &&& dst as int % 0x18000 + 2 * units <= 0x18000
}

/// Whether two buses hold the same in every memory but video memory, and
/// in the keys, the interrupt enables and the halt state.
pub open spec fn same_memory(a: Bus, b: Bus) -> bool {
    &&& a.bios == b.bios
    &&& a.key_input == b.key_input
    &&& a.ime == b.ime
    &&& a.ie == b.ie
    &&& a.wram == b.wram
    &&& a.palette_ram == b.palette_ram
    &&& a.oam == b.oam
    &&& a.game_pak == b.game_pak
    &&& a.halt == b.halt
}

/// Whether two buses differ in nothing but the display, the timers, the
/// request flags and video memory.
pub open spec fn same_but_video(a: Bus, b: Bus) -> bool {
    &&& same_memory(a, b)
    &&& a.dma_channels == b.dma_channels
    &&& a.dma_in_progress == b.dma_in_progress
}

/// A byte read from the work memory on the board.
pub proof fn lemma_ewram_byte(bus: Bus, address: u32)
    requires
        0x0200_0000 <= address < 0x0300_0000,
    ensures
        bus.peek8(address) == bus.wram[address as int % 0x40000],
{
    reveal(Bus::read8_spec);
}

/// A byte written to video memory changes that byte and nothing else.
pub proof fn lemma_vram_byte_written(bus: Bus, address: u32, value: u8)
    requires
        0x0600_0000 <= address < 0x0700_0000,
    ensures
        bus.poke8(address, value) == (Bus {
            vram: Box::new(spec_array_update(*bus.vram, address as int % 0x18000, value)),
            ..bus
        }),
{
    reveal(Bus::write8_spec);
}

/// One 16-bit unit from the work memory on the board to video memory: two
/// bytes of video memory take the two bytes of the work memory, and
/// nothing else changes.
pub proof fn lemma_unit_copied(bus: Bus, src: u32, dst: u32)
    requires
        source_in_ewram(src, 1),
        target_in_vram(dst, 1),
    ensures
        ({
            let s0 = src as int % 0x40000;
            let d0 = dst as int % 0x18000;
            bus.unit_moved(false, src, dst) == (Bus {
                vram: Box::new(
                    spec_array_update(spec_array_update(*bus.vram, d0, bus.wram[s0]), d0 + 1, bus.wram[s0 + 1]),
                ),
                ..bus
            })
        }),
{
    reveal(Bus::unit_moved);
    let s0 = src as int % 0x40000;
    let d0 = dst as int % 0x18000;
    let src1 = src.wrapping_add(1);
    let dst1 = dst.wrapping_add(1);
    assert(src1 == src + 1);
    assert(dst1 == dst + 1);
    assert(src1 as int % 0x40000 == s0 + 1);
    assert(dst1 as int % 0x18000 == d0 + 1);
    lemma_ewram_byte(bus, src);
    lemma_ewram_byte(bus, src1);
    let low = bus.wram[s0];
    let high = bus.wram[s0 + 1];
    lemma_le16_bytes(low, high);
    assert(peek16(&bus, src) == crate::bits::spec_le16(low, high));
    let first = bus.poke8(dst, low);
    lemma_vram_byte_written(bus, dst, low);
    lemma_vram_byte_written(first, dst1, high);
    assert(poke16(bus, dst, peek16(&bus, src)) == first.poke8(dst1, high));
}

/// The cycle of the display and the timers leaves every memory and every
/// DMA register as it is.
pub proof fn lemma_devices_keep_memory(bus: Bus, cycles: usize)
    ensures
        same_but_video(bus.devices_ticked(cycles), bus),
        bus.devices_ticked(cycles).vram == bus.vram,
{
    reveal(Bus::devices_ticked);
}

/// A transfer of 16-bit units with both addresses counting up, from the
/// work memory on the board into video memory: the bytes of video memory
/// from the target on are those that the work memory held from the source
/// on, every other byte of video memory and every other memory are as
/// they were, no DMA register has changed, and both addresses have moved
/// behind the block.
pub proof fn lemma_units_copied(bus: Bus, cycles: usize, src: u32, dst: u32, units: nat)
    requires
        source_in_ewram(src, units),
        target_in_vram(dst, units),
    ensures
        ({
            let done = bus.dma_words(
                cycles,
                false,
                AddrControl::Increment,
                AddrControl::Increment,
                src,
                dst,
                units,
            );
            &&& *done.0.vram == tabulate(
                *bus.vram,
                dst as int % 0x18000,
                2 * units,
                wram_from(*bus.wram, src as int % 0x40000),
            )
            &&& same_but_video(done.0, bus)
            &&& done.2 == src + 2 * units
            &&& done.3 == dst + 2 * units
        }),
    decreases units,
{
    let s0 = src as int % 0x40000;
    let d0 = dst as int % 0x18000;
    let f = wram_from(*bus.wram, s0);
    if units > 0 {
        let moved = bus.unit_moved(false, src, dst);
        lemma_unit_copied(bus, src, dst);
        let ticked = moved.devices_ticked(cycles);
        lemma_devices_keep_memory(moved, cycles);
        let src2 = AddrControl::Increment.spec_step(src, 2);
        let dst2 = AddrControl::Increment.spec_step(dst, 2);
        assert(src2 == src + 2);
        assert(dst2 == dst + 2);
        let rest = (units - 1) as nat;
        assert(source_in_ewram(src2, rest));
        assert(target_in_vram(dst2, rest));
        lemma_units_copied(ticked, cycles.wrapping_add(1), src2, dst2, rest);
        let done = bus.dma_words(cycles, false, AddrControl::Increment, AddrControl::Increment, src, dst, units);
        assert(done == ticked.dma_words(
            cycles.wrapping_add(1),
            false,
            AddrControl::Increment,
            AddrControl::Increment,
            src2,
            dst2,
            rest,
        ));
        let s2 = src2 as int % 0x40000;
        let d2 = dst2 as int % 0x18000;
        let g = wram_from(*ticked.wram, s2);
        assert(*ticked.wram == *bus.wram);
        assert(*done.0.vram == tabulate(*ticked.vram, d2, 2 * rest, g));
        lemma_tabulate(*ticked.vram, d2, 2 * rest, g);
        assert forall|i: int| d0 <= i < d0 + 2 * units implies #[trigger] done.0.vram[i] == f(i - d0) by {
            if rest > 0 {
                assert(d2 == d0 + 2 && s2 == s0 + 2);
            }
        }
        assert forall|i: int| 0 <= i < VRAM_SIZE && !(d0 <= i < d0 + 2 * units) implies #[trigger] done.0.vram[i]
            == bus.vram[i] by {
            if rest > 0 {
                assert(d2 == d0 + 2 && s2 == s0 + 2);
            }
        }
        lemma_tabulate_unique(*done.0.vram, *bus.vram, d0, 2 * units, f);
    }
}

/// Whether a channel, by its registers, copies 16-bit units upwards from
/// the work memory on the board into video memory when the event
/// `timing` comes.
pub open spec fn copies_upwards(channel: DMA, ch: usize, timing: StartTiming) -> bool {
    &&& channel.enable
    &&& channel.start_timing == timing
    &&& !channel.transfer_type
    &&& channel.src_addr_ctrl == AddrControl::Increment
    &&& channel.dst_addr_ctrl == AddrControl::Increment
    &&& source_in_ewram(channel.src, channel.spec_units(ch) as nat)
    &&& target_in_vram(channel.dst, channel.spec_units(ch) as nat)
}

/// Video memory after a channel has copied its block into it.
pub open spec fn vram_after_copy(bus: Bus, channel: DMA, ch: usize) -> [u8; VRAM_SIZE] {
    tabulate(
        *bus.vram,
        channel.dst as int % 0x18000,
        2 * (channel.spec_units(ch) as nat),
        wram_from(*bus.wram, channel.src as int % 0x40000),
    )
}

/// A channel that is disabled, or waits for another event, does nothing.
pub proof fn lemma_channel_rests(bus: Bus, snapshot: DMA, ch: usize, timing: StartTiming, cycles: usize)
    requires
        !snapshot.enable || snapshot.start_timing != timing,
    ensures
        bus.dma_channel_done(snapshot, ch, timing, cycles) == (bus, cycles),
{
    reveal(Bus::dma_channel_done);
}

/// A channel that copies upwards from the work memory on the board into
/// video memory, when its event comes: the whole block is in video memory
/// when the channel is done, and every other byte of every memory is as it
/// was. The channel has its addresses behind the block, is disabled
/// unless it repeats on an event other than the immediate one, and has
/// requested its interrupt where that is enabled. No other channel has
/// changed, and no transfer is under way.
pub proof fn lemma_channel_copied(bus: Bus, snapshot: DMA, ch: usize, timing: StartTiming, cycles: usize)
    requires
        ch < 4,
        copies_upwards(snapshot, ch, timing),
    ensures
        ({
            let done = bus.dma_channel_done(snapshot, ch, timing, cycles).0;
            let live = bus.dma_channels.0[ch as int];
            let bytes = 2 * snapshot.spec_units(ch);
            &&& *done.vram == vram_after_copy(bus, snapshot, ch)
            &&& same_memory(done, bus)
            &&& done.dma_channels.0[ch as int] == (DMA {
                enable: live.enable && snapshot.repeat && timing != StartTiming::Immediate,
                src: (snapshot.src + bytes) as u32,
                dst: (snapshot.dst + bytes) as u32,
                ..live
            })
            &&& forall|other: int|
                0 <= other < 4 && other != ch ==> #[trigger] done.dma_channels.0[other] == bus.dma_channels.0[other]
            &&& done.dma_in_progress == spec_array_update(bus.dma_in_progress, ch as int, false)
            &&& snapshot.dma_irq ==> done.iff.spec_has(crate::mmu::irq::Interrupt::spec_dma(ch))
        }),
{
    reveal(Bus::dma_channel_done);
    let started = Bus { dma_in_progress: spec_array_update(bus.dma_in_progress, ch as int, true), ..bus };
    let units = snapshot.spec_units(ch) as nat;
    lemma_units_copied(started, cycles, snapshot.src, snapshot.dst, units);
    let moved = started.dma_words(
        cycles,
        false,
        AddrControl::Increment,
        AddrControl::Increment,
        snapshot.src,
        snapshot.dst,
        units,
    ).0;
    crate::mmu::irq::lemma_request_flags(
        moved.iff,
        crate::mmu::irq::Interrupt::spec_dma(ch),
        true,
        crate::mmu::irq::Interrupt::spec_dma(ch),
    );
    let done = bus.dma_channel_done(snapshot, ch, timing, cycles).0;
    assert(done.dma_in_progress =~= spec_array_update(bus.dma_in_progress, ch as int, false));
}

/// The tick in which the line counter becomes 160, with channel 0 set to
/// copy upwards from the work memory on the board into video memory at
/// vertical blank and no other channel enabled: when the tick is over the
/// whole block is in video memory, every other byte of every memory is as
/// it was, channel 0 is enabled only if it repeats, and no transfer is
/// under way.
pub proof fn lemma_vblank_transfer(bus: Bus, cycles: usize)
    requires
        bus.ppu.current_mode == Mode::HBlank,
        bus.ppu.cycle >= TOTAL_LEN,
        bus.ppu.vcount.spec_ly() == 159,
        !bus.any_dma_in_progress(),
        copies_upwards(bus.dma_channels.0[0], 0, StartTiming::VBlank),
        !bus.dma_channels.0[1].enable,
        !bus.dma_channels.0[2].enable,
        !bus.dma_channels.0[3].enable,
    ensures
        ({
            let after = bus.tick_spec(cycles).0;
            let channel = bus.dma_channels.0[0];
            &&& *after.vram == vram_after_copy(bus, channel, 0)
            &&& forall|i: int|
                0 <= i < 2 * channel.spec_units(0) ==> #[trigger] after.vram[channel.dst as int % 0x18000 + i]
                    == bus.wram[channel.src as int % 0x40000 + i]
            &&& forall|j: int|
                0 <= j < VRAM_SIZE && !(channel.dst as int % 0x18000 <= j < channel.dst as int % 0x18000 + 2
                    * channel.spec_units(0)) ==> #[trigger] after.vram[j] == bus.vram[j]
            &&& same_memory(after, bus)
            &&& after.dma_channels.0[0].enable == channel.repeat
            &&& !after.dma_channels.0[1].enable
            &&& !after.dma_channels.0[2].enable
            &&& !after.dma_channels.0[3].enable
            &&& !after.any_dma_in_progress()
        }),
{
    let ticked = bus.devices_ticked(cycles);
    lemma_devices_keep_memory(bus, cycles);
    assert(ticked.ppu.current_mode == Mode::VBlank && ticked.ppu.prev_mode == Mode::HBlank) by {
        reveal(Bus::devices_ticked);
        lemma_vblank_entry(bus.ppu, bus.vram@, bus.palette_ram@, bus.oam@, bus.iff);
    }
    let snapshot = ticked.dma_channels;
    let channel = snapshot.0[0];
    // The four channels at vertical blank.
    let (b0, c0) = ticked.dma_channel_done(channel, 0, StartTiming::VBlank, cycles);
    lemma_channel_copied(ticked, channel, 0, StartTiming::VBlank, cycles);
    lemma_channel_rests(b0, snapshot.0[1], 1, StartTiming::VBlank, c0);
    lemma_channel_rests(b0, snapshot.0[2], 2, StartTiming::VBlank, c0);
    lemma_channel_rests(b0, snapshot.0[3], 3, StartTiming::VBlank, c0);
    assert(ticked.dma_transfer_spec(StartTiming::VBlank, cycles) == (b0, c0)) by {
        reveal(Bus::dma_transfer_spec);
    }
    let phased = Bus { ppu: Ppu { prev_mode: b0.ppu.current_mode, ..b0.ppu }, ..b0 };
    assert(ticked.phase_transfers(cycles) == (phased, c0)) by {
        reveal(Bus::phase_transfers);
    }
    // The channels at the immediate start: none of them waits for it.
    let again = phased.dma_channels;
    lemma_channel_rests(phased, again.0[0], 0, StartTiming::Immediate, c0);
    lemma_channel_rests(phased, again.0[1], 1, StartTiming::Immediate, c0);
    lemma_channel_rests(phased, again.0[2], 2, StartTiming::Immediate, c0);
    lemma_channel_rests(phased, again.0[3], 3, StartTiming::Immediate, c0);
    assert(phased.dma_transfer_spec(StartTiming::Immediate, c0) == (phased, c0)) by {
        reveal(Bus::dma_transfer_spec);
    }
    let cleared = Bus { dma_channels: phased.dma_channels.edges_cleared(), ..phased };
    assert(phased.immediate_transfers(c0).0 == cleared || phased.immediate_transfers(c0).0 == phased) by {
        reveal(Bus::immediate_transfers);
    }
    lemma_tabulate(phased.dma_channels.0, 0, 4, crate::mmu::dma::without_edge(phased.dma_channels.0));
    let d0 = channel.dst as int % 0x18000;
    let s0 = channel.src as int % 0x40000;
    let bytes = 2 * (channel.spec_units(0) as nat);
    lemma_tabulate(*bus.vram, d0, bytes, wram_from(*bus.wram, s0));
    let after = bus.tick_spec(cycles).0;
    assert(*after.vram == vram_after_copy(bus, channel, 0));
    assert forall|i: int| 0 <= i < bytes implies #[trigger] after.vram[d0 + i] == bus.wram[s0 + i] by {
        assert(wram_from(*bus.wram, s0)(d0 + i - d0) == bus.wram[s0 + i]);
    }
}

/// A tick that ends no phase of the display and sees no enable edge runs
/// no channel: it is the cycle of the display and the timers and no more,
/// and it leaves every memory and every DMA register as it is.
pub proof fn lemma_quiet_tick(bus: Bus, cycles: usize)
    requires
        bus.ppu.prev_mode == bus.ppu.current_mode,
        !ends_phase(bus.ppu),
        !bus.dma_channels.any_enable_edge(),
    ensures
        bus.tick_spec(cycles) == (bus.devices_ticked(cycles), cycles),
        same_but_video(bus.tick_spec(cycles).0, bus),
        bus.tick_spec(cycles).0.vram == bus.vram,
{
    let ticked = bus.devices_ticked(cycles);
    lemma_devices_keep_memory(bus, cycles);
    assert(ticked.ppu.prev_mode == ticked.ppu.current_mode) by {
        reveal(Bus::devices_ticked);
        lemma_phase_kept(bus.ppu, bus.vram@, bus.palette_ram@, bus.oam@, bus.iff);
    }
    reveal(Bus::phase_transfers);
    reveal(Bus::immediate_transfers);
}

} // verus!
