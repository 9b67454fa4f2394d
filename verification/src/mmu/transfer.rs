//! The tick of the bus: the display and the timers have their cycle, and
//! the DMA channels whose start event has come run to completion.
use vstd::prelude::*;
use vstd::array::{spec_array_fill_for_copy_type, spec_array_update};
use crate::mmu::bus::{Bus, KEYINPUT, SMALL_SIZE, VRAM_SIZE, WRAM_SIZE};
use crate::mmu::dma::{AddrControl, DMAChannels, StartTiming, DMA};
use crate::mmu::game_pak::{copy_of, GamePak, SRAM_SIZE};
use crate::mmu::irq::{Interrupt, IE, IF, IME};
use crate::mmu::timer::Timers;
use crate::mmu::{peek16, peek32, poke16, poke32, Mcu};
use crate::ppu::lcd::{Mode, Ppu};

verus! {

/// The number of bytes of one DMA unit.
pub open spec fn spec_unit_size(wide: bool) -> u32 {
    if wide {
        4
    } else {
        2
    }
}

/// The number of bytes of one DMA unit.
#[verifier::when_used_as_spec(spec_unit_size)]
pub fn unit_size(wide: bool) -> (r: u32)
    ensures
        r == spec_unit_size(wide),
{
    if wide {
        4
    } else {
        2
    }
}

impl Bus {
    /// Whether the bus is as it is at power-on with the system ROM `bios`
    /// and the cartridge image `rom`: every memory and register zero, no
    /// key pressed, no transfer under way and the display at the start of
    /// a frame.
    pub open spec fn is_power_on(&self, bios: Seq<u8>, rom: Seq<u8>) -> bool {
        &&& self.bios@ == bios
        &&& self.game_pak.rom@ == rom
        &&& *self.game_pak.sram == spec_array_fill_for_copy_type::<u8, SRAM_SIZE>(0)
        &&& self.ppu == Ppu::power_on()
        &&& self.key_input.0 == 0x03FF
        &&& self.ime.0 == 0
        &&& self.ie.0 == 0
        &&& self.iff.0 == 0
        &&& self.timers == Timers::power_on()
        &&& self.dma_channels == DMAChannels::power_on()
        &&& *self.wram == spec_array_fill_for_copy_type::<u8, WRAM_SIZE>(0)
        &&& self.palette_ram == spec_array_fill_for_copy_type::<u8, SMALL_SIZE>(0)
        &&& *self.vram == spec_array_fill_for_copy_type::<u8, VRAM_SIZE>(0)
        &&& self.oam == spec_array_fill_for_copy_type::<u8, SMALL_SIZE>(0)
        &&& !self.halt
        &&& self.dma_in_progress == spec_array_fill_for_copy_type::<bool, 4>(false)
    }

    /// A bus at power-on with the system ROM `bios` and the cartridge
    /// image `rom`.
    pub fn with_images(bios: &[u8], rom: &[u8]) -> (bus: Bus)
        ensures
            bus.is_power_on(bios@, rom@),
            bus.inv(),
    {
        Bus {
            bios: copy_of(bios),
            ppu: Ppu::new(),
            key_input: KEYINPUT(0x03FF),
            ime: IME(0),
            ie: IE(0),
            iff: IF(0),
            timers: Timers::new(),
            dma_channels: DMAChannels::new(),
            wram: Box::new([0; WRAM_SIZE]),
            palette_ram: [0; SMALL_SIZE],
            vram: Box::new([0; VRAM_SIZE]),
            oam: [0; SMALL_SIZE],
            game_pak: GamePak::with_rom(rom),
            halt: false,
            dma_in_progress: [false; 4],
        }
    }

    /// The bus after the display and the timers had their cycle.
    #[verifier::opaque]
    pub open spec fn devices_ticked(self, cycles: usize) -> Bus {
        let (ppu, after_ppu) = self.ppu.cycle_spec(self.vram@, self.palette_ram@, self.oam@, self.iff);
        let (timers, after_timers) = self.timers.tick_spec(after_ppu, cycles);
        Bus { ppu, timers, iff: after_timers, ..self }
    }

    /// Let the display and the timers have their cycle.
    pub fn tick_devices(&mut self, cycles: usize)
        requires
            old(self).inv(),
        ensures
            *final(self) == old(self).devices_ticked(cycles),
            final(self).inv(),
            final(self).dma_in_progress == old(self).dma_in_progress,
    {
        reveal(Bus::devices_ticked);
        let mut ppu_iff = self.iff;
        self.ppu.cycle(self.vram.as_slice(), self.palette_ram.as_slice(), self.oam.as_slice(), &mut ppu_iff);
        self.timers.tick(&mut ppu_iff, cycles);
        self.iff = ppu_iff;
    }

    /// The bus after one DMA unit went from `src` to `dst`.
    #[verifier::opaque]
    pub open spec fn unit_moved(self, wide: bool, src: u32, dst: u32) -> Bus {
        if wide {
            poke32(self, dst, peek32(&self, src))
        } else {
            poke16(self, dst, peek16(&self, src))
        }
    }

    /// The bus, the cycle count and the two addresses after `n` units went
    /// from `src` to `dst`: after every unit the display and the timers
    /// have their cycle, the cycle count goes up by one and the addresses
    /// move as their modes say.
    pub open spec fn dma_words(
        self,
        cycles: usize,
        wide: bool,
        src_ctrl: AddrControl,
        dst_ctrl: AddrControl,
        src: u32,
        dst: u32,
        n: nat,
    ) -> (Bus, usize, u32, u32)
        decreases n,
    {
        if n == 0 {
            (self, cycles, src, dst)
        } else {
            self.unit_moved(wide, src, dst).devices_ticked(cycles).dma_words(
                cycles.wrapping_add(1),
                wide,
                src_ctrl,
                dst_ctrl,
                src_ctrl.spec_step(src, spec_unit_size(wide)),
                dst_ctrl.spec_step(dst, spec_unit_size(wide)),
                (n - 1) as nat,
            )
        }
    }

    /// The bus and the cycle count after channel `ch` had its chance at
    /// the start event `timing`, `snapshot` being the channel's registers
    /// when the event came. A channel that is enabled and waits for this
    /// event moves its units; then it keeps the source address it has
    /// reached and the destination address too, unless that is reloaded;
    /// it is disabled unless it repeats on an event other than the
    /// immediate one; and it requests its interrupt where enabled.
    #[verifier::opaque]
    pub open spec fn dma_channel_done(self, snapshot: DMA, ch: usize, timing: StartTiming, cycles: usize) -> (
        Bus,
        usize,
    ) {
        if snapshot.enable && snapshot.start_timing == timing {
            let started = Bus { dma_in_progress: spec_array_update(self.dma_in_progress, ch as int, true), ..self };
            let (moved, count, src, dst) = started.dma_words(
                cycles,
                snapshot.transfer_type,
                snapshot.src_addr_ctrl,
                snapshot.dst_addr_ctrl,
                snapshot.src,
                snapshot.dst,
                snapshot.spec_units(ch) as nat,
            );
            let live = moved.dma_channels.0[ch as int];
            let finished = DMA {
                enable: live.enable && snapshot.repeat && timing != StartTiming::Immediate,
                src,
                dst: if snapshot.dst_addr_ctrl == AddrControl::IncReload { snapshot.dst } else { dst },
                ..live
            };
            (
                Bus {
                    dma_channels: DMAChannels(spec_array_update(moved.dma_channels.0, ch as int, finished)),
                    iff: if snapshot.dma_irq {
                        moved.iff.with(Interrupt::spec_dma(ch), true)
                    } else {
                        moved.iff
                    },
                    dma_in_progress: spec_array_update(moved.dma_in_progress, ch as int, false),
                    ..moved
                },
                count,
            )
        } else {
            (self, cycles)
        }
    }

    fn move_unit(&mut self, wide: bool, src: u32, dst: u32)
        requires
            old(self).inv(),
        ensures
            *final(self) == old(self).unit_moved(wide, src, dst),
            final(self).inv(),
    {
        reveal(Bus::unit_moved);
        if wide {
            let data = self.read32(src);
            self.write32(dst, data);
        } else {
            let data = self.read16(src);
            self.write16(dst, data);
        }
    }

    fn dma_channel(&mut self, snapshot: DMA, ch: usize, timing: StartTiming, cycles: &mut usize)
        requires
            old(self).inv(),
            ch < 4,
        ensures
            (*final(self), *final(cycles)) == old(self).dma_channel_done(snapshot, ch, timing, *old(cycles)),
            final(self).inv(),
    {
        reveal(Bus::dma_channel_done);
        if snapshot.enable && snapshot.start_timing == timing {
            self.dma_in_progress[ch] = true;
            let wide = snapshot.transfer_type;
            let delta = unit_size(wide);
            let mut src_addr = snapshot.src;
            let mut dst_addr = snapshot.dst;
            let units = snapshot.units(ch);
            let ghost started = *self;
            let ghost start_cycles = *cycles;

            let mut left: u16 = units;
            while left > 0
                invariant
                    self.inv(),
                    delta == spec_unit_size(wide),
                    self.dma_words(
                        *cycles,
                        wide,
                        snapshot.src_addr_ctrl,
                        snapshot.dst_addr_ctrl,
                        src_addr,
                        dst_addr,
                        left as nat,
                    ) == started.dma_words(
                        start_cycles,
                        wide,
                        snapshot.src_addr_ctrl,
                        snapshot.dst_addr_ctrl,
                        snapshot.src,
                        snapshot.dst,
                        units as nat,
                    ),
                decreases left,
            {
                self.move_unit(wide, src_addr, dst_addr);
                self.tick_devices(*cycles);
                *cycles = cycles.wrapping_add(1);
                src_addr = snapshot.src_addr_ctrl.step(src_addr, delta);
                dst_addr = snapshot.dst_addr_ctrl.step(dst_addr, delta);
                left -= 1;
            }

            let mut channel = self.dma_channels.0[ch];
            channel.enable = channel.enable && snapshot.repeat && timing != StartTiming::Immediate;
            channel.src = src_addr;
            channel.dst = if snapshot.dst_addr_ctrl == AddrControl::IncReload { snapshot.dst } else { dst_addr };
            self.dma_channels.0[ch] = channel;
            if snapshot.dma_irq {
                self.iff.set_dma(ch);
            }
            self.dma_in_progress[ch] = false;
        }
    }

    /// The bus and the cycle count after the four channels, in the order
    /// of their numbers, had their chance at the start event `timing`.
    /// Every channel is judged by its registers as they were when the
    /// event came.
    #[verifier::opaque]
    pub open spec fn dma_transfer_spec(self, timing: StartTiming, cycles: usize) -> (Bus, usize) {
        let snapshot = self.dma_channels;
        let (b0, c0) = self.dma_channel_done(snapshot.0[0], 0, timing, cycles);
        let (b1, c1) = b0.dma_channel_done(snapshot.0[1], 1, timing, c0);
        let (b2, c2) = b1.dma_channel_done(snapshot.0[2], 2, timing, c1);
        b2.dma_channel_done(snapshot.0[3], 3, timing, c2)
    }

    /// Run the channels that wait for the start event `dma_type`.
    pub fn dma_transfer(&mut self, dma_type: StartTiming, cycles: &mut usize)
        requires
            old(self).inv(),
        ensures
            (*final(self), *final(cycles)) == old(self).dma_transfer_spec(dma_type, *old(cycles)),
            final(self).inv(),
    {
        reveal(Bus::dma_transfer_spec);
        let channels = self.dma_channels;
        self.dma_channel(channels.0[0], 0, dma_type, cycles);
        self.dma_channel(channels.0[1], 1, dma_type, cycles);
        self.dma_channel(channels.0[2], 2, dma_type, cycles);
        self.dma_channel(channels.0[3], 3, dma_type, cycles);
    }

    /// Whether any channel is in the middle of a transfer.
    pub open spec fn any_dma_in_progress(&self) -> bool {
        self.dma_in_progress[0] || self.dma_in_progress[1] || self.dma_in_progress[2]
            || self.dma_in_progress[3]
    }

    /// The bus and the cycle count after the channels that wait for the
    /// phase the display has just entered had their chance; the display
    /// then counts as having been in that phase before.
    #[verifier::opaque]
    pub open spec fn phase_transfers(self, cycles: usize) -> (Bus, usize) {
        if self.ppu.prev_mode != self.ppu.current_mode {
            let (moved, count) = match self.ppu.current_mode {
                Mode::HBlank => self.dma_transfer_spec(StartTiming::HBlank, cycles),
                Mode::VBlank => self.dma_transfer_spec(StartTiming::VBlank, cycles),
                Mode::HDraw => (self, cycles),
            };
            (Bus { ppu: Ppu { prev_mode: moved.ppu.current_mode, ..moved.ppu }, ..moved }, count)
        } else {
            (self, cycles)
        }
    }

    /// The bus and the cycle count after the channels whose enable bit has
    /// just been set had their chance at an immediate start; every enable
    /// edge is then forgotten.
    #[verifier::opaque]
    pub open spec fn immediate_transfers(self, cycles: usize) -> (Bus, usize) {
        if self.dma_channels.any_enable_edge() {
            let (moved, count) = self.dma_transfer_spec(StartTiming::Immediate, cycles);
            (Bus { dma_channels: moved.dma_channels.edges_cleared(), ..moved }, count)
        } else {
            (self, cycles)
        }
    }

    /// The bus and the cycle count after one tick: the display and the
    /// timers have their cycle; then, unless a transfer is under way, the
    /// channels that wait for the phase the display has entered run, and
    /// after them the channels that were enabled for an immediate start.
    pub open spec fn tick_spec(self, cycles: usize) -> (Bus, usize) {
        let ticked = self.devices_ticked(cycles);
        if ticked.any_dma_in_progress() {
            (ticked, cycles)
        } else {
            let (phased, count) = ticked.phase_transfers(cycles);
            phased.immediate_transfers(count)
        }
    }

    fn run_phase_transfers(&mut self, cycles: &mut usize)
        requires
            old(self).inv(),
        ensures
            (*final(self), *final(cycles)) == old(self).phase_transfers(*old(cycles)),
            final(self).inv(),
    {
        reveal(Bus::phase_transfers);
        if self.ppu.prev_mode != self.ppu.current_mode {
            match self.ppu.current_mode {
                Mode::HBlank => self.dma_transfer(StartTiming::HBlank, cycles),
                Mode::VBlank => self.dma_transfer(StartTiming::VBlank, cycles),
                Mode::HDraw => {},
            }
            self.ppu.prev_mode = self.ppu.current_mode;
        }
    }

    fn run_immediate_transfers(&mut self, cycles: &mut usize)
        requires
            old(self).inv(),
        ensures
            (*final(self), *final(cycles)) == old(self).immediate_transfers(*old(cycles)),
            final(self).inv(),
    {
        reveal(Bus::immediate_transfers);
        if self.dma_channels.has_enable_edge() {
            self.dma_transfer(StartTiming::Immediate, cycles);
            self.dma_channels.clear_edges();
        }
    }

    /// Advance the display, the timers and the DMA channels by one cycle.
    pub fn tick(&mut self, cycles: &mut usize)
        requires
            old(self).inv(),
        ensures
            (*final(self), *final(cycles)) == old(self).tick_spec(*old(cycles)),
            final(self).inv(),
    {
        self.tick_devices(*cycles);
        let busy = self.dma_in_progress[0] || self.dma_in_progress[1] || self.dma_in_progress[2]
            || self.dma_in_progress[3];
        if !busy {
            self.run_phase_transfers(cycles);
            self.run_immediate_transfers(cycles);
        }
    }
}

impl Default for Bus {
    /// A bus without a system ROM and without a cartridge.
    fn default() -> (bus: Bus)
        ensures
            bus.is_power_on(Seq::<u8>::empty(), Seq::<u8>::empty()),
            bus.inv(),
    {
        let empty: [u8; 0] = [];
        proof {
            assert(empty@ =~= Seq::<u8>::empty());
        }
        Bus::with_images(empty.as_slice(), empty.as_slice())
    }
}

} // verus!
