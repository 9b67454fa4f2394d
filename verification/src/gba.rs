//! The console as a whole: the processor on its bus, stepped one
//! instruction and one tick at a time.
use vstd::prelude::*;
use crate::arm::interpreter::arm7tdmi::Arm7TDMI;
use crate::mmu::bus::Bus;
use crate::mmu::game_pak::copy_of;

verus! {

/// Visible pixels per scanline.
pub const LCD_WIDTH: usize = 240;

/// Visible scanlines per frame.
pub const LCD_HEIGHT: usize = 160;

/// Pixels of one frame.
pub const LCD_PIXELS: usize = 38400;

/// The console.
pub struct Gba {
    pub cpu: Arm7TDMI,
    /// The number of steps taken, which is also the cycle count that the
    /// timers see.
    pub cycles: usize,
    /// The cartridge image as it was handed in.
    pub rom: Vec<u8>,
}

impl Gba {
    /// The processor and everything on its bus are in order.
    pub open spec fn wf(&self) -> bool {
        self.cpu.wf()
    }

    /// A console with the cartridge image `rom` and the system ROM `bios`,
    /// before its first step.
    pub fn with_rom(rom: &[u8], bios: &[u8]) -> (gba: Gba)
        ensures
            gba.cpu.is_power_on(rom@, bios@),
            gba.cycles == 0,
            gba.rom@ == rom@,
            gba.wf(),
    {
        Gba { cpu: Arm7TDMI::new(rom, bios), rom: copy_of(rom), cycles: 0 }
    }

    /// Whether a source of interrupts is both enabled and pending.
    pub open spec fn interrupt_waiting(bus: &Bus) -> bool {
        (bus.ie.0 & bus.iff.0) != 0
    }

    /// The processor after its part of a step: a halt ends where an
    /// interrupt is waiting; a processor that is not halted checks for
    /// interrupts and executes one instruction.
    pub open spec fn cpu_stepped(cpu: Arm7TDMI) -> Arm7TDMI {
        let woken = if cpu.bus.halt && Self::interrupt_waiting(&cpu.bus) {
            Arm7TDMI { bus: Bus { halt: false, ..cpu.bus }, ..cpu }
        } else {
            cpu
        };
        if woken.bus.halt {
            woken
        } else {
            woken.dispatch_irq_spec().cycle_spec()
        }
    }

    /// The console after one step: the processor has its part, then the
    /// bus has its tick, and the cycle count goes up by one.
    pub open spec fn run_spec(self) -> Gba {
        let cpu = Self::cpu_stepped(self.cpu);
        let (bus, cycles) = cpu.bus.tick_spec(self.cycles);
        Gba { cpu: Arm7TDMI { bus, ..cpu }, cycles: cycles.wrapping_add(1), ..self }
    }

    fn step_cpu(&mut self)
        requires
            old(self).wf(),
        ensures
            final(self).cpu == Self::cpu_stepped(old(self).cpu),
            final(self).cycles == old(self).cycles,
            final(self).rom == old(self).rom,
            final(self).wf(),
    {
        if self.cpu.bus.halt && (self.cpu.bus.ie.0 & self.cpu.bus.iff.0) != 0 {
            self.cpu.bus.halt = false;
        }
        if !self.cpu.bus.halt {
            self.cpu.dispatch_irq();
            self.cpu.cycle();
        }
    }

    /// Take one step.
    pub fn run(&mut self)
        requires
            old(self).wf(),
        ensures
            *final(self) == old(self).run_spec(),
            final(self).wf(),
    {
        self.step_cpu();
        self.cpu.bus.tick(&mut self.cycles);
        self.cycles = self.cycles.wrapping_add(1);
    }
}

impl Gba {
    /// Whether the processor and everything on its bus are in order, so
    /// that the console can take a step.
    pub fn check(&self) -> (ok: bool)
        ensures
            ok == self.wf(),
    {
        self.cpu.check()
    }
}

} // verus!
