//! The four hardware timers.
use vstd::prelude::*;
use vstd::array::{spec_array_fill_for_copy_type, spec_array_update};
use crate::bits::{hi8, le16, lo8, spec_hi8, spec_le16, spec_lo8};
use crate::mmu::irq::{Interrupt, IF};
use crate::ppu::lcd::{align2, spec_align2};

verus! {

/// The prescaler of a timer: the number of cycles per increment.
#[derive(Clone, Copy, PartialEq, Eq, Structural, Debug)]
pub enum Freq {
    F1,
    F64,
    F256,
    F1024,
}

impl Freq {
    /// The number of cycles per increment.
    pub open spec fn spec_cycles(self) -> usize {
        match self {
            Freq::F1 => 1,
            Freq::F64 => 64,
            Freq::F256 => 256,
            Freq::F1024 => 1024,
        }
    }

    /// The number of cycles per increment.
    #[verifier::when_used_as_spec(spec_cycles)]
    pub fn cycles(self) -> (r: usize)
        ensures
            r == self.spec_cycles(),
            r > 0,
    {
        match self {
            Freq::F1 => 1,
            Freq::F64 => 64,
            Freq::F256 => 256,
            Freq::F1024 => 1024,
        }
    }

    /// The selector that the low two bits of a control register hold.
    pub open spec fn spec_raw(self) -> u16 {
        match self {
            Freq::F1 => 0,
            Freq::F64 => 1,
            Freq::F256 => 2,
            Freq::F1024 => 3,
        }
    }

    /// The selector that the low two bits of a control register hold.
    #[verifier::when_used_as_spec(spec_raw)]
    pub fn raw(self) -> (r: u16)
        ensures
            r == self.spec_raw(),
            r < 4,
    {
        match self {
            Freq::F1 => 0,
            Freq::F64 => 1,
            Freq::F256 => 2,
            Freq::F1024 => 3,
        }
    }

    /// The prescaler that a selector names; selectors above 3 count as 3.
    pub open spec fn spec_from_raw(raw: u16) -> Freq {
        if raw == 0 {
            Freq::F1
        } else if raw == 1 {
            Freq::F64
        } else if raw == 2 {
            Freq::F256
        } else {
            Freq::F1024
        }
    }

    /// The prescaler that a selector names; selectors above 3 count as 3.
    #[verifier::when_used_as_spec(spec_from_raw)]
    pub fn from_raw(raw: u16) -> (r: Freq)
        ensures
            r == Self::spec_from_raw(raw),
    {
        if raw == 0 {
            Freq::F1
        } else if raw == 1 {
            Freq::F64
        } else if raw == 2 {
            Freq::F256
        } else {
            Freq::F1024
        }
    }
}

/// A 16-bit timer with its control bits.
#[derive(Clone, Copy, Debug)]
pub struct Timer {
    pub counter: u16,
    pub reload: u16,
    pub freq: Freq,
    pub count_up: bool,
    pub irq: bool,
    pub start: bool,
}

/// 1 for a set flag, 0 for a clear one.
pub open spec fn spec_flag(b: bool) -> u16 {
    if b {
        1
    } else {
        0
    }
}

/// 1 for a set flag, 0 for a clear one.
#[verifier::when_used_as_spec(spec_flag)]
pub fn flag(b: bool) -> (r: u16)
    ensures
        r == spec_flag(b),
{
    if b {
        1
    } else {
        0
    }
}

impl Timer {
    /// A stopped timer with every register zero.
    pub fn new() -> (t: Timer)
        ensures
            t == (Timer { counter: 0, reload: 0, freq: Freq::F1, count_up: false, irq: false, start: false }),
    {
        Timer { counter: 0, reload: 0, freq: Freq::F1, count_up: false, irq: false, start: false }
    }

    /// The timer after a write of `value` to its control register: bits 0
    /// and 1 select the prescaler, bit 2 count-up, bit 6 the interrupt and
    /// bit 7 the start. A timer that was stopped and is started begins at
    /// its reload value.
    pub open spec fn apply_tmr_cnt_spec(self, value: u16) -> Timer {
        let start = (value / 128) % 2 == 1;
        Timer {
            counter: if start && !self.start { self.reload } else { self.counter },
            reload: self.reload,
            freq: Freq::spec_from_raw(value % 4),
            count_up: (value / 4) % 2 == 1,
            irq: (value / 64) % 2 == 1,
            start,
        }
    }

    /// Update the control bits from a write to TMxCNT_H.
    pub fn apply_tmr_cnt(&mut self, value: u16)
        ensures
            *final(self) == old(self).apply_tmr_cnt_spec(value),
    {
        let start = (value / 128) % 2 == 1;
        if start && !self.start {
            self.counter = self.reload;
        }
        self.start = start;
        self.irq = (value / 64) % 2 == 1;
        self.count_up = (value / 4) % 2 == 1;
        self.freq = Freq::from_raw(value % 4);
    }

    /// The timer after one increment: the counter one higher, or the
    /// reload value where it was at its maximum.
    pub open spec fn tick_spec(self) -> Timer {
        Timer { counter: if self.counter == 0xFFFF { self.reload } else { (self.counter + 1) as u16 }, ..self }
    }

    /// Increment the counter; the result says whether it overflowed.
    pub fn tick(&mut self) -> (overflow: bool)
        ensures
            *final(self) == old(self).tick_spec(),
            overflow == (old(self).counter == 0xFFFF),
    {
        if self.counter == 0xFFFF {
            self.counter = self.reload;
            true
        } else {
            self.counter = self.counter + 1;
            false
        }
    }

    /// The control register as the bus reads it.
    pub open spec fn spec_control(&self) -> u16 {
        (0xFF00 + 128 * spec_flag(self.start) + 64 * spec_flag(self.irq) + 4 * spec_flag(self.count_up)
            + self.freq.spec_raw()) as u16
    }

    /// The control register as the bus reads it.
    #[verifier::when_used_as_spec(spec_control)]
    pub fn control(&self) -> (r: u16)
        ensures
            r == self.spec_control(),
    {
        0xFF00 + 128 * flag(self.start) + 64 * flag(self.irq) + 4 * flag(self.count_up) + self.freq.raw()
    }

    /// Whether the timer counts on this cycle: it is started and either its
    /// prescaler divides the cycle count or, in count-up mode and not being
    /// timer 0, the timer before it has just overflowed.
    pub open spec fn counts(&self, id: usize, cycles: usize, carry: bool) -> bool {
        self.start && ((!self.count_up && cycles % self.freq.spec_cycles() == 0) || (self.count_up && id > 0
            && carry))
    }
}

/// The four timers.
pub struct Timers(pub [Timer; 4]);

impl Timers {
    /// Four stopped timers with every register zero.
    pub open spec fn power_on() -> Timers {
        Timers(
            spec_array_fill_for_copy_type::<Timer, 4>(
                Timer { counter: 0, reload: 0, freq: Freq::F1, count_up: false, irq: false, start: false },
            ),
        )
    }

    /// Four stopped timers.
    pub fn new() -> (t: Timers)
        ensures
            t == Self::power_on(),
    {
        Timers([Timer::new(); 4])
    }

    /// The timers and the request flags after the timers from `id` on had
    /// their cycle, `carry` saying whether the timer before `id` has just
    /// overflowed. A timer that counts and overflows restarts at its reload
    /// value and, where its interrupt is enabled, raises its request.
    pub open spec fn tick_from(self, iff: IF, cycles: usize, id: usize, carry: bool) -> (Timers, IF)
        decreases 4 - id,
    {
        if id >= 4 {
            (self, iff)
        } else {
            let timer = self.0[id as int];
            if timer.counts(id, cycles, carry) {
                let overflow = timer.counter == 0xFFFF;
                Timers(spec_array_update(self.0, id as int, timer.tick_spec())).tick_from(
                    if overflow && timer.irq { iff.with(Interrupt::spec_timer(id), true) } else { iff },
                    cycles,
                    (id + 1) as usize,
                    overflow,
                )
            } else {
                self.tick_from(iff, cycles, (id + 1) as usize, false)
            }
        }
    }

    /// The timers and the request flags after one cycle.
    pub open spec fn tick_spec(self, iff: IF, cycles: usize) -> (Timers, IF) {
        self.tick_from(iff, cycles, 0, false)
    }

    /// Let the four timers have their cycle.
    pub fn tick(&mut self, iff: &mut IF, cycles: usize)
        ensures
            (*final(self), *final(iff)) == old(self).tick_spec(*old(iff), cycles),
    {
        let mut carry = false;
        let mut id: usize = 0;
        while id < 4
            invariant
                id <= 4,
                self.tick_from(*iff, cycles, id, carry) == old(self).tick_spec(*old(iff), cycles),
            decreases 4 - id,
        {
            let timer = self.0[id];
            let counts = timer.start && ((!timer.count_up && cycles % timer.freq.cycles() == 0) || (
            timer.count_up && id > 0 && carry));
            if counts {
                let mut ticked = timer;
                let overflow = ticked.tick();
                self.0[id] = ticked;
                if overflow && timer.irq {
                    iff.set_timer(id);
                }
                carry = overflow;
            } else {
                carry = false;
            }
            id += 1;
        }
    }

    /// What a 16-bit read at `address` returns: the counter at 0x100 + 4i,
    /// the control register at 0x102 + 4i, and 0 elsewhere.
    pub open spec fn read16_spec(&self, address: u32) -> u16 {
        if 0x0100 <= address <= 0x010E && address % 4 == 0 {
            self.0[(address - 0x0100) / 4].counter
        } else if 0x0100 <= address <= 0x010E && address % 4 == 2 {
            self.0[(address - 0x0100) / 4].spec_control()
        } else {
            0
        }
    }

    /// Read a timer register as the bus sees it.
    pub fn read16(&self, address: u32) -> (r: u16)
        ensures
            r == self.read16_spec(address),
    {
        if 0x0100 <= address && address <= 0x010E && address % 4 == 0 {
            self.0[((address - 0x0100) / 4) as usize].counter
        } else if 0x0100 <= address && address <= 0x010E && address % 4 == 2 {
            self.0[((address - 0x0100) / 4) as usize].control()
        } else {
            0
        }
    }

    /// What a byte read at `address` returns.
    pub open spec fn read8_spec(&self, address: u32) -> u8 {
        if address % 2 == 0 {
            spec_lo8(self.read16_spec(address))
        } else {
            spec_hi8(self.read16_spec(spec_align2(address)))
        }
    }

    /// Read one byte of a timer register as the bus sees it.
    pub fn read8(&self, address: u32) -> (r: u8)
        ensures
            r == self.read8_spec(address),
    {
        if address % 2 == 0 {
            lo8(self.read16(address))
        } else {
            hi8(self.read16(align2(address)))
        }
    }

    /// The timers after a 16-bit write: the reload value at 0x100 + 4i, the
    /// control bits at 0x102 + 4i, nothing elsewhere.
    pub open spec fn write16_spec(self, address: u32, value: u16) -> Timers {
        if 0x0100 <= address <= 0x010E && address % 4 == 0 {
            let id = (address - 0x0100) / 4;
            Timers(spec_array_update(self.0, id, Timer { reload: value, ..self.0[id] }))
        } else if 0x0100 <= address <= 0x010E && address % 4 == 2 {
            let id = (address - 0x0100) / 4;
            Timers(spec_array_update(self.0, id, self.0[id].apply_tmr_cnt_spec(value)))
        } else {
            self
        }
    }

    /// Write a timer register as the bus does.
    pub fn write16(&mut self, address: u32, value: u16)
        ensures
            *final(self) == old(self).write16_spec(address, value),
    {
        if 0x0100 <= address && address <= 0x010E && address % 4 == 0 {
            let id = ((address - 0x0100) / 4) as usize;
            let mut timer = self.0[id];
            timer.reload = value;
            self.0[id] = timer;
        } else if 0x0100 <= address && address <= 0x010E && address % 4 == 2 {
            let id = ((address - 0x0100) / 4) as usize;
            let mut timer = self.0[id];
            timer.apply_tmr_cnt(value);
            self.0[id] = timer;
        }
    }

    /// The halfword that a byte write completes: the reload value for a
    /// counter register, since a write goes there, and what a read returns
    /// for every other address.
    pub open spec fn raw_read16_spec(&self, address: u32) -> u16 {
        if 0x0100 <= address <= 0x010E && address % 4 == 0 {
            self.0[(address - 0x0100) / 4].reload
        } else {
            self.read16_spec(address)
        }
    }

    /// The halfword that a byte write completes.
    pub fn raw_read16(&self, address: u32) -> (r: u16)
        ensures
            r == self.raw_read16_spec(address),
    {
        if 0x0100 <= address && address <= 0x010E && address % 4 == 0 {
            self.0[((address - 0x0100) / 4) as usize].reload
        } else {
            self.read16(address)
        }
    }

    /// The timers after a byte write: the halfword register that holds the
    /// byte is written with the new byte beside the byte that was there.
    pub open spec fn write8_spec(self, address: u32, value: u8) -> Timers {
        let old = self.raw_read16_spec(spec_align2(address));
        if address % 2 == 0 {
            self.write16_spec(address, spec_le16(value, spec_hi8(old)))
        } else {
            self.write16_spec(spec_align2(address), spec_le16(spec_lo8(old), value))
        }
    }

    /// Write one byte of a timer register as the bus does.
    pub fn write8(&mut self, address: u32, value: u8)
        ensures
            *final(self) == old(self).write8_spec(address, value),
    {
        let old = self.raw_read16(align2(address));
        if address % 2 == 0 {
            self.write16(address, le16(value, hi8(old)));
        } else {
            self.write16(align2(address), le16(lo8(old), value));
        }
    }
}

} // verus!
