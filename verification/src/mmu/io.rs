//! The I/O registers as a device of their own: the display, the keys and
//! the interrupt registers, addressed by their offset into the I/O region.
use vstd::prelude::*;
use crate::arm::interpreter::arm7tdmi::{Arm7TDMI, Mode};
use crate::bits::{hi8, le16, lo8, spec_byte, spec_hi8, spec_le16, spec_lo8};
use crate::mmu::bus::{acknowledged, spec_acknowledged, spec_with_byte, KEYINPUT};
use crate::mmu::irq::{IE, IF, IME};
use crate::mmu::Mcu;
use crate::ppu::lcd::Ppu;

verus! {

/// The display, the keys and the interrupt registers.
pub struct Io {
    pub ppu: Ppu,
    pub key_input: KEYINPUT,
    pub ime: IME,
    pub ie: IE,
    pub iff: IF,
}

/// A 32-bit register with byte `i` replaced by `value`.
fn replace_byte(x: u32, i: u32, value: u8) -> (r: u32)
    requires
        1 <= i <= 3,
    ensures
        r == spec_with_byte(x, i, value),
{
    if i == 1 {
        x - ((x / 0x100) % 0x100) * 0x100 + (value as u32) * 0x100
    } else if i == 2 {
        x - ((x / 0x1_0000) % 0x100) * 0x1_0000 + (value as u32) * 0x1_0000
    } else {
        x - (x / 0x100_0000) * 0x100_0000 + (value as u32) * 0x100_0000
    }
}

/// Byte 1, 2 or 3 of a 32-bit register.
fn upper_byte(x: u32, i: u32) -> (r: u8)
    requires
        1 <= i <= 3,
    ensures
        r == spec_byte(x, i),
{
    if i == 1 {
        ((x / 0x100) % 0x100) as u8
    } else if i == 2 {
        ((x / 0x1_0000) % 0x100) as u8
    } else {
        (x / 0x100_0000) as u8
    }
}

impl Io {
    /// Whether the processor `cpu` is to take an interrupt: the master
    /// enable is set, a source is both enabled and pending, and the
    /// processor does not mask interrupts.
    pub open spec fn irq_pending(&self, cpu: &Arm7TDMI) -> bool {
        self.ime.spec_enabled() && !cpu.cpsr.spec_irq() && (self.iff.0 & self.ie.0) != 0
    }

    /// Let the processor take an interrupt where one is to be taken: an
    /// exception into Irq mode at vector 0x18.
    pub fn handle_irq(&mut self, cpu: &mut Arm7TDMI)
        requires
            old(cpu).wf(),
        ensures
            *final(cpu) == (if old(self).irq_pending(old(cpu)) {
                old(cpu).exception_spec(Mode::Irq, 0x18, 4, true)
            } else {
                *old(cpu)
            }),
            final(cpu).wf(),
            *final(self) == *old(self),
    {
        if self.ime.enabled() && !cpu.cpsr.irq() && (self.iff.iff() & self.ie.ie()) != 0 {
            cpu.exception(Mode::Irq, 0x18, 4, true);
        }
    }

    /// What a byte read at `address` returns: the display registers up to
    /// 0x54, the keys at 0x130, the interrupt registers from 0x200 to
    /// 0x20B, and 0xFF everywhere else.
    pub open spec fn read8_spec(&self, address: u32) -> u8 {
        if address <= 0x54 {
            self.ppu.read8_spec(address)
        } else if address == 0x130 {
            spec_lo8(self.key_input.0)
        } else if address == 0x131 {
            spec_hi8(self.key_input.0)
        } else if address == 0x200 {
            spec_lo8(self.ie.0)
        } else if address == 0x201 {
            spec_hi8(self.ie.0)
        } else if address == 0x202 {
            spec_lo8(self.iff.0)
        } else if address == 0x203 {
            spec_hi8(self.iff.0)
        } else if address == 0x208 {
            if self.ime.spec_enabled() { 1 } else { 0 }
        } else if 0x209 <= address <= 0x20B {
            spec_byte(self.ime.0, (address - 0x208) as u32)
        } else {
            0xFF
        }
    }

    /// The registers after a byte write of `value` at `address`. A write
    /// to the request flags clears the flags whose bits are set in
    /// `value`; a write to 0x208 sets the master enable from bit 0; a
    /// write to no register changes nothing.
    pub open spec fn write8_spec(self, address: u32, value: u8) -> Io {
        if address <= 0x54 {
            Io { ppu: self.ppu.write8_spec(address, value), ..self }
        } else if address == 0x200 {
            Io { ie: IE(spec_le16(value, spec_hi8(self.ie.0))), ..self }
        } else if address == 0x201 {
            Io { ie: IE(spec_le16(spec_lo8(self.ie.0), value)), ..self }
        } else if address == 0x202 {
            Io { iff: IF(spec_acknowledged(self.iff.0, value as u16)), ..self }
        } else if address == 0x203 {
            Io { iff: IF(spec_acknowledged(self.iff.0, (value as u16) << 8)), ..self }
        } else if address == 0x208 {
            Io { ime: self.ime.with_enabled(value % 2 == 1), ..self }
        } else if 0x209 <= address <= 0x20B {
            Io { ime: IME(spec_with_byte(self.ime.0, (address - 0x208) as u32, value)), ..self }
        } else {
            self
        }
    }
}

impl Mcu for Io {
    /// The display is in a state that its state machine can go on from.
    open spec fn inv(&self) -> bool {
        self.ppu.timing_wf()
    }

    open spec fn peek8(&self, address: u32) -> u8 {
        self.read8_spec(address)
    }

    open spec fn poke8(self, address: u32, value: u8) -> Io {
        self.write8_spec(address, value)
    }

    fn read8(&self, address: u32) -> (r: u8) {
        if address <= 0x54 {
            self.ppu.read8(address)
        } else if address == 0x130 {
            lo8(self.key_input.keyinput())
        } else if address == 0x131 {
            hi8(self.key_input.keyinput())
        } else if address == 0x200 {
            lo8(self.ie.ie())
        } else if address == 0x201 {
            hi8(self.ie.ie())
        } else if address == 0x202 {
            lo8(self.iff.iff())
        } else if address == 0x203 {
            hi8(self.iff.iff())
        } else if address == 0x208 {
            if self.ime.enabled() { 1 } else { 0 }
        } else if 0x209 <= address && address <= 0x20B {
            upper_byte(self.ime.ime(), address - 0x208)
        } else {
            0xFF
        }
    }

    fn write8(&mut self, address: u32, value: u8) {
        if address <= 0x54 {
            self.ppu.write8(address, value);
        } else if address == 0x200 {
            self.ie = IE(le16(value, hi8(self.ie.0)));
        } else if address == 0x201 {
            self.ie = IE(le16(lo8(self.ie.0), value));
        } else if address == 0x202 {
            self.iff = IF(acknowledged(self.iff.0, value as u16));
        } else if address == 0x203 {
            self.iff = IF(acknowledged(self.iff.0, (value as u16) << 8));
        } else if address == 0x208 {
            self.ime.set_enabled(value % 2 == 1);
        } else if 0x209 <= address && address <= 0x20B {
            self.ime = IME(replace_byte(self.ime.0, address - 0x208, value));
        }
    }
}

impl Default for Io {
    /// The registers at power-on, with no key pressed.
    fn default() -> (io: Io)
        ensures
            io.ppu == Ppu::power_on(),
            io.key_input.0 == 0x03FF,
            io.ime.0 == 0,
            io.ie.0 == 0,
            io.iff.0 == 0,
            io.inv(),
    {
        Io { ppu: Ppu::new(), key_input: KEYINPUT(0x03FF), ime: IME(0), ie: IE(0), iff: IF(0) }
    }
}

} // verus!
