//! The processor state: registers, status registers, register banks and
//! the switch between modes.
use vstd::prelude::*;
use vstd::array::{spec_array_fill_for_copy_type, spec_array_update};
use vstd::std_specs::convert::FromSpecImpl;
use crate::arm::alu::{
    asr_spec, lsl_spec, lsr_spec, ror_spec, shift, shift_asr, shift_lsl, shift_lsr, shift_ror, shift_spec,
};
use crate::bits::{bit, lemma_tabulate, rotate_right, spec_bit, spec_rotate_right, tabulate};
use crate::arm::interpreter::decode::Decoder;
use crate::mmu::bus::Bus;
use crate::mmu::Mcu;

verus! {

/// The instruction set that the processor decodes.
#[derive(Clone, Copy, PartialEq, Eq, Structural, Debug)]
pub enum State {
    Arm,
    Thumb,
}

impl FromSpecImpl<bool> for State {
    open spec fn obeys_from_spec() -> bool {
        true
    }

    open spec fn from_spec(value: bool) -> State {
        if value {
            State::Thumb
        } else {
            State::Arm
        }
    }
}

impl From<bool> for State {
    fn from(value: bool) -> (s: State) {
        if value {
            State::Thumb
        } else {
            State::Arm
        }
    }
}

impl FromSpecImpl<State> for bool {
    open spec fn obeys_from_spec() -> bool {
        true
    }

    open spec fn from_spec(value: State) -> bool {
        value == State::Thumb
    }
}

impl From<State> for bool {
    fn from(value: State) -> (b: bool) {
        match value {
            State::Arm => false,
            State::Thumb => true,
        }
    }
}

/// The seven processor modes.
#[derive(Clone, Copy, PartialEq, Eq, Structural, Hash, Debug)]
pub enum Mode {
    User,
    Fiq,
    Irq,
    Supervisor,
    Abort,
    Undefined,
    System,
}

impl Mode {
    /// The five mode bits of the mode.
    pub open spec fn spec_bits(self) -> u32 {
        match self {
            Mode::User => 0b10000,
            Mode::Fiq => 0b10001,
            Mode::Irq => 0b10010,
            Mode::Supervisor => 0b10011,
            Mode::Abort => 0b10111,
            Mode::Undefined => 0b11011,
            Mode::System => 0b11111,
        }
    }

    /// The five mode bits of the mode.
    #[verifier::when_used_as_spec(spec_bits)]
    pub fn bits(self) -> (r: u32)
        ensures
            r == self.spec_bits(),
            16 <= r < 32,
    {
        match self {
            Mode::User => 0b10000,
            Mode::Fiq => 0b10001,
            Mode::Irq => 0b10010,
            Mode::Supervisor => 0b10011,
            Mode::Abort => 0b10111,
            Mode::Undefined => 0b11011,
            Mode::System => 0b11111,
        }
    }

    /// The mode that five mode bits name, where they name one.
    pub open spec fn spec_from_bits(bits: u32) -> Option<Mode> {
        if bits == 0b10000 {
            Some(Mode::User)
        } else if bits == 0b10001 {
            Some(Mode::Fiq)
        } else if bits == 0b10010 {
            Some(Mode::Irq)
        } else if bits == 0b10011 {
            Some(Mode::Supervisor)
        } else if bits == 0b10111 {
            Some(Mode::Abort)
        } else if bits == 0b11011 {
            Some(Mode::Undefined)
        } else if bits == 0b11111 {
            Some(Mode::System)
        } else {
            None
        }
    }

    /// The mode that five mode bits name, where they name one.
    #[verifier::when_used_as_spec(spec_from_bits)]
    pub fn from_bits(bits: u32) -> (r: Option<Mode>)
        ensures
            r == Self::spec_from_bits(bits),
    {
        if bits == 0b10000 {
            Some(Mode::User)
        } else if bits == 0b10001 {
            Some(Mode::Fiq)
        } else if bits == 0b10010 {
            Some(Mode::Irq)
        } else if bits == 0b10011 {
            Some(Mode::Supervisor)
        } else if bits == 0b10111 {
            Some(Mode::Abort)
        } else if bits == 0b11011 {
            Some(Mode::Undefined)
        } else if bits == 0b11111 {
            Some(Mode::System)
        } else {
            None
        }
    }

    /// The register bank of the mode: User and System share bank 0.
    pub open spec fn spec_bank(self) -> usize {
        match self {
            Mode::User => 0,
            Mode::System => 0,
            Mode::Fiq => 1,
            Mode::Irq => 2,
            Mode::Supervisor => 3,
            Mode::Abort => 4,
            Mode::Undefined => 5,
        }
    }

    /// The register bank of the mode.
    #[verifier::when_used_as_spec(spec_bank)]
    pub fn bank(self) -> (r: usize)
        ensures
            r == self.spec_bank(),
            r < 6,
    {
        match self {
            Mode::User => 0,
            Mode::System => 0,
            Mode::Fiq => 1,
            Mode::Irq => 2,
            Mode::Supervisor => 3,
            Mode::Abort => 4,
            Mode::Undefined => 5,
        }
    }

    /// Whether the mode has a saved status register: every mode but User
    /// and System.
    pub open spec fn spec_has_spsr(self) -> bool {
        self != Mode::User && self != Mode::System
    }

    /// Whether the mode has a saved status register.
    #[verifier::when_used_as_spec(spec_has_spsr)]
    pub fn has_spsr(self) -> (r: bool)
        ensures
            r == self.spec_has_spsr(),
    {
        !matches!(self, Mode::User | Mode::System)
    }

    /// Whether the mode is the fast interrupt mode, which has registers 8
    /// to 12 of its own.
    pub open spec fn spec_is_fiq(self) -> bool {
        self == Mode::Fiq
    }

    /// Whether the mode is the fast interrupt mode.
    #[verifier::when_used_as_spec(spec_is_fiq)]
    pub fn is_fiq(self) -> (r: bool)
        ensures
            r == self.spec_is_fiq(),
    {
        matches!(self, Mode::Fiq)
    }
}

/// A program status register: the mode in bits 0 to 4, the instruction set
/// in bit 5, the interrupt masks in bits 6 and 7 and the flags V, C, Z and
/// N in bits 28 to 31.
#[derive(Clone, Copy, Debug)]
pub struct Cpsr(pub u32);

/// 1 for a set flag, 0 for a clear one.
pub open spec fn one(b: bool) -> int {
    if b {
        1
    } else {
        0
    }
}

impl Cpsr {
    /// The whole register.
    pub open spec fn spec_cpsr(&self) -> u32 {
        self.0
    }

    /// The whole register.
    #[verifier::when_used_as_spec(spec_cpsr)]
    pub fn cpsr(&self) -> (r: u32)
        ensures
            r == self.0,
    {
        self.0
    }

    /// Replace the whole register.
    pub fn set_cpsr(&mut self, value: u32)
        ensures
            final(self).0 == value,
    {
        self.0 = value;
    }

    /// The mode, where the mode bits name one.
    pub open spec fn spec_mode(&self) -> Option<Mode> {
        Mode::spec_from_bits(self.0 % 32)
    }

    /// The mode, where the mode bits name one.
    #[verifier::when_used_as_spec(spec_mode)]
    pub fn mode(&self) -> (r: Option<Mode>)
        ensures
            r == self.spec_mode(),
    {
        Mode::from_bits(self.0 % 32)
    }

    /// The register with the mode bits of `mode`.
    pub open spec fn with_mode(self, mode: Mode) -> Cpsr {
        Cpsr((self.0 - self.0 % 32 + mode.spec_bits()) as u32)
    }

    /// Set the mode bits.
    pub fn set_mode(&mut self, mode: Mode)
        ensures
            *final(self) == old(self).with_mode(mode),
            final(self).spec_mode() == Some(mode),
    {
        self.0 = self.0 - self.0 % 32 + mode.bits();
    }

    /// The instruction set.
    pub open spec fn spec_state(&self) -> State {
        if (self.0 / 0x20) % 2 == 1 {
            State::Thumb
        } else {
            State::Arm
        }
    }

    /// The instruction set.
    #[verifier::when_used_as_spec(spec_state)]
    pub fn state(&self) -> (r: State)
        ensures
            r == self.spec_state(),
    {
        if (self.0 / 0x20) % 2 == 1 {
            State::Thumb
        } else {
            State::Arm
        }
    }

    /// The register with the instruction set bit of `state`.
    pub open spec fn with_state(self, state: State) -> Cpsr {
        Cpsr((self.0 - ((self.0 / 0x20) % 2) * 0x20 + one(state == State::Thumb) * 0x20) as u32)
    }

    /// Set the instruction set bit.
    pub fn set_state(&mut self, state: State)
        ensures
            *final(self) == old(self).with_state(state),
            final(self).spec_mode() == old(self).spec_mode(),
    {
        let bit: u32 = match state {
            State::Arm => 0,
            State::Thumb => 0x20,
        };
        self.0 = self.0 - ((self.0 / 0x20) % 2) * 0x20 + bit;
    }

    /// Whether fast interrupts are masked.
    pub open spec fn spec_fiq(&self) -> bool {
        (self.0 / 0x40) % 2 == 1
    }

    /// Whether fast interrupts are masked.
    #[verifier::when_used_as_spec(spec_fiq)]
    pub fn fiq(&self) -> (r: bool)
        ensures
            r == self.spec_fiq(),
    {
        (self.0 / 0x40) % 2 == 1
    }

    /// Whether interrupts are masked.
    pub open spec fn spec_irq(&self) -> bool {
        (self.0 / 0x80) % 2 == 1
    }

    /// Whether interrupts are masked.
    #[verifier::when_used_as_spec(spec_irq)]
    pub fn irq(&self) -> (r: bool)
        ensures
            r == self.spec_irq(),
    {
        (self.0 / 0x80) % 2 == 1
    }

    /// The register with the interrupt mask set to `v`.
    pub open spec fn with_irq(self, v: bool) -> Cpsr {
        Cpsr((self.0 - ((self.0 / 0x80) % 2) * 0x80 + one(v) * 0x80) as u32)
    }

    /// Mask or unmask interrupts.
    pub fn set_irq(&mut self, v: bool)
        ensures
            *final(self) == old(self).with_irq(v),
            final(self).spec_mode() == old(self).spec_mode(),
    {
        let bit: u32 = if v { 0x80 } else { 0 };
        self.0 = self.0 - ((self.0 / 0x80) % 2) * 0x80 + bit;
    }

    /// The overflow flag.
    pub open spec fn spec_v(&self) -> bool {
        (self.0 / 0x1000_0000) % 2 == 1
    }

    /// The overflow flag.
    #[verifier::when_used_as_spec(spec_v)]
    pub fn v(&self) -> (r: bool)
        ensures
            r == self.spec_v(),
    {
        (self.0 / 0x1000_0000) % 2 == 1
    }

    /// The carry flag.
    pub open spec fn spec_c(&self) -> bool {
        (self.0 / 0x2000_0000) % 2 == 1
    }

    /// The carry flag.
    #[verifier::when_used_as_spec(spec_c)]
    pub fn c(&self) -> (r: bool)
        ensures
            r == self.spec_c(),
    {
        (self.0 / 0x2000_0000) % 2 == 1
    }

    /// The zero flag.
    pub open spec fn spec_z(&self) -> bool {
        (self.0 / 0x4000_0000) % 2 == 1
    }

    /// The zero flag.
    #[verifier::when_used_as_spec(spec_z)]
    pub fn z(&self) -> (r: bool)
        ensures
            r == self.spec_z(),
    {
        (self.0 / 0x4000_0000) % 2 == 1
    }

    /// The sign flag.
    pub open spec fn spec_n(&self) -> bool {
        self.0 >= 0x8000_0000
    }

    /// The sign flag.
    #[verifier::when_used_as_spec(spec_n)]
    pub fn n(&self) -> (r: bool)
        ensures
            r == self.spec_n(),
    {
        self.0 >= 0x8000_0000
    }

    /// The register with the overflow flag set to `v`.
    pub open spec fn with_v(self, v: bool) -> Cpsr {
        Cpsr((self.0 - one(self.spec_v()) * 0x1000_0000 + one(v) * 0x1000_0000) as u32)
    }

    /// The register with the carry flag set to `c`.
    pub open spec fn with_c(self, c: bool) -> Cpsr {
        Cpsr((self.0 - one(self.spec_c()) * 0x2000_0000 + one(c) * 0x2000_0000) as u32)
    }

    /// The register with the zero flag set to `z`.
    pub open spec fn with_z(self, z: bool) -> Cpsr {
        Cpsr((self.0 - one(self.spec_z()) * 0x4000_0000 + one(z) * 0x4000_0000) as u32)
    }

    /// The register with the sign flag set to `n`.
    pub open spec fn with_n(self, n: bool) -> Cpsr {
        Cpsr((self.0 - one(self.spec_n()) * 0x8000_0000 + one(n) * 0x8000_0000) as u32)
    }

    /// Set the overflow flag.
    pub fn set_v(&mut self, v: bool)
        ensures
            *final(self) == old(self).with_v(v),
            final(self).spec_mode() == old(self).spec_mode(),
    {
        let was: u32 = if self.v() { 0x1000_0000 } else { 0 };
        let now: u32 = if v { 0x1000_0000 } else { 0 };
        self.0 = self.0 - was + now;
    }

    /// Set the carry flag.
    pub fn set_c(&mut self, c: bool)
        ensures
            *final(self) == old(self).with_c(c),
            final(self).spec_mode() == old(self).spec_mode(),
    {
        let was: u32 = if self.c() { 0x2000_0000 } else { 0 };
        let now: u32 = if c { 0x2000_0000 } else { 0 };
        self.0 = self.0 - was + now;
    }

    /// Set the zero flag.
    pub fn set_z(&mut self, z: bool)
        ensures
            *final(self) == old(self).with_z(z),
            final(self).spec_mode() == old(self).spec_mode(),
    {
        let was: u32 = if self.z() { 0x4000_0000 } else { 0 };
        let now: u32 = if z { 0x4000_0000 } else { 0 };
        self.0 = self.0 - was + now;
    }

    /// Set the sign flag.
    pub fn set_n(&mut self, n: bool)
        ensures
            *final(self) == old(self).with_n(n),
            final(self).spec_mode() == old(self).spec_mode(),
    {
        let was: u32 = if self.n() { 0x8000_0000 } else { 0 };
        let now: u32 = if n { 0x8000_0000 } else { 0 };
        self.0 = self.0 - was + now;
    }

    /// The register with the zero flag set where `result` is 0 and the
    /// sign flag set to bit 31 of `result`.
    pub open spec fn with_nz(self, result: u32) -> Cpsr {
        self.with_z(result == 0).with_n(result >= 0x8000_0000)
    }

    /// Set the zero and sign flags from a result.
    pub fn set_nz(&mut self, result: u32)
        ensures
            *final(self) == old(self).with_nz(result),
            final(self).spec_mode() == old(self).spec_mode(),
    {
        self.set_z(result == 0);
        self.set_n(result >= 0x8000_0000);
    }

    /// The register with the four flags as a data processing operation
    /// with the S bit leaves them.
    pub open spec fn with_flags(self, result: u32, c: bool, v: bool) -> Cpsr {
        self.with_nz(result).with_c(c).with_v(v)
    }

    /// Set the four flags.
    pub fn set_flags(&mut self, result: u32, c: bool, v: bool)
        ensures
            *final(self) == old(self).with_flags(result, c, v),
            final(self).spec_mode() == old(self).spec_mode(),
    {
        self.set_nz(result);
        self.set_c(c);
        self.set_v(v);
    }
}

/// The sign flag reads as it was written, and writing it leaves the other
/// flags and the low 28 bits as they were.
pub proof fn lemma_write_n(psr: Cpsr, b: bool)
    ensures
        psr.with_n(b).spec_n() == b,
        psr.with_n(b).spec_z() == psr.spec_z(),
        psr.with_n(b).spec_c() == psr.spec_c(),
        psr.with_n(b).spec_v() == psr.spec_v(),
        psr.with_n(b).0 % 0x1000_0000 == psr.0 % 0x1000_0000,
{
    let x = psr.0 as int;
    let y = psr.with_n(b).0 as int;
    assert(y == x - one(psr.spec_n()) * 0x8000_0000 + one(b) * 0x8000_0000);
    assert(y % 0x8000_0000 == x % 0x8000_0000);
}

/// The zero flag reads as it was written, and writing it leaves the other
/// flags and the low 28 bits as they were.
pub proof fn lemma_write_z(psr: Cpsr, b: bool)
    ensures
        psr.with_z(b).spec_z() == b,
        psr.with_z(b).spec_n() == psr.spec_n(),
        psr.with_z(b).spec_c() == psr.spec_c(),
        psr.with_z(b).spec_v() == psr.spec_v(),
        psr.with_z(b).0 % 0x1000_0000 == psr.0 % 0x1000_0000,
{
    let x = psr.0 as int;
    let y = psr.with_z(b).0 as int;
    assert(y == x - one(psr.spec_z()) * 0x4000_0000 + one(b) * 0x4000_0000);
    assert(y % 0x4000_0000 == x % 0x4000_0000);
    assert(y / 0x8000_0000 == x / 0x8000_0000);
}

/// The carry flag reads as it was written, and writing it leaves the other
/// flags and the low 28 bits as they were.
pub proof fn lemma_write_c(psr: Cpsr, b: bool)
    ensures
        psr.with_c(b).spec_c() == b,
        psr.with_c(b).spec_n() == psr.spec_n(),
        psr.with_c(b).spec_z() == psr.spec_z(),
        psr.with_c(b).spec_v() == psr.spec_v(),
        psr.with_c(b).0 % 0x1000_0000 == psr.0 % 0x1000_0000,
{
    let x = psr.0 as int;
    let y = psr.with_c(b).0 as int;
    assert(y == x - one(psr.spec_c()) * 0x2000_0000 + one(b) * 0x2000_0000);
    assert(y % 0x2000_0000 == x % 0x2000_0000);
    assert(y / 0x4000_0000 == x / 0x4000_0000);
}

/// The overflow flag reads as it was written, and writing it leaves the
/// other flags and the low 28 bits as they were.
pub proof fn lemma_write_v(psr: Cpsr, b: bool)
    ensures
        psr.with_v(b).spec_v() == b,
        psr.with_v(b).spec_n() == psr.spec_n(),
        psr.with_v(b).spec_z() == psr.spec_z(),
        psr.with_v(b).spec_c() == psr.spec_c(),
        psr.with_v(b).0 % 0x1000_0000 == psr.0 % 0x1000_0000,
{
    let x = psr.0 as int;
    let y = psr.with_v(b).0 as int;
    assert(y == x - one(psr.spec_v()) * 0x1000_0000 + one(b) * 0x1000_0000);
    assert(y % 0x1000_0000 == x % 0x1000_0000);
    assert(y / 0x2000_0000 == x / 0x2000_0000);
}

/// The saved status register and the seven registers (8 to 14) that a
/// mode can have of its own.
#[derive(Clone, Copy, Debug)]
pub struct BankedRegisters {
    pub spsr: Cpsr,
    pub bank: [u32; 7],
}

/// The six register banks, in the order of `Mode::bank`.
#[derive(Clone, Copy, Debug)]
pub struct Registers(pub [BankedRegisters; 6]);

/// The processor.
pub struct Arm7TDMI {
    /// The sixteen registers that the current mode sees; 13 is the stack
    /// pointer, 14 the link register, 15 the program counter.
    pub regs: [u32; 16],
    /// The current program status register.
    pub cpsr: Cpsr,
    /// The memory bus.
    pub bus: Bus,
    /// The saved program status register of the current mode.
    pub spsr: Cpsr,
    /// The registers and saved status registers of the modes that are not
    /// current.
    pub banked_regs: Registers,
    /// The instruction that is being executed has written the program
    /// counter.
    pub branch: bool,
    /// The tables of handlers.
    pub decoder: Decoder,
}

/// The registers 8 + `first` and up, as a function of the distance.
pub open spec fn live_from(regs: [u32; 16], first: int) -> spec_fn(int) -> u32 {
    |i: int| regs[8 + first + i]
}

/// The registers 8 to 14 that a mode with bank `nb` sees after a switch:
/// 8 to 12 come from `shared`, 13 and 14 from `own`.
pub open spec fn bank_view(shared: [u32; 7], own: [u32; 7]) -> spec_fn(int) -> u32 {
    |i: int|
        if i < 5 {
            shared[i]
        } else {
            own[i]
        }
}

impl Arm7TDMI {
    /// Every status register names a mode, and the bus is in order.
    pub open spec fn wf(&self) -> bool {
        &&& self.cpsr.spec_mode() is Some
        &&& self.spsr.spec_mode() is Some
        &&& forall|b: int| 0 <= b < 6 ==> (#[trigger] self.banked_regs.0[b]).spsr.spec_mode() is Some
        &&& self.bus.inv()
        &&& self.decoder.wf()
    }

    /// The current mode.
    pub open spec fn current_mode(&self) -> Mode {
        self.cpsr.spec_mode()->Some_0
    }

    /// The banks after the registers of mode `current` were saved: its
    /// bank takes the saved status register and registers 13 and 14; the
    /// fast interrupt bank takes registers 8 to 12 where `current` is the
    /// fast interrupt mode, and bank 0 takes them otherwise.
    pub open spec fn banks_saved(&self, current: Mode) -> [BankedRegisters; 6] {
        let cb = current.spec_bank() as int;
        let old = self.banked_regs.0;
        let own = BankedRegisters {
            spsr: self.spsr,
            bank: if current.spec_is_fiq() || cb == 0 {
                tabulate(old[cb].bank, 0, 7, live_from(self.regs, 0))
            } else {
                tabulate(old[cb].bank, 5, 2, live_from(self.regs, 5))
            },
        };
        let with_own = spec_array_update(old, cb, own);
        if current.spec_is_fiq() || cb == 0 {
            with_own
        } else {
            spec_array_update(
                with_own,
                0,
                BankedRegisters { bank: tabulate(old[0].bank, 0, 5, live_from(self.regs, 0)), ..old[0] },
            )
        }
    }

    /// The processor after the registers were exchanged for a switch from
    /// mode `current` to mode `new`; the mode bits themselves stay. The
    /// registers of `current` are saved, then registers 8 to 14 and the
    /// saved status register of `new` are loaded; User and System, which
    /// have no saved status register, see a copy of the current one.
    pub open spec fn swap_regs_spec(self, current: Mode, new: Mode) -> Arm7TDMI {
        let banks = self.banks_saved(current);
        let nb = new.spec_bank() as int;
        let shared = if new.spec_is_fiq() { banks[1].bank } else { banks[0].bank };
        Arm7TDMI {
            regs: tabulate(self.regs, 8, 7, bank_view(shared, banks[nb].bank)),
            spsr: if new.spec_has_spsr() { banks[nb].spsr } else { self.cpsr },
            banked_regs: Registers(banks),
            ..self
        }
    }

    fn save_bank(&mut self, current: Mode)
        ensures
            *final(self) == (Arm7TDMI { banked_regs: Registers(old(self).banks_saved(current)), ..*old(self) }),
    {
        let cb = current.bank();
        let whole = current.is_fiq() || cb == 0;
        let first: usize = if whole { 0 } else { 5 };
        let base = self.banked_regs.0[cb].bank;
        let mut bank = base;
        let mut i: usize = first;
        while i < 7
            invariant
                first <= i <= 7,
                *self == *old(self),
                bank == tabulate(base, first as int, (i - first) as nat, live_from(self.regs, first as int)),
            decreases 7 - i,
        {
            bank[i] = self.regs[8 + i];
            i += 1;
        }
        self.banked_regs.0[cb] = BankedRegisters { spsr: self.spsr, bank };
        if !whole {
            let shared_base = self.banked_regs.0[0].bank;
            let mut shared = shared_base;
            let mut j: usize = 0;
            while j < 5
                invariant
                    j <= 5,
                    self.regs == old(self).regs,
                    shared == tabulate(shared_base, 0, j as nat, live_from(self.regs, 0)),
                decreases 5 - j,
            {
                shared[j] = self.regs[8 + j];
                j += 1;
            }
            let spsr = self.banked_regs.0[0].spsr;
            self.banked_regs.0[0] = BankedRegisters { spsr, bank: shared };
        }
    }

    /// Exchange the banked registers for a switch of mode. The mode bits
    /// are set by the caller afterwards.
    pub fn swap_regs(&mut self, current_mode: Mode, new_mode: Mode)
        requires
            old(self).wf(),
        ensures
            *final(self) == old(self).swap_regs_spec(current_mode, new_mode),
            final(self).wf(),
            final(self).cpsr == old(self).cpsr,
            final(self).bus == old(self).bus,
            final(self).branch == old(self).branch,
            final(self).decoder == old(self).decoder,
            forall|r: int| 0 <= r < 8 || r == 15 ==> final(self).regs[r] == old(self).regs[r],
    {
        self.save_bank(current_mode);
        let nb = new_mode.bank();
        let shared = if new_mode.is_fiq() { self.banked_regs.0[1].bank } else { self.banked_regs.0[0].bank };
        let own = self.banked_regs.0[nb].bank;
        let base = self.regs;
        let mut regs = base;
        let mut i: usize = 0;
        while i < 7
            invariant
                i <= 7,
                regs == tabulate(base, 8, i as nat, bank_view(shared, own)),
            decreases 7 - i,
        {
            regs[8 + i] = if i < 5 { shared[i] } else { own[i] };
            i += 1;
        }
        proof {
            lemma_tabulate(base, 8, 7, bank_view(shared, own));
        }
        self.regs = regs;
        self.spsr = if new_mode.has_spsr() { self.banked_regs.0[nb].spsr } else { self.cpsr };
    }
}

impl Arm7TDMI {
    /// Register `r` as mode `m` sees it while the processor is in mode
    /// `current`: registers 0 to 7 and 15 are the same for every mode;
    /// registers 8 to 12 exist twice, once for the fast interrupt mode and
    /// once for all others; registers 13 and 14 exist once per bank.
    pub open spec fn visible_reg(&self, current: Mode, m: Mode, r: int) -> u32 {
        if r < 8 || r == 15 {
            self.regs[r]
        } else if r < 13 {
            if m.spec_is_fiq() == current.spec_is_fiq() {
                self.regs[r]
            } else if m.spec_is_fiq() {
                self.banked_regs.0[1].bank[r - 8]
            } else {
                self.banked_regs.0[0].bank[r - 8]
            }
        } else if m.spec_bank() == current.spec_bank() {
            self.regs[r]
        } else {
            self.banked_regs.0[m.spec_bank() as int].bank[r - 8]
        }
    }

    /// The saved status register of mode `m` while the processor is in
    /// mode `current`.
    pub open spec fn visible_spsr(&self, current: Mode, m: Mode) -> Cpsr {
        if m.spec_bank() == current.spec_bank() {
            self.spsr
        } else {
            self.banked_regs.0[m.spec_bank() as int].spsr
        }
    }
}

/// A switch of mode loses no register: after the exchange for a switch
/// from `current` to `new`, every mode sees in each of its registers, and
/// in its saved status register where it has one, what it saw before. So
/// the banks hold what `current` had in its registers, and the live
/// registers are those of `new`.
pub proof fn lemma_mode_switch_preserves_registers(cpu: Arm7TDMI, current: Mode, new: Mode, m: Mode, r: int)
    requires
        0 <= r < 16,
    ensures
        cpu.swap_regs_spec(current, new).visible_reg(new, m, r) == cpu.visible_reg(current, m, r),
        m.spec_has_spsr() ==> cpu.swap_regs_spec(current, new).visible_spsr(new, m) == cpu.visible_spsr(
            current,
            m,
        ),
{
    let cb = current.spec_bank() as int;
    let nb = new.spec_bank() as int;
    let old = cpu.banked_regs.0;
    let banks = cpu.banks_saved(current);
    let shared = if new.spec_is_fiq() { banks[1].bank } else { banks[0].bank };
    lemma_tabulate(old[cb].bank, 0, 7, live_from(cpu.regs, 0));
    lemma_tabulate(old[cb].bank, 5, 2, live_from(cpu.regs, 5));
    lemma_tabulate(old[0].bank, 0, 5, live_from(cpu.regs, 0));
    lemma_tabulate(cpu.regs, 8, 7, bank_view(shared, banks[nb].bank));
    assert(forall|b: int| 0 <= b < 6 && b != cb && b != 0 ==> banks[b] == old[b]);
}

impl Arm7TDMI {
    /// Whether the processor is as it is at power-on with the cartridge
    /// image `rom` and the system ROM `bios`: in System mode and ARM
    /// state, every register zero, every saved status register naming
    /// User mode, and the bus at power-on.
    pub open spec fn is_power_on(&self, rom: Seq<u8>, bios: Seq<u8>) -> bool {
        &&& self.regs == spec_array_fill_for_copy_type::<u32, 16>(0)
        &&& self.cpsr.0 == 0x1F
        &&& self.spsr.0 == 0x10
        &&& self.banked_regs.0 == spec_array_fill_for_copy_type::<BankedRegisters, 6>(
            BankedRegisters { spsr: Cpsr(0x10), bank: spec_array_fill_for_copy_type::<u32, 7>(0) },
        )
        &&& !self.branch
        &&& self.bus.is_power_on(bios, rom)
        &&& self.decoder.wf()
    }

    /// A processor at power-on, on a bus with the system ROM `bios` and the
    /// cartridge image `rom`.
    pub fn new(rom: &[u8], bios: &[u8]) -> (cpu: Arm7TDMI)
        ensures
            cpu.is_power_on(rom@, bios@),
            cpu.wf(),
    {
        let bank = BankedRegisters { spsr: Cpsr(0x10), bank: [0; 7] };
        Arm7TDMI {
            regs: [0; 16],
            cpsr: Cpsr(0x1F),
            bus: Bus::with_images(bios, rom),
            spsr: Cpsr(0x10),
            banked_regs: Registers([bank; 6]),
            branch: false,
            decoder: Decoder::new(),
        }
    }

    /// Whether an instruction with condition field `cond` executes: the
    /// fifteen conditions over the flags, and condition 15 counts as
    /// "always" too.
    pub open spec fn cond_spec(&self, cond: u8) -> bool {
        let n = self.cpsr.spec_n();
        let z = self.cpsr.spec_z();
        let c = self.cpsr.spec_c();
        let v = self.cpsr.spec_v();
        if cond == 0 {
            z
        } else if cond == 1 {
            !z
        } else if cond == 2 {
            c
        } else if cond == 3 {
            !c
        } else if cond == 4 {
            n
        } else if cond == 5 {
            !n
        } else if cond == 6 {
            v
        } else if cond == 7 {
            !v
        } else if cond == 8 {
            c && !z
        } else if cond == 9 {
            !c || z
        } else if cond == 10 {
            n == v
        } else if cond == 11 {
            n != v
        } else if cond == 12 {
            !z && n == v
        } else if cond == 13 {
            z || n != v
        } else {
            true
        }
    }

    /// Whether an instruction with condition field `cond` executes.
    pub fn cond(&self, cond: u8) -> (r: bool)
        ensures
            r == self.cond_spec(cond),
    {
        let n = self.cpsr.n();
        let z = self.cpsr.z();
        let c = self.cpsr.c();
        let v = self.cpsr.v();
        if cond == 0 {
            z
        } else if cond == 1 {
            !z
        } else if cond == 2 {
            c
        } else if cond == 3 {
            !c
        } else if cond == 4 {
            n
        } else if cond == 5 {
            !n
        } else if cond == 6 {
            v
        } else if cond == 7 {
            !v
        } else if cond == 8 {
            c && !z
        } else if cond == 9 {
            !c || z
        } else if cond == 10 {
            n == v
        } else if cond == 11 {
            n != v
        } else if cond == 12 {
            !z && n == v
        } else if cond == 13 {
            z || n != v
        } else {
            true
        }
    }

    /// Logical shift left with the carry flag as carry in.
    pub fn lsl(&self, rm: u32, amount: u32, reg: bool) -> (r: (u32, bool))
        ensures
            r == lsl_spec(rm, amount, self.cpsr.spec_c()),
            amount == 32 ==> r == (0u32, spec_bit(rm, 0)),
    {
        shift_lsl(rm, amount, self.cpsr.c())
    }

    /// Logical shift right with the carry flag as carry in.
    pub fn lsr(&self, rm: u32, amount: u32, reg: bool) -> (r: (u32, bool))
        ensures
            r == lsr_spec(rm, amount, reg, self.cpsr.spec_c()),
    {
        shift_lsr(rm, amount, reg, self.cpsr.c())
    }

    /// Arithmetic shift right with the carry flag as carry in.
    pub fn asr(&self, rm: u32, amount: u32, reg: bool) -> (r: (u32, bool))
        ensures
            r == asr_spec(rm, amount, reg, self.cpsr.spec_c()),
    {
        shift_asr(rm, amount, reg, self.cpsr.c())
    }

    /// Rotate right with the carry flag as carry in.
    pub fn ror(&self, rm: u32, amount: u32, reg: bool) -> (r: (u32, bool))
        ensures
            r == ror_spec(rm, amount, reg, self.cpsr.spec_c()),
    {
        shift_ror(rm, amount, reg, self.cpsr.c())
    }

    /// Register `index` as an operand reads it: the program counter reads
    /// `ahead` bytes ahead of the instruction.
    pub open spec fn operand_reg(&self, index: int, ahead: u32) -> u32 {
        if index == 15 {
            self.regs[15].wrapping_add(ahead)
        } else {
            self.regs[index]
        }
    }

    /// Register `index` as an operand reads it.
    pub fn read_operand(&self, index: usize, ahead: u32) -> (r: u32)
        requires
            index < 16,
        ensures
            r == self.operand_reg(index as int, ahead),
    {
        if index == 15 {
            self.regs[15].wrapping_add(ahead)
        } else {
            self.regs[index]
        }
    }

    /// The second operand that the low twelve bits `op` of an instruction
    /// name, with the carry out of the shifter. With `i` set it is the
    /// low byte rotated right by twice the four bits above it, and the
    /// carry is bit 31 of the result, or the carry flag where the rotation
    /// is 0. With `i` clear it is register Rm shifted: bits 5 and 6 select
    /// the shift; where bit 4 is clear the amount is bits 7 to 11, and
    /// where it is set the amount is the low byte of register Rs, and the
    /// program counter as Rm then reads 12 bytes ahead and not 8.
    pub open spec fn barrel_shifter_spec(&self, i: bool, op: u16) -> (u32, bool) {
        if i {
            let rotation = (op / 0x100) % 16;
            let result = spec_rotate_right((op % 0x100) as u32, (rotation * 2) as u32);
            (result, if rotation == 0 { self.cpsr.spec_c() } else { spec_bit(result, 31) })
        } else {
            let by_register = (op / 0x10) % 2 == 1;
            let rm = self.operand_reg(op as int % 16, if by_register { 12 } else { 8 });
            let amount = if by_register {
                self.regs[(op as int / 0x100) % 16] % 0x100
            } else {
                ((op / 0x80) % 32) as u32
            };
            shift_spec(((op / 0x20) % 4) as u32, rm, amount as u32, by_register, self.cpsr.spec_c())
        }
    }

    /// Compute the second operand of an instruction.
    pub fn barrel_shifter<const I: bool>(&self, op: u16) -> (r: (u32, bool))
        ensures
            r == self.barrel_shifter_spec(I, op),
    {
        if I {
            let rotation = (op / 0x100) % 16;
            let result = rotate_right((op % 0x100) as u32, (rotation * 2) as u32);
            (result, if rotation == 0 { self.cpsr.c() } else { bit(result, 31) })
        } else {
            let by_register = (op / 0x10) % 2 == 1;
            let rm = self.read_operand((op % 16) as usize, if by_register { 12 } else { 8 });
            let amount = if by_register {
                self.regs[((op / 0x100) % 16) as usize] % 0x100
            } else {
                ((op / 0x80) % 32) as u32
            };
            shift(((op / 0x20) % 4) as u32, rm, amount, by_register, self.cpsr.c())
        }
    }

    /// The processor after it took an exception into `mode`: the status
    /// register is saved for `mode`, interrupts are masked, the ARM
    /// instruction set is selected, the registers of `mode` are live, its
    /// link register holds the address `back` bytes behind the program
    /// counter, and the program counter is at `vector`.
    pub open spec fn exception_spec(self, mode: Mode, vector: u32, back: u32, branch: bool) -> Arm7TDMI {
        let masked = self.cpsr.with_state(State::Arm).with_irq(true);
        let swapped = (Arm7TDMI { cpsr: masked, ..self }).swap_regs_spec(self.current_mode(), mode);
        Arm7TDMI {
            cpsr: masked.with_mode(mode),
            regs: spec_array_update(
                spec_array_update(swapped.regs, 14, self.regs[15].wrapping_add(back)),
                15,
                vector,
            ),
            spsr: self.cpsr,
            branch,
            ..swapped
        }
    }

    /// Take an exception.
    pub fn exception(&mut self, mode: Mode, vector: u32, back: u32, branch: bool)
        requires
            old(self).wf(),
        ensures
            *final(self) == old(self).exception_spec(mode, vector, back, branch),
            final(self).wf(),
    {
        let cpsr = self.cpsr;
        let current = match self.cpsr.mode() {
            Some(m) => m,
            None => Mode::System,
        };
        self.cpsr.set_state(State::Arm);
        self.cpsr.set_irq(true);
        self.swap_regs(current, mode);
        self.cpsr.set_mode(mode);
        self.regs[14] = self.regs[15].wrapping_add(back);
        self.spsr = cpsr;
        self.branch = branch;
        self.regs[15] = vector;
    }

    /// The processor after a software interrupt: an exception into
    /// Supervisor mode at vector 0x08 that returns behind the instruction,
    /// which is 2 bytes long in Thumb state (`t`) and 4 otherwise.
    pub open spec fn swi_spec(self, t: bool) -> Arm7TDMI {
        self.exception_spec(Mode::Supervisor, 0x08, if t { 2 } else { 4 }, true)
    }

    /// Software interrupt.
    pub fn swi<const T: bool>(&mut self, _opcode: u32)
        requires
            old(self).wf(),
        ensures
            *final(self) == old(self).swi_spec(T),
            final(self).wf(),
    {
        self.exception(Mode::Supervisor, 0x08, if T { 2 } else { 4 }, true);
    }

    /// The undefined instruction: an exception into Undefined mode at
    /// vector 0x04.
    pub fn undefined(&mut self, _opcode: u32)
        requires
            old(self).wf(),
        ensures
            *final(self) == old(self).exception_spec(Mode::Undefined, 0x04, 4, true),
            final(self).wf(),
    {
        self.exception(Mode::Undefined, 0x04, 4, true);
    }

    /// Whether an interrupt is to be taken: the master enable is set, the
    /// processor does not mask interrupts, and a source is both enabled
    /// and pending.
    pub open spec fn irq_pending(&self) -> bool {
        self.bus.ime.spec_enabled() && !self.cpsr.spec_irq() && (self.bus.iff.0 & self.bus.ie.0) != 0
    }

    /// The processor after the check for interrupts between two
    /// instructions: where one is to be taken, an exception into Irq mode
    /// at vector 0x18.
    pub open spec fn dispatch_irq_spec(self) -> Arm7TDMI {
        if self.irq_pending() {
            self.exception_spec(Mode::Irq, 0x18, 4, self.branch)
        } else {
            self
        }
    }

    /// Check for interrupts between two instructions.
    pub fn dispatch_irq(&mut self)
        requires
            old(self).wf(),
        ensures
            *final(self) == old(self).dispatch_irq_spec(),
            final(self).wf(),
    {
        if self.bus.ime.enabled() && !self.cpsr.irq() {
            let int_e = self.bus.ie.ie();
            let int_f = self.bus.iff.iff();
            if (int_f & int_e) != 0 {
                let branch = self.branch;
                self.exception(Mode::Irq, 0x18, 4, branch);
            }
        }
    }
}

/// Bit 4 of the current status register is always 1: every mode has it in
/// its mode bits, and a processor in order is in one of the modes.
pub proof fn lemma_status_bit_4(cpu: Arm7TDMI)
    requires
        cpu.wf(),
    ensures
        spec_bit(cpu.cpsr.0, 4),
        spec_bit(cpu.spsr.0, 4),
{
    let x = cpu.cpsr.0;
    let y = cpu.spsr.0;
    assert(x % 32 >= 16);
    assert(y % 32 >= 16);
    assert(x & (1u32 << 4u32) != 0) by (bit_vector)
        requires
            x % 32 >= 16,
    ;
    assert(y & (1u32 << 4u32) != 0) by (bit_vector)
        requires
            y % 32 >= 16,
    ;
}

} // verus!
