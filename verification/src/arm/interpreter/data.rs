//! The ARM instructions that work on registers only: data processing,
//! the multiplications and the transfers of the status registers.
use vstd::prelude::*;
use vstd::array::spec_array_update;
use crate::arm::alu::{dp, dp_spec, is_test, spec_is_test};
use crate::arm::interpreter::arm7tdmi::{Arm7TDMI, Cpsr, Mode};
use crate::bits::signed;

verus! {

/// The four bits of `opcode` that start at the bit of weight `weight`.
pub open spec fn spec_nibble(opcode: u32, weight: u32) -> int {
    (opcode as int / weight as int) % 16
}

/// The four bits of `opcode` that start at bit 0.
pub fn nibble0(opcode: u32) -> (r: usize)
    ensures
        r == spec_nibble(opcode, 1),
        r < 16,
{
    (opcode % 16) as usize
}

/// The four bits of `opcode` that start at bit 8.
pub fn nibble8(opcode: u32) -> (r: usize)
    ensures
        r == spec_nibble(opcode, 0x100),
        r < 16,
{
    ((opcode / 0x100) % 16) as usize
}

/// The four bits of `opcode` that start at bit 12.
pub fn nibble12(opcode: u32) -> (r: usize)
    ensures
        r == spec_nibble(opcode, 0x1000),
        r < 16,
{
    ((opcode / 0x1000) % 16) as usize
}

/// The four bits of `opcode` that start at bit 16.
pub fn nibble16(opcode: u32) -> (r: usize)
    ensures
        r == spec_nibble(opcode, 0x1_0000),
        r < 16,
{
    ((opcode / 0x1_0000) % 16) as usize
}

/// Bit `n` of `opcode`, `weight` being 2^n.
pub open spec fn spec_flag_bit(opcode: u32, weight: u32) -> bool {
    (opcode as int / weight as int) % 2 == 1
}

/// Bit 4 of `opcode`.
pub fn flag4(opcode: u32) -> (r: bool)
    ensures
        r == spec_flag_bit(opcode, 0x10),
{
    (opcode / 0x10) % 2 == 1
}

/// Bit 16 of `opcode`.
pub fn flag16(opcode: u32) -> (r: bool)
    ensures
        r == spec_flag_bit(opcode, 0x1_0000),
{
    (opcode / 0x1_0000) % 2 == 1
}

/// Bit 19 of `opcode`.
pub fn flag19(opcode: u32) -> (r: bool)
    ensures
        r == spec_flag_bit(opcode, 0x8_0000),
{
    (opcode / 0x8_0000) % 2 == 1
}

/// Bit 21 of `opcode`.
pub fn flag21(opcode: u32) -> (r: bool)
    ensures
        r == spec_flag_bit(opcode, 0x20_0000),
{
    (opcode / 0x20_0000) % 2 == 1
}

/// Bit 22 of `opcode`.
pub fn flag22(opcode: u32) -> (r: bool)
    ensures
        r == spec_flag_bit(opcode, 0x40_0000),
{
    (opcode / 0x40_0000) % 2 == 1
}

/// Bit 24 of `opcode`.
pub fn flag24(opcode: u32) -> (r: bool)
    ensures
        r == spec_flag_bit(opcode, 0x100_0000),
{
    (opcode / 0x100_0000) % 2 == 1
}

/// The low sixteen bits of an instruction.
pub open spec fn spec_operand_bits(opcode: u32) -> u16 {
    (opcode % 0x1_0000) as u16
}

/// The low sixteen bits of an instruction.
#[verifier::when_used_as_spec(spec_operand_bits)]
pub fn operand_bits(opcode: u32) -> (r: u16)
    ensures
        r == spec_operand_bits(opcode),
{
    (opcode % 0x1_0000) as u16
}

/// The product of two registers read as signed numbers, modulo 2^64.
pub open spec fn signed_product(rm: u32, rs: u32) -> u64 {
    ((signed(rm) * signed(rs)) % 0x1_0000_0000_0000_0000) as u64
}

/// The product of two registers read as unsigned numbers.
pub open spec fn unsigned_product(rm: u32, rs: u32) -> u64 {
    (rm * rs) as u64
}

fn multiply_signed(rm: u32, rs: u32) -> (r: u64)
    ensures
        r == signed_product(rm, rs),
{
    let a: i64 = if rm >= 0x8000_0000 { rm as i64 - 0x1_0000_0000 } else { rm as i64 };
    let b: i64 = if rs >= 0x8000_0000 { rs as i64 - 0x1_0000_0000 } else { rs as i64 };
    assert(-0x4000_0000_0000_0000 <= a * b <= 0x4000_0000_0000_0000) by (nonlinear_arith)
        requires
            -0x8000_0000 <= a < 0x8000_0000,
            -0x8000_0000 <= b < 0x8000_0000,
    ;
    let p: i64 = a * b;
    if p >= 0 {
        p as u64
    } else {
        u64::MAX - ((-p - 1) as u64)
    }
}

fn multiply_unsigned(rm: u32, rs: u32) -> (r: u64)
    ensures
        r == unsigned_product(rm, rs),
{
    assert(0 <= rm * rs <= 0xFFFF_FFFE_0000_0001) by (nonlinear_arith)
        requires
            0 <= rm <= 0xFFFF_FFFF,
            0 <= rs <= 0xFFFF_FFFF,
    ;
    (rm as u64) * (rs as u64)
}

impl Arm7TDMI {
    /// The processor after the status register was restored from the
    /// saved one: the registers of the saved mode become live. In User and
    /// System mode, which have no saved status register, nothing changes.
    pub open spec fn status_restored(self) -> Arm7TDMI {
        if self.current_mode().spec_has_spsr() {
            Arm7TDMI { cpsr: self.spsr, ..self.swap_regs_spec(self.current_mode(), self.spsr.spec_mode()->Some_0) }
        } else {
            self
        }
    }

    /// Restore the status register from the saved one.
    pub fn restore_status(&mut self)
        requires
            old(self).wf(),
        ensures
            *final(self) == old(self).status_restored(),
            final(self).wf(),
            final(self).bus == old(self).bus,
            final(self).branch == old(self).branch,
            forall|r: int| 0 <= r < 8 || r == 15 ==> final(self).regs[r] == old(self).regs[r],
    {
        let current = match self.cpsr.mode() {
            Some(m) => m,
            None => Mode::System,
        };
        if current.has_spsr() {
            let spsr = self.spsr;
            let saved = match spsr.mode() {
                Some(m) => m,
                None => Mode::System,
            };
            self.swap_regs(current, saved);
            self.cpsr = spsr;
        }
    }

    /// The processor after a data processing instruction. Bits 21 to 24
    /// select the operation, Rn is the first operand, the barrel shifter
    /// gives the second, and Rd takes the result unless the operation only
    /// tests. With `s` the flags are written; with `s` and Rd being the
    /// program counter the status register is restored instead. The
    /// program counter as Rn reads 8 bytes ahead, and 12 where a register
    /// gives the shift amount.
    pub open spec fn data_processing_spec(self, i: bool, s: bool, opcode: u32) -> Arm7TDMI {
        let rd = spec_nibble(opcode, 0x1000);
        let operation = spec_nibble(opcode, 0x20_0000) as u32;
        let (op2, shifter_carry) = self.barrel_shifter_spec(i, spec_operand_bits(opcode));
        let rn = self.operand_reg(
            spec_nibble(opcode, 0x1_0000),
            if !i && spec_flag_bit(opcode, 0x10) { 12 } else { 8 },
        );
        let out = dp_spec(operation, rn, op2, self.cpsr.spec_c(), self.cpsr.spec_v(), shifter_carry);
        let flagged = if !s {
            self
        } else if rd == 15 {
            self.status_restored()
        } else {
            Arm7TDMI { cpsr: self.cpsr.with_flags(out.result, out.c, out.v), ..self }
        };
        if spec_is_test(operation) {
            flagged
        } else {
            Arm7TDMI { regs: spec_array_update(flagged.regs, rd, out.result), branch: rd == 15, ..flagged }
        }
    }

    /// Data processing with the static bits as arguments.
    pub fn run_data_processing(&mut self, i: bool, s: bool, opcode: u32)
        requires
            old(self).wf(),
        ensures
            *final(self) == old(self).data_processing_spec(i, s, opcode),
            final(self).wf(),
    {
        let rd = nibble12(opcode);
        let operation = ((opcode / 0x20_0000) % 16) as u32;
        let (op2, shifter_carry) = if i {
            self.barrel_shifter::<true>(operand_bits(opcode))
        } else {
            self.barrel_shifter::<false>(operand_bits(opcode))
        };
        let rn = self.read_operand(nibble16(opcode), if !i && flag4(opcode) { 12 } else { 8 });
        let out = dp(operation, rn, op2, self.cpsr.c(), self.cpsr.v(), shifter_carry);
        if s {
            if rd == 15 {
                self.restore_status();
            } else {
                self.cpsr.set_flags(out.result, out.c, out.v);
            }
        }
        if !is_test(operation) {
            self.branch = rd == 15;
            self.regs[rd] = out.result;
        }
    }

    /// Data processing.
    pub fn data_processing<const I: bool, const S: bool>(&mut self, opcode: u32)
        requires
            old(self).wf(),
        ensures
            *final(self) == old(self).data_processing_spec(I, S, opcode),
            final(self).wf(),
    {
        self.run_data_processing(I, S, opcode);
    }

    /// The processor after MUL or MLA: Rd (bits 16 to 19) takes Rm times
    /// Rs, plus Rn where bit 21 is set, modulo 2^32; with `s` the sign and
    /// zero flags follow the result.
    pub open spec fn multiply_spec(self, s: bool, opcode: u32) -> Arm7TDMI {
        let rd = spec_nibble(opcode, 0x1_0000);
        let rm = self.regs[spec_nibble(opcode, 1)];
        let rs = self.regs[spec_nibble(opcode, 0x100)];
        let rn = self.regs[spec_nibble(opcode, 0x1000)];
        let product = rm.wrapping_mul(rs);
        let result = if spec_flag_bit(opcode, 0x20_0000) { product.wrapping_add(rn) } else { product };
        Arm7TDMI {
            regs: spec_array_update(self.regs, rd, result),
            cpsr: if s { self.cpsr.with_n(result >= 0x8000_0000).with_z(result == 0) } else { self.cpsr },
            ..self
        }
    }

    /// MUL and MLA with the static bit as argument.
    pub fn run_multiply(&mut self, s: bool, opcode: u32)
        requires
            old(self).wf(),
        ensures
            *final(self) == old(self).multiply_spec(s, opcode),
            final(self).wf(),
    {
        let rd = nibble16(opcode);
        let rm = self.regs[nibble0(opcode)];
        let rs = self.regs[nibble8(opcode)];
        let rn = self.regs[nibble12(opcode)];
        let product = rm.wrapping_mul(rs);
        let result = if flag21(opcode) { product.wrapping_add(rn) } else { product };
        self.regs[rd] = result;
        if s {
            self.cpsr.set_n(result >= 0x8000_0000);
            self.cpsr.set_z(result == 0);
        }
    }

    /// MUL and MLA.
    pub fn multiply<const S: bool>(&mut self, opcode: u32)
        requires
            old(self).wf(),
        ensures
            *final(self) == old(self).multiply_spec(S, opcode),
            final(self).wf(),
    {
        self.run_multiply(S, opcode);
    }

    /// The 64-bit result of a long multiplication: Rm times Rs, signed
    /// where bit 22 is set, plus the 64 bits of RdHi and RdLo where bit 21
    /// is set, modulo 2^64.
    pub open spec fn long_product(&self, opcode: u32) -> u64 {
        let rm = self.regs[spec_nibble(opcode, 1)];
        let rs = self.regs[spec_nibble(opcode, 0x100)];
        let accumulator = (self.regs[spec_nibble(opcode, 0x1_0000)] * 0x1_0000_0000 + self.regs[spec_nibble(
            opcode,
            0x1000,
        )]) as u64;
        let product = if spec_flag_bit(opcode, 0x40_0000) {
            signed_product(rm, rs)
        } else {
            unsigned_product(rm, rs)
        };
        if spec_flag_bit(opcode, 0x20_0000) {
            product.wrapping_add(accumulator)
        } else {
            product
        }
    }

    /// The processor after a long multiplication: RdHi (bits 16 to 19)
    /// takes the upper half of the result and RdLo (bits 12 to 15) the
    /// lower; with `s` the sign and zero flags follow the 64-bit result.
    pub open spec fn multiply_long_spec(self, s: bool, opcode: u32) -> Arm7TDMI {
        let result = self.long_product(opcode);
        Arm7TDMI {
            regs: spec_array_update(
                spec_array_update(self.regs, spec_nibble(opcode, 0x1_0000), (result / 0x1_0000_0000) as u32),
                spec_nibble(opcode, 0x1000),
                (result % 0x1_0000_0000) as u32,
            ),
            cpsr: if s {
                self.cpsr.with_n(result >= 0x8000_0000_0000_0000).with_z(result == 0)
            } else {
                self.cpsr
            },
            ..self
        }
    }

    /// MULL and MLAL with the static bit as argument.
    pub fn run_multiply_long(&mut self, s: bool, opcode: u32)
        requires
            old(self).wf(),
        ensures
            *final(self) == old(self).multiply_long_spec(s, opcode),
            final(self).wf(),
    {
        let rd_hi = nibble16(opcode);
        let rd_lo = nibble12(opcode);
        let rs = self.regs[nibble8(opcode)];
        let rm = self.regs[nibble0(opcode)];
        let accumulator: u64 = (self.regs[rd_hi] as u64) * 0x1_0000_0000 + self.regs[rd_lo] as u64;
        let product = if flag22(opcode) { multiply_signed(rm, rs) } else { multiply_unsigned(rm, rs) };
        let result = if flag21(opcode) { product.wrapping_add(accumulator) } else { product };
        self.regs[rd_hi] = (result / 0x1_0000_0000) as u32;
        self.regs[rd_lo] = (result % 0x1_0000_0000) as u32;
        if s {
            self.cpsr.set_n(result >= 0x8000_0000_0000_0000);
            self.cpsr.set_z(result == 0);
        }
    }

    /// MULL and MLAL.
    pub fn multiply_long<const S: bool>(&mut self, opcode: u32)
        requires
            old(self).wf(),
        ensures
            *final(self) == old(self).multiply_long_spec(S, opcode),
            final(self).wf(),
    {
        self.run_multiply_long(S, opcode);
    }

    /// The low byte that an MSR writes from the value `rm`: that of `rm`
    /// with bit 4 forced to 1, and with the mode bits of `source` where
    /// its own name no mode.
    pub open spec fn control_written(source: Cpsr, rm: u32) -> u32 {
        let low = rm % 0x100 - ((rm / 0x10) % 2) * 0x10 + 0x10;
        if Mode::spec_from_bits((low % 32) as u32) is Some {
            low as u32
        } else {
            (low - low % 32 + source.0 % 32) as u32
        }
    }

    /// The status register with the top byte of `rm`.
    pub open spec fn flags_written(source: Cpsr, rm: u32) -> u32 {
        ((rm / 0x100_0000) * 0x100_0000 + source.0 % 0x100_0000) as u32
    }

    /// The status register that an MSR writes over `source` from the
    /// value `rm`. In User mode only the flags in the top byte are taken.
    /// Otherwise bit 19 of the instruction lets the top byte through and
    /// bit 16 the low byte.
    pub open spec fn psr_written(source: Cpsr, rm: u32, user: bool, opcode: u32) -> Cpsr {
        if user {
            Cpsr(Self::flags_written(source, rm))
        } else {
            let after_flags = if spec_flag_bit(opcode, 0x8_0000) {
                Self::flags_written(source, rm)
            } else {
                source.0
            };
            if spec_flag_bit(opcode, 0x1_0000) {
                Cpsr((after_flags - after_flags % 0x100 + Self::control_written(source, rm)) as u32)
            } else {
                Cpsr(after_flags)
            }
        }
    }

    fn write_control(source: Cpsr, rm: u32) -> (r: u32)
        requires
            source.spec_mode() is Some,
        ensures
            r == Self::control_written(source, rm),
            r < 0x100,
            Mode::spec_from_bits(r % 32) is Some,
    {
        let byte: u32 = rm % 0x100;
        let low: u32 = byte - ((byte / 0x10) % 2) * 0x10 + 0x10;
        assert((rm / 0x10) % 2 == (byte / 0x10) % 2);
        if Mode::from_bits(low % 32).is_some() {
            low
        } else {
            let kept: u32 = source.0 % 32;
            let upper: u32 = low / 32;
            assert(low - low % 32 == upper * 32);
            assert((upper * 32 + kept) % 32 == kept) by {
                vstd::arithmetic::div_mod::lemma_mod_multiples_vanish(upper as int, kept as int, 32);
            }
            upper * 32 + kept
        }
    }

    fn write_flags(source: Cpsr, rm: u32) -> (r: u32)
        ensures
            r == Self::flags_written(source, rm),
            r % 32 == source.0 % 32,
    {
        let top: u32 = rm / 0x100_0000;
        let rest: u32 = source.0 % 0x100_0000;
        assert(rest % 32 == source.0 % 32);
        assert((top * 0x100_0000 + rest) % 32 == rest % 32) by {
            assert(top * 0x100_0000 == (top * 0x8_0000) * 32);
            vstd::arithmetic::div_mod::lemma_mod_multiples_vanish((top * 0x8_0000) as int, rest as int, 32);
        }
        top * 0x100_0000 + rest
    }

    fn replace_control(value: u32, control: u32) -> (r: u32)
        requires
            control < 0x100,
        ensures
            r == value - value % 0x100 + control,
            r % 32 == control % 32,
    {
        let high: u32 = value / 0x100;
        assert(value - value % 0x100 == high * 0x100);
        assert((high * 0x100 + control) % 32 == control % 32) by {
            assert(high * 0x100 == (high * 8) * 32);
            vstd::arithmetic::div_mod::lemma_mod_multiples_vanish((high * 8) as int, control as int, 32);
        }
        high * 0x100 + control
    }

    fn write_psr(source: Cpsr, rm: u32, user: bool, opcode: u32) -> (r: Cpsr)
        requires
            source.spec_mode() is Some,
        ensures
            r == Self::psr_written(source, rm, user, opcode),
            r.spec_mode() is Some,
    {
        if user {
            Cpsr(Self::write_flags(source, rm))
        } else {
            let after_flags = if flag19(opcode) { Self::write_flags(source, rm) } else { source.0 };
            if flag16(opcode) {
                Cpsr(Self::replace_control(after_flags, Self::write_control(source, rm)))
            } else {
                Cpsr(after_flags)
            }
        }
    }

    /// The processor after MRS or MSR. `psr` selects the saved status
    /// register, which User and System mode do not have: there an MRS
    /// reads the current one and an MSR is dropped. MRS (bit 21 clear)
    /// copies the status register into Rd. MSR writes it from Rm, or from
    /// the rotated immediate with `i`; where it writes the current status
    /// register and the mode bits change, the registers of the new mode
    /// become live.
    pub open spec fn psr_transfer_spec(self, i: bool, psr: bool, opcode: u32) -> Arm7TDMI {
        let mode = self.current_mode();
        let saved = psr && mode.spec_has_spsr();
        let source = if saved { self.spsr } else { self.cpsr };
        if !spec_flag_bit(opcode, 0x20_0000) {
            Arm7TDMI { regs: spec_array_update(self.regs, spec_nibble(opcode, 0x1000), source.0), ..self }
        } else {
            let rm = if i {
                self.barrel_shifter_spec(true, spec_operand_bits(opcode)).0
            } else {
                self.regs[spec_nibble(opcode, 1)]
            };
            let written = Self::psr_written(source, rm, mode == Mode::User, opcode);
            if saved {
                Arm7TDMI { spsr: written, ..self }
            } else if psr {
                self
            } else {
                let new_mode = written.spec_mode()->Some_0;
                if new_mode != mode {
                    Arm7TDMI { cpsr: written, ..self }.swap_regs_spec(mode, new_mode)
                } else {
                    Arm7TDMI { cpsr: written, ..self }
                }
            }
        }
    }

    /// MRS and MSR with the static bits as arguments.
    pub fn run_psr_transfer(&mut self, i: bool, psr: bool, opcode: u32)
        requires
            old(self).wf(),
        ensures
            *final(self) == old(self).psr_transfer_spec(i, psr, opcode),
            final(self).wf(),
    {
        let mode = match self.cpsr.mode() {
            Some(m) => m,
            None => Mode::System,
        };
        let saved = psr && mode.has_spsr();
        let source = if saved { self.spsr } else { self.cpsr };
        if !flag21(opcode) {
            let rd = nibble12(opcode);
            self.regs[rd] = source.cpsr();
        } else {
            let rm = if i {
                self.barrel_shifter::<true>(operand_bits(opcode)).0
            } else {
                self.regs[nibble0(opcode)]
            };
            let written = Self::write_psr(source, rm, matches!(mode, Mode::User), opcode);
            if saved {
                self.spsr = written;
            } else if !psr {
                self.cpsr = written;
                let new_mode = match written.mode() {
                    Some(m) => m,
                    None => Mode::System,
                };
                if new_mode.bits() != mode.bits() {
                    self.swap_regs(mode, new_mode);
                }
            }
        }
    }

    /// MRS and MSR.
    pub fn psr_transfer<const I: bool, const PSR: bool>(&mut self, opcode: u32)
        requires
            old(self).wf(),
        ensures
            *final(self) == old(self).psr_transfer_spec(I, PSR, opcode),
            final(self).wf(),
    {
        self.run_psr_transfer(I, PSR, opcode);
    }
}

} // verus!
