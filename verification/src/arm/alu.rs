//! The arithmetic logic unit and the barrel shifter, as functions of plain
//! values.
use vstd::prelude::*;
use crate::bits::{bit, rotate_right, signed, spec_bit, spec_rotate_right};

verus! {

/// What the adder hands back: the 32-bit result, the carry out of bit 31
/// and whether the signed result left the range of 32 bits.
#[derive(Clone, Copy, PartialEq, Eq, Structural, Debug)]
pub struct AluOut {
    pub result: u32,
    pub carry: bool,
    pub overflow: bool,
}

/// 1 for a set carry or borrow, 0 for a clear one.
pub open spec fn unit(b: bool) -> int {
    if b {
        1
    } else {
        0
    }
}

/// `a + b + carry_in`: the result modulo 2^32, the carry set where the
/// unsigned sum does not fit, the overflow set where the signed sum does
/// not fit.
pub open spec fn add_spec(a: u32, b: u32, carry_in: bool) -> AluOut {
    let sum = a + b + unit(carry_in);
    let signed_sum = signed(a) + signed(b) + unit(carry_in);
    AluOut {
        result: (sum % 0x1_0000_0000) as u32,
        carry: sum >= 0x1_0000_0000,
        overflow: signed_sum < -0x8000_0000 || signed_sum >= 0x8000_0000,
    }
}

/// `a - b - borrow_in`: the result modulo 2^32, the carry set where no
/// borrow occurs (the unsigned difference is not negative), the overflow
/// set where the signed difference does not fit.
pub open spec fn sub_spec(a: u32, b: u32, borrow_in: bool) -> AluOut {
    let difference = a - b - unit(borrow_in);
    let signed_difference = signed(a) - signed(b) - unit(borrow_in);
    AluOut {
        result: (difference % 0x1_0000_0000) as u32,
        carry: difference >= 0,
        overflow: signed_difference < -0x8000_0000 || signed_difference >= 0x8000_0000,
    }
}

fn to_signed(x: u32) -> (r: i64)
    ensures
        r == signed(x),
{
    if x >= 0x8000_0000 {
        x as i64 - 0x1_0000_0000
    } else {
        x as i64
    }
}

/// Add with carry.
pub fn add_with_carry(a: u32, b: u32, carry_in: bool) -> (out: AluOut)
    ensures
        out == add_spec(a, b, carry_in),
{
    let c: u64 = if carry_in { 1 } else { 0 };
    let sum: u64 = a as u64 + b as u64 + c;
    let signed_sum: i64 = to_signed(a) + to_signed(b) + c as i64;
    AluOut {
        result: (sum % 0x1_0000_0000) as u32,
        carry: sum >= 0x1_0000_0000,
        overflow: signed_sum < -0x8000_0000 || signed_sum >= 0x8000_0000,
    }
}

/// Subtract with borrow.
pub fn sub_with_borrow(a: u32, b: u32, borrow_in: bool) -> (out: AluOut)
    ensures
        out == sub_spec(a, b, borrow_in),
{
    let c: i64 = if borrow_in { 1 } else { 0 };
    let difference: i64 = a as i64 - b as i64 - c;
    let signed_difference: i64 = to_signed(a) - to_signed(b) - c;
    AluOut {
        result: ((difference + 0x1_0000_0000) % 0x1_0000_0000) as u32,
        carry: difference >= 0,
        overflow: signed_difference < -0x8000_0000 || signed_difference >= 0x8000_0000,
    }
}

/// What the barrel shifter hands back: the shifted value and the carry
/// out of the shifter.
pub type Shifted = (u32, bool);

/// Logical shift left. An amount of 0 leaves the value and the carry; 1 to
/// 31 shift and hand out the last bit that left; 32 gives 0 with bit 0 as
/// carry; more gives 0 with a clear carry.
pub open spec fn lsl_spec(rm: u32, amount: u32, carry: bool) -> (u32, bool) {
    if amount == 0 {
        (rm, carry)
    } else if amount < 32 {
        (rm << amount, spec_bit(rm, (32 - amount) as u32))
    } else if amount == 32 {
        (0, spec_bit(rm, 0))
    } else {
        (0, false)
    }
}

/// Logical shift right. An amount of 0 stands for 32 where it comes from
/// the instruction (`reg` clear) and leaves value and carry where it comes
/// from a register; 1 to 31 shift and hand out the last bit that left; 32
/// gives 0 with bit 31 as carry; more gives 0 with a clear carry.
pub open spec fn lsr_spec(rm: u32, amount: u32, reg: bool, carry: bool) -> (u32, bool) {
    if amount == 0 {
        if reg {
            (rm, carry)
        } else {
            (0, spec_bit(rm, 31))
        }
    } else if amount < 32 {
        (rm >> amount, spec_bit(rm, (amount - 1) as u32))
    } else if amount == 32 {
        (0, spec_bit(rm, 31))
    } else {
        (0, false)
    }
}

/// The value with every bit a copy of bit 31.
pub open spec fn sign_fill(rm: u32) -> u32 {
    if spec_bit(rm, 31) {
        0xFFFF_FFFF
    } else {
        0
    }
}

/// Arithmetic shift right. An amount of 0 stands for 32 where it comes from
/// the instruction and leaves value and carry where it comes from a
/// register; 1 to 31 shift with copies of bit 31 coming in and hand out the
/// last bit that left; 32 and more give the sign fill with bit 31 as carry.
pub open spec fn asr_spec(rm: u32, amount: u32, reg: bool, carry: bool) -> (u32, bool) {
    if amount == 0 && reg {
        (rm, carry)
    } else if amount == 0 || amount >= 32 {
        (sign_fill(rm), spec_bit(rm, 31))
    } else {
        (
            if spec_bit(rm, 31) { (rm >> amount) | !(0xFFFF_FFFFu32 >> amount) } else { rm >> amount },
            spec_bit(rm, (amount - 1) as u32),
        )
    }
}

/// Rotate right. An amount of 0 from the instruction is a rotation by one
/// through the carry; an amount of 0 from a register leaves value and
/// carry; otherwise the value rotates by the amount modulo 32 and the carry
/// is the last bit that went round.
pub open spec fn ror_spec(rm: u32, amount: u32, reg: bool, carry: bool) -> (u32, bool) {
    if amount == 0 {
        if reg {
            (rm, carry)
        } else {
            ((if carry { 0x8000_0000u32 } else { 0u32 }) | (rm >> 1u32), spec_bit(rm, 0))
        }
    } else {
        (spec_rotate_right(rm, amount), spec_bit(rm, ((amount - 1) % 32) as u32))
    }
}

/// Logical shift left.
pub fn shift_lsl(rm: u32, amount: u32, carry: bool) -> (r: (u32, bool))
    ensures
        r == lsl_spec(rm, amount, carry),
        amount == 32 ==> r == (0u32, spec_bit(rm, 0)),
{
    if amount == 0 {
        (rm, carry)
    } else if amount < 32 {
        (rm << amount, bit(rm, 32 - amount))
    } else if amount == 32 {
        (0, bit(rm, 0))
    } else {
        (0, false)
    }
}

/// Logical shift right.
pub fn shift_lsr(rm: u32, amount: u32, reg: bool, carry: bool) -> (r: (u32, bool))
    ensures
        r == lsr_spec(rm, amount, reg, carry),
{
    if amount == 0 {
        if reg {
            (rm, carry)
        } else {
            (0, bit(rm, 31))
        }
    } else if amount < 32 {
        (rm >> amount, bit(rm, amount - 1))
    } else if amount == 32 {
        (0, bit(rm, 31))
    } else {
        (0, false)
    }
}

/// Arithmetic shift right.
pub fn shift_asr(rm: u32, amount: u32, reg: bool, carry: bool) -> (r: (u32, bool))
    ensures
        r == asr_spec(rm, amount, reg, carry),
{
    if amount == 0 && reg {
        (rm, carry)
    } else if amount == 0 || amount >= 32 {
        (if bit(rm, 31) { 0xFFFF_FFFF } else { 0 }, bit(rm, 31))
    } else {
        (
            if bit(rm, 31) { (rm >> amount) | !(0xFFFF_FFFFu32 >> amount) } else { rm >> amount },
            bit(rm, amount - 1),
        )
    }
}

/// Rotate right.
pub fn shift_ror(rm: u32, amount: u32, reg: bool, carry: bool) -> (r: (u32, bool))
    ensures
        r == ror_spec(rm, amount, reg, carry),
{
    if amount == 0 {
        if reg {
            (rm, carry)
        } else {
            ((if carry { 0x8000_0000u32 } else { 0u32 }) | (rm >> 1u32), bit(rm, 0))
        }
    } else {
        (rotate_right(rm, amount), bit(rm, (amount - 1) % 32))
    }
}

/// The shift that a two-bit type selects, applied.
pub open spec fn shift_spec(kind: u32, rm: u32, amount: u32, reg: bool, carry: bool) -> (u32, bool) {
    if kind == 0 {
        lsl_spec(rm, amount, carry)
    } else if kind == 1 {
        lsr_spec(rm, amount, reg, carry)
    } else if kind == 2 {
        asr_spec(rm, amount, reg, carry)
    } else {
        ror_spec(rm, amount, reg, carry)
    }
}

/// The shift that a two-bit type selects, applied.
pub fn shift(kind: u32, rm: u32, amount: u32, reg: bool, carry: bool) -> (r: (u32, bool))
    ensures
        r == shift_spec(kind, rm, amount, reg, carry),
{
    if kind == 0 {
        shift_lsl(rm, amount, carry)
    } else if kind == 1 {
        shift_lsr(rm, amount, reg, carry)
    } else if kind == 2 {
        shift_asr(rm, amount, reg, carry)
    } else {
        shift_ror(rm, amount, reg, carry)
    }
}

/// What a data processing operation hands back: the result and the carry
/// and overflow flags as they are to be written.
#[derive(Clone, Copy, PartialEq, Eq, Structural, Debug)]
pub struct DpOut {
    pub result: u32,
    pub c: bool,
    pub v: bool,
}

/// Whether the operation only sets flags: TST, TEQ, CMP and CMN.
pub open spec fn spec_is_test(operation: u32) -> bool {
    8 <= operation <= 11
}

/// Whether the operation only sets flags.
#[verifier::when_used_as_spec(spec_is_test)]
pub fn is_test(operation: u32) -> (r: bool)
    ensures
        r == spec_is_test(operation),
{
    8 <= operation && operation <= 11
}

/// The sixteen data processing operations. The logical ones (AND, EOR,
/// TST, TEQ, ORR, MOV, BIC, MVN) hand back the carry of the shifter and
/// the overflow flag as it was; the arithmetic ones (SUB, RSB, ADD, ADC,
/// SBC, RSC, CMP, CMN) hand back the flags of the adder, SBC and RSC
/// borrowing one more where the carry flag is clear.
pub open spec fn dp_spec(operation: u32, rn: u32, op2: u32, c: bool, v: bool, shifter_carry: bool) -> DpOut {
    let logical = |result: u32| DpOut { result, c: shifter_carry, v };
    let arithmetic = |out: AluOut| DpOut { result: out.result, c: out.carry, v: out.overflow };
    if operation == 0 || operation == 8 {
        logical(rn & op2)
    } else if operation == 1 || operation == 9 {
        logical(rn ^ op2)
    } else if operation == 2 || operation == 10 {
        arithmetic(sub_spec(rn, op2, false))
    } else if operation == 3 {
        arithmetic(sub_spec(op2, rn, false))
    } else if operation == 4 || operation == 11 {
        arithmetic(add_spec(rn, op2, false))
    } else if operation == 5 {
        arithmetic(add_spec(rn, op2, c))
    } else if operation == 6 {
        arithmetic(sub_spec(rn, op2, !c))
    } else if operation == 7 {
        arithmetic(sub_spec(op2, rn, !c))
    } else if operation == 12 {
        logical(rn | op2)
    } else if operation == 13 {
        logical(op2)
    } else if operation == 14 {
        logical(rn & !op2)
    } else {
        logical(!op2)
    }
}

fn logical_out(result: u32, shifter_carry: bool, v: bool) -> (out: DpOut)
    ensures
        out == (DpOut { result, c: shifter_carry, v }),
{
    DpOut { result, c: shifter_carry, v }
}

fn arithmetic_out(alu: AluOut) -> (out: DpOut)
    ensures
        out == (DpOut { result: alu.result, c: alu.carry, v: alu.overflow }),
{
    DpOut { result: alu.result, c: alu.carry, v: alu.overflow }
}

/// Compute one of the sixteen data processing operations.
pub fn dp(operation: u32, rn: u32, op2: u32, c: bool, v: bool, shifter_carry: bool) -> (out: DpOut)
    ensures
        out == dp_spec(operation, rn, op2, c, v, shifter_carry),
{
    if operation == 0 || operation == 8 {
        logical_out(rn & op2, shifter_carry, v)
    } else if operation == 1 || operation == 9 {
        logical_out(rn ^ op2, shifter_carry, v)
    } else if operation == 2 || operation == 10 {
        arithmetic_out(sub_with_borrow(rn, op2, false))
    } else if operation == 3 {
        arithmetic_out(sub_with_borrow(op2, rn, false))
    } else if operation == 4 || operation == 11 {
        arithmetic_out(add_with_carry(rn, op2, false))
    } else if operation == 5 {
        arithmetic_out(add_with_carry(rn, op2, c))
    } else if operation == 6 {
        arithmetic_out(sub_with_borrow(rn, op2, !c))
    } else if operation == 7 {
        arithmetic_out(sub_with_borrow(op2, rn, !c))
    } else if operation == 12 {
        logical_out(rn | op2, shifter_carry, v)
    } else if operation == 13 {
        logical_out(op2, shifter_carry, v)
    } else if operation == 14 {
        logical_out(rn & !op2, shifter_carry, v)
    } else {
        logical_out(!op2, shifter_carry, v)
    }
}

/// ADD and then SUB of the same second operand give the first operand
/// back, whatever the flags.
pub proof fn lemma_add_sub_round_trip(rn: u32, op2: u32, c: bool, v: bool, shifter_carry: bool)
    ensures
        dp_spec(2, dp_spec(4, rn, op2, c, v, shifter_carry).result, op2, c, v, shifter_carry).result == rn,
{
}

} // verus!
