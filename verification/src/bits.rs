//! Bit fields, byte packing and the few facts about bitwise operators that
//! the rest of the crate leans on.
use vstd::prelude::*;
use vstd::arithmetic::power2::pow2;
use proc_bitfield::Bits;
use proc_bitfield::WithBits;

verus! {

/// Bit `n` of `x`.
pub open spec fn spec_bit(x: u32, n: u32) -> bool {
    x & (1u32 << n) != 0
}

/// Bit `n` of `x`.
#[verifier::when_used_as_spec(spec_bit)]
pub fn bit(x: u32, n: u32) -> (r: bool)
    requires
        n < 32,
    ensures
        r == spec_bit(x, n),
{
    x & (1u32 << n) != 0
}

/// A 16-bit value as the 32-bit value with the same bits.
pub open spec fn spec_widen(x: u16) -> u32 {
    x as u32
}

/// A 16-bit value as the 32-bit value with the same bits.
#[verifier::when_used_as_spec(spec_widen)]
pub fn widen(x: u16) -> (r: u32)
    ensures
        r == spec_widen(x),
        r == x,
{
    x as u32
}

/// The low half of a 32-bit value.
pub open spec fn spec_low16(x: u32) -> u16 {
    (x % 0x1_0000) as u16
}

/// The low half of a 32-bit value.
#[verifier::when_used_as_spec(spec_low16)]
pub fn low16(x: u32) -> (r: u16)
    ensures
        r == spec_low16(x),
{
    (x % 0x1_0000) as u16
}

/// The low byte of a 32-bit value.
pub open spec fn spec_low8(x: u32) -> u8 {
    (x % 0x100) as u8
}

/// The low byte of a 32-bit value.
#[verifier::when_used_as_spec(spec_low8)]
pub fn low8(x: u32) -> (r: u8)
    ensures
        r == spec_low8(x),
{
    (x % 0x100) as u8
}

/// Byte `i` (0 is the lowest) of `x`.
pub open spec fn spec_byte(x: u32, i: u32) -> u8 {
    if i == 0 {
        (x % 0x100) as u8
    } else if i == 1 {
        ((x / 0x100) % 0x100) as u8
    } else if i == 2 {
        ((x / 0x1_0000) % 0x100) as u8
    } else {
        (x / 0x100_0000) as u8
    }
}

/// The 16-bit value with low byte `lo` and high byte `hi`.
pub open spec fn spec_le16(lo: u8, hi: u8) -> u16 {
    (lo + 0x100 * hi) as u16
}

/// The 16-bit value with low byte `lo` and high byte `hi`.
#[verifier::when_used_as_spec(spec_le16)]
pub fn le16(lo: u8, hi: u8) -> (r: u16)
    ensures
        r == spec_le16(lo, hi),
{
    lo as u16 + 0x100 * (hi as u16)
}

/// The low byte of a 16-bit value.
pub open spec fn spec_lo8(x: u16) -> u8 {
    (x % 0x100) as u8
}

/// The low byte of a 16-bit value.
#[verifier::when_used_as_spec(spec_lo8)]
pub fn lo8(x: u16) -> (r: u8)
    ensures
        r == spec_lo8(x),
{
    (x % 0x100) as u8
}

/// The high byte of a 16-bit value.
pub open spec fn spec_hi8(x: u16) -> u8 {
    (x / 0x100) as u8
}

/// The high byte of a 16-bit value.
#[verifier::when_used_as_spec(spec_hi8)]
pub fn hi8(x: u16) -> (r: u8)
    ensures
        r == spec_hi8(x),
{
    (x / 0x100) as u8
}

/// The value below `2^width` read as a two's complement number of `width`
/// bits and written as one of 32 bits.
pub open spec fn spec_sign_extend(x: u32, width: u32) -> u32 {
    if width == 8 {
        if x % 0x100 >= 0x80 { (0xFFFF_FF00 + x % 0x100) as u32 } else { x % 0x100 }
    } else if width == 16 {
        if x % 0x1_0000 >= 0x8000 { (0xFFFF_0000 + x % 0x1_0000) as u32 } else { x % 0x1_0000 }
    } else if width == 11 {
        if x % 0x800 >= 0x400 { (0xFFFF_F800 + x % 0x800) as u32 } else { x % 0x800 }
    } else if width == 24 {
        if x % 0x100_0000 >= 0x80_0000 { (0xFF00_0000 + x % 0x100_0000) as u32 } else { x % 0x100_0000 }
    } else {
        x
    }
}

/// Sign extension from 8, 11, 16 or 24 bits to 32; other widths leave `x`.
#[verifier::when_used_as_spec(spec_sign_extend)]
pub fn sign_extend(x: u32, width: u32) -> (r: u32)
    ensures
        r == spec_sign_extend(x, width),
{
    if width == 8 {
        if x % 0x100 >= 0x80 { 0xFFFF_FF00 + x % 0x100 } else { x % 0x100 }
    } else if width == 16 {
        if x % 0x1_0000 >= 0x8000 { 0xFFFF_0000 + x % 0x1_0000 } else { x % 0x1_0000 }
    } else if width == 11 {
        if x % 0x800 >= 0x400 { 0xFFFF_F800 + x % 0x800 } else { x % 0x800 }
    } else if width == 24 {
        if x % 0x100_0000 >= 0x80_0000 { 0xFF00_0000 + x % 0x100_0000 } else { x % 0x100_0000 }
    } else {
        x
    }
}

/// `x` read as a two's complement number.
pub open spec fn signed(x: u32) -> int {
    if x >= 0x8000_0000 {
        x - 0x1_0000_0000
    } else {
        x as int
    }
}

/// `x` rotated right by `n` bit positions, `n` taken modulo 32.
pub open spec fn spec_rotate_right(x: u32, n: u32) -> u32 {
    if n % 32 == 0 {
        x
    } else {
        (x >> (n % 32)) | (x << ((32 - n % 32) as u32))
    }
}

/// `x` rotated right by `n` bit positions, `n` taken modulo 32.
#[verifier::when_used_as_spec(spec_rotate_right)]
pub fn rotate_right(x: u32, n: u32) -> (r: u32)
    ensures
        r == spec_rotate_right(x, n),
{
    let k = n % 32;
    if k == 0 {
        x
    } else {
        (x >> k) | (x << (32 - k))
    }
}

/// The bytes of a packed value are the bytes that were packed.
pub proof fn lemma_le16_bytes(lo: u8, hi: u8)
    ensures
        spec_lo8(spec_le16(lo, hi)) == lo,
        spec_hi8(spec_le16(lo, hi)) == hi,
{
}

/// Packing the bytes of a value gives the value back.
pub proof fn lemma_le16_of_bytes(x: u16)
    ensures
        spec_le16(spec_lo8(x), spec_hi8(x)) == x,
{
}

/// Bit `n` of a 16-bit register.
pub open spec fn spec_bit16(x: u16, n: u16) -> bool {
    x & (1u16 << n) != 0
}

/// Bit `n` of a 16-bit register.
#[verifier::when_used_as_spec(spec_bit16)]
pub fn bit16(x: u16, n: u16) -> (r: bool)
    requires
        n < 16,
    ensures
        r == spec_bit16(x, n),
{
    x & (1u16 << n) != 0
}

/// A 16-bit register with bit `n` set to `v`.
pub open spec fn spec_with_bit16(x: u16, n: u16, v: bool) -> u16 {
    if v {
        x | (1u16 << n)
    } else {
        x & !(1u16 << n)
    }
}

/// A 16-bit register with bit `n` set to `v`.
#[verifier::when_used_as_spec(spec_with_bit16)]
pub fn with_bit16(x: u16, n: u16, v: bool) -> (r: u16)
    requires
        n < 16,
    ensures
        r == spec_with_bit16(x, n, v),
{
    if v {
        x | (1u16 << n)
    } else {
        x & !(1u16 << n)
    }
}

/// Writing a bit of a 16-bit register and reading one back: the written bit
/// reads as written, every other bit as before.
pub proof fn lemma_with_bit16(x: u16, n: u16, v: bool, m: u16)
    requires
        n < 16,
        m < 16,
    ensures
        spec_bit16(spec_with_bit16(x, n, v), m) == (if m == n { v } else { spec_bit16(x, m) }),
{
    if v {
        assert((x | (1u16 << n)) & (1u16 << m) != 0 <==> (m == n || x & (1u16 << m) != 0))
            by (bit_vector)
            requires
                n < 16,
                m < 16,
        ;
    } else {
        assert((x & !(1u16 << n)) & (1u16 << m) != 0 <==> (m != n && x & (1u16 << m) != 0))
            by (bit_vector)
            requires
                n < 16,
                m < 16,
        ;
    }
}

/// The number that the bits of `x` from `start` up to and without `end` spell.
pub open spec fn extract_range(x: u32, start: nat, end: nat) -> int {
    (x as int / pow2(start) as int) % (pow2((end - start) as nat) as int)
}

/// `x` with the bits from `start` up to and without `end` replaced by the low
/// bits of `value`.
pub open spec fn replace_range(x: u32, start: nat, end: nat, value: u32) -> int {
    x - extract_range(x, start, end) * pow2(start) + (value as int % (pow2((end - start) as nat) as int))
        * pow2(start)
}

/// Reading and replacing a range of bits, written with the divisor `d =
/// 2^start` and the modulus `m = 2^(end - start)`.
pub proof fn lemma_ranges(x: u32, value: u32, start: nat, end: nat, d: int, m: int)
    requires
        pow2(start) == d,
        pow2((end - start) as nat) == m,
    ensures
        extract_range(x, start, end) == (x as int / d) % m,
        replace_range(x, start, end, value) == x - ((x as int / d) % m) * d + (value as int % m) * d,
{
}

/// `proc_bitfield::Bits::<u32>::bits` on a `u32`: the bits from `START` up
/// to and without `END`, moved down to bit 0. The crate shifts the value
/// right by `START` and then clears all but the low `END - START` bits,
/// which is the division and the remainder that the contract names. It
/// asks for `START < END <= 32`, which keeps every shift below 32.
#[verifier::external_body]
pub(crate) fn bit_range<const START: usize, const END: usize>(x: u32) -> (r: u32)
    requires
        START < END <= 32,
    ensures
        r == extract_range(x, START as nat, END as nat),
{
    Bits::<u32>::bits::<START, END>(&x)
}

/// `proc_bitfield::WithBits::<u32>::with_bits` on a `u32`: `x` with the
/// bits from `START` up to and without `END` replaced by the low bits of
/// `value`. The crate clears the range in `x` and puts in the low `END -
/// START` bits of `value`, shifted left by `START`, which is the
/// subtraction and the addition that the contract names. It asks for
/// `START < END <= 32`, which keeps every shift below 32.
#[verifier::external_body]
pub(crate) fn with_bit_range<const START: usize, const END: usize>(x: u32, value: u32) -> (r: u32)
    requires
        START < END <= 32,
    ensures
        r == replace_range(x, START as nat, END as nat, value),
{
    WithBits::<u32>::with_bits::<START, END>(x, value)
}

/// `base` with the `n` entries from `start` on replaced by `f(0)`, ..,
/// `f(n - 1)`.
pub open spec fn tabulate<T, const N: usize>(base: [T; N], start: int, n: nat, f: spec_fn(int) -> T) -> [T; N]
    decreases n,
{
    if n == 0 {
        base
    } else {
        vstd::array::spec_array_update(tabulate(base, start, (n - 1) as nat, f), start + n - 1, f(n - 1))
    }
}

/// The entries of a tabulated array: those in the range come from `f`, the
/// others from `base`.
pub proof fn lemma_tabulate<T, const N: usize>(base: [T; N], start: int, n: nat, f: spec_fn(int) -> T)
    requires
        0 <= start,
        start + n <= N,
    ensures
        forall|i: int| start <= i < start + n ==> #[trigger] tabulate(base, start, n, f)[i] == f(i - start),
        forall|i: int|
            0 <= i < N && !(start <= i < start + n) ==> #[trigger] tabulate(base, start, n, f)[i]
                == base[i],
    decreases n,
{
    if n > 0 {
        let prev = tabulate(base, start, (n - 1) as nat, f);
        lemma_tabulate(base, start, (n - 1) as nat, f);
        assert(tabulate(base, start, n, f)@ == prev@.update(start + n - 1, f(n - 1)));
        assert forall|i: int| start <= i < start + n implies #[trigger] tabulate(base, start, n, f)[i]
            == f(i - start) by {
            if i < start + n - 1 {
                assert(prev[i] == f(i - start));
            }
        }
        assert forall|i: int| 0 <= i < N && !(start <= i < start + n) implies #[trigger] tabulate(
            base,
            start,
            n,
            f,
        )[i] == base[i] by {
            assert(prev[i] == base[i]);
        }
    }
}

/// An array whose entries in a range are those of `f` and whose other
/// entries are those of `base` is the tabulated array.
pub proof fn lemma_tabulate_unique<T, const N: usize>(
    a: [T; N],
    base: [T; N],
    start: int,
    n: nat,
    f: spec_fn(int) -> T,
)
    requires
        0 <= start,
        start + n <= N,
        forall|i: int| start <= i < start + n ==> #[trigger] a[i] == f(i - start),
        forall|i: int| 0 <= i < N && !(start <= i < start + n) ==> #[trigger] a[i] == base[i],
    ensures
        a == tabulate(base, start, n, f),
{
    lemma_tabulate(base, start, n, f);
    assert(a =~= tabulate(base, start, n, f));
}

} // verus!
