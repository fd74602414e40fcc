//! The arithmetic of the instructions, on plain values.

use vstd::prelude::*;
use crate::bits::byte_bit;
use crate::cpu::model::Flags;

verus! {

/// One if `bit` is set, else zero.
pub open spec fn bit_value(bit: bool) -> int {
    if bit {
        1
    } else {
        0
    }
}

/// The sum of `a`, `b` and an incoming carry, as eight bits, and its flags:
/// the carry is the ninth bit of the sum, the half carry the carry out of
/// bit 3.
pub open spec fn add8(a: u8, b: u8, carry: bool) -> (u8, Flags) {
    let sum = a + b + bit_value(carry);
    (
        (sum % 256) as u8,
        Flags {
            zero: sum % 256 == 0,
            subtract: false,
            half_carry: a % 16 + b % 16 + bit_value(carry) > 15,
            carry: sum > 255,
        },
    )
}

/// The difference of `a` and `b`, as eight bits, and its flags: the carry is
/// the borrow into bit 7, the half carry the borrow into bit 3.
pub open spec fn sub8(a: u8, b: u8) -> (u8, Flags) {
    (
        ((a - b) % 256) as u8,
        Flags { zero: a == b, subtract: true, half_carry: a % 16 < b % 16, carry: a < b },
    )
}

/// The sum of two 16-bit values, as sixteen bits, with the carry out of bit
/// 15 and the carry out of bit 11.
pub open spec fn add16(a: u16, b: u16) -> (u16, bool, bool) {
    (((a + b) % 0x10000) as u16, a + b > 0xFFFF, a % 0x1000 + b % 0x1000 > 0xFFF)
}

/// The flags of a bitwise operation with the given result.
pub open spec fn logic_flags(result: u8, half_carry: bool) -> Flags {
    Flags { zero: result == 0, subtract: false, half_carry, carry: false }
}

/// `value` plus one, as eight bits.
pub open spec fn inc8(value: u8) -> u8 {
    ((value + 1) % 256) as u8
}

/// `value` minus one, as eight bits.
pub open spec fn dec8(value: u8) -> u8 {
    ((value - 1) % 256) as u8
}

/// The flags after an 8-bit increment of `value`; the carry stays.
pub open spec fn inc_flags(value: u8, flags: Flags) -> Flags {
    Flags { zero: value == 255, subtract: false, half_carry: value % 16 == 15, carry: flags.carry }
}

/// The flags after an 8-bit decrement of `value`; the carry stays.
pub open spec fn dec_flags(value: u8, flags: Flags) -> Flags {
    Flags { zero: value == 1, subtract: true, half_carry: value % 16 == 0, carry: flags.carry }
}

/// `value` shifted left by one with the incoming carry in bit 0.
pub open spec fn rotated_left(value: u8, carry: bool) -> u8 {
    (value * 2 % 256 + bit_value(carry)) as u8
}

/// The flags after a shift or rotation that gave `result` and moved
/// `carry` out.
pub open spec fn shift_flags(result: u8, carry: bool) -> Flags {
    Flags { zero: result == 0, subtract: false, half_carry: false, carry }
}

/// `value` with its two nibbles exchanged.
pub open spec fn swapped(value: u8) -> u8 {
    (value % 16 * 16 + value / 16) as u8
}

/// Whether bit `bit` of `value` is clear, bit 0 being the least significant.
pub open spec fn bit_is_zero(value: u8, bit: u8) -> bool {
    !byte_bit(value, bit)
}

/// `value` with bit `bit` set.
pub open spec fn with_bit_set(value: u8, bit: u8) -> u8 {
    value | (1u8 << bit)
}

/// `value` with bit `bit` clear.
pub open spec fn with_bit_clear(value: u8, bit: u8) -> u8 {
    value & !(1u8 << bit)
}

/// The correction that the decimal adjustment applies to the accumulator
/// `a`, given the flags of the operation before it. After a subtraction the
/// low nibble is corrected by 0x06 when there was a half carry and the high
/// nibble by 0x60 when there was a carry. After an addition the low nibble
/// is also corrected when it exceeds 9, and the high nibble also when the
/// accumulator exceeds 0x99.
pub open spec fn daa_adjust(a: u8, flags: Flags) -> int {
    let low = flags.half_carry || (!flags.subtract && a % 16 > 9);
    let high = flags.carry || (!flags.subtract && a > 0x99);
    (if low { 0x06int } else { 0 }) + (if high { 0x60int } else { 0 })
}

/// The accumulator and the flags after the decimal adjustment: the
/// correction is subtracted after a subtraction and added after an addition;
/// the carry says whether the high nibble was corrected.
pub open spec fn daa(a: u8, flags: Flags) -> (u8, Flags) {
    let adjust = daa_adjust(a, flags);
    let result = if flags.subtract {
        ((a - adjust) % 256) as u8
    } else {
        ((a + adjust) % 256) as u8
    };
    (
        result,
        Flags { zero: result == 0, subtract: flags.subtract, half_carry: false, carry: adjust >= 0x60 },
    )
}

/// The offset that a byte stands for in a relative jump: the byte as a
/// signed number.
pub open spec fn signed(byte: u8) -> int {
    if byte < 128 {
        byte as int
    } else {
        byte - 256
    }
}

/// The address `offset` away from `pc`, wrapping at 65536.
pub open spec fn relative(pc: u16, offset: u8) -> u16 {
    ((pc + signed(offset)) % 0x10000) as u16
}

/// In the last page of memory, "or" with the low byte is addition.
pub proof fn lemma_high_page(low: u8)
    by (bit_vector)
    ensures
        0xFF00u16 | (low as u16) == 0xFF00u16 + (low as u16),
{
}

/// The carry and the half carry of an 8-bit addition, read off the bits of
/// the sum computed in 32 bits.
pub proof fn lemma_add_bits(a: u32, b: u32, c: u32, r: u32)
    by (bit_vector)
    requires
        a < 256,
        b < 256,
        c < 2,
        r == a + b + c,
    ensures
        (r & 0x100 != 0) == (a + b + c > 255),
        ((a ^ b ^ r) & 0x10 != 0) == (a % 16 + b % 16 + c > 15),
        a + b + c > 255 ==> r & 0xFF == a + b + c - 256,
        a + b + c <= 255 ==> r & 0xFF == a + b + c,
{
}

/// The borrow and the half borrow of an 8-bit subtraction, read off the bits
/// of the difference computed in 32 bits, where it wraps.
pub proof fn lemma_sub_bits(a: u32, b: u32, r: u32)
    by (bit_vector)
    requires
        a < 256,
        b < 256,
        a >= b ==> r == a - b,
        a < b ==> (r as u64) == 0x1_0000_0000u64 + (a as u64) - (b as u64),
    ensures
        (r & 0x100 != 0) == (a < b),
        ((a ^ b ^ r) & 0x10 != 0) == (a % 16 < b % 16),
        a >= b ==> r & 0xFF == a - b,
        a < b ==> r & 0xFF == 256 + a - b,
{
}

/// The carry and the half carry of a 16-bit addition, read off the bits of
/// the sum computed in 32 bits.
pub proof fn lemma_add16_bits(a: u32, b: u32, r: u32)
    by (bit_vector)
    requires
        a < 0x10000,
        b < 0x10000,
        r == a + b,
    ensures
        (r & 0x10000 != 0) == (a + b > 0xFFFF),
        ((a ^ b ^ r) & 0x1000 != 0) == (a % 0x1000 + b % 0x1000 > 0xFFF),
        a + b > 0xFFFF ==> r & 0xFFFF == a + b - 0x10000,
        a + b <= 0xFFFF ==> r & 0xFFFF == a + b,
{
}

/// Shifts of a byte by one, as arithmetic.
pub proof fn lemma_shift_bits(v: u8, c: u8)
    by (bit_vector)
    requires
        c < 2,
    ensures
        v >= 128 ==> (v << 1) | c == v * 2 - 256 + c,
        v < 128 ==> (v << 1) | c == v * 2 + c,
        v >= 128 ==> v << 1 == v * 2 - 256,
        v < 128 ==> v << 1 == v * 2,
        v >> 1 == v / 2,
        v >> 7 == v / 128,
        (v & 0x80 != 0) == (v >= 128),
        (v & 1 != 0) == (v % 2 == 1),
        v & 0x0F == v % 16,
        !v == 255 - v,
{
}

/// The nibbles of a byte, put together the other way round.
pub proof fn lemma_swap_bits(high: u8, low: u8)
    by (bit_vector)
    requires
        high < 16,
        low < 16,
    ensures
        low << 4 | high == low * 16 + high,
{
}

/// The corrections of the decimal adjustment, put together with "or".
pub proof fn lemma_adjust_bits(adjust: u8)
    by (bit_vector)
    requires
        adjust == 0 || adjust == 0x06 || adjust == 0x60 || adjust == 0x66,
    ensures
        adjust >= 0x60 ==> adjust | 0x06 == 0x66,
        adjust < 0x60 ==> adjust | 0x06 == 0x06,
        adjust == 0x06 || adjust == 0x66 ==> adjust | 0x60 == 0x66,
        adjust == 0x00 || adjust == 0x60 ==> adjust | 0x60 == 0x60,
        (adjust & 0x60 != 0) == (adjust >= 0x60),
{
}

/// Whether `byte` is two decimal digits, one in each nibble.
pub open spec fn is_bcd(byte: u8) -> bool {
    byte / 16 <= 9 && byte % 16 <= 9
}

/// The number that the two decimal digits of `byte` stand for.
pub open spec fn bcd_value(byte: u8) -> int {
    byte / 16 * 10 + byte % 16
}

/// After the addition of two numbers of two decimal digits, with or without
/// an incoming carry, the decimal adjustment gives the two low digits of
/// their sum, and its carry says whether the sum went beyond 99.
pub proof fn lemma_daa_after_addition(x: u8, y: u8, carry: bool)
    requires
        is_bcd(x),
        is_bcd(y),
    ensures
        ({
            let sum = add8(x, y, carry);
            let adjusted = daa(sum.0, sum.1);
            let total = bcd_value(x) + bcd_value(y) + bit_value(carry);
            &&& is_bcd(adjusted.0)
            &&& bcd_value(adjusted.0) == total % 100
            &&& adjusted.1.carry == (total >= 100)
            &&& adjusted.1.zero == (total % 100 == 0)
            &&& !adjusted.1.half_carry
            &&& !adjusted.1.subtract
        }),
{
    // the digits, and the sums of the units and of the tens
    let low = x % 16 + y % 16 + bit_value(carry);
    let high = x / 16 + y / 16;
    let binary = x + y + bit_value(carry);
    assert(binary == 16 * high + low);
    let sum = add8(x, y, carry);
    // the binary sum, nibble by nibble
    let low_over: int = if low > 15 { 1 } else { 0 };
    let byte_over: int = if binary > 255 { 1 } else { 0 };
    lemma_split(binary, 256, byte_over, binary - 256 * byte_over);
    lemma_split(sum.0 as int, 16, high + low_over - 16 * byte_over, low - 16 * low_over);
    // the decimal carries
    let units_over: int = if low >= 10 { 1 } else { 0 };
    let tens = high + units_over;
    let tens_over: int = if tens >= 10 { 1 } else { 0 };
    assert(sum.1.half_carry || sum.0 % 16 > 9 <==> low >= 10);
    assert(sum.1.carry || sum.0 > 0x99 <==> tens >= 10);
    assert(daa_adjust(sum.0, sum.1) == 6 * units_over + 96 * tens_over);
    let expected = 16 * (tens - 10 * tens_over) + (low - 10 * units_over);
    let correction: int = if tens_over > byte_over { 1 } else { 0 };
    assert(tens_over >= byte_over);
    lemma_split(sum.0 + daa_adjust(sum.0, sum.1), 256, correction, expected);
    let adjusted = daa(sum.0, sum.1);
    assert(adjusted.0 == expected);
    lemma_split(expected, 16, tens - 10 * tens_over, low - 10 * units_over);
    let total = bcd_value(x) + bcd_value(y) + bit_value(carry);
    assert(total == 10 * high + low);
    assert(total == 100 * tens_over + bcd_value(adjusted.0));
    lemma_split(total, 100, tens_over, bcd_value(adjusted.0));
}

/// The quotient and the remainder of a division are the only numbers that
/// put the dividend together with a remainder below the divisor.
proof fn lemma_split(value: int, divisor: int, quotient: int, remainder: int)
    by (nonlinear_arith)
    requires
        divisor > 0,
        value == divisor * quotient + remainder,
        0 <= remainder < divisor,
    ensures
        value / divisor == quotient,
        value % divisor == remainder,
{
    vstd::arithmetic::div_mod::lemma_fundamental_div_mod_converse(
        value,
        divisor,
        quotient,
        remainder,
    );
}

/// After the subtraction of two numbers of two decimal digits, the decimal
/// adjustment gives their difference modulo 100, and its carry says whether
/// the subtraction borrowed.
pub proof fn lemma_daa_after_subtraction(x: u8, y: u8)
    requires
        is_bcd(x),
        is_bcd(y),
    ensures
        ({
            let difference = sub8(x, y);
            let adjusted = daa(difference.0, difference.1);
            let total = bcd_value(x) - bcd_value(y);
            &&& is_bcd(adjusted.0)
            &&& bcd_value(adjusted.0) == total % 100
            &&& adjusted.1.carry == (total < 0)
            &&& adjusted.1.zero == (total % 100 == 0)
            &&& !adjusted.1.half_carry
            &&& adjusted.1.subtract
        }),
{
    // the digits, and the differences of the units and of the tens
    let low = x % 16 - y % 16;
    let high = x / 16 - y / 16;
    assert(x - y == 16 * high + low);
    let difference = sub8(x, y);
    let units_borrow: int = if low < 0 { 1 } else { 0 };
    let tens = high - units_borrow;
    let tens_borrow: int = if tens < 0 { 1 } else { 0 };
    // the binary difference, nibble by nibble
    assert(difference.0 == 16 * (tens + 16 * tens_borrow) + (low + 16 * units_borrow));
    assert(difference.1.half_carry == (low < 0));
    assert(difference.1.carry == (tens < 0));
    assert(daa_adjust(difference.0, difference.1) == 6 * units_borrow + 96 * tens_borrow);
    let expected = 16 * (tens + 10 * tens_borrow) + (low + 10 * units_borrow);
    assert(difference.0 - daa_adjust(difference.0, difference.1) == expected);
    let adjusted = daa(difference.0, difference.1);
    assert(0 <= expected < 256);
    assert(adjusted.0 == expected);
    assert(adjusted.0 / 16 == tens + 10 * tens_borrow);
    assert(adjusted.0 % 16 == low + 10 * units_borrow);
    let total = bcd_value(x) - bcd_value(y);
    assert(total == 10 * high + low);
    assert(total == bcd_value(adjusted.0) - 100 * tens_borrow);
}

} // verus!
