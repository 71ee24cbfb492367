use vstd::prelude::*;

use crate::cpu::mos6502::bus::wrap8;
use crate::cpu::mos6502::state::signed8;

verus! {

/// The low four bits of a byte.
pub open spec fn lo_nibble(a: u8) -> u8 {
    (a % 16) as u8
}

/// The high four bits of a byte.
pub open spec fn hi_nibble(a: u8) -> u8 {
    (a / 16) as u8
}

/// The nibble masks and shifts used on a byte compute its nibbles.
pub proof fn lemma_nibbles(a: u8)
    ensures
        a & 0x0fu8 == lo_nibble(a),
        (a >> 4u8) & 0x0fu8 == hi_nibble(a),
        a >> 4u8 == hi_nibble(a),
        a == hi_nibble(a) * 16 + lo_nibble(a),
        lo_nibble(a) < 16,
        hi_nibble(a) < 16,
{
    assert(a & 0x0fu8 == a % 16 && (a >> 4u8) & 0x0fu8 == a / 16 && a >> 4u8 == a / 16) by (bit_vector);
}

/// Two nibbles put together give back their nibbles.
pub proof fn lemma_nibble_compose(h: u8, l: u8)
    requires
        h < 16,
        l < 16,
    ensures
        lo_nibble((h * 16 + l) as u8) == l,
        hi_nibble((h * 16 + l) as u8) == h,
{
    assert(((h * 16 + l) as u8) % 16 == l && ((h * 16 + l) as u8) / 16 == h) by (bit_vector)
        requires
            h < 16,
            l < 16,
    ;
}

/// Binary addition with carry: the result byte.
pub open spec fn adc_result(a: u8, v: u8, carry: bool) -> u8 {
    wrap8(a + v + (if carry { 1int } else { 0int }))
}

/// Binary addition with carry: the carry out.
pub open spec fn adc_carry(a: u8, v: u8, carry: bool) -> bool {
    a + v + (if carry { 1int } else { 0int }) >= 256
}

/// Binary addition with carry: the overflow flag, set when the sum of the operands read as
/// signed bytes does not fit in a signed byte.
pub open spec fn adc_overflow(a: u8, v: u8, carry: bool) -> bool {
    let s = signed8(a) + signed8(v) + (if carry { 1int } else { 0int });
    s < -128 || s > 127
}

/// One BCD digit step of a decimal addition or subtraction (the subtrahend's nibble comes
/// complemented), with its carry out.
pub open spec fn decimal_nibble(m: u8, n: u8, carry: bool, subtraction: bool) -> (u8, bool) {
    let r0 = m + n + (if carry { 1int } else { 0int });
    let carry_out = r0 >= 16;
    let r = if carry_out { r0 - 16 } else { r0 };
    if r > 9 || (!subtraction && carry_out) || (subtraction && !carry_out) {
        if subtraction {
            ((if r >= 6 { r - 6 } else { r + 10 }) as u8, carry_out)
        } else {
            ((if r + 6 >= 16 { r - 10 } else { r + 6 }) as u8, r + 6 > 15 || carry_out)
        }
    } else {
        (r as u8, carry_out)
    }
}

/// Decimal addition (or subtraction of a complemented operand) with carry: result and carry out.
pub open spec fn adc_decimal(a: u8, v: u8, carry: bool, subtraction: bool) -> (u8, bool) {
    let lo = decimal_nibble(lo_nibble(a), lo_nibble(v), carry, subtraction);
    let hi = decimal_nibble(hi_nibble(a), hi_nibble(v), lo.1, subtraction);
    ((hi.0 * 16 + lo.0) as u8, hi.1)
}

/// Whether a byte holds two BCD digits.
pub open spec fn is_bcd(a: u8) -> bool {
    lo_nibble(a) <= 9 && hi_nibble(a) <= 9
}

/// The number two BCD digits stand for.
pub open spec fn bcd_value(a: u8) -> int {
    hi_nibble(a) * 10 + lo_nibble(a)
}

/// One digit step adds decimal digits: the digit is the sum modulo 10 and the carry tells
/// whether the sum reached 10.
pub proof fn lemma_decimal_nibble_add(m: u8, n: u8, carry: bool)
    requires
        m <= 9,
        n <= 9,
    ensures
        ({
            let s = m + n + (if carry { 1int } else { 0int });
            let r = decimal_nibble(m, n, carry, false);
            &&& r.0 <= 9
            &&& r.1 == (s >= 10)
            &&& r.0 == (if s >= 10 { s - 10 } else { s })
        }),
{
}

/// One digit step on a complemented digit subtracts: the digit is the difference modulo 10
/// and the carry is set when no borrow occurred.
pub proof fn lemma_decimal_nibble_sub(m: u8, d: u8, carry: bool)
    requires
        m <= 9,
        d <= 9,
    ensures
        ({
            let s = m - d - (if carry { 0int } else { 1int });
            let r = decimal_nibble(m, (15 - d) as u8, carry, true);
            &&& r.0 <= 9
            &&& r.1 == (s >= 0)
            &&& r.0 == (if s >= 0 { s } else { s + 10 })
        }),
{
}

/// Decimal addition of BCD bytes adds the numbers they stand for: the result is BCD and
/// result + 100 * carry equals the sum with carry in.
pub proof fn lemma_decimal_add(a: u8, v: u8, carry: bool)
    requires
        is_bcd(a),
        is_bcd(v),
    ensures
        is_bcd(adc_decimal(a, v, carry, false).0),
        bcd_value(adc_decimal(a, v, carry, false).0) + (if adc_decimal(a, v, carry, false).1 {
            100int
        } else {
            0int
        }) == bcd_value(a) + bcd_value(v) + (if carry { 1int } else { 0int }),
{
    let lo = decimal_nibble(lo_nibble(a), lo_nibble(v), carry, false);
    lemma_decimal_nibble_add(lo_nibble(a), lo_nibble(v), carry);
    let hi = decimal_nibble(hi_nibble(a), hi_nibble(v), lo.1, false);
    lemma_decimal_nibble_add(hi_nibble(a), hi_nibble(v), lo.1);
    lemma_nibble_compose(hi.0, lo.0);
}

/// Decimal subtraction of BCD bytes (the operand complemented, as SBC hands it over)
/// subtracts the numbers they stand for: the result is the difference minus the borrow,
/// modulo 100, and the carry is set when no borrow out occurred.
pub proof fn lemma_decimal_sub(a: u8, v: u8, carry: bool)
    requires
        is_bcd(a),
        is_bcd(v),
    ensures
        ({
            let d = bcd_value(a) - bcd_value(v) - (if carry { 0int } else { 1int });
            let r = adc_decimal(a, (255 - v) as u8, carry, true);
            &&& is_bcd(r.0)
            &&& r.1 == (d >= 0)
            &&& bcd_value(r.0) == (if d >= 0 { d } else { d + 100 })
        }),
{
    let nv = (255 - v) as u8;
    assert(nv % 16 == 15 - v % 16 && nv / 16 == 15 - v / 16) by (bit_vector)
        requires
            nv == (255 - v) as u8,
    ;
    let lo = decimal_nibble(lo_nibble(a), lo_nibble(nv), carry, true);
    lemma_decimal_nibble_sub(lo_nibble(a), lo_nibble(v), carry);
    let hi = decimal_nibble(hi_nibble(a), hi_nibble(nv), lo.1, true);
    lemma_decimal_nibble_sub(hi_nibble(a), hi_nibble(v), lo.1);
    lemma_nibble_compose(hi.0, lo.0);
}

/// Binary subtraction through the complemented operand: the result is a - v - borrow modulo
/// 256 and the carry is set when no borrow out occurred.
pub proof fn lemma_binary_sub(a: u8, v: u8, carry: bool)
    ensures
        ({
            let d = a - v - (if carry { 0int } else { 1int });
            let nv = (255 - v) as u8;
            &&& adc_result(a, nv, carry) == wrap8(d)
            &&& adc_carry(a, nv, carry) == (d >= 0)
        }),
{
}

} // verus!
