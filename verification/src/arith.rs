use vstd::arithmetic::div_mod::{lemma_fundamental_div_mod, lemma_mod_pos_bound};
use vstd::prelude::*;

verus! {

/// The signed 64-bit value that is congruent to `x` modulo 2^64: what
/// two's-complement arithmetic keeps of an exact result.
pub open spec fn wrap(x: int) -> i64 {
    let r: int = x % 0x1_0000_0000_0000_0000;
    if r >= 0x8000_0000_0000_0000 {
        (r - 0x1_0000_0000_0000_0000) as i64
    } else {
        r as i64
    }
}

/// The quotient of `a` by `b`, rounded toward zero.
pub open spec fn quotient(a: int, b: int) -> int
    recommends
        b != 0,
{
    if a >= 0 {
        if b > 0 {
            a / b
        } else {
            -(a / (-b))
        }
    } else {
        if b > 0 {
            -((-a) / b)
        } else {
            (-a) / (-b)
        }
    }
}

/// -1, 0 or 1 as `x` is negative, zero or positive.
pub open spec fn sign(x: int) -> int {
    if x < 0 {
        -1
    } else if x == 0 {
        0
    } else {
        1
    }
}

/// `wrap` leaves a value alone that already fits, and always differs from its
/// argument by a multiple of 2^64.
pub proof fn lemma_wrap(x: int)
    ensures
        i64::MIN <= x <= i64::MAX ==> wrap(x) == x,
        (x - wrap(x)) % 0x1_0000_0000_0000_0000 == 0,
{
}

/// Rounding toward zero: the remainder is smaller in magnitude than the
/// divisor and never has the opposite sign of the dividend.
pub proof fn lemma_quotient(a: int, b: int)
    requires
        b != 0,
    ensures
        ({
            let r = a - b * quotient(a, b);
            &&& -b < r < b || b < r < -b
            &&& a >= 0 ==> r >= 0
            &&& a <= 0 ==> r <= 0
        }),
{
    let x: int = if a >= 0 { a } else { -a };
    let d: int = if b > 0 { b } else { -b };
    let k: int = x / d;
    lemma_fundamental_div_mod(x, d);
    lemma_mod_pos_bound(x, d);
    assert(b * quotient(a, b) == a - (if a >= 0 { x % d } else { -(x % d) })) by (nonlinear_arith)
        requires
            x == d * k + x % d,
            x == (if a >= 0 { a } else { -a }),
            d == (if b > 0 { b } else { -b }),
            b != 0,
            quotient(a, b) == (if (a >= 0) == (b > 0) { k } else { -k }),
    ;
}

/// Sum of two registers, wrapped.
pub fn wrapping_sum(a: i64, b: i64) -> (r: i64)
    ensures
        r == wrap(a + b),
{
    a.wrapping_add(b)
}

/// Difference of two registers, wrapped.
pub fn wrapping_difference(a: i64, b: i64) -> (r: i64)
    ensures
        r == wrap(a - b),
{
    a.wrapping_sub(b)
}

/// Product of two registers, wrapped.
pub fn wrapping_product(a: i64, b: i64) -> (r: i64)
    ensures
        r == wrap(a * b),
{
    a.wrapping_mul(b)
}

/// Quotient of two registers, rounded toward zero and wrapped. Only
/// `i64::MIN / -1` wraps: its exact quotient is 2^63.
pub fn wrapping_quotient(a: i64, b: i64) -> (r: i64)
    requires
        b != 0,
    ensures
        r == wrap(quotient(a as int, b as int)),
{
    match a.checked_div(b) {
        Some(q) => q,
        None => i64::MIN,
    }
}

/// Three-way comparison of two registers, without forming their difference
/// in 64 bits.
pub fn compare(a: i64, b: i64) -> (flag: i8)
    ensures
        flag == sign(a - b),
{
    if a < b {
        -1
    } else if a == b {
        0
    } else {
        1
    }
}

} // verus!
