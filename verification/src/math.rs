//! Checked integer arithmetic on token amounts.
//!
//! Amounts are `u64`. A product of two amounts is formed in `u128`, where it
//! always fits, and only then divided; a quotient returns to `u64` through an
//! explicit range test. Nothing here wraps or truncates.

use vstd::prelude::*;
use crate::error::ErrorCode;

verus! {

/// `floor(a * b / d)` over the mathematical integers.
pub open spec fn mul_div(a: int, b: int, d: int) -> int {
    (a * b) / d
}

/// The outcome of a checked operation whose mathematical result is `value`,
/// which is defined only if `defined` holds, and which has to fit in `u64`.
pub open spec fn checked_u64(defined: bool, value: int) -> Result<u64, ErrorCode> {
    if defined && 0 <= value <= u64::MAX {
        Ok(value as u64)
    } else {
        Err(ErrorCode::ArithmeticOverflow)
    }
}

/// The product of two amounts never leaves `u128`.
pub proof fn lemma_product_fits(a: u64, b: u64)
    ensures
        0 <= a * b <= u128::MAX,
{
    assert(0 <= a * b <= 0xFFFF_FFFF_FFFF_FFFF * 0xFFFF_FFFF_FFFF_FFFF) by (nonlinear_arith)
        requires
            0 <= a <= 0xFFFF_FFFF_FFFF_FFFF,
            0 <= b <= 0xFFFF_FFFF_FFFF_FFFF,
    ;
}

/// For a positive divisor, `q = floor(n / d)` is the one integer with
/// `q * d <= n < (q + 1) * d`.
pub proof fn lemma_floor_bounds(n: int, d: int)
    requires
        0 <= n,
        0 < d,
    ensures
        0 <= n / d,
        (n / d) * d <= n < (n / d + 1) * d,
        (n / d) * d + n % d == n,
        0 <= n % d < d,
{
    vstd::arithmetic::div_mod::lemma_fundamental_div_mod(n, d);
    vstd::arithmetic::div_mod::lemma_div_pos_is_pos(n, d);
    vstd::arithmetic::div_mod::lemma_mod_bound(n, d);
    assert(d * (n / d) == (n / d) * d) by (nonlinear_arith);
    assert((n / d + 1) * d == (n / d) * d + d) by (nonlinear_arith);
}

/// A quotient is at most `q` as soon as the numerator is at most `q * d`.
pub proof fn lemma_floor_at_most(n: int, d: int, q: int)
    requires
        0 <= n,
        0 < d,
        n <= q * d,
    ensures
        n / d <= q,
{
    lemma_floor_bounds(n, d);
    assert(n / d <= q) by (nonlinear_arith)
        requires
            (n / d) * d <= n,
            n <= q * d,
            0 < d,
    ;
}

/// `floor(a * b / d)` without narrowing: `None` exactly when `d` is zero.
pub fn wide_mul_div(a: u64, b: u64, d: u64) -> (r: Option<u128>)
    ensures
        d == 0 ==> r is None,
        d != 0 ==> r == Some(mul_div(a as int, b as int, d as int) as u128),
        d != 0 ==> 0 <= mul_div(a as int, b as int, d as int) <= u128::MAX,
{
    proof {
        lemma_product_fits(a, b);
        if d != 0 {
            lemma_floor_bounds(a * b, d as int);
            assert((a * b) / (d as int) <= a * b) by (nonlinear_arith)
                requires
                    ((a * b) / (d as int)) * d <= a * b,
                    0 <= (a * b) / (d as int),
                    1 <= d,
            ;
        }
    }
    let product: u128 = (a as u128) * (b as u128);
    product.checked_div(d as u128)
}

/// Brings a wide value back to an amount, or reports that it does not fit.
pub fn narrow(wide: u128) -> (r: Result<u64, ErrorCode>)
    ensures
        r == checked_u64(true, wide as int),
{
    if wide > u64::MAX as u128 {
        Err(ErrorCode::ArithmeticOverflow)
    } else {
        Ok(wide as u64)
    }
}

/// `floor(a * b / d)` as an amount. Fails on a zero divisor and on a quotient
/// that does not fit.
pub fn mul_div_floor(a: u64, b: u64, d: u64) -> (r: Result<u64, ErrorCode>)
    ensures
        r == checked_u64(d != 0, mul_div(a as int, b as int, d as int)),
{
    match wide_mul_div(a, b, d) {
        Some(q) => narrow(q),
        None => Err(ErrorCode::ArithmeticOverflow),
    }
}

/// The sum of two amounts, or an error if it does not fit.
pub fn add_amounts(a: u64, b: u64) -> (r: Result<u64, ErrorCode>)
    ensures
        r == checked_u64(true, a + b),
{
    match a.checked_add(b) {
        Some(s) => Ok(s),
        None => Err(ErrorCode::ArithmeticOverflow),
    }
}

/// The difference of two amounts, or an error if it would be negative.
pub fn sub_amounts(a: u64, b: u64) -> (r: Result<u64, ErrorCode>)
    ensures
        r == checked_u64(true, a - b),
{
    match a.checked_sub(b) {
        Some(s) => Ok(s),
        None => Err(ErrorCode::ArithmeticOverflow),
    }
}

} // verus!
