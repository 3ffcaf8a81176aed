//! Signed fixed-point arithmetic in micro-units.
//!
//! A value of `1_000_000` stands for `1.0`.  Multiplication of two
//! fixed-point values divides the wide product by the scale, truncating
//! toward zero, which is the rounding the rest of the crate's contracts
//! are stated against.

use vstd::prelude::*;

verus! {

/// One whole unit in the fixed-point scale.
pub const FX_ONE: i64 = 1_000_000;

/// Fixed-point product in the mathematical integers: the wide product
/// scaled down by `FX_ONE`, truncated toward zero.
pub open spec fn fx_mul_s(a: int, b: int) -> int {
    if a * b >= 0 {
        (a * b) / 1_000_000
    } else {
        -((-(a * b)) / 1_000_000)
    }
}

proof fn lemma_abs_product(a: int, b: int)
    ensures
        a >= 0 && b >= 0 ==> a * b >= 0 && (if a < 0 { -a } else { a }) * (if b < 0 { -b } else { b }) == a * b,
        a < 0 && b < 0 ==> a * b >= 0 && (if a < 0 { -a } else { a }) * (if b < 0 { -b } else { b }) == a * b,
        a < 0 && b >= 0 ==> a * b <= 0 && (if a < 0 { -a } else { a }) * (if b < 0 { -b } else { b }) == -(a * b),
        a >= 0 && b < 0 ==> a * b <= 0 && (if a < 0 { -a } else { a }) * (if b < 0 { -b } else { b }) == -(a * b),
{
    assert(a >= 0 && b >= 0 ==> a * b >= 0 && a * b == a * b) by (nonlinear_arith);
    assert(a < 0 && b < 0 ==> a * b >= 0 && (-a) * (-b) == a * b) by (nonlinear_arith);
    assert(a < 0 && b >= 0 ==> a * b <= 0 && (-a) * b == -(a * b)) by (nonlinear_arith);
    assert(a >= 0 && b < 0 ==> a * b <= 0 && a * (-b) == -(a * b)) by (nonlinear_arith);
}

/// Fixed-point multiplication.  The wide product of the operands must fit
/// comfortably in 64 bits; callers establish that from their own bounds.
pub fn fx_mul(a: i64, b: i64) -> (r: i64)
    requires
        -9_000_000_000_000_000_000 <= a <= 9_000_000_000_000_000_000,
        -9_000_000_000_000_000_000 <= b <= 9_000_000_000_000_000_000,
        -9_000_000_000_000_000_000 <= a as int * b as int <= 9_000_000_000_000_000_000,
    ensures
        r == fx_mul_s(a as int, b as int),
{
    proof {
        lemma_abs_product(a as int, b as int);
    }
    let neg = (a < 0) != (b < 0);
    let aa: u64 = if a < 0 { (-a) as u64 } else { a as u64 };
    let bb: u64 = if b < 0 { (-b) as u64 } else { b as u64 };
    let p: u64 = aa * bb;
    let q: u64 = p / 1_000_000;
    proof {
        assert(q <= p) by (nonlinear_arith)
            requires q == p / 1_000_000,
        ;
    }
    if neg {
        -(q as i64)
    } else {
        q as i64
    }
}

/// The magnitude of a fixed-point product is bounded by the scaled-down
/// bound on the wide product.
pub proof fn lemma_fx_mul_bound(a: int, b: int, m: int)
    requires
        0 <= m,
        -m <= a * b <= m,
    ensures
        -(m / 1_000_000) <= fx_mul_s(a, b) <= m / 1_000_000,
{
    if a * b >= 0 {
        vstd::arithmetic::div_mod::lemma_div_is_ordered(a * b, m, 1_000_000);
        vstd::arithmetic::div_mod::lemma_div_pos_is_pos(a * b, 1_000_000);
    } else {
        vstd::arithmetic::div_mod::lemma_div_is_ordered(-(a * b), m, 1_000_000);
        vstd::arithmetic::div_mod::lemma_div_pos_is_pos(-(a * b), 1_000_000);
    }
}

/// A product of operands bounded in magnitude is bounded by the product of
/// the bounds.
pub proof fn lemma_mul_magnitude(a: int, b: int, ba: int, bb: int)
    requires
        -ba <= a <= ba,
        -bb <= b <= bb,
        0 <= ba,
        0 <= bb,
    ensures
        -(ba * bb) <= a * b <= ba * bb,
{
    assert(-(ba * bb) <= a * b <= ba * bb) by (nonlinear_arith)
        requires
            -ba <= a <= ba,
            -bb <= b <= bb,
            0 <= ba,
            0 <= bb,
    ;
}

} // verus!
