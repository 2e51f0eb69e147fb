//! Fixed-point scalars and 2D vector algebra.
//!
//! A scalar is an `i64` counting millionths of a unit. `fx_mul` multiplies
//! two such scalars and rescales, rounding the magnitude down (toward zero),
//! which is stated exactly by `fx_mul_spec`.

use vstd::prelude::*;

verus! {

/// Micro-units per unit: the fixed-point scale.
pub const UNIT: i64 = 1_000_000;

/// Magnitude bound accepted for products handed to `fx_mul`: products inside
/// this bound rescale into `i64` without overflow.
pub const PRODUCT_LIMIT: i128 = 0x4000_0000_0000_0000_0000;

/// A 2D point or vector in fixed-point coordinates.
#[derive(Clone, Copy, Debug, PartialEq, Eq, Structural)]
pub struct Vec2 {
    pub x: i64,
    pub y: i64,
}

/// A rotation matrix given by the cosine and sine of an angle, both in
/// fixed point. The matrix is `[[c, -s], [s, c]]`.
#[derive(Clone, Copy, Debug, PartialEq, Eq, Structural)]
pub struct RotMat {
    pub c: i64,
    pub s: i64,
}

impl Vec2 {
    pub fn new(x: i64, y: i64) -> (r: Vec2)
        ensures
            r == (Vec2 { x, y }),
    {
        Vec2 { x, y }
    }
}

/// Bounds on two factors bound their product.
pub proof fn lemma_product_bound(a: int, b: int, ca: int, cb: int)
    by (nonlinear_arith)
    requires
        -ca <= a <= ca,
        -cb <= b <= cb,
        0 <= ca,
        0 <= cb,
    ensures
        -(ca * cb) <= a * b <= ca * cb,
{
}

/// The product of two fixed-point scalars, rescaled to fixed point with the
/// magnitude rounded toward zero.
pub open spec fn fx_mul_spec(a: int, b: int) -> int {
    let p = a * b;
    if p >= 0 {
        p / (UNIT as int)
    } else {
        -((-p) / (UNIT as int))
    }
}

/// Bounds on two factors bound the rescaled fixed-point product.
pub proof fn lemma_fx_mul_abs_bound(a: int, b: int, ca: int, cb: int)
    requires
        -ca <= a <= ca,
        -cb <= b <= cb,
        0 <= ca,
        0 <= cb,
    ensures
        -((ca * cb) / (UNIT as int)) <= fx_mul_spec(a, b) <= (ca * cb) / (UNIT as int),
{
    lemma_product_bound(a, b, ca, cb);
    vstd::arithmetic::mul::lemma_mul_nonnegative(ca, cb);
    let p = a * b;
    if p >= 0 {
        vstd::arithmetic::div_mod::lemma_div_pos_is_pos(p, UNIT as int);
        vstd::arithmetic::div_mod::lemma_div_is_ordered(p, ca * cb, UNIT as int);
    } else {
        vstd::arithmetic::div_mod::lemma_div_pos_is_pos(-p, UNIT as int);
        vstd::arithmetic::div_mod::lemma_div_is_ordered(-p, ca * cb, UNIT as int);
    }
}

/// Fixed-point multiplication: exact integer product, rescaled by `UNIT`
/// with the magnitude rounded toward zero.
pub fn fx_mul(a: i64, b: i64) -> (r: i64)
    requires
        -(PRODUCT_LIMIT as int) <= a as int * b as int <= PRODUCT_LIMIT as int,
    ensures
        r as int == fx_mul_spec(a as int, b as int),
{
    let p: i128 = (a as i128) * (b as i128);
    if p >= 0 {
        let q: u128 = (p as u128) / (UNIT as u128);
        assert(q <= PRODUCT_LIMIT as u128 / (UNIT as u128));
        q as i64
    } else {
        let q: u128 = ((-p) as u128) / (UNIT as u128);
        assert(q <= PRODUCT_LIMIT as u128 / (UNIT as u128));
        -(q as i64)
    }
}

} // verus!
