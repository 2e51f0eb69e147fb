//! Soft-joint tuning: converts a spring-damper specification (mass, natural
//! frequency, damping ratio) and the simulation time step into the engine's
//! impulse-softening parameters.
//!
//! For mass `m`, frequency `f`, damping ratio `z` and time step `h`, with
//! `w = 2*pi*f`, `d = 2*m*z*w` and `k = m*w*w`, the parameters are
//! `softness = 1 / (d + h*k)` and `bias_factor = h*k / (d + h*k)`, all in
//! fixed point with magnitudes rounded toward zero.

use vstd::prelude::*;
use vstd::arithmetic::div_mod::{
    lemma_div_is_ordered,
    lemma_div_is_ordered_by_denominator,
    lemma_div_pos_is_pos,
    lemma_div_multiples_vanish,
};
use vstd::arithmetic::mul::{lemma_mul_inequality, lemma_mul_nonnegative};
use crate::math::{fx_mul, fx_mul_spec, lemma_product_bound, UNIT};

verus! {

/// `2*pi` in fixed point.
pub const TWO_PI: i64 = 6_283_185;

/// Largest tuning input accepted, one thousand units: masses in kilograms,
/// frequencies in hertz and damping ratios of the scenarios are far below it.
pub const TUNING_LIMIT: i64 = 1_000_000_000;

/// The two engine parameters a spring-damper specification maps to.
#[derive(Clone, Copy, Debug, PartialEq, Eq, Structural)]
pub struct JointTuning {
    pub softness: i64,
    pub bias_factor: i64,
}

/// The angular frequency `2*pi*f`.
pub open spec fn omega_spec(f: int) -> int {
    fx_mul_spec(TWO_PI as int, f)
}

/// The damping coefficient `2*m*z*w`.
pub open spec fn damping_spec(m: int, f: int, z: int) -> int {
    fx_mul_spec(fx_mul_spec(2 * m, z), omega_spec(f))
}

/// The stiffness `m*w*w`.
pub open spec fn stiffness_spec(m: int, f: int) -> int {
    fx_mul_spec(m, fx_mul_spec(omega_spec(f), omega_spec(f)))
}

/// The shared denominator `d + h*k`.
pub open spec fn denom_spec(m: int, f: int, z: int, h: int) -> int {
    damping_spec(m, f, z) + fx_mul_spec(h, stiffness_spec(m, f))
}

/// `softness = 1 / (d + h*k)` in fixed point.
pub open spec fn softness_spec(m: int, f: int, z: int, h: int) -> int {
    (UNIT as int * UNIT as int) / denom_spec(m, f, z, h)
}

/// `bias_factor = h*k / (d + h*k)` in fixed point.
pub open spec fn bias_factor_spec(m: int, f: int, z: int, h: int) -> int {
    (fx_mul_spec(h, stiffness_spec(m, f)) * (UNIT as int)) / denom_spec(m, f, z, h)
}

/// The tuning inputs the library accepts: positive mass, frequency and time
/// step, non-negative damping ratio, all within `TUNING_LIMIT` (the time
/// step within one second), and coarse enough that the fixed-point
/// denominator does not vanish.
pub open spec fn tuning_inputs_ok(m: int, f: int, z: int, h: int) -> bool {
    &&& 0 < m <= TUNING_LIMIT as int
    &&& 0 < f <= TUNING_LIMIT as int
    &&& 0 <= z <= TUNING_LIMIT as int
    &&& 0 < h <= UNIT as int
    &&& 0 < denom_spec(m, f, z, h)
}

/// Establishes range and monotonicity facts for `fx_mul_spec` on
/// non-negative arguments.
pub proof fn lemma_fx_mul_range(a: int, b: int, ca: int, cb: int)
    requires
        0 <= a <= ca,
        0 <= b <= cb,
    ensures
        0 <= fx_mul_spec(a, b) <= (ca * cb) / (UNIT as int),
{
    lemma_mul_nonnegative(a, b);
    lemma_product_bound(a, b, ca, cb);
    lemma_mul_nonnegative(ca, cb);
    lemma_div_pos_is_pos(a * b, UNIT as int);
    lemma_div_is_ordered(a * b, ca * cb, UNIT as int);
}

/// `fx_mul_spec` of non-negative arguments is non-negative.
pub proof fn lemma_fx_mul_nonneg(a: int, b: int)
    requires
        0 <= a,
        0 <= b,
    ensures
        0 <= fx_mul_spec(a, b),
{
    lemma_mul_nonnegative(a, b);
    lemma_div_pos_is_pos(a * b, UNIT as int);
}

/// `fx_mul_spec` is monotone in its first argument on non-negative inputs.
pub proof fn lemma_fx_mul_mono_left(a1: int, a2: int, b: int)
    requires
        0 <= a1 <= a2,
        0 <= b,
    ensures
        fx_mul_spec(a1, b) <= fx_mul_spec(a2, b),
{
    lemma_mul_nonnegative(a1, b);
    lemma_mul_nonnegative(a2, b);
    lemma_mul_inequality(a1, a2, b);
    lemma_div_is_ordered(a1 * b, a2 * b, UNIT as int);
}

/// Computes `softness` and `bias_factor` from a spring-damper specification
/// and the time step, exactly as the spec functions state.
pub fn soft_joint_tuning(mass: i64, freq: i64, zeta: i64, h: i64) -> (r: JointTuning)
    requires
        tuning_inputs_ok(mass as int, freq as int, zeta as int, h as int),
    ensures
        r.softness as int == softness_spec(mass as int, freq as int, zeta as int, h as int),
        r.bias_factor as int == bias_factor_spec(mass as int, freq as int, zeta as int, h as int),
{
    let ghost mi = mass as int;
    let ghost fi = freq as int;
    let ghost zi = zeta as int;
    let ghost hi = h as int;

    proof {
        lemma_fx_mul_range(TWO_PI as int, fi, TWO_PI as int, TUNING_LIMIT as int);
    }
    let omega = fx_mul(TWO_PI, freq);
    assert(0 <= omega as int <= 6_283_185_000int);

    let two_m = 2 * mass;
    proof {
        lemma_fx_mul_range(two_m as int, zi, 2 * TUNING_LIMIT as int, TUNING_LIMIT as int);
    }
    let mz = fx_mul(two_m, zeta);
    assert(0 <= mz as int <= 2_000_000_000_000int);

    proof {
        lemma_fx_mul_range(mz as int, omega as int, 2_000_000_000_000int, 6_283_185_000int);
    }
    let d = fx_mul(mz, omega);
    assert(0 <= d as int <= 13_000_000_000_000_000int);
    assert(d as int == damping_spec(mi, fi, zi));

    proof {
        lemma_fx_mul_range(omega as int, omega as int, 6_283_185_000int, 6_283_185_000int);
    }
    let om2 = fx_mul(omega, omega);
    assert(0 <= om2 as int <= 40_000_000_000_000int);
    proof {
        lemma_fx_mul_range(mi, om2 as int, TUNING_LIMIT as int, 40_000_000_000_000int);
    }
    let k = fx_mul(mass, om2);
    assert(0 <= k as int <= 40_000_000_000_000_000int);
    proof {
        lemma_fx_mul_range(hi, k as int, UNIT as int, 40_000_000_000_000_000int);
    }
    let hk = fx_mul(h, k);
    assert(0 <= hk as int <= 40_000_000_000_000_000int);
    assert(hk as int == fx_mul_spec(hi, stiffness_spec(mi, fi)));

    let denom = d + hk;
    assert(denom as int == denom_spec(mi, fi, zi, hi));
    assert(denom > 0);

    let softness = ((UNIT as u64 * UNIT as u64) / (denom as u64)) as i64;
    proof {
        lemma_div_pos_is_pos(UNIT as int * UNIT as int, denom as int);
        lemma_div_is_ordered(UNIT as int * UNIT as int, UNIT as int * UNIT as int, denom as int);
    }
    assert(softness as int == softness_spec(mi, fi, zi, hi));

    let num: u128 = (hk as u128) * (UNIT as u128);
    proof {
        lemma_mul_nonnegative(hk as int, UNIT as int);
        lemma_mul_inequality(hk as int, denom as int, UNIT as int);
        lemma_div_is_ordered(hk as int * UNIT as int, denom as int * UNIT as int, denom as int);
        lemma_div_multiples_vanish(UNIT as int, denom as int);
        assert(denom as int * UNIT as int == denom as int * (UNIT as int));
        lemma_div_pos_is_pos(hk as int * UNIT as int, denom as int);
    }
    let bias = (num / (denom as u128)) as i64;
    assert(bias as int == bias_factor_spec(mi, fi, zi, hi));

    JointTuning { softness, bias_factor: bias }
}

/// For accepted inputs the bias factor lies in `[0, 1]`, it is positive as
/// soon as the stiffness term reaches the fixed-point grain, and the
/// softness lies in `(0, 1]` whenever the denominator lies between one
/// fixed-point grain of a unit and the largest reciprocal the representation
/// can hold. Denominators below one unit make the true softness exceed one,
/// and denominators above `UNIT * UNIT` round it to zero; both are outside
/// this statement.
pub proof fn lemma_tuning_in_range(m: int, f: int, z: int, h: int)
    requires
        tuning_inputs_ok(m, f, z, h),
    ensures
        0 <= bias_factor_spec(m, f, z, h) <= UNIT as int,
        fx_mul_spec(h, stiffness_spec(m, f)) * (UNIT as int) >= denom_spec(m, f, z, h)
            ==> 0 < bias_factor_spec(m, f, z, h),
        UNIT as int <= denom_spec(m, f, z, h) <= UNIT as int * UNIT as int
            ==> 0 < softness_spec(m, f, z, h) <= UNIT as int,
{
    let hk = fx_mul_spec(h, stiffness_spec(m, f));
    let dn = denom_spec(m, f, z, h);
    let d = damping_spec(m, f, z);
    lemma_fx_mul_range(2 * m, z, 2 * TUNING_LIMIT as int, TUNING_LIMIT as int);
    lemma_fx_mul_range(TWO_PI as int, f, TWO_PI as int, TUNING_LIMIT as int);
    lemma_fx_mul_range(fx_mul_spec(2 * m, z), omega_spec(f), 2_000_000_000_000, 6_283_185_000_000);
    assert(0 <= d);
    assert(hk <= dn);
    lemma_mul_nonnegative(hk, UNIT as int);
    lemma_div_pos_is_pos(hk * (UNIT as int), dn);
    lemma_mul_inequality(hk, dn, UNIT as int);
    lemma_div_is_ordered(hk * (UNIT as int), dn * (UNIT as int), dn);
    lemma_div_multiples_vanish(UNIT as int, dn);
    assert(bias_factor_spec(m, f, z, h) <= UNIT as int);
    if hk * (UNIT as int) >= dn {
        lemma_div_is_ordered(dn, hk * (UNIT as int), dn);
        lemma_div_multiples_vanish(1, dn);
        assert(dn * 1 == dn);
        assert(1 <= hk * (UNIT as int) / dn);
    }
    if UNIT as int <= dn <= UNIT as int * UNIT as int {
        lemma_div_is_ordered(dn, UNIT as int * UNIT as int, dn);
        lemma_div_multiples_vanish(1, dn);
        assert(dn * 1 == dn);
        assert(1 <= softness_spec(m, f, z, h));
        lemma_div_is_ordered_by_denominator(UNIT as int * UNIT as int, UNIT as int, dn);
        lemma_div_multiples_vanish(UNIT as int, UNIT as int);
        assert(UNIT as int * (UNIT as int) / (UNIT as int) == UNIT as int);
        assert(softness_spec(m, f, z, h) <= UNIT as int);
    }
}

/// The bias factor is bounded by a quantity inversely proportional to the
/// damping coefficient: as the damping ratio grows without bound, so does
/// the coefficient, and the factor falls toward zero.
pub proof fn lemma_bias_factor_vanishes(m: int, f: int, z: int, h: int)
    requires
        tuning_inputs_ok(m, f, z, h),
        1 <= damping_spec(m, f, z),
    ensures
        bias_factor_spec(m, f, z, h) <= fx_mul_spec(h, stiffness_spec(m, f)) * (UNIT as int)
            / damping_spec(m, f, z),
{
    let hk = fx_mul_spec(h, stiffness_spec(m, f));
    let d = damping_spec(m, f, z);
    lemma_fx_mul_nonneg(TWO_PI as int, f);
    lemma_fx_mul_nonneg(omega_spec(f), omega_spec(f));
    lemma_fx_mul_nonneg(m, fx_mul_spec(omega_spec(f), omega_spec(f)));
    lemma_fx_mul_nonneg(h, stiffness_spec(m, f));
    lemma_mul_nonnegative(hk, UNIT as int);
    lemma_div_is_ordered_by_denominator(hk * (UNIT as int), d, d + hk);
}

/// For fixed mass, frequency and time step, a larger damping ratio never
/// increases the bias factor: in the limit the factor falls to the smallest
/// representable values.
pub proof fn lemma_bias_factor_antitone_in_zeta(m: int, f: int, z1: int, z2: int, h: int)
    requires
        tuning_inputs_ok(m, f, z1, h),
        tuning_inputs_ok(m, f, z2, h),
        z1 <= z2,
    ensures
        bias_factor_spec(m, f, z2, h) <= bias_factor_spec(m, f, z1, h),
{
    let w = omega_spec(f);
    let hk = fx_mul_spec(h, stiffness_spec(m, f));
    lemma_fx_mul_nonneg(TWO_PI as int, f);
    assert(0 <= w);
    assert(2 * m * z1 <= 2 * m * z2) by (nonlinear_arith)
        requires
            z1 <= z2,
            0 < m,
    ;
    lemma_mul_nonnegative(2 * m, z1);
    lemma_div_is_ordered(2 * m * z1, 2 * m * z2, UNIT as int);
    lemma_div_pos_is_pos(2 * m * z1, UNIT as int);
    assert(0 <= fx_mul_spec(2 * m, z1) <= fx_mul_spec(2 * m, z2));
    lemma_fx_mul_mono_left(fx_mul_spec(2 * m, z1), fx_mul_spec(2 * m, z2), w);
    assert(damping_spec(m, f, z1) <= damping_spec(m, f, z2));
    lemma_fx_mul_nonneg(fx_mul_spec(2 * m, z1), w);
    lemma_fx_mul_nonneg(w, w);
    lemma_fx_mul_nonneg(m, fx_mul_spec(w, w));
    lemma_fx_mul_nonneg(h, stiffness_spec(m, f));
    lemma_mul_nonnegative(hk, UNIT as int);
    lemma_div_is_ordered_by_denominator(
        hk * (UNIT as int),
        denom_spec(m, f, z1, h),
        denom_spec(m, f, z2, h),
    );
}

} // verus!
