//! Three-component vectors over fixed-point scalars, with the reflection
//! and refraction operators used by the material models.
//!
//! Each executable operation is pinned to a spec-level mirror over the
//! ghost image `Vec3i` (the three raw components as unbounded integers).

use crate::fixed::{
    fx_abs, fx_add_v, fx_clip, fx_div_v, fx_min_v, fx_mul_v, fx_neg_v, fx_sqrt_v, fx_sub_v, Fx,
    FX_MAX_RAW, FX_SCALE,
};
use vstd::arithmetic::div_mod::{lemma_div_multiples_vanish, lemma_div_pos_is_pos};
use vstd::prelude::*;

verus! {

/// Raw magnitude below which a component counts as zero: the largest scale
/// at which every squared component still truncates to nothing.
pub const FX_NEAR_EPS: i64 = 256;

/// Ghost image of a vector: the raw components as unbounded integers.
pub ghost struct Vec3i {
    pub x: int,
    pub y: int,
    pub z: int,
}

pub open spec fn v3_add_v(a: Vec3i, b: Vec3i) -> Vec3i {
    Vec3i { x: fx_add_v(a.x, b.x), y: fx_add_v(a.y, b.y), z: fx_add_v(a.z, b.z) }
}

pub open spec fn v3_sub_v(a: Vec3i, b: Vec3i) -> Vec3i {
    Vec3i { x: fx_sub_v(a.x, b.x), y: fx_sub_v(a.y, b.y), z: fx_sub_v(a.z, b.z) }
}

pub open spec fn v3_neg_v(a: Vec3i) -> Vec3i {
    Vec3i { x: fx_neg_v(a.x), y: fx_neg_v(a.y), z: fx_neg_v(a.z) }
}

/// Component-wise product.
pub open spec fn v3_mul_v(a: Vec3i, b: Vec3i) -> Vec3i {
    Vec3i { x: fx_mul_v(a.x, b.x), y: fx_mul_v(a.y, b.y), z: fx_mul_v(a.z, b.z) }
}

/// Product with a scalar.
pub open spec fn v3_scale_v(a: Vec3i, k: int) -> Vec3i {
    Vec3i { x: fx_mul_v(a.x, k), y: fx_mul_v(a.y, k), z: fx_mul_v(a.z, k) }
}

/// Quotient by a scalar.
pub open spec fn v3_div_v(a: Vec3i, k: int) -> Vec3i {
    Vec3i { x: fx_div_v(a.x, k), y: fx_div_v(a.y, k), z: fx_div_v(a.z, k) }
}

pub open spec fn v3_dot_v(a: Vec3i, b: Vec3i) -> int {
    fx_add_v(fx_add_v(fx_mul_v(a.x, b.x), fx_mul_v(a.y, b.y)), fx_mul_v(a.z, b.z))
}

pub open spec fn v3_cross_v(a: Vec3i, b: Vec3i) -> Vec3i {
    Vec3i {
        x: fx_sub_v(fx_mul_v(a.y, b.z), fx_mul_v(a.z, b.y)),
        y: fx_sub_v(fx_mul_v(a.z, b.x), fx_mul_v(a.x, b.z)),
        z: fx_sub_v(fx_mul_v(a.x, b.y), fx_mul_v(a.y, b.x)),
    }
}

pub open spec fn v3_len_sq_v(a: Vec3i) -> int {
    v3_dot_v(a, a)
}

pub open spec fn v3_len_v(a: Vec3i) -> int {
    fx_sqrt_v(v3_len_sq_v(a))
}

pub open spec fn v3_unit_v(a: Vec3i) -> Vec3i {
    v3_div_v(a, v3_len_v(a))
}

pub open spec fn v3_near_zero_v(a: Vec3i) -> bool {
    fx_abs(a.x) < FX_NEAR_EPS as int && fx_abs(a.y) < FX_NEAR_EPS as int && fx_abs(a.z)
        < FX_NEAR_EPS as int
}

/// Mirror reflection of `v` about the normal `n`: `v - 2 (v . n) n`.
pub open spec fn v3_reflect_v(v: Vec3i, n: Vec3i) -> Vec3i {
    let nv = v3_scale_v(n, v3_dot_v(v, n));
    v3_sub_v(v, v3_scale_v(nv, 2 * (FX_SCALE as int)))
}

/// Cosine of the incidence angle: `-(min(v . n, 1))`.
pub open spec fn v3_cos_theta_v(v: Vec3i, n: Vec3i) -> int {
    fx_neg_v(fx_min_v(v3_dot_v(v, n), FX_SCALE as int))
}

/// Snell-law refraction of the unit direction `uv` about the normal `n`
/// with relative refraction index `eta`.
pub open spec fn v3_refract_v(uv: Vec3i, n: Vec3i, eta: int) -> Vec3i {
    let cos = v3_cos_theta_v(uv, n);
    let perp = v3_scale_v(v3_add_v(uv, v3_scale_v(n, cos)), eta);
    let k = fx_sqrt_v(fx_clip(fx_abs(fx_sub_v(FX_SCALE as int, v3_len_sq_v(perp)))));
    let para = v3_scale_v(n, fx_neg_v(k));
    v3_add_v(perp, para)
}

/// A product of a value with itself never truncates below zero.
pub proof fn lemma_fx_mul_self_nonneg(a: int)
    ensures
        fx_mul_v(a, a) >= 0,
{
    lemma_div_pos_is_pos(fx_abs(a) * fx_abs(a), FX_SCALE as int);
}

/// Squared length is non-negative.
pub proof fn lemma_v3_len_sq_nonneg(a: Vec3i)
    ensures
        v3_len_sq_v(a) >= 0,
{
    lemma_fx_mul_self_nonneg(a.x);
    lemma_fx_mul_self_nonneg(a.y);
    lemma_fx_mul_self_nonneg(a.z);
}

/// A vector that is not near zero has a squared length of at least one
/// raw unit, so its length (and any division by it) is well defined.
pub proof fn lemma_not_near_zero_len_sq(a: Vec3i)
    requires
        !v3_near_zero_v(a),
    ensures
        v3_len_sq_v(a) >= 1,
{
    lemma_fx_mul_self_nonneg(a.x);
    lemma_fx_mul_self_nonneg(a.y);
    lemma_fx_mul_self_nonneg(a.z);
    if fx_abs(a.x) >= FX_NEAR_EPS as int {
        lemma_sq_div_scale_pos(a.x);
    } else if fx_abs(a.y) >= FX_NEAR_EPS as int {
        lemma_sq_div_scale_pos(a.y);
    } else {
        lemma_sq_div_scale_pos(a.z);
    }
}

/// A component of magnitude at least `FX_NEAR_EPS` squares to at least one
/// raw unit.
proof fn lemma_sq_div_scale_pos(c: int)
    requires
        fx_abs(c) >= FX_NEAR_EPS as int,
    ensures
        fx_mul_v(c, c) >= 1,
{
    let m = fx_abs(c);
    assert(m * m >= (FX_SCALE as int)) by (nonlinear_arith)
        requires
            m >= 256,
    ;
    assert((m * m) / (FX_SCALE as int) >= 1) by {
        lemma_div_multiples_vanish(1, FX_SCALE as int);
        vstd::arithmetic::div_mod::lemma_div_is_ordered(
            FX_SCALE as int,
            m * m,
            FX_SCALE as int,
        );
    }
}

/// The length of a vector with non-zero squared length is positive.
pub proof fn lemma_len_pos(a: Vec3i)
    requires
        v3_len_sq_v(a) >= 1,
    ensures
        v3_len_v(a) >= 1,
{
    crate::fixed::lemma_sqrt_floor_bounds(v3_len_sq_v(a) * (FX_SCALE as int));
    let s = v3_len_v(a);
    if s < 1 {
        assert(v3_len_sq_v(a) * (FX_SCALE as int) >= FX_SCALE as int);
    }
}

/// A vector drawn componentwise from `[0, 1)`.
pub open spec fn v3_random_v(state: u64) -> (Vec3i, u64) {
    let s1 = crate::sampler::rng_next(state);
    let s2 = crate::sampler::rng_next(s1);
    let s3 = crate::sampler::rng_next(s2);
    (
        Vec3i {
            x: crate::sampler::unit_of(s1),
            y: crate::sampler::unit_of(s2),
            z: crate::sampler::unit_of(s3),
        },
        s3,
    )
}

/// A vector drawn componentwise from `[min, max)`: each component is
/// `min + u * (max - min)` for a draw `u` in `[0, 1)`.
pub open spec fn v3_random_range_v(min: int, max: int, state: u64) -> (Vec3i, u64) {
    let s1 = crate::sampler::rng_next(state);
    let s2 = crate::sampler::rng_next(s1);
    let s3 = crate::sampler::rng_next(s2);
    let d = fx_sub_v(max, min);
    (
        Vec3i {
            x: fx_add_v(min, fx_mul_v(crate::sampler::unit_of(s1), d)),
            y: fx_add_v(min, fx_mul_v(crate::sampler::unit_of(s2), d)),
            z: fx_add_v(min, fx_mul_v(crate::sampler::unit_of(s3), d)),
        },
        s3,
    )
}

/// A unit vector along a coordinate axis. Such a vector is exactly
/// representable, so the algebra below is exact on it.
pub open spec fn v3_axis_unit(n: Vec3i) -> bool {
    ||| (fx_abs(n.x) == FX_SCALE as int && n.y == 0 && n.z == 0)
    ||| (n.x == 0 && fx_abs(n.y) == FX_SCALE as int && n.z == 0)
    ||| (n.x == 0 && n.y == 0 && fx_abs(n.z) == FX_SCALE as int)
}

/// Every component's magnitude is representable (negation cannot clip).
pub open spec fn v3_in_range(v: Vec3i) -> bool {
    fx_abs(v.x) <= FX_MAX_RAW as int && fx_abs(v.y) <= FX_MAX_RAW as int && fx_abs(v.z)
        <= FX_MAX_RAW as int
}

/// Reflection negates exactly a vector parallel to the normal: along an
/// axis-aligned unit normal, a vector with no off-axis component reflects
/// to its exact negation (the doubling must stay in range).
pub proof fn lemma_reflect_parallel(v: Vec3i, n: Vec3i)
    requires
        v3_axis_unit(n),
        n.x == 0 ==> v.x == 0,
        n.y == 0 ==> v.y == 0,
        n.z == 0 ==> v.z == 0,
        2 * fx_abs(v.x) <= FX_MAX_RAW as int,
        2 * fx_abs(v.y) <= FX_MAX_RAW as int,
        2 * fx_abs(v.z) <= FX_MAX_RAW as int,
    ensures
        v3_reflect_v(v, n) == v3_neg_v(v),
{
    let s = FX_SCALE as int;
    crate::fixed::lemma_fx_mul_zero(0);
    if fx_abs(n.x) == s {
        crate::fixed::lemma_fx_mul_unit(v.x, n.x);
        let d = v3_dot_v(v, n);
        crate::fixed::lemma_fx_mul_unit(d, n.x);
        crate::fixed::lemma_fx_mul_zero(d);
        crate::fixed::lemma_fx_mul_two(v.x);
        crate::fixed::lemma_fx_mul_zero(2 * s);
    } else if fx_abs(n.y) == s {
        crate::fixed::lemma_fx_mul_unit(v.y, n.y);
        let d = v3_dot_v(v, n);
        crate::fixed::lemma_fx_mul_unit(d, n.y);
        crate::fixed::lemma_fx_mul_zero(d);
        crate::fixed::lemma_fx_mul_two(v.y);
        crate::fixed::lemma_fx_mul_zero(2 * s);
    } else {
        crate::fixed::lemma_fx_mul_unit(v.z, n.z);
        let d = v3_dot_v(v, n);
        crate::fixed::lemma_fx_mul_unit(d, n.z);
        crate::fixed::lemma_fx_mul_zero(d);
        crate::fixed::lemma_fx_mul_two(v.z);
        crate::fixed::lemma_fx_mul_zero(2 * s);
    }
}

/// Reflection leaves exactly unchanged a vector perpendicular to the
/// normal: along an axis-aligned unit normal, a vector with no component
/// on that axis reflects to itself.
pub proof fn lemma_reflect_perpendicular(v: Vec3i, n: Vec3i)
    requires
        v3_axis_unit(n),
        n.x != 0 ==> v.x == 0,
        n.y != 0 ==> v.y == 0,
        n.z != 0 ==> v.z == 0,
        v3_in_range(v),
    ensures
        v3_reflect_v(v, n) == v,
{
    let s = FX_SCALE as int;
    crate::fixed::lemma_fx_mul_zero(0);
    crate::fixed::lemma_fx_mul_zero(n.x);
    crate::fixed::lemma_fx_mul_zero(n.y);
    crate::fixed::lemma_fx_mul_zero(n.z);
    crate::fixed::lemma_fx_mul_zero(v.x);
    crate::fixed::lemma_fx_mul_zero(v.y);
    crate::fixed::lemma_fx_mul_zero(v.z);
    crate::fixed::lemma_fx_mul_zero(2 * s);
}

/// Refraction at normal incidence returns the direction unchanged, for
/// every refraction index: with the incident direction exactly opposite
/// an axis-aligned unit normal, the perpendicular component cancels.
pub proof fn lemma_refract_normal_incidence(n: Vec3i, eta: int)
    requires
        v3_axis_unit(n),
    ensures
        v3_refract_v(v3_neg_v(n), n, eta) == v3_neg_v(n),
{
    let s = FX_SCALE as int;
    let uv = v3_neg_v(n);
    crate::fixed::lemma_fx_mul_zero(0);
    crate::fixed::lemma_fx_mul_zero(eta);
    crate::fixed::lemma_fx_sqrt_one();
    if fx_abs(n.x) == s {
        crate::fixed::lemma_fx_mul_unit(uv.x, n.x);
        crate::fixed::lemma_fx_mul_unit(n.x, s);
        crate::fixed::lemma_fx_mul_unit(n.x, -s);
    } else if fx_abs(n.y) == s {
        crate::fixed::lemma_fx_mul_unit(uv.y, n.y);
        crate::fixed::lemma_fx_mul_unit(n.y, s);
        crate::fixed::lemma_fx_mul_unit(n.y, -s);
    } else {
        crate::fixed::lemma_fx_mul_unit(uv.z, n.z);
        crate::fixed::lemma_fx_mul_unit(n.z, s);
        crate::fixed::lemma_fx_mul_unit(n.z, -s);
    }
}

/// Refraction with index one is the identity on a direction that grazes
/// the surface: for axis-aligned unit `uv` and `n` at right angles, the
/// perpendicular component is the direction itself and the parallel
/// component vanishes. (Together with `lemma_refract_normal_incidence`
/// at `eta == FX_SCALE`, index one is the identity on the exactly
/// representable incident directions.)
pub proof fn lemma_refract_identity_perpendicular(uv: Vec3i, n: Vec3i)
    requires
        v3_axis_unit(uv),
        v3_axis_unit(n),
        v3_dot_v(uv, n) == 0,
    ensures
        v3_refract_v(uv, n, FX_SCALE as int) == uv,
{
    let s = FX_SCALE as int;
    crate::fixed::lemma_fx_mul_zero(0);
    crate::fixed::lemma_fx_mul_zero(n.x);
    crate::fixed::lemma_fx_mul_zero(n.y);
    crate::fixed::lemma_fx_mul_zero(n.z);
    crate::fixed::lemma_fx_mul_unit(uv.x, s);
    crate::fixed::lemma_fx_mul_unit(uv.y, s);
    crate::fixed::lemma_fx_mul_unit(uv.z, s);
    if fx_abs(uv.x) == s {
        crate::fixed::lemma_fx_mul_unit(uv.x, uv.x);
    } else if fx_abs(uv.y) == s {
        crate::fixed::lemma_fx_mul_unit(uv.y, uv.y);
    } else {
        crate::fixed::lemma_fx_mul_unit(uv.z, uv.z);
    }
}

/// Normalizing is accurate on every roughly-unit vector: whenever the
/// squared length lies within a factor of two of one, the normalized
/// vector's squared length is one to within 64 raw units (under 0.1%).
/// In particular every unit vector normalizes to length one within that
/// tolerance.
#[verifier::rlimit(60)]
pub proof fn lemma_unit_length_near_one(v: Vec3i)
    requires
        (FX_SCALE as int) / 2 <= v3_len_sq_v(v) <= 2 * (FX_SCALE as int),
    ensures
        FX_SCALE as int - 64 <= v3_len_sq_v(v3_unit_v(v)) <= FX_SCALE as int + 64,
{
    let big = FX_SCALE as int;
    let cap = FX_MAX_RAW as int;
    let x = fx_abs(v.x);
    let y = fx_abs(v.y);
    let z = fx_abs(v.z);
    let l = v3_len_sq_v(v);

    // the truncated squared components, and their brackets
    let tx = (x * x) / big;
    let ty = (y * y) / big;
    let tz = (z * z) / big;
    assert(x * x >= 0 && y * y >= 0 && z * z >= 0) by (nonlinear_arith);
    crate::fixed::lemma_div_bracket(x * x, big);
    crate::fixed::lemma_div_bracket(y * y, big);
    crate::fixed::lemma_div_bracket(z * z, big);

    // the additions that make the squared length do not saturate, so the
    // squared length is the plain sum of the truncated squares
    assert(fx_mul_v(v.x, v.x) == fx_clip(tx));
    assert(l == tx + ty + tz && tx <= cap && ty <= cap && tz <= cap);

    // components are bounded by the squared length
    assert(x * x <= 2 * big * big + big);
    assert(x <= 2 * big) by (nonlinear_arith)
        requires
            x >= 0,
            x * x <= 2 * big * big + big,
            big == 65536,
    ;
    assert(y <= 2 * big) by (nonlinear_arith)
        requires
            y >= 0,
            y * y <= 2 * big * big + big,
            big == 65536,
    ;
    assert(z <= 2 * big) by (nonlinear_arith)
        requires
            z >= 0,
            z * z <= 2 * big * big + big,
            big == 65536,
    ;

    // the length: integer square root of l * big, bracketed by squares
    let s = v3_len_v(v);
    crate::fixed::lemma_sqrt_floor_bounds(l * big);
    assert(s >= 0 && s * s <= l * big && l * big < (s + 1) * (s + 1));
    assert(l * big >= 32768 * big);
    assert(s >= 46340) by (nonlinear_arith)
        requires
            s >= 0,
            (s + 1) * (s + 1) > 32768 * 65536,
    ;
    assert(s <= 92681) by (nonlinear_arith)
        requires
            s >= 0,
            s * s <= 2 * 65536 * 65536,
    ;

    // the normalized components: truncated quotients by the length
    let qx = (x * big) / s;
    let qy = (y * big) / s;
    let qz = (z * big) / s;
    assert(x * big >= 0 && y * big >= 0 && z * big >= 0);
    crate::fixed::lemma_div_bracket(x * big, s);
    crate::fixed::lemma_div_bracket(y * big, s);
    crate::fixed::lemma_div_bracket(z * big, s);
    assert(x * big <= 2 * big * big && y * big <= 2 * big * big && z * big <= 2 * big * big);
    assert(qx <= 185368) by (nonlinear_arith)
        requires
            qx >= 0,
            s >= 46340,
            s * qx <= 2 * 65536 * 65536,
    ;
    assert(qy <= 185368) by (nonlinear_arith)
        requires
            qy >= 0,
            s >= 46340,
            s * qy <= 2 * 65536 * 65536,
    ;
    assert(qz <= 185368) by (nonlinear_arith)
        requires
            qz >= 0,
            s >= 46340,
            s * qz <= 2 * 65536 * 65536,
    ;

    // the unit vector's components carry exactly these magnitudes
    let u = v3_unit_v(v);
    assert(fx_abs(u.x) == qx && fx_abs(u.y) == qy && fx_abs(u.z) == qz);

    // bracket each squared magnitude between squares of the brackets
    let sumsq = x * x + y * y + z * z;
    let qq = qx * qx + qy * qy + qz * qz;
    let p = qx + qy + qz;
    assert((s * s) * (qx * qx) <= (x * x) * (big * big)) by (nonlinear_arith)
        requires
            0 <= s * qx <= x * big,
    ;
    assert((x * x) * (big * big) < (s * s) * ((qx + 1) * (qx + 1))) by (nonlinear_arith)
        requires
            0 <= x * big,
            x * big < s * qx + s,
    ;
    assert((s * s) * (qy * qy) <= (y * y) * (big * big)) by (nonlinear_arith)
        requires
            0 <= s * qy <= y * big,
    ;
    assert((y * y) * (big * big) < (s * s) * ((qy + 1) * (qy + 1))) by (nonlinear_arith)
        requires
            0 <= y * big,
            y * big < s * qy + s,
    ;
    assert((s * s) * (qz * qz) <= (z * z) * (big * big)) by (nonlinear_arith)
        requires
            0 <= s * qz <= z * big,
    ;
    assert((z * z) * (big * big) < (s * s) * ((qz + 1) * (qz + 1))) by (nonlinear_arith)
        requires
            0 <= z * big,
            z * big < s * qz + s,
    ;

    // summed and regrouped: qq * s^2 brackets sumsq * big^2
    assert(qq * (s * s) == (s * s) * (qx * qx) + (s * s) * (qy * qy) + (s * s) * (qz * qz))
        by (nonlinear_arith)
        requires
            qq == qx * qx + qy * qy + qz * qz,
    ;
    assert(sumsq * (big * big) == (x * x) * (big * big) + (y * y) * (big * big) + (z * z) * (big
        * big)) by (nonlinear_arith)
        requires
            sumsq == x * x + y * y + z * z,
    ;
    assert((qq + 2 * p + 3) * (s * s) == (s * s) * ((qx + 1) * (qx + 1)) + (s * s) * ((qy + 1)
        * (qy + 1)) + (s * s) * ((qz + 1) * (qz + 1))) by (nonlinear_arith)
        requires
            qq == qx * qx + qy * qy + qz * qz,
            p == qx + qy + qz,
    ;
    assert(qq * (s * s) <= sumsq * (big * big));
    assert(sumsq * (big * big) < (qq + 2 * p + 3) * (s * s));

    // sumsq itself is bracketed by the squared length
    assert(big * l <= sumsq && sumsq < big * l + 3 * big);
    assert(sumsq * (big * big) >= (s * s) * (big * big)) by (nonlinear_arith)
        requires
            big * l <= sumsq,
            s * s <= l * big,
            big > 0,
    ;
    assert(sumsq * (big * big) < ((s + 1) * (s + 1)) * (big * big) + 3 * big * (big * big))
        by (nonlinear_arith)
        requires
            sumsq < big * l + 3 * big,
            l * big < (s + 1) * (s + 1),
            big > 0,
    ;

    // lower bound for qq: big^2 < qq + 2 p + 3
    assert(s * s > 0) by (nonlinear_arith)
        requires
            s >= 46340,
    ;
    assert(big * big < qq + 2 * p + 3) by (nonlinear_arith)
        requires
            (s * s) * (big * big) <= sumsq * (big * big),
            sumsq * (big * big) < (qq + 2 * p + 3) * (s * s),
            s * s > 0,
            big == 65536,
    ;
    assert(p <= 3 * 185368);
    assert(qq > big * big - 1112211);

    // upper bound for qq, by contradiction through the bracket
    assert(qq < big * big + 800000) by (nonlinear_arith)
        requires
            qq * (s * s) <= sumsq * (big * big),
            sumsq * (big * big) < ((s + 1) * (s + 1)) * (big * big) + 3 * big * (big * big),
            46340 <= s <= 92681,
            big == 65536,
    ;

    // the unit vector's squared length: truncated squares of the
    // magnitudes, summed without saturation
    let wx = (qx * qx) / big;
    let wy = (qy * qy) / big;
    let wz = (qz * qz) / big;
    assert(qx * qx >= 0 && qy * qy >= 0 && qz * qz >= 0) by (nonlinear_arith);
    crate::fixed::lemma_div_bracket(qx * qx, big);
    crate::fixed::lemma_div_bracket(qy * qy, big);
    crate::fixed::lemma_div_bracket(qz * qz, big);
    assert(qx * qx <= 185368 * 185368 && qy * qy <= 185368 * 185368 && qz * qz <= 185368
        * 185368) by (nonlinear_arith)
        requires
            0 <= qx <= 185368,
            0 <= qy <= 185368,
            0 <= qz <= 185368,
    ;
    assert(fx_mul_v(u.x, u.x) == fx_clip(wx));
    let t = v3_len_sq_v(u);
    assert(t == wx + wy + wz);
    assert(big * t <= qq && qq < big * t + 3 * big);
    assert(t <= big + 12);
    assert(t >= big - 20);
}

/// Normalizing a unit vector is exact: a vector whose squared length is
/// exactly one has length exactly one, so the division leaves it
/// unchanged and its normalized squared length is exactly one. (In this
/// arithmetic the tolerance of the statement is zero.)
pub proof fn lemma_unit_of_unit(v: Vec3i)
    requires
        v3_len_sq_v(v) == FX_SCALE as int,
        v3_in_range(v),
    ensures
        v3_unit_v(v) == v,
        v3_len_sq_v(v3_unit_v(v)) == FX_SCALE as int,
{
    crate::fixed::lemma_fx_sqrt_one();
    crate::fixed::lemma_fx_div_one(v.x);
    crate::fixed::lemma_fx_div_one(v.y);
    crate::fixed::lemma_fx_div_one(v.z);
}

/// A vector of three fixed-point components.
#[derive(Clone, Copy, Debug, PartialEq, Eq, Structural)]
pub struct Vec3 {
    pub x: Fx,
    pub y: Fx,
    pub z: Fx,
}

impl View for Vec3 {
    type V = Vec3i;

    open spec fn view(&self) -> Vec3i {
        Vec3i { x: self.x@, y: self.y@, z: self.z@ }
    }
}

impl Default for Vec3 {
    fn default() -> (r: Vec3)
        ensures
            r@ == (Vec3i { x: 0, y: 0, z: 0 }),
    {
        let zero = Fx::zero();
        Vec3 { x: zero, y: zero, z: zero }
    }
}

impl Vec3 {
    pub fn new(x: Fx, y: Fx, z: Fx) -> (r: Vec3)
        ensures
            r@ == (Vec3i { x: x@, y: y@, z: z@ }),
    {
        Vec3 { x, y, z }
    }

    /// A vector drawn componentwise from `[0, 1)`.
    pub fn random(sampler: &mut crate::sampler::Sampler) -> (r: Vec3)
        ensures
            r@ == v3_random_v(old(sampler)@).0,
            final(sampler)@ == v3_random_v(old(sampler)@).1,
    {
        let a = sampler.next_unit();
        let b = sampler.next_unit();
        let c = sampler.next_unit();
        Vec3 { x: a, y: b, z: c }
    }

    /// A vector drawn componentwise from `[min, max)`.
    pub fn random_range(min: Fx, max: Fx, sampler: &mut crate::sampler::Sampler) -> (r: Vec3)
        ensures
            r@ == v3_random_range_v(min@, max@, old(sampler)@).0,
            final(sampler)@ == v3_random_range_v(min@, max@, old(sampler)@).1,
    {
        let d = max.sub(min);
        let a = min.add(sampler.next_unit().mul(d));
        let b = min.add(sampler.next_unit().mul(d));
        let c = min.add(sampler.next_unit().mul(d));
        Vec3 { x: a, y: b, z: c }
    }

    /// A vector with integer-valued components.
    pub fn inew(x: i32, y: i32, z: i32) -> (r: Vec3)
        ensures
            r@ == (Vec3i {
                x: (x as int) * (FX_SCALE as int),
                y: (y as int) * (FX_SCALE as int),
                z: (z as int) * (FX_SCALE as int),
            }),
    {
        Vec3 { x: Fx::from_int(x as i64), y: Fx::from_int(y as i64), z: Fx::from_int(z as i64) }
    }

    pub fn x(&self) -> (r: Fx)
        ensures
            r@ == self@.x,
    {
        self.x
    }

    pub fn y(&self) -> (r: Fx)
        ensures
            r@ == self@.y,
    {
        self.y
    }

    pub fn z(&self) -> (r: Fx)
        ensures
            r@ == self@.z,
    {
        self.z
    }

    /// The component selected by an index in 0, 1, 2.
    pub fn index(&self, i: u8) -> (r: Fx)
        requires
            i < 3,
        ensures
            i == 0 ==> r@ == self@.x,
            i == 1 ==> r@ == self@.y,
            i == 2 ==> r@ == self@.z,
    {
        if i == 0 {
            self.x
        } else if i == 1 {
            self.y
        } else {
            self.z
        }
    }

    pub fn add(self, rhs: Vec3) -> (r: Vec3)
        ensures
            r@ == v3_add_v(self@, rhs@),
    {
        Vec3 { x: self.x.add(rhs.x), y: self.y.add(rhs.y), z: self.z.add(rhs.z) }
    }

    pub fn sub(self, rhs: Vec3) -> (r: Vec3)
        ensures
            r@ == v3_sub_v(self@, rhs@),
    {
        Vec3 { x: self.x.sub(rhs.x), y: self.y.sub(rhs.y), z: self.z.sub(rhs.z) }
    }

    pub fn neg(self) -> (r: Vec3)
        ensures
            r@ == v3_neg_v(self@),
    {
        Vec3 { x: self.x.neg(), y: self.y.neg(), z: self.z.neg() }
    }

    /// Component-wise product.
    pub fn mul(self, rhs: Vec3) -> (r: Vec3)
        ensures
            r@ == v3_mul_v(self@, rhs@),
    {
        Vec3 { x: self.x.mul(rhs.x), y: self.y.mul(rhs.y), z: self.z.mul(rhs.z) }
    }

    /// Product with a scalar.
    pub fn scale(self, k: Fx) -> (r: Vec3)
        ensures
            r@ == v3_scale_v(self@, k@),
    {
        Vec3 { x: self.x.mul(k), y: self.y.mul(k), z: self.z.mul(k) }
    }

    /// Quotient by a scalar.
    pub fn div(self, k: Fx) -> (r: Vec3)
        requires
            k@ != 0,
        ensures
            r@ == v3_div_v(self@, k@),
    {
        Vec3 { x: self.x.div(k), y: self.y.div(k), z: self.z.div(k) }
    }

    pub fn dot(&self, v: &Vec3) -> (r: Fx)
        ensures
            r@ == v3_dot_v(self@, v@),
    {
        self.x.mul(v.x).add(self.y.mul(v.y)).add(self.z.mul(v.z))
    }

    pub fn cross(&self, v: &Vec3) -> (r: Vec3)
        ensures
            r@ == v3_cross_v(self@, v@),
    {
        Vec3 {
            x: self.y.mul(v.z).sub(self.z.mul(v.y)),
            y: self.z.mul(v.x).sub(self.x.mul(v.z)),
            z: self.x.mul(v.y).sub(self.y.mul(v.x)),
        }
    }

    pub fn length_squared(&self) -> (r: Fx)
        ensures
            r@ == v3_len_sq_v(self@),
            r@ >= 0,
    {
        proof {
            lemma_v3_len_sq_nonneg(self@);
        }
        self.dot(self)
    }

    pub fn length(&self) -> (r: Fx)
        ensures
            r@ == v3_len_v(self@),
            r@ >= 0,
    {
        let sq = self.length_squared();
        proof {
            crate::fixed::lemma_sqrt_floor_bounds(sq@ * (FX_SCALE as int));
        }
        sq.sqrt()
    }

    /// The vector scaled to unit length. The caller must rule out vectors
    /// whose squared length truncates to zero.
    pub fn unit(&self) -> (r: Vec3)
        requires
            v3_len_sq_v(self@) >= 1,
        ensures
            r@ == v3_unit_v(self@),
    {
        proof {
            lemma_len_pos(self@);
        }
        let l = self.length();
        self.div(l)
    }

    /// Whether every component is below the near-zero scale.
    pub fn near_zero(&self) -> (r: bool)
        ensures
            r == v3_near_zero_v(self@),
    {
        let e = Fx::from_raw(FX_NEAR_EPS);
        self.x.abs().lt(e) && self.y.abs().lt(e) && self.z.abs().lt(e)
    }

    /// Mirror reflection about a normal: `v - 2 (v . n) n`.
    pub fn reflect(&self, normal: &Vec3) -> (r: Vec3)
        ensures
            r@ == v3_reflect_v(self@, normal@),
    {
        let nv = normal.scale(self.dot(normal));
        let two = Fx::from_raw(2 * FX_SCALE);
        self.sub(nv.scale(two))
    }

    /// Cosine of the incidence angle against a normal.
    pub fn cos_theta(&self, normal: &Vec3) -> (r: Fx)
        ensures
            r@ == v3_cos_theta_v(self@, normal@),
    {
        let one = Fx::from_raw(FX_SCALE);
        self.dot(normal).min(one).neg()
    }

    /// Snell-law refraction; only meaningful when the caller has already
    /// ruled total internal reflection out, as the scattering code does.
    pub fn refract(&self, normal: &Vec3, refraction_index: Fx) -> (r: Vec3)
        ensures
            r@ == v3_refract_v(self@, normal@, refraction_index@),
    {
        let cos = self.cos_theta(normal);
        let perp = self.add(normal.scale(cos)).scale(refraction_index);
        let one = Fx::from_raw(FX_SCALE);
        let k = one.sub(perp.length_squared()).abs().sqrt();
        let para = normal.scale(k.neg());
        perp.add(para)
    }
}

} // verus!
