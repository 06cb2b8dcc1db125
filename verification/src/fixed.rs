//! Fixed-point scalar arithmetic.
//!
//! A quantity is stored as a signed 64-bit count of `1 / FX_SCALE` units.
//! Multiplication, division and square root truncate toward zero; every
//! operation saturates at `FX_MAX_RAW` units in magnitude, so all operations
//! are total and never panic. Each executable operation is pinned to the
//! spec-level function of the same name with a `_v` suffix.

use vstd::prelude::*;

verus! {

/// Number of raw units in 1.0: a value is `raw / FX_SCALE`.
pub const FX_SCALE: i64 = 65536;

/// Largest magnitude (in raw units) a value may take; arithmetic saturates here.
pub const FX_MAX_RAW: i64 = 0x7fff_ffff_ffff_ffff;

/// Saturate an unbounded result into the representable range.
pub open spec fn fx_clip(x: int) -> int {
    if x > FX_MAX_RAW as int {
        FX_MAX_RAW as int
    } else if x < -(FX_MAX_RAW as int) {
        -(FX_MAX_RAW as int)
    } else {
        x
    }
}

pub open spec fn fx_abs(x: int) -> int {
    if x >= 0 {
        x
    } else {
        -x
    }
}

pub open spec fn fx_add_v(a: int, b: int) -> int {
    fx_clip(a + b)
}

pub open spec fn fx_sub_v(a: int, b: int) -> int {
    fx_clip(a - b)
}

pub open spec fn fx_neg_v(a: int) -> int {
    fx_clip(-a)
}

/// Product of two fixed-point values: magnitudes multiply, the scale divides
/// back out (truncating toward zero), and the sign is restored.
pub open spec fn fx_mul_v(a: int, b: int) -> int {
    let q = (fx_abs(a) * fx_abs(b)) / (FX_SCALE as int);
    if (a < 0) != (b < 0) {
        fx_clip(-q)
    } else {
        fx_clip(q)
    }
}

/// Quotient of two fixed-point values, truncating toward zero.
/// Division by zero is given the value 0 here; executable division
/// requires a non-zero divisor.
pub open spec fn fx_div_v(a: int, b: int) -> int {
    if b == 0 {
        0
    } else {
        let q = (fx_abs(a) * (FX_SCALE as int)) / fx_abs(b);
        if (a < 0) != (b < 0) {
            fx_clip(-q)
        } else {
            fx_clip(q)
        }
    }
}

pub open spec fn fx_min_v(a: int, b: int) -> int {
    if a <= b {
        a
    } else {
        b
    }
}

pub open spec fn fx_max_v(a: int, b: int) -> int {
    if a >= b {
        a
    } else {
        b
    }
}

/// Integer square root: the largest `r` with `r * r <= n` (0 for `n <= 0`).
pub open spec fn sqrt_floor(n: int) -> int
    decreases n,
{
    if n <= 0 {
        0
    } else {
        let r = sqrt_floor(n - 1);
        if (r + 1) * (r + 1) <= n {
            r + 1
        } else {
            r
        }
    }
}

/// Fixed-point square root of a non-negative value: `sqrt(a / S)` in raw
/// units is `sqrt_floor(a * S)`.
pub open spec fn fx_sqrt_v(a: int) -> int {
    sqrt_floor(a * (FX_SCALE as int))
}

pub proof fn lemma_sqrt_floor_bounds(n: int)
    requires
        n >= 0,
    ensures
        sqrt_floor(n) >= 0,
        sqrt_floor(n) * sqrt_floor(n) <= n,
        n < (sqrt_floor(n) + 1) * (sqrt_floor(n) + 1),
    decreases n,
{
    if n == 0 {
    } else {
        lemma_sqrt_floor_bounds(n - 1);
        let r = sqrt_floor(n - 1);
        if (r + 1) * (r + 1) <= n {
            assert((r + 2) * (r + 2) > n) by (nonlinear_arith)
                requires
                    r >= 0,
                    n - 1 < (r + 1) * (r + 1),
            ;
        }
    }
}

pub proof fn lemma_sqrt_floor_unique(n: int, r: int)
    requires
        n >= 0,
        r >= 0,
        r * r <= n,
        n < (r + 1) * (r + 1),
    ensures
        r == sqrt_floor(n),
{
    lemma_sqrt_floor_bounds(n);
    let s = sqrt_floor(n);
    if r < s {
        assert((r + 1) * (r + 1) <= s * s) by (nonlinear_arith)
            requires
                0 <= r,
                r + 1 <= s,
        ;
    } else if s < r {
        assert((s + 1) * (s + 1) <= r * r) by (nonlinear_arith)
            requires
                0 <= s,
                s + 1 <= r,
        ;
    }
}

/// Truncated division brackets its argument: `b * (a / b)` falls short of
/// `a` by less than `b`.
pub proof fn lemma_div_bracket(a: int, b: int)
    requires
        a >= 0,
        b > 0,
    ensures
        a / b >= 0,
        b * (a / b) <= a,
        a < b * (a / b) + b,
{
    vstd::arithmetic::div_mod::lemma_fundamental_div_mod(a, b);
    vstd::arithmetic::div_mod::lemma_mod_bound(a, b);
    vstd::arithmetic::div_mod::lemma_div_pos_is_pos(a, b);
}

/// A product with zero is exactly zero.
pub proof fn lemma_fx_mul_zero(a: int)
    ensures
        fx_mul_v(a, 0) == 0,
        fx_mul_v(0, a) == 0,
{
    vstd::arithmetic::div_mod::lemma_div_multiples_vanish(0, FX_SCALE as int);
    assert(fx_abs(a) * 0 == (FX_SCALE as int) * 0) by (nonlinear_arith);
}

/// A product with a unit-magnitude factor is exact: it copies or negates
/// the other factor.
pub proof fn lemma_fx_mul_unit(a: int, s: int)
    requires
        fx_abs(s) == FX_SCALE as int,
        fx_abs(a) <= FX_MAX_RAW as int,
    ensures
        fx_mul_v(a, s) == (if s > 0 {
            a
        } else {
            -a
        }),
        fx_mul_v(s, a) == (if s > 0 {
            a
        } else {
            -a
        }),
{
    vstd::arithmetic::div_mod::lemma_div_multiples_vanish(fx_abs(a), FX_SCALE as int);
    assert(fx_abs(a) * fx_abs(s) == (FX_SCALE as int) * fx_abs(a)) by (nonlinear_arith)
        requires
            fx_abs(s) == FX_SCALE as int,
    ;
}

/// A product with exactly two is exact when the doubling stays in range.
pub proof fn lemma_fx_mul_two(a: int)
    requires
        2 * fx_abs(a) <= FX_MAX_RAW as int,
    ensures
        fx_mul_v(a, 2 * (FX_SCALE as int)) == 2 * a,
{
    vstd::arithmetic::div_mod::lemma_div_multiples_vanish(2 * fx_abs(a), FX_SCALE as int);
    assert(fx_abs(a) * fx_abs(2 * (FX_SCALE as int)) == (FX_SCALE as int) * (2 * fx_abs(a)))
        by (nonlinear_arith);
}

/// Division by exactly one is the identity.
pub proof fn lemma_fx_div_one(a: int)
    requires
        fx_abs(a) <= FX_MAX_RAW as int,
    ensures
        fx_div_v(a, FX_SCALE as int) == a,
{
    vstd::arithmetic::div_mod::lemma_div_multiples_vanish(fx_abs(a), FX_SCALE as int);
    assert(fx_abs(a) * (FX_SCALE as int) == (FX_SCALE as int) * fx_abs(a)) by (nonlinear_arith);
}

/// The square root of exactly one is exactly one.
pub proof fn lemma_fx_sqrt_one()
    ensures
        fx_sqrt_v(FX_SCALE as int) == FX_SCALE as int,
{
    lemma_sqrt_floor_unique((FX_SCALE as int) * (FX_SCALE as int), FX_SCALE as int);
}

/// A fixed-point scalar; see the module documentation.
#[derive(Clone, Copy, Debug, PartialEq, Eq, Structural)]
pub struct Fx {
    pub raw: i64,
}

impl View for Fx {
    type V = int;

    open spec fn view(&self) -> int {
        self.raw as int
    }
}

/// Magnitude of an `i64` as a `u64` (total, unlike `i64` negation).
fn abs_u64(x: i64) -> (r: u64)
    ensures
        r as int == fx_abs(x as int),
{
    if x >= 0 {
        x as u64
    } else {
        (-(x as i128)) as u64
    }
}

/// Clip a wide intermediate result back into the raw range.
fn clip_i128(x: i128) -> (r: i64)
    ensures
        r as int == fx_clip(x as int),
{
    if x > FX_MAX_RAW as i128 {
        FX_MAX_RAW
    } else if x < -(FX_MAX_RAW as i128) {
        -FX_MAX_RAW
    } else {
        x as i64
    }
}

/// Attach a sign to a non-negative magnitude and clip it into range.
fn signed_clip(neg: bool, q: u128) -> (r: Fx)
    ensures
        r@ == fx_clip(
            if neg {
                -(q as int)
            } else {
                q as int
            },
        ),
{
    if q > FX_MAX_RAW as u128 {
        if neg {
            Fx { raw: -FX_MAX_RAW }
        } else {
            Fx { raw: FX_MAX_RAW }
        }
    } else {
        if neg {
            Fx { raw: -(q as i64) }
        } else {
            Fx { raw: q as i64 }
        }
    }
}

impl Fx {
    /// The value `raw / FX_SCALE`.
    pub fn from_raw(raw: i64) -> (r: Fx)
        ensures
            r@ == raw as int,
    {
        Fx { raw }
    }

    /// The integer `i` as a fixed-point value.
    pub fn from_int(i: i64) -> (r: Fx)
        ensures
            r@ == fx_clip(i * (FX_SCALE as int)),
    {
        proof {
            assert(-(i128::MAX as int) <= (i as int) * (FX_SCALE as int) <= i128::MAX as int)
                by (nonlinear_arith)
                requires
                    i64::MIN as int <= i as int <= i64::MAX as int,
            ;
        }
        Fx { raw: clip_i128((i as i128) * (FX_SCALE as i128)) }
    }

    pub fn zero() -> (r: Fx)
        ensures
            r@ == 0,
    {
        Fx { raw: 0 }
    }

    pub fn one() -> (r: Fx)
        ensures
            r@ == FX_SCALE as int,
    {
        Fx { raw: FX_SCALE }
    }

    pub fn add(self, rhs: Fx) -> (r: Fx)
        ensures
            r@ == fx_add_v(self@, rhs@),
    {
        Fx { raw: clip_i128(self.raw as i128 + rhs.raw as i128) }
    }

    pub fn sub(self, rhs: Fx) -> (r: Fx)
        ensures
            r@ == fx_sub_v(self@, rhs@),
    {
        Fx { raw: clip_i128(self.raw as i128 - rhs.raw as i128) }
    }

    pub fn neg(self) -> (r: Fx)
        ensures
            r@ == fx_neg_v(self@),
    {
        Fx { raw: clip_i128(-(self.raw as i128)) }
    }

    pub fn mul(self, rhs: Fx) -> (r: Fx)
        ensures
            r@ == fx_mul_v(self@, rhs@),
    {
        let neg = (self.raw < 0) != (rhs.raw < 0);
        let ma = abs_u64(self.raw) as u128;
        let mb = abs_u64(rhs.raw) as u128;
        proof {
            assert(ma * mb <= ((u64::MAX as u128) * (u64::MAX as u128))) by (nonlinear_arith)
                requires
                    ma <= u64::MAX as u128,
                    mb <= u64::MAX as u128,
            ;
        }
        let q: u128 = (ma * mb) / (FX_SCALE as u128);
        signed_clip(neg, q)
    }

    pub fn div(self, rhs: Fx) -> (r: Fx)
        requires
            rhs@ != 0,
        ensures
            r@ == fx_div_v(self@, rhs@),
    {
        let neg = (self.raw < 0) != (rhs.raw < 0);
        let ma = abs_u64(self.raw) as u128;
        let mb = abs_u64(rhs.raw) as u128;
        proof {
            assert(ma * (FX_SCALE as u128) <= (u64::MAX as u128) * (FX_SCALE as u128))
                by (nonlinear_arith)
                requires
                    ma <= u64::MAX as u128,
            ;
        }
        let q: u128 = (ma * (FX_SCALE as u128)) / mb;
        signed_clip(neg, q)
    }

    /// Square root of a non-negative value, truncating toward zero.
    pub fn sqrt(self) -> (r: Fx)
        requires
            self@ >= 0,
        ensures
            r@ == fx_sqrt_v(self@),
    {
        let n: u128 = (self.raw as u128) * (FX_SCALE as u128);
        let mut lo: u128 = 0;
        let mut hi: u128 = 0x100_0000_0000;
        proof {
            assert((n as int) < 0x100_0000_0000 * 0x100_0000_0000);
        }
        while lo + 1 < hi
            invariant
                (lo * lo) as int <= n as int,
                (n as int) < (hi * hi) as int,
                lo < hi,
                hi <= 0x100_0000_0000,
            decreases hi - lo,
        {
            let mid = lo + (hi - lo) / 2;
            proof {
                assert(mid * mid < 0x100_0000_0000 * 0x100_0000_0000) by (nonlinear_arith)
                    requires
                        mid < 0x100_0000_0000,
                ;
            }
            if mid * mid <= n {
                lo = mid;
            } else {
                hi = mid;
            }
        }
        proof {
            lemma_sqrt_floor_unique(n as int, lo as int);
        }
        Fx { raw: lo as i64 }
    }

    pub fn abs(self) -> (r: Fx)
        ensures
            r@ == fx_clip(fx_abs(self@)),
    {
        if self.raw >= 0 {
            self
        } else {
            self.neg()
        }
    }

    pub fn min(self, rhs: Fx) -> (r: Fx)
        ensures
            r@ == fx_min_v(self@, rhs@),
    {
        if self.raw <= rhs.raw {
            self
        } else {
            rhs
        }
    }

    pub fn max(self, rhs: Fx) -> (r: Fx)
        ensures
            r@ == fx_max_v(self@, rhs@),
    {
        if self.raw >= rhs.raw {
            self
        } else {
            rhs
        }
    }

    pub fn lt(self, rhs: Fx) -> (r: bool)
        ensures
            r == (self@ < rhs@),
    {
        self.raw < rhs.raw
    }

    pub fn le(self, rhs: Fx) -> (r: bool)
        ensures
            r == (self@ <= rhs@),
    {
        self.raw <= rhs.raw
    }

    pub fn is_neg(self) -> (r: bool)
        ensures
            r == (self@ < 0),
    {
        self.raw < 0
    }

    /// Integer part of a non-negative value.
    pub fn floor_usize(self) -> (r: usize)
        requires
            self@ >= 0,
            self@ / (FX_SCALE as int) <= usize::MAX as int,
        ensures
            r as int == self@ / (FX_SCALE as int),
    {
        ((self.raw as u64) / (FX_SCALE as u64)) as usize
    }
}

} // verus!
