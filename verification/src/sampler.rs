//! The uniform-random source, as a deterministic capability.
//!
//! Scattering and pixel sampling draw their randomness from a `Sampler`
//! holding a xorshift state, so a render is a pure function of its seed and
//! tests can fix the draws. Rejection sampling of unit vectors carries a
//! fuel bound with a fixed fallback direction, keeping every function total.

use crate::fixed::{Fx, FX_SCALE};
use crate::vec3::{v3_dot_v, v3_len_sq_v, v3_unit_v, Vec3, Vec3i};
use vstd::prelude::*;

verus! {

/// One xorshift step of the generator state.
pub open spec fn rng_next(s: u64) -> u64 {
    let a = s ^ (s << 13);
    let b = a ^ (a >> 7);
    b ^ (b << 17)
}

/// The per-pixel starting state: the seed and pixel index folded together
/// (forced odd so the state never collapses to zero), then advanced twice.
pub open spec fn rng_mix(seed: u64, index: u64) -> u64 {
    rng_next(rng_next((seed ^ index) | 1))
}

/// A draw in `[0, 1)`: the low bits of the state, in raw units.
pub open spec fn unit_of(s: u64) -> int {
    (s & 0xffff) as int
}

/// A draw in `[-1, 1)`, in raw units.
pub open spec fn sym_of(s: u64) -> int {
    ((s & 0x1ffff) as int) - (FX_SCALE as int)
}

/// The direction used when rejection sampling runs out of fuel.
pub open spec fn unit_fallback() -> Vec3i {
    Vec3i { x: 0, y: 0, z: FX_SCALE as int }
}

/// Rejection sampling of a unit vector: draw a candidate from the cube,
/// accept it when it falls inside the unit ball but not below resolution,
/// and normalize it. Returns the vector and the state left behind.
pub open spec fn random_unit_rec(state: u64, fuel: nat) -> (Vec3i, u64)
    decreases fuel,
{
    if fuel == 0 {
        (unit_fallback(), state)
    } else {
        let s1 = rng_next(state);
        let s2 = rng_next(s1);
        let s3 = rng_next(s2);
        let p = Vec3i { x: sym_of(s1), y: sym_of(s2), z: sym_of(s3) };
        let l = v3_len_sq_v(p);
        if 1 <= l && l <= FX_SCALE as int {
            (v3_unit_v(p), s3)
        } else {
            random_unit_rec(s3, (fuel - 1) as nat)
        }
    }
}

/// As `random_unit_rec`, but the candidate is flattened onto the disk
/// `z == 0` before the acceptance test.
pub open spec fn random_unit_disk_rec(state: u64, fuel: nat) -> (Vec3i, u64)
    decreases fuel,
{
    if fuel == 0 {
        (Vec3i { x: 0, y: 0, z: 0 }, state)
    } else {
        let s1 = rng_next(state);
        let s2 = rng_next(s1);
        let s3 = rng_next(s2);
        let p = Vec3i { x: sym_of(s1), y: sym_of(s2), z: 0 };
        let l = v3_len_sq_v(p);
        if 1 <= l && l <= FX_SCALE as int {
            (v3_unit_v(p), s3)
        } else {
            random_unit_disk_rec(s3, (fuel - 1) as nat)
        }
    }
}

/// A random unit vector in the hemisphere around `normal`.
pub open spec fn random_unit_normal_rec(normal: Vec3i, state: u64, fuel: nat) -> (Vec3i, u64) {
    let (u, s) = random_unit_rec(state, fuel);
    if v3_dot_v(u, normal) > 0 {
        (u, s)
    } else {
        (crate::vec3::v3_neg_v(u), s)
    }
}

/// Attempts granted to each rejection-sampling loop.
pub const SAMPLE_FUEL: u32 = 32;

/// The deterministic random source handed to sampling and scattering.
pub struct Sampler {
    state: u64,
}

impl View for Sampler {
    type V = u64;

    closed spec fn view(&self) -> u64 {
        self.state
    }
}

impl Sampler {
    pub fn new(seed: u64) -> (r: Sampler)
        ensures
            r@ == (seed | 1),
    {
        Sampler { state: seed | 1 }
    }

    /// The sampler a given pixel starts from.
    pub fn for_pixel(seed: u64, index: u64) -> (r: Sampler)
        ensures
            r@ == rng_mix(seed, index),
    {
        let mut s = Sampler { state: (seed ^ index) | 1 };
        let _ = s.next_u64();
        let _ = s.next_u64();
        s
    }

    pub fn next_u64(&mut self) -> (r: u64)
        ensures
            final(self)@ == rng_next(old(self)@),
            r == rng_next(old(self)@),
    {
        let mut x = self.state;
        x = x ^ (x << 13);
        x = x ^ (x >> 7);
        x = x ^ (x << 17);
        self.state = x;
        x
    }

    /// A draw in `[0, 1)`.
    pub fn next_unit(&mut self) -> (r: Fx)
        ensures
            final(self)@ == rng_next(old(self)@),
            r@ == unit_of(rng_next(old(self)@)),
            0 <= r@ < FX_SCALE as int,
    {
        let x = self.next_u64();
        proof {
            assert(x & 0xffff < 0x10000) by (bit_vector);
        }
        Fx::from_raw((x & 0xffff) as i64)
    }

    /// A draw in `[-1, 1)`.
    pub fn next_symmetric(&mut self) -> (r: Fx)
        ensures
            final(self)@ == rng_next(old(self)@),
            r@ == sym_of(rng_next(old(self)@)),
            -(FX_SCALE as int) <= r@ < FX_SCALE as int,
    {
        let x = self.next_u64();
        proof {
            assert(x & 0x1ffff < 0x20000) by (bit_vector);
        }
        Fx::from_raw(((x & 0x1ffff) as i64) - FX_SCALE)
    }
}

fn random_unit_go(sampler: &mut Sampler, fuel: u32) -> (r: Vec3)
    ensures
        r@ == random_unit_rec(old(sampler)@, fuel as nat).0,
        final(sampler)@ == random_unit_rec(old(sampler)@, fuel as nat).1,
    decreases fuel,
{
    if fuel == 0 {
        let zero = Fx::zero();
        Vec3::new(zero, zero, Fx::one())
    } else {
        let a = sampler.next_symmetric();
        let b = sampler.next_symmetric();
        let c = sampler.next_symmetric();
        let p = Vec3::new(a, b, c);
        let l = p.length_squared();
        if Fx::from_raw(1).le(l) && l.le(Fx::one()) {
            p.unit()
        } else {
            random_unit_go(sampler, fuel - 1)
        }
    }
}

/// A uniformly random unit vector.
pub fn random_unit(sampler: &mut Sampler) -> (r: Vec3)
    ensures
        r@ == random_unit_rec(old(sampler)@, SAMPLE_FUEL as nat).0,
        final(sampler)@ == random_unit_rec(old(sampler)@, SAMPLE_FUEL as nat).1,
{
    random_unit_go(sampler, SAMPLE_FUEL)
}

fn random_unit_disk_go(sampler: &mut Sampler, fuel: u32) -> (r: Vec3)
    ensures
        r@ == random_unit_disk_rec(old(sampler)@, fuel as nat).0,
        final(sampler)@ == random_unit_disk_rec(old(sampler)@, fuel as nat).1,
    decreases fuel,
{
    if fuel == 0 {
        let zero = Fx::zero();
        Vec3::new(zero, zero, zero)
    } else {
        let a = sampler.next_symmetric();
        let b = sampler.next_symmetric();
        let _ = sampler.next_symmetric();
        let p = Vec3::new(a, b, Fx::zero());
        let l = p.length_squared();
        if Fx::from_raw(1).le(l) && l.le(Fx::one()) {
            p.unit()
        } else {
            random_unit_disk_go(sampler, fuel - 1)
        }
    }
}

/// A uniformly random vector on the unit disk `z == 0`.
pub fn random_unit_disk(sampler: &mut Sampler) -> (r: Vec3)
    ensures
        r@ == random_unit_disk_rec(old(sampler)@, SAMPLE_FUEL as nat).0,
        final(sampler)@ == random_unit_disk_rec(old(sampler)@, SAMPLE_FUEL as nat).1,
{
    random_unit_disk_go(sampler, SAMPLE_FUEL)
}

/// A random unit vector in the same hemisphere as `normal`.
pub fn random_unit_normal_direction(normal: &Vec3, sampler: &mut Sampler) -> (r: Vec3)
    ensures
        r@ == random_unit_normal_rec(normal@, old(sampler)@, SAMPLE_FUEL as nat).0,
        final(sampler)@ == random_unit_normal_rec(normal@, old(sampler)@, SAMPLE_FUEL as nat).1,
{
    let unit = random_unit(sampler);
    if Fx::zero().lt(unit.dot(normal)) {
        unit
    } else {
        unit.neg()
    }
}

} // verus!
