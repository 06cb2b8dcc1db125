//! The material scattering models: a closed set of variants, each turning
//! an incoming ray and a hit record into an outgoing ray, an attenuation,
//! and/or a direct terminal color.
//!
//! Scattering consumes draws from the `Sampler` capability; each model is
//! pinned to a spec-level mirror that threads the sampler state explicitly,
//! so a scatter is an exact function of material, ray, hit and state.

use crate::color::Color;
use crate::fixed::{
    fx_abs, fx_add_v, fx_div_v, fx_max_v, fx_mul_v, fx_sqrt_v, fx_sub_v, Fx, FX_MAX_RAW, FX_SCALE,
};
use crate::hittable::{HitRecord, HitRi};
use crate::ray::{Ray, Rayi};
use crate::sampler::{
    random_unit, random_unit_normal_direction, random_unit_normal_rec, random_unit_rec, rng_next,
    unit_of, Sampler, SAMPLE_FUEL,
};
use crate::vec3::{
    v3_add_v, v3_cos_theta_v, v3_div_v, v3_dot_v, v3_near_zero_v, v3_reflect_v, v3_refract_v,
    v3_scale_v, v3_unit_v, Vec3, Vec3i,
};
use vstd::prelude::*;

verus! {

/// Parameters of the diffuse material.
#[derive(Clone, Copy, Debug, PartialEq, Eq, Structural)]
pub struct LambertianParams {
    /// Base reflected color.
    pub albedo: Color,
    /// Fraction of incident light reflected: 0 absorbs all, 1 reflects all.
    pub reflectance: Fx,
    /// Draw the outgoing direction uniformly over the normal's hemisphere
    /// instead of perturbing the normal by a random unit vector.
    pub uniform: bool,
}

#[derive(Clone, Copy, Debug, PartialEq, Eq, Structural)]
pub struct MetalParams {
    pub albedo: Color,
    pub reflectance: Fx,
    /// Magnitude of the random perturbation of the mirror reflection.
    pub fuzz: Fx,
}

#[derive(Clone, Copy, Debug, PartialEq, Eq, Structural)]
pub struct DielectricParams {
    /// Ratio of the refraction index of the material over the enclosing
    /// medium's.
    pub refraction_index: Fx,
}

/// The closed set of materials.
#[derive(Clone, Copy, Debug, PartialEq, Eq, Structural)]
pub enum Type {
    /// Absorbs everything.
    Empty,
    /// Returns a direct color derived from the surface normal.
    Debug,
    Lambertian(LambertianParams),
    Metal(MetalParams),
    Dielectric(DielectricParams),
}

/// Material parameters accepted by `Type::from`.
#[derive(Clone, Copy, Debug)]
pub enum Params {
    Lambertian(LambertianParams),
    Metal(MetalParams),
    Dielectric(DielectricParams),
}

/// What a scatter produced: an outgoing ray, a multiplicative attenuation,
/// and optionally a direct terminal color that bypasses further bouncing.
#[derive(Clone, Copy, Debug)]
pub struct ScatterRecord {
    pub ray: Ray,
    pub attenuation: Color,
    pub color: Option<Color>,
}

/// Ghost image of a scatter record.
pub ghost struct ScatterRi {
    pub ray: Rayi,
    pub attenuation: Vec3i,
    pub color: Option<Vec3i>,
}

/// The image of an optional scatter record.
pub open spec fn scatter_opt_view(r: Option<ScatterRecord>) -> Option<ScatterRi> {
    match r {
        Some(s) => Some(
            ScatterRi {
                ray: s.ray@,
                attenuation: s.attenuation@,
                color: match s.color {
                    Some(c) => Some(c@),
                    None => None,
                },
            },
        ),
        None => None,
    }
}

/// The reflectance-gated scatter shared by the diffuse and metallic models:
/// reflect with probability `reflectance`, else absorb; a zero reflectance
/// always absorbs. A surviving ray follows the unit-normalized candidate
/// direction perturbed by `fuzz` times a random unit vector, is absorbed
/// when it points into the surface (or its direction is below resolution),
/// and carries the attenuation `albedo / reflectance`.
pub open spec fn reflectance_scatter_v(
    hit: HitRi,
    direction: Vec3i,
    albedo: Vec3i,
    reflectance: int,
    fuzz: int,
    state: u64,
) -> (Option<ScatterRi>, u64) {
    let s1 = rng_next(state);
    if unit_of(s1) >= reflectance {
        (None, s1)
    } else {
        let (ru, s2) = random_unit_rec(s1, SAMPLE_FUEL as nat);
        if v3_near_zero_v(direction) {
            (None, s2)
        } else {
            let reflected = v3_add_v(v3_unit_v(direction), v3_scale_v(ru, fuzz));
            if v3_dot_v(reflected, hit.normal) < 0 {
                (None, s2)
            } else {
                (
                    Some(
                        ScatterRi {
                            ray: Rayi { orig: hit.p, dir: reflected },
                            attenuation: v3_div_v(albedo, reflectance),
                            color: None,
                        },
                    ),
                    s2,
                )
            }
        }
    }
}

/// Schlick's approximation of angle-dependent reflectance.
pub open spec fn schlick_v(cos: int, ri: int) -> int {
    let r0 = fx_div_v(fx_sub_v(FX_SCALE as int, ri), fx_add_v(FX_SCALE as int, ri));
    let r0sq = fx_mul_v(r0, r0);
    let m = fx_sub_v(FX_SCALE as int, cos);
    let m5 = fx_mul_v(fx_mul_v(fx_mul_v(fx_mul_v(m, m), m), m), m);
    fx_add_v(r0sq, fx_mul_v(fx_sub_v(FX_SCALE as int, r0sq), m5))
}

/// The dielectric model: choose the effective index by which side was hit,
/// reflect when total internal reflection forbids refraction or when a
/// draw falls below Schlick's reflectance, else refract; always scatters
/// with opaque white attenuation. A non-positive index or a direction
/// below resolution absorbs instead, as both leave the geometry undefined.
pub open spec fn dielectric_scatter_v(
    refraction_index: int,
    ray: Rayi,
    hit: HitRi,
    state: u64,
) -> (Option<ScatterRi>, u64) {
    if refraction_index <= 0 || v3_near_zero_v(ray.dir) {
        (None, state)
    } else {
        let ri = if hit.front_face {
            fx_div_v(FX_SCALE as int, refraction_index)
        } else {
            refraction_index
        };
        let uv = v3_unit_v(ray.dir);
        let cos = v3_cos_theta_v(uv, hit.normal);
        let sin = fx_sqrt_v(fx_max_v(fx_sub_v(FX_SCALE as int, fx_mul_v(cos, cos)), 0));
        let cannot_refract = fx_mul_v(ri, sin) > FX_SCALE as int;
        let chance = schlick_v(cos, ri);
        let s1 = rng_next(state);
        let must_reflect = chance > unit_of(s1);
        let dir = if cannot_refract || must_reflect {
            v3_reflect_v(uv, hit.normal)
        } else {
            v3_refract_v(uv, hit.normal, ri)
        };
        (
            Some(
                ScatterRi {
                    ray: Rayi { orig: hit.p, dir },
                    attenuation: Vec3i {
                        x: FX_SCALE as int,
                        y: FX_SCALE as int,
                        z: FX_SCALE as int,
                    },
                    color: None,
                },
            ),
            s1,
        )
    }
}

/// What each material does with a hit; see the per-variant spec functions.
pub open spec fn scatter_v(m: Type, ray: Rayi, hit: HitRi, state: u64) -> (
    Option<ScatterRi>,
    u64,
) {
    match m {
        Type::Empty => (None, state),
        Type::Debug => {
            let ones = Vec3i { x: FX_SCALE as int, y: FX_SCALE as int, z: FX_SCALE as int };
            let normal01 = v3_scale_v(v3_add_v(hit.normal, ones), (FX_SCALE / 2) as int);
            (
                Some(
                    ScatterRi {
                        ray,
                        attenuation: Vec3i { x: 0, y: 0, z: 0 },
                        color: Some(normal01),
                    },
                ),
                state,
            )
        },
        Type::Lambertian(p) => {
            if p.uniform {
                let (d, s1) = random_unit_normal_rec(hit.normal, state, SAMPLE_FUEL as nat);
                reflectance_scatter_v(hit, d, p.albedo@, p.reflectance@, 0, s1)
            } else {
                let (u, s1) = random_unit_rec(state, SAMPLE_FUEL as nat);
                let d0 = v3_add_v(hit.normal, u);
                let d = if v3_near_zero_v(d0) {
                    hit.normal
                } else {
                    d0
                };
                reflectance_scatter_v(hit, d, p.albedo@, p.reflectance@, 0, s1)
            }
        },
        Type::Metal(p) => reflectance_scatter_v(
            hit,
            v3_reflect_v(ray.dir, hit.normal),
            p.albedo@,
            p.reflectance@,
            p.fuzz@,
            state,
        ),
        Type::Dielectric(p) => dielectric_scatter_v(p.refraction_index@, ray, hit, state),
    }
}

/// The absorbing placeholder never scatters.
pub proof fn lemma_empty_absorbs(ray: Rayi, hit: HitRi, state: u64)
    ensures
        scatter_v(Type::Empty, ray, hit, state).0 is None,
{
}

/// A dielectric never absorbs: for a positive refraction index and a ray
/// whose direction is above resolution, it always scatters — reflected
/// or refracted — with opaque white attenuation and no direct color.
pub proof fn lemma_dielectric_always_scatters(
    refraction_index: int,
    ray: Rayi,
    hit: HitRi,
    state: u64,
)
    requires
        refraction_index > 0,
        !v3_near_zero_v(ray.dir),
    ensures
        (dielectric_scatter_v(refraction_index, ray, hit, state).0 matches Some(sc)
            && sc.attenuation == (Vec3i {
            x: FX_SCALE as int,
            y: FX_SCALE as int,
            z: FX_SCALE as int,
        }) && sc.color is None && sc.ray.orig == hit.p),
{
}

/// A zero-reflectance diffuse or metallic material always absorbs,
/// whatever the geometry, the incoming ray, and the sampler state: the
/// probability gate fires on every draw.
pub proof fn lemma_zero_reflectance_absorbs(m: Type, ray: Rayi, hit: HitRi, state: u64)
    requires
        (m matches Type::Lambertian(p) && p.reflectance@ == 0) || (m matches Type::Metal(p)
            && p.reflectance@ == 0),
    ensures
        scatter_v(m, ray, hit, state).0 is None,
{
}

/// A fully-reflective diffuse or metallic material never absorbs at the
/// probability gate — a draw in `[0, 1)` is always below one — and when
/// it scatters, its attenuation is exactly the albedo (`albedo / 1`).
/// Absorption can still happen for geometric reasons alone: a candidate
/// direction below resolution, or a scattered ray that points into the
/// surface.
pub proof fn lemma_full_reflectance_gate(
    hit: HitRi,
    direction: Vec3i,
    albedo: Vec3i,
    fuzz: int,
    state: u64,
)
    requires
        fx_abs(albedo.x) <= FX_MAX_RAW as int,
        fx_abs(albedo.y) <= FX_MAX_RAW as int,
        fx_abs(albedo.z) <= FX_MAX_RAW as int,
    ensures
        ({
            let (r, s) = reflectance_scatter_v(hit, direction, albedo, FX_SCALE as int, fuzz, state);
            &&& (r is None ==> v3_near_zero_v(direction) || v3_dot_v(
                v3_add_v(
                    v3_unit_v(direction),
                    v3_scale_v(random_unit_rec(rng_next(state), SAMPLE_FUEL as nat).0, fuzz),
                ),
                hit.normal,
            ) < 0)
            &&& (r matches Some(sc) ==> sc.attenuation == albedo)
        }),
{
    let s1 = rng_next(state);
    assert(s1 & 0xffff < 0x10000) by (bit_vector);
    crate::fixed::lemma_fx_div_one(albedo.x);
    crate::fixed::lemma_fx_div_one(albedo.y);
    crate::fixed::lemma_fx_div_one(albedo.z);
}

impl Default for Type {
    fn default() -> (r: Type)
        ensures
            r == Type::Empty,
    {
        Type::Empty
    }
}

impl Default for LambertianParams {
    fn default() -> (r: LambertianParams)
        ensures
            r.albedo@ == (Vec3i { x: FX_SCALE as int, y: 0, z: 0 }),
            r.reflectance@ == FX_SCALE as int,
            !r.uniform,
    {
        LambertianParams {
            albedo: Color::new(Fx::one(), Fx::zero(), Fx::zero()),
            reflectance: Fx::one(),
            uniform: false,
        }
    }
}

impl Default for MetalParams {
    fn default() -> (r: MetalParams)
        ensures
            r.albedo@ == (Vec3i { x: FX_SCALE as int, y: 0, z: 0 }),
            r.reflectance@ == FX_SCALE as int,
            r.fuzz@ == 0,
    {
        MetalParams { albedo: Color::new(Fx::one(), Fx::zero(), Fx::zero()), reflectance: Fx::one(), fuzz: Fx::zero() }
    }
}

impl Default for DielectricParams {
    fn default() -> (r: DielectricParams)
        ensures
            r.refraction_index@ == FX_SCALE as int,
    {
        DielectricParams { refraction_index: Fx::one() }
    }
}

impl Type {
    pub fn empty() -> (r: Type)
        ensures
            r == Type::Empty,
    {
        Type::Empty
    }

    pub fn debug() -> (r: Type)
        ensures
            r == Type::Debug,
    {
        Type::Debug
    }

    /// Build a material from its parameters; a metal's fuzz is clamped to
    /// at most one.
    pub fn from(params: Params) -> (r: Type)
        ensures
            (params matches Params::Lambertian(p) ==> r == Type::Lambertian(p)),
            (params matches Params::Metal(p) ==> r matches Type::Metal(m) && m.albedo == p.albedo
                && m.reflectance == p.reflectance && m.fuzz@ == crate::fixed::fx_min_v(
                p.fuzz@,
                FX_SCALE as int,
            )),
            (params matches Params::Dielectric(p) ==> r == Type::Dielectric(p)),
    {
        match params {
            Params::Lambertian(p) => Type::Lambertian(p),
            Params::Metal(p) => Type::Metal(
                MetalParams {
                    albedo: p.albedo,
                    reflectance: p.reflectance,
                    fuzz: p.fuzz.min(Fx::one()),
                },
            ),
            Params::Dielectric(p) => Type::Dielectric(p),
        }
    }

    /// Scatter the incoming ray at a hit, drawing randomness from the
    /// sampler. The result and the state left behind are exactly
    /// `scatter_v` of the material, ray, record and starting state.
    pub fn scatter(&self, ray: &Ray, hit: HitRecord, sampler: &mut Sampler) -> (r: Option<
        ScatterRecord,
    >)
        ensures
            scatter_opt_view(r) == scatter_v(*self, ray@, hit@, old(sampler)@).0,
            final(sampler)@ == scatter_v(*self, ray@, hit@, old(sampler)@).1,
    {
        match self {
            Type::Empty => None,
            Type::Debug => {
                let one = Fx::one();
                let ones = Vec3::new(one, one, one);
                let half = Fx::from_raw(FX_SCALE / 2);
                let normal_01 = hit.normal.add(ones).scale(half);
                Some(
                    ScatterRecord {
                        ray: *ray,
                        attenuation: Color::black(),
                        color: Some(Color::from_vec(normal_01)),
                    },
                )
            },
            Type::Lambertian(p) => {
                let direction = if p.uniform {
                    random_unit_normal_direction(&hit.normal, sampler)
                } else {
                    let mut direction = hit.normal.add(random_unit(sampler));
                    if direction.near_zero() {
                        direction = hit.normal;
                    }
                    direction
                };
                reflectance_scatter(
                    ReflectanceScatterOptions {
                        hit_record: hit,
                        direction,
                        albedo: p.albedo,
                        reflectance: p.reflectance,
                        fuzz: Fx::zero(),
                    },
                    sampler,
                )
            },
            Type::Metal(p) => {
                let direction = ray.direction().reflect(&hit.normal);
                reflectance_scatter(
                    ReflectanceScatterOptions {
                        hit_record: hit,
                        direction,
                        albedo: p.albedo,
                        reflectance: p.reflectance,
                        fuzz: p.fuzz,
                    },
                    sampler,
                )
            },
            Type::Dielectric(p) => dielectric_scatter(p.refraction_index, ray, hit, sampler),
        }
    }
}

/// Inputs to the shared reflectance-gated scatter.
pub struct ReflectanceScatterOptions {
    pub hit_record: HitRecord,
    pub direction: Vec3,
    pub albedo: Color,
    pub reflectance: Fx,
    pub fuzz: Fx,
}

/// The shared gate; see `reflectance_scatter_v`.
fn reflectance_scatter(options: ReflectanceScatterOptions, sampler: &mut Sampler) -> (r: Option<
    ScatterRecord,
>)
    ensures
        scatter_opt_view(r) == reflectance_scatter_v(
            options.hit_record@,
            options.direction@,
            options.albedo@,
            options.reflectance@,
            options.fuzz@,
            old(sampler)@,
        ).0,
        final(sampler)@ == reflectance_scatter_v(
            options.hit_record@,
            options.direction@,
            options.albedo@,
            options.reflectance@,
            options.fuzz@,
            old(sampler)@,
        ).1,
{
    let gate = sampler.next_unit();
    if !gate.lt(options.reflectance) {
        return None;
    }
    let ru = random_unit(sampler);
    if options.direction.near_zero() {
        return None;
    }
    proof {
        crate::vec3::lemma_not_near_zero_len_sq(options.direction@);
    }
    let reflected = options.direction.unit().add(ru.scale(options.fuzz));
    let scattered_ray = Ray::new(options.hit_record.p, reflected);

    let outward_component = scattered_ray.direction().dot(&options.hit_record.normal);
    if outward_component.is_neg() {
        return None;
    }

    let attenuation = Color::from_vec(options.albedo.vec().div(options.reflectance));
    Some(ScatterRecord { ray: scattered_ray, attenuation, color: None })
}

/// The dielectric model; see `dielectric_scatter_v`.
fn dielectric_scatter(
    refraction_index: Fx,
    ray: &Ray,
    hit: HitRecord,
    sampler: &mut Sampler,
) -> (r: Option<ScatterRecord>)
    ensures
        scatter_opt_view(r) == dielectric_scatter_v(
            refraction_index@,
            ray@,
            hit@,
            old(sampler)@,
        ).0,
        final(sampler)@ == dielectric_scatter_v(refraction_index@, ray@, hit@, old(sampler)@).1,
{
    let zero = Fx::zero();
    if !zero.lt(refraction_index) || ray.direction().near_zero() {
        return None;
    }
    let one = Fx::one();
    let ri = if hit.front_face {
        one.div(refraction_index)
    } else {
        refraction_index
    };
    proof {
        crate::vec3::lemma_not_near_zero_len_sq(ray@.dir);
    }
    let incident_uv = ray.direction().unit();

    let cos_theta = incident_uv.cos_theta(&hit.normal);
    let sin_sq = one.sub(cos_theta.mul(cos_theta)).max(zero);
    proof {
        crate::fixed::lemma_sqrt_floor_bounds(sin_sq@ * (FX_SCALE as int));
    }
    let sin_theta = sin_sq.sqrt();
    let cannot_refract = one.lt(ri.mul(sin_theta));

    let reflectance_chance = reflectance(cos_theta, ri);
    let must_reflect = sampler.next_unit().lt(reflectance_chance);

    let direction = if cannot_refract || must_reflect {
        incident_uv.reflect(&hit.normal)
    } else {
        incident_uv.refract(&hit.normal, ri)
    };

    let scattered = Ray::new(hit.p, direction);
    let attenuation = Color::new(one, one, one);
    Some(ScatterRecord { ray: scattered, attenuation, color: None })
}

/// Schlick's polynomial approximation of angle-dependent reflectance.
fn reflectance(cosine: Fx, refraction_index: Fx) -> (r: Fx)
    requires
        refraction_index@ >= 0,
    ensures
        r@ == schlick_v(cosine@, refraction_index@),
{
    let one = Fx::one();
    let denom = one.add(refraction_index);
    let r0 = one.sub(refraction_index).div(denom);
    let r0 = r0.mul(r0);
    let m = one.sub(cosine);
    let m5 = m.mul(m).mul(m).mul(m).mul(m);
    r0.add(one.sub(r0).mul(m5))
}

} // verus!
