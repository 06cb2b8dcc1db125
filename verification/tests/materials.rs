use ray_tracer::color::Color;
use ray_tracer::fixed::Fx;
use ray_tracer::hittable::HitRecord;
use ray_tracer::material::{
    DielectricParams, LambertianParams, MetalParams, Params, Type,
};
use ray_tracer::point3::Point3;
use ray_tracer::ray::Ray;
use ray_tracer::sampler::Sampler;
use ray_tracer::vec3::Vec3;

/// The fixed-point value nearest to `x`.
fn fx(x: f64) -> Fx {
    Fx::from_raw((x * 65536.0).round() as i64)
}

/// A well-formed hit: the origin-facing side of a surface at z = -1.
fn hit_record(material: Type) -> HitRecord {
    HitRecord {
        p: Point3::new(fx(0.0), fx(0.0), fx(-1.0)),
        normal: Vec3::new(fx(0.0), fx(0.0), fx(1.0)),
        t: fx(1.0),
        front_face: true,
        material,
    }
}

fn incoming() -> Ray {
    Ray::new(
        Point3::new(fx(0.0), fx(0.0), fx(0.0)),
        Vec3::new(fx(0.0), fx(0.0), fx(-1.0)),
    )
}

#[test]
fn test_empty_always_absorbs() {
    let m = Type::empty();
    for seed in 0..16u64 {
        let mut sampler = Sampler::new(seed);
        assert!(m.scatter(&incoming(), hit_record(m), &mut sampler).is_none());
    }
}

// A zero-reflectance material absorbs on every draw, for diffuse and
// metallic materials alike.
#[test]
fn test_zero_reflectance_always_absorbs() {
    let lambertian = Type::from(Params::Lambertian(LambertianParams {
        albedo: Color::new(fx(0.8), fx(0.8), fx(0.8)),
        reflectance: fx(0.0),
        uniform: false,
    }));
    let metal = Type::from(Params::Metal(MetalParams {
        albedo: Color::new(fx(0.8), fx(0.8), fx(0.8)),
        reflectance: fx(0.0),
        fuzz: fx(0.3),
    }));
    for seed in 0..64u64 {
        let mut sampler = Sampler::new(seed);
        assert!(lambertian
            .scatter(&incoming(), hit_record(lambertian), &mut sampler)
            .is_none());
        let mut sampler = Sampler::new(seed);
        assert!(metal
            .scatter(&incoming(), hit_record(metal), &mut sampler)
            .is_none());
    }
}

// A fully-reflective material never absorbs at the probability gate, and
// its attenuation is exactly the albedo.
#[test]
fn test_full_reflectance_attenuation_is_albedo() {
    let albedo = Color::new(fx(0.7), fx(0.6), fx(0.5));
    let lambertian = Type::from(Params::Lambertian(LambertianParams {
        albedo,
        reflectance: fx(1.0),
        uniform: false,
    }));
    let metal = Type::from(Params::Metal(MetalParams {
        albedo,
        reflectance: fx(1.0),
        fuzz: fx(0.0),
    }));
    let mut scattered = 0;
    for seed in 0..32u64 {
        let mut sampler = Sampler::new(seed);
        if let Some(record) = lambertian.scatter(&incoming(), hit_record(lambertian), &mut sampler)
        {
            assert_eq!(record.attenuation, albedo);
            scattered += 1;
        }
        let mut sampler = Sampler::new(seed);
        let record = metal
            .scatter(&incoming(), hit_record(metal), &mut sampler)
            .expect("a perfect mirror reflection away from the surface scatters");
        assert_eq!(record.attenuation, albedo);
    }
    assert!(scattered > 0);
}

// A perfect mirror reflects the incoming direction exactly.
#[test]
fn test_metal_mirror_direction() {
    let metal = Type::from(Params::Metal(MetalParams {
        albedo: Color::new(fx(1.0), fx(1.0), fx(1.0)),
        reflectance: fx(1.0),
        fuzz: fx(0.0),
    }));
    let ray = Ray::new(
        Point3::new(fx(0.0), fx(0.0), fx(0.0)),
        Vec3::new(fx(0.0), fx(0.0), fx(-1.0)),
    );
    let mut sampler = Sampler::new(11);
    let record = metal.scatter(&ray, hit_record(metal), &mut sampler).unwrap();
    assert_eq!(record.ray.direction(), Vec3::new(fx(0.0), fx(0.0), fx(1.0)));
    assert_eq!(record.ray.origin(), Point3::new(fx(0.0), fx(0.0), fx(-1.0)));
}

// A metal's fuzz is clamped to at most one at construction.
#[test]
fn test_metal_fuzz_clamped() {
    let metal = Type::from(Params::Metal(MetalParams {
        albedo: Color::new(fx(1.0), fx(1.0), fx(1.0)),
        reflectance: fx(1.0),
        fuzz: fx(7.0),
    }));
    assert!(matches!(metal, Type::Metal(p) if p.fuzz == fx(1.0)));
}

// The diagnostic material short-circuits with a color derived from the
// normal, mapped from [-1, 1] to [0, 1].
#[test]
fn test_debug_normal_color() {
    let m = Type::debug();
    let mut sampler = Sampler::new(3);
    let record = m.scatter(&incoming(), hit_record(m), &mut sampler).unwrap();
    assert_eq!(record.color, Some(Color::new(fx(0.5), fx(0.5), fx(1.0))));
    assert_eq!(record.attenuation, Color::new(fx(0.0), fx(0.0), fx(0.0)));
}

// A dielectric always scatters, with opaque white attenuation.
#[test]
fn test_dielectric_always_scatters() {
    let glass = Type::from(Params::Dielectric(DielectricParams {
        refraction_index: fx(1.5),
    }));
    for seed in 0..32u64 {
        let mut sampler = Sampler::new(seed);
        let record = glass
            .scatter(&incoming(), hit_record(glass), &mut sampler)
            .expect("a dielectric never absorbs");
        assert_eq!(record.attenuation, Color::new(fx(1.0), fx(1.0), fx(1.0)));
        assert_eq!(record.color, None);
    }
}

#[test]
fn test_material_defaults() {
    assert_eq!(Type::default(), Type::empty());
    let p = LambertianParams::default();
    assert_eq!(p.albedo, Color::new(fx(1.0), fx(0.0), fx(0.0)));
    assert_eq!(p.reflectance, fx(1.0));
    assert!(!p.uniform);
    let m = MetalParams::default();
    assert_eq!(m.fuzz, fx(0.0));
    let d = DielectricParams::default();
    assert_eq!(d.refraction_index, fx(1.0));
}
