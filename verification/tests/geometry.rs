use ray_tracer::fixed::{Fx, FX_MAX_RAW};
use ray_tracer::hittable::{Hittable, HittableList};
use ray_tracer::interval::Interval;
use ray_tracer::material::{LambertianParams, Params, Type};
use ray_tracer::point3::Point3;
use ray_tracer::ray::Ray;
use ray_tracer::sphere::Sphere;
use ray_tracer::vec3::Vec3;

/// The fixed-point value nearest to `x`.
fn fx(x: f64) -> Fx {
    Fx::from_raw((x * 65536.0).round() as i64)
}

#[test]
fn test_fields() {
    let i = Interval::new(fx(-4.0), fx(6.0));
    assert_eq!(i.min(), fx(-4.0));
    assert_eq!(i.max(), fx(6.0));
}

#[test]
fn test_empty() {
    let i = Interval::empty();
    assert_eq!(i.min(), Fx::from_raw(FX_MAX_RAW));
    assert_eq!(i.max(), Fx::from_raw(-FX_MAX_RAW));
}

#[test]
fn test_universe() {
    let i = Interval::universe();
    assert_eq!(i.min(), Fx::from_raw(-FX_MAX_RAW));
    assert_eq!(i.max(), Fx::from_raw(FX_MAX_RAW));
}

#[test]
fn test_size() {
    let i = Interval::new(fx(-4.0), fx(6.0));
    assert_eq!(i.size(), fx(10.0));
}

#[test]
fn test_contains() {
    let i = Interval::new(fx(-4.0), fx(6.0));
    assert!(i.contains(fx(-4.0)));
    assert!(i.contains(fx(1.5)));
    assert!(i.contains(fx(6.0)));
}

#[test]
fn test_surrounds() {
    let i = Interval::new(fx(-4.0), fx(6.0));
    assert!(!i.surrounds(fx(-4.0)));
    assert!(i.surrounds(fx(3.4)));
    assert!(!i.surrounds(fx(6.0)));
}

#[test]
fn test_clamp() {
    let i = Interval::new(fx(-4.0), fx(6.0));
    assert_eq!(i.clamp(fx(-5.0)), fx(-4.0));
    assert_eq!(i.clamp(fx(3.4)), fx(3.4));
    assert_eq!(i.clamp(fx(10.0)), fx(6.0));
}

#[test]
fn test_copy() {
    let a = Ray::new(
        Point3::new(fx(1.0), fx(2.0), fx(3.0)),
        Vec3::new(fx(4.0), fx(5.0), fx(6.0)),
    );
    let b = Ray::new(a.origin(), a.direction());
    assert_eq!(b, a);
}

#[test]
fn test_mut_field_copy() {
    let a = Ray::new(
        Point3::new(fx(1.0), fx(2.0), fx(3.0)),
        Vec3::new(fx(4.0), fx(5.0), fx(6.0)),
    );
    let mut dir = a.direction();
    dir.x = fx(10.0);
    assert_eq!(dir, Vec3::new(fx(10.0), fx(5.0), fx(6.0)));
}

#[test]
fn test_at() {
    let a = Ray::new(
        Point3::new(fx(1.0), fx(2.0), fx(3.0)),
        Vec3::new(fx(4.0), fx(5.0), fx(6.0)),
    );

    assert_eq!(a.at(fx(0.0)), Point3::new(fx(1.0), fx(2.0), fx(3.0)));
    assert_eq!(a.at(fx(0.5)), Point3::new(fx(3.0), fx(4.5), fx(6.0)));
    assert_eq!(a.at(fx(4.0)), Point3::new(fx(17.0), fx(22.0), fx(27.0)));
}

#[test]
fn test_sphere_default() {
    let sphere = <Sphere>::default();
    assert_eq!(sphere.radius(), fx(0.0));
    assert_eq!(sphere.material(), Type::empty());
}

#[test]
fn sphere_test_sphere_radius_minimum() {
    let sphere = Sphere::builder().radius(fx(-10.0)).build();
    assert_eq!(sphere.radius(), fx(0.0));
}

#[test]
fn sphere_test_sphere_hit() {
    let sphere = Sphere::builder()
        .center(fx(0.0), fx(0.0), fx(-1.0))
        .radius(fx(0.5))
        .build();
    let ray = Ray::new(
        Point3::new(fx(0.0), fx(0.0), fx(0.0)),
        Vec3::new(fx(0.0), fx(0.0), fx(-1.0)),
    );

    let hit = sphere.hit(&ray, fx(0.0), fx(100.0));
    assert!(hit.is_some());
    let record = hit.unwrap();
    assert_eq!(record.t, fx(0.5));
    assert_eq!(record.p, Point3::new(fx(0.0), fx(0.0), fx(-0.5)));
    assert_eq!(record.normal, Vec3::new(fx(0.0), fx(0.0), fx(1.0)));
}

#[test]
fn sphere_test_sphere_miss() {
    let sphere = Sphere::builder()
        .center(fx(0.0), fx(0.0), fx(-1.0))
        .radius(fx(0.5))
        .build();
    let ray = Ray::new(
        Point3::new(fx(0.0), fx(1.0), fx(0.0)),
        Vec3::new(fx(0.0), fx(0.0), fx(-1.0)),
    );

    let hit = sphere.hit(&ray, fx(0.0), fx(100.0));
    assert!(hit.is_none());
}

#[test]
fn test_sphere_material() {
    let material = Type::from(Params::Lambertian(LambertianParams {
        albedo: ray_tracer::color::Color::new(fx(1.0), fx(0.0), fx(0.0)),
        reflectance: fx(1.0),
        uniform: false,
    }));

    let sphere = Sphere::builder()
        .center(fx(0.0), fx(0.0), fx(-1.0))
        .radius(fx(0.5))
        .material(material)
        .build();

    let ray = Ray::new(
        Point3::new(fx(0.0), fx(0.0), fx(0.0)),
        Vec3::new(fx(0.0), fx(0.0), fx(-1.0)),
    );

    let hit = sphere.hit(&ray, fx(0.0), fx(100.0));
    assert!(hit.is_some());
    assert_eq!(hit.unwrap().material, material);
}

// The scene aggregate reports the globally closest hit, and a later
// object wins an exact tie.
#[test]
fn test_list_nearest_hit() {
    let far = Sphere::builder()
        .center(fx(0.0), fx(0.0), fx(-3.0))
        .radius(fx(0.5))
        .build();
    let near = Sphere::builder()
        .center(fx(0.0), fx(0.0), fx(-1.0))
        .radius(fx(0.5))
        .build();
    let mut world = HittableList::new();
    world.add(far);
    world.add(near);
    let ray = Ray::new(
        Point3::new(fx(0.0), fx(0.0), fx(0.0)),
        Vec3::new(fx(0.0), fx(0.0), fx(-1.0)),
    );
    let hit = world.hit(&ray, fx(0.001), fx(100.0)).unwrap();
    assert_eq!(hit.t, fx(0.5));
}

#[test]
fn test_list_miss() {
    let mut world = HittableList::new();
    world.add(
        Sphere::builder()
            .center(fx(0.0), fx(0.0), fx(-1.0))
            .radius(fx(0.5))
            .build(),
    );
    let ray = Ray::new(
        Point3::new(fx(0.0), fx(1.0), fx(0.0)),
        Vec3::new(fx(0.0), fx(0.0), fx(-1.0)),
    );
    assert!(world.hit(&ray, fx(0.001), fx(100.0)).is_none());
}
