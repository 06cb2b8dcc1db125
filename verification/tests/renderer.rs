use ray_tracer::camera::{ray_color, Camera, CameraBuilder};
use ray_tracer::color::Color;
use ray_tracer::fixed::Fx;
use ray_tracer::hittable::HittableList;
use ray_tracer::material::{LambertianParams, MetalParams, Params, Type};
use ray_tracer::point3::Point3;
use ray_tracer::ray::Ray;
use ray_tracer::sampler::Sampler;
use ray_tracer::sphere::Sphere;
use ray_tracer::vec3::Vec3;

/// The fixed-point value nearest to `x`.
fn fx(x: f64) -> Fx {
    Fx::from_raw((x * 65536.0).round() as i64)
}

/// A small foreground sphere over a huge ground sphere.
fn two_sphere_scene() -> HittableList {
    let mut world = HittableList::new();
    world.add(
        Sphere::builder()
            .center(fx(0.0), fx(-100.5), fx(-1.0))
            .radius(fx(100.0))
            .material(Type::from(Params::Lambertian(LambertianParams {
                albedo: Color::new(fx(0.5), fx(0.5), fx(0.5)),
                reflectance: fx(1.0),
                uniform: false,
            })))
            .collision(false)
            .build(),
    );
    world.add(
        Sphere::builder()
            .center(fx(0.0), fx(0.0), fx(-1.0))
            .radius(fx(0.5))
            .material(Type::from(Params::Metal(MetalParams {
                albedo: Color::new(fx(0.8), fx(0.6), fx(0.2)),
                reflectance: fx(1.0),
                fuzz: fx(0.0),
            })))
            .build(),
    );
    world
}

/// A camera looking down the negative z axis at a small viewport.
fn small_camera() -> Camera {
    CameraBuilder::new()
        .aspect_ratio(fx(2.0))
        .image_height(4)
        .samples_per_pixel(2)
        .max_depth(8)
        .vertical_fov(fx(1.0))
        .look_from(fx(0.0), fx(0.0), fx(0.0))
        .look_at(fx(0.0), fx(0.0), fx(-1.0))
        .vup(fx(0.0), fx(1.0), fx(0.0))
        .defocus_angle(fx(0.0))
        .focus_distance(fx(1.0))
        .initialize()
}

// At depth zero the integrator is exact black, whatever the scene holds.
#[test]
fn test_ray_color_depth_zero_black() {
    let world = two_sphere_scene();
    let rays = [
        Ray::new(
            Point3::new(fx(0.0), fx(0.0), fx(0.0)),
            Vec3::new(fx(0.0), fx(0.0), fx(-1.0)),
        ),
        Ray::new(
            Point3::new(fx(3.0), fx(-2.0), fx(1.0)),
            Vec3::new(fx(0.3), fx(0.9), fx(0.1)),
        ),
    ];
    for ray in rays {
        let mut sampler = Sampler::new(5);
        let c = ray_color(&ray, &world, 0, &mut sampler);
        assert_eq!(c, Color::new(fx(0.0), fx(0.0), fx(0.0)));
    }
}

// A ray that misses everything ends in the sky gradient; straight up the
// gradient is exactly the sky blue.
#[test]
fn test_ray_color_miss_is_sky() {
    let world = two_sphere_scene();
    let up = Ray::new(
        Point3::new(fx(0.0), fx(2.0), fx(0.0)),
        Vec3::new(fx(0.0), fx(1.0), fx(0.0)),
    );
    let mut sampler = Sampler::new(5);
    let c = ray_color(&up, &world, 4, &mut sampler);
    assert_eq!(
        c,
        Color::new(Fx::from_raw(32768), Fx::from_raw(45875), Fx::from_raw(65536))
    );
}

// The parallel render agrees with the per-pixel function at every index,
// and fills exactly width * height pixels.
#[test]
fn test_render_matches_render_pixel() {
    let world = two_sphere_scene();
    let camera = small_camera();
    let seed = 42u64;
    let pixels = camera.render(&world, seed);
    assert_eq!(pixels.len(), camera.image_width() * camera.image_height());
    for (i, pixel) in pixels.iter().enumerate() {
        assert_eq!(*pixel, camera.render_pixel(&world, seed, i));
    }
}

// The render is a pure function of camera, scene and seed.
#[test]
fn test_render_deterministic() {
    let world = two_sphere_scene();
    let camera = small_camera();
    let a = camera.render(&world, 7);
    let b = camera.render(&world, 7);
    assert_eq!(a, b);
}

// A two-sphere scene rendered at a fixed size, seed and sample count
// reproduces exact pixel values: sky at the top, the metal sphere's tint
// in the middle, the diffuse ground below.
#[test]
fn test_two_sphere_scene_regression() {
    let world = two_sphere_scene();
    let camera = small_camera();
    let pixels = camera.render(&world, 42);
    assert_eq!(pixels.len(), 32);
    let top_left = pixels[0].channels();
    let center = pixels[8 * 1 + 4].channels();
    let bottom = pixels[8 * 3 + 4].channels();
    assert_eq!(
        (top_left, center, bottom),
        ((206, 227, 255), (185, 176, 114), (147, 161, 181))
    );
}

#[test]
fn test_camera_dimensions() {
    let camera = small_camera();
    assert_eq!(camera.image_width(), 8);
    assert_eq!(camera.image_height(), 4);
}

// The same pixel and seed give the same ray; different pixels differ.
#[test]
fn test_get_ray_deterministic() {
    let camera = small_camera();
    let mut s1 = Sampler::for_pixel(9, 3);
    let mut s2 = Sampler::for_pixel(9, 3);
    let r1 = camera.get_ray(3, 0, &mut s1);
    let r2 = camera.get_ray(3, 0, &mut s2);
    assert_eq!(r1, r2);
}
