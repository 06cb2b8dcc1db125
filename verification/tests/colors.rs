use ray_tracer::color::Color;
use ray_tracer::fixed::Fx;
use ray_tracer::point3::Point3;
use ray_tracer::vec3::Vec3;

/// The fixed-point value nearest to `x`.
fn fx(x: f64) -> Fx {
    Fx::from_raw((x * 65536.0).round() as i64)
}

#[test]
fn color_test_display() {
    let a = Color::new(fx(0.0), fx(1.0), fx(0.5));
    assert_eq!(a.to_text(), "0 255 181");
}

#[test]
fn color_test_from_color() {
    let a = Color::new(fx(0.0), fx(0.0), fx(0.0));
    let b = a.vec();
    assert_eq!(b, Vec3::new(fx(0.0), fx(0.0), fx(0.0)));
}

#[test]
fn color_test_from_vec3() {
    let a = Vec3::new(fx(0.0), fx(0.0), fx(0.0));
    let b = Color::from_vec(a);
    assert_eq!(b, Color::new(fx(0.0), fx(0.0), fx(0.0)));
}

// The exact channel mapping: gamma correction, the clamp to just below
// one, and the scale by 256.
#[test]
fn test_channel_encoding() {
    let a = Color::new(fx(0.0), fx(1.0), fx(0.5));
    assert_eq!(a.channels(), (0, 255, 181));
    // channels above one still clamp to 255
    let b = Color::new(fx(2.0), fx(1.0), fx(0.25));
    assert_eq!(b.channels(), (255, 255, 128));
}

#[test]
fn point3_test_default() {
    let a = Point3::default();
    assert_eq!(a.to_text(), "(0, 0, 0)");
}

#[test]
fn point3_test_display() {
    let a = Point3::new(fx(1.0), fx(2.0), fx(3.0));
    assert_eq!(a.to_text(), "(1, 2, 3)");
}

#[test]
fn test_point3_display_fractional() {
    let a = Point3::new(fx(0.5), fx(-2.25), fx(3.0));
    assert_eq!(a.to_text(), "(0.5, -2.25, 3)");
}

#[test]
fn test_from_point3() {
    let a = Point3::new(fx(1.0), fx(2.0), fx(3.0));
    let b = a.vec();
    assert_eq!(b, Vec3::new(fx(1.0), fx(2.0), fx(3.0)));
}

#[test]
fn point3_test_from_vec3() {
    let a = Vec3::new(fx(1.0), fx(2.0), fx(3.0));
    let b = Point3::from_vec(a);
    assert_eq!(b, Point3::new(fx(1.0), fx(2.0), fx(3.0)));
}
