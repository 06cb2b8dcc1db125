use ray_tracer::fixed::Fx;
use ray_tracer::vec3::Vec3;

/// The fixed-point value nearest to `x`.
fn fx(x: f64) -> Fx {
    Fx::from_raw((x * 65536.0).round() as i64)
}

/// Assert `a` is within `tol` raw units (of 1/65536) of `b`.
fn assert_close(a: Fx, b: f64, tol: i64) {
    let e = (b * 65536.0).round() as i64;
    assert!(
        (a.raw - e).abs() <= tol,
        "got {} raw, expected {} raw (tolerance {})",
        a.raw,
        e,
        tol
    );
}

#[test]
fn vec3_test_default() {
    let a = Vec3::default();
    assert_eq!(a, Vec3::new(fx(0.0), fx(0.0), fx(0.0)));
}

#[test]
fn test_mut_field() {
    let mut a = Vec3::inew(1, 2, 3);
    a.y = fx(20.0);
    assert_eq!(a, Vec3::new(fx(1.0), fx(20.0), fx(3.0)));
}

#[test]
fn vec3_test_neg() {
    let a = Vec3::inew(1, 2, 3);
    let b = a.neg();
    assert_eq!(b, Vec3::inew(-1, -2, -3));
}

#[test]
fn vec3_test_add() {
    let a = Vec3::inew(1, 2, 3);
    let b = Vec3::inew(1, 2, 3);
    let c = a.add(b);
    assert_eq!(c, Vec3::inew(2, 4, 6));
}

#[test]
fn vec3_test_add_assign() {
    let a = Vec3::inew(1, 2, 3);
    let b = Vec3::inew(1, 2, 3);
    let mut c = a.add(b);
    c = c.add(a);
    assert_eq!(c, Vec3::inew(3, 6, 9));
}

#[test]
fn vec3_test_sub() {
    let a = Vec3::inew(2, 4, 8);
    let b = Vec3::inew(1, 1, 1);
    let c = a.sub(b);
    assert_eq!(c, Vec3::inew(1, 3, 7));
}

#[test]
fn vec3_test_sub_assign() {
    let a = Vec3::inew(2, 4, 8);
    let b = Vec3::inew(1, 1, 1);
    let mut c = a.sub(b);
    c = c.sub(a);
    assert_eq!(c, Vec3::inew(-1, -1, -1));
}

#[test]
fn vec3_test_index() {
    let a = Vec3::inew(1, 2, 3);
    assert_eq!(a.index(0), fx(1.0));
    assert_eq!(a.index(1), fx(2.0));
    assert_eq!(a.index(2), fx(3.0));
}

#[test]
fn vec3_test_mult_vec3() {
    let a = Vec3::inew(1, 2, 3);
    let b = Vec3::inew(2, 4, 6);
    let c = a.mul(b);
    assert_eq!(c, Vec3::inew(2, 8, 18));
}

#[test]
fn vec3_test_mult_vec3_assign() {
    let mut a = Vec3::inew(1, 2, 3);
    let b = Vec3::inew(2, 4, 6);
    a = a.mul(b);
    assert_eq!(a, Vec3::inew(2, 8, 18));
}

#[test]
fn vec3_test_mult_f64() {
    let a = Vec3::inew(1, 2, 3);
    let b = a.scale(fx(2.0));
    assert_eq!(b, Vec3::inew(2, 4, 6));
}

#[test]
fn test_mult_f64_reverse() {
    let a = Vec3::inew(1, 2, 3);
    let b = a.scale(fx(2.0));
    assert_eq!(b, Vec3::inew(2, 4, 6));
}

#[test]
fn vec3_test_mult_f64_assign() {
    let mut a = Vec3::inew(1, 2, 3);
    a = a.scale(fx(2.0));
    assert_eq!(a, Vec3::inew(2, 4, 6));
}

#[test]
fn vec3_test_div() {
    let a = Vec3::inew(2, 4, 8);
    let b = a.div(fx(2.0));
    assert_eq!(b, Vec3::inew(1, 2, 4));
}

#[test]
fn vec3_test_div_assign() {
    let mut a = Vec3::inew(2, 4, 8);
    a = a.div(fx(2.0));
    assert_eq!(a, Vec3::inew(1, 2, 4));
}

#[test]
fn vec3_test_length_squared() {
    let a = Vec3::inew(1, 2, 3);
    assert_eq!(a.length_squared(), fx(14.0));
}

#[test]
fn vec3_test_length() {
    let a = Vec3::inew(2, 2, 2);
    assert_close(a.length(), 3.464, 66);
}

#[test]
fn test_dot() {
    let a = Vec3::inew(1, 2, 3);
    let b = Vec3::inew(2, 4, 6);
    let result = a.dot(&b);
    assert_eq!(result, fx(28.0));
}

#[test]
fn test_cross() {
    let a = Vec3::inew(1, 3, 6);
    let b = Vec3::inew(2, 4, 6);
    let result = a.cross(&b);
    assert_eq!(result, Vec3::inew(-6, 6, -2));
}

#[test]
fn test_unit() {
    let a = Vec3::inew(2, 4, 6);
    let result = a.unit();
    assert_close(result.x, 0.2672612, 2);
    assert_close(result.y, 0.5345224, 2);
    assert_close(result.z, 0.8017837, 2);
}

// The length of a normalized vector is one, to within the resolution of
// the arithmetic.
#[test]
fn test_unit_length_one() {
    let vectors = [
        Vec3::inew(2, 4, 6),
        Vec3::inew(1, 0, 0),
        Vec3::inew(-3, 5, -7),
        Vec3::new(fx(0.25), fx(-0.125), fx(1.5)),
    ];
    for v in vectors {
        let u = v.unit();
        assert_close(u.length_squared(), 1.0, 2048);
        assert_close(u.length(), 1.0, 1024);
    }
}

// Normalizing an exactly-unit vector is exact.
#[test]
fn test_unit_of_unit_exact() {
    let v = Vec3::new(fx(0.0), fx(0.0), fx(1.0));
    assert_eq!(v.unit(), v);
    assert_eq!(v.unit().length_squared(), fx(1.0));
}

#[test]
fn test_near_zero() {
    let a = Vec3::new(fx(0.000000003), fx(0.0000000000000921), fx(0.0000000000000000375));
    assert_eq!(a.near_zero(), true);
}

#[test]
fn test_reflect_parallel() {
    // flip: v is parallel to n, so the entire vector is reversed
    let v = Vec3::inew(2, 0, 0);
    let n = Vec3::inew(-1, 0, 0);
    assert_eq!(v.reflect(&n), Vec3::inew(-2, 0, 0));

    let v = Vec3::inew(2, 0, 0);
    let n = Vec3::inew(1, 0, 0);
    assert_eq!(v.reflect(&n), Vec3::inew(-2, 0, 0));
}

#[test]
fn test_reflect_perpendicular() {
    // no change: there is no component of v along n to flip
    let v = Vec3::inew(0, 2, 0);
    let n = Vec3::inew(-1, 0, 0);
    assert_eq!(v.reflect(&n), Vec3::inew(0, 2, 0));

    let v = Vec3::inew(0, 2, 0);
    let n = Vec3::inew(1, 0, 0);
    assert_eq!(v.reflect(&n), Vec3::inew(0, 2, 0));
}

#[test]
fn test_reflect_angled() {
    let v = Vec3::inew(1, 2, 3);
    let n = Vec3::inew(0, 1, 0);
    assert_eq!(v.reflect(&n), Vec3::inew(1, -2, 3));

    let v = Vec3::inew(1, 2, 3);
    let n = Vec3::inew(0, -1, 0);
    assert_eq!(v.reflect(&n), Vec3::inew(1, -2, 3));
}

#[test]
fn test_refract_normal_incidence() {
    // the ray is perpendicular to the surface: the refracted ray equals
    // the incident ray, whatever the refraction index
    let uv = Vec3::new(fx(0.0), fx(-1.0), fx(0.0));
    let normal = Vec3::new(fx(0.0), fx(1.0), fx(0.0));
    let refraction_index = fx(1.5);
    let result = uv.refract(&normal, refraction_index);
    let expected = Vec3::new(fx(0.0), fx(-1.0), fx(0.0));
    assert_eq!(result, expected);
}

// Refraction with index one at normal incidence is exactly the identity.
#[test]
fn test_refract_index_one_identity() {
    let uv = Vec3::new(fx(0.0), fx(-1.0), fx(0.0));
    let normal = Vec3::new(fx(0.0), fx(1.0), fx(0.0));
    let result = uv.refract(&normal, fx(1.0));
    assert_eq!(result, uv);
}

#[test]
fn test_refract_no_refraction() {
    // refraction index one: the direction comes back unchanged, to within
    // the resolution of the arithmetic
    let uv = Vec3::new(fx(1.0), fx(-1.0), fx(0.0)).unit();
    let normal = Vec3::new(fx(0.0), fx(1.0), fx(0.0));
    let result = uv.refract(&normal, fx(1.0));
    assert_close(result.x, uv.x.raw as f64 / 65536.0, 8);
    assert_close(result.y, uv.y.raw as f64 / 65536.0, 8);
    assert_close(result.z, uv.z.raw as f64 / 65536.0, 8);
}

#[test]
fn test_refract_with_total_internal_reflection() {
    // higher refraction index: the computed perpendicular component
    // exceeds one, shrinking the parallel part
    let uv = Vec3::new(fx(1.0), fx(-1.0), fx(0.0)).unit();
    let normal = Vec3::new(fx(0.0), fx(1.0), fx(0.0));
    let result = uv.refract(&normal, fx(1.5));
    assert_close(result.x, 1.06066, 16);
    assert_close(result.y, -0.35355, 16);
    assert_close(result.z, 0.0, 16);
}
