use ray_tracer::fixed::{Fx, FX_MAX_RAW, FX_SCALE};
use ray_tracer::sampler::{random_unit, random_unit_disk, random_unit_normal_direction, Sampler};
use ray_tracer::vec3::Vec3;

/// The fixed-point value nearest to `x`.
fn fx(x: f64) -> Fx {
    Fx::from_raw((x * 65536.0).round() as i64)
}

#[test]
fn test_fx_arithmetic_exact() {
    assert_eq!(Fx::from_int(3).mul(Fx::from_int(4)), fx(12.0));
    assert_eq!(fx(1.5).add(fx(2.25)), fx(3.75));
    assert_eq!(fx(1.5).sub(fx(2.0)), fx(-0.5));
    assert_eq!(fx(-3.0).mul(fx(0.5)), fx(-1.5));
    assert_eq!(fx(7.0).div(fx(2.0)), fx(3.5));
    assert_eq!(fx(1.0).neg(), fx(-1.0));
    assert_eq!(fx(-2.5).abs(), fx(2.5));
}

#[test]
fn test_fx_mul_truncates_toward_zero() {
    // 3 units times 3 units is 9 / 65536, which truncates to zero
    let tiny = Fx::from_raw(3);
    assert_eq!(tiny.mul(tiny), Fx::from_raw(0));
    let neg = Fx::from_raw(-3);
    assert_eq!(neg.mul(tiny), Fx::from_raw(0));
}

#[test]
fn test_fx_sqrt() {
    assert_eq!(fx(4.0).sqrt(), fx(2.0));
    assert_eq!(fx(1.0).sqrt(), fx(1.0));
    assert_eq!(fx(0.25).sqrt(), fx(0.5));
    // sqrt(2) = 1.41421..., truncated at the resolution
    assert_eq!(fx(2.0).sqrt(), Fx::from_raw(92681));
}

#[test]
fn test_fx_saturates() {
    let top = Fx::from_raw(FX_MAX_RAW);
    assert_eq!(top.add(fx(1.0)), top);
    assert_eq!(top.mul(fx(2.0)), top);
    assert_eq!(top.neg().sub(fx(1.0)), Fx::from_raw(-FX_MAX_RAW));
    // even the unrepresentable most-negative raw value negates safely
    assert_eq!(Fx::from_raw(i64::MIN).neg(), top);
}

#[test]
fn test_fx_comparisons() {
    assert!(fx(1.0).lt(fx(1.5)));
    assert!(fx(1.5).le(fx(1.5)));
    assert!(fx(-0.5).is_neg());
    assert_eq!(fx(2.0).min(fx(3.0)), fx(2.0));
    assert_eq!(fx(2.0).max(fx(3.0)), fx(3.0));
    assert_eq!(fx(3.75).floor_usize(), 3);
}

#[test]
fn test_sampler_deterministic() {
    let mut a = Sampler::new(123);
    let mut b = Sampler::new(123);
    for _ in 0..32 {
        assert_eq!(a.next_u64(), b.next_u64());
    }
    let mut c = Sampler::for_pixel(9, 4);
    let mut d = Sampler::for_pixel(9, 4);
    assert_eq!(c.next_u64(), d.next_u64());
}

#[test]
fn test_sampler_ranges() {
    let mut s = Sampler::new(77);
    for _ in 0..256 {
        let u = s.next_unit();
        assert!(0 <= u.raw && u.raw < FX_SCALE);
        let v = s.next_symmetric();
        assert!(-FX_SCALE <= v.raw && v.raw < FX_SCALE);
    }
}

#[test]
fn test_random_unit_has_unit_length() {
    for seed in 0..16u64 {
        let mut s = Sampler::new(seed);
        let u = random_unit(&mut s);
        let len_sq = u.length_squared();
        assert!(
            (len_sq.raw - FX_SCALE).abs() <= 2048,
            "squared length {} raw for seed {}",
            len_sq.raw,
            seed
        );
    }
}

#[test]
fn test_random_unit_disk_flat() {
    for seed in 0..16u64 {
        let mut s = Sampler::new(seed);
        let p = random_unit_disk(&mut s);
        assert_eq!(p.z, Fx::from_raw(0));
        assert!(p.length_squared().raw <= FX_SCALE + 2048);
    }
}

#[test]
fn test_random_unit_normal_hemisphere() {
    let normal = Vec3::new(fx(0.0), fx(0.0), fx(1.0));
    for seed in 0..16u64 {
        let mut s = Sampler::new(seed);
        let u = random_unit_normal_direction(&normal, &mut s);
        assert!(u.dot(&normal).raw >= 0, "direction flipped into the surface");
    }
}

#[test]
fn test_vec3_random_in_unit_cube() {
    for seed in 0..8u64 {
        let mut s = Sampler::new(seed);
        let v = Vec3::random(&mut s);
        for c in [v.x, v.y, v.z] {
            assert!(0 <= c.raw && c.raw < FX_SCALE);
        }
    }
}

#[test]
fn test_vec3_random_range_bounds() {
    let min = fx(-2.0);
    let max = fx(3.0);
    for seed in 0..8u64 {
        let mut s = Sampler::new(seed);
        let v = Vec3::random_range(min, max, &mut s);
        for c in [v.x, v.y, v.z] {
            assert!(min.raw <= c.raw && c.raw < max.raw);
        }
    }
}
