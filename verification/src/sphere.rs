//! Spheres: the one analytic primitive, with closed-form ray intersection.

use crate::fixed::{
    fx_add_v, fx_div_v, fx_mul_v, fx_sub_v, Fx, FX_SCALE,
};
use crate::hittable::{hit_opt_view, set_face_normal_v, HitRecord, HitRi, Hittable};
use crate::interval::Interval;
use crate::material::Type;
use crate::point3::Point3;
use crate::ray::{ray_at_v, Ray, Rayi};
use crate::vec3::{v3_div_v, v3_dot_v, v3_len_sq_v, v3_sub_v, Vec3i};
use vstd::prelude::*;

verus! {

/// Ghost image of a sphere.
pub ghost struct SphereI {
    pub center: Vec3i,
    pub radius: int,
    pub material: Type,
    pub collision: bool,
}

/// Closed-form ray-sphere intersection. With `oc = C - O`, `a = D . D`,
/// `h = D . oc` and `c = oc . oc - r^2`, a non-negative discriminant
/// `h^2 - a c` admits the roots `(h -/+ sqrt(disc)) / a`; the smaller root
/// wins when it lies strictly inside `(t_min, t_max)`, else the larger one
/// is tried. A degenerate ray (`a == 0`) or a zero-radius sphere admits no
/// hit: both would otherwise divide by zero.
pub open spec fn sphere_hit_v(
    s: SphereI,
    ray: Rayi,
    t_min: int,
    t_max: int,
) -> Option<HitRi> {
    let oc = v3_sub_v(s.center, ray.orig);
    let a = v3_len_sq_v(ray.dir);
    let h = v3_dot_v(ray.dir, oc);
    let c = fx_sub_v(v3_len_sq_v(oc), fx_mul_v(s.radius, s.radius));
    let disc = fx_sub_v(fx_mul_v(h, h), fx_mul_v(a, c));
    if disc < 0 || a == 0 || s.radius == 0 {
        None
    } else {
        let sqrtd = crate::fixed::fx_sqrt_v(disc);
        let near = fx_div_v(fx_sub_v(h, sqrtd), a);
        let root = if t_min < near && near < t_max {
            near
        } else {
            fx_div_v(fx_add_v(h, sqrtd), a)
        };
        if !(t_min < root && root < t_max) {
            None
        } else {
            let p = ray_at_v(ray, root);
            let outward = v3_div_v(v3_sub_v(p, s.center), s.radius);
            Some(
                set_face_normal_v(
                    HitRi {
                        p,
                        normal: outward,
                        t: root,
                        front_face: false,
                        material: s.material,
                    },
                    ray,
                ),
            )
        }
    }
}

/// A reported intersection lies strictly inside the queried interval:
/// intersections exactly at the bounds are excluded, which is what lets a
/// small lower bound serve as the shadow-acne epsilon.
pub proof fn lemma_sphere_hit_in_bounds(s: SphereI, ray: Rayi, t_min: int, t_max: int)
    ensures
        (sphere_hit_v(s, ray, t_min, t_max) matches Some(h) ==> t_min < h.t < t_max),
{
}

/// A sphere: center, non-negative radius, owned material, and the
/// scene-construction `collision` flag.
#[derive(Clone, Copy, Debug)]
pub struct Sphere {
    center: Point3,
    radius: Fx,
    material: Type,
    collision: bool,
}

impl View for Sphere {
    type V = SphereI;

    closed spec fn view(&self) -> SphereI {
        SphereI {
            center: self.center@,
            radius: self.radius@,
            material: self.material,
            collision: self.collision,
        }
    }
}

/// Accumulates sphere parameters; `build` fills in defaults and clamps a
/// negative radius up to zero.
pub struct SphereBuilder {
    pub center: Option<Point3>,
    pub radius: Option<Fx>,
    pub material: Option<Type>,
    pub collision: Option<bool>,
}

impl SphereBuilder {
    /// Finish the sphere: an absent center is the origin, an absent radius
    /// (or a negative one) becomes zero, an absent material absorbs
    /// everything, and `collision` defaults to true.
    pub fn build(&self) -> (r: Sphere)
        ensures
            r@.center == (match self.center {
                Some(p) => p@,
                None => Vec3i { x: 0, y: 0, z: 0 },
            }),
            r@.radius == (match self.radius {
                Some(fx) => if fx@ >= 0 {
                    fx@
                } else {
                    0
                },
                None => 0,
            }),
            r@.material == (match self.material {
                Some(m) => m,
                None => Type::Empty,
            }),
            r@.collision == (match self.collision {
                Some(b) => b,
                None => true,
            }),
    {
        let zero = Fx::zero();
        let center = match self.center {
            Some(p) => p,
            None => Point3::new(zero, zero, zero),
        };
        let radius = match self.radius {
            Some(fx) => fx.max(zero),
            None => zero,
        };
        let material = match self.material {
            Some(m) => m,
            None => Type::empty(),
        };
        let collision = match self.collision {
            Some(b) => b,
            None => true,
        };
        Sphere { center, radius, material, collision }
    }

    pub fn center(self, x: Fx, y: Fx, z: Fx) -> (r: SphereBuilder)
        ensures
            (r.center matches Some(p) && p@ == (Vec3i { x: x@, y: y@, z: z@ })),
            r.radius == self.radius,
            r.material == self.material,
            r.collision == self.collision,
    {
        SphereBuilder { center: Some(Point3::new(x, y, z)), ..self }
    }

    pub fn radius(self, radius: Fx) -> (r: SphereBuilder)
        ensures
            r.radius == Some(radius),
            r.center == self.center,
            r.material == self.material,
            r.collision == self.collision,
    {
        SphereBuilder { radius: Some(radius), ..self }
    }

    pub fn material(self, material: Type) -> (r: SphereBuilder)
        ensures
            r.material == Some(material),
            r.center == self.center,
            r.radius == self.radius,
            r.collision == self.collision,
    {
        SphereBuilder { material: Some(material), ..self }
    }

    pub fn collision(self, collision: bool) -> (r: SphereBuilder)
        ensures
            r.collision == Some(collision),
            r.center == self.center,
            r.radius == self.radius,
            r.material == self.material,
    {
        SphereBuilder { collision: Some(collision), ..self }
    }
}

impl Default for Sphere {
    fn default() -> (r: Sphere)
        ensures
            r@.center == (Vec3i { x: 0, y: 0, z: 0 }),
            r@.radius == 0,
            r@.material == Type::Empty,
            !r@.collision,
    {
        Sphere {
            center: Point3::default(),
            radius: Fx::zero(),
            material: Type::Empty,
            collision: false,
        }
    }
}

impl Sphere {
    pub fn builder() -> (r: SphereBuilder)
        ensures
            r.center is None,
            r.radius is None,
            r.material is None,
            r.collision is None,
    {
        SphereBuilder { center: None, radius: None, material: None, collision: None }
    }

    pub fn center(&self) -> (r: Point3)
        ensures
            r@ == self@.center,
    {
        self.center
    }

    pub fn radius(&self) -> (r: Fx)
        ensures
            r@ == self@.radius,
    {
        self.radius
    }

    pub fn material(&self) -> (r: Type)
        ensures
            r == self@.material,
    {
        self.material
    }

    pub fn collision(&self) -> (r: bool)
        ensures
            r == self@.collision,
    {
        self.collision
    }
}

impl Hittable for Sphere {
    open spec fn hit_v(&self, ray: Rayi, t_min: int, t_max: int) -> Option<HitRi> {
        sphere_hit_v(self@, ray, t_min, t_max)
    }

    fn hit(&self, ray: &Ray, t_min: Fx, t_max: Fx) -> (r: Option<HitRecord>)
        ensures
            hit_opt_view(r) == self.hit_v(ray@, t_min@, t_max@),
    {
        let t_interval = Interval::new(t_min, t_max);
        let oc = self.center.vec().sub(ray.origin().vec());
        let a = ray.direction().length_squared();
        let h = ray.direction().dot(&oc);
        let c = oc.length_squared().sub(self.radius.mul(self.radius));
        let discriminant = h.mul(h).sub(a.mul(c));

        if discriminant.is_neg() || a.raw == 0 || self.radius.raw == 0 {
            return None;
        }

        proof {
            crate::fixed::lemma_sqrt_floor_bounds(discriminant@ * (FX_SCALE as int));
        }
        let sqrtd = discriminant.sqrt();

        let mut root = h.sub(sqrtd).div(a);
        if !t_interval.surrounds(root) {
            root = h.add(sqrtd).div(a);
            if !t_interval.surrounds(root) {
                return None;
            }
        }

        let p = ray.at(root);
        let normal = p.vec().sub(self.center.vec()).div(self.radius);

        let mut hit_record = HitRecord {
            t: root,
            p,
            normal,
            front_face: false,
            material: self.material,
        };
        hit_record.set_face_normal(ray);

        Some(hit_record)
    }
}

} // verus!
