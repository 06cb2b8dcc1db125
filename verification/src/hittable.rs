//! The intersection protocol: hit records, the `Hittable` capability, and
//! the scene aggregate that scans all objects for the nearest hit.

use crate::fixed::Fx;
use crate::interval::Interval;
use crate::material::Type;
use crate::point3::Point3;
use crate::ray::{Ray, Rayi};
use crate::sphere::Sphere;
use crate::vec3::{v3_dot_v, v3_neg_v, Vec3, Vec3i};
use vstd::prelude::*;

verus! {

/// Ghost image of a hit record.
pub ghost struct HitRi {
    pub p: Vec3i,
    pub normal: Vec3i,
    pub t: int,
    pub front_face: bool,
    pub material: Type,
}

/// Orient a record's normal against the incoming ray: the stored normal is
/// flipped when the ray arrives from inside, and `front_face` records which
/// side was hit.
pub open spec fn set_face_normal_v(h: HitRi, ray: Rayi) -> HitRi {
    let front = v3_dot_v(ray.dir, h.normal) < 0;
    HitRi {
        p: h.p,
        normal: if front {
            h.normal
        } else {
            v3_neg_v(h.normal)
        },
        t: h.t,
        front_face: front,
        material: h.material,
    }
}

/// One intersection: hit point, oriented unit normal, ray parameter, and
/// the hit object's material. Transient: produced per intersection query.
#[derive(Clone, Copy, Debug)]
pub struct HitRecord {
    pub p: Point3,
    pub normal: Vec3,
    pub t: Fx,
    pub front_face: bool,
    pub material: Type,
}

impl View for HitRecord {
    type V = HitRi;

    open spec fn view(&self) -> HitRi {
        HitRi {
            p: self.p@,
            normal: self.normal@,
            t: self.t@,
            front_face: self.front_face,
            material: self.material,
        }
    }
}

/// The image of an optional hit record.
pub open spec fn hit_opt_view(r: Option<HitRecord>) -> Option<HitRi> {
    match r {
        Some(h) => Some(h@),
        None => None,
    }
}

impl HitRecord {
    /// Orient the stored normal against the incoming ray; the normal is
    /// assumed to have unit length.
    pub fn set_face_normal(&mut self, ray: &Ray)
        ensures
            final(self)@ == set_face_normal_v(old(self)@, ray@),
    {
        self.front_face = ray.direction().dot(&self.normal).is_neg();
        if !self.front_face {
            self.normal = self.normal.neg();
        }
    }
}

/// Anything a ray can be tested against for intersection. `hit_v` is the
/// implementor's own statement of what `hit` returns; `hit` is held to it.
pub trait Hittable {
    /// The nearest intersection with parameter strictly inside
    /// `(t_min, t_max)`, or nothing.
    spec fn hit_v(&self, ray: Rayi, t_min: int, t_max: int) -> Option<HitRi>;

    fn hit(&self, ray: &Ray, t_min: Fx, t_max: Fx) -> (r: Option<HitRecord>)
        ensures
            hit_opt_view(r) == self.hit_v(ray@, t_min@, t_max@),
    ;
}

/// The hit the first `n` objects of a scene agree on: each object is tested
/// against the interval narrowed to the closest hit found so far, so a later
/// object wins an exact tie.
pub open spec fn list_hit_upto(
    objects: Seq<Sphere>,
    ray: Rayi,
    t_min: int,
    t_max: int,
    n: int,
) -> Option<HitRi>
    decreases n,
{
    if n <= 0 {
        None
    } else {
        let prev = list_hit_upto(objects, ray, t_min, t_max, n - 1);
        let closest = match prev {
            Some(h) => h.t,
            None => t_max,
        };
        match objects[n - 1].hit_v(ray, t_min, closest) {
            Some(h) => Some(h),
            None => prev,
        }
    }
}

/// What the scene scan reports also lies strictly inside the queried
/// interval: narrowing the far bound to the closest hit so far only ever
/// shrinks it, so the final winner respects the original bounds.
pub proof fn lemma_list_hit_in_bounds(
    objects: Seq<Sphere>,
    ray: Rayi,
    t_min: int,
    t_max: int,
    n: int,
)
    ensures
        (list_hit_upto(objects, ray, t_min, t_max, n) matches Some(h) ==> t_min < h.t < t_max),
    decreases n,
{
    if n > 0 {
        lemma_list_hit_in_bounds(objects, ray, t_min, t_max, n - 1);
        let prev = list_hit_upto(objects, ray, t_min, t_max, n - 1);
        let closest = match prev {
            Some(h) => h.t,
            None => t_max,
        };
        crate::sphere::lemma_sphere_hit_in_bounds(objects[n - 1]@, ray, t_min, closest);
    }
}

/// The scene: an insertion-ordered collection of objects, scanned linearly.
pub struct HittableList {
    pub objects: Vec<Sphere>,
}

impl View for HittableList {
    type V = Seq<Sphere>;

    open spec fn view(&self) -> Seq<Sphere> {
        self.objects@
    }
}

impl HittableList {
    pub fn new() -> (r: HittableList)
        ensures
            r@ == Seq::<Sphere>::empty(),
    {
        HittableList { objects: Vec::new() }
    }

    pub fn clear(&mut self)
        ensures
            final(self)@ == Seq::<Sphere>::empty(),
    {
        self.objects.clear();
    }

    pub fn add(&mut self, object: Sphere)
        ensures
            final(self)@ == old(self)@.push(object),
    {
        self.objects.push(object);
    }

    pub fn objects(&self) -> (r: &Vec<Sphere>)
        ensures
            r@ == self@,
    {
        &self.objects
    }
}

impl Hittable for HittableList {
    open spec fn hit_v(&self, ray: Rayi, t_min: int, t_max: int) -> Option<HitRi> {
        list_hit_upto(self@, ray, t_min, t_max, self@.len() as int)
    }

    /// Scan every object, narrowing the far bound to the closest hit so
    /// far, and report the globally closest intersection.
    fn hit(&self, ray: &Ray, t_min: Fx, t_max: Fx) -> (r: Option<HitRecord>)
        ensures
            hit_opt_view(r) == self.hit_v(ray@, t_min@, t_max@),
    {
        let t_interval = Interval::new(t_min, t_max);
        let mut closest_so_far = t_interval.max();
        let mut hit_record: Option<HitRecord> = None;
        let n = self.objects.len();
        let mut i: usize = 0;
        while i < n
            invariant
                n == self.objects@.len(),
                i <= n,
                hit_opt_view(hit_record) == list_hit_upto(self@, ray@, t_min@, t_max@, i as int),
                closest_so_far@ == (match list_hit_upto(self@, ray@, t_min@, t_max@, i as int) {
                    Some(h) => h.t,
                    None => t_max@,
                }),
            decreases n - i,
        {
            if let Some(hit) = self.objects[i].hit(ray, t_min, closest_so_far) {
                closest_so_far = hit.t;
                hit_record = Some(hit);
            }
            i = i + 1;
        }
        hit_record
    }
}

} // verus!
