//! Rays: an origin and a direction, with parametric point evaluation.

use crate::fixed::Fx;
use crate::point3::Point3;
use crate::vec3::{v3_add_v, v3_scale_v, Vec3, Vec3i};
use vstd::prelude::*;

verus! {

/// Ghost image of a ray.
pub ghost struct Rayi {
    pub orig: Vec3i,
    pub dir: Vec3i,
}

/// The point a ray reaches at parameter `t`: `origin + t * direction`.
pub open spec fn ray_at_v(r: Rayi, t: int) -> Vec3i {
    v3_add_v(r.orig, v3_scale_v(r.dir, t))
}

/// A ray with an origin and a (not necessarily unit) direction.
#[derive(Clone, Copy, Debug, PartialEq, Eq, Structural)]
pub struct Ray {
    origin: Point3,
    direction: Vec3,
}

impl View for Ray {
    type V = Rayi;

    closed spec fn view(&self) -> Rayi {
        Rayi { orig: self.origin@, dir: self.direction@ }
    }
}

impl Ray {
    pub fn new(origin: Point3, direction: Vec3) -> (r: Ray)
        ensures
            r@ == (Rayi { orig: origin@, dir: direction@ }),
    {
        Ray { origin, direction }
    }

    pub fn origin(&self) -> (r: Point3)
        ensures
            r@ == self@.orig,
    {
        self.origin
    }

    pub fn direction(&self) -> (r: Vec3)
        ensures
            r@ == self@.dir,
    {
        self.direction
    }

    /// The point reached at parameter `t`.
    pub fn at(&self, t: Fx) -> (r: Point3)
        ensures
            r@ == ray_at_v(self@, t@),
    {
        Point3::from_vec(self.origin.vec().add(self.direction.scale(t)))
    }
}

} // verus!
