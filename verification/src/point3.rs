//! World-space positions: the vector algebra under a role-specific name.

use crate::text::{fx_text_v, fx_to_text};
use crate::vec3::{Vec3, Vec3i};
use vstd::prelude::*;
use vstd::string::StringExecFns;

verus! {

/// A position as text: `(x, y, z)`.
pub open spec fn point_text_v(p: Vec3i) -> Seq<char> {
    "("@ + fx_text_v(p.x) + ", "@ + fx_text_v(p.y) + ", "@ + fx_text_v(p.z) + ")"@
}

/// A position in world space.
#[derive(Clone, Copy, Debug, PartialEq, Eq, Structural)]
pub struct Point3(pub Vec3);

impl View for Point3 {
    type V = Vec3i;

    open spec fn view(&self) -> Vec3i {
        self.0@
    }
}

impl Default for Point3 {
    fn default() -> (r: Point3)
        ensures
            r@ == (Vec3i { x: 0, y: 0, z: 0 }),
    {
        Point3(Vec3::default())
    }
}

impl Point3 {
    pub fn new(x: crate::fixed::Fx, y: crate::fixed::Fx, z: crate::fixed::Fx) -> (r: Point3)
        ensures
            r@ == (Vec3i { x: x@, y: y@, z: z@ }),
    {
        Point3(Vec3::new(x, y, z))
    }

    /// A position with integer-valued components.
    pub fn inew(x: i32, y: i32, z: i32) -> (r: Point3)
        ensures
            r@ == (Vec3i {
                x: (x as int) * (crate::fixed::FX_SCALE as int),
                y: (y as int) * (crate::fixed::FX_SCALE as int),
                z: (z as int) * (crate::fixed::FX_SCALE as int),
            }),
    {
        Point3(Vec3::inew(x, y, z))
    }

    /// The position as a displacement from the origin.
    pub fn vec(&self) -> (r: Vec3)
        ensures
            r@ == self@,
    {
        self.0
    }

    pub fn from_vec(v: Vec3) -> (r: Point3)
        ensures
            r@ == v@,
    {
        Point3(v)
    }

    /// Render the position as `(x, y, z)`.
    pub fn to_text(&self) -> (r: String)
        ensures
            r@ == point_text_v(self@),
    {
        let mut s = String::from_str("(");
        s.append(fx_to_text(self.0.x()).as_str());
        s.append(", ");
        s.append(fx_to_text(self.0.y()).as_str());
        s.append(", ");
        s.append(fx_to_text(self.0.z()).as_str());
        s.append(")");
        s
    }
}

} // verus!
