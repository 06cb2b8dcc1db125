//! Closed numeric ranges over fixed-point scalars, used to bound valid ray
//! parameters and to clamp color channels before encoding.

use crate::fixed::{fx_sub_v, Fx, FX_MAX_RAW};
use vstd::prelude::*;

verus! {

/// The closed range `[min, max]`. The saturation bound `FX_MAX_RAW` plays
/// the role of infinity: no representable value lies beyond it.
#[derive(Clone, Copy, Debug, PartialEq, Eq, Structural)]
pub struct Interval {
    min: Fx,
    max: Fx,
}

impl View for Interval {
    type V = (int, int);

    closed spec fn view(&self) -> (int, int) {
        (self.min@, self.max@)
    }
}

impl Interval {
    pub fn new(min: Fx, max: Fx) -> (r: Interval)
        ensures
            r@ == (min@, max@),
    {
        Interval { min, max }
    }

    /// The range that contains nothing.
    pub fn empty() -> (r: Interval)
        ensures
            r@ == (FX_MAX_RAW as int, -(FX_MAX_RAW as int)),
    {
        Interval { min: Fx::from_raw(FX_MAX_RAW), max: Fx::from_raw(-FX_MAX_RAW) }
    }

    /// The range that contains every representable value.
    pub fn universe() -> (r: Interval)
        ensures
            r@ == (-(FX_MAX_RAW as int), FX_MAX_RAW as int),
    {
        Interval { min: Fx::from_raw(-FX_MAX_RAW), max: Fx::from_raw(FX_MAX_RAW) }
    }

    pub fn min(&self) -> (r: Fx)
        ensures
            r@ == self@.0,
    {
        self.min
    }

    pub fn max(&self) -> (r: Fx)
        ensures
            r@ == self@.1,
    {
        self.max
    }

    pub fn size(&self) -> (r: Fx)
        ensures
            r@ == fx_sub_v(self@.1, self@.0),
    {
        self.max.sub(self.min)
    }

    /// Whether `x` lies in the closed range.
    pub fn contains(&self, x: Fx) -> (r: bool)
        ensures
            r == (self@.0 <= x@ && x@ <= self@.1),
    {
        self.min.le(x) && x.le(self.max)
    }

    /// Whether `x` lies strictly inside the range.
    pub fn surrounds(&self, x: Fx) -> (r: bool)
        ensures
            r == (self@.0 < x@ && x@ < self@.1),
    {
        self.min.lt(x) && x.lt(self.max)
    }

    /// `x` forced into the closed range.
    pub fn clamp(&self, x: Fx) -> (r: Fx)
        ensures
            r@ == (if x@ < self@.0 {
                self@.0
            } else if x@ > self@.1 {
                self@.1
            } else {
                x@
            }),
    {
        if x.lt(self.min) {
            self.min
        } else if self.max.lt(x) {
            self.max
        } else {
            x
        }
    }
}

} // verus!
