//! Linear radiance triples and their encoding into 8-bit channels.
//!
//! A channel is gamma-corrected (square root, for gamma 2), clamped to just
//! below one, and scaled by 256, truncating to an integer in `[0, 255]`.

use crate::fixed::{fx_sqrt_v, Fx, FX_SCALE};
use crate::interval::Interval;
use crate::text::{dec_str_v, format_u64};
use crate::vec3::{Vec3, Vec3i};
use vstd::prelude::*;
use vstd::string::StringExecFns;

verus! {

/// Largest encoded channel value.
pub const COLOR_MAX_VALUE: u32 = 255;

/// Gamma-2 correction of a linear channel.
pub open spec fn gamma_v(c: int) -> int {
    if c > 0 {
        fx_sqrt_v(c)
    } else {
        0
    }
}

/// Clamp a corrected channel to `[0, 1)` (the largest value below one).
pub open spec fn intensity_clamp_v(c: int) -> int {
    if c < 0 {
        0
    } else if c > (FX_SCALE - 1) as int {
        (FX_SCALE - 1) as int
    } else {
        c
    }
}

/// The encoded byte of a linear channel.
pub open spec fn channel_byte_v(c: int) -> int {
    (256 * intensity_clamp_v(gamma_v(c))) / (FX_SCALE as int)
}

/// A color: linear radiance per channel, nominally in `[0, 1]`.
#[derive(Clone, Copy, Debug, PartialEq, Eq, Structural)]
pub struct Color(pub Vec3);

impl View for Color {
    type V = Vec3i;

    open spec fn view(&self) -> Vec3i {
        self.0@
    }
}

/// Gamma-correct one linear channel.
fn linear_to_gamma(c: Fx) -> (r: Fx)
    ensures
        r@ == gamma_v(c@),
        r@ >= 0,
{
    let zero = Fx::zero();
    if zero.lt(c) {
        proof {
            crate::fixed::lemma_sqrt_floor_bounds(c@ * (FX_SCALE as int));
        }
        c.sqrt()
    } else {
        zero
    }
}

impl Color {
    pub fn new(rf: Fx, gf: Fx, bf: Fx) -> (r: Color)
        ensures
            r@ == (Vec3i { x: rf@, y: gf@, z: bf@ }),
    {
        Color(Vec3::new(rf, gf, bf))
    }

    /// The color's channels as a displacement vector.
    pub fn vec(&self) -> (r: Vec3)
        ensures
            r@ == self@,
    {
        self.0
    }

    pub fn from_vec(v: Vec3) -> (r: Color)
        ensures
            r@ == v@,
    {
        Color(v)
    }

    pub fn black() -> (r: Color)
        ensures
            r@ == (Vec3i { x: 0, y: 0, z: 0 }),
    {
        let zero = Fx::zero();
        Color(Vec3::new(zero, zero, zero))
    }

    /// Encode the three channels as bytes: gamma correction, the clamp to
    /// just below one, and the scale by 256.
    pub fn channels(&self) -> (r: (u32, u32, u32))
        ensures
            r.0 as int == channel_byte_v(self@.x),
            r.1 as int == channel_byte_v(self@.y),
            r.2 as int == channel_byte_v(self@.z),
            r.0 <= COLOR_MAX_VALUE,
            r.1 <= COLOR_MAX_VALUE,
            r.2 <= COLOR_MAX_VALUE,
    {
        (channel_byte(self.0.x()), channel_byte(self.0.y()), channel_byte(self.0.z()))
    }
}

/// The encoded channels as one line of text: `r g b`.
pub open spec fn color_text_v(c: Vec3i) -> Seq<char> {
    dec_str_v(channel_byte_v(c.x) as nat) + " "@ + dec_str_v(channel_byte_v(c.y) as nat) + " "@
        + dec_str_v(channel_byte_v(c.z) as nat)
}

impl Color {
    /// Render the encoded channels as `r g b`.
    pub fn to_text(&self) -> (r: String)
        ensures
            r@ == color_text_v(self@),
    {
        let (cr, cg, cb) = self.channels();
        let mut s = format_u64(cr as u64);
        s.append(" ");
        s.append(format_u64(cg as u64).as_str());
        s.append(" ");
        s.append(format_u64(cb as u64).as_str());
        s
    }
}

/// Encode one linear channel as a byte.
fn channel_byte(c: Fx) -> (r: u32)
    ensures
        r as int == channel_byte_v(c@),
        r <= COLOR_MAX_VALUE,
{
    let g = linear_to_gamma(c);
    let intensity = Interval::new(Fx::zero(), Fx::from_raw(FX_SCALE - 1));
    let clamped = intensity.clamp(g);
    (((clamped.raw as u64) * 256) / (FX_SCALE as u64)) as u32
}

} // verus!
