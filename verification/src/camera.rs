//! The camera: fully-resolved render configuration, pixel-to-ray sampling
//! (with depth of field), the recursive color integrator, and the render
//! loop that fills the pixel buffer, in parallel across all pixels.
//!
//! A rendered pixel is a pure function of the camera, the scene and the
//! render seed: every sampling step threads its sampler state through a
//! spec-level mirror, down to `pixel_color_v`.

use crate::color::Color;
use crate::fixed::{
    fx_add_v, fx_clip, fx_div_v, fx_mul_v, fx_sub_v, Fx, FX_MAX_RAW, FX_SCALE,
};
use crate::hittable::{list_hit_upto, Hittable, HittableList};
use crate::material::scatter_v;
use crate::point3::Point3;
use crate::ray::{Ray, Rayi};
use crate::sampler::{random_unit_disk, random_unit_disk_rec, rng_mix, rng_next, unit_of, Sampler, SAMPLE_FUEL};
use crate::sphere::Sphere;
use crate::vec3::{
    v3_add_v, v3_cross_v, v3_div_v, v3_len_sq_v, v3_mul_v, v3_near_zero_v, v3_neg_v, v3_scale_v,
    v3_sub_v, v3_unit_v, Vec3, Vec3i,
};
use rayon::iter::{IntoParallelIterator, ParallelIterator};
use vstd::prelude::*;

verus! {

/// Raw lower bound on the ray parameter when bouncing: slightly above one
/// thousandth, so a scattered ray cannot re-hit its own origin surface.
pub const SHADOW_ACNE_EPS: i64 = 66;

/// Ghost image of a camera.
pub ghost struct CameraI {
    pub image_width: int,
    pub image_height: int,
    pub samples_per_pixel: int,
    pub pixel_samples_scale: int,
    pub max_depth: int,
    pub center: Vec3i,
    pub pixel_00: Vec3i,
    pub pixel_delta_u: Vec3i,
    pub pixel_delta_v: Vec3i,
    pub defocus_angle: int,
    pub defocus_disk_u: Vec3i,
    pub defocus_disk_v: Vec3i,
}

/// Linear interpolation `(1 - t) * start + t * end`.
pub open spec fn lerp_v(t: int, start: Vec3i, end: Vec3i) -> Vec3i {
    v3_add_v(v3_scale_v(start, fx_sub_v(FX_SCALE as int, t)), v3_scale_v(end, t))
}

/// The sky: a vertical gradient from white to blue by the normalized
/// direction's height. A direction below resolution reads as height zero.
pub open spec fn background_v(ray: Rayi) -> Vec3i {
    let unit_direction = if v3_near_zero_v(ray.dir) {
        Vec3i { x: 0, y: 0, z: 0 }
    } else {
        v3_unit_v(ray.dir)
    };
    let a = fx_mul_v(fx_add_v(unit_direction.y, FX_SCALE as int), (FX_SCALE / 2) as int);
    let white = Vec3i { x: FX_SCALE as int, y: FX_SCALE as int, z: FX_SCALE as int };
    let blue = Vec3i { x: (FX_SCALE / 2) as int, y: 45875, z: FX_SCALE as int };
    lerp_v(a, white, blue)
}

/// The recursive integrator: black once the bounce budget is exhausted;
/// on a miss the sky; on a hit, the material's direct color, or black when
/// it absorbs, or the attenuated color of the scattered ray one bounce
/// deeper.
pub open spec fn ray_color_v(ray: Rayi, objects: Seq<Sphere>, depth: u32, state: u64) -> (
    Vec3i,
    u64,
)
    decreases depth,
{
    if depth == 0 {
        (Vec3i { x: 0, y: 0, z: 0 }, state)
    } else {
        match list_hit_upto(
            objects,
            ray,
            SHADOW_ACNE_EPS as int,
            FX_MAX_RAW as int,
            objects.len() as int,
        ) {
            None => (background_v(ray), state),
            Some(hit) => {
                let (sc, s1) = scatter_v(hit.material, ray, hit, state);
                match sc {
                    None => (Vec3i { x: 0, y: 0, z: 0 }, s1),
                    Some(rec) => match rec.color {
                        Some(c) => (c, s1),
                        None => {
                            let (next, s2) = ray_color_v(rec.ray, objects, (depth - 1) as u32, s1);
                            (v3_mul_v(rec.attenuation, next), s2)
                        },
                    },
                }
            },
        }
    }
}

/// The anti-aliasing jitter: a point in `[-0.5, 0.5)` square on `z == 0`.
pub open spec fn sample_square_v(state: u64) -> (Vec3i, u64) {
    let s1 = rng_next(state);
    let s2 = rng_next(s1);
    (
        Vec3i {
            x: fx_sub_v(unit_of(s1), (FX_SCALE / 2) as int),
            y: fx_sub_v(unit_of(s2), (FX_SCALE / 2) as int),
            z: 0,
        },
        s2,
    )
}

/// A point on the defocus disk around the eye.
pub open spec fn defocus_disk_sample_v(cam: CameraI, state: u64) -> (Vec3i, u64) {
    let (p, s) = random_unit_disk_rec(state, SAMPLE_FUEL as nat);
    (
        v3_add_v(
            v3_add_v(cam.center, v3_scale_v(cam.defocus_disk_u, p.x)),
            v3_scale_v(cam.defocus_disk_v, p.y),
        ),
        s,
    )
}

/// The ray cast for pixel `(x, y)`: from the eye (or a defocus-disk point
/// when the camera has an aperture) toward the jittered pixel sample.
pub open spec fn get_ray_v(cam: CameraI, x: int, y: int, state: u64) -> (Rayi, u64) {
    let (offset, s1) = sample_square_v(state);
    let pixel_sample = v3_add_v(
        v3_add_v(
            cam.pixel_00,
            v3_scale_v(cam.pixel_delta_u, fx_add_v(fx_clip(x * (FX_SCALE as int)), offset.x)),
        ),
        v3_scale_v(cam.pixel_delta_v, fx_add_v(fx_clip(y * (FX_SCALE as int)), offset.y)),
    );
    let (origin, s2) = if cam.defocus_angle <= 0 {
        (cam.center, s1)
    } else {
        defocus_disk_sample_v(cam, s1)
    };
    (Rayi { orig: origin, dir: v3_sub_v(pixel_sample, origin) }, s2)
}

/// Sum of the first `k` samples of pixel `(x, y)`.
pub open spec fn sample_loop_v(
    cam: CameraI,
    objects: Seq<Sphere>,
    x: int,
    y: int,
    state: u64,
    k: nat,
) -> (Vec3i, u64)
    decreases k,
{
    if k == 0 {
        (Vec3i { x: 0, y: 0, z: 0 }, state)
    } else {
        let (acc, s0) = sample_loop_v(cam, objects, x, y, state, (k - 1) as nat);
        let (ray, s1) = get_ray_v(cam, x, y, s0);
        let (col, s2) = ray_color_v(ray, objects, cam.max_depth as u32, s1);
        (v3_add_v(acc, col), s2)
    }
}

/// The finished color of the pixel at `index` (row-major): the mean of
/// `samples_per_pixel` independent samples, each seeded from the render
/// seed and the pixel index.
pub open spec fn pixel_color_v(cam: CameraI, objects: Seq<Sphere>, seed: u64, index: int) -> Vec3i {
    let y = index / cam.image_width;
    let x = index % cam.image_width;
    let state = rng_mix(seed, index as u64);
    let (sum, s) = sample_loop_v(cam, objects, x, y, state, cam.samples_per_pixel as nat);
    v3_scale_v(sum, cam.pixel_samples_scale)
}

/// Unresolved camera configuration; `initialize` derives the render-ready
/// `Camera` from it. Angles are taken pre-resolved as tangents of their
/// half-angles, which is all the viewport geometry consumes.
pub struct CameraBuilder {
    pub aspect_ratio: Fx,
    pub image_height: u32,
    /// Count of random samples for each pixel.
    pub samples_per_pixel: u32,
    /// Maximum number of ray bounces into the scene.
    pub max_depth: u32,
    /// Vertical view angle, as the tangent of half the angle.
    pub vertical_fov: Fx,
    /// Point the camera looks from.
    pub look_from: Point3,
    /// Point the camera looks at.
    pub look_at: Point3,
    /// Camera-relative up direction.
    pub vup: Vec3,
    /// Variation angle of rays through each pixel, as the tangent of half
    /// the angle; zero or below disables the defocus disk.
    pub defocus_angle: Fx,
    /// Distance from `look_from` to the plane of perfect focus.
    pub defocus_focus_distance: Fx,
}

/// The width, in raw units, that the builder's aspect ratio gives.
pub open spec fn builder_width_fx(b: CameraBuilder) -> int {
    fx_mul_v(fx_clip((b.image_height as int) * (FX_SCALE as int)), b.aspect_ratio@)
}

/// What `initialize` needs of its inputs: at least one pixel and one
/// sample, a representable width, and basis vectors that are resolvable
/// (the eye is away from the target, and up is not along the view axis).
pub open spec fn camera_build_ok(b: CameraBuilder) -> bool {
    &&& b.samples_per_pixel >= 1
    &&& b.image_height >= 1
    &&& builder_width_fx(b) >= FX_SCALE as int
    &&& builder_width_fx(b) / (FX_SCALE as int) <= usize::MAX as int
    &&& v3_len_sq_v(v3_sub_v(b.look_from@, b.look_at@)) >= 1
    &&& v3_len_sq_v(
        v3_cross_v(b.vup@, v3_unit_v(v3_sub_v(b.look_from@, b.look_at@))),
    ) >= 1
}

/// The fully-resolved camera `initialize` builds.
pub open spec fn initialize_v(b: CameraBuilder) -> CameraI {
    let ih_fx = fx_clip((b.image_height as int) * (FX_SCALE as int));
    let iw_fx = builder_width_fx(b);
    let scale = fx_div_v(
        FX_SCALE as int,
        fx_clip((b.samples_per_pixel as int) * (FX_SCALE as int)),
    );
    let delta = v3_sub_v(b.look_from@, b.look_at@);
    let viewport_height = fx_mul_v(
        fx_mul_v((2 * FX_SCALE) as int, b.vertical_fov@),
        b.defocus_focus_distance@,
    );
    let real_aspect = fx_div_v(iw_fx, ih_fx);
    let viewport_width = fx_mul_v(viewport_height, real_aspect);
    let w = v3_unit_v(delta);
    let u = v3_unit_v(v3_cross_v(b.vup@, w));
    let v = v3_cross_v(w, u);
    let viewport_u = v3_scale_v(u, viewport_width);
    let viewport_v = v3_scale_v(v3_neg_v(v), viewport_height);
    let pixel_delta_u = v3_div_v(viewport_u, iw_fx);
    let pixel_delta_v = v3_div_v(viewport_v, ih_fx);
    let defocus_radius = fx_mul_v(b.defocus_focus_distance@, b.defocus_angle@);
    let center = b.look_from@;
    let viewport_upper_left = v3_sub_v(
        v3_sub_v(
            v3_sub_v(center, v3_scale_v(w, b.defocus_focus_distance@)),
            v3_div_v(viewport_u, (2 * FX_SCALE) as int),
        ),
        v3_div_v(viewport_v, (2 * FX_SCALE) as int),
    );
    let pixel_00 = v3_add_v(
        viewport_upper_left,
        v3_scale_v(v3_add_v(pixel_delta_u, pixel_delta_v), (FX_SCALE / 2) as int),
    );
    CameraI {
        image_width: iw_fx / (FX_SCALE as int),
        image_height: b.image_height as int,
        samples_per_pixel: b.samples_per_pixel as int,
        pixel_samples_scale: scale,
        max_depth: b.max_depth as int,
        center,
        pixel_00,
        pixel_delta_u,
        pixel_delta_v,
        defocus_angle: b.defocus_angle@,
        defocus_disk_u: v3_scale_v(u, defocus_radius),
        defocus_disk_v: v3_scale_v(v, defocus_radius),
    }
}

impl CameraBuilder {
    /// Defaults: a square viewport 100 pixels high, 10 samples, 10
    /// bounces, a 90-degree field of view (half-angle tangent one) looking
    /// down the negative z axis, and no defocus.
    pub fn new() -> (r: CameraBuilder)
        ensures
            r.aspect_ratio@ == FX_SCALE as int,
            r.image_height == 100,
            r.samples_per_pixel == 10,
            r.max_depth == 10,
            r.vertical_fov@ == FX_SCALE as int,
            r.look_from@ == (Vec3i { x: 0, y: 0, z: 0 }),
            r.look_at@ == (Vec3i { x: 0, y: 0, z: -(FX_SCALE as int) }),
            r.vup@ == (Vec3i { x: 0, y: FX_SCALE as int, z: 0 }),
            r.defocus_angle@ == 0,
            r.defocus_focus_distance@ == 10 * (FX_SCALE as int),
    {
        let zero = Fx::zero();
        let one = Fx::one();
        CameraBuilder {
            aspect_ratio: one,
            image_height: 100,
            samples_per_pixel: 10,
            max_depth: 10,
            vertical_fov: one,
            look_from: Point3::new(zero, zero, zero),
            look_at: Point3::new(zero, zero, one.neg()),
            vup: Vec3::new(zero, one, zero),
            defocus_angle: zero,
            defocus_focus_distance: Fx::from_int(10),
        }
    }

    pub fn aspect_ratio(self, aspect_ratio: Fx) -> (r: CameraBuilder)
        ensures
            r == (CameraBuilder { aspect_ratio, ..self }),
    {
        CameraBuilder { aspect_ratio, ..self }
    }

    pub fn image_height(self, image_height: u32) -> (r: CameraBuilder)
        ensures
            r == (CameraBuilder { image_height, ..self }),
    {
        CameraBuilder { image_height, ..self }
    }

    pub fn samples_per_pixel(self, samples_per_pixel: u32) -> (r: CameraBuilder)
        ensures
            r == (CameraBuilder { samples_per_pixel, ..self }),
    {
        CameraBuilder { samples_per_pixel, ..self }
    }

    pub fn max_depth(self, max_depth: u32) -> (r: CameraBuilder)
        ensures
            r == (CameraBuilder { max_depth, ..self }),
    {
        CameraBuilder { max_depth, ..self }
    }

    /// Set the vertical field of view as the tangent of its half-angle.
    pub fn vertical_fov(self, vertical_fov: Fx) -> (r: CameraBuilder)
        ensures
            r == (CameraBuilder { vertical_fov, ..self }),
    {
        CameraBuilder { vertical_fov, ..self }
    }

    pub fn look_from(self, x: Fx, y: Fx, z: Fx) -> (r: CameraBuilder)
        ensures
            r.look_from@ == (Vec3i { x: x@, y: y@, z: z@ }),
            r == (CameraBuilder { look_from: r.look_from, ..self }),
    {
        CameraBuilder { look_from: Point3::new(x, y, z), ..self }
    }

    pub fn look_at(self, x: Fx, y: Fx, z: Fx) -> (r: CameraBuilder)
        ensures
            r.look_at@ == (Vec3i { x: x@, y: y@, z: z@ }),
            r == (CameraBuilder { look_at: r.look_at, ..self }),
    {
        CameraBuilder { look_at: Point3::new(x, y, z), ..self }
    }

    pub fn vup(self, x: Fx, y: Fx, z: Fx) -> (r: CameraBuilder)
        ensures
            r.vup@ == (Vec3i { x: x@, y: y@, z: z@ }),
            r == (CameraBuilder { vup: r.vup, ..self }),
    {
        CameraBuilder { vup: Vec3::new(x, y, z), ..self }
    }

    /// Set the defocus cone as the tangent of its half-angle.
    pub fn defocus_angle(self, defocus_angle: Fx) -> (r: CameraBuilder)
        ensures
            r == (CameraBuilder { defocus_angle, ..self }),
    {
        CameraBuilder { defocus_angle, ..self }
    }

    pub fn focus_distance(self, focus_distance: Fx) -> (r: CameraBuilder)
        ensures
            r == (CameraBuilder { defocus_focus_distance: focus_distance, ..self }),
    {
        CameraBuilder { defocus_focus_distance: focus_distance, ..self }
    }

    /// Resolve the configuration into a render-ready camera: the viewport
    /// extents from the field of view and focus distance, the orthonormal
    /// basis from the look and up directions, the per-pixel deltas, and
    /// the defocus-disk basis.
    pub fn initialize(&self) -> (r: Camera)
        requires
            camera_build_ok(*self),
        ensures
            r@ == initialize_v(*self),
    {
        let ih_fx = Fx::from_int(self.image_height as i64);
        let iw_fx = ih_fx.mul(self.aspect_ratio);
        let image_width = iw_fx.floor_usize();

        let samples_per_pixel = self.samples_per_pixel;
        let pixel_samples_scale = Fx::one().div(Fx::from_int(samples_per_pixel as i64));

        let camera_delta_v = self.look_from.vec().sub(self.look_at.vec());
        let two = Fx::from_raw(2 * FX_SCALE);
        let viewport_height = two.mul(self.vertical_fov).mul(self.defocus_focus_distance);

        let real_aspect_ratio = iw_fx.div(ih_fx);
        let viewport_width = viewport_height.mul(real_aspect_ratio);

        let w = camera_delta_v.unit();
        let u = self.vup.cross(&w).unit();
        let v = w.cross(&u);

        let viewport_u = u.scale(viewport_width);
        let viewport_v = v.neg().scale(viewport_height);

        let pixel_delta_u = viewport_u.div(iw_fx);
        let pixel_delta_v = viewport_v.div(ih_fx);

        let defocus_radius = self.defocus_focus_distance.mul(self.defocus_angle);
        let defocus_disk_u = u.scale(defocus_radius);
        let defocus_disk_v = v.scale(defocus_radius);

        let center = self.look_from.vec();
        let viewport_upper_left = center.sub(w.scale(self.defocus_focus_distance)).sub(
            viewport_u.div(two),
        ).sub(viewport_v.div(two));
        let half = Fx::from_raw(FX_SCALE / 2);
        let pixel_00 = viewport_upper_left.add(pixel_delta_u.add(pixel_delta_v).scale(half));

        Camera {
            image_width,
            image_height: self.image_height as usize,
            samples_per_pixel,
            pixel_samples_scale,
            max_depth: self.max_depth,
            center,
            pixel_00,
            pixel_delta_u,
            pixel_delta_v,
            defocus_angle: self.defocus_angle,
            defocus_disk_u,
            defocus_disk_v,
        }
    }
}

/// Fully-resolved, immutable render configuration.
pub struct Camera {
    image_width: usize,
    image_height: usize,
    samples_per_pixel: u32,
    pixel_samples_scale: Fx,
    max_depth: u32,
    center: Vec3,
    pixel_00: Vec3,
    pixel_delta_u: Vec3,
    pixel_delta_v: Vec3,
    defocus_angle: Fx,
    defocus_disk_u: Vec3,
    defocus_disk_v: Vec3,
}

impl View for Camera {
    type V = CameraI;

    closed spec fn view(&self) -> CameraI {
        CameraI {
            image_width: self.image_width as int,
            image_height: self.image_height as int,
            samples_per_pixel: self.samples_per_pixel as int,
            pixel_samples_scale: self.pixel_samples_scale@,
            max_depth: self.max_depth as int,
            center: self.center@,
            pixel_00: self.pixel_00@,
            pixel_delta_u: self.pixel_delta_u@,
            pixel_delta_v: self.pixel_delta_v@,
            defocus_angle: self.defocus_angle@,
            defocus_disk_u: self.defocus_disk_u@,
            defocus_disk_v: self.defocus_disk_v@,
        }
    }
}

impl Camera {
    pub fn new() -> (r: CameraBuilder)
        ensures
            r.aspect_ratio@ == FX_SCALE as int,
            r.image_height == 100,
            r.samples_per_pixel == 10,
            r.max_depth == 10,
            r.vertical_fov@ == FX_SCALE as int,
            r.look_from@ == (Vec3i { x: 0, y: 0, z: 0 }),
            r.look_at@ == (Vec3i { x: 0, y: 0, z: -(FX_SCALE as int) }),
            r.vup@ == (Vec3i { x: 0, y: FX_SCALE as int, z: 0 }),
            r.defocus_angle@ == 0,
            r.defocus_focus_distance@ == 10 * (FX_SCALE as int),
    {
        CameraBuilder::new()
    }

    pub fn image_width(&self) -> (r: usize)
        ensures
            r as int == self@.image_width,
    {
        self.image_width
    }

    pub fn image_height(&self) -> (r: usize)
        ensures
            r as int == self@.image_height,
    {
        self.image_height
    }

    /// The jittered (and, with an aperture, defocused) ray for pixel
    /// `(x, y)`.
    pub fn get_ray(&self, x: u32, y: u32, sampler: &mut Sampler) -> (r: Ray)
        ensures
            r@ == get_ray_v(self@, x as int, y as int, old(sampler)@).0,
            final(sampler)@ == get_ray_v(self@, x as int, y as int, old(sampler)@).1,
    {
        let offset = sample_square(sampler);

        let pixel_sample = self.pixel_00.add(
            self.pixel_delta_u.scale(Fx::from_int(x as i64).add(offset.vec().x())),
        ).add(self.pixel_delta_v.scale(Fx::from_int(y as i64).add(offset.vec().y())));

        let ray_origin = if self.defocus_angle.le(Fx::zero()) {
            self.center
        } else {
            self.defocus_disk_sample(sampler)
        };

        let ray_direction = pixel_sample.sub(ray_origin);
        Ray::new(Point3::from_vec(ray_origin), ray_direction)
    }

    fn defocus_disk_sample(&self, sampler: &mut Sampler) -> (r: Vec3)
        ensures
            r@ == defocus_disk_sample_v(self@, old(sampler)@).0,
            final(sampler)@ == defocus_disk_sample_v(self@, old(sampler)@).1,
    {
        let p = random_unit_disk(sampler);
        self.center.add(self.defocus_disk_u.scale(p.x())).add(self.defocus_disk_v.scale(p.y()))
    }

    /// The finished color of one pixel: the mean of `samples_per_pixel`
    /// independent samples, each traced to `max_depth` bounces.
    pub fn render_pixel(&self, world: &HittableList, seed: u64, index: usize) -> (r: Color)
        requires
            self@.image_width >= 1,
            self@.image_width <= u32::MAX as int,
            self@.image_height <= u32::MAX as int,
            (index as int) < self@.image_width * self@.image_height,
        ensures
            r@ == pixel_color_v(self@, world@, seed, index as int),
    {
        let y = index / self.image_width;
        let x = index % self.image_width;
        proof {
            vstd::arithmetic::div_mod::lemma_multiply_divide_lt(
                index as int,
                self@.image_width,
                self@.image_height,
            );
        }
        let mut sampler = Sampler::for_pixel(seed, index as u64);
        let zero = Fx::zero();
        let mut acc = Vec3::new(zero, zero, zero);
        let spp = self.samples_per_pixel;
        let mut k: u32 = 0;
        while k < spp
            invariant
                spp == self@.samples_per_pixel,
                k <= spp,
                acc@ == sample_loop_v(
                    self@,
                    world@,
                    x as int,
                    y as int,
                    rng_mix(seed, index as u64),
                    k as nat,
                ).0,
                sampler@ == sample_loop_v(
                    self@,
                    world@,
                    x as int,
                    y as int,
                    rng_mix(seed, index as u64),
                    k as nat,
                ).1,
                x as int == (index as int) % self@.image_width,
                y as int == (index as int) / self@.image_width,
                x <= u32::MAX,
                y <= u32::MAX,
            decreases spp - k,
        {
            let ray = self.get_ray(x as u32, y as u32, &mut sampler);
            let color = ray_color(&ray, world, self.max_depth, &mut sampler);
            acc = acc.add(color.vec());
            k = k + 1;
        }
        Color::from_vec(acc.scale(self.pixel_samples_scale))
    }

    /// Render the whole frame: a row-major pixel buffer of length
    /// `width * height`, each pixel computed independently (and in
    /// parallel), written exactly once, and equal to `pixel_color_v` of
    /// its index.
    pub fn render(&self, world: &HittableList, seed: u64) -> (r: Vec<Color>)
        requires
            self@.image_width >= 1,
            self@.image_width <= u32::MAX as int,
            self@.image_height <= u32::MAX as int,
            self@.image_width * self@.image_height <= usize::MAX as int,
        ensures
            r@.len() == self@.image_width * self@.image_height,
            forall|i: int|
                0 <= i < r@.len() ==> #[trigger] r@[i]@ == pixel_color_v(self@, world@, seed, i),
    {
        proof {
            vstd::arithmetic::mul::lemma_mul_nonnegative(self@.image_width, self@.image_height);
        }
        let n = self.image_width * self.image_height;
        par_render_pixels(self, world, seed, n)
    }
}

/// Relies on rayon's parallel indexed iterators: `into_par_iter` over a
/// range, `map`, and an order-preserving `collect` yield the same vector
/// as the sequential map, with each element produced by the verified
/// `render_pixel` at its own index.
#[verifier::external_body]
fn par_render_pixels(cam: &Camera, world: &HittableList, seed: u64, n: usize) -> (r: Vec<Color>)
    requires
        cam@.image_width >= 1,
        cam@.image_width <= u32::MAX as int,
        cam@.image_height <= u32::MAX as int,
        n as int == cam@.image_width * cam@.image_height,
    ensures
        r@.len() == n as int,
        forall|i: int|
            0 <= i < n as int ==> #[trigger] r@[i]@ == pixel_color_v(cam@, world@, seed, i),
{
    (0..n).into_par_iter().map(|index| cam.render_pixel(world, seed, index)).collect()
}

/// Linear interpolation `(1 - t) * start + t * end`.
pub fn lerp(t: Fx, start: Vec3, end: Vec3) -> (r: Vec3)
    ensures
        r@ == lerp_v(t@, start@, end@),
{
    let one = Fx::one();
    start.scale(one.sub(t)).add(end.scale(t))
}

/// The sky gradient a missed ray terminates in.
fn background(ray: &Ray) -> (r: Color)
    ensures
        r@ == background_v(ray@),
{
    let unit_direction = if ray.direction().near_zero() {
        let zero = Fx::zero();
        Vec3::new(zero, zero, zero)
    } else {
        proof {
            crate::vec3::lemma_not_near_zero_len_sq(ray@.dir);
        }
        ray.direction().unit()
    };
    let half = Fx::from_raw(FX_SCALE / 2);
    let a = unit_direction.y().add(Fx::one()).mul(half);
    let one = Fx::one();
    let white = Vec3::new(one, one, one);
    let blue = Vec3::new(half, Fx::from_raw(45875), one);
    Color::from_vec(lerp(a, white, blue))
}

/// The recursive integrator; see `ray_color_v`. At depth zero the result
/// is exact black whatever the ray and scene hold.
pub fn ray_color(ray: &Ray, world: &HittableList, depth: u32, sampler: &mut Sampler) -> (r: Color)
    ensures
        r@ == ray_color_v(ray@, world@, depth, old(sampler)@).0,
        final(sampler)@ == ray_color_v(ray@, world@, depth, old(sampler)@).1,
        depth == 0 ==> r@ == (Vec3i { x: 0, y: 0, z: 0 }),
    decreases depth,
{
    if depth == 0 {
        return Color::black();
    }

    let t_min = Fx::from_raw(SHADOW_ACNE_EPS);
    let t_max = Fx::from_raw(FX_MAX_RAW);
    if let Some(hit) = world.hit(ray, t_min, t_max) {
        if let Some(scatter_record) = hit.material.scatter(ray, hit, sampler) {
            if let Some(color) = scatter_record.color {
                return color;
            }
            let attenuation = scatter_record.attenuation.vec();
            let next_ray_color = ray_color(&scatter_record.ray, world, depth - 1, sampler);
            return Color::from_vec(attenuation.mul(next_ray_color.vec()));
        }
        return Color::black();
    }

    background(ray)
}

/// The anti-aliasing jitter: a point in the half-open unit square centered
/// on the origin.
fn sample_square(sampler: &mut Sampler) -> (r: Point3)
    ensures
        r@ == sample_square_v(old(sampler)@).0,
        final(sampler)@ == sample_square_v(old(sampler)@).1,
{
    let half = Fx::from_raw(FX_SCALE / 2);
    let a = sampler.next_unit().sub(half);
    let b = sampler.next_unit().sub(half);
    Point3::new(a, b, Fx::zero())
}

} // verus!
