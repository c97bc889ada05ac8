//! The camera: from image size to rays, and from rays to pixels.
//!
//! The camera sits at the origin and looks along the negative `z` axis at a
//! viewport one unit away and two units high. `initialize` derives the
//! viewport's geometry from the image size; `get_ray` sends a ray through a
//! randomly chosen point of a pixel; `color_estimate` follows such a ray
//! through the scene; `render` averages the estimates of each pixel.
use vstd::prelude::*;
use vstd::std_specs::ops::{AddSpec, DivSpec, MulSpec, NegSpec, SubSpec};
use std::ops::Neg;
use crate::hittable::{HitRecord, Hittable};
use crate::interval::Interval;
use crate::random::{exact_random, RandomSource};
use crate::ray::Ray;
use crate::scalar::{exact_arith, one_spec, ratio, ratio_spec, total_arith, zero_spec, Scalar};
use crate::vec3::{is_pixel, Color, Point3, Vec3};

verus! {

/// The camera's settings and the viewport geometry derived from them.
#[derive(Debug, Clone, Copy, PartialEq)]
pub struct Camera<T> {
    /// Image width over image height, as asked for.
    pub aspect_ratio: T,
    /// The image's width in pixels.
    pub image_width: i64,
    /// How many rays are averaged for one pixel.
    pub samples_per_pixel: i64,
    /// How many times a ray may bounce before it contributes no light.
    pub max_depth: i64,
    /// How many candidates a bounce may reject before it gives up.
    pub max_tries: u64,
    /// The image's height in pixels, at least one.
    pub image_height: i64,
    /// Where all rays start.
    pub center: Point3<T>,
    /// The centre of the pixel in the upper left corner.
    pub pixel00_location: Point3<T>,
    /// The step from a pixel to its right neighbour.
    pub pixel_delta_u: Vec3<T>,
    /// The step from a pixel to the one below it.
    pub pixel_delta_v: Vec3<T>,
}

impl<T: Scalar> Default for Camera<T> {
    /// The camera for a square image of 100 by 100 pixels with 10 samples
    /// for each pixel.
    fn default() -> (r: Self)
        ensures
            T::obeys_scalar_spec() ==> r == (Camera {
                aspect_ratio: one_spec::<T>(),
                image_width: 100,
                samples_per_pixel: 10,
                max_depth: 50,
                max_tries: u64::MAX,
                image_height: 100,
                center: Vec3::zero_spec(),
                pixel00_location: Vec3::zero_spec(),
                pixel_delta_u: Vec3::zero_spec(),
                pixel_delta_v: Vec3::zero_spec(),
            }),
    {
        let zero = Vec3::from_float(T::from_int(0));
        Camera {
            aspect_ratio: T::from_int(1),
            image_width: 100,
            samples_per_pixel: 10,
            max_depth: 50,
            max_tries: u64::MAX,
            image_height: 100,
            center: zero,
            pixel00_location: zero,
            pixel_delta_u: zero,
            pixel_delta_v: zero,
        }
    }
}

/// One half, as the quotient of one and two.
pub open spec fn half_spec<T: Scalar>() -> T {
    ratio_spec::<T>(1, 2)
}

/// The interval of parameters at which a ray can hit the scene: above zero,
/// so that a ray does not hit the surface it starts on, and below infinity.
pub open spec fn forward_spec<T: Scalar>() -> Interval<T> {
    Interval { min: zero_spec::<T>(), max: T::infinity_spec() }
}

/// The colour of the sky in the direction of `r`: white at the bottom,
/// blended into `(0.5, 0.7, 1.0)` at the top, by
/// `t = 0.5 * (unit_direction.y + 1)`.
pub open spec fn sky_spec<T: Scalar>(r: Ray<T>) -> Color<T> {
    let unit_direction = r.dir.unit_vector_spec();
    let t = half_spec::<T>().mul_spec(unit_direction.y.add_spec(one_spec::<T>()));
    let white = Vec3::splat(one_spec::<T>()).mul_spec(one_spec::<T>().sub_spec(t));
    let blue = (Vec3 { x: half_spec::<T>(), y: ratio_spec::<T>(7, 10), z: one_spec::<T>() }).mul_spec(
        t,
    );
    white.add_spec(blue)
}

/// The colour that stands for a surface normal: `(normal + 1) * 0.5`.
pub open spec fn normal_color_spec<T: Scalar>(normal: Vec3<T>) -> Color<T> {
    normal.add_spec(Vec3::splat(one_spec::<T>())).mul_spec(half_spec::<T>())
}

/// The ray that leaves a hit: from the hit point towards the point one
/// normal away from it, moved by `scatter`.
pub open spec fn bounce_spec<T: Scalar>(rec: HitRecord<T>, scatter: Vec3<T>) -> Ray<T> {
    let target = rec.p.add_spec(rec.normal).add_spec(scatter);
    Ray { orig: rec.p, dir: target.sub_spec(rec.p) }
}

/// The colour of the sky in the direction of `r`.
pub fn sky_color<T: Scalar>(r: &Ray<T>) -> (c: Color<T>)
    requires
        total_arith::<T>(),
    ensures
        exact_arith::<T>() ==> c == sky_spec(*r),
{
    let one = T::from_int(1);
    let half: T = ratio(1, 2);
    let unit_direction = r.direction().unit_vector();
    let t = half * (unit_direction.y + one);
    let color1 = Color::from_float(one) * (one - t);
    let color2 = Color::new(half, ratio(7, 10), one) * t;
    color1 + color2
}

/// The ray that leaves the hit `rec` towards `rec.p + rec.normal + scatter`.
pub fn bounce<T: Scalar>(rec: &HitRecord<T>, scatter: Vec3<T>) -> (r: Ray<T>)
    requires
        total_arith::<T>(),
    ensures
        exact_arith::<T>() ==> r == bounce_spec(*rec, scatter),
{
    let target = rec.p + rec.normal() + scatter;
    Ray::new(rec.p, target - rec.p)
}

impl<T: Scalar> Camera<T> {
    /// The height of an image of the given width and aspect ratio: the
    /// quotient cut to an integer, and one where that is below one.
    pub open spec fn image_height_spec(aspect_ratio: T, image_width: i64) -> i64 {
        let height = T::from_int_spec(image_width).div_spec(aspect_ratio).to_int_spec();
        if height < 1 {
            1
        } else {
            height
        }
    }

    /// The camera as `new` makes it: the height not yet brought up to one,
    /// the viewport not yet derived.
    pub open spec fn new_spec(aspect_ratio: T, image_width: i64, samples_per_pixel: i64) -> Self {
        Camera {
            aspect_ratio,
            image_width,
            samples_per_pixel,
            max_depth: 50,
            max_tries: u64::MAX,
            image_height: T::from_int_spec(image_width).div_spec(aspect_ratio).to_int_spec(),
            center: Vec3::zero_spec(),
            pixel00_location: Vec3::zero_spec(),
            pixel_delta_u: Vec3::zero_spec(),
            pixel_delta_v: Vec3::zero_spec(),
        }
    }

    /// The camera with the same settings and the viewport derived from
    /// them.
    ///
    /// The viewport is two units high and `2 * image_width / image_height`
    /// wide, by the image's true height; `u` runs along it to the right and
    /// `v` down. The pixel steps are `u / image_width` and
    /// `v / image_height`. The viewport's upper left corner is
    /// `center - (0, 0, 1) - u / 2 - v / 2`, and the first pixel's centre
    /// lies half a step right of and below it.
    pub open spec fn initialized_spec(self) -> Self {
        let image_height = Self::image_height_spec(self.aspect_ratio, self.image_width);
        let center = Vec3::<T>::zero_spec();
        let two = T::from_int_spec(2);
        let viewport_width = two.mul_spec(
            T::from_int_spec(self.image_width).div_spec(T::from_int_spec(image_height)),
        );
        let viewport_u = Vec3 { x: viewport_width, y: zero_spec::<T>(), z: zero_spec::<T>() };
        let viewport_v = Vec3 { x: zero_spec::<T>(), y: two.neg_spec(), z: zero_spec::<T>() };
        let pixel_delta_u = viewport_u.div_spec(T::from_int_spec(self.image_width));
        let pixel_delta_v = viewport_v.div_spec(T::from_int_spec(image_height));
        let focal = Vec3 { x: zero_spec::<T>(), y: zero_spec::<T>(), z: one_spec::<T>() };
        let viewport_upper_left = center.sub_spec(focal).sub_spec(viewport_u.div_spec(two)).sub_spec(
            viewport_v.div_spec(two),
        );
        Camera {
            aspect_ratio: self.aspect_ratio,
            image_width: self.image_width,
            samples_per_pixel: self.samples_per_pixel,
            max_depth: self.max_depth,
            max_tries: self.max_tries,
            image_height,
            center,
            pixel00_location: viewport_upper_left.add_spec(
                pixel_delta_u.add_spec(pixel_delta_v).mul_spec(half_spec::<T>()),
            ),
            pixel_delta_u,
            pixel_delta_v,
        }
    }

    /// The ray from the camera's centre through the point of pixel
    /// `(i, j)` that lies `offset` pixel steps off its centre:
    /// `pixel00 + delta_u * (i + offset.x) + delta_v * (j + offset.y)`.
    pub open spec fn ray_through_spec(self, i: i64, j: i64, offset: Vec3<T>) -> Ray<T> {
        let pixel_sample = self.pixel00_location.add_spec(
            self.pixel_delta_u.mul_spec(T::from_int_spec(i).add_spec(offset.x)),
        ).add_spec(self.pixel_delta_v.mul_spec(T::from_int_spec(j).add_spec(offset.y)));
        Ray { orig: self.center, dir: pixel_sample.sub_spec(self.center) }
    }

    /// The ray through a random point of pixel `(i, j)`, and the source
    /// after its offset was drawn.
    pub open spec fn get_ray_spec<R: RandomSource<T>>(self, i: i64, j: i64, rng: R) -> (Ray<T>, R) {
        let (offset, after) = Vec3::<T>::sample_square_spec(rng);
        (self.ray_through_spec(i, j, offset), after)
    }

    /// Deriving the viewport a second time changes nothing: the derived
    /// state depends on the settings alone, and deriving it leaves them as
    /// they are.
    pub proof fn lemma_initialize_idempotent(self)
        ensures
            self.initialized_spec().initialized_spec() == self.initialized_spec(),
    {
    }

    /// A camera for an image `image_width` pixels wide with the given
    /// aspect ratio, that averages `samples_per_pixel` rays per pixel and
    /// follows a ray through at most 50 bounces. Its viewport is derived
    /// when it renders.
    pub fn new(aspect_ratio: T, image_width: i64, samples_per_pixel: i64) -> (r: Self)
        requires
            total_arith::<T>(),
        ensures
            exact_arith::<T>() ==> r == Self::new_spec(aspect_ratio, image_width, samples_per_pixel),
            r.aspect_ratio == aspect_ratio,
            r.image_width == image_width,
            r.samples_per_pixel == samples_per_pixel,
            r.max_depth == 50,
            r.max_tries == u64::MAX,
    {
        let image_height = (T::from_int(image_width) / aspect_ratio).to_int();
        let center = Point3::zero();
        let pixel00_location = Point3::zero();
        let pixel_delta_u = Vec3::zero();
        let pixel_delta_v = Vec3::zero();

        Camera {
            aspect_ratio,
            image_width,
            samples_per_pixel,
            max_depth: 50,
            max_tries: u64::MAX,
            image_height,
            center,
            pixel00_location,
            pixel_delta_u,
            pixel_delta_v,
        }
    }

    /// Derives the image height and the viewport from the settings. The
    /// settings stay as they are.
    pub fn initialize(&mut self)
        requires
            total_arith::<T>(),
        ensures
            exact_arith::<T>() ==> *final(self) == old(self).initialized_spec(),
            final(self).aspect_ratio == old(self).aspect_ratio,
            final(self).image_width == old(self).image_width,
            final(self).samples_per_pixel == old(self).samples_per_pixel,
            final(self).max_depth == old(self).max_depth,
            final(self).max_tries == old(self).max_tries,
            final(self).image_height >= 1,
    {
        self.image_height = (T::from_int(self.image_width) / self.aspect_ratio).to_int();
        self.image_height = if self.image_height < 1 {
            1
        } else {
            self.image_height
        };

        self.center = Point3::zero();

        let zero = T::from_int(0);
        let two = T::from_int(2);
        let focal_length = T::from_int(1);
        let viewport_height = two;
        let viewport_width = viewport_height * (T::from_int(self.image_width) / T::from_int(
            self.image_height,
        ));

        let viewport_u = Vec3::new(viewport_width, zero, zero);
        let viewport_v = Vec3::new(zero, viewport_height.neg(), zero);

        self.pixel_delta_u = viewport_u / T::from_int(self.image_width);
        self.pixel_delta_v = viewport_v / T::from_int(self.image_height);

        let viewport_upper_left = self.center - Vec3::new(zero, zero, focal_length) - viewport_u / two
            - viewport_v / two;
        let half: T = ratio(1, 2);
        self.pixel00_location = viewport_upper_left + (self.pixel_delta_u + self.pixel_delta_v) * half;
    }

    /// The ray from the camera's centre through the point of pixel
    /// `(i, j)` that lies `offset` pixel steps off its centre.
    pub fn ray_through(&self, i: i64, j: i64, offset: Vec3<T>) -> (r: Ray<T>)
        requires
            total_arith::<T>(),
        ensures
            exact_arith::<T>() ==> r == self.ray_through_spec(i, j, offset),
            r.orig == self.center,
    {
        let pixel_sample = self.pixel00_location + (self.pixel_delta_u * (T::from_int(i) + offset.x))
            + (self.pixel_delta_v * (T::from_int(j) + offset.y));

        let ray_origin = self.center;
        let ray_direction = pixel_sample - ray_origin;
        Ray::new(ray_origin, ray_direction)
    }

    /// A ray from the camera's centre through a randomly chosen point of
    /// pixel `(i, j)`: column `i`, row `j`.
    pub fn get_ray<R: RandomSource<T>>(&self, i: i64, j: i64, rng: &mut R) -> (r: Ray<T>)
        requires
            total_arith::<T>(),
        ensures
            exact_random::<T, R>() ==> (r, *final(rng)) == self.get_ray_spec(i, j, *old(rng)),
            r.orig == self.center,
    {
        let offset = Vec3::sample_square(rng);
        self.ray_through(i, j, offset)
    }
}


/// The colour seen along `r` where surfaces are painted by their normals:
/// the colour of the normal at the nearest hit in front of the ray's
/// origin, or the sky where nothing is hit.
pub open spec fn ray_color_spec<T: Scalar, W: Hittable<T> + ?Sized>(r: Ray<T>, world: &W) -> Color<
    T,
> {
    match world.hit_spec(r, forward_spec::<T>()) {
        Some(rec) => normal_color_spec(rec.normal),
        None => sky_spec(r),
    }
}

/// The light that arrives along `r` after at most `depth` bounces, and the
/// source after the bounces were drawn.
///
/// With no bounce left the ray brings no light. A ray that hits nothing
/// brings the colour of the sky. A ray that hits a surface brings half the
/// light of the ray that leaves the hit towards a random point of the unit
/// sphere that touches the surface there. Where the source yields no such
/// point within `tries` draws there is no estimate.
pub open spec fn color_estimate_spec<T: Scalar, W: Hittable<T> + ?Sized, R: RandomSource<T>>(
    r: Ray<T>,
    world: &W,
    depth: i64,
    tries: u64,
    rng: R,
) -> (Option<Color<T>>, R)
    decreases depth,
{
    if depth <= 0 {
        (Some(Vec3::zero_spec()), rng)
    } else {
        match world.hit_spec(r, forward_spec::<T>()) {
            Some(rec) => {
                let (scatter, after) = Vec3::<T>::random_in_unit_sphere_spec(rng, tries as nat);
                match scatter {
                    Some(scatter) => {
                        let (inner, last) = color_estimate_spec(
                            bounce_spec(rec, scatter),
                            world,
                            (depth - 1) as i64,
                            tries,
                            after,
                        );
                        match inner {
                            Some(inner) => (Some(inner.mul_spec(half_spec::<T>())), last),
                            None => (None, last),
                        }
                    },
                    None => (None, after),
                }
            },
            None => (Some(sky_spec(r)), rng),
        }
    }
}

impl<T: Scalar> Camera<T> {
    /// The colour seen along `r` where surfaces are painted by their
    /// normals.
    pub fn ray_color<W: Hittable<T> + ?Sized>(r: &Ray<T>, world: &W) -> (c: Color<T>)
        requires
            total_arith::<T>(),
        ensures
            exact_arith::<T>() && world.obeys_hit_spec() ==> c == ray_color_spec(*r, world),
    {
        let mut rec = HitRecord::new();
        if world.hit(r, Interval::new(T::from_int(0), T::infinity()), &mut rec) {
            return (rec.normal() + Color::from_float(T::from_int(1))) * ratio::<T>(1, 2);
        }
        sky_color(r)
    }
}

/// An estimate of the light that arrives along `r`, following it through
/// at most `depth` bounces. `None` where a bounce found no direction
/// within `tries` draws.
///
/// With `depth` at zero or below the estimate is black, whatever the scene
/// holds, and nothing is drawn from the source.
pub fn color_estimate<T: Scalar, W: Hittable<T> + ?Sized, R: RandomSource<T>>(
    r: &Ray<T>,
    world: &W,
    depth: i64,
    tries: u64,
    rng: &mut R,
) -> (c: Option<Color<T>>)
    requires
        total_arith::<T>(),
    ensures
        exact_random::<T, R>() && world.obeys_hit_spec() ==> (c, *final(rng)) == color_estimate_spec(
            *r,
            world,
            depth,
            tries,
            *old(rng),
        ),
        exact_arith::<T>() && depth <= 0 ==> c == Some(Vec3::<T>::zero_spec()),
        depth <= 0 ==> c.is_some() && *final(rng) == *old(rng),
    decreases depth,
{
    let mut rec = HitRecord::new();

    if depth <= 0 {
        return Some(Color::zero());
    }
    if world.hit(r, Interval::new(T::from_int(0), T::infinity()), &mut rec) {
        match Vec3::random_in_unit_sphere(rng, tries) {
            Some(scatter) => {
                let out = bounce(&rec, scatter);
                match color_estimate(&out, world, depth - 1, tries, rng) {
                    Some(inner) => {
                        return Some(inner * ratio::<T>(1, 2));
                    },
                    None => {
                        return None;
                    },
                }
            },
            None => {
                return None;
            },
        }
    }
    Some(sky_color(r))
}


/// How often a loop from zero up to `n` runs: `n` times, and not at all
/// where `n` is negative.
pub open spec fn count_spec(n: i64) -> nat {
    if n > 0 {
        n as nat
    } else {
        0
    }
}

/// The sequence that a vector of pixels holds, where there is one.
pub open spec fn pixels_view(pixels: Option<Vec<Vec3<i32>>>) -> Option<Seq<Vec3<i32>>> {
    match pixels {
        Some(v) => Some(v@),
        None => None,
    }
}

impl<T: Scalar> Camera<T> {
    /// The sum of the first `n` estimates for pixel `(i, j)`, each along a
    /// ray of its own, and the source after them. `None` from the first
    /// estimate on that is `None`.
    pub open spec fn sample_sum_spec<W: Hittable<T> + ?Sized, R: RandomSource<T>>(
        self,
        world: &W,
        i: i64,
        j: i64,
        n: nat,
        rng: R,
    ) -> (Option<Color<T>>, R)
        decreases n,
    {
        if n == 0 {
            (Some(Vec3::zero_spec()), rng)
        } else {
            let (sum, before) = self.sample_sum_spec(world, i, j, (n - 1) as nat, rng);
            match sum {
                Some(sum) => {
                    let (r, drawn) = self.get_ray_spec(i, j, before);
                    let (c, after) = color_estimate_spec(
                        r,
                        world,
                        self.max_depth,
                        self.max_tries,
                        drawn,
                    );
                    match c {
                        Some(c) => (Some(sum.add_spec(c)), after),
                        None => (None, after),
                    }
                },
                None => (None, before),
            }
        }
    }

    /// The integer channels of pixel `(i, j)`: the sum of
    /// `samples_per_pixel` estimates, averaged and cut to integers.
    pub open spec fn pixel_spec<W: Hittable<T> + ?Sized, R: RandomSource<T>>(
        self,
        world: &W,
        i: i64,
        j: i64,
        rng: R,
    ) -> (Option<Vec3<i32>>, R) {
        let (sum, after) = self.sample_sum_spec(
            world,
            i,
            j,
            count_spec(self.samples_per_pixel),
            rng,
        );
        match sum {
            Some(sum) => (Some(sum.write_color_aa_spec(self.samples_per_pixel)), after),
            None => (None, after),
        }
    }

    /// The first `n` pixels of row `j`, from the left.
    pub open spec fn row_spec<W: Hittable<T> + ?Sized, R: RandomSource<T>>(
        self,
        world: &W,
        j: i64,
        n: nat,
        rng: R,
    ) -> (Option<Seq<Vec3<i32>>>, R)
        decreases n,
    {
        if n == 0 {
            (Some(Seq::empty()), rng)
        } else {
            let (row, before) = self.row_spec(world, j, (n - 1) as nat, rng);
            match row {
                Some(row) => {
                    let (pixel, after) = self.pixel_spec(world, (n - 1) as i64, j, before);
                    match pixel {
                        Some(pixel) => (Some(row.push(pixel)), after),
                        None => (None, after),
                    }
                },
                None => (None, before),
            }
        }
    }

    /// The first `m` rows of the image, from the top, one after the other.
    pub open spec fn image_spec<W: Hittable<T> + ?Sized, R: RandomSource<T>>(
        self,
        world: &W,
        m: nat,
        rng: R,
    ) -> (Option<Seq<Vec3<i32>>>, R)
        decreases m,
    {
        if m == 0 {
            (Some(Seq::empty()), rng)
        } else {
            let (image, before) = self.image_spec(world, (m - 1) as nat, rng);
            match image {
                Some(image) => {
                    let (row, after) = self.row_spec(
                        world,
                        (m - 1) as i64,
                        count_spec(self.image_width),
                        before,
                    );
                    match row {
                        Some(row) => (Some(image + row), after),
                        None => (None, after),
                    }
                },
                None => (None, before),
            }
        }
    }

    /// The pixels of the whole image in the order in which they are
    /// written: row by row from the top, each row from the left.
    pub open spec fn render_spec<W: Hittable<T> + ?Sized, R: RandomSource<T>>(
        self,
        world: &W,
        rng: R,
    ) -> (Option<Seq<Vec3<i32>>>, R) {
        let camera = self.initialized_spec();
        camera.image_spec(world, count_spec(camera.image_height), rng)
    }

    /// Once an estimate has failed, the sum stays as it was then.
    pub proof fn lemma_sample_sum_none<W: Hittable<T> + ?Sized, R: RandomSource<T>>(
        self,
        world: &W,
        i: i64,
        j: i64,
        k: nat,
        n: nat,
        rng: R,
    )
        requires
            k <= n,
            self.sample_sum_spec(world, i, j, k, rng).0.is_none(),
        ensures
            self.sample_sum_spec(world, i, j, n, rng) == self.sample_sum_spec(world, i, j, k, rng),
        decreases n,
    {
        if k < n {
            self.lemma_sample_sum_none(world, i, j, k, (n - 1) as nat, rng);
        }
    }

    /// Once a pixel has failed, the row stays as it was then.
    pub proof fn lemma_row_none<W: Hittable<T> + ?Sized, R: RandomSource<T>>(
        self,
        world: &W,
        j: i64,
        k: nat,
        n: nat,
        rng: R,
    )
        requires
            k <= n,
            self.row_spec(world, j, k, rng).0.is_none(),
        ensures
            self.row_spec(world, j, n, rng) == self.row_spec(world, j, k, rng),
        decreases n,
    {
        if k < n {
            self.lemma_row_none(world, j, k, (n - 1) as nat, rng);
        }
    }

    /// Once a row has failed, the image stays as it was then.
    pub proof fn lemma_image_none<W: Hittable<T> + ?Sized, R: RandomSource<T>>(
        self,
        world: &W,
        k: nat,
        m: nat,
        rng: R,
    )
        requires
            k <= m,
            self.image_spec(world, k, rng).0.is_none(),
        ensures
            self.image_spec(world, m, rng) == self.image_spec(world, k, rng),
        decreases m,
    {
        if k < m {
            self.lemma_image_none(world, k, (m - 1) as nat, rng);
        }
    }

    /// The integer channels of pixel `(i, j)`: sends `samples_per_pixel`
    /// rays through the pixel, adds up their estimates, and writes the
    /// mean as integers. `None` where an estimate failed.
    pub fn sample_pixel<W: Hittable<T> + ?Sized, R: RandomSource<T>>(
        &self,
        world: &W,
        i: i64,
        j: i64,
        rng: &mut R,
    ) -> (pixel: Option<Vec3<i32>>)
        requires
            total_arith::<T>(),
        ensures
            exact_random::<T, R>() && world.obeys_hit_spec() ==> (pixel, *final(rng))
                == self.pixel_spec(world, i, j, *old(rng)),
            pixel matches Some(channels) ==> is_pixel(channels),
    {
        let mut pixel_color: Color<T> = Color::zero();
        let mut sample: i64 = 0;
        while sample < self.samples_per_pixel
            invariant
                0 <= sample,
                sample <= count_spec(self.samples_per_pixel),
                total_arith::<T>(),
                exact_random::<T, R>() && world.obeys_hit_spec() ==> (Some(pixel_color), *rng)
                    == self.sample_sum_spec(world, i, j, sample as nat, *old(rng)),
            decreases self.samples_per_pixel - sample,
        {
            let r = self.get_ray(i, j, rng);
            match color_estimate(&r, world, self.max_depth, self.max_tries, rng) {
                Some(c) => {
                    pixel_color = pixel_color + c;
                },
                None => {
                    proof {
                        if exact_random::<T, R>() && world.obeys_hit_spec() {
                            self.lemma_sample_sum_none(
                                world,
                                i,
                                j,
                                (sample + 1) as nat,
                                count_spec(self.samples_per_pixel),
                                *old(rng),
                            );
                        }
                    }
                    return None;
                },
            }
            sample = sample + 1;
        }
        Some(pixel_color.write_color_aa(self.samples_per_pixel))
    }

    /// Renders the scene: derives the viewport, then computes the pixels
    /// row by row from the top, each row from the left. `None` where an
    /// estimate failed.
    pub fn render<W: Hittable<T> + ?Sized, R: RandomSource<T>>(
        &mut self,
        world: &W,
        rng: &mut R,
    ) -> (pixels: Option<Vec<Vec3<i32>>>)
        requires
            total_arith::<T>(),
        ensures
            exact_random::<T, R>() && world.obeys_hit_spec() ==> (pixels_view(pixels), *final(rng))
                == old(self).render_spec(world, *old(rng)),
            exact_arith::<T>() ==> *final(self) == old(self).initialized_spec(),
            final(self).image_width == old(self).image_width,
            final(self).image_height >= 1,
            pixels matches Some(v) ==> v@.len() == final(self).image_height * count_spec(
                final(self).image_width,
            ),
            pixels matches Some(v) ==> forall|k: int| 0 <= k < v@.len() ==> is_pixel(#[trigger] v@[k]),
    {
        self.initialize();
        let ghost camera = *self;
        let ghost width = count_spec(self.image_width);
        let mut out: Vec<Vec3<i32>> = Vec::new();
        let mut j: i64 = 0;
        while j < self.image_height
            invariant
                0 <= j <= self.image_height,
                *self == camera,
                camera.image_width == old(self).image_width,
                camera.image_height >= 1,
                exact_arith::<T>() ==> camera == old(self).initialized_spec(),
                width == count_spec(camera.image_width),
                total_arith::<T>(),
                out@.len() == j * width,
                forall|k: int| 0 <= k < out@.len() ==> is_pixel(#[trigger] out@[k]),
                exact_random::<T, R>() && world.obeys_hit_spec() ==> (Some(out@), *rng)
                    == camera.image_spec(world, j as nat, *old(rng)),
            decreases self.image_height - j,
        {
            let ghost image = out@;
            let ghost at_row = *rng;
            let mut i: i64 = 0;
            while i < self.image_width
                invariant
                    0 <= j < self.image_height,
                    0 <= i,
                    i <= width,
                    *self == camera,
                    camera.image_width == old(self).image_width,
                    camera.image_height >= 1,
                    exact_arith::<T>() ==> camera == old(self).initialized_spec(),
                    width == count_spec(camera.image_width),
                    total_arith::<T>(),
                    exact_random::<T, R>() && world.obeys_hit_spec() ==> (Some(image), at_row)
                        == camera.image_spec(world, j as nat, *old(rng)),
                    image.len() == j * width,
                    out@.len() == image.len() + i,
                    forall|k: int| 0 <= k < out@.len() ==> is_pixel(#[trigger] out@[k]),
                    out@.subrange(0, image.len() as int) == image,
                    exact_random::<T, R>() && world.obeys_hit_spec() ==> (
                        Some(out@.subrange(image.len() as int, out@.len() as int)),
                        *rng,
                    ) == camera.row_spec(world, j, i as nat, at_row),
                decreases self.image_width - i,
            {
                let ghost before = out@;
                match self.sample_pixel(world, i, j, rng) {
                    Some(pixel) => {
                        out.push(pixel);
                        proof {
                            assert(out@.subrange(image.len() as int, out@.len() as int)
                                == before.subrange(image.len() as int, before.len() as int).push(
                                pixel,
                            ));
                        }
                    },
                    None => {
                        proof {
                            if exact_random::<T, R>() && world.obeys_hit_spec() {
                                camera.lemma_row_none(world, j, (i + 1) as nat, width, at_row);
                                camera.lemma_image_none(
                                    world,
                                    (j + 1) as nat,
                                    count_spec(camera.image_height),
                                    *old(rng),
                                );
                            }
                        }
                        return None;
                    },
                }
                i = i + 1;
            }
            proof {
                assert(out@ == image + out@.subrange(image.len() as int, out@.len() as int));
                assert(out@.len() == (j + 1) * width) by (nonlinear_arith)
                    requires
                        out@.len() == image.len() + i,
                        image.len() == j * width,
                        i == width,
                ;
            }
            j = j + 1;
        }
        Some(out)
    }
}

} // verus!
