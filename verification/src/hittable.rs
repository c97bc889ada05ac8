//! What a ray can hit, and the record of a hit.
//!
//! A surface implements [`Hittable`]. A [`HittableList`] is itself one: it
//! asks its members in turn, each only for a hit nearer than the nearest so
//! far, and so reports the nearest hit of all.
use vstd::prelude::*;
use vstd::std_specs::ops::NegSpec;
use vstd::std_specs::cmp::PartialOrdIs;
use std::ops::Neg;
use crate::interval::Interval;
use crate::ray::Ray;
use crate::scalar::{below, below_is_transitive, exact_arith, total_arith, zero_spec, Scalar};
use crate::vec3::{Point3, Vec3};

verus! {

/// Where and how a ray met a surface.
#[derive(Debug, Clone, Copy, Default, PartialEq)]
pub struct HitRecord<T> {
    /// Whether the ray came from outside the surface.
    pub front_face: bool,
    /// The unit normal at the hit, turned against the ray.
    pub normal: Vec3<T>,
    /// The point of the hit.
    pub p: Point3<T>,
    /// The ray's parameter at the hit.
    pub t: T,
}

impl<T: Scalar> HitRecord<T> {
    /// Whether a ray along `direction` meets a surface with the outward
    /// normal `outward_normal` from outside: their dot product is negative.
    pub open spec fn faces_front(direction: Vec3<T>, outward_normal: Vec3<T>) -> bool {
        direction.dot_spec(outward_normal).is_lt(&zero_spec::<T>())
    }

    /// The record with its normal set against the ray `r`: the outward
    /// normal where the ray comes from outside, its negation where it
    /// comes from inside.
    pub open spec fn face_normal_spec(self, r: Ray<T>, outward_normal: Vec3<T>) -> Self {
        let front = Self::faces_front(r.dir, outward_normal);
        HitRecord {
            front_face: front,
            normal: if front {
                outward_normal
            } else {
                outward_normal.neg_spec()
            },
            p: self.p,
            t: self.t,
        }
    }

    /// The record of all zeros, marked as a hit from outside.
    pub open spec fn new_spec() -> Self {
        HitRecord {
            front_face: true,
            normal: Vec3::splat(zero_spec::<T>()),
            p: Vec3::splat(zero_spec::<T>()),
            t: zero_spec::<T>(),
        }
    }

    /// Sets `front_face` and `normal` from the ray and the surface's outward
    /// normal, so that the normal always points against the ray.
    pub fn set_face_normal(&mut self, r: &Ray<T>, outward_normal: &Vec3<T>)
        requires
            total_arith::<T>(),
        ensures
            exact_arith::<T>() ==> *final(self) == old(self).face_normal_spec(*r, *outward_normal),
            final(self).p == old(self).p,
            final(self).t == old(self).t,
            final(self).front_face ==> final(self).normal == *outward_normal,
    {
        self.front_face = r.direction().dot(outward_normal) < T::from_int(0);
        self.normal = if self.front_face {
            *outward_normal
        } else {
            (*outward_normal).neg()
        };
    }

    /// A record to be filled in by a hit test.
    pub fn new() -> (r: Self)
        ensures
            exact_arith::<T>() ==> r == Self::new_spec(),
    {
        HitRecord {
            p: Vec3::from_float(T::from_int(0)),
            normal: Vec3::from_float(T::from_int(0)),
            t: T::from_int(0),
            front_face: true,
        }
    }

    /// The normal at the hit.
    pub fn normal(self) -> (r: Vec3<T>)
        ensures
            r == self.normal,
    {
        self.normal
    }

    /// The point of the hit.
    pub fn point(self) -> (r: Vec3<T>)
        ensures
            r == self.p,
    {
        self.p
    }
}

/// A surface that a ray can hit.
///
/// An implementation says in `hit_spec` what it reports for a ray and a
/// range of parameters, and declares in `obeys_hit_spec` that `hit` follows
/// it. Of an implementation that declares nothing, nothing is believed.
pub trait Hittable<T: Scalar> {
    /// Whether `hit` follows `hit_spec`.
    open spec fn obeys_hit_spec(&self) -> bool {
        false
    }

    /// The record of the hit of `r` on this surface with its parameter
    /// inside `ray_t`, or `None` where there is none.
    open spec fn hit_spec(&self, r: Ray<T>, ray_t: Interval<T>) -> Option<HitRecord<T>> {
        arbitrary()
    }

    /// Tests whether `r` hits the surface at a parameter strictly inside
    /// `ray_t`. On a hit it writes the record to `rec` and returns `true`.
    fn hit(&self, r: &Ray<T>, ray_t: Interval<T>, rec: &mut HitRecord<T>) -> (b: bool)
        requires
            total_arith::<T>(),
        ensures
            exact_arith::<T>() && self.obeys_hit_spec() ==> match self.hit_spec(*r, ray_t) {
                Some(h) => b && *final(rec) == h,
                None => !b,
            },
    ;
}

/// The range that the member after a scan is asked for: from the lower end
/// of `ray_t` to the parameter of the nearest hit so far, or to the upper
/// end of `ray_t` where nothing was hit yet.
pub open spec fn narrowed<T>(ray_t: Interval<T>, so_far: Option<HitRecord<T>>) -> Interval<T> {
    Interval {
        min: ray_t.min,
        max: match so_far {
            Some(h) => h.t,
            None => ray_t.max,
        },
    }
}

/// The hit that a scan of the first `n` surfaces of `objects` ends with:
/// each surface is asked for a hit inside the range narrowed by the scan
/// before it, and a hit that it reports replaces the one so far.
pub open spec fn scan_spec<T: Scalar>(
    objects: Seq<Box<dyn Hittable<T>>>,
    r: Ray<T>,
    ray_t: Interval<T>,
    n: nat,
) -> Option<HitRecord<T>>
    decreases n,
{
    if n == 0 {
        None
    } else {
        let so_far = scan_spec(objects, r, ray_t, (n - 1) as nat);
        match objects[n - 1].hit_spec(r, narrowed(ray_t, so_far)) {
            Some(h) => Some(h),
            None => so_far,
        }
    }
}

/// A collection of surfaces, hit where its nearest member is hit.
#[verifier::reject_recursive_types(T)]
pub struct HittableList<T: Scalar> {
    pub objects: Vec<Box<dyn Hittable<T>>>,
}

impl<T: Scalar> HittableList<T> {
    /// The empty list.
    pub fn new() -> (r: Self)
        ensures
            r.objects@ == Seq::<Box<dyn Hittable<T>>>::empty(),
    {
        HittableList { objects: Vec::new() }
    }

    /// A list whose members report hits inside the range asked for reports
    /// its own hit strictly inside `ray_t`.
    pub proof fn lemma_hit_inside(&self, r: Ray<T>, ray_t: Interval<T>)
        requires
            below_is_transitive::<T>(),
            members_hit_inside(self.objects@, self.objects@.len()),
        ensures
            self.hit_spec(r, ray_t) matches Some(rec) ==> ray_t.surrounds_spec(rec.t),
    {
        lemma_scan_inside(self.objects@, r, ray_t, self.objects@.len());
    }

    /// The list reports the nearest of the hits that its members reported
    /// when they were asked in turn: where the member at `i` reported the
    /// hit `h`, the list reports `h` itself or a hit whose parameter is
    /// strictly below that of `h`.
    pub proof fn lemma_hit_nearest(&self, r: Ray<T>, ray_t: Interval<T>, i: int)
        requires
            0 <= i < self.objects@.len(),
            below_is_transitive::<T>(),
            members_hit_inside(self.objects@, self.objects@.len()),
        ensures
            self.objects@[i].hit_spec(
                r,
                narrowed(ray_t, scan_spec(self.objects@, r, ray_t, i as nat)),
            ) matches Some(h) ==> (self.hit_spec(r, ray_t) matches Some(best) && (best == h
                || below(best.t, h.t))),
    {
        lemma_scan_nearest(self.objects@, r, ray_t, self.objects@.len(), i);
    }
}

impl<T: Scalar> Hittable<T> for HittableList<T> {
    /// The list follows its specification where every member follows its
    /// own.
    open spec fn obeys_hit_spec(&self) -> bool {
        forall|i: int| 0 <= i < self.objects@.len() ==> (#[trigger] self.objects@[i]).obeys_hit_spec()
    }

    /// The hit that a scan of all members ends with.
    open spec fn hit_spec(&self, r: Ray<T>, ray_t: Interval<T>) -> Option<HitRecord<T>> {
        scan_spec(self.objects@, r, ray_t, self.objects@.len())
    }

    /// Reports the hit that the scan of all members ends with, and leaves
    /// `rec` as it was where no member is hit.
    fn hit(&self, r: &Ray<T>, ray_t: Interval<T>, rec: &mut HitRecord<T>) -> (b: bool)
        ensures
            !b ==> *final(rec) == *old(rec),
    {
        let mut temp_rec = HitRecord::new();
        let mut hit_anything = false;
        let mut closest_so_far = ray_t.max;
        let mut i: usize = 0;
        while i < self.objects.len()
            invariant
                i <= self.objects@.len(),
                total_arith::<T>(),
                !hit_anything ==> *rec == *old(rec),
                exact_arith::<T>() && self.obeys_hit_spec() ==> match scan_spec(
                    self.objects@,
                    *r,
                    ray_t,
                    i as nat,
                ) {
                    Some(h) => hit_anything && closest_so_far == h.t && *rec == h,
                    None => !hit_anything && closest_so_far == ray_t.max,
                },
            decreases self.objects@.len() - i,
        {
            if self.objects[i].hit(r, Interval::new(ray_t.min, closest_so_far), &mut temp_rec) {
                hit_anything = true;
                closest_so_far = temp_rec.t;
                *rec = temp_rec;
            }
            i = i + 1;
        }
        hit_anything
    }
}


/// Every hit that the first `n` surfaces of `objects` report lies strictly
/// inside the range that was asked for.
pub open spec fn members_hit_inside<T: Scalar>(objects: Seq<Box<dyn Hittable<T>>>, n: nat) -> bool {
    forall|i: int, r: Ray<T>, ray_t: Interval<T>|
        0 <= i < n ==> ((#[trigger] objects[i].hit_spec(r, ray_t)) matches Some(rec)
            ==> ray_t.surrounds_spec(rec.t))
}

/// A list whose members report hits inside the range asked for does so
/// too: the hit that a scan ends with lies strictly inside `ray_t`.
pub proof fn lemma_scan_inside<T: Scalar>(
    objects: Seq<Box<dyn Hittable<T>>>,
    r: Ray<T>,
    ray_t: Interval<T>,
    n: nat,
)
    requires
        n <= objects.len(),
        below_is_transitive::<T>(),
        members_hit_inside(objects, n),
    ensures
        scan_spec(objects, r, ray_t, n) matches Some(rec) ==> ray_t.surrounds_spec(rec.t),
    decreases n,
{
    if n > 0 {
        lemma_scan_inside(objects, r, ray_t, (n - 1) as nat);
        let so_far = scan_spec(objects, r, ray_t, (n - 1) as nat);
        let asked = narrowed(ray_t, so_far);
        match objects[n - 1].hit_spec(r, asked) {
            Some(h) => {
                match so_far {
                    Some(p) => {
                        assert(below(h.t, p.t) && below(p.t, ray_t.max));
                    },
                    None => {},
                }
            },
            None => {},
        }
    }
}

/// The scan ends with the nearest of the hits that were reported during
/// it: where the surface at `i` reported the hit `h` in its turn, the scan
/// of the first `n` surfaces, `n` above `i`, ends with `h` itself or with a
/// hit whose parameter is strictly below that of `h`.
pub proof fn lemma_scan_nearest<T: Scalar>(
    objects: Seq<Box<dyn Hittable<T>>>,
    r: Ray<T>,
    ray_t: Interval<T>,
    n: nat,
    i: int,
)
    requires
        0 <= i < n <= objects.len(),
        below_is_transitive::<T>(),
        members_hit_inside(objects, n),
    ensures
        objects[i].hit_spec(r, narrowed(ray_t, scan_spec(objects, r, ray_t, i as nat))) matches Some(
            h,
        ) ==> (scan_spec(objects, r, ray_t, n) matches Some(best) && (best == h || below(
            best.t,
            h.t,
        ))),
    decreases n,
{
    let reported = objects[i].hit_spec(r, narrowed(ray_t, scan_spec(objects, r, ray_t, i as nat)));
    if n > i + 1 && reported.is_some() {
        lemma_scan_nearest(objects, r, ray_t, (n - 1) as nat, i);
        let h = reported.unwrap();
        let so_far = scan_spec(objects, r, ray_t, (n - 1) as nat);
        let best = so_far.unwrap();
        match objects[n - 1].hit_spec(r, narrowed(ray_t, so_far)) {
            Some(nearer) => {
                assert(below(nearer.t, best.t));
                if best != h {
                    assert(below(best.t, h.t));
                }
            },
            None => {},
        }
    }
}

} // verus!
