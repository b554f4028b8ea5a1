//! Hit records, the closed set of hittable shapes, and the scene list
//! that reduces a ray to its nearest hit.

use vstd::prelude::*;
use crate::fixed::Fx;
use crate::moving_sphere::{moving_sphere_hit, moving_sphere_wf, MovingSphere};
use crate::ray::{ray_wf, Ray};
use crate::sphere::{sphere_hit, sphere_wf, Sphere};
use crate::vec3::{sdot, vec_mag_le, vneg, Vector3, VMAX};

verus! {

/// Bound on the coordinates of an outward normal: normals are near unit
/// length, and this is the range the intersection guard admits.
pub const NORMAL_MAX: i128 = 262144;

/// The record of a successful intersection. The material is an index into
/// the scene's material arena, so one material can back many shapes.
#[derive(Clone, Copy, Debug)]
pub struct HitRecord {
    pub p: Vector3,
    pub normal: Vector3,
    pub mat: Option<usize>,
    pub t: Fx,
    pub front_face: bool,
    pub u: Fx,
    pub v: Fx,
}

/// A hit record whose fields are within the ranges the intersection
/// routines guarantee.
pub open spec fn hit_rec_wf(rec: HitRecord) -> bool {
    &&& vec_mag_le(rec.p, VMAX as int)
    &&& vec_mag_le(rec.normal, NORMAL_MAX as int)
    &&& -VMAX <= rec.t <= VMAX
    &&& 0 <= rec.u <= 65536
    &&& 0 <= rec.v <= 65536
}

impl HitRecord {
    /// Orients the stored normal against the incoming ray: the front-face
    /// flag records whether the ray met the outward side, and the normal
    /// always faces the ray.
    pub fn set_face_normal(&mut self, r: &Ray, outward_normal: &Vector3)
        requires
            vec_mag_le(r.dir, crate::fixed::FX_MUL_LIM as int),
            vec_mag_le(*outward_normal, crate::fixed::FX_MUL_LIM as int),
        ensures
            final(self).front_face == (sdot(r.dir, *outward_normal) < 0),
            final(self).normal == (if sdot(r.dir, *outward_normal) < 0 {
                *outward_normal
            } else {
                vneg(*outward_normal)
            }),
            final(self).p == old(self).p,
            final(self).mat == old(self).mat,
            final(self).t == old(self).t,
            final(self).u == old(self).u,
            final(self).v == old(self).v,
    {
        self.front_face = r.dir().dot(*outward_normal) < 0;
        self.normal = if self.front_face {
            *outward_normal
        } else {
            outward_normal.negate()
        };
    }
}

/// The closed set of shapes a ray can intersect.
pub enum Hittable {
    Sphere(Sphere),
    MovingSphere(MovingSphere),
}

/// A shape whose geometry is within the world range.
pub open spec fn object_wf(o: Hittable) -> bool {
    match o {
        Hittable::Sphere(s) => sphere_wf(s),
        Hittable::MovingSphere(m) => moving_sphere_wf(m),
    }
}

/// The intersection of a ray with one shape.
pub open spec fn object_hit(o: Hittable, r: Ray, t_min: int, t_max: int) -> Option<HitRecord> {
    match o {
        Hittable::Sphere(s) => sphere_hit(s, r, t_min, t_max),
        Hittable::MovingSphere(m) => moving_sphere_hit(m, r, t_min, t_max),
    }
}

impl Hittable {
    /// The intersection of a ray with this shape.
    pub fn hit(&self, r: &Ray, t_min: Fx, t_max: Fx) -> (res: Option<HitRecord>)
        requires
            object_wf(*self),
            ray_wf(*r),
            -VMAX <= t_min <= VMAX,
            -VMAX <= t_max <= VMAX,
        ensures
            res == object_hit(*self, *r, t_min as int, t_max as int),
            res matches Some(rec) ==> hit_rec_wf(rec) && t_min < rec.t < t_max,
    {
        match self {
            Hittable::Sphere(s) => s.hit(r, t_min, t_max),
            Hittable::MovingSphere(m) => m.hit(r, t_min, t_max),
        }
    }
}

/// The nearest hit among a sequence of shapes: each shape is tried
/// against the upper bound that the nearest hit so far has set.
pub open spec fn list_hit(objs: Seq<Hittable>, r: Ray, t_min: int, t_max: int) -> Option<
    HitRecord,
>
    decreases objs.len(),
{
    if objs.len() == 0 {
        None
    } else {
        let prev = list_hit(objs.drop_last(), r, t_min, t_max);
        let bound = match prev {
            Some(rec) => rec.t as int,
            None => t_max,
        };
        match object_hit(objs.last(), r, t_min, bound) {
            Some(rec) => Some(rec),
            None => prev,
        }
    }
}

/// A scene: a flat list of shapes scanned linearly.
pub struct HittableList {
    pub list: Vec<Hittable>,
}

/// Every shape of the list is within the world range.
pub open spec fn list_wf(l: HittableList) -> bool {
    forall|i: int| 0 <= i < l.list@.len() ==> object_wf(#[trigger] l.list@[i])
}

impl HittableList {
    /// An empty scene.
    pub fn new() -> (r: HittableList)
        ensures
            r.list@.len() == 0,
            list_wf(r),
    {
        HittableList { list: Vec::new() }
    }

    /// Adds a shape to the scene.
    pub fn push(&mut self, hittable: Hittable)
        requires
            object_wf(hittable),
            list_wf(*old(self)),
        ensures
            final(self).list@ == old(self).list@.push(hittable),
            list_wf(*final(self)),
    {
        self.list.push(hittable);
    }

    /// The nearest hit of the ray among all shapes: a linear scan that
    /// narrows the search bound to the nearest hit found so far.
    pub fn hit(&self, r: &Ray, t_min: Fx, t_max: Fx) -> (res: Option<HitRecord>)
        requires
            list_wf(*self),
            ray_wf(*r),
            -VMAX <= t_min <= VMAX,
            -VMAX <= t_max <= VMAX,
        ensures
            res == list_hit(self.list@, *r, t_min as int, t_max as int),
            res matches Some(rec) ==> hit_rec_wf(rec) && t_min < rec.t < t_max,
    {
        let mut res: Option<HitRecord> = None;
        let mut closest: Fx = t_max;
        let n: usize = self.list.len();
        let mut i: usize = 0;
        while i < n
            invariant
                0 <= i <= n,
                n == self.list@.len(),
                list_wf(*self),
                ray_wf(*r),
                -VMAX <= t_min <= VMAX,
                -VMAX <= t_max <= VMAX,
                res == list_hit(self.list@.take(i as int), *r, t_min as int, t_max as int),
                closest == (match res {
                    Some(rec) => rec.t,
                    None => t_max,
                }),
                res matches Some(rec) ==> hit_rec_wf(rec) && t_min < rec.t < t_max,
            decreases n - i,
        {
            let obj: &Hittable = &self.list[i];
            match obj.hit(r, t_min, closest) {
                Some(rec) => {
                    res = Some(rec);
                    closest = rec.t;
                },
                None => {
                },
            }
            proof {
                assert(self.list@.take(i + 1).drop_last() =~= self.list@.take(i as int));
                assert(self.list@.take(i + 1).last() == self.list@[i as int]);
            }
            i = i + 1;
        }
        proof {
            assert(self.list@.take(n as int) =~= self.list@);
        }
        res
    }
}

} // verus!
