//! Sphere geometry: the quadratic ray intersection in half form, and the
//! spherical surface coordinates.

use vstd::prelude::*;
use crate::fixed::{fdiv, fmul, fx_div, fx_mul, fx_sqrt, lemma_fmul_mag, sqrt_floor, Fx};
use crate::hittable::{hit_rec_wf, HitRecord, NORMAL_MAX};
use crate::ray::{ray_at, ray_wf, Ray};
use crate::trig::{acos_fx, atan2_fx, fx_clamp, sacos, satan2, sclamp};
use crate::vec3::{
    lemma_sdot_mag, lemma_sdot_self_nonneg, sdot, vdiv, vec_mag_le, vneg, vsub, Vector3, VMAX,
};

verus! {

/// A static sphere, optionally backed by a material of the scene arena.
pub struct Sphere {
    pub center: Vector3,
    pub radius: Fx,
    pub mat: Option<usize>,
}

/// A sphere within the world range.
pub open spec fn sphere_wf(s: Sphere) -> bool {
    vec_mag_le(s.center, VMAX as int) && 0 <= s.radius <= VMAX
}

/// The polar angle of an outward normal, from its clamped height.
pub open spec fn sph_theta(n: Vector3) -> int {
    sacos(sclamp(-(n.y as int), -65536, 65536))
}

/// The azimuthal angle of an outward normal, shifted into `[0, 2 pi]`.
pub open spec fn sph_phi(n: Vector3) -> int {
    satan2(-(n.z as int), n.x as int) + 205887
}

/// The surface coordinate along the azimuth, in the unit interval.
pub open spec fn sph_u(n: Vector3) -> int {
    sclamp(fdiv(sph_phi(n), 411774), 0, 65536)
}

/// The surface coordinate along the pole, in the unit interval.
pub open spec fn sph_v(n: Vector3) -> int {
    sclamp(fdiv(sph_theta(n), 205887), 0, 65536)
}

/// The intersection of a ray with the sphere of the given center and
/// radius: the half-form quadratic, the nearer admissible root, and the
/// oriented normal. Degenerate rays, zero radii and results outside the
/// representable range are misses.
pub open spec fn hit_core(
    center: Vector3,
    radius: int,
    mat: Option<usize>,
    with_uv: bool,
    r: Ray,
    t_min: int,
    t_max: int,
) -> Option<HitRecord> {
    let oc = vsub(center, r.orig);
    let a = sdot(r.dir, r.dir);
    let h = sdot(r.dir, oc);
    let c = sdot(oc, oc) - fmul(radius, radius);
    if a == 0 || radius == 0 {
        None
    } else {
        let disc = fmul(h, h) - fmul(a, c);
        if disc < 0 {
            None
        } else {
            let sq = sqrt_floor(disc * 65536);
            let r1 = fdiv(h - sq, a);
            let r2 = fdiv(h + sq, a);
            let root = if t_min < r1 && r1 < t_max {
                r1
            } else {
                r2
            };
            if !(t_min < root && root < t_max) {
                None
            } else {
                let p = ray_at(r, root);
                let outward = vdiv(vsub(p, center), radius);
                if !(vec_mag_le(p, VMAX as int) && vec_mag_le(outward, 262144)) {
                    None
                } else {
                    let ff = sdot(r.dir, outward) < 0;
                    let n = if ff {
                        outward
                    } else {
                        vneg(outward)
                    };
                    Some(
                        HitRecord {
                            p,
                            normal: n,
                            mat,
                            t: root as i128,
                            front_face: ff,
                            u: if with_uv {
                                sph_u(outward) as i128
                            } else {
                                0
                            },
                            v: if with_uv {
                                sph_v(outward) as i128
                            } else {
                                0
                            },
                        },
                    )
                }
            }
        }
    }
}

/// The discriminant of the half-form sphere quadratic.
pub open spec fn sph_disc(center: Vector3, radius: int, r: Ray) -> int {
    let oc = vsub(center, r.orig);
    let a = sdot(r.dir, r.dir);
    let h = sdot(r.dir, oc);
    let c = sdot(oc, oc) - fmul(radius, radius);
    fmul(h, h) - fmul(a, c)
}

/// The spherical surface coordinates of the outward normal `n`.
pub fn sphere_uv(n: Vector3) -> (r: (Fx, Fx))
    requires
        vec_mag_le(n, NORMAL_MAX as int),
    ensures
        r.0 == sph_u(n),
        r.1 == sph_v(n),
        0 <= r.0 <= 65536,
        0 <= r.1 <= 65536,
{
    let theta: i128 = acos_fx(fx_clamp(-n.y, -65536, 65536));
    let phi: i128 = atan2_fx(-n.z, n.x) + 205887;
    let u: i128 = fx_clamp(fx_div(phi, 411774), 0, 65536);
    let v: i128 = fx_clamp(fx_div(theta, 205887), 0, 65536);
    (u, v)
}

/// The shared intersection routine of the static and the moving sphere.
pub fn hit_sphere_at(
    center: Vector3,
    radius: Fx,
    mat: Option<usize>,
    with_uv: bool,
    r: &Ray,
    t_min: Fx,
    t_max: Fx,
) -> (res: Option<HitRecord>)
    requires
        vec_mag_le(center, VMAX as int),
        0 <= radius <= VMAX,
        ray_wf(*r),
        -VMAX <= t_min <= VMAX,
        -VMAX <= t_max <= VMAX,
    ensures
        res == hit_core(center, radius as int, mat, with_uv, *r, t_min as int, t_max as int),
        res matches Some(rec) ==> hit_rec_wf(rec) && t_min < rec.t < t_max && rec.mat == mat,
{
    let oc: Vector3 = center.minus(r.orig);
    proof {
        lemma_sdot_mag(r.dir, r.dir, 137438953472, 137438953472);
        lemma_sdot_mag(r.dir, oc, 137438953472, 206158430208);
        lemma_sdot_mag(oc, oc, 206158430208, 206158430208);
        lemma_fmul_mag(radius as int, radius as int, VMAX as int, VMAX as int);
        lemma_sdot_self_nonneg(r.dir);
    }
    let a: Fx = r.dir.dot(r.dir);
    let h: Fx = r.dir.dot(oc);
    let c: Fx = oc.dot(oc) - fx_mul(radius, radius);
    if a == 0 || radius == 0 {
        return None;
    }
    let disc: Fx = fx_mul(h, h) - fx_mul(a, c);
    if disc < 0 {
        return None;
    }
    let sq: Fx = fx_sqrt(disc);
    let r1: Fx = fx_div(h - sq, a);
    let r2: Fx = fx_div(h + sq, a);
    let root: Fx = if t_min < r1 && r1 < t_max {
        r1
    } else {
        r2
    };
    if !(t_min < root && root < t_max) {
        return None;
    }
    let p: Vector3 = r.at(root);
    let outward: Vector3 = p.minus(center).divide(radius);
    if !(p.mag_le(68719476736) && outward.mag_le(262144)) {
        return None;
    }
    let mut rec: HitRecord = HitRecord {
        p,
        normal: Vector3 { x: 0, y: 0, z: 0 },
        mat,
        t: root,
        front_face: false,
        u: 0,
        v: 0,
    };
    rec.set_face_normal(r, &outward);
    if with_uv {
        let uv: (Fx, Fx) = sphere_uv(outward);
        rec.u = uv.0;
        rec.v = uv.1;
    }
    Some(rec)
}

impl Sphere {
    /// A sphere with the given center and material; a negative radius is
    /// clamped to zero.
    pub fn new(center: Vector3, radius: Fx, mat: Option<usize>) -> (s: Sphere)
        requires
            vec_mag_le(center, VMAX as int),
            radius <= VMAX,
        ensures
            s.center == center,
            s.mat == mat,
            s.radius == (if radius < 0 {
                0int
            } else {
                radius as int
            }),
            sphere_wf(s),
    {
        Sphere { center, radius: if radius < 0 { 0 } else { radius }, mat }
    }

    pub fn center(&self) -> (r: Vector3)
        ensures
            r == self.center,
    {
        self.center
    }

    pub fn radius(&self) -> (r: Fx)
        ensures
            r == self.radius,
    {
        self.radius
    }

    /// The spherical surface coordinates of the outward normal `p`.
    pub fn get_sphere_uv(&self, p: Vector3) -> (r: (Fx, Fx))
        requires
            vec_mag_le(p, NORMAL_MAX as int),
        ensures
            r.0 == sph_u(p),
            r.1 == sph_v(p),
    {
        sphere_uv(p)
    }

    /// The nearest intersection of the ray with this sphere inside the
    /// open interval `(t_min, t_max)`.
    pub fn hit(&self, r: &Ray, t_min: Fx, t_max: Fx) -> (res: Option<HitRecord>)
        requires
            sphere_wf(*self),
            ray_wf(*r),
            -VMAX <= t_min <= VMAX,
            -VMAX <= t_max <= VMAX,
        ensures
            res == sphere_hit(*self, *r, t_min as int, t_max as int),
            res matches Some(rec) ==> hit_rec_wf(rec) && t_min < rec.t < t_max,
    {
        hit_sphere_at(self.center, self.radius, self.mat, true, r, t_min, t_max)
    }
}

/// The intersection of a ray with a static sphere.
pub open spec fn sphere_hit(s: Sphere, r: Ray, t_min: int, t_max: int) -> Option<HitRecord> {
    hit_core(s.center, s.radius as int, s.mat, true, r, t_min, t_max)
}

/// Every reported hit faces the ray: the front-face flag records whether
/// the ray met the outward side, and the oriented normal's dot product
/// with the ray direction is never positive, because the normal is
/// flipped for rays striking from inside.
pub proof fn lemma_hit_normal_faces_ray(
    center: Vector3,
    radius: int,
    mat: Option<usize>,
    with_uv: bool,
    r: Ray,
    t_min: int,
    t_max: int,
)
    requires
        -68719476736 <= t_min <= 68719476736,
        -68719476736 <= t_max <= 68719476736,
    ensures
        hit_core(center, radius, mat, with_uv, r, t_min, t_max) matches Some(rec) ==> ({
            let outward = vdiv(
                vsub(ray_at(r, rec.t as int), center),
                radius,
            );
            &&& rec.front_face == (sdot(r.dir, outward) < 0)
            &&& rec.front_face ==> rec.normal == outward
            &&& !rec.front_face ==> rec.normal == vneg(outward) && sdot(r.dir, outward) >= 0
            &&& sdot(r.dir, rec.normal) <= 0
        }),
{
    let res = hit_core(center, radius, mat, with_uv, r, t_min, t_max);
    if res is Some {
        let rec = res.unwrap();
        let oc = vsub(center, r.orig);
        let a = sdot(r.dir, r.dir);
        let h = sdot(r.dir, oc);
        let sq = sqrt_floor(sph_disc(center, radius, r) * 65536);
        let r1 = fdiv(h - sq, a);
        let r2 = fdiv(h + sq, a);
        let root = if t_min < r1 && r1 < t_max {
            r1
        } else {
            r2
        };
        let p = ray_at(r, root);
        let outward = vdiv(vsub(p, center), radius);
        assert(rec.t == root);
        if !(sdot(r.dir, outward) < 0) {
            crate::vec3::lemma_sdot_neg(r.dir, outward);
        }
    }
}

/// How the discriminant decides the intersection: a negative discriminant
/// is a miss; a zero discriminant leaves exactly one candidate root, so
/// any accepted hit is the tangent point; a positive discriminant with
/// both roots outside the open interval is a miss.
pub proof fn lemma_sphere_hit_discriminant(
    center: Vector3,
    radius: int,
    mat: Option<usize>,
    with_uv: bool,
    r: Ray,
    t_min: int,
    t_max: int,
)
    requires
        -68719476736 <= t_min <= 68719476736,
        -68719476736 <= t_max <= 68719476736,
    ensures
        sph_disc(center, radius, r) < 0 ==> hit_core(
            center,
            radius,
            mat,
            with_uv,
            r,
            t_min,
            t_max,
        ) is None,
        sph_disc(center, radius, r) == 0 ==> (hit_core(
            center,
            radius,
            mat,
            with_uv,
            r,
            t_min,
            t_max,
        ) matches Some(rec) ==> rec.t == fdiv(
            sdot(r.dir, vsub(center, r.orig)),
            sdot(r.dir, r.dir),
        )),
        ({
            let oc = vsub(center, r.orig);
            let a = sdot(r.dir, r.dir);
            let h = sdot(r.dir, oc);
            let sq = sqrt_floor(sph_disc(center, radius, r) * 65536);
            let r1 = fdiv(h - sq, a);
            let r2 = fdiv(h + sq, a);
            sph_disc(center, radius, r) > 0 && !(t_min < r1 && r1 < t_max) && !(t_min < r2 && r2
                < t_max) ==> hit_core(center, radius, mat, with_uv, r, t_min, t_max) is None
        }),
{
    if sph_disc(center, radius, r) == 0 {
        crate::fixed::lemma_sqrt_unique(0, 0);
        assert(sqrt_floor(0) == 0);
    }
}

} // verus!
