//! A sphere whose center moves linearly between two keyframes; the ray's
//! time selects the center the intersection uses.

use vstd::prelude::*;
use crate::fixed::{fdiv, fx_div, Fx};
use crate::hittable::{hit_rec_wf, HitRecord};
use crate::ray::{ray_wf, Ray};
use crate::sphere::{hit_core, hit_sphere_at};
use crate::vec3::{vadd, vec_mag_le, vscale, vsub, Vector3, VMAX};

verus! {

/// A sphere moving from `center0` at `time0` to `center1` at `time1`.
pub struct MovingSphere {
    pub center0: Vector3,
    pub center1: Vector3,
    pub time0: Fx,
    pub time1: Fx,
    pub radius: Fx,
    pub mat: Option<usize>,
}

/// A moving sphere within the world range, with distinct keyframe times.
pub open spec fn moving_sphere_wf(m: MovingSphere) -> bool {
    &&& vec_mag_le(m.center0, VMAX as int)
    &&& vec_mag_le(m.center1, VMAX as int)
    &&& -VMAX <= m.time0 <= VMAX
    &&& -VMAX <= m.time1 <= VMAX
    &&& m.time0 != m.time1
    &&& 0 <= m.radius <= VMAX
}

/// The center at time `t`, interpolated linearly between the keyframes.
pub open spec fn ms_center(m: MovingSphere, t: int) -> Vector3 {
    let s = fdiv(t - m.time0, m.time1 - m.time0);
    vadd(m.center0, vscale(s, vsub(m.center1, m.center0)))
}

/// The intersection of a ray with a moving sphere: the static-sphere
/// quadratic against the interpolated center. A center outside the world
/// range is a miss.
pub open spec fn moving_sphere_hit(m: MovingSphere, r: Ray, t_min: int, t_max: int) -> Option<
    HitRecord,
> {
    let c = ms_center(m, r.tm as int);
    if !vec_mag_le(c, VMAX as int) {
        None
    } else {
        hit_core(c, m.radius as int, m.mat, false, r, t_min, t_max)
    }
}

impl MovingSphere {
    /// A moving sphere with the given keyframes; a negative radius is
    /// clamped to zero.
    pub fn new(
        center0: Vector3,
        center1: Vector3,
        time0: Fx,
        time1: Fx,
        radius: Fx,
        mat: Option<usize>,
    ) -> (m: MovingSphere)
        requires
            vec_mag_le(center0, VMAX as int),
            vec_mag_le(center1, VMAX as int),
            -VMAX <= time0 <= VMAX,
            -VMAX <= time1 <= VMAX,
            time0 != time1,
            radius <= VMAX,
        ensures
            m.center0 == center0,
            m.center1 == center1,
            m.time0 == time0,
            m.time1 == time1,
            m.mat == mat,
            m.radius == (if radius < 0 {
                0int
            } else {
                radius as int
            }),
            moving_sphere_wf(m),
    {
        MovingSphere {
            center0,
            center1,
            time0,
            time1,
            radius: if radius < 0 {
                0
            } else {
                radius
            },
            mat,
        }
    }

    /// The center at time `t`.
    pub fn center(&self, time: Fx) -> (r: Vector3)
        requires
            moving_sphere_wf(*self),
            -VMAX <= time <= VMAX,
        ensures
            r == ms_center(*self, time as int),
    {
        let s: Fx = fx_div(time - self.time0, self.time1 - self.time0);
        proof {
            let num: int = (time - self.time0) * 65536;
            let den: int = self.time1 - self.time0;
            if den >= 1 {
                crate::fixed::lemma_div_t_mag(num, den, 9007199254740992);
            } else {
                crate::fixed::lemma_div_t_mag(num, -den, 9007199254740992);
                assert(crate::fixed::div_t(num, den) == -crate::fixed::div_t(num, -den));
            }
            crate::fixed::lemma_fmul_mag(
                s as int,
                (self.center1.x - self.center0.x) as int,
                9007199254740992,
                137438953472,
            );
            crate::fixed::lemma_fmul_mag(
                s as int,
                (self.center1.y - self.center0.y) as int,
                9007199254740992,
                137438953472,
            );
            crate::fixed::lemma_fmul_mag(
                s as int,
                (self.center1.z - self.center0.z) as int,
                9007199254740992,
                137438953472,
            );
        }
        self.center0.plus(self.center1.minus(self.center0).scale(s))
    }

    pub fn radius(&self) -> (r: Fx)
        ensures
            r == self.radius,
    {
        self.radius
    }

    /// The nearest intersection of the ray with this sphere inside the
    /// open interval `(t_min, t_max)`, at the ray's time.
    pub fn hit(&self, r: &Ray, t_min: Fx, t_max: Fx) -> (res: Option<HitRecord>)
        requires
            moving_sphere_wf(*self),
            ray_wf(*r),
            -VMAX <= t_min <= VMAX,
            -VMAX <= t_max <= VMAX,
        ensures
            res == moving_sphere_hit(*self, *r, t_min as int, t_max as int),
            res matches Some(rec) ==> hit_rec_wf(rec) && t_min < rec.t < t_max,
    {
        let c: Vector3 = self.center(r.time());
        if !c.mag_le(68719476736) {
            return None;
        }
        hit_sphere_at(c, self.radius, self.mat, false, r, t_min, t_max)
    }
}

/// The keyframes are interpolated exactly: at the first keyframe time the
/// center is the first keyframe center, and at the second the second.
pub proof fn lemma_moving_sphere_keyframes(m: MovingSphere)
    requires
        moving_sphere_wf(m),
    ensures
        ms_center(m, m.time0 as int) == m.center0,
        ms_center(m, m.time1 as int) == m.center1,
{
    let d: int = m.time1 - m.time0;
    assert(fdiv(0, d) == 0);
    crate::fixed::lemma_fmul_one(0);
    assert(ms_center(m, m.time0 as int) == m.center0);
    assert(fdiv(d, d) == 65536) by {
        if d >= 1 {
            vstd::arithmetic::div_mod::lemma_div_multiples_vanish(65536, d);
            assert(d * 65536 == d * 65536);
        } else {
            vstd::arithmetic::div_mod::lemma_div_multiples_vanish(65536, -d);
            assert((d * 65536) * -1 == (-d) * 65536) by (nonlinear_arith);
        }
    }
    crate::fixed::lemma_fmul_one((m.center1.x - m.center0.x) as int);
    crate::fixed::lemma_fmul_one((m.center1.y - m.center0.y) as int);
    crate::fixed::lemma_fmul_one((m.center1.z - m.center0.z) as int);
}

/// Halfway between the keyframe times, and when the time gap and every
/// coordinate gap are even, the center is the exact arithmetic mean of
/// the keyframe centers. An odd gap loses the half-step to truncation.
pub proof fn lemma_moving_sphere_midpoint(m: MovingSphere)
    requires
        moving_sphere_wf(m),
        m.time0 < m.time1,
        (m.time1 - m.time0) % 2 == 0,
        (m.center1.x - m.center0.x) % 2 == 0,
        (m.center1.y - m.center0.y) % 2 == 0,
        (m.center1.z - m.center0.z) % 2 == 0,
    ensures
        ms_center(m, m.time0 + (m.time1 - m.time0) / 2) == (Vector3 {
            x: ((m.center0.x + m.center1.x) / 2) as i128,
            y: ((m.center0.y + m.center1.y) / 2) as i128,
            z: ((m.center0.z + m.center1.z) / 2) as i128,
        }),
{
    let d: int = m.time1 - m.time0;
    let hd: int = d / 2;
    vstd::arithmetic::div_mod::lemma_fundamental_div_mod(d, 2);
    assert(d == 2 * hd);
    assert(fdiv(hd, d) == 32768) by {
        assert(hd * 65536 == d * 32768) by (nonlinear_arith)
            requires
                d == 2 * hd;
        vstd::arithmetic::div_mod::lemma_div_multiples_vanish(32768, d);
    }
    lemma_half_component(m.center0.x as int, m.center1.x as int);
    lemma_half_component(m.center0.y as int, m.center1.y as int);
    lemma_half_component(m.center0.z as int, m.center1.z as int);
}

/// Scaling an even coordinate gap by one half gives the exact mean.
proof fn lemma_half_component(c0: int, c1: int)
    requires
        (c1 - c0) % 2 == 0,
    ensures
        c0 + crate::fixed::fmul(32768, c1 - c0) == (c0 + c1) / 2,
{
    let g: int = c1 - c0;
    vstd::arithmetic::div_mod::lemma_fundamental_div_mod(g, 2);
    let e: int = g / 2;
    assert(g == 2 * e);
    crate::fixed::lemma_fmul_half(e);
    vstd::arithmetic::div_mod::lemma_fundamental_div_mod_converse(c0 + c1, 2, c0 + e, 0);
}

} // verus!
