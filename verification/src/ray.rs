//! Rays: an origin, a direction and the time at which the ray samples the
//! scene (used by time-varying geometry).

use vstd::prelude::*;
use crate::fixed::{Fx, lemma_fmul_mag};
use crate::vec3::{vadd, vec_mag_le, vscale, Vector3, VMAX};

verus! {

/// Bound on the coordinates of a ray direction: a direction joins two
/// in-range points, so it spans at most twice the coordinate range.
pub const DIR_MAX: i128 = 137438953472;

#[derive(Clone, Copy, PartialEq, Eq, Structural, Debug)]
pub struct Ray {
    pub orig: Vector3,
    pub dir: Vector3,
    pub tm: Fx,
}

/// A ray whose origin, direction and time are within the world range.
pub open spec fn ray_wf(r: Ray) -> bool {
    &&& vec_mag_le(r.orig, VMAX as int)
    &&& vec_mag_le(r.dir, DIR_MAX as int)
    &&& -VMAX <= r.tm <= VMAX
}

/// The point the ray reaches at parameter `t`.
pub open spec fn ray_at(r: Ray, t: int) -> Vector3 {
    vadd(r.orig, vscale(t, r.dir))
}

impl Ray {
    pub fn new(origin: Vector3, direction: Vector3, time: Fx) -> (r: Ray)
        ensures
            r == (Ray { orig: origin, dir: direction, tm: time }),
    {
        Ray { orig: origin, dir: direction, tm: time }
    }

    pub fn orig(&self) -> (r: Vector3)
        ensures
            r == self.orig,
    {
        self.orig
    }

    pub fn dir(&self) -> (r: Vector3)
        ensures
            r == self.dir,
    {
        self.dir
    }

    pub fn time(&self) -> (r: Fx)
        ensures
            r == self.tm,
    {
        self.tm
    }

    /// The point reached at parameter `t`: origin + t * direction.
    pub fn at(&self, t: Fx) -> (r: Vector3)
        requires
            ray_wf(*self),
            -VMAX <= t <= VMAX,
        ensures
            r == ray_at(*self, t as int),
            vec_mag_le(r, 288230376151711744),
    {
        proof {
            lemma_fmul_mag(t as int, self.dir.x as int, VMAX as int, DIR_MAX as int);
            lemma_fmul_mag(t as int, self.dir.y as int, VMAX as int, DIR_MAX as int);
            lemma_fmul_mag(t as int, self.dir.z as int, VMAX as int, DIR_MAX as int);
        }
        self.orig.plus(self.dir.scale(t))
    }
}

} // verus!
