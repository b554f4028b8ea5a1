//! Three-component fixed-point vectors, used interchangeably as points,
//! directions and colors.

use vstd::prelude::*;
use crate::fixed::{
    fdiv, fmul, fx_abs, fx_div, fx_mul, fx_sqrt, lemma_fmul_mag, sqrt_floor, Fx, FX_MUL_LIM,
};

verus! {

/// Bound on the coordinates of points, directions and times handled by the
/// renderer: about a million world units.
pub const VMAX: i128 = 68719476736;

/// Bound on the coordinates of unit-length vectors as produced by
/// `unit_vector`: twice the fixed-point one.
pub const UNIT_MAX: i128 = 131072;

/// Largest coordinate magnitude accepted by `plus` and `minus`.
pub const VEC_ADD_LIM: i128 = 42535295865117307932921825928971026432;

/// Blanket bound on the coordinates returned by `times` and `scale`.
pub const VEC_MUL_MAX: i128 = 324518553658426726783156020576256;

/// Blanket bound on the coordinates returned by `divide`.
pub const VEC_DIV_MAX: i128 = 1329227995784915872903807060280344576;

#[derive(Clone, Copy, PartialEq, Eq, Structural, Debug)]
pub struct Vector3 {
    pub x: Fx,
    pub y: Fx,
    pub z: Fx,
}

/// All three coordinates are bounded by `m` in magnitude.
pub open spec fn vec_mag_le(v: Vector3, m: int) -> bool {
    -m <= v.x <= m && -m <= v.y <= m && -m <= v.z <= m
}

/// The fixed-point dot product.
pub open spec fn sdot(a: Vector3, b: Vector3) -> int {
    fmul(a.x as int, b.x as int) + fmul(a.y as int, b.y as int) + fmul(a.z as int, b.z as int)
}

/// The componentwise difference.
pub open spec fn vsub(a: Vector3, b: Vector3) -> Vector3 {
    Vector3 { x: (a.x - b.x) as i128, y: (a.y - b.y) as i128, z: (a.z - b.z) as i128 }
}

/// The componentwise sum.
pub open spec fn vadd(a: Vector3, b: Vector3) -> Vector3 {
    Vector3 { x: (a.x + b.x) as i128, y: (a.y + b.y) as i128, z: (a.z + b.z) as i128 }
}

/// The componentwise fixed-point product.
pub open spec fn vmul(a: Vector3, b: Vector3) -> Vector3 {
    Vector3 {
        x: fmul(a.x as int, b.x as int) as i128,
        y: fmul(a.y as int, b.y as int) as i128,
        z: fmul(a.z as int, b.z as int) as i128,
    }
}

/// The vector scaled by the fixed-point scalar `s`.
pub open spec fn vscale(s: int, v: Vector3) -> Vector3 {
    Vector3 {
        x: fmul(s, v.x as int) as i128,
        y: fmul(s, v.y as int) as i128,
        z: fmul(s, v.z as int) as i128,
    }
}

/// The vector divided by the fixed-point scalar `s`.
pub open spec fn vdiv(v: Vector3, s: int) -> Vector3 {
    Vector3 {
        x: fdiv(v.x as int, s) as i128,
        y: fdiv(v.y as int, s) as i128,
        z: fdiv(v.z as int, s) as i128,
    }
}

/// The componentwise negation.
pub open spec fn vneg(v: Vector3) -> Vector3 {
    Vector3 { x: (-v.x) as i128, y: (-v.y) as i128, z: (-v.z) as i128 }
}

/// The fixed-point cross product.
pub open spec fn scross(a: Vector3, b: Vector3) -> Vector3 {
    Vector3 {
        x: (fmul(a.y as int, b.z as int) - fmul(a.z as int, b.y as int)) as i128,
        y: (fmul(a.z as int, b.x as int) - fmul(a.x as int, b.z as int)) as i128,
        z: (fmul(a.x as int, b.y as int) - fmul(a.y as int, b.x as int)) as i128,
    }
}

/// The fixed-point length: the square root of the dot product with itself,
/// kept at the same scale.
pub open spec fn slen(v: Vector3) -> int {
    sqrt_floor(sdot(v, v) * 65536)
}

/// The normalized vector: zero when the length is zero or a quotient
/// escapes the unit range, which only a degenerate input can cause.
pub open spec fn sunit(v: Vector3) -> Vector3 {
    let l = slen(v);
    if l == 0 {
        Vector3 { x: 0, y: 0, z: 0 }
    } else {
        let u = vdiv(v, l);
        if vec_mag_le(u, UNIT_MAX as int) {
            u
        } else {
            Vector3 { x: 0, y: 0, z: 0 }
        }
    }
}

/// The mirror image of `v` about the normal `n`.
pub open spec fn sreflect(v: Vector3, n: Vector3) -> Vector3 {
    vsub(v, vscale(2 * sdot(v, n), n))
}

/// Snell refraction of the unit direction `v` at a surface with unit
/// normal `n` and relative refractive index `eta`.
pub open spec fn srefract(v: Vector3, n: Vector3, eta: int) -> Vector3 {
    let c = if -sdot(v, n) < 65536 {
        -sdot(v, n)
    } else {
        65536
    };
    let perp = vscale(eta, vadd(v, vscale(c, n)));
    let t = 65536 - sdot(perp, perp);
    let tm = if t < 0 {
        -t
    } else {
        t
    };
    vadd(perp, vscale(-sqrt_floor(tm * 65536), n))
}

/// A bound on the coordinates of two vectors bounds their dot product.
pub proof fn lemma_sdot_mag(a: Vector3, b: Vector3, ma: int, mb: int)
    requires
        vec_mag_le(a, ma),
        vec_mag_le(b, mb),
        0 <= ma,
        0 <= mb,
    ensures
        -3 * ((ma * mb) / 65536) <= sdot(a, b) <= 3 * ((ma * mb) / 65536),
{
    lemma_fmul_mag(a.x as int, b.x as int, ma, mb);
    lemma_fmul_mag(a.y as int, b.y as int, ma, mb);
    lemma_fmul_mag(a.z as int, b.z as int, ma, mb);
}

/// A fixed-point square is never negative.
pub proof fn lemma_fmul_sq_nonneg(x: int)
    ensures
        fmul(x, x) >= 0,
{
    assert(x * x >= 0) by (nonlinear_arith);
    if x != 0 {
        vstd::arithmetic::div_mod::lemma_div_pos_is_pos(x * x, 65536);
    }
}

/// Negating the second vector negates the dot product.
pub proof fn lemma_sdot_neg(d: Vector3, o: Vector3)
    requires
        vec_mag_le(o, 170141183460469231731687303715884105727),
    ensures
        sdot(d, vneg(o)) == -sdot(d, o),
{
    crate::fixed::lemma_fmul_neg(d.x as int, o.x as int);
    crate::fixed::lemma_fmul_neg(d.y as int, o.y as int);
    crate::fixed::lemma_fmul_neg(d.z as int, o.z as int);
}

/// The dot product of a vector with itself is never negative.
pub proof fn lemma_sdot_self_nonneg(v: Vector3)
    ensures
        sdot(v, v) >= 0,
{
    lemma_fmul_sq_nonneg(v.x as int);
    lemma_fmul_sq_nonneg(v.y as int);
    lemma_fmul_sq_nonneg(v.z as int);
}

impl Vector3 {
    pub fn new(x: Fx, y: Fx, z: Fx) -> (r: Vector3)
        ensures
            r == (Vector3 { x, y, z }),
    {
        Vector3 { x, y, z }
    }

    pub fn x(&self) -> (r: Fx)
        ensures
            r == self.x,
    {
        self.x
    }

    pub fn y(&self) -> (r: Fx)
        ensures
            r == self.y,
    {
        self.y
    }

    pub fn z(&self) -> (r: Fx)
        ensures
            r == self.z,
    {
        self.z
    }

    /// The componentwise sum.
    pub fn plus(&self, o: Vector3) -> (r: Vector3)
        requires
            vec_mag_le(*self, VEC_ADD_LIM as int),
            vec_mag_le(o, VEC_ADD_LIM as int),
        ensures
            r == vadd(*self, o),
            r.x == self.x + o.x,
            r.y == self.y + o.y,
            r.z == self.z + o.z,
    {
        Vector3 { x: self.x + o.x, y: self.y + o.y, z: self.z + o.z }
    }

    /// The componentwise difference.
    pub fn minus(&self, o: Vector3) -> (r: Vector3)
        requires
            vec_mag_le(*self, VEC_ADD_LIM as int),
            vec_mag_le(o, VEC_ADD_LIM as int),
        ensures
            r == vsub(*self, o),
            r.x == self.x - o.x,
            r.y == self.y - o.y,
            r.z == self.z - o.z,
    {
        Vector3 { x: self.x - o.x, y: self.y - o.y, z: self.z - o.z }
    }

    /// The componentwise fixed-point product.
    pub fn times(&self, o: Vector3) -> (r: Vector3)
        requires
            vec_mag_le(*self, FX_MUL_LIM as int),
            vec_mag_le(o, FX_MUL_LIM as int),
        ensures
            r == vmul(*self, o),
            vec_mag_le(r, VEC_MUL_MAX as int),
            r.x == fmul(self.x as int, o.x as int),
            r.y == fmul(self.y as int, o.y as int),
            r.z == fmul(self.z as int, o.z as int),
    {
        Vector3 {
            x: fx_mul(self.x, o.x),
            y: fx_mul(self.y, o.y),
            z: fx_mul(self.z, o.z),
        }
    }

    /// The vector scaled by the fixed-point scalar `s`.
    pub fn scale(&self, s: Fx) -> (r: Vector3)
        requires
            vec_mag_le(*self, FX_MUL_LIM as int),
            -FX_MUL_LIM <= s <= FX_MUL_LIM,
        ensures
            r == vscale(s as int, *self),
            vec_mag_le(r, VEC_MUL_MAX as int),
            r.x == fmul(s as int, self.x as int),
            r.y == fmul(s as int, self.y as int),
            r.z == fmul(s as int, self.z as int),
    {
        Vector3 {
            x: fx_mul(s, self.x),
            y: fx_mul(s, self.y),
            z: fx_mul(s, self.z),
        }
    }

    /// The vector divided by the fixed-point scalar `s`.
    pub fn divide(&self, s: Fx) -> (r: Vector3)
        requires
            s != 0,
            vec_mag_le(*self, FX_MUL_LIM as int),
        ensures
            r == vdiv(*self, s as int),
            vec_mag_le(r, VEC_DIV_MAX as int),
            r.x == fdiv(self.x as int, s as int),
            r.y == fdiv(self.y as int, s as int),
            r.z == fdiv(self.z as int, s as int),
    {
        Vector3 {
            x: fx_div(self.x, s),
            y: fx_div(self.y, s),
            z: fx_div(self.z, s),
        }
    }

    /// The fixed-point dot product.
    pub fn dot(&self, o: Vector3) -> (r: Fx)
        requires
            vec_mag_le(*self, FX_MUL_LIM as int),
            vec_mag_le(o, FX_MUL_LIM as int),
        ensures
            r == sdot(*self, o),
    {
        let a: i128 = fx_mul(self.x, o.x);
        let b: i128 = fx_mul(self.y, o.y);
        let c: i128 = fx_mul(self.z, o.z);
        a + b + c
    }

    /// The fixed-point cross product.
    pub fn cross(&self, o: Vector3) -> (r: Vector3)
        requires
            vec_mag_le(*self, FX_MUL_LIM as int),
            vec_mag_le(o, FX_MUL_LIM as int),
        ensures
            r == scross(*self, o),
    {
        Vector3 {
            x: fx_mul(self.y, o.z) - fx_mul(self.z, o.y),
            y: fx_mul(self.z, o.x) - fx_mul(self.x, o.z),
            z: fx_mul(self.x, o.y) - fx_mul(self.y, o.x),
        }
    }

    /// The squared length, a fixed-point scalar.
    pub fn length_squared(&self) -> (r: Fx)
        requires
            vec_mag_le(*self, FX_MUL_LIM as int),
        ensures
            r == sdot(*self, *self),
            r >= 0,
    {
        proof {
            lemma_sdot_self_nonneg(*self);
        }
        self.dot(*self)
    }

    /// The fixed-point length.
    pub fn length(&self) -> (r: Fx)
        requires
            vec_mag_le(*self, 35184372088832),
        ensures
            r == slen(*self),
            r >= 0,
    {
        proof {
            lemma_sdot_self_nonneg(*self);
            lemma_sdot_mag(*self, *self, 35184372088832, 35184372088832);
        }
        let ls: i128 = self.length_squared();
        fx_sqrt(ls)
    }

    /// The vector normalized to unit length. A zero vector, or one whose
    /// quotient escapes the unit range, yields the zero vector.
    pub fn unit_vector(&self) -> (r: Vector3)
        requires
            vec_mag_le(*self, 35184372088832),
        ensures
            r == sunit(*self),
            vec_mag_le(r, UNIT_MAX as int),
    {
        let l: i128 = self.length();
        if l == 0 {
            Vector3 { x: 0, y: 0, z: 0 }
        } else {
            let u: Vector3 = self.divide(l);
            let ux: i128 = fx_abs(u.x);
            let uy: i128 = fx_abs(u.y);
            let uz: i128 = fx_abs(u.z);
            if ux <= UNIT_MAX && uy <= UNIT_MAX && uz <= UNIT_MAX {
                u
            } else {
                Vector3 { x: 0, y: 0, z: 0 }
            }
        }
    }

    /// The componentwise negation.
    pub fn negate(&self) -> (r: Vector3)
        requires
            vec_mag_le(*self, VEC_ADD_LIM as int),
        ensures
            r == vneg(*self),
            r.x == -self.x,
            r.y == -self.y,
            r.z == -self.z,
    {
        Vector3 { x: -self.x, y: -self.y, z: -self.z }
    }

    /// Whether every component is within `m` in magnitude.
    pub fn mag_le(&self, m: Fx) -> (r: bool)
        requires
            m >= 0,
        ensures
            r == vec_mag_le(*self, m as int),
    {
        -m <= self.x && self.x <= m && -m <= self.y && self.y <= m && -m <= self.z && self.z <= m
    }

    /// Whether every component is below the degeneracy threshold, which at
    /// this resolution means exactly zero.
    pub fn near_zero(&self) -> (r: bool)
        ensures
            r == (self.x == 0 && self.y == 0 && self.z == 0),
    {
        self.x == 0 && self.y == 0 && self.z == 0
    }

    /// The mirror image about the normal `n`.
    pub fn reflect(&self, n: Vector3) -> (r: Vector3)
        requires
            vec_mag_le(*self, 140737488355328),
            vec_mag_le(n, 262144),
        ensures
            r == sreflect(*self, n),
            vec_mag_le(*self, 137438953472) ==> vec_mag_le(r, 17592186044416),
            vec_mag_le(*self, 262144) ==> vec_mag_le(r, 33554432),
    {
        proof {
            lemma_sdot_mag(*self, n, 140737488355328, 262144);
            if vec_mag_le(*self, 137438953472) {
                lemma_sdot_mag(*self, n, 137438953472, 262144);
                lemma_fmul_mag(2 * sdot(*self, n), n.x as int, 3298534883328, 262144);
                lemma_fmul_mag(2 * sdot(*self, n), n.y as int, 3298534883328, 262144);
                lemma_fmul_mag(2 * sdot(*self, n), n.z as int, 3298534883328, 262144);
            }
            if vec_mag_le(*self, 262144) {
                lemma_sdot_mag(*self, n, 262144, 262144);
                lemma_fmul_mag(2 * sdot(*self, n), n.x as int, 6291456, 262144);
                lemma_fmul_mag(2 * sdot(*self, n), n.y as int, 6291456, 262144);
                lemma_fmul_mag(2 * sdot(*self, n), n.z as int, 6291456, 262144);
            }
        }
        let d: i128 = self.dot(n);
        self.minus(n.scale(2 * d))
    }

    /// Snell refraction of a unit direction about the unit normal `n` with
    /// relative refractive index `eta`.
    pub fn refract(&self, n: Vector3, eta: Fx) -> (r: Vector3)
        requires
            vec_mag_le(*self, 262144),
            vec_mag_le(n, 262144),
            0 <= eta <= 655360,
        ensures
            r == srefract(*self, n, eta as int),
            vec_mag_le(r, 2147483648),
    {
        proof {
            lemma_sdot_mag(*self, n, 262144, 262144);
        }
        let d: i128 = self.dot(n);
        let c: i128 = if -d < 65536 {
            -d
        } else {
            65536
        };
        let sc: Vector3 = n.scale(c);
        proof {
            lemma_fmul_mag(c as int, n.x as int, 3145728, 262144);
            lemma_fmul_mag(c as int, n.y as int, 3145728, 262144);
            lemma_fmul_mag(c as int, n.z as int, 3145728, 262144);
        }
        let sum: Vector3 = self.plus(sc);
        let perp: Vector3 = sum.scale(eta);
        proof {
            lemma_fmul_mag(eta as int, sum.x as int, 655360, 12845056);
            lemma_fmul_mag(eta as int, sum.y as int, 655360, 12845056);
            lemma_fmul_mag(eta as int, sum.z as int, 655360, 12845056);
            lemma_sdot_mag(perp, perp, 128450560, 128450560);
            lemma_sdot_self_nonneg(perp);
        }
        let t: i128 = 65536 - perp.dot(perp);
        let tm: i128 = fx_abs(t);
        let s: i128 = fx_sqrt(tm);
        proof {
            if s > 300000000 {
                assert(s * s > 90000000000000000) by (nonlinear_arith)
                    requires
                        s > 300000000;
            }
            lemma_fmul_mag(-(s as int), n.x as int, 300000000, 262144);
            lemma_fmul_mag(-(s as int), n.y as int, 300000000, 262144);
            lemma_fmul_mag(-(s as int), n.z as int, 300000000, 262144);
        }
        perp.plus(n.scale(-s))
    }
}

} // verus!
