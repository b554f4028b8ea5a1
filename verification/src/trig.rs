//! Fixed-point trigonometry: sine, cosine, tangent, arctangent and
//! arccosine, each a truncated series with exact range reduction.
//!
//! The value of each function is pinned down exactly: the specification is
//! the same polynomial the body evaluates, so callers reason about the
//! approximation itself, not about the real functions it tracks.

use vstd::prelude::*;
use crate::fixed::{
    div_t, fdiv, fmul, fx_abs, fx_div, fx_divc, fx_floordiv, fx_mul, fx_sqrt, lemma_fmul_mag,
    sqrt_floor, Fx, FX_DIV_LIM,
};

verus! {

/// The fixed-point representation of pi.
pub const PI_FX: i128 = 205887;

/// The fixed-point representation of 2 pi.
pub const TWO_PI_FX: i128 = 411774;

/// The fixed-point representation of pi / 2, rounded down so that twice
/// of it stays below `PI_FX`.
pub const HALF_PI_FX: i128 = 102943;

/// `v` clamped into `[lo, hi]`.
pub open spec fn sclamp(v: int, lo: int, hi: int) -> int {
    if v < lo {
        lo
    } else if v > hi {
        hi
    } else {
        v
    }
}

/// `v` clamped into `[lo, hi]`.
pub fn fx_clamp(v: Fx, lo: Fx, hi: Fx) -> (r: Fx)
    requires
        lo <= hi,
    ensures
        r == sclamp(v as int, lo as int, hi as int),
        lo <= r <= hi,
{
    if v < lo {
        lo
    } else if v > hi {
        hi
    } else {
        v
    }
}

/// The truncated sine series on a quarter period.
pub open spec fn ssin_t(x: int) -> int {
    let x2 = fmul(x, x);
    let x3 = fmul(x2, x);
    let x5 = fmul(x3, x2);
    let x7 = fmul(x5, x2);
    let x9 = fmul(x7, x2);
    x - div_t(x3, 6) + div_t(x5, 120) - div_t(x7, 5040) + div_t(x9, 362880)
}

/// The truncated cosine series on a quarter period.
pub open spec fn scos_t(x: int) -> int {
    let x2 = fmul(x, x);
    let x4 = fmul(x2, x2);
    let x6 = fmul(x4, x2);
    let x8 = fmul(x6, x2);
    let x10 = fmul(x8, x2);
    65536 - div_t(x2, 2) + div_t(x4, 24) - div_t(x6, 720) + div_t(x8, 40320) - div_t(
        x10,
        3628800,
    )
}

/// The sine of `t`, reduced modulo the period and folded onto the first
/// quarter, clamped into the unit range.
pub open spec fn ssin(t: int) -> int {
    let m = t % 411774;
    let raw = if m < 102943 {
        ssin_t(m)
    } else if m < 205887 {
        ssin_t(205887 - m)
    } else if m < 308830 {
        -ssin_t(m - 205887)
    } else {
        -ssin_t(411774 - m)
    };
    sclamp(raw, -65536, 65536)
}

/// The cosine of `t`, as the clamped quarter-period series; defined for
/// arguments in `[0, half pi]` only, where the camera needs it.
pub open spec fn scos_q(t: int) -> int {
    sclamp(scos_t(t), -65536, 65536)
}

/// Evaluates the quarter-period sine series.
fn sin_taylor(x: Fx) -> (r: Fx)
    requires
        0 <= x <= 103000,
    ensures
        r == ssin_t(x as int),
        -8000000 <= r <= 8000000,
{
    let x2: i128 = fx_mul(x, x);
    proof {
        lemma_fmul_mag(x as int, x as int, 103000, 103000);
    }
    let x3: i128 = fx_mul(x2, x);
    proof {
        lemma_fmul_mag(x2 as int, x as int, 161880, 103000);
    }
    let x5: i128 = fx_mul(x3, x2);
    proof {
        lemma_fmul_mag(x3 as int, x2 as int, 254419, 161880);
    }
    let x7: i128 = fx_mul(x5, x2);
    proof {
        lemma_fmul_mag(x5 as int, x2 as int, 628438, 161880);
    }
    let x9: i128 = fx_mul(x7, x2);
    proof {
        lemma_fmul_mag(x7 as int, x2 as int, 1552300, 161880);
    }
    x - fx_divc(x3, 6) + fx_divc(x5, 120) - fx_divc(x7, 5040) + fx_divc(x9, 362880)
}

/// Evaluates the quarter-period cosine series.
fn cos_taylor(x: Fx) -> (r: Fx)
    requires
        0 <= x <= 103000,
    ensures
        r == scos_t(x as int),
        -16000000 <= r <= 16000000,
{
    let x2: i128 = fx_mul(x, x);
    proof {
        lemma_fmul_mag(x as int, x as int, 103000, 103000);
    }
    let x4: i128 = fx_mul(x2, x2);
    proof {
        lemma_fmul_mag(x2 as int, x2 as int, 161880, 161880);
    }
    let x6: i128 = fx_mul(x4, x2);
    proof {
        lemma_fmul_mag(x4 as int, x2 as int, 399858, 161880);
    }
    let x8: i128 = fx_mul(x6, x2);
    proof {
        lemma_fmul_mag(x6 as int, x2 as int, 987686, 161880);
    }
    let x10: i128 = fx_mul(x8, x2);
    proof {
        lemma_fmul_mag(x8 as int, x2 as int, 2439676, 161880);
    }
    65536 - fx_divc(x2, 2) + fx_divc(x4, 24) - fx_divc(x6, 720) + fx_divc(x8, 40320) - fx_divc(
        x10,
        3628800,
    )
}

/// The fixed-point sine, exactly `ssin(t)`.
pub fn sin_fx(t: Fx) -> (r: Fx)
    requires
        -FX_DIV_LIM <= t <= FX_DIV_LIM,
    ensures
        r == ssin(t as int),
        -65536 <= r <= 65536,
{
    let q: i128 = fx_floordiv(t, 411774);
    proof {
        vstd::arithmetic::div_mod::lemma_fundamental_div_mod(t as int, 411774);
        vstd::arithmetic::div_mod::lemma_mod_bound(t as int, 411774);
    }
    let m: i128 = t - q * 411774;
    let raw: i128 = if m < 102943 {
        sin_taylor(m)
    } else if m < 205887 {
        sin_taylor(205887 - m)
    } else if m < 308830 {
        -sin_taylor(m - 205887)
    } else {
        -sin_taylor(411774 - m)
    };
    fx_clamp(raw, -65536, 65536)
}

/// The truncated arctangent on the unit interval, by two half-angle
/// reductions and a three-term series, clamped into `[0, half pi]`.
pub open spec fn satan_u(x: int) -> int {
    let s1 = sqrt_floor((65536 + fmul(x, x)) * 65536);
    let t1 = fdiv(x, 65536 + s1);
    let s2 = sqrt_floor((65536 + fmul(t1, t1)) * 65536);
    let t2 = fdiv(t1, 65536 + s2);
    let t2sq = fmul(t2, t2);
    let t3 = fmul(t2sq, t2);
    let t5 = fmul(t3, t2sq);
    sclamp(4 * (t2 - div_t(t3, 3) + div_t(t5, 5)), 0, 102943)
}

/// The two-argument arctangent: the angle of the point `(x, y)`, in
/// `[-pi, pi]`, from the unit arctangent by quadrant folding.
pub open spec fn satan2(y: int, x: int) -> int {
    if y == 0 && x == 0 {
        0
    } else {
        let ay = if y < 0 {
            -y
        } else {
            y
        };
        let ax = if x < 0 {
            -x
        } else {
            x
        };
        let base = if ay <= ax {
            satan_u(fdiv(ay, ax))
        } else {
            102943 - satan_u(fdiv(ax, ay))
        };
        let q = if x >= 0 {
            base
        } else {
            205887 - base
        };
        if y >= 0 {
            q
        } else {
            -q
        }
    }
}

/// The arccosine of a unit-range value, as the angle of the point
/// `(x, sqrt(1 - x^2))`.
pub open spec fn sacos(x: int) -> int {
    satan2(sqrt_floor((65536 - fmul(x, x)) * 65536), x)
}

/// The tangent on `[0, half pi)`: the quotient of the sine and cosine
/// series, with a large constant where the cosine series is not positive.
pub open spec fn stan_q(t: int) -> int {
    let c = scos_q(t);
    if c <= 0 {
        65536000
    } else {
        fdiv(ssin(t), c)
    }
}

/// The unit-interval arctangent, exactly `satan_u(x)`.
pub fn atan_u_fx(x: Fx) -> (r: Fx)
    requires
        0 <= x <= 65536,
    ensures
        r == satan_u(x as int),
        0 <= r <= 102943,
{
    let xsq: i128 = fx_mul(x, x);
    proof {
        lemma_fmul_mag(x as int, x as int, 65536, 65536);
    }
    let s1: i128 = fx_sqrt(65536 + xsq);
    proof {
        if s1 > 92682 {
            assert(s1 * s1 > 8589934592) by (nonlinear_arith)
                requires
                    s1 > 92682;
        }
        if s1 < 65536 {
            assert((s1 + 1) * (s1 + 1) <= 4294967296) by (nonlinear_arith)
                requires
                    0 <= s1 < 65536;
        }
        vstd::arithmetic::div_mod::lemma_multiply_divide_lt(
            x as int * 65536,
            65536 + s1,
            65536,
        );
        vstd::arithmetic::div_mod::lemma_div_pos_is_pos(x as int * 65536, 65536 + s1 as int);
    }
    let t1: i128 = fx_div(x, 65536 + s1);
    let t1sq: i128 = fx_mul(t1, t1);
    proof {
        lemma_fmul_mag(t1 as int, t1 as int, 65535, 65535);
    }
    let s2: i128 = fx_sqrt(65536 + t1sq);
    proof {
        if s2 < 65536 {
            assert((s2 + 1) * (s2 + 1) <= 4294967296) by (nonlinear_arith)
                requires
                    0 <= s2 < 65536;
        }
        if s2 > 92682 {
            assert(s2 * s2 > 8589934592) by (nonlinear_arith)
                requires
                    s2 > 92682;
        }
        vstd::arithmetic::div_mod::lemma_multiply_divide_lt(
            t1 as int * 65536,
            65536 + s2,
            65536,
        );
        vstd::arithmetic::div_mod::lemma_div_pos_is_pos(t1 as int * 65536, 65536 + s2 as int);
    }
    let t2: i128 = fx_div(t1, 65536 + s2);
    let t2sq: i128 = fx_mul(t2, t2);
    proof {
        lemma_fmul_mag(t2 as int, t2 as int, 65535, 65535);
    }
    let t3: i128 = fx_mul(t2sq, t2);
    proof {
        lemma_fmul_mag(t2sq as int, t2 as int, 65535, 65535);
    }
    let t5: i128 = fx_mul(t3, t2sq);
    proof {
        lemma_fmul_mag(t3 as int, t2sq as int, 65535, 65535);
    }
    fx_clamp(4 * (t2 - fx_divc(t3, 3) + fx_divc(t5, 5)), 0, 102943)
}

/// The two-argument arctangent, exactly `satan2(y, x)`; the result lies
/// in `[-pi, pi]`.
pub fn atan2_fx(y: Fx, x: Fx) -> (r: Fx)
    requires
        -1099511627776 <= y <= 1099511627776,
        -1099511627776 <= x <= 1099511627776,
    ensures
        r == satan2(y as int, x as int),
        -205887 <= r <= 205887,
{
    if y == 0 && x == 0 {
        return 0;
    }
    let ay: i128 = fx_abs(y);
    let ax: i128 = fx_abs(x);
    let base: i128 = if ay <= ax {
        proof {
            vstd::arithmetic::div_mod::lemma_multiply_divide_lt(ay as int * 65536, ax as int, 65537);
            vstd::arithmetic::div_mod::lemma_div_pos_is_pos(ay as int * 65536, ax as int);
        }
        let q: i128 = fx_div(ay, ax);
        atan_u_fx(q)
    } else {
        proof {
            vstd::arithmetic::div_mod::lemma_multiply_divide_lt(ax as int * 65536, ay as int, 65537);
            vstd::arithmetic::div_mod::lemma_div_pos_is_pos(ax as int * 65536, ay as int);
        }
        let q: i128 = fx_div(ax, ay);
        102943 - atan_u_fx(q)
    };
    let q: i128 = if x >= 0 {
        base
    } else {
        205887 - base
    };
    if y >= 0 {
        q
    } else {
        -q
    }
}

/// The arccosine of a unit-range value, exactly `sacos(x)`; the result
/// lies in `[0, pi]`.
pub fn acos_fx(x: Fx) -> (r: Fx)
    requires
        -65536 <= x <= 65536,
    ensures
        r == sacos(x as int),
        0 <= r <= 205887,
{
    let xsq: i128 = fx_mul(x, x);
    proof {
        lemma_fmul_mag(x as int, x as int, 65536, 65536);
        crate::vec3::lemma_fmul_sq_nonneg(x as int);
    }
    let t: i128 = 65536 - xsq;
    let s: i128 = fx_sqrt(t);
    proof {
        if s > 65536 {
            assert(s * s > 4294967296) by (nonlinear_arith)
                requires
                    s > 65536;
        }
    }
    atan2_fx(s, x)
}

/// The tangent on `[0, half pi)`, exactly `stan_q(t)`.
pub fn tan_q_fx(t: Fx) -> (r: Fx)
    requires
        0 <= t <= 102943,
    ensures
        r == stan_q(t as int),
        -4294967296 <= r <= 4294967296,
{
    let c: i128 = cos_q_fx(t);
    if c <= 0 {
        65536000
    } else {
        let s: i128 = sin_fx(t);
        proof {
            crate::fixed::lemma_div_t_mag(s as int * 65536, c as int, 4294967296);
        }
        fx_div(s, c)
    }
}

/// The fixed-point cosine on `[0, half pi]`, exactly `scos_q(t)`.
pub fn cos_q_fx(t: Fx) -> (r: Fx)
    requires
        0 <= t <= 102943,
    ensures
        r == scos_q(t as int),
        -65536 <= r <= 65536,
{
    let raw: i128 = cos_taylor(t);
    fx_clamp(raw, -65536, 65536)
}

} // verus!
