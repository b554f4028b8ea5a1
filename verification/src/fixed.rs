//! Signed 64.16 fixed-point scalars.
//!
//! A scalar is an `i128` whose value stands for `v / 65536`. Multiplication
//! and division truncate toward zero, matching the behaviour of Rust's
//! integer division; every operation states its result exactly.

use vstd::prelude::*;
use vstd::arithmetic::div_mod::{
    lemma_div_is_ordered, lemma_div_pos_is_pos, lemma_fundamental_div_mod_converse,
};

verus! {

/// A 64.16 fixed-point scalar: the integer `v` stands for `v / 65536`.
pub type Fx = i128;

/// The fixed-point representation of 1.
pub const ONE: i128 = 65536;

/// The fixed-point representation of 1/2.
pub const HALF: i128 = 32768;

/// Largest argument magnitude accepted by `fx_mul`.
pub const FX_MUL_LIM: i128 = 4611686018427387904;

/// Largest numerator magnitude accepted by `fx_div`.
pub const FX_DIV_LIM: i128 = 20282409603651670423947251286016;

/// Magnitude of an integer.
pub open spec fn mag(x: int) -> int {
    if x < 0 {
        -x
    } else {
        x
    }
}

/// Division truncating toward zero, the semantics of Rust's `/` on
/// signed integers.
pub open spec fn div_t(x: int, d: int) -> int
    recommends
        d != 0,
{
    if x == 0 {
        0
    } else if x > 0 && d > 0 {
        x / d
    } else if x < 0 && d < 0 {
        (x * -1) / (d * -1)
    } else if x < 0 {
        ((x * -1) / d) * -1
    } else {
        (x / (d * -1)) * -1
    }
}

/// The exact value of a fixed-point product.
pub open spec fn fmul(a: int, b: int) -> int {
    div_t(a * b, 65536)
}

/// The exact value of a fixed-point quotient.
pub open spec fn fdiv(a: int, b: int) -> int
    recommends
        b != 0,
{
    div_t(a * 65536, b)
}

/// The product of two bounded integers is bounded by the product of the
/// bounds.
pub proof fn lemma_mul_mag(a: int, b: int, aa: int, bb: int)
    by (nonlinear_arith)
    requires
        -aa <= a <= aa,
        -bb <= b <= bb,
    ensures
        -(aa * bb) <= a * b <= aa * bb,
{
}

/// Truncating division moves its argument toward zero, so a bound on the
/// dividend bounds the quotient.
pub proof fn lemma_div_t_mag(x: int, d: int, m: int)
    requires
        d >= 1,
        -m <= x <= m,
    ensures
        -(m / d) <= div_t(x, d) <= m / d,
{
    if x >= 0 {
        lemma_div_pos_is_pos(x, d);
        lemma_div_is_ordered(x, m, d);
        lemma_div_pos_is_pos(m, d);
    } else {
        lemma_div_pos_is_pos(-x, d);
        lemma_div_is_ordered(-x, m, d);
        lemma_div_pos_is_pos(m, d);
    }
}

/// A bound on both factors bounds a fixed-point product.
pub proof fn lemma_fmul_mag(a: int, b: int, aa: int, bb: int)
    requires
        -aa <= a <= aa,
        -bb <= b <= bb,
        0 <= aa,
        0 <= bb,
    ensures
        -((aa * bb) / 65536) <= fmul(a, b) <= (aa * bb) / 65536,
{
    lemma_mul_mag(a, b, aa, bb);
    lemma_div_t_mag(a * b, 65536, aa * bb);
}

/// Negating one factor negates a fixed-point product.
pub proof fn lemma_fmul_neg(a: int, b: int)
    ensures
        fmul(a, -b) == -fmul(a, b),
{
    vstd::arithmetic::mul::lemma_mul_unary_negation(a, b);
    assert(a * (-b) == -(a * b)) by (nonlinear_arith);
    assert(div_t(-(a * b), 65536) == -div_t(a * b, 65536));
}

/// Dividing an exact multiple of the scale by the scale recovers the
/// multiplier.
pub proof fn lemma_div_t_multiple(e: int)
    ensures
        div_t(65536 * e, 65536) == e,
{
    if e > 0 {
        vstd::arithmetic::div_mod::lemma_div_multiples_vanish(e, 65536);
    } else if e < 0 {
        vstd::arithmetic::div_mod::lemma_div_multiples_vanish(-e, 65536);
        assert((65536 * e) * -1 == 65536 * (-e)) by (nonlinear_arith);
    }
}

/// Scaling by one is the identity.
pub proof fn lemma_fmul_one(x: int)
    ensures
        fmul(65536, x) == x,
{
    lemma_div_t_multiple(x);
}

/// Scaling an even value by one half halves it exactly.
pub proof fn lemma_fmul_half(e: int)
    ensures
        fmul(32768, 2 * e) == e,
{
    assert(32768 * (2 * e) == 65536 * e) by (nonlinear_arith);
    lemma_div_t_multiple(e);
}

/// The product of two unit-interval values stays in the unit interval.
pub proof fn lemma_fmul_unit_range(a: int, b: int)
    requires
        0 <= a <= 65536,
        0 <= b <= 65536,
    ensures
        0 <= fmul(a, b) <= 65536,
        fmul(a, b) <= a,
        fmul(a, b) <= b,
{
    lemma_mul_mag(a, b, a, 65536);
    lemma_mul_mag(a, b, 65536, b);
    if a * b > 0 {
        lemma_div_pos_is_pos(a * b, 65536);
    }
    lemma_div_t_mag(a * b, 65536, a * 65536);
    lemma_div_t_mag(a * b, 65536, b * 65536);
    assert((a * 65536) / 65536 == a) by {
        vstd::arithmetic::div_mod::lemma_div_multiples_vanish(a, 65536);
    }
    assert((b * 65536) / 65536 == b) by {
        vstd::arithmetic::div_mod::lemma_div_multiples_vanish(b, 65536);
    }
}

/// Fixed-point multiplication: exactly `a * b / 65536`, truncated toward
/// zero.
pub fn fx_mul(a: Fx, b: Fx) -> (r: Fx)
    requires
        -FX_MUL_LIM <= a <= FX_MUL_LIM,
        -FX_MUL_LIM <= b <= FX_MUL_LIM,
    ensures
        r == fmul(a as int, b as int),
        -(FX_MUL_LIM * FX_MUL_LIM / 65536) <= r <= FX_MUL_LIM * FX_MUL_LIM / 65536,
{
    proof {
        lemma_mul_mag(a as int, b as int, FX_MUL_LIM as int, FX_MUL_LIM as int);
        lemma_fmul_mag(a as int, b as int, FX_MUL_LIM as int, FX_MUL_LIM as int);
    }
    let p: i128 = a * b;
    p.checked_div(65536).unwrap()
}

/// Fixed-point division: exactly `a * 65536 / b`, truncated toward zero.
pub fn fx_div(a: Fx, b: Fx) -> (r: Fx)
    requires
        b != 0,
        -FX_DIV_LIM <= a <= FX_DIV_LIM,
    ensures
        r == fdiv(a as int, b as int),
        -(FX_DIV_LIM * 65536) <= r <= FX_DIV_LIM * 65536,
{
    let p: i128 = a * 65536;
    proof {
        if b >= 1 {
            lemma_div_t_mag(p as int, b as int, FX_DIV_LIM * 65536);
        } else {
            lemma_div_t_mag(p as int, -(b as int), FX_DIV_LIM * 65536);
            assert(div_t(p as int, b as int) == -div_t(p as int, -(b as int)));
        }
    }
    p.checked_div(b).unwrap()
}

/// Plain truncating division, for dividing a fixed-point value by a small
/// integer count: exactly `a / b` truncated toward zero.
pub fn fx_divc(a: Fx, b: Fx) -> (r: Fx)
    requires
        b > 0,
    ensures
        r == div_t(a as int, b as int),
        -mag(a as int) <= r <= mag(a as int),
{
    proof {
        lemma_div_t_mag(a as int, b as int, mag(a as int));
        vstd::arithmetic::div_mod::lemma_div_nonincreasing(mag(a as int), b as int);
    }
    a.checked_div(b).unwrap()
}

/// Floor division by a positive divisor: exactly the mathematical
/// `floor(a / b)`.
pub fn fx_floordiv(a: Fx, b: Fx) -> (r: Fx)
    requires
        b > 0,
        -FX_DIV_LIM <= a <= FX_DIV_LIM,
    ensures
        r == (a as int) / (b as int),
{
    proof {
        lemma_div_t_mag(a as int, b as int, FX_DIV_LIM as int);
    }
    let q: i128 = a.checked_div(b).unwrap();
    let s: i128 = a.checked_rem(b).unwrap();
    proof {
        if a >= 0 {
            assert(q == a as int / b as int);
        } else {
            let u: int = (-(a as int)) / (b as int);
            let w: int = (-(a as int)) % (b as int);
            vstd::arithmetic::div_mod::lemma_fundamental_div_mod(-(a as int), b as int);
            vstd::arithmetic::div_mod::lemma_mod_bound(-(a as int), b as int);
            lemma_div_pos_is_pos(-(a as int), b as int);
            if w == 0 {
                assert(a as int == (-u) * (b as int) + 0) by (nonlinear_arith)
                    requires
                        -(a as int) == (b as int) * u + w,
                        w == 0;
                lemma_fundamental_div_mod_converse(a as int, b as int, -u, 0);
            } else {
                assert(a as int == (-u - 1) * (b as int) + ((b as int) - w)) by (nonlinear_arith)
                    requires
                        -(a as int) == (b as int) * u + w;
                lemma_fundamental_div_mod_converse(a as int, b as int, -u - 1, b - w);
            }
        }
    }
    if s != 0 && a < 0 {
        q - 1
    } else {
        q
    }
}

/// Largest argument accepted by `fx_sqrt`.
pub const FX_SQRT_LIM: i128 = 2596148429267413814265248164610048;

/// Whether `r` is the integer square root of `x`.
pub open spec fn is_sqrt_of(x: int, r: int) -> bool {
    0 <= r && r * r <= x && x < (r + 1) * (r + 1)
}

/// The integer square root: the greatest `r` with `r * r <= x`.
pub open spec fn sqrt_floor(x: int) -> int {
    choose|r: int| is_sqrt_of(x, r)
}

/// Every nonnegative integer has an integer square root.
pub proof fn lemma_sqrt_exists(x: int)
    requires
        x >= 0,
    ensures
        exists|r: int| is_sqrt_of(x, r),
    decreases x,
{
    if x == 0 {
        assert(is_sqrt_of(x, 0));
    } else {
        let xm: int = x - 1;
        lemma_sqrt_exists(xm);
        let r0: int = choose|r: int| is_sqrt_of(xm, r);
        if x < (r0 + 1) * (r0 + 1) {
            assert(is_sqrt_of(x, r0));
        } else {
            assert(x == (r0 + 1) * (r0 + 1));
            assert((r0 + 1) * (r0 + 1) < (r0 + 2) * (r0 + 2)) by (nonlinear_arith)
                requires
                    r0 >= 0;
            assert(is_sqrt_of(x, r0 + 1));
        }
    }
}

/// `sqrt_floor` is pinned down by its characterisation.
pub proof fn lemma_sqrt_unique(x: int, r: int)
    requires
        0 <= r,
        r * r <= x,
        x < (r + 1) * (r + 1),
    ensures
        r == sqrt_floor(x),
{
    lemma_sqrt_exists(x);
    assert(is_sqrt_of(x, sqrt_floor(x)));
    let s: int = sqrt_floor(x);
    if r < s {
        assert(false) by (nonlinear_arith)
            requires
                0 <= r < s,
                s * s <= x,
                x < (r + 1) * (r + 1);
    }
    if s < r {
        assert(false) by (nonlinear_arith)
            requires
                0 <= s < r,
                r * r <= x,
                x < (s + 1) * (s + 1);
    }
}

/// The integer square root of a `u128`, by bisection.
pub fn isqrt(x: u128) -> (r: u128)
    ensures
        r == sqrt_floor(x as int),
        r * r <= x,
        x < (r + 1) * (r + 1),
{
    let mut lo: u128 = 0;
    let mut hi: u128 = 18446744073709551616;
    proof {
        assert((hi as int) * (hi as int) > u128::MAX as int) by (nonlinear_arith)
            requires
                hi == 18446744073709551616u128;
    }
    while hi - lo > 1
        invariant
            0 <= lo < hi <= 18446744073709551616,
            (lo as int) * (lo as int) <= x as int,
            (x as int) < (hi as int) * (hi as int),
        decreases hi - lo,
    {
        let mid: u128 = lo + (hi - lo) / 2;
        proof {
            assert((mid as int) * (mid as int) <= (18446744073709551615int) * (
            18446744073709551615int)) by (nonlinear_arith)
                requires
                    0 <= mid as int <= 18446744073709551615int;
            assert((18446744073709551615int) * (18446744073709551615int) <= u128::MAX as int)
                by (nonlinear_arith);
        }
        if mid * mid <= x {
            lo = mid;
        } else {
            hi = mid;
        }
    }
    proof {
        lemma_sqrt_unique(x as int, lo as int);
    }
    lo
}

/// The fixed-point square root: exactly `sqrt_floor(x * 65536)`, so that
/// the scale of the argument is preserved.
pub fn fx_sqrt(x: Fx) -> (r: Fx)
    requires
        0 <= x <= FX_SQRT_LIM,
    ensures
        r == sqrt_floor(x as int * 65536),
        0 <= r <= 18446744073709551615,
        r * r <= x * 65536,
        x * 65536 < (r + 1) * (r + 1),
{
    let w: u128 = (x as u128) * 65536;
    let r: u128 = isqrt(w);
    proof {
        assert((r as int) * (r as int) <= w as int);
        if r > 18446744073709551615 {
            assert((r as int) * (r as int) > u128::MAX as int) by (nonlinear_arith)
                requires
                    r as int > 18446744073709551615int;
        }
    }
    r as i128
}

/// Magnitude of a fixed-point value.
pub fn fx_abs(a: Fx) -> (r: Fx)
    requires
        a > i128::MIN,
    ensures
        r == mag(a as int),
{
    if a < 0 {
        -a
    } else {
        a
    }
}

} // verus!
