//! Gamma encoding of averaged sample colors into 8-bit channel values.

use vstd::prelude::*;
use crate::fixed::{fx_floordiv, fx_sqrt, sqrt_floor, Fx};
use crate::trig::{fx_clamp, sclamp};
use crate::vec3::Vector3;

verus! {

/// The emitted byte for an averaged channel value `c`: the channel is
/// clamped into the unit interval, square-root gamma corrected, scaled by
/// 255.999 and rounded to the nearest integer, then clamped to a byte.
pub open spec fn gamma_byte(c: int) -> int {
    let cc = sclamp(c, 0, 65536);
    let s = sqrt_floor(cc * 65536);
    let b = (16777150 * s + 2147483648) / 4294967296;
    if b > 255 {
        255
    } else {
        b
    }
}

/// The emitted byte of one channel, exactly `gamma_byte(c)`.
pub fn gamma_channel(c: Fx) -> (r: u8)
    ensures
        r == gamma_byte(c as int),
{
    let cc: Fx = fx_clamp(c, 0, 65536);
    let s: Fx = fx_sqrt(cc);
    proof {
        if s > 65536 {
            assert(s * s > 4294967296) by (nonlinear_arith)
                requires
                    s > 65536;
        }
        vstd::arithmetic::div_mod::lemma_div_pos_is_pos(
            16777150 * (s as int) + 2147483648,
            4294967296,
        );
        crate::fixed::lemma_div_t_mag(
            16777150 * (s as int) + 2147483648,
            4294967296,
            1099653364318208,
        );
    }
    let num: i128 = 16777150 * s + 2147483648;
    let b: i128 = fx_floordiv(num, 4294967296);
    if b > 255 {
        255
    } else {
        b as u8
    }
}

/// The three emitted bytes of an averaged pixel color.
pub fn color_to_bytes(c: &Vector3) -> (r: (u8, u8, u8))
    ensures
        r.0 == gamma_byte(c.x as int),
        r.1 == gamma_byte(c.y as int),
        r.2 == gamma_byte(c.z as int),
{
    (gamma_channel(c.x), gamma_channel(c.y), gamma_channel(c.z))
}

} // verus!
