//! The pseudo-random generator threaded through sampling, and the
//! randomized vector draws built on it.
//!
//! The generator is explicit and seeded, so runs are reproducible. Nothing
//! is assumed about the values it produces: every user states what holds of
//! its result whatever was drawn.

use vstd::prelude::*;
use crate::fixed::{Fx, ONE};
use crate::vec3::{sdot, sunit, vec_mag_le, Vector3, UNIT_MAX, VMAX};

verus! {

#[verifier::external_type_specification]
#[verifier::external_body]
pub struct ExStdRng(rand::rngs::StdRng);

/// A deterministic pseudo-random generator with an explicit seed.
pub struct Rng {
    inner: rand::rngs::StdRng,
}

impl Rng {
    /// Relies on rand's `SeedableRng::seed_from_u64`: builds the standard
    /// generator from a 64-bit seed, deterministically.
    #[verifier::external_body]
    pub fn new(seed: u64) -> (r: Rng) {
        Rng { inner: <rand::rngs::StdRng as rand::SeedableRng>::seed_from_u64(seed) }
    }

    /// Relies on rand's `Rng::next_u64`: the next value of the generator's
    /// stream. Nothing is promised of the value.
    #[verifier::external_body]
    pub(crate) fn next_u64(&mut self) -> (r: u64) {
        rand::Rng::next_u64(&mut self.inner)
    }
}

/// A fixed-point draw in the unit interval `[0, 1)`.
pub fn random_unit(rng: &mut Rng) -> (r: Fx)
    ensures
        0 <= r < ONE,
{
    let u: u64 = rng.next_u64();
    (u % 65536) as i128
}

/// A draw below `n`, by reduction of the raw stream modulo `n`.
pub fn random_index(rng: &mut Rng, n: u64) -> (r: u64)
    requires
        n > 0,
    ensures
        r < n,
{
    let u: u64 = rng.next_u64();
    u % n
}

/// A fixed-point draw in `[min, max)`.
pub fn random_double(rng: &mut Rng, min: Fx, max: Fx) -> (r: Fx)
    requires
        -VMAX <= min < max <= VMAX,
    ensures
        min <= r < max,
{
    let u: i128 = random_unit(rng);
    let d: i128 = max - min;
    proof {
        assert(0 <= d * u && d * u < 65536 * d) by (nonlinear_arith)
            requires
                0 < d,
                0 <= u < 65536;
        vstd::arithmetic::div_mod::lemma_div_pos_is_pos(d * u, 65536);
        vstd::arithmetic::div_mod::lemma_multiply_divide_lt(d * u, 65536, d as int);
    }
    let step: i128 = crate::fixed::fx_mul(d, u);
    min + step
}

impl Vector3 {
    /// A vector whose components are independent draws in `[min, max)`.
    pub fn random(rng: &mut Rng, min: Fx, max: Fx) -> (r: Vector3)
        requires
            -VMAX <= min < max <= VMAX,
        ensures
            min <= r.x < max,
            min <= r.y < max,
            min <= r.z < max,
    {
        let x: i128 = random_double(rng, min, max);
        let y: i128 = random_double(rng, min, max);
        let z: i128 = random_double(rng, min, max);
        Vector3 { x, y, z }
    }

    /// A rejection-sampled point strictly inside the unit sphere. After a
    /// bounded number of draws a fixed interior point is used, so every
    /// outcome lies inside the sphere.
    pub fn random_in_unit_sphere(rng: &mut Rng) -> (r: Vector3)
        ensures
            sdot(r, r) < ONE,
            vec_mag_le(r, ONE as int),
    {
        let mut tries: u32 = 0;
        while tries < 64
            invariant
                tries <= 64,
            decreases 64 - tries,
        {
            let p: Vector3 = Vector3::random(rng, -65536, 65536);
            if p.length_squared() < 65536 {
                return p;
            }
            tries = tries + 1;
        }
        proof {
            crate::vec3::lemma_sdot_mag(
                Vector3 { x: 32768, y: 0, z: 0 },
                Vector3 { x: 32768, y: 0, z: 0 },
                32768,
                32768,
            );
        }
        Vector3 { x: 32768, y: 0, z: 0 }
    }

    /// A unit-length direction: a point inside the unit sphere, normalized.
    pub fn random_unit_vector(rng: &mut Rng) -> (r: Vector3)
        ensures
            vec_mag_le(r, UNIT_MAX as int),
            exists|p: Vector3| r == sunit(p),
    {
        let p: Vector3 = Vector3::random_in_unit_sphere(rng);
        let u: Vector3 = p.unit_vector();
        proof {
            assert(u == sunit(p));
        }
        u
    }

    /// A unit-length direction on the hemisphere around `normal`.
    pub fn random_on_hemisphere(rng: &mut Rng, normal: Vector3) -> (r: Vector3)
        requires
            vec_mag_le(normal, UNIT_MAX as int),
        ensures
            vec_mag_le(r, UNIT_MAX as int),
    {
        let p: Vector3 = Vector3::random_unit_vector(rng);
        if p.dot(normal) > 0 {
            p
        } else {
            proof {
                vstd::arithmetic::div_mod::lemma_div_multiples_vanish(-(p.x as int), 65536);
                vstd::arithmetic::div_mod::lemma_div_multiples_vanish(p.x as int, 65536);
                vstd::arithmetic::div_mod::lemma_div_multiples_vanish(-(p.y as int), 65536);
                vstd::arithmetic::div_mod::lemma_div_multiples_vanish(p.y as int, 65536);
                vstd::arithmetic::div_mod::lemma_div_multiples_vanish(-(p.z as int), 65536);
                vstd::arithmetic::div_mod::lemma_div_multiples_vanish(p.z as int, 65536);
            }
            p.scale(-65536)
        }
    }

    /// A rejection-sampled point strictly inside the unit disk in the
    /// x-y plane, for defocus sampling.
    pub fn random_in_unit_disk(rng: &mut Rng) -> (r: Vector3)
        ensures
            sdot(r, r) < ONE,
            vec_mag_le(r, ONE as int),
            r.z == 0,
    {
        let mut tries: u32 = 0;
        while tries < 64
            invariant
                tries <= 64,
            decreases 64 - tries,
        {
            let x: i128 = random_double(rng, -65536, 65536);
            let y: i128 = random_double(rng, -65536, 65536);
            let p: Vector3 = Vector3 { x, y, z: 0 };
            if p.length_squared() < 65536 {
                return p;
            }
            tries = tries + 1;
        }
        proof {
            crate::vec3::lemma_sdot_mag(
                Vector3 { x: 32768, y: 0, z: 0 },
                Vector3 { x: 32768, y: 0, z: 0 },
                32768,
                32768,
            );
        }
        Vector3 { x: 32768, y: 0, z: 0 }
    }
}

} // verus!
