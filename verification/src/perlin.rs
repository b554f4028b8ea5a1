//! Perlin gradient noise: permutation tables and unit gradients drawn
//! once, then a deterministic trilinear lattice interpolation.

use vstd::prelude::*;
use crate::fixed::{
    div_t, fmul, fx_divc, fx_floordiv, lemma_fmul_mag, Fx, FX_DIV_LIM,
};
use crate::rng::{random_index, Rng};
use crate::vec3::{lemma_sdot_mag, sdot, vadd, vec_mag_le, Vector3, UNIT_MAX};
use vstd::arithmetic::power2::{lemma_pow2_strictly_increases, lemma_pow2_unfold, pow2};

verus! {

/// The number of lattice gradients and permutation entries.
pub const POINT_COUNT: usize = 256;

/// Precomputed permutation tables and unit gradients; immutable and
/// shared read-only once built.
pub struct Perlin {
    pub randvec: Vec<Vector3>,
    pub perm_x: Vec<u8>,
    pub perm_y: Vec<u8>,
    pub perm_z: Vec<u8>,
}

/// Tables of the right length with bounded gradients. Permutation values
/// are bytes, so they index the gradient table by construction.
pub open spec fn perlin_wf(pl: Perlin) -> bool {
    &&& pl.randvec@.len() == 256
    &&& pl.perm_x@.len() == 256
    &&& pl.perm_y@.len() == 256
    &&& pl.perm_z@.len() == 256
    &&& forall|i: int|
        0 <= i < 256 ==> vec_mag_le(#[trigger] pl.randvec@[i], UNIT_MAX as int)
}

/// The Euclidean remainder of `e` modulo 256.
pub fn mod_256(e: Fx) -> (r: usize)
    requires
        -FX_DIV_LIM <= e <= FX_DIV_LIM,
    ensures
        r == (e as int) % 256,
        r < 256,
{
    let q: i128 = fx_floordiv(e, 256);
    proof {
        vstd::arithmetic::div_mod::lemma_fundamental_div_mod(e as int, 256);
        vstd::arithmetic::div_mod::lemma_mod_bound(e as int, 256);
    }
    (e - q * 256) as usize
}

/// The gradient at the lattice corner `(fi + di, fj + dj, fk + dk)`: the
/// three permuted, wrapped coordinate hashes combined with XOR.
pub open spec fn pn_corner(pl: Perlin, fi: int, fj: int, fk: int, di: int, dj: int, dk: int) -> Vector3 {
    let hx = pl.perm_x@[(fi + di) % 256];
    let hy = pl.perm_y@[(fj + dj) % 256];
    let hz = pl.perm_z@[(fk + dk) % 256];
    pl.randvec@[(hx ^ hy ^ hz) as int]
}

/// One corner's contribution to the trilinear interpolation: the three
/// eased weights times the gradient's dot product with the offset.
pub open spec fn pn_term(c: Vector3, wv: Vector3, f1: int, f2: int, f3: int) -> int {
    fmul(fmul(fmul(f1, f2), f3), sdot(c, wv))
}

/// The Hermite ease `t * t * (3 - 2 t)` of a fractional offset.
pub open spec fn pn_ease(t: int) -> int {
    fmul(fmul(t, t), 196608 - 2 * t)
}

/// The noise value at `pt`: the eased trilinear blend of the eight
/// corner gradients around the containing lattice cell.
pub open spec fn pn_noise(pl: Perlin, pt: Vector3) -> int {
    let fi = (pt.x as int) / 65536;
    let fj = (pt.y as int) / 65536;
    let fk = (pt.z as int) / 65536;
    let u = pt.x - 65536 * fi;
    let v = pt.y - 65536 * fj;
    let w = pt.z - 65536 * fk;
    let uu = pn_ease(u);
    let vv = pn_ease(v);
    let ww = pn_ease(w);
    pn_term(pn_corner(pl, fi, fj, fk, 0, 0, 0), Vector3 { x: u as i128, y: v as i128, z: w as i128 }, 65536 - uu, 65536 - vv, 65536 - ww)
        + pn_term(pn_corner(pl, fi, fj, fk, 0, 0, 1), Vector3 { x: u as i128, y: v as i128, z: (w - 65536) as i128 }, 65536 - uu, 65536 - vv, ww)
        + pn_term(pn_corner(pl, fi, fj, fk, 0, 1, 0), Vector3 { x: u as i128, y: (v - 65536) as i128, z: w as i128 }, 65536 - uu, vv, 65536 - ww)
        + pn_term(pn_corner(pl, fi, fj, fk, 0, 1, 1), Vector3 { x: u as i128, y: (v - 65536) as i128, z: (w - 65536) as i128 }, 65536 - uu, vv, ww)
        + pn_term(pn_corner(pl, fi, fj, fk, 1, 0, 0), Vector3 { x: (u - 65536) as i128, y: v as i128, z: w as i128 }, uu, 65536 - vv, 65536 - ww)
        + pn_term(pn_corner(pl, fi, fj, fk, 1, 0, 1), Vector3 { x: (u - 65536) as i128, y: v as i128, z: (w - 65536) as i128 }, uu, 65536 - vv, ww)
        + pn_term(pn_corner(pl, fi, fj, fk, 1, 1, 0), Vector3 { x: (u - 65536) as i128, y: (v - 65536) as i128, z: w as i128 }, uu, vv, 65536 - ww)
        + pn_term(pn_corner(pl, fi, fj, fk, 1, 1, 1), Vector3 { x: (u - 65536) as i128, y: (v - 65536) as i128, z: (w - 65536) as i128 }, uu, vv, ww)
}

/// The turbulence accumulator: octaves of noise at doubling frequency
/// and the given starting weight, halved each octave.
pub open spec fn pn_turb_rec(pl: Perlin, pt: Vector3, weight: int, depth: int) -> int
    decreases depth,
{
    if depth <= 0 {
        0
    } else {
        fmul(weight, pn_noise(pl, pt)) + pn_turb_rec(
            pl,
            vadd(pt, pt),
            div_t(weight, 2),
            depth - 1,
        )
    }
}

/// The turbulence at `pt`: the magnitude of the octave sum started at
/// weight one.
pub open spec fn pn_turb(pl: Perlin, pt: Vector3, depth: int) -> int {
    let acc = pn_turb_rec(pl, pt, 65536, depth);
    if acc < 0 {
        -acc
    } else {
        acc
    }
}

/// The Hermite ease of a fractional offset in `[0, 1)`.
fn perlin_ease(t: Fx) -> (r: Fx)
    requires
        0 <= t < 65536,
    ensures
        r == pn_ease(t as int),
        0 <= r <= 196608,
{
    proof {
        lemma_fmul_mag(t as int, t as int, 65536, 65536);
        crate::vec3::lemma_fmul_sq_nonneg(t as int);
        lemma_fmul_mag(fmul(t as int, t as int), 196608 - 2 * t, 65536, 196608);
        vstd::arithmetic::mul::lemma_mul_nonnegative(
            fmul(t as int, t as int),
            196608 - 2 * t,
        );
        if fmul(t as int, t as int) * (196608 - 2 * t) > 0 {
            vstd::arithmetic::div_mod::lemma_div_pos_is_pos(
                fmul(t as int, t as int) * (196608 - 2 * t),
                65536,
            );
        }
    }
    crate::fixed::fx_mul(crate::fixed::fx_mul(t, t), 196608 - 2 * t)
}

/// One corner's contribution, with the ranges the noise evaluation needs.
fn perlin_term(c: Vector3, wv: Vector3, f1: Fx, f2: Fx, f3: Fx) -> (r: Fx)
    requires
        vec_mag_le(c, UNIT_MAX as int),
        vec_mag_le(wv, 131072),
        -262144 <= f1 <= 262144,
        -262144 <= f2 <= 262144,
        -262144 <= f3 <= 262144,
    ensures
        r == pn_term(c, wv, f1 as int, f2 as int, f3 as int),
        -100000000000 <= r <= 100000000000,
{
    proof {
        lemma_fmul_mag(f1 as int, f2 as int, 262144, 262144);
        lemma_fmul_mag(fmul(f1 as int, f2 as int), f3 as int, 1048576, 262144);
        lemma_sdot_mag(c, wv, UNIT_MAX as int, 131072);
        lemma_fmul_mag(
            fmul(fmul(f1 as int, f2 as int), f3 as int),
            sdot(c, wv),
            4194304,
            1572864,
        );
    }
    let a: i128 = crate::fixed::fx_mul(f1, f2);
    let b: i128 = crate::fixed::fx_mul(a, f3);
    let d: i128 = c.dot(wv);
    crate::fixed::fx_mul(b, d)
}

impl Perlin {
    /// Fresh tables: 256 random unit gradients and three random
    /// permutations of the byte range.
    pub fn new(rng: &mut Rng) -> (pl: Perlin)
        ensures
            perlin_wf(pl),
    {
        let mut randvec: Vec<Vector3> = Vec::new();
        let mut i: usize = 0;
        while i < 256
            invariant
                i <= 256,
                randvec@.len() == i,
                forall|k: int|
                    0 <= k < i as int ==> vec_mag_le(#[trigger] randvec@[k], UNIT_MAX as int),
            decreases 256 - i,
        {
            let g: Vector3 = Vector3::random_unit_vector(rng);
            randvec.push(g);
            i = i + 1;
        }
        let perm_x: Vec<u8> = Perlin::generate_perm(rng);
        let perm_y: Vec<u8> = Perlin::generate_perm(rng);
        let perm_z: Vec<u8> = Perlin::generate_perm(rng);
        Perlin { randvec, perm_x, perm_y, perm_z }
    }

    /// A random permutation of the byte range, drawn by removing random
    /// candidates one by one.
    fn generate_perm(rng: &mut Rng) -> (p: Vec<u8>)
        ensures
            p@.len() == 256,
    {
        let mut pool: Vec<u8> = Vec::new();
        let mut i: usize = 0;
        while i < 256
            invariant
                i <= 256,
                pool@.len() == i,
            decreases 256 - i,
        {
            pool.push(i as u8);
            i = i + 1;
        }
        let mut p: Vec<u8> = Vec::new();
        let mut k: usize = 0;
        while k < 256
            invariant
                k <= 256,
                p@.len() == k,
                pool@.len() == 256 - k,
            decreases 256 - k,
        {
            let j: u64 = random_index(rng, (pool.len()) as u64);
            let v: u8 = pool.remove(j as usize);
            p.push(v);
            k = k + 1;
        }
        p
    }

    /// The noise value at `pt`, exactly the eased trilinear blend
    /// `pn_noise`.
    pub fn noise(&self, pt: &Vector3) -> (r: Fx)
        requires
            perlin_wf(*self),
            -1180591620717411303424 <= pt.x <= 1180591620717411303424,
            -1180591620717411303424 <= pt.y <= 1180591620717411303424,
            -1180591620717411303424 <= pt.z <= 1180591620717411303424,
        ensures
            r == pn_noise(*self, *pt),
            -800000000000 <= r <= 800000000000,
    {
        let fi: i128 = fx_floordiv(pt.x, 65536);
        let fj: i128 = fx_floordiv(pt.y, 65536);
        let fk: i128 = fx_floordiv(pt.z, 65536);
        proof {
            vstd::arithmetic::div_mod::lemma_fundamental_div_mod(pt.x as int, 65536);
            vstd::arithmetic::div_mod::lemma_mod_bound(pt.x as int, 65536);
            vstd::arithmetic::div_mod::lemma_fundamental_div_mod(pt.y as int, 65536);
            vstd::arithmetic::div_mod::lemma_mod_bound(pt.y as int, 65536);
            vstd::arithmetic::div_mod::lemma_fundamental_div_mod(pt.z as int, 65536);
            vstd::arithmetic::div_mod::lemma_mod_bound(pt.z as int, 65536);
        }
        let u: i128 = pt.x - fi * 65536;
        let v: i128 = pt.y - fj * 65536;
        let w: i128 = pt.z - fk * 65536;
        let uu: i128 = perlin_ease(u);
        let vv: i128 = perlin_ease(v);
        let ww: i128 = perlin_ease(w);
        let c000: Vector3 = self.corner(fi, fj, fk, 0, 0, 0);
        let c001: Vector3 = self.corner(fi, fj, fk, 0, 0, 1);
        let c010: Vector3 = self.corner(fi, fj, fk, 0, 1, 0);
        let c011: Vector3 = self.corner(fi, fj, fk, 0, 1, 1);
        let c100: Vector3 = self.corner(fi, fj, fk, 1, 0, 0);
        let c101: Vector3 = self.corner(fi, fj, fk, 1, 0, 1);
        let c110: Vector3 = self.corner(fi, fj, fk, 1, 1, 0);
        let c111: Vector3 = self.corner(fi, fj, fk, 1, 1, 1);
        let t000: i128 = perlin_term(
            c000,
            Vector3 { x: u, y: v, z: w },
            65536 - uu,
            65536 - vv,
            65536 - ww,
        );
        let t001: i128 = perlin_term(
            c001,
            Vector3 { x: u, y: v, z: w - 65536 },
            65536 - uu,
            65536 - vv,
            ww,
        );
        let t010: i128 = perlin_term(
            c010,
            Vector3 { x: u, y: v - 65536, z: w },
            65536 - uu,
            vv,
            65536 - ww,
        );
        let t011: i128 = perlin_term(
            c011,
            Vector3 { x: u, y: v - 65536, z: w - 65536 },
            65536 - uu,
            vv,
            ww,
        );
        let t100: i128 = perlin_term(
            c100,
            Vector3 { x: u - 65536, y: v, z: w },
            uu,
            65536 - vv,
            65536 - ww,
        );
        let t101: i128 = perlin_term(
            c101,
            Vector3 { x: u - 65536, y: v, z: w - 65536 },
            uu,
            65536 - vv,
            ww,
        );
        let t110: i128 = perlin_term(
            c110,
            Vector3 { x: u - 65536, y: v - 65536, z: w },
            uu,
            vv,
            65536 - ww,
        );
        let t111: i128 = perlin_term(
            c111,
            Vector3 { x: u - 65536, y: v - 65536, z: w - 65536 },
            uu,
            vv,
            ww,
        );
        t000 + t001 + t010 + t011 + t100 + t101 + t110 + t111
    }

    /// The gradient at one lattice corner.
    fn corner(&self, fi: i128, fj: i128, fk: i128, di: i128, dj: i128, dk: i128) -> (r: Vector3)
        requires
            perlin_wf(*self),
            -FX_DIV_LIM <= fi + di <= FX_DIV_LIM,
            -FX_DIV_LIM <= fj + dj <= FX_DIV_LIM,
            -FX_DIV_LIM <= fk + dk <= FX_DIV_LIM,
        ensures
            r == pn_corner(*self, fi as int, fj as int, fk as int, di as int, dj as int, dk as int),
            vec_mag_le(r, UNIT_MAX as int),
    {
        let ix: usize = mod_256(fi + di);
        let iy: usize = mod_256(fj + dj);
        let iz: usize = mod_256(fk + dk);
        let hx: u8 = self.perm_x[ix];
        let hy: u8 = self.perm_y[iy];
        let hz: u8 = self.perm_z[iz];
        self.randvec[(hx ^ hy ^ hz) as usize]
    }

    /// The turbulence at `pt`: octaves of noise at doubling frequency and
    /// halving weight, summed and taken by magnitude.
    pub fn turb(&self, pt: &Vector3, depth: usize) -> (r: Fx)
        requires
            perlin_wf(*self),
            depth <= 24,
            -68719476736 <= pt.x <= 68719476736,
            -68719476736 <= pt.y <= 68719476736,
            -68719476736 <= pt.z <= 68719476736,
        ensures
            r == pn_turb(*self, *pt, depth as int),
            0 <= r <= 100000000000000,
    {
        let mut accum: i128 = 0;
        let mut temp: Vector3 = *pt;
        let mut weight: i128 = 65536;
        let mut k: usize = 0;
        proof {
            vstd::arithmetic::power2::lemma2_to64();
        }
        while k < depth
            invariant
                perlin_wf(*self),
                k <= depth <= 24,
                0 <= weight <= 65536,
                -68719476736 * pow2(k as nat) <= temp.x <= 68719476736 * pow2(k as nat),
                -68719476736 * pow2(k as nat) <= temp.y <= 68719476736 * pow2(k as nat),
                -68719476736 * pow2(k as nat) <= temp.z <= 68719476736 * pow2(k as nat),
                -800000000000 * (k as int) <= accum <= 800000000000 * (k as int),
                pn_turb_rec(*self, *pt, 65536, depth as int) == accum + pn_turb_rec(
                    *self,
                    temp,
                    weight as int,
                    depth - k,
                ),
            decreases depth - k,
        {
            proof {
                if (k as nat) < 24 {
                    lemma_pow2_strictly_increases(k as nat, 24);
                }
                vstd::arithmetic::power2::lemma2_to64();
            }
            let n: i128 = self.noise(&temp);
            proof {
                lemma_fmul_mag(weight as int, n as int, 65536, 800000000000);
                lemma_pow2_unfold((k + 1) as nat);
            }
            let octave: i128 = crate::fixed::fx_mul(weight, n);
            accum = accum + octave;
            weight = fx_divc(weight, 2);
            temp = Vector3 { x: temp.x * 2, y: temp.y * 2, z: temp.z * 2 };
            k = k + 1;
        }
        if accum < 0 {
            -accum
        } else {
            accum
        }
    }
}

} // verus!
