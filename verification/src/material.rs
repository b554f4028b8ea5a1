//! Materials: diffuse, metal and dielectric scattering, as a closed sum
//! type. Scattering consumes randomness, so each contract states what
//! holds of every outcome, and pins down everything deterministic.

use vstd::prelude::*;
use crate::fixed::{fdiv, fmul, fx_div, fx_mul, fx_sqrt, lemma_fmul_mag, Fx};
use crate::hittable::{hit_rec_wf, HitRecord, NORMAL_MAX};
use crate::ray::{ray_wf, Ray, DIR_MAX};
use crate::rng::{random_double, Rng};
use crate::texture::{color_wf, texture_value, texture_wf, SolidColor, Texture};
use crate::trig::sclamp;
use crate::vec3::{
    sdot, sreflect, srefract, sunit, vadd, vec_mag_le, vscale, Vector3, UNIT_MAX,
};

verus! {

/// Diffuse scattering with a texture-backed albedo.
pub struct Lambertian {
    pub albedo: Texture,
}

/// Specular scattering with a fuzz perturbation in `[0, 1]`.
pub struct Metal {
    pub albedo: Vector3,
    pub fuzz: Fx,
}

/// Refractive scattering with the given relative refractive index.
pub struct Dielectric {
    pub refraction_index: Fx,
}

/// The closed set of materials.
pub enum Material {
    Lambertian(Lambertian),
    Metal(Metal),
    Dielectric(Dielectric),
}

/// A material whose parameters are within range.
pub open spec fn material_wf(m: Material) -> bool {
    match m {
        Material::Lambertian(l) => texture_wf(l.albedo),
        Material::Metal(mt) => color_wf(mt.albedo) && 0 <= mt.fuzz <= 65536,
        Material::Dielectric(d) => 0 < d.refraction_index <= 655360,
    }
}

/// The relative refractive index a dielectric uses at a hit: inverted on
/// a front face, and clamped into the range the refraction handles.
pub open spec fn dielectric_eta(ri: int, front_face: bool) -> int {
    let e = if front_face {
        fdiv(65536, ri)
    } else {
        ri
    };
    sclamp(e, 0, 655360)
}

/// The cosine a dielectric computes at a hit: the incoming unit direction
/// against the oriented normal, capped at one.
pub open spec fn dielectric_cos(r: Ray, rec: HitRecord) -> int {
    let md = -sdot(sunit(r.dir), rec.normal);
    if md < 65536 {
        md
    } else {
        65536
    }
}

/// The matching sine, from the unit identity with a floor at zero.
pub open spec fn dielectric_sin(r: Ray, rec: HitRecord) -> int {
    let c = dielectric_cos(r, rec);
    let t = 65536 - fmul(c, c);
    crate::fixed::sqrt_floor((if t < 0 {
        0
    } else {
        t
    }) * 65536)
}

/// Schlick's reflectance approximation for the cosine `cos` and relative
/// index `eta`.
pub open spec fn schlick(cos: int, eta: int) -> int {
    let q = fdiv(65536 - eta, 65536 + eta);
    let r0 = fmul(q, q);
    let om = 65536 - cos;
    let p2 = fmul(om, om);
    let p4 = fmul(p2, p2);
    let p5 = fmul(p4, om);
    r0 + fmul(65536 - r0, p5)
}

impl Lambertian {
    /// A diffuse material with a solid color albedo.
    pub fn new(albedo: Vector3) -> (m: Lambertian)
        requires
            color_wf(albedo),
        ensures
            m.albedo == Texture::Solid(SolidColor { color_value: albedo }),
            material_wf(Material::Lambertian(m)),
    {
        Lambertian { albedo: Texture::Solid(SolidColor::new(albedo)) }
    }

    /// A diffuse material with an arbitrary texture albedo.
    pub fn new_from_texture(albedo: Texture) -> (m: Lambertian)
        requires
            texture_wf(albedo),
        ensures
            m.albedo == albedo,
            material_wf(Material::Lambertian(m)),
    {
        Lambertian { albedo }
    }
}

impl Metal {
    /// A metal with the given albedo; fuzz above one is clamped to one,
    /// and below zero to zero.
    pub fn new(albedo: Vector3, fuzz: Fx) -> (m: Metal)
        requires
            color_wf(albedo),
        ensures
            m.albedo == albedo,
            m.fuzz == sclamp(fuzz as int, 0, 65536),
            material_wf(Material::Metal(m)),
    {
        Metal { albedo, fuzz: crate::trig::fx_clamp(fuzz, 0, 65536) }
    }
}

impl Dielectric {
    /// A dielectric with the given relative refractive index.
    pub fn new(refraction_index: Fx) -> (m: Dielectric)
        requires
            0 < refraction_index <= 655360,
        ensures
            m.refraction_index == refraction_index,
            material_wf(Material::Dielectric(m)),
    {
        Dielectric { refraction_index }
    }

    /// Schlick's reflectance approximation, exactly `schlick`.
    fn reflectance(&self, cosine: Fx, eta: Fx) -> (r: Fx)
        requires
            -2097152 <= cosine <= 65536,
            0 <= eta <= 655360,
        ensures
            r == schlick(cosine as int, eta as int),
    {
        proof {
            crate::fixed::lemma_div_t_mag(
                (65536 - eta as int) * 65536,
                65536 + eta as int,
                38654705664,
            );
            vstd::arithmetic::div_mod::lemma_div_is_ordered_by_denominator(
                38654705664,
                65536,
                65536 + eta as int,
            );
        }
        let q: Fx = fx_div(65536 - eta, 65536 + eta);
        proof {
            lemma_fmul_mag(q as int, q as int, 589824, 589824);
        }
        let r0: Fx = fx_mul(q, q);
        let om: Fx = 65536 - cosine;
        proof {
            lemma_fmul_mag(om as int, om as int, 2162688, 2162688);
            lemma_fmul_mag(fmul(om as int, om as int), fmul(om as int, om as int), 71368704, 71368704);
            lemma_fmul_mag(
                fmul(fmul(om as int, om as int), fmul(om as int, om as int)),
                om as int,
                77720518656,
                2162688,
            );
            lemma_fmul_mag(
                65536 - fmul(q as int, q as int),
                fmul(
                    fmul(fmul(om as int, om as int), fmul(om as int, om as int)),
                    om as int,
                ),
                5373952,
                2564777115648,
            );
        }
        let p2: Fx = fx_mul(om, om);
        let p4: Fx = fx_mul(p2, p2);
        let p5: Fx = fx_mul(p4, om);
        r0 + fx_mul(65536 - r0, p5)
    }
}

impl Material {
    /// The scattering decision at a hit: `None` means the ray was
    /// absorbed. Whatever the generator returned, a scattered ray starts
    /// at the hit point, keeps the incoming ray's time, and is in the
    /// world range; a diffuse hit attenuates by the texture value, a
    /// metal hit by its albedo, and a dielectric not at all.
    pub fn scatter(&self, rng: &mut Rng, r: &Ray, rec: &HitRecord) -> (res: Option<
        (Vector3, Ray),
    >)
        requires
            material_wf(*self),
            ray_wf(*r),
            hit_rec_wf(*rec),
        ensures
            res matches Some(pair) ==> ray_wf(pair.1) && pair.1.orig == rec.p && pair.1.tm == r.tm
                && color_wf(pair.0),
            self matches Material::Lambertian(l) ==> res matches Some(pair) && pair.0
                == texture_value(l.albedo, rec.u as int, rec.v as int, rec.p),
            self matches Material::Metal(m) ==> (res matches Some(pair) ==> pair.0 == m.albedo
                && sdot(pair.1.dir, rec.normal) > 0 && (exists|ru: Vector3|
                vec_mag_le(ru, UNIT_MAX as int) && pair.1.dir == vadd(
                    sunit(sreflect(r.dir, rec.normal)),
                    vscale(m.fuzz as int, ru),
                ))),
            self matches Material::Dielectric(d) ==> res matches Some(pair) && pair.0 == (Vector3 {
                x: 65536,
                y: 65536,
                z: 65536,
            }) && (pair.1.dir == sreflect(sunit(r.dir), rec.normal) || pair.1.dir == srefract(
                sunit(r.dir),
                rec.normal,
                dielectric_eta(d.refraction_index as int, rec.front_face),
            )),
            self matches Material::Dielectric(d) && fmul(
                dielectric_eta(d.refraction_index as int, rec.front_face),
                dielectric_sin(*r, *rec),
            ) > 65536 ==> (res matches Some(pair) ==> pair.1.dir == sreflect(
                sunit(r.dir),
                rec.normal,
            )),
    {
        match self {
            Material::Lambertian(l) => {
                let ru: Vector3 = Vector3::random_unit_vector(rng);
                let mut dir: Vector3 = rec.normal.plus(ru);
                if dir.near_zero() {
                    dir = rec.normal;
                }
                let scattered: Ray = Ray { orig: rec.p, dir, tm: r.tm };
                let att: Vector3 = l.albedo.value(rec.u, rec.v, &rec.p);
                Some((att, scattered))
            },
            Material::Metal(m) => {
                proof {
                    crate::vec3::lemma_sdot_mag(r.dir, rec.normal, DIR_MAX as int, NORMAL_MAX as int);
                }
                let reflected: Vector3 = r.dir.reflect(rec.normal);
                proof {
                    lemma_fmul_mag(
                        2 * sdot(r.dir, rec.normal),
                        rec.normal.x as int,
                        3298534883328,
                        NORMAL_MAX as int,
                    );
                    lemma_fmul_mag(
                        2 * sdot(r.dir, rec.normal),
                        rec.normal.y as int,
                        3298534883328,
                        NORMAL_MAX as int,
                    );
                    lemma_fmul_mag(
                        2 * sdot(r.dir, rec.normal),
                        rec.normal.z as int,
                        3298534883328,
                        NORMAL_MAX as int,
                    );
                }
                let ru: Vector3 = Vector3::random_unit_vector(rng);
                proof {
                    lemma_fmul_mag(m.fuzz as int, ru.x as int, 65536, 131072);
                    lemma_fmul_mag(m.fuzz as int, ru.y as int, 65536, 131072);
                    lemma_fmul_mag(m.fuzz as int, ru.z as int, 65536, 131072);
                }
                let fuzzed: Vector3 = reflected.unit_vector().plus(ru.scale(m.fuzz));
                let scattered: Ray = Ray { orig: rec.p, dir: fuzzed, tm: r.tm };
                if scattered.dir.dot(rec.normal) > 0 {
                    Some((m.albedo, scattered))
                } else {
                    None
                }
            },
            Material::Dielectric(d) => {
                let ud: Vector3 = r.dir.unit_vector();
                let eta: Fx = if rec.front_face {
                    proof {
                        crate::fixed::lemma_div_t_mag(4294967296, d.refraction_index as int, 4294967296);
                    }
                    crate::trig::fx_clamp(fx_div(65536, d.refraction_index), 0, 655360)
                } else {
                    crate::trig::fx_clamp(d.refraction_index, 0, 655360)
                };
                proof {
                    crate::vec3::lemma_sdot_mag(ud, rec.normal, UNIT_MAX as int, NORMAL_MAX as int);
                }
                let md: Fx = -ud.dot(rec.normal);
                let cos_theta: Fx = if md < 65536 {
                    md
                } else {
                    65536
                };
                proof {
                    lemma_fmul_mag(cos_theta as int, cos_theta as int, 2097152, 2097152);
                }
                let c2: Fx = fx_mul(cos_theta, cos_theta);
                let t: Fx = if 65536 - c2 < 0 {
                    0
                } else {
                    65536 - c2
                };
                let sin_theta: Fx = fx_sqrt(t);
                proof {
                    if sin_theta > 16777216 {
                        assert(sin_theta * sin_theta > 281474976710656) by (nonlinear_arith)
                            requires
                                sin_theta > 16777216;
                    }
                    lemma_fmul_mag(eta as int, sin_theta as int, 655360, 16777216);
                }
                let cannot_refract: bool = fx_mul(eta, sin_theta) > 65536;
                let dir: Vector3 = if cannot_refract || reflect_gate(
                    d,
                    cos_theta,
                    eta,
                    rng,
                ) {
                    ud.reflect(rec.normal)
                } else {
                    ud.refract(rec.normal, eta)
                };
                let scattered: Ray = Ray { orig: rec.p, dir, tm: r.tm };
                Some((Vector3 { x: 65536, y: 65536, z: 65536 }, scattered))
            },
        }
    }
}

/// Whether Schlick reflectance exceeds a fresh uniform draw: the
/// probabilistic choice between reflecting and refracting.
fn reflect_gate(d: &Dielectric, cos_theta: Fx, eta: Fx, rng: &mut Rng) -> (r: bool)
    requires
        -2097152 <= cos_theta <= 65536,
        0 <= eta <= 655360,
{
    let refl: Fx = d.reflectance(cos_theta, eta);
    let draw: Fx = random_double(rng, 0, 65536);
    refl > draw
}

} // verus!
