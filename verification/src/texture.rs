//! Textures: solid colors, the spatial checker, image lookup and
//! Perlin-noise marble, as a closed sum type.

use vstd::prelude::*;
use crate::fixed::{
    div_t, fmul, fx_divc, fx_floordiv, fx_mul, lemma_fmul_mag, lemma_fmul_unit_range, Fx,
};
use crate::perlin::{perlin_wf, pn_turb, Perlin};
use crate::rng::Rng;
use crate::trig::{sclamp, sin_fx, ssin};
use crate::vec3::{vec_mag_le, Vector3, VMAX};

verus! {

/// A color whose components lie in the unit interval.
pub open spec fn color_wf(c: Vector3) -> bool {
    0 <= c.x <= 65536 && 0 <= c.y <= 65536 && 0 <= c.z <= 65536
}

/// An externally supplied read-only pixel grid: row-major RGB byte
/// triples.
pub struct ImageData {
    pub width: usize,
    pub height: usize,
    pub data: Vec<u8>,
}

/// A pixel grid of consistent dimensions.
pub open spec fn image_wf(img: ImageData) -> bool {
    &&& 1 <= img.width <= 16384
    &&& 1 <= img.height <= 16384
    &&& img.data@.len() == img.width * img.height * 3
}

impl ImageData {
    /// A pixel grid from raw bytes; rejected unless the dimensions are in
    /// range and the byte count matches exactly.
    pub fn new(width: usize, height: usize, data: Vec<u8>) -> (r: Option<ImageData>)
        ensures
            r matches Some(img) ==> image_wf(img) && img.width == width && img.height == height
                && img.data == data,
            r is None <==> !(1 <= width <= 16384 && 1 <= height <= 16384 && data@.len() == width
                * height * 3),
    {
        proof {
            if 1 <= width <= 16384 && 1 <= height <= 16384 {
                assert(width * height * 3 <= 16384 * 16384 * 3) by (nonlinear_arith)
                    requires
                        1 <= width <= 16384,
                        1 <= height <= 16384;
            }
        }
        if 1 <= width && width <= 16384 && 1 <= height && height <= 16384 {
            let need: usize = width * height * 3;
            if data.len() == need {
                return Some(ImageData { width, height, data });
            }
        }
        None
    }
}

/// A constant color.
pub struct SolidColor {
    pub color_value: Vector3,
}

/// A spatial checker alternating between two sub-textures.
pub struct CheckerTexture {
    pub even: Box<Texture>,
    pub odd: Box<Texture>,
}

/// A texture looked up from a pixel grid by surface coordinates.
pub struct ImageTexture {
    pub image: ImageData,
}

/// Perlin-noise marble: a sine of depth plus turbulence.
pub struct NoiseTexture {
    pub noise: Perlin,
    pub scale: Fx,
}

/// The closed set of textures.
pub enum Texture {
    Solid(SolidColor),
    Checker(CheckerTexture),
    Image(ImageTexture),
    Noise(NoiseTexture),
}

/// A texture whose parameters are within range, recursively.
pub open spec fn texture_wf(t: Texture) -> bool
    decreases t,
{
    match t {
        Texture::Solid(s) => color_wf(s.color_value),
        Texture::Checker(c) => texture_wf(*c.even) && texture_wf(*c.odd),
        Texture::Image(im) => image_wf(im.image),
        Texture::Noise(n) => perlin_wf(n.noise) && 0 <= n.scale <= 65536000,
    }
}

/// The spatial parity of the checker at `p`: whether an odd number of the
/// three axes lie in an odd half-period of the wave `sin(10 x)`.
pub open spec fn checker_odd(p: Vector3) -> bool {
    let qx = (10 * p.x) / 205887;
    let qy = (10 * p.y) / 205887;
    let qz = (10 * p.z) / 205887;
    (qx + qy + qz) % 2 == 1
}

/// The color of the image texture at the surface coordinates `(u, v)`:
/// the nearest pixel after the vertical flip, squared componentwise to
/// undo the asset's gamma encoding.
pub open spec fn image_color(img: ImageData, u: int, v: int) -> Vector3 {
    let i = sclamp((u * img.width) / 65536, 0, img.width - 1);
    let j = sclamp(((65536 - v) * img.height - 66) / 65536, 0, img.height - 1);
    let idx = (j * img.width + i) * 3;
    let cr = div_t(img.data@[idx] * 65536, 255);
    let cg = div_t(img.data@[idx + 1] * 65536, 255);
    let cb = div_t(img.data@[idx + 2] * 65536, 255);
    Vector3 { x: fmul(cr, cr) as i128, y: fmul(cg, cg) as i128, z: fmul(cb, cb) as i128 }
}

/// The marble color at `p`: a grey from the sine of depth plus scaled
/// turbulence at seven octaves.
pub open spec fn noise_color(n: NoiseTexture, p: Vector3) -> Vector3 {
    let arg = fmul(n.scale as int, p.z as int) + 10 * pn_turb(n.noise, p, 7);
    let grey = fmul(32768, 65536 + ssin(arg)) as i128;
    Vector3 { x: grey, y: grey, z: grey }
}

/// The color of a texture at surface coordinates `(u, v)` and point `p`.
pub open spec fn texture_value(t: Texture, u: int, v: int, p: Vector3) -> Vector3
    decreases t,
{
    match t {
        Texture::Solid(s) => s.color_value,
        Texture::Checker(c) => if checker_odd(p) {
            texture_value(*c.odd, u, v, p)
        } else {
            texture_value(*c.even, u, v, p)
        },
        Texture::Image(im) => image_color(im.image, u, v),
        Texture::Noise(n) => noise_color(n, p),
    }
}

impl SolidColor {
    pub fn new(c: Vector3) -> (r: SolidColor)
        ensures
            r.color_value == c,
    {
        SolidColor { color_value: c }
    }

    pub fn from_rgb(r: Fx, g: Fx, b: Fx) -> (t: SolidColor)
        ensures
            t.color_value == (Vector3 { x: r, y: g, z: b }),
    {
        SolidColor::new(Vector3 { x: r, y: g, z: b })
    }

    pub fn value(&self, u: Fx, v: Fx, p: &Vector3) -> (c: Vector3)
        ensures
            c == self.color_value,
    {
        self.color_value
    }
}

impl CheckerTexture {
    pub fn new(even: Box<Texture>, odd: Box<Texture>) -> (t: CheckerTexture)
        ensures
            t.even == even,
            t.odd == odd,
    {
        CheckerTexture { even, odd }
    }

    pub fn from_colors(c1: Vector3, c2: Vector3) -> (t: CheckerTexture)
        ensures
            *t.even == Texture::Solid(SolidColor { color_value: c1 }),
            *t.odd == Texture::Solid(SolidColor { color_value: c2 }),
    {
        CheckerTexture {
            even: Box::new(Texture::Solid(SolidColor::new(c1))),
            odd: Box::new(Texture::Solid(SolidColor::new(c2))),
        }
    }

    /// The sub-texture the spatial parity selects at `p`.
    pub fn value(&self, u: Fx, v: Fx, p: &Vector3) -> (c: Vector3)
        requires
            texture_wf(*self.even),
            texture_wf(*self.odd),
            0 <= u <= 65536,
            0 <= v <= 65536,
            vec_mag_le(*p, VMAX as int),
        ensures
            c == (if checker_odd(*p) {
                texture_value(*self.odd, u as int, v as int, *p)
            } else {
                texture_value(*self.even, u as int, v as int, *p)
            }),
            color_wf(c),
        decreases *self,
    {
        if checker_odd_at(p) {
            self.odd.value(u, v, p)
        } else {
            self.even.value(u, v, p)
        }
    }
}

/// The spatial parity of the checker at `p`, exactly `checker_odd`.
pub fn checker_odd_at(p: &Vector3) -> (r: bool)
    requires
        vec_mag_le(*p, VMAX as int),
    ensures
        r == checker_odd(*p),
{
    let qx: i128 = fx_floordiv(10 * p.x, 205887);
    let qy: i128 = fx_floordiv(10 * p.y, 205887);
    let qz: i128 = fx_floordiv(10 * p.z, 205887);
    let s: i128 = qx + qy + qz;
    let h: i128 = fx_floordiv(s, 2);
    proof {
        vstd::arithmetic::div_mod::lemma_fundamental_div_mod(s as int, 2);
        vstd::arithmetic::div_mod::lemma_mod_bound(s as int, 2);
    }
    s - h * 2 == 1
}

impl ImageTexture {
    /// A texture over an externally supplied pixel grid.
    pub fn new(image: ImageData) -> (t: ImageTexture)
        ensures
            t.image == image,
    {
        ImageTexture { image }
    }

    /// The pixel the surface coordinates select, squared componentwise.
    pub fn value(&self, u: Fx, v: Fx, p: &Vector3) -> (c: Vector3)
        requires
            image_wf(self.image),
            0 <= u <= 65536,
            0 <= v <= 65536,
        ensures
            c == image_color(self.image, u as int, v as int),
            color_wf(c),
    {
        let w: i128 = self.image.width as i128;
        let h: i128 = self.image.height as i128;
        proof {
            crate::fixed::lemma_mul_mag(u as int, w as int, 65536, 16384);
            crate::fixed::lemma_mul_mag(65536 - v as int, h as int, 65536, 16384);
        }
        let i0: i128 = fx_floordiv(u * w, 65536);
        let j0: i128 = fx_floordiv((65536 - v) * h - 66, 65536);
        let i: i128 = if i0 < 0 {
            0
        } else if i0 > w - 1 {
            w - 1
        } else {
            i0
        };
        let j: i128 = if j0 < 0 {
            0
        } else if j0 > h - 1 {
            h - 1
        } else {
            j0
        };
        proof {
            assert((j * w + i) * 3 + 2 < w * h * 3) by (nonlinear_arith)
                requires
                    0 <= i < w,
                    0 <= j < h;
            assert(0 <= (j * w + i) * 3) by (nonlinear_arith)
                requires
                    0 <= i,
                    0 <= j,
                    0 < w;
            assert(w * h * 3 <= 16384 * 16384 * 3) by (nonlinear_arith)
                requires
                    0 < w <= 16384,
                    0 < h <= 16384;
        }
        let idx: usize = ((j * w + i) * 3) as usize;
        let br: u8 = self.image.data[idx];
        let bg: u8 = self.image.data[idx + 1];
        let bb: u8 = self.image.data[idx + 2];
        let cr: i128 = fx_divc((br as i128) * 65536, 255);
        let cg: i128 = fx_divc((bg as i128) * 65536, 255);
        let cb: i128 = fx_divc((bb as i128) * 65536, 255);
        proof {
            lemma_unit_byte(br as int);
            lemma_unit_byte(bg as int);
            lemma_unit_byte(bb as int);
            lemma_fmul_unit_range(div_t(br as int * 65536, 255), div_t(br as int * 65536, 255));
            lemma_fmul_unit_range(div_t(bg as int * 65536, 255), div_t(bg as int * 65536, 255));
            lemma_fmul_unit_range(div_t(bb as int * 65536, 255), div_t(bb as int * 65536, 255));
        }
        Vector3 { x: fx_mul(cr, cr), y: fx_mul(cg, cg), z: fx_mul(cb, cb) }
    }
}

/// A byte scaled into the unit interval stays in it.
proof fn lemma_unit_byte(b: int)
    requires
        0 <= b <= 255,
    ensures
        0 <= div_t(b * 65536, 255) <= 65536,
{
    if b > 0 {
        vstd::arithmetic::div_mod::lemma_div_pos_is_pos(b * 65536, 255);
    }
    crate::fixed::lemma_div_t_mag(b * 65536, 255, 16711680);
    assert(16711680int / 255 == 65536) by {
        vstd::arithmetic::div_mod::lemma_div_multiples_vanish(65536, 255);
    }
}

impl NoiseTexture {
    /// A marble texture with fresh Perlin tables.
    pub fn new(scale: Fx, rng: &mut Rng) -> (t: NoiseTexture)
        requires
            0 <= scale <= 65536000,
        ensures
            t.scale == scale,
            perlin_wf(t.noise),
    {
        NoiseTexture { noise: Perlin::new(rng), scale }
    }

    /// The marble grey at `p`.
    pub fn value(&self, u: Fx, v: Fx, p: &Vector3) -> (c: Vector3)
        requires
            perlin_wf(self.noise),
            0 <= self.scale <= 65536000,
            vec_mag_le(*p, VMAX as int),
        ensures
            c == noise_color(*self, *p),
            color_wf(c),
    {
        proof {
            lemma_fmul_mag(self.scale as int, p.z as int, 65536000, VMAX as int);
        }
        let depth_term: i128 = fx_mul(self.scale, p.z);
        let tb: i128 = self.noise.turb(p, 7);
        let arg: i128 = depth_term + 10 * tb;
        let s: i128 = sin_fx(arg);
        proof {
            lemma_fmul_mag(32768, 65536 + s as int, 32768, 131072);
            vstd::arithmetic::mul::lemma_mul_nonnegative(32768, 65536 + s as int);
            if 32768 * (65536 + s as int) > 0 {
                vstd::arithmetic::div_mod::lemma_div_pos_is_pos(32768 * (65536 + s as int), 65536);
            }
        }
        let grey: i128 = fx_mul(32768, 65536 + s);
        Vector3 { x: grey, y: grey, z: grey }
    }
}

/// The checker alternates across a spatial period boundary: moving one
/// half-period of the wave along one axis flips the parity, so the two
/// points select opposite sub-textures.
pub proof fn lemma_checker_alternates(t: CheckerTexture, u: int, v: int, p1: Vector3, p2: Vector3)
    requires
        p1.y == p2.y,
        p1.z == p2.z,
        (10 * p2.x) / 205887 == (10 * p1.x) / 205887 + 1,
    ensures
        checker_odd(p2) == !checker_odd(p1),
        checker_odd(p1) ==> texture_value(Texture::Checker(t), u, v, p1) == texture_value(
            *t.odd,
            u,
            v,
            p1,
        ) && texture_value(Texture::Checker(t), u, v, p2) == texture_value(*t.even, u, v, p2),
        !checker_odd(p1) ==> texture_value(Texture::Checker(t), u, v, p1) == texture_value(
            *t.even,
            u,
            v,
            p1,
        ) && texture_value(Texture::Checker(t), u, v, p2) == texture_value(*t.odd, u, v, p2),
{
    let s1: int = (10 * p1.x) / 205887 + (10 * p1.y) / 205887 + (10 * p1.z) / 205887;
    let s2: int = (10 * p2.x) / 205887 + (10 * p2.y) / 205887 + (10 * p2.z) / 205887;
    assert(s2 == s1 + 1);
    vstd::arithmetic::div_mod::lemma_fundamental_div_mod(s1, 2);
    vstd::arithmetic::div_mod::lemma_mod_bound(s1, 2);
    let k: int = s1 / 2;
    let m: int = s1 % 2;
    if m == 0 {
        assert(s2 == k * 2 + 1) by (nonlinear_arith)
            requires
                s1 == 2 * k + m,
                m == 0,
                s2 == s1 + 1;
        vstd::arithmetic::div_mod::lemma_fundamental_div_mod_converse(s2, 2, k, 1);
    } else {
        assert(s2 == (k + 1) * 2 + 0) by (nonlinear_arith)
            requires
                s1 == 2 * k + m,
                m == 1,
                s2 == s1 + 1;
        vstd::arithmetic::div_mod::lemma_fundamental_div_mod_converse(s2, 2, k + 1, 0);
    }
}

impl Texture {
    /// The color of this texture at `(u, v)` and `p`.
    pub fn value(&self, u: Fx, v: Fx, p: &Vector3) -> (c: Vector3)
        requires
            texture_wf(*self),
            0 <= u <= 65536,
            0 <= v <= 65536,
            vec_mag_le(*p, VMAX as int),
        ensures
            c == texture_value(*self, u as int, v as int, *p),
            color_wf(c),
        decreases *self,
    {
        match self {
            Texture::Solid(s) => s.value(u, v, p),
            Texture::Checker(c) => c.value(u, v, p),
            Texture::Image(im) => im.value(u, v, p),
            Texture::Noise(n) => n.value(u, v, p),
        }
    }
}

} // verus!
