//! The camera and the integrator: a viewing basis derived from the
//! configuration, jittered per-pixel ray generation with defocus and
//! motion-blur sampling, and the recursive light-transport evaluation.

use vstd::prelude::*;
use crate::color::color_to_bytes;
use crate::fixed::{
    div_t, fdiv, fmul, fx_div, fx_divc, fx_mul, lemma_fmul_mag, lemma_fmul_unit_range, Fx,
};
use crate::hittable::{list_hit, list_wf, HittableList};
use crate::material::{material_wf, Material};
use crate::ray::{ray_wf, Ray};
use crate::rng::{random_double, Rng};
use crate::texture::color_wf;
use crate::trig::{fx_clamp, sclamp, stan_q, tan_q_fx};
use crate::vec3::{
    scross, sdot, sunit, vadd, vdiv, vec_mag_le, vscale, vsub, Vector3, UNIT_MAX, VMAX,
};

verus! {

/// The lower intersection bound of every scene query: a small positive
/// distance that keeps a scattered ray from hitting its own surface.
pub const T_EPS: i128 = 66;

/// The upper intersection bound of every scene query.
pub const T_FAR: i128 = 68719476736;

/// Bound on the configured positions and distances of a camera.
pub const CFG_MAX: i128 = 1073741824;

/// A scene: the shapes, and the material arena their hits index into.
pub struct World {
    pub objects: HittableList,
    pub materials: Vec<Material>,
}

/// Shapes and materials all within range.
pub open spec fn world_wf(w: World) -> bool {
    &&& list_wf(w.objects)
    &&& forall|i: int| 0 <= i < w.materials@.len() ==> material_wf(#[trigger] w.materials@[i])
}

/// The background gradient for a ray: a vertical blend between white at
/// the horizon and sky blue at the zenith.
pub open spec fn sbackground(r: Ray) -> Vector3 {
    let a = sclamp(fmul(32768, sunit(r.dir).y + 65536), 0, 65536);
    vadd(
        vscale(65536 - a, Vector3 { x: 65536, y: 65536, z: 65536 }),
        vscale(a, Vector3 { x: 32768, y: 45875, z: 65536 }),
    )
}

/// The background gradient, exactly `sbackground(r)`.
pub fn background_color(r: &Ray) -> (c: Vector3)
    requires
        ray_wf(*r),
    ensures
        c == sbackground(*r),
        color_wf(c),
{
    let ud: Vector3 = r.dir.unit_vector();
    let a: Fx = fx_clamp(fx_mul(32768, ud.y + 65536), 0, 65536);
    let white: Vector3 = Vector3 { x: 65536, y: 65536, z: 65536 };
    let sky: Vector3 = Vector3 { x: 32768, y: 45875, z: 65536 };
    proof {
        lemma_fmul_unit_range(65536 - a as int, 65536);
        lemma_fmul_unit_range(a as int, 32768);
        lemma_fmul_unit_range(a as int, 45875);
        lemma_fmul_unit_range(a as int, 65536);
    }
    white.scale(65536 - a).plus(sky.scale(a))
}

/// The color carried by a ray: black once the bounce budget is spent; the
/// background where nothing is hit; otherwise the scattered color,
/// attenuated, or black where the material absorbs the ray. The hit scan
/// is restricted to distances in `(T_EPS, T_FAR)`.
pub fn ray_color(r: &Ray, depth: u32, world: &World, rng: &mut Rng) -> (c: Vector3)
    requires
        ray_wf(*r),
        world_wf(*world),
    ensures
        color_wf(c),
        depth == 0 ==> c == (Vector3 { x: 0, y: 0, z: 0 }),
        depth > 0 && list_hit(world.objects.list@, *r, T_EPS as int, T_FAR as int) is None ==> c
            == sbackground(*r),
    decreases depth,
{
    if depth == 0 {
        return Vector3 { x: 0, y: 0, z: 0 };
    }
    match world.objects.hit(r, T_EPS, T_FAR) {
        Some(rec) => {
            match rec.mat {
                Some(mi) => {
                    if mi < world.materials.len() {
                        let m: &Material = &world.materials[mi];
                        match m.scatter(rng, r, &rec) {
                            Some(pair) => {
                                let sub: Vector3 = ray_color(&pair.1, depth - 1, world, rng);
                                proof {
                                    lemma_fmul_unit_range(pair.0.x as int, sub.x as int);
                                    lemma_fmul_unit_range(pair.0.y as int, sub.y as int);
                                    lemma_fmul_unit_range(pair.0.z as int, sub.z as int);
                                }
                                pair.0.times(sub)
                            },
                            None => Vector3 { x: 0, y: 0, z: 0 },
                        }
                    } else {
                        Vector3 { x: 0, y: 0, z: 0 }
                    }
                },
                None => Vector3 { x: 0, y: 0, z: 0 },
            }
        },
        None => background_color(r),
    }
}

/// A camera: the configuration fields, and the viewing state derived from
/// them once at construction.
pub struct Camera {
    pub aspect_ratio: Fx,
    pub image_width: u32,
    pub samples_per_pixel: u32,
    pub max_depth: u32,
    pub vfov: Fx,
    pub look_from: Vector3,
    pub look_at: Vector3,
    pub v_up: Vector3,
    pub defocus_angle: Fx,
    pub focus_dist: Fx,
    pub time0: Fx,
    pub time1: Fx,
    pub image_height: u32,
    pub pixel_samples_scale: Fx,
    pub pixel00_loc: Vector3,
    pub pixel_delta_u: Vector3,
    pub pixel_delta_v: Vector3,
    pub defocus_disk_u: Vector3,
    pub defocus_disk_v: Vector3,
}

/// A configuration the camera accepts: dimensions, angles, positions and
/// times within the ranges the derivation handles.
pub open spec fn camera_cfg_wf(c: Camera) -> bool {
    &&& 6554 <= c.aspect_ratio <= 655360
    &&& 1 <= c.image_width <= 16384
    &&& 1 <= c.samples_per_pixel <= 65536
    &&& 0 < c.vfov < 11796480
    &&& vec_mag_le(c.look_from, CFG_MAX as int)
    &&& vec_mag_le(c.look_at, CFG_MAX as int)
    &&& vec_mag_le(c.v_up, CFG_MAX as int)
    &&& 0 <= c.defocus_angle < 11796480
    &&& 0 < c.focus_dist <= CFG_MAX
    &&& -CFG_MAX <= c.time0 <= c.time1 <= CFG_MAX
}

/// The derived image height: the width over the aspect ratio, kept in
/// the grid range.
pub open spec fn cam_image_height(c: Camera) -> int {
    sclamp(div_t(fdiv(c.image_width * 65536, c.aspect_ratio as int), 65536), 1, 16384)
}

/// The tangent of half the vertical field of view, its argument kept in
/// the quarter period.
pub open spec fn cam_half_tan(c: Camera) -> int {
    stan_q(sclamp(div_t(fdiv(fmul(c.vfov as int, 205887), 11796480), 2), 0, 102943))
}

/// The viewport height at the focus distance.
pub open spec fn cam_viewport_height(c: Camera) -> int {
    fmul(2 * cam_half_tan(c), c.focus_dist as int)
}

/// The viewport width: the height scaled by the realized aspect ratio.
pub open spec fn cam_viewport_width(c: Camera) -> int {
    fmul(cam_viewport_height(c), fdiv(c.image_width * 65536, cam_image_height(c) * 65536))
}

/// The basis vector pointing from the target to the eye.
pub open spec fn cam_w(c: Camera) -> Vector3 {
    sunit(vsub(c.look_from, c.look_at))
}

/// The basis vector pointing right along the viewport.
pub open spec fn cam_u(c: Camera) -> Vector3 {
    sunit(scross(c.v_up, cam_w(c)))
}

/// The basis vector pointing up along the viewport.
pub open spec fn cam_v(c: Camera) -> Vector3 {
    scross(cam_w(c), cam_u(c))
}

/// The vector across the viewport's horizontal edge.
pub open spec fn cam_viewport_u(c: Camera) -> Vector3 {
    vscale(cam_viewport_width(c), cam_u(c))
}

/// The vector down the viewport's vertical edge.
pub open spec fn cam_viewport_v(c: Camera) -> Vector3 {
    vscale(-cam_viewport_height(c), cam_v(c))
}

/// The step between two horizontally adjacent pixel centers.
pub open spec fn cam_pixel_delta_u(c: Camera) -> Vector3 {
    vdiv(cam_viewport_u(c), c.image_width * 65536)
}

/// The step between two vertically adjacent pixel centers.
pub open spec fn cam_pixel_delta_v(c: Camera) -> Vector3 {
    vdiv(cam_viewport_v(c), cam_image_height(c) * 65536)
}

/// The center of the top-left pixel.
pub open spec fn cam_pixel00(c: Camera) -> Vector3 {
    let upper_left = vsub(
        vsub(
            vsub(c.look_from, vscale(c.focus_dist as int, cam_w(c))),
            vdiv(cam_viewport_u(c), 131072),
        ),
        vdiv(cam_viewport_v(c), 131072),
    );
    vadd(upper_left, vscale(32768, vadd(cam_pixel_delta_u(c), cam_pixel_delta_v(c))))
}

/// The defocus disk radius at the focus distance.
pub open spec fn cam_defocus_radius(c: Camera) -> int {
    fmul(
        c.focus_dist as int,
        stan_q(sclamp(fdiv(fmul(c.defocus_angle as int, 205887), 23592960), 0, 102943)),
    )
}

/// The horizontal basis vector of the defocus disk.
pub open spec fn cam_defocus_disk_u(c: Camera) -> Vector3 {
    vscale(cam_defocus_radius(c), cam_u(c))
}

/// The vertical basis vector of the defocus disk.
pub open spec fn cam_defocus_disk_v(c: Camera) -> Vector3 {
    vscale(cam_defocus_radius(c), cam_v(c))
}

/// Whether the derived viewing state lies in the range ray generation
/// needs; a configuration that escapes it is rejected at construction.
pub open spec fn cam_derived_ok(c: Camera) -> bool {
    &&& vec_mag_le(cam_pixel00(c), 4294967296)
    &&& vec_mag_le(cam_pixel_delta_u(c), 1048576)
    &&& vec_mag_le(cam_pixel_delta_v(c), 1048576)
    &&& vec_mag_le(cam_defocus_disk_u(c), CFG_MAX as int)
    &&& vec_mag_le(cam_defocus_disk_v(c), CFG_MAX as int)
}

/// A camera whose configuration is in range and whose stored derived
/// state is within the bounds ray generation relies on.
pub open spec fn camera_wf(c: Camera) -> bool {
    &&& camera_cfg_wf(c)
    &&& 1 <= c.image_height <= 16384
    &&& vec_mag_le(c.pixel00_loc, 4294967296)
    &&& vec_mag_le(c.pixel_delta_u, 1048576)
    &&& vec_mag_le(c.pixel_delta_v, 1048576)
    &&& vec_mag_le(c.defocus_disk_u, CFG_MAX as int)
    &&& vec_mag_le(c.defocus_disk_v, CFG_MAX as int)
}

/// The jittered viewport point of sample offsets `(ox, oy)` at pixel
/// `(i, j)`.
pub open spec fn cam_pixel_sample(c: Camera, i: int, j: int, ox: int, oy: int) -> Vector3 {
    vadd(
        vadd(c.pixel00_loc, vscale(i * 65536 + ox, c.pixel_delta_u)),
        vscale(j * 65536 + oy, c.pixel_delta_v),
    )
}

impl Camera {
    /// A camera over the given configuration. Rejected when the eye and
    /// the target coincide, or when the derived viewing state escapes the
    /// representable range.
    pub fn new(
        aspect_ratio: Fx,
        image_width: u32,
        samples_per_pixel: u32,
        max_depth: u32,
        vfov: Fx,
        look_from: Vector3,
        look_at: Vector3,
        v_up: Vector3,
        defocus_angle: Fx,
        focus_dist: Fx,
        time0: Fx,
        time1: Fx,
    ) -> (res: Option<Camera>)
        requires
            6554 <= aspect_ratio <= 655360,
            1 <= image_width <= 16384,
            1 <= samples_per_pixel <= 65536,
            0 < vfov < 11796480,
            vec_mag_le(look_from, CFG_MAX as int),
            vec_mag_le(look_at, CFG_MAX as int),
            vec_mag_le(v_up, CFG_MAX as int),
            0 <= defocus_angle < 11796480,
            0 < focus_dist <= CFG_MAX,
            -CFG_MAX <= time0 <= time1 <= CFG_MAX,
        ensures
            res matches Some(c) ==> camera_wf(c) && c.aspect_ratio == aspect_ratio
                && c.image_width == image_width && c.samples_per_pixel == samples_per_pixel
                && c.max_depth == max_depth && c.vfov == vfov && c.look_from == look_from
                && c.look_at == look_at && c.v_up == v_up && c.defocus_angle == defocus_angle
                && c.focus_dist == focus_dist && c.time0 == time0 && c.time1 == time1
                && c.image_height == cam_image_height(c) && c.pixel00_loc == cam_pixel00(c)
                && c.pixel_delta_u == cam_pixel_delta_u(c) && c.pixel_delta_v == cam_pixel_delta_v(
                c,
            ) && c.defocus_disk_u == cam_defocus_disk_u(c) && c.defocus_disk_v
                == cam_defocus_disk_v(c),
            res is None <==> look_from == look_at || !cam_derived_ok(
                Camera {
                    aspect_ratio,
                    image_width,
                    samples_per_pixel,
                    max_depth,
                    vfov,
                    look_from,
                    look_at,
                    v_up,
                    defocus_angle,
                    focus_dist,
                    time0,
                    time1,
                    image_height: 0,
                    pixel_samples_scale: 65536,
                    pixel00_loc: Vector3 { x: 0, y: 0, z: 0 },
                    pixel_delta_u: Vector3 { x: 0, y: 0, z: 0 },
                    pixel_delta_v: Vector3 { x: 0, y: 0, z: 0 },
                    defocus_disk_u: Vector3 { x: 0, y: 0, z: 0 },
                    defocus_disk_v: Vector3 { x: 0, y: 0, z: 0 },
                },
            ),
    {
        if look_from.x == look_at.x && look_from.y == look_at.y && look_from.z == look_at.z {
            return None;
        }
        let mut camera: Camera = Camera {
            aspect_ratio,
            image_width,
            samples_per_pixel,
            max_depth,
            vfov,
            look_from,
            look_at,
            v_up,
            defocus_angle,
            focus_dist,
            time0,
            time1,
            image_height: 0,
            pixel_samples_scale: 65536,
            pixel00_loc: Vector3 { x: 0, y: 0, z: 0 },
            pixel_delta_u: Vector3 { x: 0, y: 0, z: 0 },
            pixel_delta_v: Vector3 { x: 0, y: 0, z: 0 },
            defocus_disk_u: Vector3 { x: 0, y: 0, z: 0 },
            defocus_disk_v: Vector3 { x: 0, y: 0, z: 0 },
        };
        let ok: bool = camera.initialize();
        if ok {
            Some(camera)
        } else {
            None
        }
    }

    /// Derives the viewing state from the configuration: image height,
    /// orthonormal basis, viewport steps, top-left pixel center and
    /// defocus disk basis. Returns whether it all lies in range.
    #[verifier::rlimit(100)]
    pub fn initialize(&mut self) -> (ok: bool)
        requires
            camera_cfg_wf(*old(self)),
            old(self).look_from != old(self).look_at,
        ensures
            final(self).aspect_ratio == old(self).aspect_ratio,
            final(self).image_width == old(self).image_width,
            final(self).samples_per_pixel == old(self).samples_per_pixel,
            final(self).max_depth == old(self).max_depth,
            final(self).vfov == old(self).vfov,
            final(self).look_from == old(self).look_from,
            final(self).look_at == old(self).look_at,
            final(self).v_up == old(self).v_up,
            final(self).defocus_angle == old(self).defocus_angle,
            final(self).focus_dist == old(self).focus_dist,
            final(self).time0 == old(self).time0,
            final(self).time1 == old(self).time1,
            final(self).image_height == cam_image_height(*old(self)),
            final(self).pixel_delta_u == cam_pixel_delta_u(*old(self)),
            final(self).pixel_delta_v == cam_pixel_delta_v(*old(self)),
            final(self).defocus_disk_u == cam_defocus_disk_u(*old(self)),
            final(self).defocus_disk_v == cam_defocus_disk_v(*old(self)),
            ok ==> final(self).pixel00_loc == cam_pixel00(*old(self)),
            ok == cam_derived_ok(*old(self)),
            ok ==> camera_wf(*final(self)),
    {
        let w_fx: i128 = (self.image_width as i128) * 65536;
        let ih: i128 = fx_clamp(fx_divc(fx_div(w_fx, self.aspect_ratio), 65536), 1, 16384);
        self.image_height = ih as u32;
        self.pixel_samples_scale = fx_div(65536, (self.samples_per_pixel as i128) * 65536);
        let h_fx: i128 = ih * 65536;
        let rad: i128 = fx_div(fx_mul(self.vfov, 205887), 11796480);
        let half_rad: i128 = fx_clamp(fx_divc(rad, 2), 0, 102943);
        let h: i128 = tan_q_fx(half_rad);
        proof {
            lemma_fmul_mag(2 * h as int, self.focus_dist as int, 8589934592, CFG_MAX as int);
        }
        let viewport_height: i128 = fx_mul(2 * h, self.focus_dist);
        proof {
            crate::fixed::lemma_div_t_mag(
                w_fx as int * 65536,
                h_fx as int,
                70368744177664,
            );
            vstd::arithmetic::div_mod::lemma_div_is_ordered_by_denominator(
                70368744177664,
                65536,
                h_fx as int,
            );
            lemma_fmul_mag(
                viewport_height as int,
                fdiv(w_fx as int, h_fx as int),
                140737488355328,
                1073741824,
            );
        }
        let ratio: i128 = fx_div(w_fx, h_fx);
        let viewport_width: i128 = fx_mul(viewport_height, ratio);
        let w_basis: Vector3 = self.look_from.minus(self.look_at).unit_vector();
        let vw_cross: Vector3 = self.v_up.cross(w_basis);
        proof {
            lemma_cross_mag(self.v_up, w_basis, CFG_MAX as int, UNIT_MAX as int);
        }
        let u_basis: Vector3 = vw_cross.unit_vector();
        let v_basis: Vector3 = w_basis.cross(u_basis);
        proof {
            lemma_cross_mag(w_basis, u_basis, UNIT_MAX as int, UNIT_MAX as int);
            lemma_fmul_mag(viewport_width as int, u_basis.x as int, 2305843009213693952, 131072);
            lemma_fmul_mag(viewport_width as int, u_basis.y as int, 2305843009213693952, 131072);
            lemma_fmul_mag(viewport_width as int, u_basis.z as int, 2305843009213693952, 131072);
        }
        let viewport_u: Vector3 = u_basis.scale(viewport_width);
        proof {
            lemma_fmul_mag(-(viewport_height as int), v_basis.x as int, 140737488355328, 524288);
            lemma_fmul_mag(-(viewport_height as int), v_basis.y as int, 140737488355328, 524288);
            lemma_fmul_mag(-(viewport_height as int), v_basis.z as int, 140737488355328, 524288);
        }
        let viewport_v: Vector3 = v_basis.scale(-viewport_height);
        let pdu: Vector3 = viewport_u.divide(w_fx);
        let pdv: Vector3 = viewport_v.divide(h_fx);
        self.pixel_delta_u = pdu;
        self.pixel_delta_v = pdv;
        let drad: i128 = fx_clamp(fx_div(fx_mul(self.defocus_angle, 205887), 23592960), 0, 102943);
        let defocus_radius: i128 = fx_mul(self.focus_dist, tan_q_fx(drad));
        proof {
            lemma_fmul_mag(self.focus_dist as int, stan_q(drad as int), CFG_MAX as int, 4294967296);
        }
        let ddu: Vector3 = u_basis.scale(defocus_radius);
        let ddv: Vector3 = v_basis.scale(defocus_radius);
        self.defocus_disk_u = ddu;
        self.defocus_disk_v = ddv;
        if !(pdu.mag_le(1048576) && pdv.mag_le(1048576)) {
            return false;
        }
        proof {
            lemma_fmul_mag(self.focus_dist as int, w_basis.x as int, CFG_MAX as int, UNIT_MAX as int);
            lemma_fmul_mag(self.focus_dist as int, w_basis.y as int, CFG_MAX as int, UNIT_MAX as int);
            lemma_fmul_mag(self.focus_dist as int, w_basis.z as int, CFG_MAX as int, UNIT_MAX as int);
        }
        let upper_left: Vector3 = self.look_from.minus(w_basis.scale(self.focus_dist)).minus(
            viewport_u.divide(131072),
        ).minus(viewport_v.divide(131072));
        let p00: Vector3 = upper_left.plus(pdu.plus(pdv).scale(32768));
        self.pixel00_loc = p00;
        p00.mag_le(4294967296) && ddu.mag_le(1073741824) && ddv.mag_le(1073741824)
    }

    /// A point on the defocus disk around the eye.
    fn defocus_disk_sample(&self, rng: &mut Rng) -> (r: Vector3)
        requires
            camera_wf(*self),
        ensures
            vec_mag_le(r, VMAX as int),
            exists|pd: Vector3|
                sdot(pd, pd) < 65536 && pd.z == 0 && r == vadd(
                    vadd(self.look_from, vscale(pd.x as int, self.defocus_disk_u)),
                    vscale(pd.y as int, self.defocus_disk_v),
                ),
    {
        let p: Vector3 = Vector3::random_in_unit_disk(rng);
        proof {
            lemma_fmul_mag(p.x as int, self.defocus_disk_u.x as int, 65536, CFG_MAX as int);
            lemma_fmul_mag(p.x as int, self.defocus_disk_u.y as int, 65536, CFG_MAX as int);
            lemma_fmul_mag(p.x as int, self.defocus_disk_u.z as int, 65536, CFG_MAX as int);
            lemma_fmul_mag(p.y as int, self.defocus_disk_v.x as int, 65536, CFG_MAX as int);
            lemma_fmul_mag(p.y as int, self.defocus_disk_v.y as int, 65536, CFG_MAX as int);
            lemma_fmul_mag(p.y as int, self.defocus_disk_v.z as int, 65536, CFG_MAX as int);
        }
        let r: Vector3 = self.look_from.plus(self.defocus_disk_u.scale(p.x)).plus(
            self.defocus_disk_v.scale(p.y),
        );
        proof {
            assert(sdot(p, p) < 65536 && p.z == 0 && r == vadd(
                vadd(self.look_from, vscale(p.x as int, self.defocus_disk_u)),
                vscale(p.y as int, self.defocus_disk_v),
            ));
        }
        r
    }

    /// A camera ray through a jittered point near pixel `(i, j)`: the
    /// origin is the eye exactly when the defocus angle is not positive,
    /// else a defocus disk point; the time is the shutter-open time when
    /// the shutter interval is empty, else a draw from it.
    pub fn get_ray(&self, rng: &mut Rng, i: u32, j: u32) -> (r: Ray)
        requires
            camera_wf(*self),
            i <= 16384,
            j <= 16384,
        ensures
            ray_wf(r),
            self.defocus_angle <= 0 ==> r.orig == self.look_from,
            self.time0 <= r.tm <= self.time1,
            self.time0 == self.time1 ==> r.tm == self.time0,
            exists|ox: int, oy: int|
                -32768 <= ox <= 32768 && -32768 <= oy <= 32768 && r.dir == vsub(
                    #[trigger] cam_pixel_sample(*self, i as int, j as int, ox, oy),
                    r.orig,
                ),
    {
        let ox: Fx = random_double(rng, -32768, 32768);
        let oy: Fx = random_double(rng, -32768, 32768);
        let si: Fx = (i as i128) * 65536 + ox;
        let sj: Fx = (j as i128) * 65536 + oy;
        proof {
            lemma_fmul_mag(si as int, self.pixel_delta_u.x as int, 1073807360, 1048576);
            lemma_fmul_mag(si as int, self.pixel_delta_u.y as int, 1073807360, 1048576);
            lemma_fmul_mag(si as int, self.pixel_delta_u.z as int, 1073807360, 1048576);
            lemma_fmul_mag(sj as int, self.pixel_delta_v.x as int, 1073807360, 1048576);
            lemma_fmul_mag(sj as int, self.pixel_delta_v.y as int, 1073807360, 1048576);
            lemma_fmul_mag(sj as int, self.pixel_delta_v.z as int, 1073807360, 1048576);
        }
        let pixel_sample: Vector3 = self.pixel00_loc.plus(self.pixel_delta_u.scale(si)).plus(
            self.pixel_delta_v.scale(sj),
        );
        let ray_origin: Vector3 = if self.defocus_angle <= 0 {
            self.look_from
        } else {
            self.defocus_disk_sample(rng)
        };
        let ray_direction: Vector3 = pixel_sample.minus(ray_origin);
        let time: Fx = if self.time0 == self.time1 {
            self.time0
        } else {
            random_double(rng, self.time0, self.time1)
        };
        let r: Ray = Ray { orig: ray_origin, dir: ray_direction, tm: time };
        proof {
            assert(r.dir == vsub(
                cam_pixel_sample(*self, i as int, j as int, ox as int, oy as int),
                r.orig,
            ));
        }
        r
    }

    /// One row of rendered pixels, as RGB byte triples.
    pub fn render_row(&self, j: u32, world: &World, rng: &mut Rng) -> (row: Vec<u8>)
        requires
            camera_wf(*self),
            world_wf(*world),
            j <= 16384,
        ensures
            row@.len() == 3 * self.image_width,
    {
        let mut row: Vec<u8> = Vec::new();
        let width: u32 = self.image_width;
        let samples: u32 = self.samples_per_pixel;
        let mut i: u32 = 0;
        while i < width
            invariant
                camera_wf(*self),
                world_wf(*world),
                j <= 16384,
                i <= width,
                width == self.image_width,
                samples == self.samples_per_pixel,
                row@.len() == 3 * i,
            decreases width - i,
        {
            let mut sum: Vector3 = Vector3 { x: 0, y: 0, z: 0 };
            let mut s: u32 = 0;
            while s < samples
                invariant
                    camera_wf(*self),
                    world_wf(*world),
                    j <= 16384,
                    i < width,
                    width == self.image_width,
                    samples == self.samples_per_pixel,
                    s <= samples,
                    0 <= sum.x <= 65536 * s,
                    0 <= sum.y <= 65536 * s,
                    0 <= sum.z <= 65536 * s,
                decreases samples - s,
            {
                let ray: Ray = self.get_ray(rng, i, j);
                let c: Vector3 = ray_color(&ray, self.max_depth, world, rng);
                sum = Vector3 { x: sum.x + c.x, y: sum.y + c.y, z: sum.z + c.z };
                s = s + 1;
            }
            proof {
                crate::fixed::lemma_div_t_mag(sum.x as int, samples as int, 65536 * samples);
                crate::fixed::lemma_div_t_mag(sum.y as int, samples as int, 65536 * samples);
                crate::fixed::lemma_div_t_mag(sum.z as int, samples as int, 65536 * samples);
                vstd::arithmetic::div_mod::lemma_div_multiples_vanish(65536, samples as int);
            }
            let avg: Vector3 = Vector3 {
                x: fx_divc(sum.x, samples as i128),
                y: fx_divc(sum.y, samples as i128),
                z: fx_divc(sum.z, samples as i128),
            };
            let px: (u8, u8, u8) = color_to_bytes(&avg);
            row.push(px.0);
            row.push(px.1);
            row.push(px.2);
            i = i + 1;
        }
        row
    }

    /// The full rendered image from a fresh generator with the given
    /// seed, so one call renders reproducibly.
    pub fn render_seeded(&self, world: &World, seed: u64) -> (buf: Vec<u8>)
        requires
            camera_wf(*self),
            world_wf(*world),
        ensures
            buf@.len() == 3 * self.image_width * self.image_height,
    {
        let mut rng: Rng = Rng::new(seed);
        self.render(world, &mut rng)
    }

    /// The full rendered image: `image_height` rows of `image_width` RGB
    /// byte triples, top row first.
    pub fn render(&self, world: &World, rng: &mut Rng) -> (buf: Vec<u8>)
        requires
            camera_wf(*self),
            world_wf(*world),
        ensures
            buf@.len() == 3 * self.image_width * self.image_height,
    {
        let mut buf: Vec<u8> = Vec::new();
        let height: u32 = self.image_height;
        let mut j: u32 = 0;
        while j < height
            invariant
                camera_wf(*self),
                world_wf(*world),
                j <= height,
                height == self.image_height,
                buf@.len() == 3 * self.image_width * j,
            decreases height - j,
        {
            let mut row: Vec<u8> = self.render_row(j, world, rng);
            buf.append(&mut row);
            proof {
                assert(3 * self.image_width * (j + 1) == 3 * self.image_width * j + 3
                    * self.image_width) by (nonlinear_arith);
            }
            j = j + 1;
        }
        buf
    }
}

/// A bound on the coordinates of two vectors bounds their cross product.
proof fn lemma_cross_mag(a: Vector3, b: Vector3, ma: int, mb: int)
    requires
        vec_mag_le(a, ma),
        vec_mag_le(b, mb),
        0 <= ma <= 4611686018427387904,
        0 <= mb <= 4611686018427387904,
    ensures
        vec_mag_le(scross(a, b), 2 * ((ma * mb) / 65536)),
{
    lemma_fmul_mag(a.x as int, b.x as int, ma, mb);
    lemma_fmul_mag(a.x as int, b.y as int, ma, mb);
    lemma_fmul_mag(a.x as int, b.z as int, ma, mb);
    lemma_fmul_mag(a.y as int, b.x as int, ma, mb);
    lemma_fmul_mag(a.y as int, b.y as int, ma, mb);
    lemma_fmul_mag(a.y as int, b.z as int, ma, mb);
    lemma_fmul_mag(a.z as int, b.x as int, ma, mb);
    lemma_fmul_mag(a.z as int, b.y as int, ma, mb);
    lemma_fmul_mag(a.z as int, b.z as int, ma, mb);
}

} // verus!
