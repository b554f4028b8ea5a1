//! Geometry behaviour: vector arithmetic, sphere intersection by
//! discriminant, face orientation, moving-sphere interpolation, and the
//! nearest-hit scan.

use ray_tracer::fixed::{fx_div, fx_divc, fx_floordiv, fx_mul, fx_sqrt};
use ray_tracer::hittable::{Hittable, HittableList};
use ray_tracer::moving_sphere::MovingSphere;
use ray_tracer::ray::Ray;
use ray_tracer::sphere::Sphere;
use ray_tracer::vec3::Vector3;

fn v(x: i128, y: i128, z: i128) -> Vector3 {
    Vector3 { x, y, z }
}

#[test]
fn fixed_point_arithmetic_is_exact() {
    assert_eq!(fx_mul(131072, 98304), 196608);
    assert_eq!(fx_div(65536, 131072), 32768);
    assert_eq!(fx_divc(-3, 2), -1);
    assert_eq!(fx_floordiv(-3, 2), -2);
    assert_eq!(fx_sqrt(262144), 131072);
    assert_eq!(fx_sqrt(0), 0);
}

#[test]
fn vector_operations_match_closed_forms() {
    let a = v(65536, 131072, 196608);
    let b = v(262144, 327680, 393216);
    assert_eq!(a.dot(b), 2097152);
    assert_eq!(a.plus(b), v(327680, 458752, 589824));
    assert_eq!(b.minus(a), v(196608, 196608, 196608));
    assert_eq!(a.scale(131072), v(131072, 262144, 393216));
    let u = v(196608, 262144, 0).unit_vector();
    assert_eq!(u, v(39321, 52428, 0));
    assert_eq!(v(196608, 262144, 0).length(), 327680);
    let r = v(65536, -65536, 0).reflect(v(0, 65536, 0));
    assert_eq!(r, v(65536, 65536, 0));
    assert!(v(0, 0, 0).near_zero());
    assert!(!v(1, 0, 0).near_zero());
}

#[test]
fn sphere_hit_straight_on() {
    let s = Sphere::new(v(0, 0, -65536), 32768, Some(0));
    let r = Ray::new(v(0, 0, 0), v(0, 0, -65536), 0);
    let rec = s.hit(&r, 66, 68719476736).expect("must hit");
    assert_eq!(rec.t, 32768);
    assert!(rec.front_face);
    assert_eq!(rec.normal, v(0, 0, 65536));
    assert_eq!(rec.p, v(0, 0, -32768));
    assert_eq!(rec.mat, Some(0));
}

#[test]
fn sphere_missed_behind_ray_gives_no_hit() {
    let s = Sphere::new(v(0, 0, -65536), 32768, Some(0));
    let r = Ray::new(v(0, 0, 0), v(0, 0, 65536), 0);
    assert!(s.hit(&r, 66, 68719476736).is_none());
}

#[test]
fn sphere_negative_discriminant_gives_no_hit() {
    let s = Sphere::new(v(0, 655360, -65536), 32768, Some(0));
    let r = Ray::new(v(0, 0, 0), v(0, 0, -65536), 0);
    assert!(s.hit(&r, 66, 68719476736).is_none());
}

#[test]
fn sphere_tangent_ray_hits_once() {
    let s = Sphere::new(v(0, 32768, -65536), 32768, Some(0));
    let r = Ray::new(v(0, 0, 0), v(0, 0, -65536), 0);
    let rec = s.hit(&r, 66, 68719476736).expect("tangent must hit");
    assert_eq!(rec.t, 65536);
    assert_eq!(rec.p, v(0, 0, -65536));
}

#[test]
fn sphere_hit_from_inside_flips_normal() {
    let s = Sphere::new(v(0, 0, 0), 65536, Some(0));
    let r = Ray::new(v(0, 0, 0), v(0, 0, -65536), 0);
    let rec = s.hit(&r, 66, 68719476736).expect("must hit from inside");
    assert!(!rec.front_face);
    assert_eq!(rec.t, 65536);
    assert_eq!(rec.normal, v(0, 0, 65536));
    assert!(rec.normal.dot(r.dir()) <= 0);
}

#[test]
fn sphere_negative_radius_clamps_to_zero() {
    let s = Sphere::new(v(0, 0, -65536), -32768, Some(0));
    assert_eq!(s.radius(), 0);
    let r = Ray::new(v(0, 0, 0), v(0, 0, -65536), 0);
    assert!(s.hit(&r, 66, 68719476736).is_none());
}

#[test]
fn sphere_roots_outside_range_give_no_hit() {
    let s = Sphere::new(v(0, 0, -65536), 32768, Some(0));
    let r = Ray::new(v(0, 0, 0), v(0, 0, -65536), 0);
    assert!(s.hit(&r, 66, 16384).is_none());
    assert!(s.hit(&r, 131072, 68719476736).is_none());
}

#[test]
fn moving_sphere_center_interpolates_exactly() {
    let m = MovingSphere::new(
        v(0, 0, 0),
        v(65536, 131072, 196608),
        0,
        65536,
        13107,
        Some(0),
    );
    assert_eq!(m.center(0), v(0, 0, 0));
    assert_eq!(m.center(65536), v(65536, 131072, 196608));
    assert_eq!(m.center(32768), v(32768, 65536, 98304));
}

#[test]
fn moving_sphere_hit_uses_ray_time() {
    let m = MovingSphere::new(
        v(0, 0, -65536),
        v(655360, 0, -65536),
        0,
        65536,
        32768,
        Some(0),
    );
    let at_open = Ray::new(v(0, 0, 0), v(0, 0, -65536), 0);
    assert!(m.hit(&at_open, 66, 68719476736).is_some());
    let at_close = Ray::new(v(0, 0, 0), v(0, 0, -65536), 65536);
    assert!(m.hit(&at_close, 66, 68719476736).is_none());
}

#[test]
fn list_returns_nearest_hit() {
    let mut list = HittableList::new();
    list.push(Hittable::Sphere(Sphere::new(v(0, 0, -262144), 32768, Some(1))));
    list.push(Hittable::Sphere(Sphere::new(v(0, 0, -131072), 32768, Some(2))));
    let r = Ray::new(v(0, 0, 0), v(0, 0, -65536), 0);
    let rec = list.hit(&r, 66, 68719476736).expect("must hit");
    assert_eq!(rec.mat, Some(2));
    assert_eq!(rec.t, 98304);
}

#[test]
fn empty_list_gives_no_hit() {
    let list = HittableList::new();
    let r = Ray::new(v(0, 0, 0), v(0, 0, -65536), 0);
    assert!(list.hit(&r, 66, 68719476736).is_none());
}

#[test]
fn ray_at_evaluates_parametrically() {
    let r = Ray::new(v(131072, 0, 0), v(65536, -65536, 0), 42);
    assert_eq!(r.at(131072), v(262144, -131072, 0));
    assert_eq!(r.time(), 42);
    assert_eq!(r.orig(), v(131072, 0, 0));
    assert_eq!(r.dir(), v(65536, -65536, 0));
}

#[test]
fn sphere_uv_matches_the_polar_formulas() {
    let s = Sphere::new(v(0, 0, 0), 65536, None);
    assert_eq!(s.get_sphere_uv(v(-65536, 0, 0)), (65536, 32767));
    assert_eq!(s.get_sphere_uv(v(0, 65536, 0)), (32768, 65536));
}
