//! Rendering behaviour: the bounce budget, defocus-free ray origins, the
//! gamma encoding, camera rejection, and a small end-to-end render.

use ray_tracer::camera::{background_color, ray_color, Camera, World};
use ray_tracer::color::{color_to_bytes, gamma_channel};
use ray_tracer::hittable::{Hittable, HittableList};
use ray_tracer::material::{Lambertian, Material};
use ray_tracer::rng::Rng;
use ray_tracer::sphere::Sphere;
use ray_tracer::vec3::Vector3;

fn v(x: i128, y: i128, z: i128) -> Vector3 {
    Vector3 { x, y, z }
}

fn single_sphere_world() -> World {
    let mut objects = HittableList::new();
    objects.push(Hittable::Sphere(Sphere::new(v(0, 0, -65536), 32768, Some(0))));
    let materials = vec![Material::Lambertian(Lambertian::new(v(32768, 32768, 32768)))];
    World { objects, materials }
}

fn center_camera(samples: u32, depth: u32) -> Camera {
    Camera::new(
        116508,
        400,
        samples,
        depth,
        5898240,
        v(0, 0, 0),
        v(0, 0, -65536),
        v(0, 65536, 0),
        0,
        65536,
        0,
        0,
    )
    .expect("camera configuration must be accepted")
}

#[test]
fn ray_color_at_depth_zero_is_black() {
    let world = single_sphere_world();
    let mut rng = Rng::new(7);
    let cam = center_camera(1, 1);
    for (i, j) in [(200u32, 112u32), (0, 0), (399, 224), (10, 200)] {
        let ray = cam.get_ray(&mut rng, i, j);
        let c = ray_color(&ray, 0, &world, &mut rng);
        assert_eq!(c, v(0, 0, 0));
    }
}

#[test]
fn zero_aperture_rays_start_at_the_eye() {
    let cam = center_camera(4, 8);
    let mut rng = Rng::new(11);
    for (i, j) in [(0u32, 0u32), (200, 112), (399, 224), (3, 17)] {
        let ray = cam.get_ray(&mut rng, i, j);
        assert_eq!(ray.orig(), v(0, 0, 0));
        assert_eq!(ray.time(), 0);
    }
}

#[test]
fn center_pixel_hits_sphere_and_sky_pixel_matches_background() {
    let world = single_sphere_world();
    let cam = center_camera(1, 1);
    assert_eq!(cam.image_height, 225);

    let mut rng = Rng::new(5);
    let center_ray = cam.get_ray(&mut rng, 200, 112);
    let mut rng2 = Rng::new(99);
    let center_color = ray_color(&center_ray, 1, &world, &mut rng2);
    assert_eq!(center_color, v(0, 0, 0));

    let sky_ray = cam.get_ray(&mut rng, 200, 0);
    let sky_color = ray_color(&sky_ray, 1, &world, &mut rng2);
    let expected = background_color(&sky_ray);
    assert_eq!(sky_color, expected);
    assert!(sky_color != v(0, 0, 0));
    assert!(sky_color.z() > 0);
}

#[test]
fn end_to_end_render_has_black_center_and_bright_sky() {
    let world = single_sphere_world();
    let cam = center_camera(1, 1);
    let mut rng = Rng::new(3);
    let center_row = cam.render_row(112, &world, &mut rng);
    assert_eq!(center_row.len(), 3 * 400);
    assert_eq!(&center_row[600..603], &[0, 0, 0]);
    let top_row = cam.render_row(0, &world, &mut rng);
    assert!(top_row[602] > 128);
}

#[test]
fn render_produces_the_full_grid() {
    let world = single_sphere_world();
    let cam = Camera::new(
        116508,
        40,
        1,
        1,
        5898240,
        v(0, 0, 0),
        v(0, 0, -65536),
        v(0, 65536, 0),
        0,
        65536,
        0,
        0,
    )
    .expect("camera configuration must be accepted");
    let mut rng = Rng::new(13);
    let buf = cam.render(&world, &mut rng);
    assert_eq!(buf.len() as u64, 3 * 40 * cam.image_height as u64);
}

#[test]
fn camera_rejects_coincident_eye_and_target() {
    let r = Camera::new(
        116508,
        400,
        1,
        1,
        5898240,
        v(65536, 0, 0),
        v(65536, 0, 0),
        v(0, 65536, 0),
        0,
        65536,
        0,
        0,
    );
    assert!(r.is_none());
}

#[test]
fn gamma_bytes_round_the_scaled_square_root() {
    assert_eq!(gamma_channel(0), 0);
    assert_eq!(gamma_channel(16384), 128);
    assert_eq!(gamma_channel(32768), 181);
    assert_eq!(gamma_channel(49152), 222);
    assert_eq!(gamma_channel(65536), 255);
    assert_eq!(gamma_channel(-5), 0);
    assert_eq!(gamma_channel(200000), 255);
    assert_eq!(color_to_bytes(&v(16384, 0, 65536)), (128, 0, 255));
}

#[test]
fn seeded_generators_repeat_their_draws() {
    let mut a = Rng::new(42);
    let mut b = Rng::new(42);
    for _ in 0..16 {
        let x = ray_tracer::rng::random_double(&mut a, -65536, 65536);
        let y = ray_tracer::rng::random_double(&mut b, -65536, 65536);
        assert_eq!(x, y);
        assert!(-65536 <= x && x < 65536);
    }
    let p = Vector3::random_in_unit_sphere(&mut a);
    assert!(p.length_squared() < 65536);
    let d = Vector3::random_in_unit_disk(&mut a);
    assert_eq!(d.z(), 0);
    assert!(d.length_squared() < 65536);
}
