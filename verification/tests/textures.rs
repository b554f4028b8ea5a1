//! Texture behaviour: solid colors, the spatial checker parity, image
//! lookup with the vertical flip, noise determinism, and scene assembly.

use ray_tracer::rng::Rng;
use ray_tracer::trig::{acos_fx, atan2_fx, sin_fx};
use ray_tracer::scenes::{get_scene, Scene};
use ray_tracer::texture::{
    checker_odd_at, CheckerTexture, ImageData, ImageTexture, NoiseTexture, SolidColor, Texture,
};
use ray_tracer::vec3::Vector3;

fn v(x: i128, y: i128, z: i128) -> Vector3 {
    Vector3 { x, y, z }
}

#[test]
fn solid_color_ignores_coordinates() {
    let t = SolidColor::from_rgb(13107, 19661, 6554);
    assert_eq!(t.value(0, 0, &v(0, 0, 0)), v(13107, 19661, 6554));
    assert_eq!(t.value(65536, 32768, &v(999, -999, 5)), v(13107, 19661, 6554));
}

#[test]
fn checker_alternates_across_a_period_boundary() {
    let even = v(65536, 0, 0);
    let odd = v(0, 65536, 0);
    let t = CheckerTexture::from_colors(even, odd);
    let p1 = v(0, 0, 0);
    let p2 = v(20589, 0, 0);
    assert!(!checker_odd_at(&p1));
    assert!(checker_odd_at(&p2));
    assert_eq!(t.value(0, 0, &p1), even);
    assert_eq!(t.value(0, 0, &p2), odd);
}

#[test]
fn checker_parity_is_spatial_not_uv_based() {
    let even = v(65536, 65536, 65536);
    let odd = v(0, 0, 0);
    let t = CheckerTexture::from_colors(even, odd);
    let p = v(0, 0, 0);
    assert_eq!(t.value(0, 0, &p), t.value(65536, 65536, &p));
}

#[test]
fn image_data_validates_its_dimensions() {
    assert!(ImageData::new(2, 2, vec![0; 12]).is_some());
    assert!(ImageData::new(2, 2, vec![0; 11]).is_none());
    assert!(ImageData::new(0, 2, vec![]).is_none());
    assert!(ImageData::new(99999, 1, vec![0; 3 * 99999]).is_none());
}

#[test]
fn image_texture_looks_up_and_squares_the_pixel() {
    let img = ImageData::new(1, 1, vec![255, 0, 127]).expect("valid grid");
    let t = ImageTexture::new(img);
    let c = t.value(0, 0, &v(0, 0, 0));
    assert_eq!(c.x(), 65536);
    assert_eq!(c.y(), 0);
    let half = (127 * 65536) / 255;
    assert_eq!(c.z(), (half * half) / 65536);
}

#[test]
fn image_texture_flips_vertically() {
    let img = ImageData::new(
        1,
        2,
        vec![255, 255, 255, 0, 0, 0],
    )
    .expect("valid grid");
    let t = ImageTexture::new(img);
    let bottom = t.value(0, 0, &v(0, 0, 0));
    let top = t.value(0, 65536, &v(0, 0, 0));
    assert_eq!(bottom, v(0, 0, 0));
    assert_eq!(top, v(65536, 65536, 65536));
}

#[test]
fn noise_texture_is_deterministic_and_grey() {
    let mut rng = Rng::new(21);
    let t = NoiseTexture::new(262144, &mut rng);
    let p = v(98304, 32768, -131072);
    let a = t.value(0, 0, &p);
    let b = t.value(0, 0, &p);
    assert_eq!(a, b);
    assert_eq!(a.x(), a.y());
    assert_eq!(a.y(), a.z());
    assert!(0 <= a.x() && a.x() <= 65536);
}

#[test]
fn texture_enum_dispatches_to_its_variant() {
    let t = Texture::Solid(SolidColor::from_rgb(100, 200, 300));
    assert_eq!(t.value(0, 0, &v(0, 0, 0)), v(100, 200, 300));
}

#[test]
fn all_scenes_assemble() {
    let mut rng = Rng::new(1);
    assert!(get_scene(Scene::CheckeredSpheresScene, &mut rng, None).is_some());
    assert!(get_scene(Scene::PerlinScene, &mut rng, None).is_some());
    assert!(get_scene(Scene::DepthOfFieldScene, &mut rng, None).is_some());
    assert!(get_scene(Scene::CoverScene, &mut rng, None).is_some());
    assert!(get_scene(Scene::BouncingSpheresScene, &mut rng, None).is_some());
    let img = ImageData::new(2, 2, vec![128; 12]);
    assert!(get_scene(Scene::EarthScene, &mut rng, img).is_some());
    assert!(get_scene(Scene::EarthScene, &mut rng, None).is_none());
}

#[test]
fn checkered_scene_shares_one_material() {
    let mut rng = Rng::new(2);
    let (world, camera) = get_scene(Scene::CheckeredSpheresScene, &mut rng, None)
        .expect("scene must build");
    assert_eq!(world.materials.len(), 1);
    assert_eq!(world.objects.list.len(), 2);
    assert_eq!(camera.image_width, 400);
}

#[test]
fn perlin_noise_is_zero_on_the_lattice_origin() {
    let mut rng = Rng::new(8);
    let pl = ray_tracer::perlin::Perlin::new(&mut rng);
    assert_eq!(pl.noise(&v(0, 0, 0)), 0);
    assert_eq!(pl.turb(&v(12345, -6789, 424242), 0), 0);
    let p = v(98304, 32768, -131072);
    assert_eq!(pl.noise(&p), pl.noise(&p));
    assert!(pl.turb(&p, 7) >= 0);
}

#[test]
fn trig_anchors_hold() {
    assert_eq!(sin_fx(0), 0);
    assert_eq!(sin_fx(205887), 0);
    let near_one = sin_fx(102943);
    assert!(65000 <= near_one && near_one <= 65536);
    assert_eq!(acos_fx(65536), 0);
    assert_eq!(acos_fx(-65536), 205887);
    let quarter = atan2_fx(65536, 65536);
    assert!(51000 <= quarter && quarter <= 52000);
}
