//! A ground sphere and a small sphere, both in Perlin marble.

use vstd::prelude::*;
use crate::camera::{camera_wf, world_wf, Camera, World};
use crate::hittable::{Hittable, HittableList};
use crate::material::{Lambertian, Material};
use crate::rng::Rng;
use crate::sphere::Sphere;
use crate::texture::{NoiseTexture, Texture};
use crate::vec3::Vector3;

verus! {

/// The marble scene: a huge ground sphere and one above it, sharing a
/// noise-textured material at scale four.
pub fn perlin_scene(rng: &mut Rng) -> (res: Option<(World, Camera)>)
    ensures
        res matches Some(pair) ==> world_wf(pair.0) && camera_wf(pair.1)
            && pair.0.objects.list@.len() == 2 && pair.0.materials@.len() == 1,
{
    let mut objects: HittableList = HittableList::new();
    let mut materials: Vec<Material> = Vec::new();
    let perlin_texture: NoiseTexture = NoiseTexture::new(262144, rng);
    let perlin_material: Lambertian = Lambertian::new_from_texture(Texture::Noise(perlin_texture));
    materials.push(Material::Lambertian(perlin_material));
    objects.push(
        Hittable::Sphere(
            Sphere::new(Vector3 { x: 0, y: -65536000, z: 0 }, 65536000, Some(0)),
        ),
    );
    objects.push(
        Hittable::Sphere(
            Sphere::new(Vector3 { x: 0, y: 131072, z: 0 }, 131072, Some(0)),
        ),
    );
    let camera: Option<Camera> = Camera::new(
        116508,
        400,
        100,
        50,
        1310720,
        Vector3 { x: 851968, y: 131072, z: 196608 },
        Vector3 { x: 0, y: 0, z: 0 },
        Vector3 { x: 0, y: 65536, z: 0 },
        0,
        655360,
        0,
        0,
    );
    match camera {
        Some(c) => Some((World { objects, materials }, c)),
        None => None,
    }
}

} // verus!
