//! A globe wrapped in an externally supplied image.

use vstd::prelude::*;
use crate::camera::{camera_wf, world_wf, Camera, World};
use crate::hittable::{Hittable, HittableList};
use crate::material::{Lambertian, Material};
use crate::rng::Rng;
use crate::sphere::Sphere;
use crate::texture::{image_wf, ImageData, ImageTexture, Texture};
use crate::vec3::Vector3;

verus! {

/// A sphere of radius two at the origin, textured with the given pixel
/// grid, seen from twelve units down the z axis.
pub fn earth_scene(image: ImageData, rng: &mut Rng) -> (res: Option<(World, Camera)>)
    requires
        image_wf(image),
    ensures
        res matches Some(pair) ==> world_wf(pair.0) && camera_wf(pair.1)
            && pair.0.objects.list@.len() == 1 && pair.0.materials@.len() == 1,
{
    let mut objects: HittableList = HittableList::new();
    let mut materials: Vec<Material> = Vec::new();
    let earth_texture: ImageTexture = ImageTexture::new(image);
    let earth_surface: Lambertian = Lambertian::new_from_texture(Texture::Image(earth_texture));
    materials.push(Material::Lambertian(earth_surface));
    objects.push(
        Hittable::Sphere(Sphere::new(Vector3 { x: 0, y: 0, z: 0 }, 131072, Some(0))),
    );
    let camera: Option<Camera> = Camera::new(
        116508,
        400,
        100,
        50,
        1310720,
        Vector3 { x: 0, y: 0, z: 786432 },
        Vector3 { x: 0, y: 0, z: 0 },
        Vector3 { x: 0, y: 65536, z: 0 },
        0,
        655360,
        0,
        0,
    );
    match camera {
        Some(c) => Some((World { objects, materials }, c)),
        None => None,
    }
}

} // verus!
