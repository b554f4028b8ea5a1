//! Two large checkered spheres facing each other.

use vstd::prelude::*;
use crate::camera::{camera_wf, world_wf, Camera, World};
use crate::hittable::{Hittable, HittableList};
use crate::material::{Lambertian, Material};
use crate::rng::Rng;
use crate::sphere::Sphere;
use crate::texture::{CheckerTexture, Texture};
use crate::vec3::Vector3;

verus! {

/// Two spheres of radius ten above and below the origin, both backed by
/// one shared checkered material, seen from afar.
pub fn checkered_spheres_scene(rng: &mut Rng) -> (res: Option<(World, Camera)>)
    ensures
        res matches Some(pair) ==> world_wf(pair.0) && camera_wf(pair.1)
            && pair.0.objects.list@.len() == 2 && pair.0.materials@.len() == 1,
{
    let mut objects: HittableList = HittableList::new();
    let mut materials: Vec<Material> = Vec::new();
    let checker: CheckerTexture = CheckerTexture::from_colors(
        Vector3 { x: 13107, y: 19661, z: 6554 },
        Vector3 { x: 58982, y: 58982, z: 58982 },
    );
    proof {
        assert(crate::texture::texture_wf(*checker.even));
        assert(crate::texture::texture_wf(*checker.odd));
    }
    let checker_material: Lambertian = Lambertian::new_from_texture(Texture::Checker(checker));
    materials.push(Material::Lambertian(checker_material));
    objects.push(
        Hittable::Sphere(
            Sphere::new(Vector3 { x: 0, y: -655360, z: 0 }, 655360, Some(0)),
        ),
    );
    objects.push(
        Hittable::Sphere(
            Sphere::new(Vector3 { x: 0, y: 655360, z: 0 }, 655360, Some(0)),
        ),
    );
    let camera: Option<Camera> = Camera::new(
        116508,
        400,
        500,
        50,
        1310720,
        Vector3 { x: 851968, y: 131072, z: 196608 },
        Vector3 { x: 0, y: 0, z: 0 },
        Vector3 { x: 0, y: 65536, z: 0 },
        0,
        655360,
        0,
        0,
    );
    match camera {
        Some(c) => Some((World { objects, materials }, c)),
        None => None,
    }
}

} // verus!
