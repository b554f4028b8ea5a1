//! Three spheres on a ground, framed with a wide aperture.

use vstd::prelude::*;
use crate::camera::{camera_wf, world_wf, Camera, World};
use crate::hittable::{Hittable, HittableList};
use crate::material::{Dielectric, Lambertian, Material, Metal};
use crate::rng::Rng;
use crate::sphere::Sphere;
use crate::vec3::Vector3;

verus! {

/// A diffuse ground and center sphere, a hollow glass sphere and a fuzzy
/// metal sphere, with a ten degree defocus cone focused at 3.4 units.
pub fn depth_of_field_scene(rng: &mut Rng) -> (res: Option<(World, Camera)>)
    ensures
        res matches Some(pair) ==> world_wf(pair.0) && camera_wf(pair.1)
            && pair.0.objects.list@.len() == 5 && pair.0.materials@.len() == 5,
{
    let mut objects: HittableList = HittableList::new();
    let mut materials: Vec<Material> = Vec::new();
    materials.push(
        Material::Lambertian(Lambertian::new(Vector3 { x: 52429, y: 52429, z: 0 })),
    );
    materials.push(
        Material::Lambertian(Lambertian::new(Vector3 { x: 6554, y: 13107, z: 32768 })),
    );
    materials.push(Material::Dielectric(Dielectric::new(98304)));
    materials.push(Material::Dielectric(Dielectric::new(43690)));
    materials.push(
        Material::Metal(Metal::new(Vector3 { x: 52429, y: 39322, z: 13107 }, 65536)),
    );
    objects.push(
        Hittable::Sphere(
            Sphere::new(Vector3 { x: 0, y: -6586368, z: -65536 }, 6553600, Some(0)),
        ),
    );
    objects.push(
        Hittable::Sphere(
            Sphere::new(Vector3 { x: 0, y: 0, z: -78643 }, 32768, Some(1)),
        ),
    );
    objects.push(
        Hittable::Sphere(
            Sphere::new(Vector3 { x: -65536, y: 0, z: -65536 }, 32768, Some(2)),
        ),
    );
    objects.push(
        Hittable::Sphere(
            Sphere::new(Vector3 { x: -65536, y: 0, z: -65536 }, 26214, Some(3)),
        ),
    );
    objects.push(
        Hittable::Sphere(
            Sphere::new(Vector3 { x: 65536, y: 0, z: -65536 }, 32768, Some(4)),
        ),
    );
    let camera: Option<Camera> = Camera::new(
        116508,
        400,
        100,
        50,
        1310720,
        Vector3 { x: -131072, y: 131072, z: 65536 },
        Vector3 { x: 0, y: 0, z: -65536 },
        Vector3 { x: 0, y: 65536, z: 0 },
        655360,
        222822,
        0,
        0,
    );
    match camera {
        Some(c) => Some((World { objects, materials }, c)),
        None => None,
    }
}

} // verus!
