//! The cover field again, with the small diffuse spheres bouncing over
//! an open shutter.

use vstd::prelude::*;
use crate::camera::{camera_wf, world_wf, Camera, World};
use crate::fixed::lemma_fmul_unit_range;
use crate::hittable::{list_wf, Hittable, HittableList};
use crate::material::{Dielectric, Lambertian, Material, Metal};
use crate::moving_sphere::MovingSphere;
use crate::rng::{random_double, Rng};
use crate::scenes::cover_scene::materials_wf;
use crate::sphere::Sphere;
use crate::vec3::Vector3;

verus! {

/// Like the cover scene, but each small diffuse sphere rises by a random
/// amount between shutter open and close, and the camera spans that
/// interval.
pub fn bouncing_spheres_scene(rng: &mut Rng) -> (res: Option<(World, Camera)>)
    ensures
        res matches Some(pair) ==> world_wf(pair.0) && camera_wf(pair.1),
{
    let mut objects: HittableList = HittableList::new();
    let mut materials: Vec<Material> = Vec::new();
    materials.push(
        Material::Lambertian(Lambertian::new(Vector3 { x: 32768, y: 32768, z: 32768 })),
    );
    objects.push(
        Hittable::Sphere(
            Sphere::new(Vector3 { x: 0, y: -65536000, z: 0 }, 65536000, Some(0)),
        ),
    );
    let mut a: i32 = -11;
    while a < 11
        invariant
            -11 <= a <= 11,
            list_wf(objects),
            materials_wf(materials@),
        decreases 11 - a,
    {
        let mut b: i32 = -11;
        while b < 11
            invariant
                -11 <= a < 11,
                -11 <= b <= 11,
                list_wf(objects),
                materials_wf(materials@),
            decreases 11 - b,
        {
            let choose_mat: i128 = random_double(rng, 0, 65536);
            let cx: i128 = (a as i128) * 65536 + random_double(rng, 0, 58982);
            let cz: i128 = (b as i128) * 65536 + random_double(rng, 0, 58982);
            let center: Vector3 = Vector3 { x: cx, y: 13107, z: cz };
            let away: Vector3 = center.minus(Vector3 { x: 262144, y: 13107, z: 0 });
            if away.length() > 58982 {
                if choose_mat < 52429 {
                    let a1: Vector3 = Vector3::random(rng, 0, 65536);
                    let a2: Vector3 = Vector3::random(rng, 0, 65536);
                    proof {
                        lemma_fmul_unit_range(a1.x as int, a2.x as int);
                        lemma_fmul_unit_range(a1.y as int, a2.y as int);
                        lemma_fmul_unit_range(a1.z as int, a2.z as int);
                    }
                    let albedo: Vector3 = a1.times(a2);
                    materials.push(Material::Lambertian(Lambertian::new(albedo)));
                    let rise: i128 = random_double(rng, 0, 32768);
                    let center2: Vector3 = Vector3 { x: cx, y: 13107 + rise, z: cz };
                    objects.push(
                        Hittable::MovingSphere(
                            MovingSphere::new(
                                center,
                                center2,
                                0,
                                65536,
                                13107,
                                Some(materials.len() - 1),
                            ),
                        ),
                    );
                } else if choose_mat < 62259 {
                    let albedo: Vector3 = Vector3::random(rng, 32768, 65536);
                    let fuzz: i128 = random_double(rng, 0, 32768);
                    materials.push(Material::Metal(Metal::new(albedo, fuzz)));
                    objects.push(
                        Hittable::Sphere(
                            Sphere::new(center, 13107, Some(materials.len() - 1)),
                        ),
                    );
                } else {
                    materials.push(Material::Dielectric(Dielectric::new(98304)));
                    objects.push(
                        Hittable::Sphere(
                            Sphere::new(center, 13107, Some(materials.len() - 1)),
                        ),
                    );
                }
            }
            b = b + 1;
        }
        a = a + 1;
    }
    materials.push(Material::Dielectric(Dielectric::new(98304)));
    objects.push(
        Hittable::Sphere(
            Sphere::new(
                Vector3 { x: 0, y: 65536, z: 0 },
                65536,
                Some(materials.len() - 1),
            ),
        ),
    );
    materials.push(
        Material::Lambertian(Lambertian::new(Vector3 { x: 26214, y: 13107, z: 6554 })),
    );
    objects.push(
        Hittable::Sphere(
            Sphere::new(
                Vector3 { x: -262144, y: 65536, z: 0 },
                65536,
                Some(materials.len() - 1),
            ),
        ),
    );
    materials.push(
        Material::Metal(Metal::new(Vector3 { x: 45875, y: 39322, z: 32768 }, 0)),
    );
    objects.push(
        Hittable::Sphere(
            Sphere::new(
                Vector3 { x: 262144, y: 65536, z: 0 },
                65536,
                Some(materials.len() - 1),
            ),
        ),
    );
    let camera: Option<Camera> = Camera::new(
        116508,
        400,
        100,
        50,
        1310720,
        Vector3 { x: 851968, y: 131072, z: 196608 },
        Vector3 { x: 0, y: 0, z: 0 },
        Vector3 { x: 0, y: 65536, z: 0 },
        39322,
        655360,
        0,
        65536,
    );
    match camera {
        Some(c) => Some((World { objects, materials }, c)),
        None => None,
    }
}

} // verus!
