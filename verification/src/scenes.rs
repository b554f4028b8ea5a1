//! Ready-made scenes: each pairs a world with the camera that frames it.

use vstd::prelude::*;
use crate::camera::{camera_wf, world_wf, Camera, World};
use crate::rng::Rng;
use crate::texture::{image_wf, ImageData};

pub mod bouncing_spheres_scene;
pub mod checkered_spheres_scene;
pub mod cover_scene;
pub mod depth_of_field_scene;
pub mod earth_scene;
pub mod perlin_scene;

verus! {

/// The scenes the library ships with.
#[derive(Clone, Copy, Debug, PartialEq, Eq, Structural)]
pub enum Scene {
    CoverScene,
    DepthOfFieldScene,
    BouncingSpheresScene,
    CheckeredSpheresScene,
    EarthScene,
    PerlinScene,
}

/// Builds the chosen scene. The earth scene needs an externally supplied
/// pixel grid and is not built without one; every other scene ignores it.
/// `None` otherwise only when a camera configuration is rejected, which
/// these fixed configurations never are in practice.
pub fn get_scene(scene: Scene, rng: &mut Rng, earth: Option<ImageData>) -> (res: Option<
    (World, Camera),
>)
    requires
        earth matches Some(img) ==> image_wf(img),
    ensures
        res matches Some(pair) ==> world_wf(pair.0) && camera_wf(pair.1),
{
    match scene {
        Scene::CoverScene => cover_scene::cover_scene(rng),
        Scene::DepthOfFieldScene => depth_of_field_scene::depth_of_field_scene(rng),
        Scene::BouncingSpheresScene => bouncing_spheres_scene::bouncing_spheres_scene(rng),
        Scene::CheckeredSpheresScene => checkered_spheres_scene::checkered_spheres_scene(rng),
        Scene::EarthScene => match earth {
            Some(img) => earth_scene::earth_scene(img, rng),
            None => None,
        },
        Scene::PerlinScene => perlin_scene::perlin_scene(rng),
    }
}

} // verus!
