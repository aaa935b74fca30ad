//! A scene: geometry, designated lights, camera and background.

use vstd::prelude::*;
use crate::object::{Object, obj_wf};
use crate::camera::{Camera, camera_ok};
use crate::colour::{Colour, radiance_ok};

verus! {

/// Immutable for the lifetime of a render; shared read-only across
/// worker tasks.
pub struct Scene {
    /// All geometry.
    pub objects: Object,
    /// The sub-aggregate importance sampling aims at.
    pub lights: Object,
    pub camera: Camera,
    pub background_colour: Colour,
}

/// Every part of the scene is well formed.
pub open spec fn scene_ok(s: Scene) -> bool {
    &&& obj_wf(s.objects)
    &&& obj_wf(s.lights)
    &&& camera_ok(s.camera)
    &&& radiance_ok(s.background_colour)
}

impl Scene {
    pub fn new(objects: Object, lights: Object, camera: Camera, background_colour: Colour) -> (s:
        Scene)
        requires
            obj_wf(objects),
            obj_wf(lights),
            camera_ok(camera),
            radiance_ok(background_colour),
        ensures
            s.objects == objects,
            s.lights == lights,
            s.camera == camera,
            s.background_colour == background_colour,
            scene_ok(s),
    {
        Scene { objects, lights, camera, background_colour }
    }
}

} // verus!
