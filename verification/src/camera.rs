//! A pinhole camera over normalized image-plane coordinates.

use vstd::prelude::*;
use crate::vec3::{Vec3, bounded};
use crate::point3::Point3;
use crate::ray::{Ray, ray_ok};
use crate::fixed::{mul_fx, mul_ok};
use crate::random::RandState;

verus! {

/// Greatest magnitude of a camera frame component.
pub const CAM_MAX: i64 = 0x400_0000;

/// The image plane spans `lower_left` to
/// `lower_left + horizontal + vertical`; rays leave `origin`.
#[derive(Clone, Copy, PartialEq, Eq, Structural, Debug)]
pub struct Camera {
    pub origin: Point3,
    pub lower_left: Point3,
    pub horizontal: Vec3,
    pub vertical: Vec3,
    pub time: i64,
}

/// The frame is small enough for ray construction to stay in range.
pub open spec fn camera_ok(c: Camera) -> bool {
    &&& bounded(c.origin, CAM_MAX as int)
    &&& bounded(c.lower_left, CAM_MAX as int)
    &&& bounded(c.horizontal, CAM_MAX as int)
    &&& bounded(c.vertical, CAM_MAX as int)
}

/// The direction of the ray through image-plane coordinates `(u, v)`.
pub open spec fn ray_dir_spec(c: Camera, u: int, v: int) -> Vec3 {
    Vec3 {
        x: (c.lower_left.x + mul_fx(u, c.horizontal.x as int) + mul_fx(v, c.vertical.x as int)
            - c.origin.x) as i64,
        y: (c.lower_left.y + mul_fx(u, c.horizontal.y as int) + mul_fx(v, c.vertical.y as int)
            - c.origin.y) as i64,
        z: (c.lower_left.z + mul_fx(u, c.horizontal.z as int) + mul_fx(v, c.vertical.z as int)
            - c.origin.z) as i64,
    }
}

impl Camera {
    pub fn new(origin: Point3, lower_left: Point3, horizontal: Vec3, vertical: Vec3, time: i64) -> (
        c: Camera)
        requires
            bounded(origin, CAM_MAX as int),
            bounded(lower_left, CAM_MAX as int),
            bounded(horizontal, CAM_MAX as int),
            bounded(vertical, CAM_MAX as int),
        ensures
            c == (Camera { origin, lower_left, horizontal, vertical, time }),
            camera_ok(c),
    {
        Camera { origin, lower_left, horizontal, vertical, time }
    }

    /// The ray through normalized image-plane coordinates `(u, v)`.
    /// The random stream is accepted for camera models that jitter the
    /// ray origin; this pinhole model draws nothing from it.
    pub fn get_ray(&self, rng: &mut RandState, u: i64, v: i64) -> (r: Ray)
        requires
            camera_ok(*self),
            0 <= u <= 4000,
            0 <= v <= 4000,
        ensures
            r.orig == self.origin,
            r.time == self.time,
            r.dir == ray_dir_spec(*self, u as int, v as int),
            ray_ok(r),
    {
        proof {
            crate::fixed::lemma_mul_bound(u as int, self.horizontal.x as int, 4000, CAM_MAX as int);
            crate::fixed::lemma_mul_bound(u as int, self.horizontal.y as int, 4000, CAM_MAX as int);
            crate::fixed::lemma_mul_bound(u as int, self.horizontal.z as int, 4000, CAM_MAX as int);
            crate::fixed::lemma_mul_bound(v as int, self.vertical.x as int, 4000, CAM_MAX as int);
            crate::fixed::lemma_mul_bound(v as int, self.vertical.y as int, 4000, CAM_MAX as int);
            crate::fixed::lemma_mul_bound(v as int, self.vertical.z as int, 4000, CAM_MAX as int);
        }
        let hx = crate::fixed::fx_mul(u, self.horizontal.x);
        let hy = crate::fixed::fx_mul(u, self.horizontal.y);
        let hz = crate::fixed::fx_mul(u, self.horizontal.z);
        let vx = crate::fixed::fx_mul(v, self.vertical.x);
        let vy = crate::fixed::fx_mul(v, self.vertical.y);
        let vz = crate::fixed::fx_mul(v, self.vertical.z);
        let dir = Vec3 {
            x: self.lower_left.x + hx + vx - self.origin.x,
            y: self.lower_left.y + hy + vy - self.origin.y,
            z: self.lower_left.z + hz + vz - self.origin.z,
        };
        Ray { orig: self.origin, dir, time: self.time }
    }
}

} // verus!
