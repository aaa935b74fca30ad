//! Rays: origin, direction and a time value.

use vstd::prelude::*;
use crate::vec3::{Vec3, bounded};
use crate::point3::Point3;
use crate::fixed::{mul_fx, mul_ok};

verus! {

/// Greatest magnitude allowed for a ray origin or direction component.
pub const RAY_MAX: i64 = 0x4000_0000;

/// The direction need not be unit length: its magnitude is load-bearing
/// for distance computations inside participating media.
#[derive(Clone, Copy, PartialEq, Eq, Structural, Debug)]
pub struct Ray {
    pub orig: Point3,
    pub dir: Vec3,
    pub time: i64,
}

/// A ray whose components are small enough for intersection arithmetic.
pub open spec fn ray_ok(r: Ray) -> bool {
    &&& bounded(r.orig, RAY_MAX as int)
    &&& bounded(r.dir, RAY_MAX as int)
}

/// Greatest magnitude a ray parameter may take in queries.
pub const T_MAX_ABS: i64 = 0x200_0000_0000;

/// The point reached after travelling `t` along the ray, component-wise
/// `orig + t * dir` in fixed point.
pub open spec fn at_spec(r: Ray, t: int) -> Vec3 {
    Vec3 {
        x: (r.orig.x + mul_fx(t, r.dir.x as int)) as i64,
        y: (r.orig.y + mul_fx(t, r.dir.y as int)) as i64,
        z: (r.orig.z + mul_fx(t, r.dir.z as int)) as i64,
    }
}

impl Ray {
    pub fn new(orig: Point3, dir: Vec3, time: i64) -> (r: Ray)
        ensures
            r == (Ray { orig, dir, time }),
    {
        Ray { orig, dir, time }
    }

    /// Evaluate the ray at parameter `t`.
    pub fn at(&self, t: i64) -> (p: Point3)
        requires
            ray_ok(*self),
            crate::fixed::sabs(t as int) <= T_MAX_ABS as int,
        ensures
            p == at_spec(*self, t as int),
            bounded(p, RAY_MAX as int + 0x4000_0000_0000_0000),
    {
        proof {
            crate::fixed::lemma_mul_bound(t as int, self.dir.x as int, T_MAX_ABS as int, RAY_MAX as int);
            crate::fixed::lemma_mul_bound(t as int, self.dir.y as int, T_MAX_ABS as int, RAY_MAX as int);
            crate::fixed::lemma_mul_bound(t as int, self.dir.z as int, T_MAX_ABS as int, RAY_MAX as int);
        }
        let mx: i64 = crate::fixed::fx_mul(t, self.dir.x);
        let my: i64 = crate::fixed::fx_mul(t, self.dir.y);
        let mz: i64 = crate::fixed::fx_mul(t, self.dir.z);
        Point3 { x: self.orig.x + mx, y: self.orig.y + my, z: self.orig.z + mz }
    }
}

} // verus!
