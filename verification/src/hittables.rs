//! The intersection protocol's shared record type.

use vstd::prelude::*;
use crate::vec3::{Vec3, bounded, dot_fx, dot_ok};
use crate::point3::Point3;
use crate::ray::{Ray, ray_ok};
use crate::materials::Material;
use crate::constants::NORM_MAX;

verus! {

/// Produced by a successful intersection and consumed within one
/// intersection-then-scatter step.
#[derive(Clone, Copy, PartialEq, Eq, Structural, Debug)]
pub struct HitRecord {
    /// Ray-parametric distance of the hit.
    pub t: i64,
    /// World-space hit point.
    pub p: Point3,
    /// Surface normal, re-oriented to oppose the incoming ray.
    pub normal: Vec3,
    /// The material at the hit.
    pub material: Material,
    /// Surface parametric coordinates.
    pub u: i64,
    pub v: i64,
    /// Whether the geometric normal already opposed the ray.
    pub front_face: bool,
}

/// The face-normal correction: keep the outward normal if it opposes the
/// ray, otherwise flip it; record which case held.
pub open spec fn face_normal_spec(dir: Vec3, outward: Vec3) -> (bool, Vec3) {
    let ff = dot_fx(dir, outward) < 0;
    if ff {
        (true, outward)
    } else {
        (
            false,
            (Vec3 {
                x: (-(outward.x as int)) as i64,
                y: (-(outward.y as int)) as i64,
                z: (-(outward.z as int)) as i64,
            }),
        )
    }
}

/// Bounds every hit record out of a well-formed intersection satisfies.
pub open spec fn hit_bounds(rec: HitRecord) -> bool {
    &&& bounded(rec.normal, NORM_MAX as int)
    &&& bounded(rec.p, 0x5000_0000_0000_0000)
    &&& crate::fixed::sabs(rec.t as int) <= crate::ray::T_MAX_ABS as int
}

impl HitRecord {
    pub fn new(t: i64, p: Point3, normal: Vec3, material: Material, u: i64, v: i64) -> (r:
        HitRecord)
        ensures
            r == (HitRecord { t, p, normal, material, u, v, front_face: true }),
    {
        HitRecord { t, p, normal, material, u, v, front_face: true }
    }

    /// Re-orient the stored normal so that it opposes the ray direction,
    /// recording whether the geometric normal already did.
    pub fn set_face_normal(&mut self, r: &Ray)
        requires
            bounded(old(self).normal, NORM_MAX as int),
            ray_ok(*r),
        ensures
            (final(self).front_face, final(self).normal) == face_normal_spec(
                r.dir,
                old(self).normal,
            ),
            final(self).t == old(self).t,
            final(self).p == old(self).p,
            final(self).material == old(self).material,
            final(self).u == old(self).u,
            final(self).v == old(self).v,
            dot_fx(r.dir, final(self).normal) <= 0,
            bounded(final(self).normal, NORM_MAX as int),
    {
        proof {
            crate::fixed::lemma_mul_bound(r.dir.x as int, self.normal.x as int, 0x4000_0000, NORM_MAX as int);
            crate::fixed::lemma_mul_bound(r.dir.y as int, self.normal.y as int, 0x4000_0000, NORM_MAX as int);
            crate::fixed::lemma_mul_bound(r.dir.z as int, self.normal.z as int, 0x4000_0000, NORM_MAX as int);
        }
        let d: i64 = r.dir.dot(&self.normal);
        if d < 0 {
            self.front_face = true;
        } else {
            self.front_face = false;
            let flipped = self.normal.neg();
            self.normal = flipped;
            proof {
                crate::fixed::lemma_mul_fx_neg(r.dir.x as int, old(self).normal.x as int);
                crate::fixed::lemma_mul_fx_neg(r.dir.y as int, old(self).normal.y as int);
                crate::fixed::lemma_mul_fx_neg(r.dir.z as int, old(self).normal.z as int);
            }
        }
    }
}

} // verus!
