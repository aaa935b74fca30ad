//! The canonical unit sphere at the origin; placement and sizing are
//! composed on top with the affine wrapper.

use vstd::prelude::*;
use crate::vec3::{Vec3, bounded, dot_fx, in_bounds};
use crate::ray::{Ray, ray_ok, at_spec, T_MAX_ABS};
use crate::fixed::{sabs, mul_fx, div_fx, fx_mul, fx_div};
use crate::colour::{sqrt_floor, lemma_sqrt_floor_unique};
use crate::materials::{Material, material_ok};
use crate::hittables::{HitRecord, face_normal_spec, hit_bounds};
use crate::random::RandState;
use crate::aabb::AABB;

verus! {

/// A unit sphere about the origin.
#[derive(Clone, Copy, PartialEq, Eq, Structural, Debug)]
pub struct Sphere {
    pub material: Material,
}

pub open spec fn sphere_ok(s: Sphere) -> bool {
    material_ok(s.material)
}

/// Whether a candidate root is acceptable: inside the query interval
/// and small enough for point evaluation.
pub open spec fn root_ok(t: int, tmin: int, tmax: int) -> bool {
    tmin <= t <= tmax && sabs(t) <= T_MAX_ABS as int
}

/// The closed-form ray/unit-sphere solution: solve the quadratic
/// `|d|^2 t^2 + 2 (o.d) t + |o|^2 - 1 = 0`, preferring the nearer root,
/// and build the record with the hit point itself as outward normal.
/// Out-of-range intermediates are a miss rather than an overflow.
pub open spec fn sphere_hit_spec(s: Sphere, r: Ray, tmin: int, tmax: int) -> Option<HitRecord> {
    if !(bounded(r.orig, 0x20_0000) && bounded(r.dir, 0x20_0000)) {
        None
    } else {
        let a = dot_fx(r.dir, r.dir);
        let half_b = dot_fx(r.orig, r.dir);
        let c = dot_fx(r.orig, r.orig) - 1000;
        if a <= 0 {
            None
        } else {
            let disc = mul_fx(half_b, half_b) - mul_fx(a, c);
            if !(0 <= disc <= 0x1_0000_0000_0000) {
                None
            } else {
                let sqrtd = sqrt_floor(disc * 1000);
                let near = div_fx(-half_b - sqrtd, a);
                let far = div_fx(-half_b + sqrtd, a);
                let root = if root_ok(near, tmin, tmax) {
                    near
                } else if root_ok(far, tmin, tmax) {
                    far
                } else {
                    0
                };
                if !(root_ok(near, tmin, tmax) || root_ok(far, tmin, tmax)) {
                    None
                } else {
                    let p = at_spec(r, root);
                    if !bounded(p, 2000) {
                        None
                    } else {
                        let fnr = face_normal_spec(r.dir, p);
                        Some(
                            HitRecord {
                                t: root as i64,
                                p,
                                normal: fnr.1,
                                material: s.material,
                                u: 0i64,
                                v: 0i64,
                                front_face: fnr.0,
                            },
                        )
                    }
                }
            }
        }
    }
}

impl Sphere {
    /// The canonical unit sphere.
    pub fn canonical(material: Material) -> (s: Sphere)
        requires
            material_ok(material),
        ensures
            s == (Sphere { material }),
            sphere_ok(s),
    {
        Sphere { material }
    }

    /// The tight axis-aligned box of the unit sphere, at any time.
    pub fn bounding_box(&self, time: (i64, i64)) -> (b: Option<AABB>)
        ensures
            b == Some(
                AABB {
                    min: (Vec3 { x: -1000i64, y: -1000i64, z: -1000i64 }),
                    max: (Vec3 { x: 1000i64, y: 1000i64, z: 1000i64 }),
                },
            ),
    {
        Some(AABB::new(Vec3::new(-1000, -1000, -1000), Vec3::new(1000, 1000, 1000)))
    }

    /// Closest root of the quadratic within `[t_min, t_max]`.
    #[verifier::rlimit(100)]
    pub fn intersect(&self, rng: &mut RandState, r: &Ray, t_min: i64, t_max: i64) -> (res: Option<
        HitRecord,
    >)
        requires
            sphere_ok(*self),
            ray_ok(*r),
        ensures
            res == sphere_hit_spec(*self, *r, t_min as int, t_max as int),
            res matches Some(h) ==> t_min <= h.t <= t_max && dot_fx(r.dir, h.normal) <= 0
                && hit_bounds(h) && h.material == self.material,
    {
        if !(in_bounds(&r.orig, 0x20_0000) && in_bounds(&r.dir, 0x20_0000)) {
            return None;
        }
        proof {
            crate::fixed::lemma_mul_bound(r.orig.x as int, r.orig.x as int, 0x20_0000, 0x20_0000);
            crate::fixed::lemma_mul_bound(r.orig.y as int, r.orig.y as int, 0x20_0000, 0x20_0000);
            crate::fixed::lemma_mul_bound(r.orig.z as int, r.orig.z as int, 0x20_0000, 0x20_0000);
            crate::fixed::lemma_mul_bound(r.dir.x as int, r.dir.x as int, 0x20_0000, 0x20_0000);
            crate::fixed::lemma_mul_bound(r.dir.y as int, r.dir.y as int, 0x20_0000, 0x20_0000);
            crate::fixed::lemma_mul_bound(r.dir.z as int, r.dir.z as int, 0x20_0000, 0x20_0000);
            crate::fixed::lemma_mul_bound(r.orig.x as int, r.dir.x as int, 0x20_0000, 0x20_0000);
            crate::fixed::lemma_mul_bound(r.orig.y as int, r.dir.y as int, 0x20_0000, 0x20_0000);
            crate::fixed::lemma_mul_bound(r.orig.z as int, r.dir.z as int, 0x20_0000, 0x20_0000);
            crate::fixed::lemma_mul_fx_upper(r.dir.x as int, r.dir.x as int, 0x4_0000_0000_0000);
            crate::fixed::lemma_mul_fx_upper(r.dir.y as int, r.dir.y as int, 0x4_0000_0000_0000);
            crate::fixed::lemma_mul_fx_upper(r.dir.z as int, r.dir.z as int, 0x4_0000_0000_0000);
            crate::fixed::lemma_mul_fx_upper(r.orig.x as int, r.orig.x as int, 0x4_0000_0000_0000);
            crate::fixed::lemma_mul_fx_upper(r.orig.y as int, r.orig.y as int, 0x4_0000_0000_0000);
            crate::fixed::lemma_mul_fx_upper(r.orig.z as int, r.orig.z as int, 0x4_0000_0000_0000);
            crate::fixed::lemma_mul_fx_upper(r.orig.x as int, r.dir.x as int, 0x4_0000_0000_0000);
            crate::fixed::lemma_mul_fx_upper(r.orig.y as int, r.dir.y as int, 0x4_0000_0000_0000);
            crate::fixed::lemma_mul_fx_upper(r.orig.z as int, r.dir.z as int, 0x4_0000_0000_0000);
        }
        let a: i64 = r.dir.dot(&r.dir);
        let half_b: i64 = r.orig.dot(&r.dir);
        let c: i64 = r.orig.dot(&r.orig) - 1000;
        if a <= 0 {
            return None;
        }
        proof {
            crate::fixed::lemma_mul_bound(half_b as int, half_b as int, 0x4_0000_0000, 0x4_0000_0000);
            crate::fixed::lemma_mul_bound(a as int, c as int, 0x4_0000_0000, 0x4_0000_0000);
        }
        let disc: i64 = fx_mul(half_b, half_b) - fx_mul(a, c);
        if !(0 <= disc && disc <= 0x1_0000_0000_0000) {
            return None;
        }
        let sqrtd: i64 = crate::fixed::sqrt_fx(disc);
        proof {
            lemma_sqrt_floor_unique((disc as int) * 1000, sqrtd as int);
            assert(sqrtd as int <= 0x2000_0000) by (nonlinear_arith)
                requires
                    (sqrtd as int) * (sqrtd as int) <= 0x1_0000_0000_0000 * 1000,
                    (sqrtd as int) >= 0,
            ;
        }
        let near: i64 = fx_div(-half_b - sqrtd, a);
        let far: i64 = fx_div(-half_b + sqrtd, a);
        let near_ok: bool = t_min <= near && near <= t_max && -T_MAX_ABS <= near && near
            <= T_MAX_ABS;
        let far_ok: bool = t_min <= far && far <= t_max && -T_MAX_ABS <= far && far <= T_MAX_ABS;
        let root: i64 = if near_ok {
            near
        } else if far_ok {
            far
        } else {
            0
        };
        if !(near_ok || far_ok) {
            return None;
        }
        let p = r.at(root);
        if !in_bounds(&p, 2000) {
            return None;
        }
        let mut rec = HitRecord::new(root, p, p, self.material, 0, 0);
        rec.set_face_normal(r);
        Some(rec)
    }
}

} // verus!
