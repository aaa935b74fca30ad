//! The affine transform wrapper: composes scale, rotation and translation
//! onto a child object via inverse-ray transform.
//!
//! The wrapper is a two-phase builder: mutations accumulate the forward
//! map and its inverse together, and `set_inverse` freezes the transform.
//! Intersecting before it is frozen is ruled out by contract, never
//! silently treated as the identity.

use vstd::prelude::*;
use crate::vec3::{Vec3, bounded, in_bounds};
use crate::ray::{Ray, ray_ok, RAY_MAX};
use crate::matrix::{
    Mat3, MAT_MAX, mat_bounded, mat_identity, mat_mul_spec, mat_vec_spec, mat_transpose_spec,
    rot_y_spec,
};
use crate::fixed::{sabs, mul_fx, div_fx, fx_mul, fx_div};
use crate::hittables::{HitRecord, face_normal_spec};
use crate::object::{Object, obj_wf, deterministic, spec_intersect, hit_props};
use crate::random::RandState;
use crate::constants::NORM_MAX;

verus! {

/// Greatest magnitude allowed for a translation component.
pub const TR_MAX: i64 = 0x80_0000_0000;

/// A child object with an accumulated transform `p -> m p + tr`, its
/// maintained inverse linear part, and the freeze flag.
pub struct Affine {
    pub child: Box<Object>,
    pub m: Mat3,
    pub inv: Mat3,
    pub tr: Vec3,
    pub inv_set: bool,
}

/// Bounds on the transform's own state.
pub open spec fn affine_state_ok(a: Affine) -> bool {
    &&& mat_bounded(a.m, MAT_MAX as int)
    &&& mat_bounded(a.inv, MAT_MAX as int)
    &&& bounded(a.tr, TR_MAX as int)
}

/// Component-wise difference, in specification land.
pub open spec fn v_sub_spec(a: Vec3, b: Vec3) -> Vec3 {
    Vec3 { x: (a.x - b.x) as i64, y: (a.y - b.y) as i64, z: (a.z - b.z) as i64 }
}

/// Component-wise sum, in specification land.
pub open spec fn v_add_spec(a: Vec3, b: Vec3) -> Vec3 {
    Vec3 { x: (a.x + b.x) as i64, y: (a.y + b.y) as i64, z: (a.z + b.z) as i64 }
}

/// What intersecting a transformed object yields: the ray is pulled back
/// by the inverse, the child queried over the unchanged interval, and the
/// hit point and normal pushed forward (the normal by the
/// inverse-transpose).  Out-of-range intermediate values are treated as a
/// miss rather than allowed to overflow.
pub open spec fn affine_hit_spec(a: Affine, r: Ray, tmin: int, tmax: int) -> Option<HitRecord>
    decreases a, 0int, 1int,
{
    let ro = mat_vec_spec(a.inv, v_sub_spec(r.orig, a.tr));
    let rd = mat_vec_spec(a.inv, r.dir);
    if !(bounded(ro, RAY_MAX as int) && bounded(rd, RAY_MAX as int)) {
        None
    } else {
        match spec_intersect(*a.child, (Ray { orig: ro, dir: rd, time: r.time }), tmin, tmax) {
            None => None,
            Some(h) => {
                if !bounded(h.p, 0x100_0000_0000) {
                    None
                } else {
                    let wp = v_add_spec(mat_vec_spec(a.m, h.p), a.tr);
                    let wn = mat_vec_spec(mat_transpose_spec(a.inv), h.normal);
                    if !(bounded(wp, 0x4000_0000_0000_0000) && bounded(wn, NORM_MAX as int)) {
                        None
                    } else {
                        let fnr = face_normal_spec(r.dir, wn);
                        Some(
                            HitRecord {
                                t: h.t,
                                p: wp,
                                normal: fnr.1,
                                material: h.material,
                                u: h.u,
                                v: h.v,
                                front_face: fnr.0,
                            },
                        )
                    }
                }
            },
        }
    }
}

/// The affine round trip: intersecting a transformed object agrees with
/// pulling the ray back through the inverse, intersecting the bare
/// child over the same interval, and pushing the hit forward again —
/// the hit parameter is preserved and the hit point is the forward
/// image of the child's hit point, whenever the pushed-forward values
/// stay in range.
pub proof fn lemma_affine_round_trip(a: Affine, r: Ray, tmin: int, tmax: int)
    ensures
        ({
            let ro = mat_vec_spec(a.inv, v_sub_spec(r.orig, a.tr));
            let rd = mat_vec_spec(a.inv, r.dir);
            let local = Ray { orig: ro, dir: rd, time: r.time };
            bounded(ro, RAY_MAX as int) && bounded(rd, RAY_MAX as int) ==> match spec_intersect(
                *a.child,
                local,
                tmin,
                tmax,
            ) {
                Some(h) => {
                    let wp = v_add_spec(mat_vec_spec(a.m, h.p), a.tr);
                    let wn = mat_vec_spec(mat_transpose_spec(a.inv), h.normal);
                    (bounded(h.p, 0x100_0000_0000) && bounded(wp, 0x4000_0000_0000_0000)
                        && bounded(wn, NORM_MAX as int)) ==> (affine_hit_spec(a, r, tmin, tmax)
                        matches Some(w) && w.t == h.t && w.p == wp && w.u == h.u && w.v == h.v
                        && w.material == h.material)
                },
                None => affine_hit_spec(a, r, tmin, tmax) is None,
            }
        }),
{
}

impl Affine {
    /// Wrap a child with the identity transform, not yet frozen.
    pub fn new(child: Object) -> (a: Affine)
        ensures
            *a.child == child,
            a.m == mat_identity(),
            a.inv == mat_identity(),
            a.tr == (Vec3 { x: 0i64, y: 0i64, z: 0i64 }),
            a.inv_set == false,
            affine_state_ok(a),
    {
        Affine {
            child: Box::new(child),
            m: Mat3::identity(),
            inv: Mat3::identity(),
            tr: Vec3::zero(),
            inv_set: false,
        }
    }

    /// Compose a translation after the accumulated transform.
    pub fn translate(&mut self, x: i64, y: i64, z: i64)
        requires
            sabs(old(self).tr.x + x) <= TR_MAX as int,
            sabs(old(self).tr.y + y) <= TR_MAX as int,
            sabs(old(self).tr.z + z) <= TR_MAX as int,
        ensures
            final(self).tr.x as int == old(self).tr.x + x,
            final(self).tr.y as int == old(self).tr.y + y,
            final(self).tr.z as int == old(self).tr.z + z,
            final(self).m == old(self).m,
            final(self).inv == old(self).inv,
            final(self).child == old(self).child,
            final(self).inv_set == old(self).inv_set,
    {
        self.tr = Vec3 { x: self.tr.x + x, y: self.tr.y + y, z: self.tr.z + z };
    }

    /// Compose a uniform scale after the accumulated transform; the
    /// inverse linear part is divided by the same factor.
    pub fn scale_uniform(&mut self, s: i64)
        requires
            100 <= s <= 0x10_0000,
            mat_bounded(old(self).m, 0x10_0000),
            mat_bounded(old(self).inv, 0x10_0000),
            bounded(old(self).tr, 0x10_0000),
        ensures
            final(self).m.e00 as int == mul_fx(old(self).m.e00 as int, s as int),
            final(self).m.e01 as int == mul_fx(old(self).m.e01 as int, s as int),
            final(self).m.e02 as int == mul_fx(old(self).m.e02 as int, s as int),
            final(self).m.e10 as int == mul_fx(old(self).m.e10 as int, s as int),
            final(self).m.e11 as int == mul_fx(old(self).m.e11 as int, s as int),
            final(self).m.e12 as int == mul_fx(old(self).m.e12 as int, s as int),
            final(self).m.e20 as int == mul_fx(old(self).m.e20 as int, s as int),
            final(self).m.e21 as int == mul_fx(old(self).m.e21 as int, s as int),
            final(self).m.e22 as int == mul_fx(old(self).m.e22 as int, s as int),
            final(self).inv.e00 as int == div_fx(old(self).inv.e00 as int, s as int),
            final(self).inv.e01 as int == div_fx(old(self).inv.e01 as int, s as int),
            final(self).inv.e02 as int == div_fx(old(self).inv.e02 as int, s as int),
            final(self).inv.e10 as int == div_fx(old(self).inv.e10 as int, s as int),
            final(self).inv.e11 as int == div_fx(old(self).inv.e11 as int, s as int),
            final(self).inv.e12 as int == div_fx(old(self).inv.e12 as int, s as int),
            final(self).inv.e20 as int == div_fx(old(self).inv.e20 as int, s as int),
            final(self).inv.e21 as int == div_fx(old(self).inv.e21 as int, s as int),
            final(self).inv.e22 as int == div_fx(old(self).inv.e22 as int, s as int),
            final(self).tr.x as int == mul_fx(old(self).tr.x as int, s as int),
            final(self).tr.y as int == mul_fx(old(self).tr.y as int, s as int),
            final(self).tr.z as int == mul_fx(old(self).tr.z as int, s as int),
            final(self).child == old(self).child,
            final(self).inv_set == old(self).inv_set,
    {
        proof {
            crate::fixed::lemma_mul_bound(self.m.e00 as int, s as int, 0x10_0000, 0x10_0000);
            crate::fixed::lemma_mul_bound(self.m.e01 as int, s as int, 0x10_0000, 0x10_0000);
            crate::fixed::lemma_mul_bound(self.m.e02 as int, s as int, 0x10_0000, 0x10_0000);
            crate::fixed::lemma_mul_bound(self.m.e10 as int, s as int, 0x10_0000, 0x10_0000);
            crate::fixed::lemma_mul_bound(self.m.e11 as int, s as int, 0x10_0000, 0x10_0000);
            crate::fixed::lemma_mul_bound(self.m.e12 as int, s as int, 0x10_0000, 0x10_0000);
            crate::fixed::lemma_mul_bound(self.m.e20 as int, s as int, 0x10_0000, 0x10_0000);
            crate::fixed::lemma_mul_bound(self.m.e21 as int, s as int, 0x10_0000, 0x10_0000);
            crate::fixed::lemma_mul_bound(self.m.e22 as int, s as int, 0x10_0000, 0x10_0000);
            crate::fixed::lemma_mul_bound(self.tr.x as int, s as int, 0x10_0000, 0x10_0000);
            crate::fixed::lemma_mul_bound(self.tr.y as int, s as int, 0x10_0000, 0x10_0000);
            crate::fixed::lemma_mul_bound(self.tr.z as int, s as int, 0x10_0000, 0x10_0000);
        }
        self.m = Mat3 {
            e00: fx_mul(self.m.e00, s),
            e01: fx_mul(self.m.e01, s),
            e02: fx_mul(self.m.e02, s),
            e10: fx_mul(self.m.e10, s),
            e11: fx_mul(self.m.e11, s),
            e12: fx_mul(self.m.e12, s),
            e20: fx_mul(self.m.e20, s),
            e21: fx_mul(self.m.e21, s),
            e22: fx_mul(self.m.e22, s),
        };
        self.inv = Mat3 {
            e00: fx_div(self.inv.e00, s),
            e01: fx_div(self.inv.e01, s),
            e02: fx_div(self.inv.e02, s),
            e10: fx_div(self.inv.e10, s),
            e11: fx_div(self.inv.e11, s),
            e12: fx_div(self.inv.e12, s),
            e20: fx_div(self.inv.e20, s),
            e21: fx_div(self.inv.e21, s),
            e22: fx_div(self.inv.e22, s),
        };
        self.tr = Vec3 {
            x: fx_mul(self.tr.x, s),
            y: fx_mul(self.tr.y, s),
            z: fx_mul(self.tr.z, s),
        };
    }

    /// Compose a rotation about the `y` axis, given its cosine and sine;
    /// the inverse linear part picks up the transposed rotation.
    pub fn rotate_y(&mut self, c: i64, s: i64)
        requires
            sabs(c as int) <= 1000,
            sabs(s as int) <= 1000,
            mat_bounded(old(self).m, MAT_MAX as int),
            mat_bounded(old(self).inv, MAT_MAX as int),
            bounded(old(self).tr, 0x100_0000_0000),
        ensures
            final(self).m == mat_mul_spec(rot_y_spec(c as int, s as int), old(self).m),
            final(self).inv == mat_mul_spec(
                old(self).inv,
                mat_transpose_spec(rot_y_spec(c as int, s as int)),
            ),
            final(self).tr == mat_vec_spec(rot_y_spec(c as int, s as int), old(self).tr),
            final(self).child == old(self).child,
            final(self).inv_set == old(self).inv_set,
    {
        let rot = Mat3 { e00: c, e01: 0, e02: s, e10: 0, e11: 1000, e12: 0, e20: -s, e21: 0, e22: c };
        let rot_t = rot.transpose();
        self.m = rot.mul_mat(&self.m);
        self.inv = self.inv.mul_mat(&rot_t);
        self.tr = rot.mul_vec(&self.tr);
    }

    /// Freeze the transform; only then may it be intersected.
    pub fn set_inverse(&mut self)
        ensures
            final(self).inv_set == true,
            final(self).m == old(self).m,
            final(self).inv == old(self).inv,
            final(self).tr == old(self).tr,
            final(self).child == old(self).child,
    {
        self.inv_set = true;
    }

    /// Intersect by pulling the ray back through the inverse, querying the
    /// child, and pushing the hit forward.
    pub fn intersect(&self, rng: &mut RandState, r: &Ray, t_min: i64, t_max: i64) -> (res: Option<
        HitRecord,
    >)
        requires
            affine_state_ok(*self),
            self.inv_set,
            obj_wf(*self.child),
            ray_ok(*r),
        ensures
            deterministic(*self.child) ==> res == affine_hit_spec(
                *self,
                *r,
                t_min as int,
                t_max as int,
            ),
            hit_props(res, *r, t_min as int, t_max as int),
        decreases *self, 0int,
    {
        let local_orig = Vec3 {
            x: r.orig.x - self.tr.x,
            y: r.orig.y - self.tr.y,
            z: r.orig.z - self.tr.z,
        };
        let ro = self.inv.mul_vec(&local_orig);
        let rd = self.inv.mul_vec(&r.dir);
        if !(in_bounds(&ro, crate::ray::RAY_MAX) && in_bounds(&rd, crate::ray::RAY_MAX)) {
            return None;
        }
        let local_ray = Ray { orig: ro, dir: rd, time: r.time };
        proof {
            assert(decreases_to!(*self => *self.child));
        }
        let hit = self.child.intersect(rng, &local_ray, t_min, t_max);
        match hit {
            None => None,
            Some(h) => {
                if !in_bounds(&h.p, 0x100_0000_0000) {
                    return None;
                }
                let mp = self.m.mul_vec(&h.p);
                let wp = Vec3 { x: mp.x + self.tr.x, y: mp.y + self.tr.y, z: mp.z + self.tr.z };
                let inv_t = self.inv.transpose();
                let wn = inv_t.mul_vec(&h.normal);
                if !(in_bounds(&wp, 0x4000_0000_0000_0000) && in_bounds(&wn, NORM_MAX)) {
                    return None;
                }
                let mut rec = HitRecord::new(h.t, wp, wn, h.material, h.u, h.v);
                rec.set_face_normal(r);
                Some(rec)
            },
        }
    }
}

} // verus!
