//! Axis-aligned rectangles, one type per plane orientation.

use vstd::prelude::*;
use crate::vec3::{Vec3, bounded, dot_fx};
use crate::ray::{Ray, ray_ok, at_spec, T_MAX_ABS};
use crate::fixed::{sabs, mul_fx, div_fx, mul_ok, div_ok, fx_mul, fx_div};
use crate::materials::{Material, material_ok};
use crate::hittables::{HitRecord, face_normal_spec, hit_bounds};
use crate::random::RandState;
use crate::constants::GEO_MAX;

verus! {

/// An in-plane extent admissible for a rectangle side.
pub open spec fn extent_ok(lo: int, hi: int) -> bool {
    &&& sabs(lo) <= GEO_MAX as int
    &&& sabs(hi) <= GEO_MAX as int
    &&& lo < hi
}

/// The closed-form ray/plane solution shared by the three orientations:
/// `a`/`b` are the in-plane axes, `c` the plane axis at offset `k`.
/// Yields the hit parameter and the surface coordinates, or nothing when
/// the ray is parallel, out of the query interval, or misses the extent.
pub open spec fn plane_hit_spec(
    a0: int,
    a1: int,
    b0: int,
    b1: int,
    k: int,
    oa: int,
    ob: int,
    oc: int,
    da: int,
    db: int,
    dc: int,
    tmin: int,
    tmax: int,
) -> Option<(int, int, int)> {
    if dc == 0 {
        None
    } else {
        let t = div_fx(k - oc, dc);
        if t < tmin || t > tmax {
            None
        } else {
            let a = oa + mul_fx(t, da);
            let b = ob + mul_fx(t, db);
            if a < a0 || a > a1 || b < b0 || b > b1 {
                None
            } else {
                Some((t, div_fx(a - a0, a1 - a0), div_fx(b - b0, b1 - b0)))
            }
        }
    }
}

/// Evaluate the plane solution executably.
#[verifier::rlimit(30)]
fn plane_hit(
    a0: i64,
    a1: i64,
    b0: i64,
    b1: i64,
    k: i64,
    oa: i64,
    ob: i64,
    oc: i64,
    da: i64,
    db: i64,
    dc: i64,
    tmin: i64,
    tmax: i64,
) -> (r: Option<(i64, i64, i64)>)
    requires
        extent_ok(a0 as int, a1 as int),
        extent_ok(b0 as int, b1 as int),
        sabs(k as int) <= GEO_MAX as int,
        sabs(oa as int) <= GEO_MAX as int,
        sabs(ob as int) <= GEO_MAX as int,
        sabs(oc as int) <= GEO_MAX as int,
        sabs(da as int) <= GEO_MAX as int,
        sabs(db as int) <= GEO_MAX as int,
        sabs(dc as int) <= GEO_MAX as int,
    ensures
        match r {
            Some(tuv) => {
                &&& plane_hit_spec(
                    a0 as int,
                    a1 as int,
                    b0 as int,
                    b1 as int,
                    k as int,
                    oa as int,
                    ob as int,
                    oc as int,
                    da as int,
                    db as int,
                    dc as int,
                    tmin as int,
                    tmax as int,
                ) == Some((tuv.0 as int, tuv.1 as int, tuv.2 as int))
                &&& tmin <= tuv.0 <= tmax
                &&& sabs(tuv.0 as int) <= T_MAX_ABS as int
            },
            None => plane_hit_spec(
                a0 as int,
                a1 as int,
                b0 as int,
                b1 as int,
                k as int,
                oa as int,
                ob as int,
                oc as int,
                da as int,
                db as int,
                dc as int,
                tmin as int,
                tmax as int,
            ) is None,
        },
{
    if dc == 0 {
        return None;
    }
    let t: i64 = fx_div(k - oc, dc);
    proof {
        assert(sabs(t as int) <= sabs(k - oc) * 1000);
    }
    if t < tmin || t > tmax {
        return None;
    }
    proof {
        crate::fixed::lemma_mul_bound(t as int, da as int, T_MAX_ABS as int, GEO_MAX as int);
        crate::fixed::lemma_mul_bound(t as int, db as int, T_MAX_ABS as int, GEO_MAX as int);
    }
    let ma: i64 = fx_mul(t, da);
    let mb: i64 = fx_mul(t, db);
    let a: i64 = oa + ma;
    let b: i64 = ob + mb;
    if a < a0 || a > a1 || b < b0 || b > b1 {
        return None;
    }
    let u: i64 = fx_div(a - a0, a1 - a0);
    let v: i64 = fx_div(b - b0, b1 - b0);
    Some((t, u, v))
}

/// A rectangle in the plane `z = k`.
#[derive(Clone, Copy, PartialEq, Eq, Structural, Debug)]
pub struct XyRectangle {
    pub x0: i64,
    pub x1: i64,
    pub y0: i64,
    pub y1: i64,
    pub k: i64,
    pub material: Material,
}

/// A rectangle in the plane `y = k`.
#[derive(Clone, Copy, PartialEq, Eq, Structural, Debug)]
pub struct XzRectangle {
    pub x0: i64,
    pub x1: i64,
    pub z0: i64,
    pub z1: i64,
    pub k: i64,
    pub material: Material,
}

/// A rectangle in the plane `x = k`.
#[derive(Clone, Copy, PartialEq, Eq, Structural, Debug)]
pub struct YzRectangle {
    pub y0: i64,
    pub y1: i64,
    pub z0: i64,
    pub z1: i64,
    pub k: i64,
    pub material: Material,
}

pub open spec fn xy_rect_ok(s: XyRectangle) -> bool {
    &&& extent_ok(s.x0 as int, s.x1 as int)
    &&& extent_ok(s.y0 as int, s.y1 as int)
    &&& sabs(s.k as int) <= GEO_MAX as int
    &&& material_ok(s.material)
}

pub open spec fn xz_rect_ok(s: XzRectangle) -> bool {
    &&& extent_ok(s.x0 as int, s.x1 as int)
    &&& extent_ok(s.z0 as int, s.z1 as int)
    &&& sabs(s.k as int) <= GEO_MAX as int
    &&& material_ok(s.material)
}

pub open spec fn yz_rect_ok(s: YzRectangle) -> bool {
    &&& extent_ok(s.y0 as int, s.y1 as int)
    &&& extent_ok(s.z0 as int, s.z1 as int)
    &&& sabs(s.k as int) <= GEO_MAX as int
    &&& material_ok(s.material)
}

/// Build the hit record an orientation reports for a solved plane hit.
pub open spec fn rect_record_spec(
    r: Ray,
    t: int,
    u: int,
    v: int,
    outward: Vec3,
    material: Material,
) -> HitRecord {
    let fn_ = face_normal_spec(r.dir, outward);
    HitRecord {
        t: t as i64,
        p: at_spec(r, t),
        normal: fn_.1,
        material,
        u: u as i64,
        v: v as i64,
        front_face: fn_.0,
    }
}

/// What intersecting an `xy` rectangle yields.
pub open spec fn xy_hit_spec(s: XyRectangle, r: Ray, tmin: int, tmax: int) -> Option<HitRecord> {
    match plane_hit_spec(
        s.x0 as int,
        s.x1 as int,
        s.y0 as int,
        s.y1 as int,
        s.k as int,
        r.orig.x as int,
        r.orig.y as int,
        r.orig.z as int,
        r.dir.x as int,
        r.dir.y as int,
        r.dir.z as int,
        tmin,
        tmax,
    ) {
        Some(tuv) => Some(
            rect_record_spec(r, tuv.0, tuv.1, tuv.2, (Vec3 { x: 0i64, y: 0i64, z: 1000i64 }), s.material),
        ),
        None => None,
    }
}

/// What intersecting an `xz` rectangle yields.
pub open spec fn xz_hit_spec(s: XzRectangle, r: Ray, tmin: int, tmax: int) -> Option<HitRecord> {
    match plane_hit_spec(
        s.x0 as int,
        s.x1 as int,
        s.z0 as int,
        s.z1 as int,
        s.k as int,
        r.orig.x as int,
        r.orig.z as int,
        r.orig.y as int,
        r.dir.x as int,
        r.dir.z as int,
        r.dir.y as int,
        tmin,
        tmax,
    ) {
        Some(tuv) => Some(
            rect_record_spec(r, tuv.0, tuv.1, tuv.2, (Vec3 { x: 0i64, y: 1000i64, z: 0i64 }), s.material),
        ),
        None => None,
    }
}

/// What intersecting a `yz` rectangle yields.
pub open spec fn yz_hit_spec(s: YzRectangle, r: Ray, tmin: int, tmax: int) -> Option<HitRecord> {
    match plane_hit_spec(
        s.y0 as int,
        s.y1 as int,
        s.z0 as int,
        s.z1 as int,
        s.k as int,
        r.orig.y as int,
        r.orig.z as int,
        r.orig.x as int,
        r.dir.y as int,
        r.dir.z as int,
        r.dir.x as int,
        tmin,
        tmax,
    ) {
        Some(tuv) => Some(
            rect_record_spec(r, tuv.0, tuv.1, tuv.2, (Vec3 { x: 1000i64, y: 0i64, z: 0i64 }), s.material),
        ),
        None => None,
    }
}

impl XyRectangle {
    pub fn new(x0: i64, x1: i64, y0: i64, y1: i64, k: i64, material: Material) -> (s: XyRectangle)
        requires
            extent_ok(x0 as int, x1 as int),
            extent_ok(y0 as int, y1 as int),
            sabs(k as int) <= GEO_MAX as int,
            material_ok(material),
        ensures
            s == (XyRectangle { x0, x1, y0, y1, k, material }),
            xy_rect_ok(s),
    {
        XyRectangle { x0, x1, y0, y1, k, material }
    }

    /// Closest hit of the ray with the rectangle inside `[t_min, t_max]`.
    pub fn intersect(&self, rng: &mut RandState, r: &Ray, t_min: i64, t_max: i64) -> (res: Option<
        HitRecord,
    >)
        requires
            xy_rect_ok(*self),
            ray_ok(*r),
        ensures
            res == xy_hit_spec(*self, *r, t_min as int, t_max as int),
            res matches Some(h) ==> t_min <= h.t <= t_max && dot_fx(r.dir, h.normal) <= 0
                && hit_bounds(h) && h.material == self.material,
    {
        let sol = plane_hit(
            self.x0,
            self.x1,
            self.y0,
            self.y1,
            self.k,
            r.orig.x,
            r.orig.y,
            r.orig.z,
            r.dir.x,
            r.dir.y,
            r.dir.z,
            t_min,
            t_max,
        );
        match sol {
            None => None,
            Some((t, u, v)) => {
                let p = r.at(t);
                let mut rec = HitRecord::new(t, p, Vec3::new(0, 0, 1000), self.material, u, v);
                rec.set_face_normal(r);
                Some(rec)
            },
        }
    }
}

impl XzRectangle {
    pub fn new(x0: i64, x1: i64, z0: i64, z1: i64, k: i64, material: Material) -> (s: XzRectangle)
        requires
            extent_ok(x0 as int, x1 as int),
            extent_ok(z0 as int, z1 as int),
            sabs(k as int) <= GEO_MAX as int,
            material_ok(material),
        ensures
            s == (XzRectangle { x0, x1, z0, z1, k, material }),
            xz_rect_ok(s),
    {
        XzRectangle { x0, x1, z0, z1, k, material }
    }

    /// Closest hit of the ray with the rectangle inside `[t_min, t_max]`.
    pub fn intersect(&self, rng: &mut RandState, r: &Ray, t_min: i64, t_max: i64) -> (res: Option<
        HitRecord,
    >)
        requires
            xz_rect_ok(*self),
            ray_ok(*r),
        ensures
            res == xz_hit_spec(*self, *r, t_min as int, t_max as int),
            res matches Some(h) ==> t_min <= h.t <= t_max && dot_fx(r.dir, h.normal) <= 0
                && hit_bounds(h) && h.material == self.material,
    {
        let sol = plane_hit(
            self.x0,
            self.x1,
            self.z0,
            self.z1,
            self.k,
            r.orig.x,
            r.orig.z,
            r.orig.y,
            r.dir.x,
            r.dir.z,
            r.dir.y,
            t_min,
            t_max,
        );
        match sol {
            None => None,
            Some((t, u, v)) => {
                let p = r.at(t);
                let mut rec = HitRecord::new(t, p, Vec3::new(0, 1000, 0), self.material, u, v);
                rec.set_face_normal(r);
                Some(rec)
            },
        }
    }
}

impl YzRectangle {
    pub fn new(y0: i64, y1: i64, z0: i64, z1: i64, k: i64, material: Material) -> (s: YzRectangle)
        requires
            extent_ok(y0 as int, y1 as int),
            extent_ok(z0 as int, z1 as int),
            sabs(k as int) <= GEO_MAX as int,
            material_ok(material),
        ensures
            s == (YzRectangle { y0, y1, z0, z1, k, material }),
            yz_rect_ok(s),
    {
        YzRectangle { y0, y1, z0, z1, k, material }
    }

    /// Closest hit of the ray with the rectangle inside `[t_min, t_max]`.
    pub fn intersect(&self, rng: &mut RandState, r: &Ray, t_min: i64, t_max: i64) -> (res: Option<
        HitRecord,
    >)
        requires
            yz_rect_ok(*self),
            ray_ok(*r),
        ensures
            res == yz_hit_spec(*self, *r, t_min as int, t_max as int),
            res matches Some(h) ==> t_min <= h.t <= t_max && dot_fx(r.dir, h.normal) <= 0
                && hit_bounds(h) && h.material == self.material,
    {
        let sol = plane_hit(
            self.y0,
            self.y1,
            self.z0,
            self.z1,
            self.k,
            r.orig.y,
            r.orig.z,
            r.orig.x,
            r.dir.y,
            r.dir.z,
            r.dir.x,
            t_min,
            t_max,
        );
        match sol {
            None => None,
            Some((t, u, v)) => {
                let p = r.at(t);
                let mut rec = HitRecord::new(t, p, Vec3::new(1000, 0, 0), self.material, u, v);
                rec.set_face_normal(r);
                Some(rec)
            },
        }
    }
}

} // verus!
