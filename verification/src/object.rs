//! The polymorphic intersection protocol: every piece of geometry, every
//! composite and every volume is an `Object`.

use vstd::prelude::*;
use crate::vec3::{Vec3, bounded, dot_fx, in_bounds};
use crate::ray::{Ray, ray_ok};
use crate::fixed::{sabs, mul_fx, div_fx, fx_mul, fx_div, sqrt_fx};
use crate::colour::{sqrt_floor, lemma_sqrt_floor_unique};
use crate::point3::Point3;
use crate::random::{RandState, next_milli, next_index};
use crate::aa_rectangles::{
    XyRectangle, XzRectangle, YzRectangle, xy_rect_ok, xz_rect_ok, yz_rect_ok, xy_hit_spec,
    xz_hit_spec, yz_hit_spec,
};
use crate::hittables::{HitRecord, hit_bounds};
use crate::hittable_list::HittableList;
use crate::rect_prism::RectangularPrism;
use crate::sphere::{Sphere, sphere_ok, sphere_hit_spec};
use crate::affine::{Affine, affine_state_ok, affine_hit_spec};
use crate::constant_medium::{ConstantMedium, medium_state_ok};
use crate::bvh::{BvhNode, box_in_range, bvh_hit_spec};
use crate::materials::material_ok;

verus! {

broadcast use vstd::std_specs::vec::group_vec_axioms;

/// A scene object: a primitive, a composite, or a wrapped child.
pub enum Object {
    Sphere(Sphere),
    XyRect(XyRectangle),
    XzRect(XzRectangle),
    YzRect(YzRectangle),
    List(HittableList),
    Prism(RectangularPrism),
    Affine(Affine),
    Medium(ConstantMedium),
    Bvh(BvhNode),
}

/// Structural well-formedness of an object tree.
pub open spec fn obj_wf(o: Object) -> bool
    decreases o,
{
    match o {
        Object::Sphere(s) => sphere_ok(s),
        Object::XyRect(s) => xy_rect_ok(s),
        Object::XzRect(s) => xz_rect_ok(s),
        Object::YzRect(s) => yz_rect_ok(s),
        Object::List(l) => forall|i: int|
            0 <= i < l.objects@.len() ==> obj_wf(#[trigger] l.objects@[i]),
        Object::Prism(p) => forall|i: int|
            0 <= i < p.sides.objects@.len() ==> obj_wf(#[trigger] p.sides.objects@[i]),
        Object::Affine(a) => affine_state_ok(a) && a.inv_set && obj_wf(*a.child),
        Object::Medium(m) => medium_state_ok(m) && obj_wf(*m.boundary),
        Object::Bvh(n) => box_in_range(n.bbox) && obj_wf(*n.left) && obj_wf(*n.right),
    }
}

/// Whether intersecting the object draws nothing from the random
/// stream, so that its result is a function of the ray and interval.
pub open spec fn deterministic(o: Object) -> bool
    decreases o,
{
    match o {
        Object::Sphere(s) => true,
        Object::XyRect(s) => true,
        Object::XzRect(s) => true,
        Object::YzRect(s) => true,
        Object::List(l) => forall|i: int|
            0 <= i < l.objects@.len() ==> deterministic(#[trigger] l.objects@[i]),
        Object::Prism(p) => forall|i: int|
            0 <= i < p.sides.objects@.len() ==> deterministic(#[trigger] p.sides.objects@[i]),
        Object::Affine(a) => deterministic(*a.child),
        Object::Medium(m) => false,
        Object::Bvh(n) => deterministic(*n.left) && deterministic(*n.right),
    }
}

/// The properties every successful intersection reports.
pub open spec fn hit_props(res: Option<HitRecord>, r: Ray, tmin: int, tmax: int) -> bool {
    res matches Some(h) ==> {
        &&& tmin <= h.t <= tmax
        &&& dot_fx(r.dir, h.normal) <= 0
        &&& hit_bounds(h)
        &&& material_ok(h.material)
    }
}

/// Nearest-hit reduction over a sequence of children, scanned left to
/// right, each queried with the interval narrowed to the closest hit so
/// far.
pub open spec fn hit_seq_spec(s: Seq<Object>, r: Ray, tmin: int, tmax: int) -> Option<HitRecord>
    decreases s, s.len(), 1int,
{
    if s.len() == 0 {
        None
    } else {
        let prev = hit_seq_spec(s.drop_last(), r, tmin, tmax);
        let cur_tmax = match prev {
            Some(h) => h.t as int,
            None => tmax,
        };
        match spec_intersect(s.last(), r, tmin, cur_tmax) {
            Some(h) => Some(h),
            None => prev,
        }
    }
}

/// The closest valid hit of a ray with an object within `[tmin, tmax]`.
pub open spec fn spec_intersect(o: Object, r: Ray, tmin: int, tmax: int) -> Option<HitRecord>
    decreases o, 0int, 0int,
{
    match o {
        Object::Sphere(s) => sphere_hit_spec(s, r, tmin, tmax),
        Object::XyRect(s) => xy_hit_spec(s, r, tmin, tmax),
        Object::XzRect(s) => xz_hit_spec(s, r, tmin, tmax),
        Object::YzRect(s) => yz_hit_spec(s, r, tmin, tmax),
        Object::List(l) => hit_seq_spec(l.objects@, r, tmin, tmax),
        Object::Prism(p) => hit_seq_spec(p.sides.objects@, r, tmin, tmax),
        Object::Affine(a) => affine_hit_spec(a, r, tmin, tmax),
        // a volume draws from the random stream, so it has no
        // deterministic description; nothing is claimed of it here
        Object::Medium(m) => None,
        Object::Bvh(n) => bvh_hit_spec(n, r, tmin, tmax),
    }
}

/// The box an object reports: rectangles pad their plane axis by one
/// thousandth, aggregates take the union over every member, a volume
/// reports its boundary's box, and a transformed child is reported as
/// unbounded.
pub open spec fn spec_bounding_box(o: Object) -> Option<crate::aabb::AABB>
    decreases o, 0int, 0int,
{
    match o {
        Object::Sphere(s) => Some(
            (crate::aabb::AABB {
                min: (Vec3 { x: -1000i64, y: -1000i64, z: -1000i64 }),
                max: (Vec3 { x: 1000i64, y: 1000i64, z: 1000i64 }),
            }),
        ),
        Object::XyRect(s) => if s.k == i64::MIN || s.k == i64::MAX {
            None
        } else {
            Some(
                (crate::aabb::AABB {
                    min: (Vec3 { x: s.x0, y: s.y0, z: (s.k - 1) as i64 }),
                    max: (Vec3 { x: s.x1, y: s.y1, z: (s.k + 1) as i64 }),
                }),
            )
        },
        Object::XzRect(s) => if s.k == i64::MIN || s.k == i64::MAX {
            None
        } else {
            Some(
                (crate::aabb::AABB {
                    min: (Vec3 { x: s.x0, y: (s.k - 1) as i64, z: s.z0 }),
                    max: (Vec3 { x: s.x1, y: (s.k + 1) as i64, z: s.z1 }),
                }),
            )
        },
        Object::YzRect(s) => if s.k == i64::MIN || s.k == i64::MAX {
            None
        } else {
            Some(
                (crate::aabb::AABB {
                    min: (Vec3 { x: (s.k - 1) as i64, y: s.y0, z: s.z0 }),
                    max: (Vec3 { x: (s.k + 1) as i64, y: s.y1, z: s.z1 }),
                }),
            )
        },
        Object::Prism(p) => Some((crate::aabb::AABB { min: p.min, max: p.max })),
        Object::List(l) => spec_box_seq(l.objects@),
        Object::Affine(a) => None,
        Object::Medium(m) => spec_bounding_box(*m.boundary),
        Object::Bvh(n) => Some(n.bbox),
    }
}

/// The union box of a sequence of objects: nothing if the sequence is
/// empty or any member is unbounded.
pub open spec fn spec_box_seq(s: Seq<Object>) -> Option<crate::aabb::AABB>
    decreases s, s.len(), 1int,
{
    if s.len() == 0 {
        None
    } else if s.len() == 1 {
        spec_bounding_box(s.last())
    } else {
        match (spec_box_seq(s.drop_last()), spec_bounding_box(s.last())) {
            (Some(a), Some(b)) => Some(crate::aabb::surrounding_spec(a, b)),
            _ => None,
        }
    }
}

/// A fixed-point fraction of a non-negative extent stays within it.
pub proof fn lemma_unit_fraction(u: int, e: int)
    requires
        0 <= u < 1000,
        0 <= e <= 0x8000_0000,
    ensures
        0 <= mul_fx(u, e) <= e,
        sabs(u * e) <= 1000 * 0x8000_0000,
{
    crate::fixed::lemma_mul_fx_nonneg(u, e);
    crate::fixed::lemma_mul_fx_comm(u, e);
    crate::fixed::lemma_mul_fx_mono(e, u, 1000);
    crate::matrix::lemma_mul_fx_units(e);
    crate::fixed::lemma_mul_bound(u, e, 1000, 0x8000_0000);
}

/// The primitive content of an object, in order: aggregates and tree
/// nodes flatten to what they hold; everything else stands for itself.
pub open spec fn leaves(o: Object) -> Seq<Object>
    decreases o, 0int, 0int,
{
    match o {
        Object::List(l) => leaves_seq(l.objects@),
        Object::Bvh(n) => leaves(*n.left) + leaves(*n.right),
        _ => seq![o],
    }
}

/// The concatenated content of a sequence of objects.
pub open spec fn leaves_seq(s: Seq<Object>) -> Seq<Object>
    decreases s, s.len(), 1int,
{
    if s.len() == 0 {
        Seq::empty()
    } else {
        leaves_seq(s.drop_last()) + leaves(s.last())
    }
}

/// Content concatenates over sequence concatenation.
pub proof fn lemma_leaves_seq_concat(a: Seq<Object>, b: Seq<Object>)
    ensures
        leaves_seq(a + b) == leaves_seq(a) + leaves_seq(b),
    decreases b.len(),
{
    if b.len() == 0 {
        assert(a + b =~= a);
        assert(leaves_seq(a) + leaves_seq(b) =~= leaves_seq(a));
    } else {
        assert((a + b).drop_last() =~= a + b.drop_last());
        assert((a + b).last() == b.last());
        lemma_leaves_seq_concat(a, b.drop_last());
        assert((leaves_seq(a) + leaves_seq(b.drop_last())) + leaves(b.last()) =~= leaves_seq(a) + (
        leaves_seq(b.drop_last()) + leaves(b.last())));
    }
}

/// Once a prefix of the members has no union box, the whole sequence
/// has none.
pub proof fn lemma_box_seq_none_prefix(s: Seq<Object>, i: int)
    requires
        1 <= i <= s.len(),
        spec_box_seq(s.take(i)) is None,
    ensures
        spec_box_seq(s) is None,
    decreases s.len(),
{
    if i == s.len() {
        assert(s.take(i) =~= s);
    } else {
        assert(s.drop_last().take(i) =~= s.take(i));
        lemma_box_seq_none_prefix(s.drop_last(), i);
    }
}

/// The solid-angle density of sampling direction `dir` toward a
/// rectangle hit at `h`: distance squared over the cosine times the
/// area, with every degenerate or out-of-range case yielding zero
/// instead of an overflow or a division by zero.
pub open spec fn rect_pdf_from_hit_spec(t: int, dir: Vec3, normal: Vec3, area: int) -> int {
    if !(sabs(t) <= 0x4000_0000 && bounded(dir, 0x100_0000) && 0 < area <= 0x100_0000_0000) {
        0
    } else {
        let t2 = mul_fx(t, t);
        let d2 = dot_fx(dir, dir);
        if !(0 <= t2 <= 0x4_0000_0000 && 0 < d2 <= 0x4_0000_0000) {
            0
        } else {
            let dsq = mul_fx(t2, d2);
            let len = sqrt_floor(d2 * 1000);
            let cosr = sabs(dot_fx(dir, normal));
            if !(0 <= dsq <= 0x10_0000_0000_0000 && 0 < len && cosr <= 0x10_0000_0000_0000) {
                0
            } else {
                let cos = div_fx(cosr, len);
                if !(0 < cos <= 2000) {
                    0
                } else {
                    let denom = mul_fx(cos, area);
                    if denom <= 0 {
                        0
                    } else {
                        div_fx(dsq, denom)
                    }
                }
            }
        }
    }
}

/// Evaluate the solid-angle density for a rectangle hit, executably.
#[verifier::rlimit(60)]
fn rect_pdf_from_hit(t: i64, dir: &Vec3, normal: &Vec3, area: i64) -> (r: i64)
    requires
        bounded(*normal, crate::constants::NORM_MAX as int),
        sabs(t as int) <= crate::ray::T_MAX_ABS as int,
    ensures
        r as int == rect_pdf_from_hit_spec(t as int, *dir, *normal, area as int),
        0 <= r <= 0x4000_0000_0000_0000,
{
    if !(-0x4000_0000 <= t && t <= 0x4000_0000 && in_bounds(dir, 0x100_0000) && 0 < area
        && area <= 0x100_0000_0000) {
        return 0;
    }
    proof {
        crate::fixed::lemma_mul_bound(t as int, t as int, 0x4000_0000, 0x4000_0000);
        crate::fixed::lemma_mul_bound(dir.x as int, dir.x as int, 0x100_0000, 0x100_0000);
        crate::fixed::lemma_mul_bound(dir.y as int, dir.y as int, 0x100_0000, 0x100_0000);
        crate::fixed::lemma_mul_bound(dir.z as int, dir.z as int, 0x100_0000, 0x100_0000);
        crate::fixed::lemma_sq_nonneg(t as int);
    }
    let t2: i64 = fx_mul(t, t);
    let d2: i64 = dir.length_squared();
    if !(0 <= t2 && t2 <= 0x4_0000_0000 && 0 < d2 && d2 <= 0x4_0000_0000) {
        return 0;
    }
    proof {
        crate::fixed::lemma_mul_bound(t2 as int, d2 as int, 0x4_0000_0000, 0x4_0000_0000);
        crate::fixed::lemma_mul_bound(dir.x as int, normal.x as int, 0x100_0000, crate::constants::NORM_MAX as int);
        crate::fixed::lemma_mul_bound(dir.y as int, normal.y as int, 0x100_0000, crate::constants::NORM_MAX as int);
        crate::fixed::lemma_mul_bound(dir.z as int, normal.z as int, 0x100_0000, crate::constants::NORM_MAX as int);
    }
    let dsq: i64 = fx_mul(t2, d2);
    let len: i64 = sqrt_fx(d2);
    proof {
        lemma_sqrt_floor_unique((d2 as int) * 1000, len as int);
    }
    let dotn: i64 = dir.dot(normal);
    let cosr: i64 = if dotn >= 0 {
        dotn
    } else {
        -dotn
    };
    if !(0 <= dsq && dsq <= 0x10_0000_0000_0000 && 0 < len && cosr <= 0x10_0000_0000_0000) {
        return 0;
    }
    let cos: i64 = fx_div(cosr, len);
    if !(0 < cos && cos <= 2000) {
        return 0;
    }
    proof {
        crate::fixed::lemma_mul_bound(cos as int, area as int, 2000, 0x100_0000_0000);
    }
    let denom: i64 = fx_mul(cos, area);
    if denom <= 0 {
        return 0;
    }
    let r = fx_div(dsq, denom);
    proof {
        vstd::arithmetic::div_mod::lemma_div_pos_is_pos(sabs((dsq as int) * 1000), denom as int);
    }
    r
}

/// The rectangle density lies in `[0, 2^62]`.
pub proof fn lemma_rect_pdf_bounds(t: int, dir: Vec3, normal: Vec3, area: int)
    ensures
        0 <= rect_pdf_from_hit_spec(t, dir, normal, area) <= 0x4000_0000_0000_0000,
{
    lemma_rect_pdf_nonneg(t, dir, normal, area);
    if sabs(t) <= 0x4000_0000 && bounded(dir, 0x100_0000) && 0 < area <= 0x100_0000_0000 {
        let t2 = mul_fx(t, t);
        let d2 = dot_fx(dir, dir);
        if 0 <= t2 <= 0x4_0000_0000 && 0 < d2 <= 0x4_0000_0000 {
            let dsq = mul_fx(t2, d2);
            let len = sqrt_floor(d2 * 1000);
            let cosr = sabs(dot_fx(dir, normal));
            if 0 <= dsq <= 0x10_0000_0000_0000 && 0 < len && cosr <= 0x10_0000_0000_0000 {
                let cos = div_fx(cosr, len);
                if 0 < cos <= 2000 {
                    let denom = mul_fx(cos, area);
                    if denom > 0 {
                        crate::fixed::lemma_tdiv_bound(dsq * 1000, denom);
                    }
                }
            }
        }
    }
}

/// Densities lie in `[0, 2^62]`.
pub proof fn lemma_pdf_value_bounds(o: Object, origin: Point3, dir: Vec3)
    ensures
        0 <= pdf_value_spec(o, origin, dir) <= 0x4000_0000_0000_0000,
    decreases o, 0int, 2int,
{
    lemma_pdf_value_nonneg(o, origin, dir);
    match o {
        Object::List(l) => {
            let s = l.objects@;
            if s.len() > 0 {
                lemma_pdf_sum_bounds(s, origin, dir);
                vstd::arithmetic::div_mod::lemma_div_is_ordered(
                    pdf_sum_spec(s, origin, dir),
                    (s.len() as int) * 0x4000_0000_0000_0000,
                    s.len() as int,
                );
                vstd::arithmetic::div_mod::lemma_div_multiples_vanish(
                    0x4000_0000_0000_0000,
                    s.len() as int,
                );
            }
        },
        Object::XyRect(s2) => {
            let ray = Ray { orig: origin, dir: dir, time: 0i64 };
            match xy_hit_spec(s2, ray, crate::constants::EPSILON as int, crate::constants::INFINITY as int) {
                None => {},
                Some(h) => {
                    lemma_rect_pdf_bounds(h.t as int, dir, h.normal, mul_fx(s2.x1 - s2.x0, s2.y1 - s2.y0));
                },
            }
        },
        Object::XzRect(s2) => {
            let ray = Ray { orig: origin, dir: dir, time: 0i64 };
            match xz_hit_spec(s2, ray, crate::constants::EPSILON as int, crate::constants::INFINITY as int) {
                None => {},
                Some(h) => {
                    lemma_rect_pdf_bounds(h.t as int, dir, h.normal, mul_fx(s2.x1 - s2.x0, s2.z1 - s2.z0));
                },
            }
        },
        Object::YzRect(s2) => {
            let ray = Ray { orig: origin, dir: dir, time: 0i64 };
            match yz_hit_spec(s2, ray, crate::constants::EPSILON as int, crate::constants::INFINITY as int) {
                None => {},
                Some(h) => {
                    lemma_rect_pdf_bounds(h.t as int, dir, h.normal, mul_fx(s2.y1 - s2.y0, s2.z1 - s2.z0));
                },
            }
        },
        _ => {},
    }
}

/// Sums of densities lie in `[0, len * 2^62]`.
pub proof fn lemma_pdf_sum_bounds(s: Seq<Object>, origin: Point3, dir: Vec3)
    ensures
        0 <= pdf_sum_spec(s, origin, dir) <= (s.len() as int) * 0x4000_0000_0000_0000,
    decreases s, s.len(), 3int,
{
    if s.len() == 0 {
    } else {
        lemma_pdf_sum_bounds(s.drop_last(), origin, dir);
        lemma_pdf_value_bounds(s.last(), origin, dir);
        assert(s.drop_last().len() == s.len() - 1);
        assert((s.len() as int - 1) * 0x4000_0000_0000_0000 + 0x4000_0000_0000_0000 == (s.len() as int)
            * 0x4000_0000_0000_0000) by (nonlinear_arith);
    }
}

/// The solid-angle density an object assigns to sampling `dir` from
/// `origin` toward itself.  Rectangles use area sampling; aggregates
/// average their members; everything else reports density zero, the
/// protocol's default.
pub open spec fn pdf_value_spec(o: Object, origin: Point3, dir: Vec3) -> int
    decreases o, 0int, 0int,
{
    let ray = Ray { orig: origin, dir: dir, time: 0i64 };
    match o {
        Object::XyRect(s) => match xy_hit_spec(
            s,
            ray,
            crate::constants::EPSILON as int,
            crate::constants::INFINITY as int,
        ) {
            None => 0,
            Some(h) => rect_pdf_from_hit_spec(
                h.t as int,
                dir,
                h.normal,
                mul_fx(s.x1 - s.x0, s.y1 - s.y0),
            ),
        },
        Object::XzRect(s) => match xz_hit_spec(
            s,
            ray,
            crate::constants::EPSILON as int,
            crate::constants::INFINITY as int,
        ) {
            None => 0,
            Some(h) => rect_pdf_from_hit_spec(
                h.t as int,
                dir,
                h.normal,
                mul_fx(s.x1 - s.x0, s.z1 - s.z0),
            ),
        },
        Object::YzRect(s) => match yz_hit_spec(
            s,
            ray,
            crate::constants::EPSILON as int,
            crate::constants::INFINITY as int,
        ) {
            None => 0,
            Some(h) => rect_pdf_from_hit_spec(
                h.t as int,
                dir,
                h.normal,
                mul_fx(s.y1 - s.y0, s.z1 - s.z0),
            ),
        },
        Object::List(l) => if l.objects@.len() == 0 {
            0
        } else {
            pdf_sum_spec(l.objects@, origin, dir) / (l.objects@.len() as int)
        },
        _ => 0,
    }
}

/// The sum of the members' densities.
pub open spec fn pdf_sum_spec(s: Seq<Object>, origin: Point3, dir: Vec3) -> int
    decreases s, s.len(), 1int,
{
    if s.len() == 0 {
        0
    } else {
        pdf_sum_spec(s.drop_last(), origin, dir) + pdf_value_spec(s.last(), origin, dir)
    }
}

/// The rectangle density is never negative.
pub proof fn lemma_rect_pdf_nonneg(t: int, dir: Vec3, normal: Vec3, area: int)
    ensures
        rect_pdf_from_hit_spec(t, dir, normal, area) >= 0,
{
    if sabs(t) <= 0x4000_0000 && bounded(dir, 0x100_0000) && 0 < area <= 0x100_0000_0000 {
        let t2 = mul_fx(t, t);
        let d2 = dot_fx(dir, dir);
        if 0 <= t2 <= 0x4_0000_0000 && 0 < d2 <= 0x4_0000_0000 {
            let dsq = mul_fx(t2, d2);
            let len = sqrt_floor(d2 * 1000);
            let cosr = sabs(dot_fx(dir, normal));
            if 0 <= dsq <= 0x10_0000_0000_0000 && 0 < len && cosr <= 0x10_0000_0000_0000 {
                let cos = div_fx(cosr, len);
                if 0 < cos <= 2000 {
                    let denom = mul_fx(cos, area);
                    if denom > 0 {
                        crate::fixed::lemma_div_fx_nonneg(dsq, denom);
                    }
                }
            }
        }
    }
}

/// Densities are never negative.
pub proof fn lemma_pdf_value_nonneg(o: Object, origin: Point3, dir: Vec3)
    ensures
        pdf_value_spec(o, origin, dir) >= 0,
    decreases o, 0int, 0int,
{
    match o {
        Object::List(l) => {
            lemma_pdf_sum_nonneg(l.objects@, origin, dir);
            if l.objects@.len() > 0 {
                vstd::arithmetic::div_mod::lemma_div_pos_is_pos(
                    pdf_sum_spec(l.objects@, origin, dir),
                    l.objects@.len() as int,
                );
            }
        },
        Object::XyRect(s2) => {
            let ray = Ray { orig: origin, dir: dir, time: 0i64 };
            match xy_hit_spec(s2, ray, crate::constants::EPSILON as int, crate::constants::INFINITY as int) {
                None => {},
                Some(h) => {
                    lemma_rect_pdf_nonneg(h.t as int, dir, h.normal, mul_fx(s2.x1 - s2.x0, s2.y1 - s2.y0));
                },
            }
        },
        Object::XzRect(s2) => {
            let ray = Ray { orig: origin, dir: dir, time: 0i64 };
            match xz_hit_spec(s2, ray, crate::constants::EPSILON as int, crate::constants::INFINITY as int) {
                None => {},
                Some(h) => {
                    lemma_rect_pdf_nonneg(h.t as int, dir, h.normal, mul_fx(s2.x1 - s2.x0, s2.z1 - s2.z0));
                },
            }
        },
        Object::YzRect(s2) => {
            let ray = Ray { orig: origin, dir: dir, time: 0i64 };
            match yz_hit_spec(s2, ray, crate::constants::EPSILON as int, crate::constants::INFINITY as int) {
                None => {},
                Some(h) => {
                    lemma_rect_pdf_nonneg(h.t as int, dir, h.normal, mul_fx(s2.y1 - s2.y0, s2.z1 - s2.z0));
                },
            }
        },
        _ => {},
    }
}

/// Sums of densities are never negative.
pub proof fn lemma_pdf_sum_nonneg(s: Seq<Object>, origin: Point3, dir: Vec3)
    ensures
        pdf_sum_spec(s, origin, dir) >= 0,
    decreases s, s.len(), 1int,
{
    if s.len() > 0 {
        lemma_pdf_sum_nonneg(s.drop_last(), origin, dir);
        lemma_pdf_value_nonneg(s.last(), origin, dir);
    }
}

impl Object {
    /// The closest valid hit of the ray within `[t_min, t_max]`, or
    /// nothing.
    pub fn intersect(&self, rng: &mut RandState, r: &Ray, t_min: i64, t_max: i64) -> (res: Option<
        HitRecord,
    >)
        requires
            obj_wf(*self),
            ray_ok(*r),
        ensures
            deterministic(*self) ==> res == spec_intersect(*self, *r, t_min as int, t_max as int),
            hit_props(res, *r, t_min as int, t_max as int),
        decreases *self, 1int,
    {
        match self {
            Object::Sphere(s) => s.intersect(rng, r, t_min, t_max),
            Object::XyRect(s) => s.intersect(rng, r, t_min, t_max),
            Object::XzRect(s) => s.intersect(rng, r, t_min, t_max),
            Object::YzRect(s) => s.intersect(rng, r, t_min, t_max),
            Object::List(l) => l.intersect(rng, r, t_min, t_max),
            Object::Prism(p) => p.intersect(rng, r, t_min, t_max),
            Object::Affine(a) => a.intersect(rng, r, t_min, t_max),
            Object::Medium(m) => m.intersect(rng, r, t_min, t_max),
            Object::Bvh(n) => n.intersect(rng, r, t_min, t_max),
        }
    }

    /// A box enclosing the object over the time interval, or nothing
    /// for an unbounded or empty object.  Rectangles pad their plane
    /// axis by one thousandth; a transformed child is reported as
    /// unbounded rather than as a possibly wrong box.
    pub fn bounding_box(&self, time: (i64, i64)) -> (b: Option<crate::aabb::AABB>)
        ensures
            b == spec_bounding_box(*self),
        decreases *self, 1int,
    {
        match self {
            Object::Sphere(s) => s.bounding_box(time),
            Object::XyRect(s) => {
                if s.k == i64::MIN || s.k == i64::MAX {
                    return None;
                }
                Some(
                    crate::aabb::AABB {
                        min: Vec3 { x: s.x0, y: s.y0, z: s.k - 1 },
                        max: Vec3 { x: s.x1, y: s.y1, z: s.k + 1 },
                    },
                )
            },
            Object::XzRect(s) => {
                if s.k == i64::MIN || s.k == i64::MAX {
                    return None;
                }
                Some(
                    crate::aabb::AABB {
                        min: Vec3 { x: s.x0, y: s.k - 1, z: s.z0 },
                        max: Vec3 { x: s.x1, y: s.k + 1, z: s.z1 },
                    },
                )
            },
            Object::YzRect(s) => {
                if s.k == i64::MIN || s.k == i64::MAX {
                    return None;
                }
                Some(
                    crate::aabb::AABB {
                        min: Vec3 { x: s.k - 1, y: s.y0, z: s.z0 },
                        max: Vec3 { x: s.k + 1, y: s.y1, z: s.z1 },
                    },
                )
            },
            Object::Prism(p) => p.bounding_box(time),
            Object::Bvh(n) => n.bounding_box(time),
            Object::Medium(m) => {
                proof {
                    assert(decreases_to!(*self => *m));
                    assert(decreases_to!(*m => *m.boundary));
                }
                m.boundary.bounding_box(time)
            },
            Object::List(l) => {
                let n = l.objects.len();
                let mut acc: Option<crate::aabb::AABB> = None;
                let mut i: usize = 0;
                while i < n
                    invariant
                        n == l.objects@.len(),
                        0 <= i <= n,
                        *self == Object::List(*l),
                        acc == spec_box_seq(l.objects@.take(i as int)),
                    decreases n - i,
                {
                    proof {
                        assert(decreases_to!(l.objects => l.objects@[i as int]));
                        assert(l.objects@.take(i as int + 1).drop_last() =~= l.objects@.take(
                            i as int,
                        ));
                        assert(l.objects@.take(i as int + 1).last() == l.objects@[i as int]);
                    }
                    let child = &l.objects[i];
                    let cb = child.bounding_box(time);
                    acc = match (acc, cb) {
                        (None, Some(b)) => {
                            if i == 0 {
                                Some(b)
                            } else {
                                // an earlier child was unbounded
                                proof {
                                    lemma_box_seq_none_prefix(l.objects@, i as int);
                                }
                                return None;
                            }
                        },
                        (Some(a), Some(b)) => Some(a.surrounding(&b)),
                        (_, None) => {
                            proof {
                                assert(spec_box_seq(l.objects@.take(i as int + 1)) is None);
                                lemma_box_seq_none_prefix(l.objects@, i as int + 1);
                            }
                            return None;
                        },
                    };
                    i = i + 1;
                }
                proof {
                    assert(l.objects@.take(n as int) =~= l.objects@);
                }
                acc
            },
            Object::Affine(a) => None,
        }
    }

    /// A direction from `origin` toward a point drawn uniformly on the
    /// object's surface; aggregates delegate to a member drawn uniformly.
    /// Objects that do not support light sampling yield the protocol's
    /// default axis direction.
    pub fn random_toward(&self, rng: &mut RandState, origin: &Point3) -> (d: Vec3)
        requires
            obj_wf(*self),
            bounded(*origin, 0x5000_0000_0000_0000),
        ensures
            bounded(d, 0x5100_0000_0000_0000),
            *self matches Object::XyRect(s) ==> s.x0 <= origin.x + d.x <= s.x1 && s.y0 <= origin.y
                + d.y <= s.y1 && origin.z + d.z == s.k,
            *self matches Object::XzRect(s) ==> s.x0 <= origin.x + d.x <= s.x1 && s.z0 <= origin.z
                + d.z <= s.z1 && origin.y + d.y == s.k,
            *self matches Object::YzRect(s) ==> s.y0 <= origin.y + d.y <= s.y1 && s.z0 <= origin.z
                + d.z <= s.z1 && origin.x + d.x == s.k,
        decreases *self, 2int,
    {
        match self {
            Object::XyRect(s) => {
                let ua = next_milli(rng);
                let ub = next_milli(rng);
                proof {
                    lemma_unit_fraction(ua as int, (s.x1 - s.x0) as int);
                    lemma_unit_fraction(ub as int, (s.y1 - s.y0) as int);
                }
                let px: i64 = s.x0 + fx_mul(ua, s.x1 - s.x0);
                let py: i64 = s.y0 + fx_mul(ub, s.y1 - s.y0);
                Vec3 { x: px - origin.x, y: py - origin.y, z: s.k - origin.z }
            },
            Object::XzRect(s) => {
                let ua = next_milli(rng);
                let ub = next_milli(rng);
                proof {
                    lemma_unit_fraction(ua as int, (s.x1 - s.x0) as int);
                    lemma_unit_fraction(ub as int, (s.z1 - s.z0) as int);
                }
                let px: i64 = s.x0 + fx_mul(ua, s.x1 - s.x0);
                let pz: i64 = s.z0 + fx_mul(ub, s.z1 - s.z0);
                Vec3 { x: px - origin.x, y: s.k - origin.y, z: pz - origin.z }
            },
            Object::YzRect(s) => {
                let ua = next_milli(rng);
                let ub = next_milli(rng);
                proof {
                    lemma_unit_fraction(ua as int, (s.y1 - s.y0) as int);
                    lemma_unit_fraction(ub as int, (s.z1 - s.z0) as int);
                }
                let py: i64 = s.y0 + fx_mul(ua, s.y1 - s.y0);
                let pz: i64 = s.z0 + fx_mul(ub, s.z1 - s.z0);
                Vec3 { x: s.k - origin.x, y: py - origin.y, z: pz - origin.z }
            },
            Object::List(l) => {
                let n = l.objects.len();
                if n == 0 {
                    Vec3 { x: 1000, y: 0, z: 0 }
                } else {
                    let i = next_index(rng, n);
                    proof {
                        assert(decreases_to!(*self => *l));
                        assert(decreases_to!(*l => l.objects));
                        assert(decreases_to!(l.objects => l.objects@[i as int]));
                    }
                    let child = &l.objects[i];
                    child.random_toward(rng, origin)
                }
            },
            _ => Vec3 { x: 1000, y: 0, z: 0 },
        }
    }

    /// The solid-angle density the object assigns to sampling `dir`
    /// toward itself from `origin`.
    #[verifier::loop_isolation(false)]
    pub fn pdf_value(&self, rng: &mut RandState, origin: &Point3, dir: &Vec3) -> (r: i64)
        requires
            obj_wf(*self),
            bounded(*origin, crate::ray::RAY_MAX as int),
            bounded(*dir, crate::ray::RAY_MAX as int),
        ensures
            r as int == pdf_value_spec(*self, *origin, *dir),
            0 <= r <= 0x4000_0000_0000_0000,
        decreases *self, 2int,
    {
        proof {
            lemma_pdf_value_bounds(*self, *origin, *dir);
        }
        let ray = Ray { orig: *origin, dir: *dir, time: 0 };
        match self {
            Object::XyRect(s) => {
                proof {
                    crate::fixed::lemma_mul_bound((s.x1 - s.x0) as int, (s.y1 - s.y0) as int, 0x8000_0000, 0x8000_0000);
                }
                match s.intersect(rng, &ray, crate::constants::EPSILON, crate::constants::INFINITY) {
                    None => 0,
                    Some(h) => rect_pdf_from_hit(h.t, dir, &h.normal, fx_mul(s.x1 - s.x0, s.y1 - s.y0)),
                }
            },
            Object::XzRect(s) => {
                proof {
                    crate::fixed::lemma_mul_bound((s.x1 - s.x0) as int, (s.z1 - s.z0) as int, 0x8000_0000, 0x8000_0000);
                }
                match s.intersect(rng, &ray, crate::constants::EPSILON, crate::constants::INFINITY) {
                    None => 0,
                    Some(h) => rect_pdf_from_hit(h.t, dir, &h.normal, fx_mul(s.x1 - s.x0, s.z1 - s.z0)),
                }
            },
            Object::YzRect(s) => {
                proof {
                    crate::fixed::lemma_mul_bound((s.y1 - s.y0) as int, (s.z1 - s.z0) as int, 0x8000_0000, 0x8000_0000);
                }
                match s.intersect(rng, &ray, crate::constants::EPSILON, crate::constants::INFINITY) {
                    None => 0,
                    Some(h) => rect_pdf_from_hit(h.t, dir, &h.normal, fx_mul(s.y1 - s.y0, s.z1 - s.z0)),
                }
            },
            Object::List(l) => {
                let n = l.objects.len();
                if n == 0 {
                    return 0;
                }
                let mut sum: u128 = 0;
                let mut i: usize = 0;
                while i < n
                    invariant
                        n == l.objects@.len(),
                        0 <= i <= n,
                        *self == Object::List(*l),
                        forall|j: int|
                            0 <= j < l.objects@.len() ==> obj_wf(#[trigger] l.objects@[j]),
                        bounded(*origin, crate::ray::RAY_MAX as int),
                        bounded(*dir, crate::ray::RAY_MAX as int),
                        n > 0,
                        sum as int == pdf_sum_spec(l.objects@.take(i as int), *origin, *dir),
                        sum as int <= (i as int) * 0x4000_0000_0000_0000,
                    decreases n - i,
                {
                    proof {
                        assert(decreases_to!(l.objects => l.objects@[i as int]));
                        assert(obj_wf(l.objects@[i as int]));
                    }
                    let child = &l.objects[i];
                    let v = child.pdf_value(rng, origin, dir);
                    proof {
                        assert(l.objects@.take(i as int + 1).drop_last() =~= l.objects@.take(i as int));
                        assert(l.objects@.take(i as int + 1).last() == l.objects@[i as int]);
                    }
                    sum = sum + (v as u128);
                    i = i + 1;
                }
                proof {
                    assert(l.objects@.take(n as int) =~= l.objects@);
                    vstd::arithmetic::div_mod::lemma_div_pos_is_pos(sum as int, n as int);
                    vstd::arithmetic::div_mod::lemma_div_is_ordered(
                        sum as int,
                        (n as int) * 0x4000_0000_0000_0000,
                        n as int,
                    );
                    vstd::arithmetic::div_mod::lemma_div_multiples_vanish(
                        0x4000_0000_0000_0000,
                        n as int,
                    );
                }
                (sum / (n as u128)) as i64
            },
            _ => 0,
        }
    }
}

} // verus!
