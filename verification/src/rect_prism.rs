//! A rectangular prism: an aggregate of its six rectangular faces.

use vstd::prelude::*;
use crate::vec3::Vec3;
use crate::point3::Point3;
use crate::ray::{Ray, ray_ok};
use crate::aabb::AABB;
use crate::aa_rectangles::{XyRectangle, XzRectangle, YzRectangle, extent_ok};
use crate::fixed::sabs;
use crate::constants::GEO_MAX;
use crate::materials::{Material, material_ok};
use crate::hittables::HitRecord;
use crate::hittable_list::HittableList;
use crate::object::{Object, obj_wf, deterministic, spec_intersect, hit_seq_spec, hit_props};
use crate::vec3::dot_fx;
use crate::random::RandState;

verus! {

/// A prism spanning the two corner points.
pub struct RectangularPrism {
    pub min: Point3,
    pub max: Point3,
    pub sides: HittableList,
}

/// Every face of the prism is well formed.
pub open spec fn prism_wf(p: RectangularPrism) -> bool {
    forall|i: int| 0 <= i < p.sides.objects@.len() ==> obj_wf(#[trigger] p.sides.objects@[i])
}

/// The six faces of the prism with corners `p0`, `p1`, in construction
/// order: the two `z` planes, the two `y` planes, the two `x` planes.
pub open spec fn prism_sides_spec(p0: Point3, p1: Point3, material: Material) -> Seq<Object> {
    seq![
        Object::XyRect(
            (XyRectangle { x0: p0.x, x1: p1.x, y0: p0.y, y1: p1.y, k: p1.z, material }),
        ),
        Object::XyRect(
            (XyRectangle { x0: p0.x, x1: p1.x, y0: p0.y, y1: p1.y, k: p0.z, material }),
        ),
        Object::XzRect(
            (XzRectangle { x0: p0.x, x1: p1.x, z0: p0.z, z1: p1.z, k: p1.y, material }),
        ),
        Object::XzRect(
            (XzRectangle { x0: p0.x, x1: p1.x, z0: p0.z, z1: p1.z, k: p0.y, material }),
        ),
        Object::YzRect(
            (YzRectangle { y0: p0.y, y1: p1.y, z0: p0.z, z1: p1.z, k: p1.x, material }),
        ),
        Object::YzRect(
            (YzRectangle { y0: p0.y, y1: p1.y, z0: p0.z, z1: p1.z, k: p0.x, material }),
        ),
    ]
}

/// Whether an object is an axis-aligned rectangle carrying the given
/// material.
pub open spec fn rect_face_of(o: Object, material: Material) -> bool {
    match o {
        Object::XyRect(s) => s.material == material,
        Object::XzRect(s) => s.material == material,
        Object::YzRect(s) => s.material == material,
        _ => false,
    }
}

/// A nearest-hit scan over axis-aligned faces of one material reports
/// that material and a unit axis normal.
pub proof fn lemma_hit_seq_rect_faces(
    s: Seq<Object>,
    material: Material,
    r: Ray,
    tmin: int,
    tmax: int,
)
    requires
        forall|i: int| 0 <= i < s.len() ==> rect_face_of(#[trigger] s[i], material),
    ensures
        hit_seq_spec(s, r, tmin, tmax) matches Some(h) ==> {
            &&& h.material == material
            &&& (h.normal == (Vec3 { x: 0i64, y: 0i64, z: 1000i64 }) || h.normal == (Vec3 {
                x: 0i64,
                y: 0i64,
                z: -1000i64,
            }) || h.normal == (Vec3 { x: 0i64, y: 1000i64, z: 0i64 }) || h.normal == (Vec3 {
                x: 0i64,
                y: -1000i64,
                z: 0i64,
            }) || h.normal == (Vec3 { x: 1000i64, y: 0i64, z: 0i64 }) || h.normal == (Vec3 {
                x: -1000i64,
                y: 0i64,
                z: 0i64,
            }))
            &&& dot_fx(h.normal, h.normal) == 1000
        },
    decreases s.len(),
{
    if s.len() > 0 {
        assert(forall|i: int|
            0 <= i < s.drop_last().len() ==> rect_face_of(#[trigger] s.drop_last()[i], material));
        lemma_hit_seq_rect_faces(s.drop_last(), material, r, tmin, tmax);
        assert(rect_face_of(s.last(), material));
        let prev = hit_seq_spec(s.drop_last(), r, tmin, tmax);
        let cur_tmax = match prev {
            Some(h) => h.t as int,
            None => tmax,
        };
        let cur = spec_intersect(s.last(), r, tmin, cur_tmax);
        assert(hit_seq_spec(s, r, tmin, tmax) == (match cur {
            Some(h) => Some(h),
            None => prev,
        }));
        crate::matrix::lemma_mul_fx_units(1000);
        crate::matrix::lemma_mul_fx_units(-1000);
        crate::matrix::lemma_mul_fx_units(0);
        crate::fixed::lemma_mul_fx_neg(-1000, 1000);
        assert(dot_fx((Vec3 { x: 0i64, y: 0i64, z: 1000i64 }), (Vec3 { x: 0i64, y: 0i64, z: 1000i64 })) == 1000);
        assert(dot_fx((Vec3 { x: 0i64, y: 0i64, z: -1000i64 }), (Vec3 { x: 0i64, y: 0i64, z: -1000i64 })) == 1000);
        assert(dot_fx((Vec3 { x: 0i64, y: 1000i64, z: 0i64 }), (Vec3 { x: 0i64, y: 1000i64, z: 0i64 })) == 1000);
        assert(dot_fx((Vec3 { x: 0i64, y: -1000i64, z: 0i64 }), (Vec3 { x: 0i64, y: -1000i64, z: 0i64 })) == 1000);
        assert(dot_fx((Vec3 { x: 1000i64, y: 0i64, z: 0i64 }), (Vec3 { x: 1000i64, y: 0i64, z: 0i64 })) == 1000);
        assert(dot_fx((Vec3 { x: -1000i64, y: 0i64, z: 0i64 }), (Vec3 { x: -1000i64, y: 0i64, z: 0i64 })) == 1000);
        match s.last() {
            Object::XyRect(rect) => {
                match crate::aa_rectangles::xy_hit_spec(rect, r, tmin, cur_tmax) {
                    Some(h) => {
                        assert(h.material == material);
                        assert(h.normal == (Vec3 { x: 0i64, y: 0i64, z: 1000i64 }) || h.normal
                            == (Vec3 { x: 0i64, y: 0i64, z: -1000i64 }));
                    },
                    None => {},
                }
            },
            Object::XzRect(rect) => {
                match crate::aa_rectangles::xz_hit_spec(rect, r, tmin, cur_tmax) {
                    Some(h) => {
                        assert(h.material == material);
                        assert(h.normal == (Vec3 { x: 0i64, y: 1000i64, z: 0i64 }) || h.normal
                            == (Vec3 { x: 0i64, y: -1000i64, z: 0i64 }));
                    },
                    None => {},
                }
            },
            Object::YzRect(rect) => {
                match crate::aa_rectangles::yz_hit_spec(rect, r, tmin, cur_tmax) {
                    Some(h) => {
                        assert(h.material == material);
                        assert(h.normal == (Vec3 { x: 1000i64, y: 0i64, z: 0i64 }) || h.normal
                            == (Vec3 { x: -1000i64, y: 0i64, z: 0i64 }));
                    },
                    None => {},
                }
            },
            _ => {},
        }
    }
}

/// Any hit of a prism assembled from its six faces carries the prism's
/// material and a unit axis normal.
pub proof fn lemma_prism_hit_normal(
    p: RectangularPrism,
    p0: Point3,
    p1: Point3,
    material: Material,
    r: Ray,
    tmin: int,
    tmax: int,
)
    requires
        p.sides.objects@ == prism_sides_spec(p0, p1, material),
    ensures
        spec_intersect(Object::Prism(p), r, tmin, tmax) matches Some(h) ==> {
            &&& h.material == material
            &&& dot_fx(h.normal, h.normal) == 1000
        },
{
    let s = prism_sides_spec(p0, p1, material);
    assert(rect_face_of(s[0], material));
    assert(rect_face_of(s[1], material));
    assert(rect_face_of(s[2], material));
    assert(rect_face_of(s[3], material));
    assert(rect_face_of(s[4], material));
    assert(rect_face_of(s[5], material));
    lemma_hit_seq_rect_faces(s, material, r, tmin, tmax);
}

impl RectangularPrism {
    /// Create a rectangular prism defined by the corners `p0`, `p1`.
    pub fn new(p0: Point3, p1: Point3, material: Material) -> (s: RectangularPrism)
        requires
            extent_ok(p0.x as int, p1.x as int),
            extent_ok(p0.y as int, p1.y as int),
            extent_ok(p0.z as int, p1.z as int),
            material_ok(material),
        ensures
            s.min == p0,
            s.max == p1,
            s.sides.objects@ =~= prism_sides_spec(p0, p1, material),
            prism_wf(s),
    {
        let mut sides = HittableList::new();

        sides.add(Object::XyRect(XyRectangle::new(p0.x, p1.x, p0.y, p1.y, p1.z, material)));
        sides.add(Object::XyRect(XyRectangle::new(p0.x, p1.x, p0.y, p1.y, p0.z, material)));

        sides.add(Object::XzRect(XzRectangle::new(p0.x, p1.x, p0.z, p1.z, p1.y, material)));
        sides.add(Object::XzRect(XzRectangle::new(p0.x, p1.x, p0.z, p1.z, p0.y, material)));

        sides.add(Object::YzRect(YzRectangle::new(p0.y, p1.y, p0.z, p1.z, p1.x, material)));
        sides.add(Object::YzRect(YzRectangle::new(p0.y, p1.y, p0.z, p1.z, p0.x, material)));

        RectangularPrism { min: p0, max: p1, sides }
    }

    /// Create the canonical prism spanning the origin and `(1, 1, 1)`.
    pub fn canonical(material: Material) -> (s: RectangularPrism)
        requires
            material_ok(material),
        ensures
            s.min == (Vec3 { x: 0i64, y: 0i64, z: 0i64 }),
            s.max == (Vec3 { x: 1000i64, y: 1000i64, z: 1000i64 }),
            s.sides.objects@ =~= prism_sides_spec(
                (Vec3 { x: 0i64, y: 0i64, z: 0i64 }),
                (Vec3 { x: 1000i64, y: 1000i64, z: 1000i64 }),
                material,
            ),
            prism_wf(s),
    {
        let p0 = Vec3::zero();
        let p1 = Vec3::from_value(1000);
        RectangularPrism::new(p0, p1, material)
    }

    /// The box spanned by the two corners, at any time.
    pub fn bounding_box(&self, time: (i64, i64)) -> (b: Option<AABB>)
        ensures
            b == Some(AABB { min: self.min, max: self.max }),
    {
        Some(AABB::new(self.min, self.max))
    }

    /// Delegate to the face aggregate.
    pub fn intersect(&self, rng: &mut RandState, r: &Ray, t_min: i64, t_max: i64) -> (res: Option<
        HitRecord,
    >)
        requires
            prism_wf(*self),
            ray_ok(*r),
        ensures
            (forall|k: int| 0 <= k < self.sides.objects@.len() ==> deterministic(
                #[trigger] self.sides.objects@[k],
            )) ==> res == hit_seq_spec(self.sides.objects@, *r, t_min as int, t_max as int),
            hit_props(res, *r, t_min as int, t_max as int),
        decreases *self, 0int,
    {
        proof {
            assert(decreases_to!(*self => self.sides));
        }
        self.sides.intersect(rng, r, t_min, t_max)
    }
}

} // verus!
