//! A bounding-volume tree over a set of objects: intersect descends only
//! into children whose box the ray can meet, pruning subtrees from the
//! query.

use vstd::prelude::*;
use crate::vec3::Vec3;
use crate::ray::{Ray, ray_ok};
use crate::aabb::{AABB, surrounding_spec};
use crate::fixed::{sabs, div_fx, fx_div};
use crate::hittables::HitRecord;
use crate::object::{
    Object, obj_wf, deterministic, spec_intersect, hit_props, leaves, leaves_seq,
    lemma_leaves_seq_concat,
};
use crate::random::RandState;
use crate::constants::GEO_MAX;

verus! {

broadcast use vstd::std_specs::vec::group_vec_axioms;

/// A binary tree node with two children and a cached box enclosing
/// both.
pub struct BvhNode {
    pub left: Box<Object>,
    pub right: Box<Object>,
    pub bbox: AABB,
}

/// A box small enough for the slab test's divisions.
pub open spec fn box_in_range(b: AABB) -> bool {
    &&& sabs(b.min.x as int) <= 2 * GEO_MAX
    &&& sabs(b.min.y as int) <= 2 * GEO_MAX
    &&& sabs(b.min.z as int) <= 2 * GEO_MAX
    &&& sabs(b.max.x as int) <= 2 * GEO_MAX
    &&& sabs(b.max.y as int) <= 2 * GEO_MAX
    &&& sabs(b.max.z as int) <= 2 * GEO_MAX
}

/// One axis of the slab test: narrow the query interval to the span in
/// which the ray is between the two planes, or report a miss.  A ray
/// parallel to the planes passes only if it starts between them.
pub open spec fn slab_axis_spec(mn: int, mx: int, o: int, d: int, lo: int, hi: int) -> Option<
    (int, int),
> {
    if d == 0 {
        if mn <= o <= mx {
            Some((lo, hi))
        } else {
            None
        }
    } else {
        let ta = div_fx(mn - o, d);
        let tb = div_fx(mx - o, d);
        let t0 = if ta <= tb {
            ta
        } else {
            tb
        };
        let t1 = if ta <= tb {
            tb
        } else {
            ta
        };
        let nlo = if t0 >= lo {
            t0
        } else {
            lo
        };
        let nhi = if t1 <= hi {
            t1
        } else {
            hi
        };
        if nlo < nhi {
            Some((nlo, nhi))
        } else {
            None
        }
    }
}

/// Whether the ray can meet the box inside `[lo, hi]`.
pub open spec fn slab_hit_spec(b: AABB, r: Ray, lo: int, hi: int) -> bool {
    match slab_axis_spec(b.min.x as int, b.max.x as int, r.orig.x as int, r.dir.x as int, lo, hi) {
        None => false,
        Some(ix) => match slab_axis_spec(
            b.min.y as int,
            b.max.y as int,
            r.orig.y as int,
            r.dir.y as int,
            ix.0,
            ix.1,
        ) {
            None => false,
            Some(iy) => slab_axis_spec(
                b.min.z as int,
                b.max.z as int,
                r.orig.z as int,
                r.dir.z as int,
                iy.0,
                iy.1,
            ) is Some,
        },
    }
}

/// One axis of the slab test, executably.
fn slab_axis(mn: i64, mx: i64, o: i64, d: i64, lo: i64, hi: i64) -> (res: Option<(i64, i64)>)
    requires
        sabs(mn as int) <= 2 * GEO_MAX,
        sabs(mx as int) <= 2 * GEO_MAX,
        sabs(o as int) <= crate::ray::RAY_MAX as int,
        sabs(d as int) <= crate::ray::RAY_MAX as int,
    ensures
        match res {
            Some(i) => slab_axis_spec(mn as int, mx as int, o as int, d as int, lo as int, hi as int)
                == Some((i.0 as int, i.1 as int)),
            None => slab_axis_spec(mn as int, mx as int, o as int, d as int, lo as int, hi as int)
                is None,
        },
{
    if d == 0 {
        if mn <= o && o <= mx {
            return Some((lo, hi));
        }
        return None;
    }
    let ta: i64 = fx_div(mn - o, d);
    let tb: i64 = fx_div(mx - o, d);
    let t0: i64 = if ta <= tb {
        ta
    } else {
        tb
    };
    let t1: i64 = if ta <= tb {
        tb
    } else {
        ta
    };
    let nlo: i64 = if t0 >= lo {
        t0
    } else {
        lo
    };
    let nhi: i64 = if t1 <= hi {
        t1
    } else {
        hi
    };
    if nlo < nhi {
        Some((nlo, nhi))
    } else {
        None
    }
}

/// Whether the ray can meet the box, executably.
pub fn slab_hit(b: &AABB, r: &Ray, lo: i64, hi: i64) -> (res: bool)
    requires
        box_in_range(*b),
        ray_ok(*r),
    ensures
        res == slab_hit_spec(*b, *r, lo as int, hi as int),
{
    match slab_axis(b.min.x, b.max.x, r.orig.x, r.dir.x, lo, hi) {
        None => false,
        Some(ix) => match slab_axis(b.min.y, b.max.y, r.orig.y, r.dir.y, ix.0, ix.1) {
            None => false,
            Some(iy) => slab_axis(b.min.z, b.max.z, r.orig.z, r.dir.z, iy.0, iy.1).is_some(),
        },
    }
}

/// What intersecting the node yields: nothing when the ray misses the
/// cached box, else the nearer of the two children's hits, the right
/// child queried with the interval narrowed by the left child's hit.
pub open spec fn bvh_hit_spec(n: BvhNode, r: Ray, tmin: int, tmax: int) -> Option<HitRecord>
    decreases n, 0int, 1int,
{
    if !slab_hit_spec(n.bbox, r, tmin, tmax) {
        None
    } else {
        let lh = spec_intersect(*n.left, r, tmin, tmax);
        let cur_tmax = match lh {
            Some(h) => h.t as int,
            None => tmax,
        };
        match spec_intersect(*n.right, r, tmin, cur_tmax) {
            Some(h) => Some(h),
            None => lh,
        }
    }
}

/// Build a tree over the objects, splitting each group at its median in
/// the given order.  A group whose union box cannot be formed or does
/// not fit the slab test's range falls back to a flat two-member
/// aggregate, which cannot be pruned but intersects identically.
fn build_tree(objs: Vec<Object>, time: (i64, i64)) -> (r: Object)
    requires
        objs@.len() >= 1,
        forall|i: int| 0 <= i < objs@.len() ==> obj_wf(#[trigger] objs@[i]),
    ensures
        obj_wf(r),
        (forall|i: int| 0 <= i < objs@.len() ==> deterministic(#[trigger] objs@[i]))
            ==> deterministic(r),
        leaves(r) == leaves_seq(objs@),
    decreases objs@.len(),
{
    let ghost orig = objs@;
    let mut objs = objs;
    if objs.len() == 1 {
        let o = objs.pop().unwrap();
        proof {
            assert(o == orig.last());
            assert(orig.drop_last() =~= Seq::<Object>::empty());
            assert(leaves_seq(orig.drop_last()) =~= Seq::<Object>::empty());
            assert(leaves_seq(orig) =~= leaves_seq(orig.drop_last()) + leaves(orig.last()));
            assert(Seq::<Object>::empty() + leaves(o) =~= leaves(o));
            assert(leaves_seq(orig) =~= leaves(o));
        }
        return o;
    }
    let mid: usize = objs.len() / 2;
    proof {
        vstd::arithmetic::div_mod::lemma_div_pos_is_pos(objs@.len() as int, 2);
        vstd::arithmetic::div_mod::lemma_div_is_strictly_smaller(objs@.len() as int, 2);
    }
    let right_vec = objs.split_off(mid);
    let left_vec = objs;
    proof {
        assert(forall|i: int|
            0 <= i < left_vec@.len() ==> obj_wf(#[trigger] left_vec@[i]) && left_vec@[i] == orig[i]);
        assert(forall|i: int|
            0 <= i < right_vec@.len() ==> obj_wf(#[trigger] right_vec@[i]) && right_vec@[i]
                == orig[i + mid]);
    }
    proof {
        assert(orig =~= left_vec@ + right_vec@);
        lemma_leaves_seq_concat(left_vec@, right_vec@);
    }
    let left = build_tree(left_vec, time);
    let right = build_tree(right_vec, time);
    let lb = left.bounding_box(time);
    let rb = right.bounding_box(time);
    match (lb, rb) {
        (Some(a), Some(b)) => {
            let bbox = a.surrounding(&b);
            let in_range = -2 * GEO_MAX <= bbox.min.x && bbox.min.x <= 2 * GEO_MAX && -2 * GEO_MAX
                <= bbox.min.y && bbox.min.y <= 2 * GEO_MAX && -2 * GEO_MAX <= bbox.min.z
                && bbox.min.z <= 2 * GEO_MAX && -2 * GEO_MAX <= bbox.max.x && bbox.max.x <= 2
                * GEO_MAX && -2 * GEO_MAX <= bbox.max.y && bbox.max.y <= 2 * GEO_MAX && -2
                * GEO_MAX <= bbox.max.z && bbox.max.z <= 2 * GEO_MAX;
            if in_range {
                Object::Bvh(BvhNode { left: Box::new(left), right: Box::new(right), bbox })
            } else {
                let ghost gl = left;
                let ghost gr = right;
                let mut pair = crate::hittable_list::HittableList::new();
                pair.add(left);
                pair.add(right);
                proof {
                    lemma_leaves_pair(pair.objects@, gl, gr);
                }
                Object::List(pair)
            }
        },
        _ => {
            let ghost gl = left;
            let ghost gr = right;
            let mut pair = crate::hittable_list::HittableList::new();
            pair.add(left);
            pair.add(right);
            proof {
                lemma_leaves_pair(pair.objects@, gl, gr);
            }
            Object::List(pair)
        },
    }
}

/// The content of a two-member sequence is the two members' content.
proof fn lemma_leaves_pair(s: Seq<Object>, a: Object, b: Object)
    requires
        s =~= seq![a, b],
    ensures
        leaves_seq(s) == leaves(a) + leaves(b),
{
    let one = seq![a];
    assert(s.drop_last() =~= one);
    assert(s.last() == b);
    assert(one.drop_last() =~= Seq::<Object>::empty());
    assert(one.last() == a);
    assert(leaves_seq(one.drop_last()) =~= Seq::<Object>::empty());
    assert(leaves_seq(one) =~= leaves_seq(one.drop_last()) + leaves(one.last()));
    assert(Seq::<Object>::empty() + leaves(a) =~= leaves(a));
    assert(leaves_seq(one) =~= leaves(a));
    assert(leaves_seq(s) =~= leaves_seq(s.drop_last()) + leaves(s.last()));
    assert(leaves_seq(s) =~= leaves(a) + leaves(b));
}

impl BvhNode {
    /// Build a tree once over a non-empty set of objects.
    pub fn new(objects: crate::hittable_list::HittableList, time: (i64, i64)) -> (r: Object)
        requires
            objects.objects@.len() >= 1,
            crate::hittable_list::list_wf(objects),
        ensures
            obj_wf(r),
            (forall|i: int|
                0 <= i < objects.objects@.len() ==> deterministic(
                    #[trigger] objects.objects@[i],
                )) ==> deterministic(r),
            leaves(r) == leaves_seq(objects.objects@),
    {
        build_tree(objects.objects, time)
    }

    /// The cached union box, at any time.
    pub fn bounding_box(&self, time: (i64, i64)) -> (b: Option<AABB>)
        ensures
            b == Some(self.bbox),
    {
        Some(AABB::new(self.bbox.min, self.bbox.max))
    }

    /// Intersect, descending only when the ray can meet the cached box.
    pub fn intersect(&self, rng: &mut RandState, r: &Ray, t_min: i64, t_max: i64) -> (res: Option<
        HitRecord,
    >)
        requires
            box_in_range(self.bbox),
            obj_wf(*self.left),
            obj_wf(*self.right),
            ray_ok(*r),
        ensures
            deterministic(*self.left) && deterministic(*self.right) ==> res == bvh_hit_spec(
                *self,
                *r,
                t_min as int,
                t_max as int,
            ),
            hit_props(res, *r, t_min as int, t_max as int),
        decreases *self, 0int,
    {
        if !slab_hit(&self.bbox, r, t_min, t_max) {
            return None;
        }
        proof {
            assert(decreases_to!(*self => *self.left));
            assert(decreases_to!(*self => *self.right));
        }
        let lh = self.left.intersect(rng, r, t_min, t_max);
        let cur_tmax: i64 = match &lh {
            Some(h) => h.t,
            None => t_max,
        };
        match self.right.intersect(rng, r, t_min, cur_tmax) {
            Some(h) => Some(h),
            None => lh,
        }
    }
}

} // verus!
