//! An unordered aggregate of objects with linear nearest-hit resolution.

use vstd::prelude::*;
use crate::ray::{Ray, ray_ok};
use crate::hittables::HitRecord;
use crate::object::{Object, obj_wf, deterministic, spec_intersect, hit_seq_spec, hit_props};
use crate::random::RandState;

verus! {

broadcast use vstd::std_specs::vec::group_vec_axioms;

/// A list of objects, scanned in order.
pub struct HittableList {
    pub objects: Vec<Object>,
}

/// Every member of the list is well formed.
pub open spec fn list_wf(l: HittableList) -> bool {
    forall|i: int| 0 <= i < l.objects@.len() ==> obj_wf(#[trigger] l.objects@[i])
}

impl HittableList {
    /// An empty aggregate.
    pub fn new() -> (l: HittableList)
        ensures
            l.objects@ =~= Seq::<Object>::empty(),
            list_wf(l),
    {
        HittableList { objects: Vec::new() }
    }

    /// Append a child.
    pub fn add(&mut self, o: Object)
        ensures
            final(self).objects@ =~= old(self).objects@.push(o),
    {
        self.objects.push(o);
    }

    /// Scan all children, narrowing the query interval to the closest hit
    /// found so far; the classic nearest-hit reduction.
    pub fn intersect(&self, rng: &mut RandState, r: &Ray, t_min: i64, t_max: i64) -> (res: Option<
        HitRecord,
    >)
        requires
            list_wf(*self),
            ray_ok(*r),
        ensures
            (forall|k: int| 0 <= k < self.objects@.len() ==> deterministic(
                #[trigger] self.objects@[k],
            )) ==> res == hit_seq_spec(self.objects@, *r, t_min as int, t_max as int),
            hit_props(res, *r, t_min as int, t_max as int),
        decreases *self, 0int,
    {
        let mut res: Option<HitRecord> = None;
        let mut closest: i64 = t_max;
        let n: usize = self.objects.len();
        let mut i: usize = 0;
        while i < n
            invariant
                n == self.objects@.len(),
                0 <= i <= n,
                list_wf(*self),
                ray_ok(*r),
                (forall|k: int| 0 <= k < self.objects@.len() ==> deterministic(
                    #[trigger] self.objects@[k],
                )) ==> res == hit_seq_spec(self.objects@.take(i as int), *r, t_min as int, t_max as int),
                hit_props(res, *r, t_min as int, t_max as int),
                closest as int == match res {
                    Some(h) => h.t as int,
                    None => t_max as int,
                },
            decreases n - i,
        {
            proof {
                assert(decreases_to!(*self => self.objects));
                assert(decreases_to!(self.objects => self.objects@[i as int]));
            }
            let child = &self.objects[i];
            let hit = child.intersect(rng, r, t_min, closest);
            proof {
                assert(self.objects@.take(i as int + 1).drop_last() =~= self.objects@.take(
                    i as int,
                ));
                assert(self.objects@.take(i as int + 1).last() == self.objects@[i as int]);
            }
            match hit {
                Some(h) => {
                    closest = h.t;
                    res = Some(h);
                },
                None => {},
            }
            i = i + 1;
        }
        proof {
            assert(self.objects@.take(n as int) =~= self.objects@);
        }
        res
    }
}

} // verus!
