//! Axis-aligned bounding boxes, used for culling and containment only.

use vstd::prelude::*;
use crate::point3::Point3;

verus! {

/// Min and max corner points; well formed when `min <= max`
/// component-wise.
#[derive(Clone, Copy, PartialEq, Eq, Structural, Debug)]
pub struct AABB {
    pub min: Point3,
    pub max: Point3,
}

/// The smallest box enclosing both boxes.
pub open spec fn surrounding_spec(a: AABB, b: AABB) -> AABB {
    AABB {
        min: Point3 {
            x: if a.min.x <= b.min.x { a.min.x } else { b.min.x },
            y: if a.min.y <= b.min.y { a.min.y } else { b.min.y },
            z: if a.min.z <= b.min.z { a.min.z } else { b.min.z },
        },
        max: Point3 {
            x: if a.max.x >= b.max.x { a.max.x } else { b.max.x },
            y: if a.max.y >= b.max.y { a.max.y } else { b.max.y },
            z: if a.max.z >= b.max.z { a.max.z } else { b.max.z },
        },
    }
}

/// The corner ordering invariant.
pub open spec fn aabb_wf(b: AABB) -> bool {
    &&& b.min.x <= b.max.x
    &&& b.min.y <= b.max.y
    &&& b.min.z <= b.max.z
}

impl AABB {
    pub fn new(min: Point3, max: Point3) -> (b: AABB)
        ensures
            b == (AABB { min, max }),
    {
        AABB { min, max }
    }

    /// The smallest box enclosing both boxes.
    pub fn surrounding(&self, o: &AABB) -> (b: AABB)
        ensures
            b == surrounding_spec(*self, *o),
            aabb_wf(*self) && aabb_wf(*o) ==> aabb_wf(b),
    {
        let min = Point3 {
            x: if self.min.x <= o.min.x { self.min.x } else { o.min.x },
            y: if self.min.y <= o.min.y { self.min.y } else { o.min.y },
            z: if self.min.z <= o.min.z { self.min.z } else { o.min.z },
        };
        let max = Point3 {
            x: if self.max.x >= o.max.x { self.max.x } else { o.max.x },
            y: if self.max.y >= o.max.y { self.max.y } else { o.max.y },
            z: if self.max.z >= o.max.z { self.max.z } else { o.max.z },
        };
        AABB { min, max }
    }
}

} // verus!
