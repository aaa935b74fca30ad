//! Points in space are fixed-point vectors.

use vstd::prelude::*;
use crate::vec3::Vec3;

verus! {

pub type Point3 = Vec3;

} // verus!
