//! Shared numeric limits of the tracer.

use vstd::prelude::*;

verus! {

/// Lower bound of every continuation-ray query interval, avoiding
/// self-intersection at the origin of the ray.
pub const EPSILON: i64 = 1;

/// Stands in for an unbounded upper query parameter.
pub const INFINITY: i64 = 0x7fff_ffff_ffff_ffff;

/// Stands in for an unbounded lower query parameter.
pub const NEG_INFINITY: i64 = -0x7fff_ffff_ffff_ffff;

/// Greatest magnitude of any scene coordinate.
pub const GEO_MAX: i64 = 0x4000_0000;

/// Greatest magnitude of a surface-normal component, even after an
/// affine transform.
pub const NORM_MAX: i64 = 0x1_0000_0000;

} // verus!
