//! Three-by-three fixed-point matrices for the affine transform wrapper.

use vstd::prelude::*;
use crate::vec3::Vec3;
use crate::fixed::{sabs, mul_fx, fx_mul};

verus! {

/// Greatest magnitude allowed for a matrix entry.
pub const MAT_MAX: i64 = 0x8000_0000;

/// A row-major three-by-three matrix of fixed-point scalars.
#[derive(Clone, Copy, PartialEq, Eq, Structural, Debug)]
pub struct Mat3 {
    pub e00: i64,
    pub e01: i64,
    pub e02: i64,
    pub e10: i64,
    pub e11: i64,
    pub e12: i64,
    pub e20: i64,
    pub e21: i64,
    pub e22: i64,
}

/// Every entry's magnitude is at most `b`.
pub open spec fn mat_bounded(m: Mat3, b: int) -> bool {
    &&& sabs(m.e00 as int) <= b
    &&& sabs(m.e01 as int) <= b
    &&& sabs(m.e02 as int) <= b
    &&& sabs(m.e10 as int) <= b
    &&& sabs(m.e11 as int) <= b
    &&& sabs(m.e12 as int) <= b
    &&& sabs(m.e20 as int) <= b
    &&& sabs(m.e21 as int) <= b
    &&& sabs(m.e22 as int) <= b
}

/// The identity matrix.
pub open spec fn mat_identity() -> Mat3 {
    Mat3 {
        e00: 1000i64,
        e01: 0i64,
        e02: 0i64,
        e10: 0i64,
        e11: 1000i64,
        e12: 0i64,
        e20: 0i64,
        e21: 0i64,
        e22: 1000i64,
    }
}

/// The rotation about the `y` axis with the given cosine and sine.
pub open spec fn rot_y_spec(c: int, s: int) -> Mat3 {
    Mat3 {
        e00: c as i64,
        e01: 0i64,
        e02: s as i64,
        e10: 0i64,
        e11: 1000i64,
        e12: 0i64,
        e20: (-s) as i64,
        e21: 0i64,
        e22: c as i64,
    }
}

/// The transpose.
pub open spec fn mat_transpose_spec(m: Mat3) -> Mat3 {
    Mat3 {
        e00: m.e00,
        e01: m.e10,
        e02: m.e20,
        e10: m.e01,
        e11: m.e11,
        e12: m.e21,
        e20: m.e02,
        e21: m.e12,
        e22: m.e22,
    }
}

/// One entry of a fixed-point matrix product row-times-column.
pub open spec fn dot3(a0: int, a1: int, a2: int, b0: int, b1: int, b2: int) -> int {
    mul_fx(a0, b0) + mul_fx(a1, b1) + mul_fx(a2, b2)
}

/// The fixed-point matrix product.
pub open spec fn mat_mul_spec(a: Mat3, b: Mat3) -> Mat3 {
    Mat3 {
        e00: dot3(a.e00 as int, a.e01 as int, a.e02 as int, b.e00 as int, b.e10 as int, b.e20 as int) as i64,
        e01: dot3(a.e00 as int, a.e01 as int, a.e02 as int, b.e01 as int, b.e11 as int, b.e21 as int) as i64,
        e02: dot3(a.e00 as int, a.e01 as int, a.e02 as int, b.e02 as int, b.e12 as int, b.e22 as int) as i64,
        e10: dot3(a.e10 as int, a.e11 as int, a.e12 as int, b.e00 as int, b.e10 as int, b.e20 as int) as i64,
        e11: dot3(a.e10 as int, a.e11 as int, a.e12 as int, b.e01 as int, b.e11 as int, b.e21 as int) as i64,
        e12: dot3(a.e10 as int, a.e11 as int, a.e12 as int, b.e02 as int, b.e12 as int, b.e22 as int) as i64,
        e20: dot3(a.e20 as int, a.e21 as int, a.e22 as int, b.e00 as int, b.e10 as int, b.e20 as int) as i64,
        e21: dot3(a.e20 as int, a.e21 as int, a.e22 as int, b.e01 as int, b.e11 as int, b.e21 as int) as i64,
        e22: dot3(a.e20 as int, a.e21 as int, a.e22 as int, b.e02 as int, b.e12 as int, b.e22 as int) as i64,
    }
}

/// The fixed-point matrix-vector product.
pub open spec fn mat_vec_spec(m: Mat3, v: Vec3) -> Vec3 {
    Vec3 {
        x: dot3(m.e00 as int, m.e01 as int, m.e02 as int, v.x as int, v.y as int, v.z as int) as i64,
        y: dot3(m.e10 as int, m.e11 as int, m.e12 as int, v.x as int, v.y as int, v.z as int) as i64,
        z: dot3(m.e20 as int, m.e21 as int, m.e22 as int, v.x as int, v.y as int, v.z as int) as i64,
    }
}

/// Multiplying by one or by zero in fixed point is exact.
pub proof fn lemma_mul_fx_units(x: int)
    ensures
        mul_fx(x, 1000) == x,
        mul_fx(1000, x) == x,
        mul_fx(x, 0) == 0,
        mul_fx(0, x) == 0,
{
    if x >= 0 {
        vstd::arithmetic::div_mod::lemma_div_multiples_vanish(x, 1000);
        assert(x * 1000 == 1000 * x) by (nonlinear_arith);
        assert(sabs(x * 1000) == 1000 * x);
    } else {
        vstd::arithmetic::div_mod::lemma_div_multiples_vanish(-x, 1000);
        assert(x * 1000 == -(1000 * (-x)) && 1000 * x == -(1000 * (-x))) by (nonlinear_arith);
        assert(sabs(x * 1000) == 1000 * (-x));
    }
    assert(x * 0 == 0) by (nonlinear_arith);
    assert(0 * x == 0) by (nonlinear_arith);
}

/// The identity is a unit of the fixed-point matrix product.
pub proof fn lemma_mat_identity_units(a: Mat3)
    ensures
        mat_mul_spec(a, mat_identity()) == a,
        mat_mul_spec(mat_identity(), a) == a,
{
    lemma_mul_fx_units(a.e00 as int);
    lemma_mul_fx_units(a.e01 as int);
    lemma_mul_fx_units(a.e02 as int);
    lemma_mul_fx_units(a.e10 as int);
    lemma_mul_fx_units(a.e11 as int);
    lemma_mul_fx_units(a.e12 as int);
    lemma_mul_fx_units(a.e20 as int);
    lemma_mul_fx_units(a.e21 as int);
    lemma_mul_fx_units(a.e22 as int);
    lemma_mul_fx_units(0);
    assert(mat_mul_spec(a, mat_identity()) == a);
    assert(mat_mul_spec(mat_identity(), a) == a);
}

/// One row-times-column entry, executably.
fn row_dot(a0: i64, a1: i64, a2: i64, b0: i64, b1: i64, b2: i64) -> (r: i64)
    requires
        sabs(a0 as int) <= MAT_MAX as int,
        sabs(a1 as int) <= MAT_MAX as int,
        sabs(a2 as int) <= MAT_MAX as int,
        sabs(b0 as int) <= 0x100_0000_0000,
        sabs(b1 as int) <= 0x100_0000_0000,
        sabs(b2 as int) <= 0x100_0000_0000,
    ensures
        r as int == dot3(a0 as int, a1 as int, a2 as int, b0 as int, b1 as int, b2 as int),
        sabs(r as int) <= 0x6400_0000_0000_0000,
{
    proof {
        crate::fixed::lemma_mul_bound(a0 as int, b0 as int, MAT_MAX as int, 0x100_0000_0000);
        crate::fixed::lemma_mul_bound(a1 as int, b1 as int, MAT_MAX as int, 0x100_0000_0000);
        crate::fixed::lemma_mul_bound(a2 as int, b2 as int, MAT_MAX as int, 0x100_0000_0000);
    }
    let t0: i64 = fx_mul(a0, b0);
    let t1: i64 = fx_mul(a1, b1);
    let t2: i64 = fx_mul(a2, b2);
    t0 + t1 + t2
}

impl Mat3 {
    /// The identity.
    pub fn identity() -> (m: Mat3)
        ensures
            m == mat_identity(),
            mat_bounded(m, 1000),
    {
        Mat3 { e00: 1000, e01: 0, e02: 0, e10: 0, e11: 1000, e12: 0, e20: 0, e21: 0, e22: 1000 }
    }

    /// Fixed-point matrix product; operand entries must be within the
    /// vector bound so each entry of the result fits.
    pub fn mul_mat(&self, o: &Mat3) -> (r: Mat3)
        requires
            mat_bounded(*self, MAT_MAX as int),
            mat_bounded(*o, MAT_MAX as int),
        ensures
            r == mat_mul_spec(*self, *o),
    {
        Mat3 {
            e00: row_dot(self.e00, self.e01, self.e02, o.e00, o.e10, o.e20),
            e01: row_dot(self.e00, self.e01, self.e02, o.e01, o.e11, o.e21),
            e02: row_dot(self.e00, self.e01, self.e02, o.e02, o.e12, o.e22),
            e10: row_dot(self.e10, self.e11, self.e12, o.e00, o.e10, o.e20),
            e11: row_dot(self.e10, self.e11, self.e12, o.e01, o.e11, o.e21),
            e12: row_dot(self.e10, self.e11, self.e12, o.e02, o.e12, o.e22),
            e20: row_dot(self.e20, self.e21, self.e22, o.e00, o.e10, o.e20),
            e21: row_dot(self.e20, self.e21, self.e22, o.e01, o.e11, o.e21),
            e22: row_dot(self.e20, self.e21, self.e22, o.e02, o.e12, o.e22),
        }
    }

    /// Fixed-point matrix-vector product.
    pub fn mul_vec(&self, v: &Vec3) -> (r: Vec3)
        requires
            mat_bounded(*self, MAT_MAX as int),
            crate::vec3::bounded(*v, 0x100_0000_0000),
        ensures
            r == mat_vec_spec(*self, *v),
            crate::vec3::bounded(r, 0x6400_0000_0000_0000),
    {
        Vec3 {
            x: row_dot(self.e00, self.e01, self.e02, v.x, v.y, v.z),
            y: row_dot(self.e10, self.e11, self.e12, v.x, v.y, v.z),
            z: row_dot(self.e20, self.e21, self.e22, v.x, v.y, v.z),
        }
    }

    /// The transpose.
    pub fn transpose(&self) -> (r: Mat3)
        ensures
            r == mat_transpose_spec(*self),
    {
        Mat3 {
            e00: self.e00,
            e01: self.e10,
            e02: self.e20,
            e10: self.e01,
            e11: self.e11,
            e12: self.e21,
            e20: self.e02,
            e21: self.e12,
            e22: self.e22,
        }
    }
}

} // verus!
