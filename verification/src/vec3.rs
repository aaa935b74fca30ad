//! Three-component fixed-point vectors.

use vstd::prelude::*;
use crate::fixed::{sabs, mul_fx, mul_ok, fx_mul, sqrt_fx};

verus! {

/// A vector of three fixed-point scalars (thousandths).
#[derive(Clone, Copy, PartialEq, Eq, Structural, Debug)]
pub struct Vec3 {
    pub x: i64,
    pub y: i64,
    pub z: i64,
}

/// Every component's magnitude is at most `b`.
pub open spec fn bounded(v: Vec3, b: int) -> bool {
    &&& sabs(v.x as int) <= b
    &&& sabs(v.y as int) <= b
    &&& sabs(v.z as int) <= b
}

/// Every component is non-negative.
pub open spec fn non_neg(v: Vec3) -> bool {
    v.x >= 0 && v.y >= 0 && v.z >= 0
}

/// The fixed-point dot product of two vectors.
pub open spec fn dot_fx(a: Vec3, b: Vec3) -> int {
    mul_fx(a.x as int, b.x as int) + mul_fx(a.y as int, b.y as int) + mul_fx(
        a.z as int,
        b.z as int,
    )
}

/// The operands of a dot product are small enough that it fits an `i64`.
pub open spec fn dot_ok(a: Vec3, b: Vec3) -> bool {
    &&& sabs((a.x as int) * (b.x as int)) + sabs((a.y as int) * (b.y as int)) + sabs(
        (a.z as int) * (b.z as int),
    ) <= 0x7fff_ffff_ffff_ffff * 1000
    &&& bounded(a, 0x7fff_ffff_ffff_ffff)
    &&& bounded(b, 0x7fff_ffff_ffff_ffff)
}

/// Decide whether every component's magnitude is at most `b`.
pub fn in_bounds(v: &Vec3, b: i64) -> (r: bool)
    requires
        b >= 0,
    ensures
        r == bounded(*v, b as int),
{
    -b <= v.x && v.x <= b && -b <= v.y && v.y <= b && -b <= v.z && v.z <= b
}

impl Vec3 {
    pub fn new(x: i64, y: i64, z: i64) -> (r: Vec3)
        ensures
            r == (Vec3 { x, y, z }),
    {
        Vec3 { x, y, z }
    }

    pub fn zero() -> (r: Vec3)
        ensures
            r == (Vec3 { x: 0i64, y: 0i64, z: 0i64 }),
    {
        Vec3 { x: 0, y: 0, z: 0 }
    }

    pub fn from_value(v: i64) -> (r: Vec3)
        ensures
            r == (Vec3 { x: v, y: v, z: v }),
    {
        Vec3 { x: v, y: v, z: v }
    }

    /// Component-wise sum.
    pub fn add(&self, o: &Vec3) -> (r: Vec3)
        requires
            sabs(self.x + o.x) < 0x8000_0000_0000_0000,
            sabs(self.y + o.y) < 0x8000_0000_0000_0000,
            sabs(self.z + o.z) < 0x8000_0000_0000_0000,
        ensures
            r.x as int == self.x + o.x,
            r.y as int == self.y + o.y,
            r.z as int == self.z + o.z,
    {
        Vec3 { x: self.x + o.x, y: self.y + o.y, z: self.z + o.z }
    }

    /// Component-wise difference.
    pub fn sub(&self, o: &Vec3) -> (r: Vec3)
        requires
            sabs(self.x - o.x) < 0x8000_0000_0000_0000,
            sabs(self.y - o.y) < 0x8000_0000_0000_0000,
            sabs(self.z - o.z) < 0x8000_0000_0000_0000,
        ensures
            r.x as int == self.x - o.x,
            r.y as int == self.y - o.y,
            r.z as int == self.z - o.z,
    {
        Vec3 { x: self.x - o.x, y: self.y - o.y, z: self.z - o.z }
    }

    /// Component-wise negation.
    pub fn neg(&self) -> (r: Vec3)
        requires
            self.x > i64::MIN,
            self.y > i64::MIN,
            self.z > i64::MIN,
        ensures
            r.x as int == -(self.x as int),
            r.y as int == -(self.y as int),
            r.z as int == -(self.z as int),
    {
        Vec3 { x: -self.x, y: -self.y, z: -self.z }
    }

    /// Scale by a fixed-point scalar.
    pub fn scale(&self, s: i64) -> (r: Vec3)
        requires
            mul_ok(self.x as int, s as int),
            mul_ok(self.y as int, s as int),
            mul_ok(self.z as int, s as int),
        ensures
            r.x as int == mul_fx(self.x as int, s as int),
            r.y as int == mul_fx(self.y as int, s as int),
            r.z as int == mul_fx(self.z as int, s as int),
    {
        Vec3 { x: fx_mul(self.x, s), y: fx_mul(self.y, s), z: fx_mul(self.z, s) }
    }

    /// Component-wise fixed-point product (used for colour attenuation).
    pub fn mul_comp(&self, o: &Vec3) -> (r: Vec3)
        requires
            mul_ok(self.x as int, o.x as int),
            mul_ok(self.y as int, o.y as int),
            mul_ok(self.z as int, o.z as int),
        ensures
            r.x as int == mul_fx(self.x as int, o.x as int),
            r.y as int == mul_fx(self.y as int, o.y as int),
            r.z as int == mul_fx(self.z as int, o.z as int),
    {
        Vec3 { x: fx_mul(self.x, o.x), y: fx_mul(self.y, o.y), z: fx_mul(self.z, o.z) }
    }

    /// Fixed-point dot product.
    pub fn dot(&self, o: &Vec3) -> (r: i64)
        requires
            dot_ok(*self, *o),
        ensures
            r as int == dot_fx(*self, *o),
    {
        proof {
            crate::fixed::lemma_sabs_mul(self.x as int, o.x as int);
            crate::fixed::lemma_sabs_mul(self.y as int, o.y as int);
            crate::fixed::lemma_sabs_mul(self.z as int, o.z as int);
        }
        let tx: i64 = fx_mul(self.x, o.x);
        let ty: i64 = fx_mul(self.y, o.y);
        let tz: i64 = fx_mul(self.z, o.z);
        tx + ty + tz
    }

    /// Fixed-point squared length.
    pub fn length_squared(&self) -> (r: i64)
        requires
            dot_ok(*self, *self),
        ensures
            r as int == dot_fx(*self, *self),
            r >= 0,
    {
        proof {
            crate::fixed::lemma_sabs_mul(self.x as int, self.x as int);
            crate::fixed::lemma_sabs_mul(self.y as int, self.y as int);
            crate::fixed::lemma_sabs_mul(self.z as int, self.z as int);
            crate::fixed::lemma_sq_nonneg(self.x as int);
            crate::fixed::lemma_sq_nonneg(self.y as int);
            crate::fixed::lemma_sq_nonneg(self.z as int);
        }
        self.dot(self)
    }

    /// Fixed-point length, rounded down.
    pub fn length(&self) -> (r: i64)
        requires
            dot_ok(*self, *self),
            dot_fx(*self, *self) <= 0x1_0000_0000_0000,
        ensures
            0 <= r,
            (r as int) * (r as int) <= dot_fx(*self, *self) * 1000,
            (r as int + 1) * (r as int + 1) > dot_fx(*self, *self) * 1000,
    {
        let ls: i64 = self.length_squared();
        sqrt_fx(ls)
    }
}

} // verus!
