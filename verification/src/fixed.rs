//! Fixed-point scalar arithmetic.
//!
//! Scalars are `i64` values counted in thousandths, so the number one is
//! stored as `1000`.  Multiplication and division therefore rescale their
//! result, truncating toward zero exactly as the hardware would.

use vstd::prelude::*;

verus! {

/// One, in thousandths: the scale of every fixed-point scalar.
pub const SCALE: i64 = 1000;

/// Magnitude of a mathematical integer.
pub open spec fn sabs(a: int) -> int {
    if a < 0 {
        -a
    } else {
        a
    }
}

/// Division truncated toward zero, matching hardware signed division.
pub open spec fn tdiv(a: int, b: int) -> int
    recommends
        b != 0,
{
    if (a < 0) == (b < 0) {
        sabs(a) / sabs(b)
    } else {
        -(sabs(a) / sabs(b))
    }
}

/// Fixed-point product: `a * b` rescaled back into thousandths.
pub open spec fn mul_fx(a: int, b: int) -> int {
    tdiv(a * b, SCALE as int)
}

/// Fixed-point quotient: `a / b` kept in thousandths.
pub open spec fn div_fx(a: int, b: int) -> int
    recommends
        b != 0,
{
    tdiv(a * SCALE, b)
}

/// The operands of a fixed-point product small enough that the result
/// still fits an `i64`.
pub open spec fn mul_ok(a: int, b: int) -> bool {
    &&& sabs(a) < 0x8000_0000_0000_0000
    &&& sabs(b) < 0x8000_0000_0000_0000
    &&& sabs(a * b) <= 0x7fff_ffff_ffff_ffff * 1000
}

/// A numerator small enough that any fixed-point quotient of it fits an `i64`.
pub open spec fn div_ok(a: int) -> bool {
    sabs(a) <= 0x10_0000_0000_0000
}

pub proof fn lemma_sabs_mul(a: int, b: int)
    ensures
        sabs(a * b) == sabs(a) * sabs(b),
        ((a < 0) != (b < 0)) ==> a * b <= 0,
        ((a < 0) == (b < 0)) ==> a * b >= 0,
{
    assert(sabs(a * b) == sabs(a) * sabs(b) && (((a < 0) != (b < 0)) ==> a * b <= 0) && (((a
        < 0) == (b < 0)) ==> a * b >= 0)) by (nonlinear_arith);
}

/// Bounds on each factor bound the product.
pub proof fn lemma_mul_bound(a: int, b: int, ba: int, bb: int)
    requires
        sabs(a) <= ba,
        sabs(b) <= bb,
    ensures
        sabs(a * b) <= ba * bb,
{
    assert(sabs(a * b) <= ba * bb) by (nonlinear_arith)
        requires
            sabs(a) <= ba,
            sabs(b) <= bb,
    ;
}

/// The magnitude of a truncated quotient never exceeds that of the numerator.
pub proof fn lemma_tdiv_bound(a: int, b: int)
    requires
        b != 0,
    ensures
        sabs(tdiv(a, b)) <= sabs(a),
        a >= 0 && b > 0 ==> tdiv(a, b) == a / b,
{
    let q = sabs(a) / sabs(b);
    vstd::arithmetic::div_mod::lemma_div_is_ordered_by_denominator(sabs(a), 1, sabs(b));
    vstd::arithmetic::div_mod::lemma_div_basics(sabs(a));
    vstd::arithmetic::div_mod::lemma_div_pos_is_pos(sabs(a), sabs(b));
    assert(0 <= q <= sabs(a));
}

/// A smaller non-negative numerator gives a no-larger quotient.
pub proof fn lemma_div_mono(a: int, b: int, d: int)
    requires
        0 <= a <= b,
        0 < d,
    ensures
        0 <= a / d <= b / d,
{
    vstd::arithmetic::div_mod::lemma_div_is_ordered(a, b, d);
    vstd::arithmetic::div_mod::lemma_div_pos_is_pos(a, d);
}

/// Negating one factor negates a fixed-point product.
pub proof fn lemma_mul_fx_neg(a: int, b: int)
    ensures
        mul_fx(a, -b) == -mul_fx(a, b),
{
    assert(a * (-b) == -(a * b)) by (nonlinear_arith);
}

/// A fixed-point square is never negative.
pub proof fn lemma_sq_nonneg(a: int)
    ensures
        a * a >= 0,
        mul_fx(a, a) >= 0,
{
    assert(a * a >= 0) by (nonlinear_arith);
    vstd::arithmetic::div_mod::lemma_div_pos_is_pos(sabs(a * a), 1000);
}

/// Fixed-point multiplication is commutative.
pub proof fn lemma_mul_fx_comm(a: int, b: int)
    ensures
        mul_fx(a, b) == mul_fx(b, a),
{
    assert(a * b == b * a) by (nonlinear_arith);
}

/// A fixed-point product with a non-negative left factor is monotone in
/// the right factor.
pub proof fn lemma_mul_fx_mono(a: int, b1: int, b2: int)
    requires
        a >= 0,
        0 <= b1 <= b2,
    ensures
        mul_fx(a, b1) <= mul_fx(a, b2),
{
    assert(0 <= a * b1 <= a * b2) by (nonlinear_arith)
        requires
            a >= 0,
            0 <= b1 <= b2,
    ;
    vstd::arithmetic::div_mod::lemma_div_is_ordered(a * b1, a * b2, 1000);
}

/// A bound on the full product bounds the rescaled product.
pub proof fn lemma_mul_fx_upper(a: int, b: int, p: int)
    requires
        sabs(a * b) <= p,
        0 <= p,
    ensures
        sabs(mul_fx(a, b)) <= p / 1000,
{
    vstd::arithmetic::div_mod::lemma_div_is_ordered(sabs(a * b), p, 1000);
    vstd::arithmetic::div_mod::lemma_div_pos_is_pos(sabs(a * b), 1000);
}

/// A quotient of non-negatives is non-negative.
pub proof fn lemma_div_fx_nonneg(a: int, b: int)
    requires
        a >= 0,
        b > 0,
    ensures
        div_fx(a, b) >= 0,
{
    vstd::arithmetic::div_mod::lemma_div_pos_is_pos(sabs(a * 1000), sabs(b));
}

/// A product of non-negatives is non-negative.
pub proof fn lemma_mul_fx_nonneg(a: int, b: int)
    requires
        a >= 0,
        b >= 0,
    ensures
        mul_fx(a, b) >= 0,
{
    assert(a * b >= 0) by (nonlinear_arith)
        requires
            a >= 0,
            b >= 0,
    ;
    vstd::arithmetic::div_mod::lemma_div_pos_is_pos(sabs(a * b), 1000);
}

/// Fixed-point multiplication, truncating toward zero.
pub fn fx_mul(a: i64, b: i64) -> (r: i64)
    requires
        mul_ok(a as int, b as int),
    ensures
        r as int == mul_fx(a as int, b as int),
        sabs(r as int) * 1000 <= sabs((a as int) * (b as int)),
{
    let neg: bool = (a < 0) != (b < 0);
    let ua: u64 = if a >= 0 {
        a as u64
    } else {
        (-a) as u64
    };
    let ub: u64 = if b >= 0 {
        b as u64
    } else {
        (-b) as u64
    };
    proof {
        assert(ua as int == sabs(a as int));
        assert(ub as int == sabs(b as int));
        lemma_sabs_mul(a as int, b as int);
        assert((ua as int) * (ub as int) <= 0x7fff_ffff_ffff_ffff * 1000);
        assert((ua as int) * (ub as int) < 0x1_0000_0000_0000_0000_0000_0000_0000_0000)
            by (nonlinear_arith)
            requires
                (ua as int) < 0x1_0000_0000_0000_0000,
                (ub as int) < 0x1_0000_0000_0000_0000,
                (ua as int) >= 0,
                (ub as int) >= 0,
        ;
    }
    let p: u128 = (ua as u128) * (ub as u128);
    let q: u128 = p / 1000;
    proof {
        lemma_div_mono(p as int, 0x7fff_ffff_ffff_ffff * 1000int, 1000);
        assert((0x7fff_ffff_ffff_ffff * 1000) / 1000 == 0x7fff_ffff_ffff_ffff);
        assert(q as int == sabs((a as int) * (b as int)) / 1000);
        assert(q as int * 1000 <= sabs((a as int) * (b as int))) by {
            vstd::arithmetic::div_mod::lemma_fundamental_div_mod(p as int, 1000);
            vstd::arithmetic::div_mod::lemma_remainder_lower(p as int, 1000);
        };
    }
    let m: i64 = q as i64;
    if neg && m > 0 {
        -m
    } else {
        proof {
            if neg {
                assert(q == 0);
            }
        }
        m
    }
}

/// Fixed-point division, truncating toward zero.
pub fn fx_div(a: i64, b: i64) -> (r: i64)
    requires
        b != 0,
        div_ok(a as int),
        sabs(b as int) < 0x8000_0000_0000_0000,
    ensures
        r as int == div_fx(a as int, b as int),
        sabs(r as int) <= sabs(a as int) * 1000,
{
    let neg: bool = (a < 0) != (b < 0);
    let ua: u64 = if a >= 0 {
        a as u64
    } else {
        (-a) as u64
    };
    let ub: u64 = if b >= 0 {
        b as u64
    } else {
        (-b) as u64
    };
    proof {
        assert(ua as int == sabs(a as int));
        assert(ub as int == sabs(b as int));
    }
    let p: u128 = (ua as u128) * 1000;
    let q: u128 = p / (ub as u128);
    proof {
        lemma_sabs_mul(a as int, 1000);
        assert(sabs((a as int) * 1000) == sabs(a as int) * 1000);
        assert(p as int == sabs(a as int) * 1000);
        vstd::arithmetic::div_mod::lemma_div_is_ordered_by_denominator(p as int, 1, ub as int);
        vstd::arithmetic::div_mod::lemma_div_basics(p as int);
        vstd::arithmetic::div_mod::lemma_div_pos_is_pos(p as int, ub as int);
        assert(0 <= q as int <= p as int);
        assert(q as int == sabs((a as int) * 1000) / sabs(b as int));
    }
    let m: i64 = q as i64;
    if neg && m > 0 {
        -m
    } else {
        proof {
            if neg {
                assert(q == 0);
            }
        }
        m
    }
}

/// Integer square root: the greatest `r` with `r * r <= n`.
pub fn isqrt(n: u64) -> (r: u64)
    ensures
        (r as int) * (r as int) <= n as int,
        (r as int + 1) * (r as int + 1) > n as int,
{
    let mut lo: u64 = 0;
    let mut hi: u64 = 0x1_0000_0000;
    while lo + 1 < hi
        invariant
            lo < hi <= 0x1_0000_0000,
            (lo as int) * (lo as int) <= n as int,
            (hi as int) * (hi as int) > n as int,
        decreases hi - lo,
    {
        let mid: u64 = lo + (hi - lo) / 2;
        proof {
            assert((mid as int) * (mid as int) < 0x1_0000_0000 * 0x1_0000_0000)
                by (nonlinear_arith)
                requires
                    0 <= (mid as int) < 0x1_0000_0000,
            ;
        }
        if mid * mid <= n {
            lo = mid;
        } else {
            hi = mid;
        }
    }
    lo
}

/// Fixed-point square root, rounded down.
pub fn sqrt_fx(x: i64) -> (r: i64)
    requires
        0 <= x <= 0x1_0000_0000_0000,
    ensures
        0 <= r,
        (r as int) * (r as int) <= (x as int) * 1000,
        (r as int + 1) * (r as int + 1) > (x as int) * 1000,
{
    let s: u64 = isqrt((x as u64) * 1000);
    proof {
        assert((s as int) * (s as int) <= (x as int) * 1000);
        assert((s as int) <= 0x1_0000_0000) by (nonlinear_arith)
            requires
                (s as int) * (s as int) <= (x as int) * 1000,
                (x as int) * 1000 < 0x1_0000_0000 * 0x1_0000_0000,
                (s as int) >= 0,
        ;
    }
    s as i64
}

} // verus!
