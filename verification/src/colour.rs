//! Colours are fixed-point RGB triples; `1000` is full intensity.

use vstd::prelude::*;
use crate::vec3::Vec3;
use crate::fixed::{sabs, isqrt};

verus! {

pub type Colour = Vec3;

/// Greatest radiance value a channel may accumulate; larger contributions
/// are clamped so that one degenerate sample cannot corrupt an average.
pub const RADIANCE_MAX: i64 = 0x100_0000_0000;

/// A colour with every channel in `[0, RADIANCE_MAX]`.
pub open spec fn radiance_ok(c: Vec3) -> bool {
    &&& 0 <= c.x <= RADIANCE_MAX
    &&& 0 <= c.y <= RADIANCE_MAX
    &&& 0 <= c.z <= RADIANCE_MAX
}

/// A colour whose channels lie in `[0, 1]`, fit for attenuation.
pub open spec fn unit_colour(c: Vec3) -> bool {
    &&& 0 <= c.x <= 1000
    &&& 0 <= c.y <= 1000
    &&& 0 <= c.z <= 1000
}

/// Clamp a scalar into `[0, RADIANCE_MAX]`.
pub open spec fn clamp_rad_spec(v: int) -> int {
    if v < 0 {
        0
    } else if v > RADIANCE_MAX {
        RADIANCE_MAX as int
    } else {
        v
    }
}

pub fn clamp_rad(v: i64) -> (r: i64)
    ensures
        r as int == clamp_rad_spec(v as int),
{
    if v < 0 {
        0
    } else if v > RADIANCE_MAX {
        RADIANCE_MAX
    } else {
        v
    }
}

/// Map one averaged radiance channel to an 8-bit value: clamp to `[0, 1]`,
/// apply square-root gamma, then quantise.
pub open spec fn channel_byte_spec(v: int) -> int {
    let c = if v < 0 {
        0
    } else if v > 1000 {
        1000
    } else {
        v
    };
    let s = sqrt_floor(c * 1000);
    if s * 256 / 1000 > 255 {
        255
    } else {
        s * 256 / 1000
    }
}

/// `r` is the floor of the square root of `n`.
pub open spec fn is_sqrt_floor(n: int, r: int) -> bool {
    0 <= r && r * r <= n && (r + 1) * (r + 1) > n
}

/// The floor of the square root of a non-negative integer.
pub open spec fn sqrt_floor(n: int) -> int {
    choose|r: int| is_sqrt_floor(n, r)
}

/// The square-root floor is unique, so `choose` picks the computed value.
pub proof fn lemma_sqrt_floor_unique(n: int, r: int)
    requires
        0 <= r,
        r * r <= n,
        (r + 1) * (r + 1) > n,
    ensures
        sqrt_floor(n) == r,
{
    assert(is_sqrt_floor(n, r));
    let w = choose|w: int| is_sqrt_floor(n, w);
    assert(is_sqrt_floor(n, w));
    if w < r {
        assert((w + 1) * (w + 1) <= r * r) by (nonlinear_arith)
            requires
                0 <= w,
                w < r,
        ;
    }
    if r < w {
        assert((r + 1) * (r + 1) <= w * w) by (nonlinear_arith)
            requires
                0 <= r,
                r < w,
        ;
    }
}

/// Tone-map one radiance channel to a byte.
pub fn channel_to_byte(v: i64) -> (r: u8)
    ensures
        r as int == channel_byte_spec(v as int),
{
    let c: i64 = if v < 0 {
        0
    } else if v > 1000 {
        1000
    } else {
        v
    };
    let s: u64 = isqrt((c as u64) * 1000);
    proof {
        lemma_sqrt_floor_unique((c as int) * 1000, s as int);
        assert((s as int) * (s as int) <= 1000 * 1000);
        assert(s as int <= 1000) by (nonlinear_arith)
            requires
                (s as int) * (s as int) <= 1000 * 1000,
                (s as int) >= 0,
        ;
    }
    let b: u64 = s * 256 / 1000;
    if b > 255 {
        255
    } else {
        b as u8
    }
}

} // verus!
