//! A participating medium of constant density: wraps a boundary object
//! and scatters probabilistically along the ray's traversal, following
//! an exponential free-path law.

use vstd::prelude::*;
use crate::vec3::{Vec3, in_bounds};
use crate::ray::{Ray, ray_ok, T_MAX_ABS};
use crate::fixed::{mul_fx, div_fx, fx_mul, fx_div};
use crate::colour::Colour;
use crate::textures::{Texture, texture_ok};
use crate::materials::{Material, material_ok};
use crate::hittables::HitRecord;
use crate::object::{Object, obj_wf, deterministic, spec_intersect, hit_props};
use crate::random::{RandState, next_milli};
use crate::constants::{INFINITY, NEG_INFINITY};
use crate::aabb::AABB;

verus! {

pub struct ConstantMedium {
    pub boundary: Box<Object>,
    pub phase_function: Material,
    /// `-1 / density`, negative by construction.
    pub neg_inv_density: i64,
}

/// Density bounds that keep free-path arithmetic in range.
pub open spec fn medium_state_ok(m: ConstantMedium) -> bool {
    &&& material_ok(m.phase_function)
    &&& -0x4000_0000 <= m.neg_inv_density < 0
}

/// A coarse negative logarithm of `u/1000` for `u` in `[1, 1000)`, in
/// thousandths, quantized to multiples of half `ln 2`: the free-path
/// draw of the Beer-Lambert law needs `-ln` of a uniform variate, and
/// a step function over powers of the square root of two is exact to
/// state and monotone.
pub open spec fn neg_ln_milli_spec(u: int) -> int {
    if u >= 1000 {
        0
    } else if u >= 707 {
        347
    } else if u >= 500 {
        693
    } else if u >= 354 {
        1040
    } else if u >= 250 {
        1386
    } else if u >= 177 {
        1733
    } else if u >= 125 {
        2079
    } else if u >= 88 {
        2426
    } else if u >= 62 {
        2773
    } else if u >= 44 {
        3119
    } else if u >= 31 {
        3466
    } else if u >= 22 {
        3812
    } else if u >= 16 {
        4159
    } else if u >= 11 {
        4505
    } else if u >= 8 {
        4852
    } else if u >= 6 {
        5199
    } else if u >= 4 {
        5545
    } else if u >= 3 {
        5892
    } else if u >= 2 {
        6238
    } else {
        6585
    }
}

/// Evaluate the coarse negative logarithm.
pub fn neg_ln_milli(u: i64) -> (r: i64)
    ensures
        r as int == neg_ln_milli_spec(u as int),
        0 <= r <= 6585,
{
    if u >= 1000 {
        0
    } else if u >= 707 {
        347
    } else if u >= 500 {
        693
    } else if u >= 354 {
        1040
    } else if u >= 250 {
        1386
    } else if u >= 177 {
        1733
    } else if u >= 125 {
        2079
    } else if u >= 88 {
        2426
    } else if u >= 62 {
        2773
    } else if u >= 44 {
        3119
    } else if u >= 31 {
        3466
    } else if u >= 22 {
        3812
    } else if u >= 16 {
        4159
    } else if u >= 11 {
        4505
    } else if u >= 8 {
        4852
    } else if u >= 6 {
        5199
    } else if u >= 4 {
        5545
    } else if u >= 3 {
        5892
    } else if u >= 2 {
        6238
    } else {
        6585
    }
}

/// Whether a free-path draw of `neg_ln` scatters inside a crossing of
/// length `dist`, for inverse density magnitude `nidm`: the sampled
/// distance `nidm * neg_ln` must not exceed the span.
pub open spec fn medium_scatters(nidm: int, neg_ln: int, dist: int) -> bool {
    mul_fx(nidm, neg_ln) <= dist
}

/// As density vanishes the medium stops scattering: once the inverse
/// density is large enough that even the smallest possible free-path
/// draw overshoots the crossing, no draw scatters.
pub proof fn lemma_thin_medium_never_scatters(nidm: int, dist: int, u: int)
    requires
        0 <= nidm,
        1 <= u < 1000,
        mul_fx(nidm, 347) > dist,
    ensures
        !medium_scatters(nidm, neg_ln_milli_spec(u), dist),
{
    crate::fixed::lemma_mul_fx_mono(nidm, 347, neg_ln_milli_spec(u));
}

/// As density grows the medium always scatters: once the inverse
/// density is small enough that even the largest possible free-path
/// draw fits inside the crossing, every draw scatters.
pub proof fn lemma_dense_medium_always_scatters(nidm: int, dist: int, u: int)
    requires
        0 <= nidm,
        1 <= u < 1000,
        mul_fx(nidm, 6585) <= dist,
    ensures
        medium_scatters(nidm, neg_ln_milli_spec(u), dist),
{
    crate::fixed::lemma_mul_fx_mono(nidm, neg_ln_milli_spec(u), 6585);
}

/// Decide the in-volume scatter parameter for one free-path draw `u`:
/// nothing for the zero draw (an unbounded free path) or when the
/// sampled distance `nidm * -ln(u)` overshoots the crossing, else the
/// entry parameter advanced by the sampled distance in ray parameters.
pub fn sample_scatter_t(nidm: i64, u: i64, t1: i64, t2: i64, ray_len: i64) -> (res: Option<i64>)
    requires
        0 < nidm <= 0x4000_0000,
        0 <= u < 1000,
        0 < ray_len <= 0x1000_0000,
        0 <= t1 < t2 <= T_MAX_ABS,
    ensures
        res is None <==> (u == 0 || !medium_scatters(
            nidm as int,
            neg_ln_milli_spec(u as int),
            mul_fx(t2 - t1, ray_len as int),
        )),
        res matches Some(t) ==> t as int == t1 + div_fx(
            mul_fx(nidm as int, neg_ln_milli_spec(u as int)),
            ray_len as int,
        ) && t1 <= t,
{
    if u == 0 {
        // a zero variate stands for an unbounded free path
        return None;
    }
    let nl: i64 = neg_ln_milli(u);
    proof {
        crate::fixed::lemma_mul_bound(nidm as int, nl as int, 0x4000_0000, 6585);
        crate::fixed::lemma_mul_fx_nonneg(nidm as int, nl as int);
        crate::fixed::lemma_mul_bound((t2 - t1) as int, ray_len as int, 0x400_0000_0000, 0x1000_0000);
    }
    let hit_distance: i64 = fx_mul(nidm, nl);
    let dist_inside: i64 = fx_mul(t2 - t1, ray_len);
    if hit_distance > dist_inside {
        return None;
    }
    let dt: i64 = fx_div(hit_distance, ray_len);
    proof {
        crate::fixed::lemma_div_fx_nonneg(hit_distance as int, ray_len as int);
    }
    Some(t1 + dt)
}

/// The clamped entry/exit interval of the ray's traversal through the
/// boundary, for a deterministic boundary: the first crossing over an
/// unbounded interval, a second crossing just past it, both clamped
/// into the query interval and floored at zero; nothing when the ray
/// does not cross twice or the clamped interval is empty.
pub open spec fn medium_crossing_spec(m: ConstantMedium, r: Ray, tmin: int, tmax: int) -> Option<
    (int, int),
>
    decreases m, 0int, 1int,
{
    match spec_intersect(*m.boundary, r, NEG_INFINITY as int, INFINITY as int) {
        None => None,
        Some(rec1) => match spec_intersect(*m.boundary, r, rec1.t + 1, INFINITY as int) {
            None => None,
            Some(rec2) => {
                let t1a = if rec1.t < tmin {
                    tmin
                } else {
                    rec1.t as int
                };
                let t2 = if rec2.t > tmax {
                    tmax
                } else {
                    rec2.t as int
                };
                if t1a >= t2 {
                    None
                } else {
                    let t1 = if t1a < 0 {
                        0
                    } else {
                        t1a
                    };
                    if t1 >= t2 {
                        None
                    } else {
                        Some((t1, t2))
                    }
                }
            },
        },
    }
}

impl ConstantMedium {
    /// Wrap a boundary with a constant-colour isotropic phase function.
    pub fn new(obj: Object, density: i64, colour: Colour) -> (m: ConstantMedium)
        requires
            1 <= density <= 1000000,
            crate::colour::unit_colour(colour),
        ensures
            *m.boundary == obj,
            m.phase_function == (Material::Isotropic {
                albedo: Texture::SolidColour { colour },
            }),
            m.neg_inv_density as int == -div_fx(1000, density as int),
            medium_state_ok(m),
    {
        let inv: i64 = fx_div(1000, density);
        proof {
            vstd::arithmetic::div_mod::lemma_div_pos_is_pos(1000 * 1000int, density as int);
            vstd::arithmetic::div_mod::lemma_div_is_ordered(
                density as int,
                1000 * 1000int,
                density as int,
            );
            vstd::arithmetic::div_mod::lemma_div_by_self(density as int);
            vstd::arithmetic::div_mod::lemma_div_is_ordered_by_denominator(1000 * 1000int, 1, density as int);
            vstd::arithmetic::div_mod::lemma_div_basics(1000 * 1000int);
            assert(1 <= div_fx(1000, density as int) <= 1000000);
        }
        ConstantMedium {
            boundary: Box::new(obj),
            phase_function: Material::Isotropic { albedo: Texture::SolidColour { colour } },
            neg_inv_density: -inv,
        }
    }

    /// Wrap a boundary with a textured isotropic phase function.
    pub fn from_texture(obj: Object, density: i64, texture: Texture) -> (m: ConstantMedium)
        requires
            1 <= density <= 1000000,
            texture_ok(texture),
        ensures
            *m.boundary == obj,
            m.phase_function == (Material::Isotropic { albedo: texture }),
            m.neg_inv_density as int == -div_fx(1000, density as int),
            medium_state_ok(m),
    {
        let inv: i64 = fx_div(1000, density);
        proof {
            vstd::arithmetic::div_mod::lemma_div_pos_is_pos(1000 * 1000int, density as int);
            vstd::arithmetic::div_mod::lemma_div_is_ordered(
                density as int,
                1000 * 1000int,
                density as int,
            );
            vstd::arithmetic::div_mod::lemma_div_by_self(density as int);
            vstd::arithmetic::div_mod::lemma_div_is_ordered_by_denominator(1000 * 1000int, 1, density as int);
            vstd::arithmetic::div_mod::lemma_div_basics(1000 * 1000int);
            assert(1 <= div_fx(1000, density as int) <= 1000000);
        }
        ConstantMedium {
            boundary: Box::new(obj),
            phase_function: Material::Isotropic { albedo: texture },
            neg_inv_density: -inv,
        }
    }

    /// The medium is exactly as bounded as its boundary: the same box,
    /// or none where the boundary reports none.
    pub fn bounding_box(&self, time: (i64, i64)) -> (b: Option<AABB>)
        ensures
            b == crate::object::spec_bounding_box(*self.boundary),
        decreases *self, 2int,
    {
        proof {
            assert(decreases_to!(*self => *self.boundary));
        }
        self.boundary.bounding_box(time)
    }

    /// Find the ray's two boundary crossings, clamp them into the query
    /// interval, draw an exponential free-path length scaled by ray
    /// speed, and scatter at the sampled in-volume point if the draw
    /// fits inside the crossing; the in-volume normal is arbitrary.
    #[verifier::rlimit(60)]
    pub fn intersect(&self, rng: &mut RandState, r: &Ray, t_min: i64, t_max: i64) -> (res: Option<
        HitRecord,
    >)
        requires
            medium_state_ok(*self),
            obj_wf(*self.boundary),
            ray_ok(*r),
        ensures
            hit_props(res, *r, t_min as int, t_max as int),
            res matches Some(h) ==> {
                &&& h.material == self.phase_function
                &&& h.u == 0 && h.v == 0
                &&& h.p == crate::ray::at_spec(*r, h.t as int)
                &&& h.t >= 0
                &&& (h.normal == (Vec3 { x: 1000i64, y: 0i64, z: 0i64 }) || h.normal == (Vec3 {
                    x: -1000i64,
                    y: 0i64,
                    z: 0i64,
                }))
            },
            deterministic(*self.boundary) && medium_crossing_spec(
                *self,
                *r,
                t_min as int,
                t_max as int,
            ) is None ==> res is None,
            (deterministic(*self.boundary) && res is Some && medium_crossing_spec(
                *self,
                *r,
                t_min as int,
                t_max as int,
            ) is Some) ==> (medium_crossing_spec(*self, *r, t_min as int, t_max as int))->Some_0.0
                <= res->Some_0.t,
        decreases *self, 0int,
    {
        proof {
            assert(decreases_to!(*self => *self.boundary));
        }
        let rec1 = match self.boundary.intersect(rng, r, NEG_INFINITY, INFINITY) {
            Some(rec) => rec,
            None => {
                return None;
            },
        };
        let rec2 = match self.boundary.intersect(rng, r, rec1.t + 1, INFINITY) {
            Some(rec) => rec,
            None => {
                return None;
            },
        };
        let mut t1: i64 = if rec1.t < t_min {
            t_min
        } else {
            rec1.t
        };
        let t2: i64 = if rec2.t > t_max {
            t_max
        } else {
            rec2.t
        };
        if t1 >= t2 {
            return None;
        }
        if t1 < 0 {
            t1 = 0;
        }
        if t1 >= t2 {
            // the clamped interval lies entirely behind the ray origin
            return None;
        }
        if !in_bounds(&r.dir, 0x400_0000) {
            return None;
        }
        proof {
            crate::fixed::lemma_mul_bound(r.dir.x as int, r.dir.x as int, 0x400_0000, 0x400_0000);
            crate::fixed::lemma_mul_bound(r.dir.y as int, r.dir.y as int, 0x400_0000, 0x400_0000);
            crate::fixed::lemma_mul_bound(r.dir.z as int, r.dir.z as int, 0x400_0000, 0x400_0000);
            crate::fixed::lemma_mul_fx_upper(r.dir.x as int, r.dir.x as int, 0x10_0000_0000_0000);
            crate::fixed::lemma_mul_fx_upper(r.dir.y as int, r.dir.y as int, 0x10_0000_0000_0000);
            crate::fixed::lemma_mul_fx_upper(r.dir.z as int, r.dir.z as int, 0x10_0000_0000_0000);
            crate::fixed::lemma_sq_nonneg(r.dir.x as int);
            crate::fixed::lemma_sq_nonneg(r.dir.y as int);
            crate::fixed::lemma_sq_nonneg(r.dir.z as int);
        }
        let ray_len: i64 = r.dir.length();
        if ray_len <= 0 {
            return None;
        }
        proof {
            assert(ray_len as int <= 0x1000_0000) by (nonlinear_arith)
                requires
                    0 <= ray_len as int,
                    (ray_len as int) * (ray_len as int) <= 0x30_0000_0000_0000,
            ;
        }
        let m: i64 = next_milli(rng);
        let nidm: i64 = -self.neg_inv_density;
        let t: i64 = match sample_scatter_t(nidm, m, t1, t2, ray_len) {
            None => {
                return None;
            },
            Some(t) => t,
        };
        if t < t_min || t > t_max || t < -T_MAX_ABS || t > T_MAX_ABS {
            return None;
        }
        let p = r.at(t);
        let mut rec = HitRecord::new(t, p, Vec3::new(1000, 0, 0), self.phase_function, 0, 0);
        rec.set_face_normal(r);
        Some(rec)
    }
}

} // verus!
