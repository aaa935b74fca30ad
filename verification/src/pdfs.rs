//! Sampling distributions for importance sampling: one aimed at the
//! scene's lights, and a fifty-fifty mixture of that with the material's
//! own distribution.

use vstd::prelude::*;
use crate::vec3::{Vec3, bounded, dot_ok};
use crate::point3::Point3;
use crate::object::{Object, obj_wf, pdf_value_spec};
use crate::materials::{MatPdf, mat_pdf_value_spec};
use crate::random::{RandState, next_bool};
use crate::constants::NORM_MAX;
use crate::ray::RAY_MAX;

verus! {

/// Samples directions toward a light aggregate from a fixed origin.
pub struct HittablePdf<'a> {
    pub objects: &'a Object,
    pub origin: Point3,
}

impl<'a> HittablePdf<'a> {
    pub fn new(objects: &'a Object, origin: Point3) -> (p: HittablePdf<'a>)
        ensures
            p.objects == objects,
            p.origin == origin,
    {
        HittablePdf { objects, origin }
    }

    /// A direction toward a point drawn on a randomly chosen light;
    /// for a rectangle light, the origin plus the direction lies on the
    /// rectangle.
    pub fn generate(&self, rng: &mut RandState) -> (d: Vec3)
        requires
            obj_wf(*self.objects),
            bounded(self.origin, 0x5000_0000_0000_0000),
        ensures
            bounded(d, 0x5100_0000_0000_0000),
            *self.objects matches Object::XyRect(s) ==> s.x0 <= self.origin.x + d.x <= s.x1
                && s.y0 <= self.origin.y + d.y <= s.y1 && self.origin.z + d.z == s.k,
            *self.objects matches Object::XzRect(s) ==> s.x0 <= self.origin.x + d.x <= s.x1
                && s.z0 <= self.origin.z + d.z <= s.z1 && self.origin.y + d.y == s.k,
            *self.objects matches Object::YzRect(s) ==> s.y0 <= self.origin.y + d.y <= s.y1
                && s.z0 <= self.origin.z + d.z <= s.z1 && self.origin.x + d.x == s.k,
    {
        self.objects.random_toward(rng, &self.origin)
    }

    /// The solid-angle density of sampling `dir` toward the lights.
    pub fn value(&self, rng: &mut RandState, dir: &Vec3) -> (r: i64)
        requires
            obj_wf(*self.objects),
            bounded(self.origin, RAY_MAX as int),
            bounded(*dir, RAY_MAX as int),
        ensures
            r as int == pdf_value_spec(*self.objects, self.origin, *dir),
            0 <= r <= 0x4000_0000_0000_0000,
    {
        self.objects.pdf_value(rng, &self.origin, dir)
    }
}

/// A fixed fifty-fifty mixture of the light-directed distribution and
/// the material's own distribution.
pub struct MixturePdf<'a> {
    pub light: HittablePdf<'a>,
    pub material: MatPdf,
}

impl<'a> MixturePdf<'a> {
    pub fn new(light: HittablePdf<'a>, material: MatPdf) -> (p: MixturePdf<'a>)
        ensures
            p.light.objects == light.objects,
            p.light.origin == light.origin,
            p.material == material,
    {
        MixturePdf { light, material }
    }

    /// Flip a fair coin to choose which distribution to draw from.
    pub fn generate(&self, rng: &mut RandState) -> (d: Vec3)
        requires
            obj_wf(*self.light.objects),
            bounded(self.light.origin, 0x5000_0000_0000_0000),
            self.material matches MatPdf::Hemisphere { normal } ==> bounded(
                normal,
                NORM_MAX as int,
            ),
        ensures
            bounded(d, 0x5100_0000_0000_0000),
    {
        if next_bool(rng) {
            self.light.generate(rng)
        } else {
            self.material.generate(rng)
        }
    }

    /// The arithmetic mean of the two densities at `dir`.
    pub fn value(&self, rng: &mut RandState, dir: &Vec3) -> (r: i64)
        requires
            obj_wf(*self.light.objects),
            bounded(self.light.origin, RAY_MAX as int),
            bounded(*dir, RAY_MAX as int),
            self.material matches MatPdf::Hemisphere { normal } ==> bounded(
                normal,
                NORM_MAX as int,
            ),
        ensures
            r as int == (pdf_value_spec(*self.light.objects, self.light.origin, *dir)
                + mat_pdf_value_spec(self.material, *dir)) / 2,
            r >= 0,
    {
        let a: i64 = self.light.value(rng, dir);
        proof {
            match self.material {
                MatPdf::Hemisphere { normal } => {
                    crate::fixed::lemma_mul_bound(normal.x as int, dir.x as int, NORM_MAX as int, RAY_MAX as int);
                    crate::fixed::lemma_mul_bound(normal.y as int, dir.y as int, NORM_MAX as int, RAY_MAX as int);
                    crate::fixed::lemma_mul_bound(normal.z as int, dir.z as int, NORM_MAX as int, RAY_MAX as int);
                },
                MatPdf::SphereUniform => {},
            }
        }
        let b: i64 = self.material.value(rng, dir);
        let sum: u64 = (a as u64) + (b as u64);
        proof {
            vstd::arithmetic::div_mod::lemma_div_pos_is_pos(sum as int, 2);
        }
        (sum / 2) as i64
    }
}

} // verus!
