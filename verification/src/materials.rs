//! Materials: how light interacts with a hit surface.

use vstd::prelude::*;
use crate::vec3::{Vec3, bounded, dot_fx, dot_ok};
use crate::colour::{Colour, unit_colour};
use crate::textures::{Texture, texture_ok, texture_value_spec};
use crate::ray::Ray;
use crate::random::{RandState, next_milli};
use crate::hittables::HitRecord;

verus! {

/// Probability density of a uniform hemisphere distribution: `1 / (2 pi)`
/// in thousandths.
pub const INV_2PI: i64 = 159;

/// Probability density of a uniform sphere distribution: `1 / (4 pi)`
/// in thousandths.
pub const INV_4PI: i64 = 79;

#[derive(Clone, Copy, PartialEq, Eq, Structural, Debug)]
pub enum Material {
    /// Diffuse scattering, tinted by a texture.
    Lambertian { albedo: Texture },
    /// Emits light and never scatters.
    DiffuseLight { emit: Colour },
    /// The phase function of a participating medium: scatters uniformly
    /// in every direction.
    Isotropic { albedo: Texture },
}

/// Emission bounds that keep radiance sums within range.
pub open spec fn material_ok(m: Material) -> bool {
    match m {
        Material::Lambertian { albedo } => texture_ok(albedo),
        Material::DiffuseLight { emit } => crate::colour::radiance_ok(emit),
        Material::Isotropic { albedo } => texture_ok(albedo),
    }
}

/// The sampling distribution a probabilistic material hands back.
#[derive(Clone, Copy, PartialEq, Eq, Structural, Debug)]
pub enum MatPdf {
    /// Uniform over the hemisphere around a surface normal.
    Hemisphere { normal: Vec3 },
    /// Uniform over the whole sphere of directions.
    SphereUniform,
}

/// The density a material's own distribution assigns to a direction.
pub open spec fn mat_pdf_value_spec(p: MatPdf, dir: Vec3) -> int {
    match p {
        MatPdf::Hemisphere { normal } => if dot_fx(normal, dir) > 0 {
            INV_2PI as int
        } else {
            0
        },
        MatPdf::SphereUniform => INV_4PI as int,
    }
}

/// What a material's scatter call reports: a tint, and either a fixed
/// specular continuation ray or a sampling distribution.
#[derive(Clone, Copy, Debug)]
pub struct ScatterRecord {
    pub attenuation: Colour,
    pub specular_ray: Option<Ray>,
    pub pdf: Option<MatPdf>,
}

/// What `scatter` reports for a material and hit, when it scatters at all.
pub open spec fn scatter_spec(m: Material, rec: HitRecord) -> Option<ScatterRecord> {
    match m {
        Material::Lambertian { albedo } => Some(
            ScatterRecord {
                attenuation: texture_value_spec(albedo, rec.u as int, rec.v as int, rec.p),
                specular_ray: None,
                pdf: Some(MatPdf::Hemisphere { normal: rec.normal }),
            },
        ),
        Material::DiffuseLight { emit } => None,
        Material::Isotropic { albedo } => Some(
            ScatterRecord {
                attenuation: texture_value_spec(albedo, rec.u as int, rec.v as int, rec.p),
                specular_ray: None,
                pdf: Some(MatPdf::SphereUniform),
            },
        ),
    }
}

/// What a material emits at a hit: only a light emits, and only on its
/// front face.
pub open spec fn emitted_spec(m: Material, rec: HitRecord) -> Colour {
    match m {
        Material::DiffuseLight { emit } => if rec.front_face {
            emit
        } else {
            (Vec3 { x: 0i64, y: 0i64, z: 0i64 })
        },
        _ => (Vec3 { x: 0i64, y: 0i64, z: 0i64 }),
    }
}

/// The density under which the material itself would have produced the
/// scattered direction, used to weight the recursive estimate.
pub open spec fn scattering_pdf_spec(m: Material, rec: HitRecord, scattered: Ray) -> int {
    match m {
        Material::Lambertian { albedo } => mat_pdf_value_spec(
            MatPdf::Hemisphere { normal: rec.normal },
            scattered.dir,
        ),
        Material::DiffuseLight { emit } => 0,
        Material::Isotropic { albedo } => INV_4PI as int,
    }
}

/// A direction drawn roughly uniformly from the unit sphere: rejection
/// sampling in the cube, normalised; a fallback axis keeps the draw total.
pub fn random_unit_vector(rng: &mut RandState) -> (r: Vec3)
    ensures
        bounded(r, 20000),
        !(r.x == 0 && r.y == 0 && r.z == 0),
{
    let mut tries: u64 = 0;
    while tries < 32
        invariant
            tries <= 32,
        decreases 32 - tries,
    {
        let x: i64 = 2 * next_milli(rng) - 1000;
        let y: i64 = 2 * next_milli(rng) - 1000;
        let z: i64 = 2 * next_milli(rng) - 1000;
        let v = Vec3 { x, y, z };
        proof {
            crate::fixed::lemma_mul_bound(x as int, x as int, 1000, 1000);
            crate::fixed::lemma_mul_bound(y as int, y as int, 1000, 1000);
            crate::fixed::lemma_mul_bound(z as int, z as int, 1000, 1000);
        }
        let ls: i64 = v.length_squared();
        if 10 <= ls && ls <= 1000 {
            let len: i64 = crate::fixed::sqrt_fx(ls);
            proof {
                assert((len as int) * (len as int) <= 1000 * 1000);
                assert(len as int <= 1000) by (nonlinear_arith)
                    requires
                        (len as int) * (len as int) <= 1000 * 1000,
                        (len as int) >= 0,
                ;
                assert((len as int + 1) * (len as int + 1) > 10 * 1000);
                assert(len as int >= 100) by (nonlinear_arith)
                    requires
                        (len as int + 1) * (len as int + 1) > 10000,
                        (len as int) >= 0,
                ;
            }
            let nx: i64 = crate::fixed::fx_div(x, len);
            let ny: i64 = crate::fixed::fx_div(y, len);
            let nz: i64 = crate::fixed::fx_div(z, len);
            if !(nx == 0 && ny == 0 && nz == 0) && -20000 <= nx && nx <= 20000 && -20000 <= ny
                && ny <= 20000 && -20000 <= nz && nz <= 20000 {
                return Vec3 { x: nx, y: ny, z: nz };
            }
        }
        tries = tries + 1;
    }
    Vec3 { x: 0, y: 0, z: 1000 }
}

impl MatPdf {
    /// Draw a direction from the distribution.
    pub fn generate(&self, rng: &mut RandState) -> (r: Vec3)
        requires
            *self matches MatPdf::Hemisphere { normal } ==> bounded(
                normal,
                crate::constants::NORM_MAX as int,
            ),
        ensures
            bounded(r, 20000),
            !(r.x == 0 && r.y == 0 && r.z == 0),
    {
        match self {
            MatPdf::Hemisphere { normal } => {
                let v = random_unit_vector(rng);
                proof {
                    crate::fixed::lemma_mul_bound(normal.x as int, v.x as int, 0x1_0000_0000, 20000);
                    crate::fixed::lemma_mul_bound(normal.y as int, v.y as int, 0x1_0000_0000, 20000);
                    crate::fixed::lemma_mul_bound(normal.z as int, v.z as int, 0x1_0000_0000, 20000);
                }
                let d: i64 = normal.dot(&v);
                if d < 0 {
                    v.neg()
                } else {
                    v
                }
            },
            MatPdf::SphereUniform => random_unit_vector(rng),
        }
    }

    /// Evaluate the density the distribution assigns to a direction.
    pub fn value(&self, _rng: &mut RandState, dir: &Vec3) -> (r: i64)
        requires
            *self matches MatPdf::Hemisphere { normal } ==> dot_ok(normal, *dir),
        ensures
            r as int == mat_pdf_value_spec(*self, *dir),
            0 <= r <= 1000,
    {
        match self {
            MatPdf::Hemisphere { normal } => {
                let d: i64 = normal.dot(dir);
                if d > 0 {
                    INV_2PI
                } else {
                    0
                }
            },
            MatPdf::SphereUniform => INV_4PI,
        }
    }
}

impl Material {
    /// How the material scatters the incoming ray at a hit, if it does.
    pub fn scatter(&self, rng: &mut RandState, r: &Ray, rec: &HitRecord) -> (s: Option<
        ScatterRecord,
    >)
        requires
            crate::vec3::bounded(rec.p, 0x7fff_ffff_ffff_ffff),
        ensures
            s == scatter_spec(*self, *rec),
    {
        match self {
            Material::Lambertian { albedo } => Some(
                ScatterRecord {
                    attenuation: albedo.value(rec.u, rec.v, &rec.p),
                    specular_ray: None,
                    pdf: Some(MatPdf::Hemisphere { normal: rec.normal }),
                },
            ),
            Material::DiffuseLight { emit } => None,
            Material::Isotropic { albedo } => Some(
                ScatterRecord {
                    attenuation: albedo.value(rec.u, rec.v, &rec.p),
                    specular_ray: None,
                    pdf: Some(MatPdf::SphereUniform),
                },
            ),
        }
    }

    /// What the material emits at a hit.
    pub fn emitted(&self, r: &Ray, rec: &HitRecord) -> (c: Colour)
        ensures
            c == emitted_spec(*self, *rec),
    {
        match self {
            Material::DiffuseLight { emit } => if rec.front_face {
                *emit
            } else {
                Vec3::zero()
            },
            _ => Vec3::zero(),
        }
    }

    /// The density of a specific scattered direction under the material's
    /// own distribution.
    pub fn scattering_pdf(&self, rng: &mut RandState, r: &Ray, rec: &HitRecord, scattered: &Ray) -> (
        d: i64)
        requires
            dot_ok(rec.normal, scattered.dir),
        ensures
            d as int == scattering_pdf_spec(*self, *rec, *scattered),
            0 <= d <= 1000,
    {
        match self {
            Material::Lambertian { albedo } => {
                let dp: i64 = rec.normal.dot(&scattered.dir);
                if dp > 0 {
                    INV_2PI
                } else {
                    0
                }
            },
            Material::DiffuseLight { emit } => 0,
            Material::Isotropic { albedo } => INV_4PI,
        }
    }
}

} // verus!
