//! The integrator: recursive path evaluation and pixel-buffer
//! population.

use vstd::prelude::*;
use crate::vec3::{Vec3, in_bounds};
use crate::colour::{
    Colour, radiance_ok, unit_colour, clamp_rad, clamp_rad_spec, channel_to_byte, RADIANCE_MAX,
};
use crate::ray::{Ray, ray_ok, RAY_MAX};
use crate::scene::{Scene, scene_ok};
use crate::object::{spec_intersect, deterministic};
use crate::camera::ray_dir_spec;
use crate::materials::{Material, MatPdf, scatter_spec, emitted_spec};
use crate::pdfs::{HittablePdf, MixturePdf};
use crate::random::{RandState, next_milli};
use crate::constants::{EPSILON, INFINITY, NORM_MAX};
use crate::fixed::{sabs, div_fx, fx_mul, fx_div};

verus! {

/// Bounds on image dimensions accepted by the renderer.
pub const DIM_MAX: u32 = 0x10_0000;

/// A quotient of a numerator within four times the denominator stays
/// within the normalized-coordinate range.
proof fn lemma_uv_bound(num: int, den: int)
    requires
        0 <= num,
        0 < den,
        num * 1000 <= 4000 * den,
    ensures
        0 <= div_fx(num, den) <= 4000,
{
    crate::fixed::lemma_div_fx_nonneg(num, den);
    vstd::arithmetic::div_mod::lemma_div_is_ordered(num * 1000, 4000 * den, den);
    vstd::arithmetic::div_mod::lemma_div_multiples_vanish(4000, den);
    assert(sabs(num * 1000) == num * 1000);
    assert(den * 4000 == 4000 * den) by (nonlinear_arith);
}

/// Every ray the camera can produce over the normalized coordinate
/// range misses the scene's geometry.
pub open spec fn all_rays_miss(scene: Scene) -> bool {
    forall|u: int, v: int|
        0 <= u <= 4000 && 0 <= v <= 4000 ==> spec_intersect(
            scene.objects,
            (Ray {
                orig: scene.camera.origin,
                dir: #[trigger] ray_dir_spec(scene.camera, u, v),
                time: scene.camera.time,
            }),
            EPSILON as int,
            INFINITY as int,
        ) is None
}

/// The tone-mapped background byte at buffer offset `k` of an RGB
/// buffer: the channel is chosen by the offset modulo three.
pub open spec fn background_byte_spec(scene: Scene, k: int) -> int {
    if k % 3 == 0 {
        crate::colour::channel_byte_spec(scene.background_colour.x as int)
    } else if k % 3 == 1 {
        crate::colour::channel_byte_spec(scene.background_colour.y as int)
    } else {
        crate::colour::channel_byte_spec(scene.background_colour.z as int)
    }
}

pub struct Renderer {
    pub num_samples: u32,
    pub depth: u32,
    pub multithreading: bool,
}

impl Renderer {
    pub fn new() -> (r: Renderer)
        ensures
            r.num_samples == 10u32,
            r.depth == 10u32,
            r.multithreading == false,
    {
        Renderer { num_samples: 10, depth: 10, multithreading: false }
    }

    /// Set how many samples each pixel takes; at least one is always
    /// taken.
    pub fn set_num_samples(&mut self, num_samples: u32)
        ensures
            final(self).num_samples == if num_samples < 1 {
                1u32
            } else {
                num_samples
            },
            final(self).depth == old(self).depth,
            final(self).multithreading == old(self).multithreading,
    {
        self.num_samples = if num_samples < 1 {
            1
        } else {
            num_samples
        };
    }

    /// Set the recursion depth; at least one bounce is always traced.
    pub fn set_depth(&mut self, depth: u32)
        ensures
            final(self).depth == if depth < 1 {
                1u32
            } else {
                depth
            },
            final(self).num_samples == old(self).num_samples,
            final(self).multithreading == old(self).multithreading,
    {
        self.depth = if depth < 1 {
            1
        } else {
            depth
        };
    }

    /// Allow this render to be multithreaded.
    pub fn set_multithreading(&mut self, multithreading: bool)
        ensures
            final(self).multithreading == multithreading,
            final(self).num_samples == old(self).num_samples,
            final(self).depth == old(self).depth,
    {
        self.multithreading = multithreading;
    }

    /// Whether a caller may run rows in parallel.
    pub fn multithreading(&self) -> (r: bool)
        ensures
            r == self.multithreading,
    {
        self.multithreading
    }

    /// One path: intersect, add emission, and recurse through a scatter,
    /// importance-sampling the scene's lights through a fifty-fifty
    /// mixture.  Radiance is clamped per channel so a degenerate sample
    /// cannot corrupt an average; a vanishing mixture density contributes
    /// the emission alone rather than an unbounded term.
    #[verifier::rlimit(80)]
    pub fn path_trace(&self, rng: &mut RandState, scene: &Scene, r: Ray, depth: u32) -> (c: Colour)
        requires
            scene_ok(*scene),
            ray_ok(r),
        ensures
            radiance_ok(c),
            depth == 0 ==> c == (Vec3 { x: 0i64, y: 0i64, z: 0i64 }),
            (depth > 0 && deterministic(scene.objects) && spec_intersect(
                scene.objects,
                r,
                EPSILON as int,
                INFINITY as int,
            ) is None) ==> c == scene.background_colour,
            (depth > 0 && deterministic(scene.objects) && (spec_intersect(
                scene.objects,
                r,
                EPSILON as int,
                INFINITY as int,
            ) matches Some(h) && scatter_spec(h.material, h) is None)) ==> c == emitted_spec(
                (spec_intersect(scene.objects, r, EPSILON as int, INFINITY as int))->Some_0.material,
                (spec_intersect(scene.objects, r, EPSILON as int, INFINITY as int))->Some_0,
            ),
        decreases depth,
    {
        if depth == 0 {
            return Vec3::zero();
        }
        let hit = scene.objects.intersect(rng, &r, EPSILON, INFINITY);
        match hit {
            None => scene.background_colour,
            Some(rec) => {
                let emitted = rec.material.emitted(&r, &rec);
                proof {
                    assert(radiance_ok(emitted)) by {
                        match rec.material {
                            Material::DiffuseLight { emit } => {},
                            _ => {},
                        }
                    };
                }
                match rec.material.scatter(rng, &r, &rec) {
                    None => emitted,
                    Some(srec) => {
                        proof {
                            match rec.material {
                                Material::Lambertian { albedo } => {
                                    crate::textures::lemma_texture_value_unit(
                                        albedo,
                                        rec.u as int,
                                        rec.v as int,
                                        rec.p,
                                    );
                                },
                                Material::Isotropic { albedo } => {
                                    crate::textures::lemma_texture_value_unit(
                                        albedo,
                                        rec.u as int,
                                        rec.v as int,
                                        rec.p,
                                    );
                                },
                                Material::DiffuseLight { emit } => {
                                    assert(false);
                                },
                            }
                            assert(unit_colour(srec.attenuation));
                        }
                        match srec.specular_ray {
                            Some(specular) => {
                                // the scattered ray is implicitly sampled
                                if in_bounds(&specular.orig, RAY_MAX) && in_bounds(
                                    &specular.dir,
                                    RAY_MAX,
                                ) {
                                    let rc = self.path_trace(rng, scene, specular, depth - 1);
                                    let cx = clamp_rad(fx_mul(srec.attenuation.x, rc.x));
                                    let cy = clamp_rad(fx_mul(srec.attenuation.y, rc.y));
                                    let cz = clamp_rad(fx_mul(srec.attenuation.z, rc.z));
                                    Colour { x: cx, y: cy, z: cz }
                                } else {
                                    emitted
                                }
                            },
                            None => {
                                match srec.pdf {
                                    None => emitted,
                                    Some(mat_pdf) => {
                                        if !in_bounds(&rec.p, RAY_MAX) {
                                            return emitted;
                                        }
                                        proof {
                                            match rec.material {
                                                Material::Lambertian { albedo } => {
                                                    assert(mat_pdf == MatPdf::Hemisphere {
                                                        normal: rec.normal,
                                                    });
                                                },
                                                _ => {},
                                            }
                                        }
                                        let light_pdf = HittablePdf::new(&scene.lights, rec.p);
                                        let p = MixturePdf::new(light_pdf, mat_pdf);
                                        let dir = p.generate(rng);
                                        if !in_bounds(&dir, RAY_MAX) {
                                            return emitted;
                                        }
                                        let scattered = Ray { orig: rec.p, dir, time: r.time };
                                        let pdf_val = p.value(rng, &dir);
                                        if pdf_val <= 0 {
                                            return emitted;
                                        }
                                        proof {
                                            crate::fixed::lemma_mul_bound(
                                                rec.normal.x as int,
                                                dir.x as int,
                                                NORM_MAX as int,
                                                RAY_MAX as int,
                                            );
                                            crate::fixed::lemma_mul_bound(
                                                rec.normal.y as int,
                                                dir.y as int,
                                                NORM_MAX as int,
                                                RAY_MAX as int,
                                            );
                                            crate::fixed::lemma_mul_bound(
                                                rec.normal.z as int,
                                                dir.z as int,
                                                NORM_MAX as int,
                                                RAY_MAX as int,
                                            );
                                        }
                                        let spdf = rec.material.scattering_pdf(
                                            rng,
                                            &r,
                                            &rec,
                                            &scattered,
                                        );
                                        let rc = self.path_trace(rng, scene, scattered, depth - 1);
                                        let cx = Renderer::weigh_channel(
                                            emitted.x,
                                            srec.attenuation.x,
                                            spdf,
                                            rc.x,
                                            pdf_val,
                                        );
                                        let cy = Renderer::weigh_channel(
                                            emitted.y,
                                            srec.attenuation.y,
                                            spdf,
                                            rc.y,
                                            pdf_val,
                                        );
                                        let cz = Renderer::weigh_channel(
                                            emitted.z,
                                            srec.attenuation.z,
                                            spdf,
                                            rc.z,
                                            pdf_val,
                                        );
                                        Colour { x: cx, y: cy, z: cz }
                                    },
                                }
                            },
                        }
                    },
                }
            },
        }
    }

    /// Antialias `num_samples` times on pixel `(i, j)`, jittering the
    /// image-plane coordinates within the pixel footprint, and average.
    pub fn sample_pixel(
        &self,
        rng: &mut RandState,
        scene: &Scene,
        i: u32,
        j: u32,
        height: u32,
        width: u32,
    ) -> (c: Colour)
        requires
            scene_ok(*scene),
            2 <= width <= DIM_MAX,
            2 <= height <= DIM_MAX,
            i < width,
            1 <= j <= height,
            self.num_samples >= 1,
        ensures
            radiance_ok(c),
            (deterministic(scene.objects) && self.depth >= 1 && all_rays_miss(*scene)) ==> c
                == scene.background_colour,
    {
        let ns: u32 = self.num_samples;
        let mut sx: u128 = 0;
        let mut sy: u128 = 0;
        let mut sz: u128 = 0;
        let mut s: u32 = 0;
        while s < ns
            invariant
                scene_ok(*scene),
                2 <= width <= DIM_MAX,
                2 <= height <= DIM_MAX,
                i < width,
                1 <= j <= height,
                0 <= s <= ns,
                sx as int <= (s as int) * (RADIANCE_MAX as int),
                sy as int <= (s as int) * (RADIANCE_MAX as int),
                sz as int <= (s as int) * (RADIANCE_MAX as int),
                (deterministic(scene.objects) && self.depth >= 1 && all_rays_miss(*scene)) ==> {
                    &&& sx as int == (s as int) * (scene.background_colour.x as int)
                    &&& sy as int == (s as int) * (scene.background_colour.y as int)
                    &&& sz as int == (s as int) * (scene.background_colour.z as int)
                },
            decreases ns - s,
        {
            let du: i64 = next_milli(rng);
            let dv: i64 = next_milli(rng);
            let unum: i64 = (i as i64) * 1000 + du;
            let uden: i64 = ((width - 1) as i64) * 1000;
            let vnum: i64 = (j as i64) * 1000 + dv;
            let vden: i64 = ((height - 1) as i64) * 1000;
            proof {
                lemma_uv_bound(unum as int, uden as int);
                lemma_uv_bound(vnum as int, vden as int);
            }
            let u: i64 = fx_div(unum, uden);
            let v: i64 = fx_div(vnum, vden);
            let ray = scene.camera.get_ray(rng, u, v);
            let col = self.path_trace(rng, scene, ray, self.depth);
            proof {
                if deterministic(scene.objects) && self.depth >= 1 && all_rays_miss(*scene) {
                    assert(spec_intersect(
                        scene.objects,
                        (Ray {
                            orig: scene.camera.origin,
                            dir: ray_dir_spec(scene.camera, u as int, v as int),
                            time: scene.camera.time,
                        }),
                        EPSILON as int,
                        INFINITY as int,
                    ) is None);
                    assert(col == scene.background_colour);
                    assert((s as int + 1) * (scene.background_colour.x as int) == (s as int) * (
                    scene.background_colour.x as int) + scene.background_colour.x)
                        by (nonlinear_arith);
                    assert((s as int + 1) * (scene.background_colour.y as int) == (s as int) * (
                    scene.background_colour.y as int) + scene.background_colour.y)
                        by (nonlinear_arith);
                    assert((s as int + 1) * (scene.background_colour.z as int) == (s as int) * (
                    scene.background_colour.z as int) + scene.background_colour.z)
                        by (nonlinear_arith);
                }
            }
            sx = sx + (col.x as u128);
            sy = sy + (col.y as u128);
            sz = sz + (col.z as u128);
            s = s + 1;
        }
        proof {
            vstd::arithmetic::div_mod::lemma_div_pos_is_pos(sx as int, ns as int);
            vstd::arithmetic::div_mod::lemma_div_pos_is_pos(sy as int, ns as int);
            vstd::arithmetic::div_mod::lemma_div_pos_is_pos(sz as int, ns as int);
            vstd::arithmetic::div_mod::lemma_div_is_ordered(
                sx as int,
                (ns as int) * (RADIANCE_MAX as int),
                ns as int,
            );
            vstd::arithmetic::div_mod::lemma_div_is_ordered(
                sy as int,
                (ns as int) * (RADIANCE_MAX as int),
                ns as int,
            );
            vstd::arithmetic::div_mod::lemma_div_is_ordered(
                sz as int,
                (ns as int) * (RADIANCE_MAX as int),
                ns as int,
            );
            vstd::arithmetic::div_mod::lemma_div_multiples_vanish(
                RADIANCE_MAX as int,
                ns as int,
            );
            if deterministic(scene.objects) && self.depth >= 1 && all_rays_miss(*scene) {
                vstd::arithmetic::div_mod::lemma_div_multiples_vanish(
                    scene.background_colour.x as int,
                    ns as int,
                );
                vstd::arithmetic::div_mod::lemma_div_multiples_vanish(
                    scene.background_colour.y as int,
                    ns as int,
                );
                vstd::arithmetic::div_mod::lemma_div_multiples_vanish(
                    scene.background_colour.z as int,
                    ns as int,
                );
            }
        }
        let n: u128 = ns as u128;
        Colour { x: (sx / n) as i64, y: (sy / n) as i64, z: (sz / n) as i64 }
    }

    /// Render one image row (row `j` from the top) into tone-mapped
    /// bytes, three per pixel.
    pub fn render_row(
        &self,
        rng: &mut RandState,
        scene: &Scene,
        j: u32,
        image_height: u32,
        image_width: u32,
    ) -> (row: Vec<u8>)
        requires
            scene_ok(*scene),
            2 <= image_width <= DIM_MAX,
            2 <= image_height <= DIM_MAX,
            j < image_height,
            self.num_samples >= 1,
        ensures
            row@.len() == 3 * image_width,
            (deterministic(scene.objects) && self.depth >= 1 && all_rays_miss(*scene)) ==> forall|
                k: int,
            |
                0 <= k < 3 * image_width ==> #[trigger] row@[k] as int == background_byte_spec(
                    *scene,
                    k,
                ),
    {
        // the buffer's vertical axis is stored top-down while the
        // camera's is bottom-up
        let jj: u32 = image_height - j;
        let mut row: Vec<u8> = Vec::new();
        let mut i: u32 = 0;
        while i < image_width
            invariant
                scene_ok(*scene),
                2 <= image_width <= DIM_MAX,
                2 <= image_height <= DIM_MAX,
                jj == image_height - j,
                j < image_height,
                self.num_samples >= 1,
                0 <= i <= image_width,
                row@.len() == 3 * i,
                (deterministic(scene.objects) && self.depth >= 1 && all_rays_miss(*scene))
                    ==> forall|k: int|
                    0 <= k < 3 * i ==> #[trigger] row@[k] as int == background_byte_spec(
                        *scene,
                        k,
                    ),
            decreases image_width - i,
        {
            let col = self.sample_pixel(rng, scene, i, jj, image_height, image_width);
            let ghost pre = row@;
            row.push(channel_to_byte(col.x));
            row.push(channel_to_byte(col.y));
            row.push(channel_to_byte(col.z));
            proof {
                if deterministic(scene.objects) && self.depth >= 1 && all_rays_miss(*scene) {
                    assert forall|k: int| 0 <= k < 3 * (i + 1) implies #[trigger] row@[k] as int
                        == background_byte_spec(*scene, k) by {
                        if k < 3 * i {
                            assert(row@[k] == pre[k]);
                        } else {
                            vstd::arithmetic::div_mod::lemma_mod_multiples_vanish(
                                i as int,
                                k - 3 * (i as int),
                                3,
                            );
                            assert((3 * (i as int) + (k - 3 * (i as int))) % 3 == (k - 3 * (
                            i as int)) % 3);
                        }
                    }
                }
            }
            i = i + 1;
        }
        row
    }

    /// Render the whole image sequentially into an RGB byte buffer, row
    /// major, top row first.  A caller holding the multithreading flag
    /// may instead run `render_row` over rows in parallel with
    /// independently seeded random streams.
    pub fn render(
        &mut self,
        rng: &mut RandState,
        scene: &Scene,
        image_height: u32,
        image_width: u32,
    ) -> (img: Vec<u8>)
        requires
            scene_ok(*scene),
            2 <= image_width <= DIM_MAX,
            2 <= image_height <= DIM_MAX,
            old(self).num_samples >= 1,
        ensures
            img@.len() == 3 * image_width * image_height,
            *final(self) == *old(self),
            (deterministic(scene.objects) && old(self).depth >= 1 && all_rays_miss(*scene))
                ==> forall|k: int|
                0 <= k < img@.len() ==> #[trigger] img@[k] as int == background_byte_spec(
                    *scene,
                    k,
                ),
    {
        let mut img: Vec<u8> = Vec::new();
        let mut j: u32 = 0;
        while j < image_height
            invariant
                scene_ok(*scene),
                2 <= image_width <= DIM_MAX,
                2 <= image_height <= DIM_MAX,
                self.num_samples >= 1,
                *self == *old(self),
                0 <= j <= image_height,
                img@.len() == 3 * image_width * j,
                (deterministic(scene.objects) && self.depth >= 1 && all_rays_miss(*scene))
                    ==> forall|k: int|
                    0 <= k < img@.len() ==> #[trigger] img@[k] as int == background_byte_spec(
                        *scene,
                        k,
                    ),
            decreases image_height - j,
        {
            let ghost pre = img@;
            let mut row = self.render_row(rng, scene, j, image_height, image_width);
            let ghost rowv = row@;
            img.append(&mut row);
            proof {
                assert(3 * image_width * (j + 1) == 3 * image_width * j + 3 * image_width)
                    by (nonlinear_arith);
                if deterministic(scene.objects) && self.depth >= 1 && all_rays_miss(*scene) {
                    assert forall|k: int| 0 <= k < img@.len() implies #[trigger] img@[k] as int
                        == background_byte_spec(*scene, k) by {
                        if k < pre.len() {
                            assert(img@[k] == pre[k]);
                        } else {
                            let off = k - pre.len();
                            assert(img@[k] == rowv[off]);
                            assert(rowv[off] as int == background_byte_spec(*scene, off));
                            assert(pre.len() == 3 * ((image_width as int) * (j as int)))
                                by (nonlinear_arith)
                                requires
                                    pre.len() == 3 * (image_width as int) * (j as int),
                            ;
                            vstd::arithmetic::div_mod::lemma_mod_multiples_vanish(
                                (image_width as int) * (j as int),
                                off,
                                3,
                            );
                            assert(k % 3 == off % 3);
                        }
                    }
                }
            }
            j = j + 1;
        }
        img
    }

    /// One channel of `emitted + attenuation * scattering_density *
    /// gathered / mixture_density`, clamped into the radiance range.
    fn weigh_channel(emitted: i64, att: i64, spdf: i64, gathered: i64, pdf_val: i64) -> (c: i64)
        requires
            0 <= emitted <= RADIANCE_MAX,
            0 <= att <= 1000,
            0 <= spdf <= 1000,
            0 <= gathered <= RADIANCE_MAX,
            0 < pdf_val,
        ensures
            0 <= c <= RADIANCE_MAX,
            c as int == clamp_rad_spec(
                emitted + div_fx(
                    crate::fixed::mul_fx(crate::fixed::mul_fx(att as int, spdf as int), gathered as int),
                    pdf_val as int,
                ),
            ),
    {
        proof {
            crate::fixed::lemma_mul_bound(att as int, spdf as int, 1000, 1000);
            crate::fixed::lemma_mul_fx_nonneg(att as int, spdf as int);
        }
        let m1: i64 = fx_mul(att, spdf);
        proof {
            crate::fixed::lemma_mul_bound(m1 as int, gathered as int, 1000, RADIANCE_MAX as int);
            crate::fixed::lemma_mul_fx_nonneg(m1 as int, gathered as int);
        }
        let m2: i64 = fx_mul(m1, gathered);
        proof {
            crate::fixed::lemma_div_fx_nonneg(m2 as int, pdf_val as int);
        }
        let q: i64 = fx_div(m2, pdf_val);
        clamp_rad(emitted + q)
    }
}

} // verus!
