//! A Monte Carlo path-tracing core over fixed-point arithmetic.
//!
//! Geometry, materials, sampling distributions and the integrator all work
//! on scalars stored as signed 64-bit integers in units of one thousandth,
//! so every computation has an exact, machine-checked description.

pub mod aabb;
pub mod aa_rectangles;
pub mod affine;
pub mod bvh;
pub mod camera;
pub mod colour;
pub mod constant_medium;
pub mod constants;
pub mod cornell_box;
pub mod cornell_smoke;
pub mod fixed;
pub mod hittable_list;
pub mod hittables;
pub mod materials;
pub mod matrix;
pub mod object;
pub mod pdfs;
pub mod point3;
pub mod random;
pub mod ray;
pub mod rect_prism;
pub mod renderer;
pub mod scene;
pub mod sphere;
pub mod textures;
pub mod two_spheres;
pub mod vec3;
