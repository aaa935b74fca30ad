//! Textures: colour as a function of surface coordinates and hit point.

use vstd::prelude::*;
use crate::vec3::Vec3;
use crate::colour::{Colour, unit_colour};
use crate::fixed::{sabs, tdiv};
use crate::point3::Point3;

verus! {

#[derive(Clone, Copy, PartialEq, Eq, Structural, Debug)]
pub enum Texture {
    /// The same colour everywhere.
    SolidColour { colour: Colour },
    /// Alternating colours on a three-dimensional checkerboard of
    /// unit-sized cells.
    Checker { odd: Colour, even: Colour },
}

/// Textures used for attenuation keep every channel within `[0, 1]`.
pub open spec fn texture_ok(t: Texture) -> bool {
    match t {
        Texture::SolidColour { colour } => unit_colour(colour),
        Texture::Checker { odd, even } => unit_colour(odd) && unit_colour(even),
    }
}

/// Which cell of the unit checkerboard a coordinate falls in.
pub open spec fn cell(x: int) -> int {
    tdiv(x, 1000)
}

/// The checkerboard parity of a point: whether the cell-coordinate
/// parities cancel out.
pub open spec fn checker_even(p: Point3) -> bool {
    (sabs(cell(p.x as int)) % 2 + sabs(cell(p.y as int)) % 2 + sabs(cell(p.z as int)) % 2) % 2
        == 0
}

/// A well-formed texture yields attenuation colours within `[0, 1]`.
pub proof fn lemma_texture_value_unit(t: Texture, u: int, v: int, p: Point3)
    requires
        texture_ok(t),
    ensures
        unit_colour(texture_value_spec(t, u, v, p)),
{
}

/// What a texture yields at the given surface coordinates and point.
pub open spec fn texture_value_spec(t: Texture, u: int, v: int, p: Point3) -> Colour {
    match t {
        Texture::SolidColour { colour } => colour,
        Texture::Checker { odd, even } => if checker_even(p) {
            even
        } else {
            odd
        },
    }
}

/// Magnitude of a coordinate divided into unit cells.
fn cell_mag(x: i64) -> (r: u64)
    requires
        sabs(x as int) < 0x8000_0000_0000_0000,
    ensures
        r as int == sabs(cell(x as int)),
{
    let ux: u64 = if x >= 0 {
        x as u64
    } else {
        (-x) as u64
    };
    proof {
        assert(ux as int == sabs(x as int));
        vstd::arithmetic::div_mod::lemma_div_pos_is_pos(ux as int, 1000);
    }
    ux / 1000
}

impl Texture {
    /// Evaluate the texture.
    pub fn value(&self, u: i64, v: i64, p: &Point3) -> (r: Colour)
        requires
            crate::vec3::bounded(*p, 0x7fff_ffff_ffff_ffff),
        ensures
            r == texture_value_spec(*self, u as int, v as int, *p),
    {
        match self {
            Texture::SolidColour { colour } => *colour,
            Texture::Checker { odd, even } => {
                let cx: u64 = cell_mag(p.x);
                let cy: u64 = cell_mag(p.y);
                let cz: u64 = cell_mag(p.z);
                if (cx % 2 + cy % 2 + cz % 2) % 2 == 0 {
                    *even
                } else {
                    *odd
                }
            },
        }
    }
}

} // verus!
