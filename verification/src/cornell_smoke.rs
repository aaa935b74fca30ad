//! The Cornell box with the two prisms replaced by participating media:
//! one dark smoke volume and one light one.

use vstd::prelude::*;
use crate::vec3::Vec3;
use crate::colour::Colour;
use crate::textures::Texture;
use crate::materials::Material;
use crate::aa_rectangles::{XyRectangle, XzRectangle, YzRectangle};
use crate::rect_prism::RectangularPrism;
use crate::affine::Affine;
use crate::constant_medium::ConstantMedium;
use crate::hittable_list::{HittableList, list_wf};
use crate::object::{Object, obj_wf};
use crate::matrix::{mat_transpose_spec, rot_y_spec};

verus! {

/// Assemble the smoky Cornell box: the six walls of the classic box,
/// then each prism wrapped first in its transform and then in a
/// constant-density medium.
pub fn build_scene() -> (w: HittableList)
    ensures
        w.objects@.len() == 8,
        list_wf(w),
        w.objects@[6] matches Object::Medium(m),
        w.objects@[7] matches Object::Medium(m),
{
    let mut objects = HittableList::new();

    let red = Material::Lambertian {
        albedo: Texture::SolidColour { colour: Colour { x: 650, y: 50, z: 50 } },
    };
    let white = Material::Lambertian {
        albedo: Texture::SolidColour { colour: Colour { x: 730, y: 730, z: 730 } },
    };
    let green = Material::Lambertian {
        albedo: Texture::SolidColour { colour: Colour { x: 120, y: 450, z: 150 } },
    };
    let light = Material::DiffuseLight { emit: Colour { x: 15000, y: 15000, z: 15000 } };

    // walls
    objects.add(Object::YzRect(YzRectangle::new(0, 555000, 0, 555000, 555000, green)));
    objects.add(Object::YzRect(YzRectangle::new(0, 555000, 0, 555000, 0, red)));
    objects.add(Object::XzRect(XzRectangle::new(213000, 343000, 227000, 332000, 554000, light)));
    objects.add(Object::XzRect(XzRectangle::new(0, 555000, 0, 555000, 0, white)));
    objects.add(Object::XzRect(XzRectangle::new(0, 555000, 0, 555000, 555000, white)));
    objects.add(Object::XyRect(XyRectangle::new(0, 555000, 0, 555000, 555000, white)));

    // boxes, transformed and filled with smoke of density one hundredth
    let b = RectangularPrism::new(Vec3::zero(), Vec3::new(165000, 330000, 165000), white);
    let mut transform = Affine::new(Object::Prism(b));
    transform.rotate_y(966, 259);
    transform.translate(265000, 0, 295000);
    transform.set_inverse();
    proof {
        crate::matrix::lemma_mat_identity_units(rot_y_spec(966, 259));
        crate::matrix::lemma_mat_identity_units(mat_transpose_spec(rot_y_spec(966, 259)));
        assert(transform.m == rot_y_spec(966, 259));
        assert(transform.inv == mat_transpose_spec(rot_y_spec(966, 259)));
        assert(crate::matrix::mat_bounded(transform.m, crate::matrix::MAT_MAX as int));
        assert(crate::matrix::mat_bounded(transform.inv, crate::matrix::MAT_MAX as int));
        assert(crate::vec3::bounded(transform.tr, crate::affine::TR_MAX as int));
        assert(obj_wf(*transform.child));
        assert(obj_wf(Object::Affine(transform)));
    }
    let dark = ConstantMedium::new(Object::Affine(transform), 10, Colour { x: 0, y: 0, z: 0 });
    objects.add(Object::Medium(dark));

    let b = RectangularPrism::new(Vec3::zero(), Vec3::from_value(165000), white);
    let mut transform = Affine::new(Object::Prism(b));
    transform.rotate_y(951, -309);
    transform.translate(130000, 0, 65000);
    transform.set_inverse();
    proof {
        crate::matrix::lemma_mat_identity_units(rot_y_spec(951, -309));
        crate::matrix::lemma_mat_identity_units(mat_transpose_spec(rot_y_spec(951, -309)));
        assert(transform.m == rot_y_spec(951, -309));
        assert(transform.inv == mat_transpose_spec(rot_y_spec(951, -309)));
        assert(crate::matrix::mat_bounded(transform.m, crate::matrix::MAT_MAX as int));
        assert(crate::matrix::mat_bounded(transform.inv, crate::matrix::MAT_MAX as int));
        assert(crate::vec3::bounded(transform.tr, crate::affine::TR_MAX as int));
        assert(obj_wf(*transform.child));
        assert(obj_wf(Object::Affine(transform)));
    }
    let bright = ConstantMedium::new(
        Object::Affine(transform),
        10,
        Colour { x: 1000, y: 1000, z: 1000 },
    );
    objects.add(Object::Medium(bright));

    proof {
        let s = objects.objects@;
        assert forall|i: int| 0 <= i < s.len() implies obj_wf(#[trigger] s[i]) by {
            assert(obj_wf(s[0]));
            assert(obj_wf(s[1]));
            assert(obj_wf(s[2]));
            assert(obj_wf(s[3]));
            assert(obj_wf(s[4]));
            assert(obj_wf(s[5]));
            assert(obj_wf(s[6]));
            assert(obj_wf(s[7]));
        }
    }
    objects
}

} // verus!
