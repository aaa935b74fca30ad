//! The classic Cornell box: five coloured walls, an area light, and two
//! rotated, translated prisms.

use vstd::prelude::*;
use crate::vec3::Vec3;
use crate::colour::Colour;
use crate::textures::Texture;
use crate::materials::Material;
use crate::aa_rectangles::{XyRectangle, XzRectangle, YzRectangle};
use crate::rect_prism::{RectangularPrism, prism_sides_spec};
use crate::affine::Affine;
use crate::hittable_list::{HittableList, list_wf};
use crate::object::{Object, obj_wf};
use crate::matrix::{mat_identity, mat_mul_spec, mat_transpose_spec, rot_y_spec};

verus! {

/// The wall and light materials of the box.
pub open spec fn cornell_red() -> Material {
    Material::Lambertian {
        albedo: Texture::SolidColour { colour: (Vec3 { x: 650i64, y: 50i64, z: 50i64 }) },
    }
}

pub open spec fn cornell_white() -> Material {
    Material::Lambertian {
        albedo: Texture::SolidColour { colour: (Vec3 { x: 730i64, y: 730i64, z: 730i64 }) },
    }
}

pub open spec fn cornell_green() -> Material {
    Material::Lambertian {
        albedo: Texture::SolidColour { colour: (Vec3 { x: 120i64, y: 450i64, z: 150i64 }) },
    }
}

pub open spec fn cornell_light() -> Material {
    Material::DiffuseLight { emit: (Vec3 { x: 15000i64, y: 15000i64, z: 15000i64 }) }
}

/// The exact contents of the Cornell box scene: the six walls in
/// construction order, then the two transformed prisms.
pub open spec fn cornell_box_ok(w: HittableList) -> bool {
    &&& w.objects@.len() == 8
    &&& w.objects@[0] == Object::YzRect(
        (YzRectangle {
            y0: 0i64,
            y1: 555000i64,
            z0: 0i64,
            z1: 555000i64,
            k: 555000i64,
            material: cornell_green(),
        }),
    )
    &&& w.objects@[1] == Object::YzRect(
        (YzRectangle {
            y0: 0i64,
            y1: 555000i64,
            z0: 0i64,
            z1: 555000i64,
            k: 0i64,
            material: cornell_red(),
        }),
    )
    &&& w.objects@[2] == Object::XzRect(
        (XzRectangle {
            x0: 213000i64,
            x1: 343000i64,
            z0: 227000i64,
            z1: 332000i64,
            k: 554000i64,
            material: cornell_light(),
        }),
    )
    &&& w.objects@[3] == Object::XzRect(
        (XzRectangle {
            x0: 0i64,
            x1: 555000i64,
            z0: 0i64,
            z1: 555000i64,
            k: 0i64,
            material: cornell_white(),
        }),
    )
    &&& w.objects@[4] == Object::XzRect(
        (XzRectangle {
            x0: 0i64,
            x1: 555000i64,
            z0: 0i64,
            z1: 555000i64,
            k: 555000i64,
            material: cornell_white(),
        }),
    )
    &&& w.objects@[5] == Object::XyRect(
        (XyRectangle {
            x0: 0i64,
            x1: 555000i64,
            y0: 0i64,
            y1: 555000i64,
            k: 555000i64,
            material: cornell_white(),
        }),
    )
    &&& (w.objects@[6] matches Object::Affine(a) && {
        &&& a.inv_set
        &&& a.m == mat_mul_spec(rot_y_spec(966, 259), mat_identity())
        &&& a.inv == mat_mul_spec(mat_identity(), mat_transpose_spec(rot_y_spec(966, 259)))
        &&& a.tr == (Vec3 { x: 265000i64, y: 0i64, z: 295000i64 })
        &&& (*a.child matches Object::Prism(p) && {
            &&& p.min == (Vec3 { x: 0i64, y: 0i64, z: 0i64 })
            &&& p.max == (Vec3 { x: 165000i64, y: 330000i64, z: 165000i64 })
            &&& p.sides.objects@ =~= prism_sides_spec(
                (Vec3 { x: 0i64, y: 0i64, z: 0i64 }),
                (Vec3 { x: 165000i64, y: 330000i64, z: 165000i64 }),
                cornell_white(),
            )
        })
    })
    &&& (w.objects@[7] matches Object::Affine(a) && {
        &&& a.inv_set
        &&& a.m == mat_mul_spec(rot_y_spec(951, -309), mat_identity())
        &&& a.inv == mat_mul_spec(mat_identity(), mat_transpose_spec(rot_y_spec(951, -309)))
        &&& a.tr == (Vec3 { x: 130000i64, y: 0i64, z: 65000i64 })
        &&& (*a.child matches Object::Prism(p) && {
            &&& p.min == (Vec3 { x: 0i64, y: 0i64, z: 0i64 })
            &&& p.max == (Vec3 { x: 165000i64, y: 165000i64, z: 165000i64 })
            &&& p.sides.objects@ =~= prism_sides_spec(
                (Vec3 { x: 0i64, y: 0i64, z: 0i64 }),
                (Vec3 { x: 165000i64, y: 165000i64, z: 165000i64 }),
                cornell_white(),
            )
        })
    })
}

/// Assemble the Cornell box.
pub fn build_scene() -> (w: HittableList)
    ensures
        cornell_box_ok(w),
        list_wf(w),
{
    let mut objects = HittableList::new();

    let red = Material::Lambertian {
        albedo: Texture::SolidColour { colour: Colour { x: 650, y: 50, z: 50 } },
    };
    let white = Material::Lambertian {
        albedo: Texture::SolidColour { colour: Colour { x: 730, y: 730, z: 730 } },
    };
    let green = Material::Lambertian {
        albedo: Texture::SolidColour { colour: Colour { x: 120, y: 450, z: 150 } },
    };
    let light = Material::DiffuseLight { emit: Colour { x: 15000, y: 15000, z: 15000 } };

    // walls
    objects.add(Object::YzRect(YzRectangle::new(0, 555000, 0, 555000, 555000, green)));
    objects.add(Object::YzRect(YzRectangle::new(0, 555000, 0, 555000, 0, red)));
    objects.add(Object::XzRect(XzRectangle::new(213000, 343000, 227000, 332000, 554000, light)));
    objects.add(Object::XzRect(XzRectangle::new(0, 555000, 0, 555000, 0, white)));
    objects.add(Object::XzRect(XzRectangle::new(0, 555000, 0, 555000, 555000, white)));
    objects.add(Object::XyRect(XyRectangle::new(0, 555000, 0, 555000, 555000, white)));

    // boxes, rotated about `y` and translated into place
    let b = RectangularPrism::new(
        Vec3::zero(),
        Vec3::new(165000, 330000, 165000),
        white,
    );
    let mut transform = Affine::new(Object::Prism(b));
    transform.rotate_y(966, 259);
    transform.translate(265000, 0, 295000);
    transform.set_inverse();
    proof {
        crate::matrix::lemma_mat_identity_units(rot_y_spec(966, 259));
        crate::matrix::lemma_mat_identity_units(mat_transpose_spec(rot_y_spec(966, 259)));
        assert(transform.m == rot_y_spec(966, 259));
        assert(transform.inv == mat_transpose_spec(rot_y_spec(966, 259)));
        assert(crate::matrix::mat_bounded(transform.m, crate::matrix::MAT_MAX as int));
        assert(crate::matrix::mat_bounded(transform.inv, crate::matrix::MAT_MAX as int));
        assert(crate::vec3::bounded(transform.tr, crate::affine::TR_MAX as int));
        assert(transform.inv_set);
        assert(obj_wf(*transform.child));
        assert(obj_wf(Object::Affine(transform)));
    }
    objects.add(Object::Affine(transform));

    let b = RectangularPrism::new(Vec3::zero(), Vec3::from_value(165000), white);
    let mut transform = Affine::new(Object::Prism(b));
    transform.rotate_y(951, -309);
    transform.translate(130000, 0, 65000);
    transform.set_inverse();
    proof {
        crate::matrix::lemma_mat_identity_units(rot_y_spec(951, -309));
        crate::matrix::lemma_mat_identity_units(mat_transpose_spec(rot_y_spec(951, -309)));
        assert(transform.m == rot_y_spec(951, -309));
        assert(transform.inv == mat_transpose_spec(rot_y_spec(951, -309)));
        assert(crate::matrix::mat_bounded(transform.m, crate::matrix::MAT_MAX as int));
        assert(crate::matrix::mat_bounded(transform.inv, crate::matrix::MAT_MAX as int));
        assert(crate::vec3::bounded(transform.tr, crate::affine::TR_MAX as int));
        assert(transform.inv_set);
        assert(obj_wf(*transform.child));
        assert(obj_wf(Object::Affine(transform)));
    }
    objects.add(Object::Affine(transform));

    proof {
        let s = objects.objects@;
        assert forall|i: int| 0 <= i < s.len() implies obj_wf(#[trigger] s[i]) by {
            assert(obj_wf(s[0]));
            assert(obj_wf(s[1]));
            assert(obj_wf(s[2]));
            assert(obj_wf(s[3]));
            assert(obj_wf(s[4]));
            assert(obj_wf(s[5]));
            assert(obj_wf(s[6]));
            assert(obj_wf(s[7]));
        }
    }
    objects
}

} // verus!
