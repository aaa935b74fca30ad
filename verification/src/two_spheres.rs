//! Two large checkered spheres, one above and one below the origin.

use vstd::prelude::*;
use crate::vec3::Vec3;
use crate::colour::Colour;
use crate::textures::Texture;
use crate::materials::Material;
use crate::sphere::Sphere;
use crate::affine::Affine;
use crate::hittable_list::{HittableList, list_wf};
use crate::object::{Object, obj_wf};

verus! {

/// Assemble the two-sphere scene: each canonical sphere scaled tenfold
/// and translated ten units along `y`.
pub fn build_scene() -> (w: HittableList)
    ensures
        w.objects@.len() == 2,
        list_wf(w),
        w.objects@[0] matches Object::Affine(a) && a.inv_set,
        w.objects@[1] matches Object::Affine(a) && a.inv_set,
{
    let mut world = HittableList::new();

    let checker = Texture::Checker {
        odd: Colour { x: 200, y: 300, z: 100 },
        even: Colour { x: 900, y: 900, z: 900 },
    };
    let mat = Material::Lambertian { albedo: checker };

    let sphere = Sphere::canonical(mat);
    let mut transform = Affine::new(Object::Sphere(sphere));
    transform.scale_uniform(10000);
    transform.translate(0, -10000, 0);
    transform.set_inverse();
    proof {
        crate::matrix::lemma_mul_fx_units(10000);
        assert(crate::matrix::mat_bounded(transform.m, crate::matrix::MAT_MAX as int));
        assert(crate::matrix::mat_bounded(transform.inv, crate::matrix::MAT_MAX as int));
        assert(crate::vec3::bounded(transform.tr, crate::affine::TR_MAX as int));
        assert(obj_wf(*transform.child));
        assert(obj_wf(Object::Affine(transform)));
    }
    world.add(Object::Affine(transform));

    let sphere = Sphere::canonical(mat);
    let mut transform = Affine::new(Object::Sphere(sphere));
    transform.scale_uniform(10000);
    transform.translate(0, 10000, 0);
    transform.set_inverse();
    proof {
        crate::matrix::lemma_mul_fx_units(10000);
        assert(crate::matrix::mat_bounded(transform.m, crate::matrix::MAT_MAX as int));
        assert(crate::matrix::mat_bounded(transform.inv, crate::matrix::MAT_MAX as int));
        assert(crate::vec3::bounded(transform.tr, crate::affine::TR_MAX as int));
        assert(obj_wf(*transform.child));
        assert(obj_wf(Object::Affine(transform)));
    }
    world.add(Object::Affine(transform));

    proof {
        let s = world.objects@;
        assert forall|i: int| 0 <= i < s.len() implies obj_wf(#[trigger] s[i]) by {
            assert(obj_wf(s[0]));
            assert(obj_wf(s[1]));
        }
    }
    world
}

} // verus!
