use jgfxlib::aa_rectangles::{XyRectangle, XzRectangle, YzRectangle};
use jgfxlib::affine::Affine;
use jgfxlib::camera::Camera;
use jgfxlib::colour::{channel_to_byte, Colour};
use jgfxlib::constant_medium::ConstantMedium;
use jgfxlib::constants::{EPSILON, INFINITY};
use jgfxlib::cornell_box;
use jgfxlib::cornell_smoke;
use jgfxlib::fixed::{fx_div, fx_mul, isqrt, sqrt_fx};
use jgfxlib::hittable_list::HittableList;
use jgfxlib::materials::{MatPdf, Material};
use jgfxlib::object::Object;
use jgfxlib::pdfs::{HittablePdf, MixturePdf};
use jgfxlib::random::rng_from_seed;
use jgfxlib::ray::Ray;
use jgfxlib::rect_prism::RectangularPrism;
use jgfxlib::renderer::Renderer;
use jgfxlib::scene::Scene;
use jgfxlib::textures::Texture;
use jgfxlib::vec3::Vec3;

fn white() -> Material {
    Material::Lambertian {
        albedo: Texture::SolidColour {
            colour: Colour {
                x: 730,
                y: 730,
                z: 730,
            },
        },
    }
}

fn light() -> Material {
    Material::DiffuseLight {
        emit: Colour {
            x: 15000,
            y: 15000,
            z: 15000,
        },
    }
}

#[test]
fn fixed_point_products_truncate_toward_zero() {
    assert_eq!(fx_mul(1500, 2000), 3000);
    assert_eq!(fx_mul(-1500, 2000), -3000);
    assert_eq!(fx_mul(1, 1), 0);
    assert_eq!(fx_mul(999, -999), -998);
    assert_eq!(fx_div(1000, 3), 333333);
    assert_eq!(fx_div(-1000, 3), -333333);
    assert_eq!(fx_div(1000, -3), -333333);
}

#[test]
fn integer_square_roots_are_floors() {
    assert_eq!(isqrt(0), 0);
    assert_eq!(isqrt(15), 3);
    assert_eq!(isqrt(16), 4);
    assert_eq!(isqrt(1_000_000), 1000);
    assert_eq!(sqrt_fx(1000), 1000);
    assert_eq!(sqrt_fx(250), 500);
}

#[test]
fn tone_mapping_is_square_root_gamma() {
    assert_eq!(channel_to_byte(0), 0);
    assert_eq!(channel_to_byte(-5), 0);
    assert_eq!(channel_to_byte(1000), 255);
    assert_eq!(channel_to_byte(5000), 255);
    assert_eq!(channel_to_byte(250), 128);
}

#[test]
fn rectangle_reports_analytic_hit_parameter() {
    // a ray along +z from five units out meets the plane z = 0 at t = 5
    let rect = XyRectangle::new(-1000, 1000, -1000, 1000, 0, white());
    let ray = Ray::new(Vec3::new(0, 0, -5000), Vec3::new(0, 0, 1000), 0);
    let mut rng = rng_from_seed(7);
    let rec = rect
        .intersect(&mut rng, &ray, EPSILON, INFINITY)
        .expect("the ray must hit the rectangle");
    assert_eq!(rec.t, 5000);
    assert_eq!(rec.p, Vec3::new(0, 0, 0));
    // the corrected normal is the unit -z axis
    assert_eq!(rec.normal, Vec3::new(0, 0, -1000));
    let len_sq = rec.normal.x * rec.normal.x + rec.normal.y * rec.normal.y
        + rec.normal.z * rec.normal.z;
    assert_eq!(len_sq, 1000 * 1000);
}

#[test]
fn hit_normals_oppose_the_ray() {
    let rect = XzRectangle::new(-1000, 1000, -1000, 1000, 0, white());
    let mut rng = rng_from_seed(7);
    for (oy, dy) in [(-4000i64, 1000i64), (4000, -1000)] {
        let ray = Ray::new(Vec3::new(0, oy, 0), Vec3::new(0, dy, 0), 0);
        let rec = rect
            .intersect(&mut rng, &ray, EPSILON, INFINITY)
            .expect("the ray must hit the rectangle");
        let dot = rec.normal.x * ray.dir.x + rec.normal.y * ray.dir.y + rec.normal.z * ray.dir.z;
        assert!(dot <= 0);
    }
}

#[test]
fn list_reports_nearest_hit_in_any_order() {
    let ray = Ray::new(Vec3::new(0, 0, -5000), Vec3::new(0, 0, 1000), 0);
    let mut rng = rng_from_seed(7);
    for near_first in [true, false] {
        let near = Object::XyRect(XyRectangle::new(-1000, 1000, -1000, 1000, 0, white()));
        let far = Object::XyRect(XyRectangle::new(-1000, 1000, -1000, 1000, 2000, white()));
        let mut list = HittableList::new();
        if near_first {
            list.add(near);
            list.add(far);
        } else {
            list.add(far);
            list.add(near);
        }
        let rec = list
            .intersect(&mut rng, &ray, EPSILON, INFINITY)
            .expect("the ray must hit the list");
        assert_eq!(rec.t, 5000);
    }
}

#[test]
fn translated_prism_hits_where_the_pulled_back_ray_does() {
    // intersecting the translated prism equals intersecting the bare
    // prism with the inversely translated ray, then translating back
    let prism = RectangularPrism::new(Vec3::zero(), Vec3::from_value(1000), white());
    let mut transform = Affine::new(Object::Prism(prism));
    transform.translate(1000, 0, 0);
    transform.set_inverse();
    let mut rng = rng_from_seed(7);
    let ray = Ray::new(Vec3::new(1500, 500, -5000), Vec3::new(0, 0, 1000), 0);
    let rec = transform
        .intersect(&mut rng, &ray, EPSILON, INFINITY)
        .expect("the ray must hit the translated prism");

    let bare = RectangularPrism::new(Vec3::zero(), Vec3::from_value(1000), white());
    let pulled = Ray::new(Vec3::new(500, 500, -5000), Vec3::new(0, 0, 1000), 0);
    let bare_rec = bare
        .intersect(&mut rng, &pulled, EPSILON, INFINITY)
        .expect("the pulled-back ray must hit the bare prism");
    assert_eq!(rec.t, bare_rec.t);
    assert_eq!(rec.p.x, bare_rec.p.x + 1000);
    assert_eq!(rec.p.y, bare_rec.p.y);
    assert_eq!(rec.p.z, bare_rec.p.z);
}

#[test]
fn rotated_prism_still_reports_opposing_normals() {
    let prism = RectangularPrism::new(Vec3::zero(), Vec3::from_value(1000), white());
    let mut transform = Affine::new(Object::Prism(prism));
    transform.rotate_y(966, 259);
    transform.translate(0, 0, 3000);
    transform.set_inverse();
    let mut rng = rng_from_seed(7);
    let ray = Ray::new(Vec3::new(400, 500, -5000), Vec3::new(0, 0, 1000), 0);
    let rec = transform
        .intersect(&mut rng, &ray, EPSILON, INFINITY)
        .expect("the ray must hit the rotated prism");
    let dot = rec.normal.x * ray.dir.x + rec.normal.y * ray.dir.y + rec.normal.z * ray.dir.z;
    assert!(dot <= 0);
}

#[test]
fn vanishing_density_never_scatters() {
    // density one thousandth: the free path always overshoots the box
    let prism = RectangularPrism::new(Vec3::zero(), Vec3::from_value(1000), white());
    let medium = ConstantMedium::new(
        Object::Prism(prism),
        1,
        Colour { x: 500, y: 500, z: 500 },
    );
    let ray = Ray::new(Vec3::new(500, 500, -2000), Vec3::new(0, 0, 1000), 0);
    for seed in 0..100u64 {
        let mut rng = rng_from_seed(seed);
        assert!(medium.intersect(&mut rng, &ray, EPSILON, INFINITY).is_none());
    }
}

#[test]
fn high_density_almost_always_scatters() {
    // density one thousand: the free path almost always fits the box
    let prism = RectangularPrism::new(Vec3::zero(), Vec3::from_value(1000), white());
    let medium = ConstantMedium::new(
        Object::Prism(prism),
        1_000_000,
        Colour { x: 500, y: 500, z: 500 },
    );
    let ray = Ray::new(Vec3::new(500, 500, -2000), Vec3::new(0, 0, 1000), 0);
    let mut scatters = 0;
    for seed in 0..100u64 {
        let mut rng = rng_from_seed(seed);
        if let Some(rec) = medium.intersect(&mut rng, &ray, EPSILON, INFINITY) {
            assert!(rec.t >= 2000);
            assert!(rec.t <= 3000);
            assert_eq!(rec.u, 0);
            assert_eq!(rec.v, 0);
            assert!(rec.normal == Vec3::new(1000, 0, 0) || rec.normal == Vec3::new(-1000, 0, 0));
            assert!(matches!(rec.material, Material::Isotropic { .. }));
            scatters += 1;
        }
    }
    assert!(scatters >= 95);
}

#[test]
fn medium_inverse_density_is_exact() {
    let prism = RectangularPrism::new(Vec3::zero(), Vec3::from_value(1000), white());
    let medium = ConstantMedium::new(
        Object::Prism(prism),
        10,
        Colour { x: 0, y: 0, z: 0 },
    );
    assert_eq!(medium.neg_inv_density, -100_000);
}

fn light_only_scene() -> Scene {
    let mut world = HittableList::new();
    world.add(Object::XzRect(XzRectangle::new(
        213000, 343000, 227000, 332000, 554000,
        light(),
    )));
    let mut lights = HittableList::new();
    lights.add(Object::XzRect(XzRectangle::new(
        213000, 343000, 227000, 332000, 554000,
        light(),
    )));
    let camera = Camera::new(
        Vec3::new(278000 / 100, 600000 / 100, 278000 / 100),
        Vec3::new(-1000, -1000, 1000),
        Vec3::new(2000, 0, 0),
        Vec3::new(0, 2000, 0),
        0,
    );
    Scene::new(
        Object::List(world),
        Object::List(lights),
        camera,
        Colour {
            x: 100,
            y: 200,
            z: 300,
        },
    )
}

#[test]
fn direct_light_hit_returns_exactly_the_emission() {
    let scene = light_only_scene();
    let renderer = Renderer::new();
    let mut rng = rng_from_seed(3);
    // straight down onto the front face of the light
    let ray = Ray::new(Vec3::new(278000, 600000, 278000), Vec3::new(0, -1000, 0), 0);
    let col = renderer.path_trace(&mut rng, &scene, ray, 1);
    assert_eq!(col, Vec3::new(15000, 15000, 15000));
}

#[test]
fn missing_everything_returns_exactly_the_background() {
    let scene = light_only_scene();
    let renderer = Renderer::new();
    let mut rng = rng_from_seed(3);
    let ray = Ray::new(Vec3::new(278000, 600000, 278000), Vec3::new(0, 1000, 0), 0);
    let col = renderer.path_trace(&mut rng, &scene, ray, 1);
    assert_eq!(col, Vec3::new(100, 200, 300));
}

#[test]
fn radiance_is_never_negative() {
    let scene = light_only_scene();
    let renderer = Renderer::new();
    for seed in 0..20u64 {
        let mut rng = rng_from_seed(seed);
        let dx = (seed as i64 % 7) * 100 - 300;
        let ray = Ray::new(Vec3::new(278000, 600000, 278000), Vec3::new(dx, -1000, 0), 0);
        let col = renderer.path_trace(&mut rng, &scene, ray, 8);
        assert!(col.x >= 0 && col.y >= 0 && col.z >= 0);
    }
}

#[test]
fn renders_are_reproducible_per_seed() {
    let scene = light_only_scene();
    let mut renderer = Renderer::new();
    renderer.set_num_samples(2);
    renderer.set_depth(3);
    let mut rng_a = rng_from_seed(42);
    let img_a = renderer.render(&mut rng_a, &scene, 4, 4);
    let mut rng_b = rng_from_seed(42);
    let img_b = renderer.render(&mut rng_b, &scene, 4, 4);
    assert_eq!(img_a.len(), 48);
    assert_eq!(img_a, img_b);
}

#[test]
fn configuration_is_floored_at_one() {
    let mut renderer = Renderer::new();
    renderer.set_num_samples(0);
    renderer.set_depth(0);
    renderer.set_multithreading(true);
    assert_eq!(renderer.num_samples, 1);
    assert_eq!(renderer.depth, 1);
    assert!(renderer.multithreading());
}

#[test]
fn cornell_scenes_hold_eight_objects() {
    let world = cornell_box::build_scene();
    assert_eq!(world.objects.len(), 8);
    let smoke = cornell_smoke::build_scene();
    assert_eq!(smoke.objects.len(), 8);
}

#[test]
fn cornell_box_traces_without_panicking() {
    let world = cornell_box::build_scene();
    let mut lights = HittableList::new();
    lights.add(Object::XzRect(XzRectangle::new(
        213000, 343000, 227000, 332000, 554000,
        light(),
    )));
    let camera = Camera::new(
        Vec3::new(278000 / 100, 278000 / 100, -800000 / 100),
        Vec3::new(-2000, -2000, 2000),
        Vec3::new(4000, 0, 0),
        Vec3::new(0, 4000, 0),
        0,
    );
    let scene = Scene::new(
        Object::List(world),
        Object::List(lights),
        camera,
        Colour { x: 0, y: 0, z: 0 },
    );
    let mut renderer = Renderer::new();
    renderer.set_num_samples(1);
    renderer.set_depth(2);
    let mut rng = rng_from_seed(5);
    let img = renderer.render(&mut rng, &scene, 4, 4);
    assert_eq!(img.len(), 48);
}

#[test]
fn mixture_density_is_the_mean_of_both_parts() {
    // a direction that misses the light has density zero toward it, so
    // the mixture is half the material's hemisphere density
    let lights = Object::XzRect(XzRectangle::new(
        213000, 343000, 227000, 332000, 554000,
        light(),
    ));
    let origin = Vec3::new(278000, 100000, 278000);
    let mut rng = rng_from_seed(9);
    let hp = HittablePdf::new(&lights, origin);
    let mix = MixturePdf::new(
        hp,
        MatPdf::Hemisphere {
            normal: Vec3::new(0, -1000, 0),
        },
    );
    let down = Vec3::new(0, -1000, 0);
    let v = mix.value(&mut rng, &down);
    assert_eq!(v, 79);
}

#[test]
fn checker_texture_alternates_cells() {
    let t = Texture::Checker {
        odd: Colour { x: 0, y: 0, z: 0 },
        even: Colour {
            x: 1000,
            y: 1000,
            z: 1000,
        },
    };
    let a = t.value(0, 0, &Vec3::new(500, 500, 500));
    let b = t.value(0, 0, &Vec3::new(1500, 500, 500));
    assert_eq!(a, Colour { x: 1000, y: 1000, z: 1000 });
    assert_eq!(b, Colour { x: 0, y: 0, z: 0 });
}

#[test]
fn prism_faces_cover_both_extremes() {
    let prism = RectangularPrism::canonical(white());
    assert_eq!(prism.sides.objects.len(), 6);
    let mut rng = rng_from_seed(1);
    // from the left, the yz face at x = 0 is hit first
    let ray = Ray::new(Vec3::new(-3000, 500, 500), Vec3::new(1000, 0, 0), 0);
    let rec = prism
        .intersect(&mut rng, &ray, EPSILON, INFINITY)
        .expect("the ray must hit the prism");
    assert_eq!(rec.t, 3000);
    assert_eq!(rec.normal, Vec3::new(-1000, 0, 0));
}

#[test]
fn yz_rectangle_confines_hits_to_its_extent() {
    let rect = YzRectangle::new(-1000, 1000, -1000, 1000, 0, white());
    let mut rng = rng_from_seed(1);
    let hit = Ray::new(Vec3::new(-5000, 0, 0), Vec3::new(1000, 0, 0), 0);
    assert!(rect.intersect(&mut rng, &hit, EPSILON, INFINITY).is_some());
    let miss = Ray::new(Vec3::new(-5000, 2000, 0), Vec3::new(1000, 0, 0), 0);
    assert!(rect.intersect(&mut rng, &miss, EPSILON, INFINITY).is_none());
}

#[test]
fn sphere_reports_analytic_hit_parameter() {
    // a ray along +z from five units out meets the unit sphere at t = 4
    let sphere = jgfxlib::sphere::Sphere::canonical(white());
    let ray = Ray::new(Vec3::new(0, 0, -5000), Vec3::new(0, 0, 1000), 0);
    let mut rng = rng_from_seed(11);
    let rec = sphere
        .intersect(&mut rng, &ray, EPSILON, INFINITY)
        .expect("the ray must hit the sphere");
    assert_eq!(rec.t, 4000);
    assert_eq!(rec.p, Vec3::new(0, 0, -1000));
    assert_eq!(rec.normal, Vec3::new(0, 0, -1000));
    assert!(rec.front_face);
}

#[test]
fn scaled_sphere_hits_at_the_scaled_parameter() {
    // a tenfold sphere from fifty units out is met at t = 40
    let sphere = jgfxlib::sphere::Sphere::canonical(white());
    let mut transform = Affine::new(Object::Sphere(sphere));
    transform.scale_uniform(10000);
    transform.set_inverse();
    let ray = Ray::new(Vec3::new(0, 0, -50000), Vec3::new(0, 0, 1000), 0);
    let mut rng = rng_from_seed(11);
    let rec = transform
        .intersect(&mut rng, &ray, EPSILON, INFINITY)
        .expect("the ray must hit the scaled sphere");
    assert_eq!(rec.t, 40000);
    assert_eq!(rec.p, Vec3::new(0, 0, -10000));
}

#[test]
fn two_sphere_scene_holds_two_transforms() {
    let world = jgfxlib::two_spheres::build_scene();
    assert_eq!(world.objects.len(), 2);
}

#[test]
fn bvh_and_flat_list_agree_on_every_ray() {
    // the same primitives, intersected directly and through the tree,
    // must report identical nearest hits for a whole set of rays
    fn walls() -> HittableList {
        let mut list = HittableList::new();
        list.add(Object::YzRect(YzRectangle::new(0, 555000, 0, 555000, 555000, white())));
        list.add(Object::YzRect(YzRectangle::new(0, 555000, 0, 555000, 0, white())));
        list.add(Object::XzRect(XzRectangle::new(213000, 343000, 227000, 332000, 554000, light())));
        list.add(Object::XzRect(XzRectangle::new(0, 555000, 0, 555000, 0, white())));
        list.add(Object::XzRect(XzRectangle::new(0, 555000, 0, 555000, 555000, white())));
        list.add(Object::XyRect(XyRectangle::new(0, 555000, 0, 555000, 555000, white())));
        list
    }
    let flat = Object::List(walls());
    let tree = jgfxlib::bvh::BvhNode::new(walls(), (0, 0));
    let mut rng = rng_from_seed(17);
    for i in 0..50i64 {
        let dx = (i % 10) * 100 - 500;
        let dy = (i % 7) * 150 - 450;
        let ray = Ray::new(
            Vec3::new(278000, 278000, -800000),
            Vec3::new(dx, dy, 1000),
            0,
        );
        let a = flat.intersect(&mut rng, &ray, EPSILON, INFINITY);
        let b = tree.intersect(&mut rng, &ray, EPSILON, INFINITY);
        match (a, b) {
            (None, None) => {}
            (Some(x), Some(y)) => {
                assert_eq!(x.t, y.t);
                assert_eq!(x.p, y.p);
                assert_eq!(x.material, y.material);
            }
            _ => panic!("tree and list disagree on whether the ray hits"),
        }
    }
}
