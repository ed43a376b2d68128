use crate::cpu_ray_tracer::shapes::fixed;
use crate::cpu_ray_tracer::shapes::FixedVec3;
use crate::cpu_ray_tracer::shapes::Shape;
use crate::cpu_ray_tracer::shapes::LAMBERTIAN;
use crate::cpu_ray_tracer::shapes::METAL;
use vstd::prelude::*;

verus! {

/// The `i`-th of the three blue-ish metal panels standing side by side at
/// x = 1, two units apart along z, each greener than the last.
pub open spec fn side_panel(i: int) -> Shape {
    Shape::Plane {
        position: fixed(1000i32, 0i32, (-2000 + 2000 * i) as i32),
        orientation: fixed(1000i32, 0i32, 0i32),
        size: fixed(1000i32, 1000i32, 1000i32),
        material: METAL,
        color: fixed(9i32, (200 + 100 * i) as i32, 900i32),
        fuzz: 0,
    }
}

/// The path tracer's plane scene: a grey metal wall, three side panels and
/// a slightly fuzzy blue metal sphere at the origin.
pub open spec fn plane_scene() -> Seq<Shape> {
    seq![
        Shape::Plane {
            position: fixed(-1000i32, 0i32, 0i32),
            orientation: fixed(-1000i32, 0i32, 0i32),
            size: fixed(2000i32, 2000i32, 2000i32),
            material: METAL,
            color: fixed(800i32, 800i32, 800i32),
            fuzz: 0,
        },
    ] + Seq::new(3, |i: int| side_panel(i)) + seq![
        Shape::Sphere {
            center: fixed(0i32, 0i32, 0i32),
            radius: 500,
            material: METAL,
            color: fixed(300i32, 300i32, 980i32),
            fuzz: 100,
        },
    ]
}

/// The path tracer's simple scene: two grey matte spheres side by side on
/// a large purple matte sphere.
pub open spec fn simple_scene() -> Seq<Shape> {
    seq![
        Shape::Sphere {
            center: fixed(-500i32, 0i32, 0i32),
            radius: 500,
            material: LAMBERTIAN,
            color: fixed(500i32, 500i32, 500i32),
            fuzz: 0,
        },
        Shape::Sphere {
            center: fixed(500i32, 0i32, 0i32),
            radius: 500,
            material: LAMBERTIAN,
            color: fixed(700i32, 700i32, 700i32),
            fuzz: 0,
        },
        Shape::Sphere {
            center: fixed(0i32, -100500i32, 0i32),
            radius: 100000,
            material: LAMBERTIAN,
            color: fixed(700i32, 100i32, 700i32),
            fuzz: 0,
        },
    ]
}

/// The objects of the path tracer's simple scene.
pub fn get_simple_scene() -> (objects: Vec<Shape>)
    ensures
        objects@ == simple_scene(),
{
    let mut objects: Vec<Shape> = Vec::new();
    objects.push(
        Shape::Sphere {
            center: FixedVec3::new(-500, 0, 0),
            radius: 500,
            material: LAMBERTIAN,
            color: FixedVec3::new(500, 500, 500),
            fuzz: 0,
        },
    );
    objects.push(
        Shape::Sphere {
            center: FixedVec3::new(500, 0, 0),
            radius: 500,
            material: LAMBERTIAN,
            color: FixedVec3::new(700, 700, 700),
            fuzz: 0,
        },
    );
    objects.push(
        Shape::Sphere {
            center: FixedVec3::new(0, -100500, 0),
            radius: 100000,
            material: LAMBERTIAN,
            color: FixedVec3::new(700, 100, 700),
            fuzz: 0,
        },
    );
    assert(objects@ =~= simple_scene());
    objects
}

/// The objects of the path tracer's plane scene.
pub fn get_plane_scene() -> (objects: Vec<Shape>)
    ensures
        objects@ == plane_scene(),
{
    let mut objects: Vec<Shape> = Vec::new();
    objects.push(
        Shape::Plane {
            position: FixedVec3::new(-1000, 0, 0),
            orientation: FixedVec3::new(-1000, 0, 0),
            size: FixedVec3::new(2000, 2000, 2000),
            material: METAL,
            color: FixedVec3::new(800, 800, 800),
            fuzz: 0,
        },
    );
    let mut i: i32 = 0;
    while i < 3
        invariant
            0 <= i <= 3,
            objects@.len() == 1 + i,
            objects@[0] == plane_scene()[0],
            forall|k: int| 0 <= k < i ==> #[trigger] objects@[1 + k] == side_panel(k),
        decreases 3 - i,
    {
        objects.push(
            Shape::Plane {
                position: FixedVec3::new(1000, 0, -2000 + i * 2000),
                orientation: FixedVec3::new(1000, 0, 0),
                size: FixedVec3::new(1000, 1000, 1000),
                material: METAL,
                color: FixedVec3::new(9, 200 + i * 100, 900),
                fuzz: 0,
            },
        );
        i += 1;
    }
    let ghost mid = objects@;
    objects.push(
        Shape::Sphere {
            center: FixedVec3::new(0, 0, 0),
            radius: 500,
            material: METAL,
            color: FixedVec3::new(300, 300, 980),
            fuzz: 100,
        },
    );
    proof {
        assert forall|k: int| 1 <= k < 4 implies #[trigger] objects@[k] == plane_scene()[k] by {
            assert(mid[1 + (k - 1)] == side_panel(k - 1));
        }
    }
    assert(objects@ =~= plane_scene());
    objects
}

} // verus!
