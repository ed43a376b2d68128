use crate::cpu_ray_tracer::shapes::fixed;
use crate::cpu_ray_tracer::shapes::FixedVec3;
use crate::cpu_ray_tracer::shapes::Shape;
use crate::cpu_ray_tracer::shapes::LAMBERTIAN;
use crate::cpu_ray_tracer::shapes::METAL;
use vstd::prelude::*;

verus! {

/// The simple scene: a metal backdrop plane facing the camera, two matte
/// spheres side by side, and a very large matte sphere as the ground.
pub open spec fn simple_scene() -> Seq<Shape> {
    seq![
        Shape::Plane {
            position: fixed(-1000i32, 0i32, 0i32),
            orientation: fixed(0i32, 0i32, 0i32),
            size: fixed(5000i32, 5000i32, 5000i32),
            material: METAL,
            color: fixed(1000i32, 300i32, 300i32),
            fuzz: 50,
        },
        Shape::Sphere {
            center: fixed(-500i32, 0i32, 0i32),
            radius: 500,
            material: LAMBERTIAN,
            color: fixed(0i32, 660i32, 130i32),
            fuzz: 0,
        },
        Shape::Sphere {
            center: fixed(500i32, 0i32, 0i32),
            radius: 500,
            material: LAMBERTIAN,
            color: fixed(700i32, 430i32, 0i32),
            fuzz: 0,
        },
        Shape::Sphere {
            center: fixed(0i32, -1000500i32, 0i32),
            radius: 1000000,
            material: LAMBERTIAN,
            color: fixed(300i32, 300i32, 300i32),
            fuzz: 1000,
        },
    ]
}

/// The plane scene: one large green metal plane.
pub open spec fn plane_scene() -> Seq<Shape> {
    seq![
        Shape::Plane {
            position: fixed(-1000i32, 0i32, 0i32),
            orientation: fixed(0i32, 0i32, 0i32),
            size: fixed(100000i32, 100000i32, 100000i32),
            material: METAL,
            color: fixed(100i32, 900i32, 100i32),
            fuzz: 0,
        },
    ]
}

/// The objects of the simple scene.
pub fn get_simple_scene() -> (objects: Vec<Shape>)
    ensures
        objects@ == simple_scene(),
{
    let mut objects: Vec<Shape> = Vec::new();
    objects.push(
        Shape::Plane {
            position: FixedVec3::new(-1000, 0, 0),
            orientation: FixedVec3::new(0, 0, 0),
            size: FixedVec3::new(5000, 5000, 5000),
            material: METAL,
            color: FixedVec3::new(1000, 300, 300),
            fuzz: 50,
        },
    );
    objects.push(
        Shape::Sphere {
            center: FixedVec3::new(-500, 0, 0),
            radius: 500,
            material: LAMBERTIAN,
            color: FixedVec3::new(0, 660, 130),
            fuzz: 0,
        },
    );
    objects.push(
        Shape::Sphere {
            center: FixedVec3::new(500, 0, 0),
            radius: 500,
            material: LAMBERTIAN,
            color: FixedVec3::new(700, 430, 0),
            fuzz: 0,
        },
    );
    objects.push(
        Shape::Sphere {
            center: FixedVec3::new(0, -1000500, 0),
            radius: 1000000,
            material: LAMBERTIAN,
            color: FixedVec3::new(300, 300, 300),
            fuzz: 1000,
        },
    );
    assert(objects@ =~= simple_scene());
    objects
}

/// The objects of the plane scene.
pub fn get_plane_scene() -> (objects: Vec<Shape>)
    ensures
        objects@ == plane_scene(),
{
    let mut objects: Vec<Shape> = Vec::new();
    objects.push(
        Shape::Plane {
            position: FixedVec3::new(-1000, 0, 0),
            orientation: FixedVec3::new(0, 0, 0),
            size: FixedVec3::new(100000, 100000, 100000),
            material: METAL,
            color: FixedVec3::new(100, 900, 100),
            fuzz: 0,
        },
    );
    assert(objects@ =~= plane_scene());
    objects
}

} // verus!
