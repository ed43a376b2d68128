use vstd::prelude::*;

verus! {

/// A point, direction or colour in thousandths of a unit per component
/// (so 0.5 is written 500). Scene descriptions hold their decimal constants
/// exactly in this form; the renderer divides by 1000.
#[derive(Clone, Copy, Debug, PartialEq, Eq, Structural)]
pub struct FixedVec3 {
    pub x: i32,
    pub y: i32,
    pub z: i32,
}

/// The vector with the three given components (in thousandths).
pub open spec fn fixed(x: i32, y: i32, z: i32) -> FixedVec3 {
    FixedVec3 { x, y, z }
}

/// Material code of a matte (lambertian) surface.
pub const LAMBERTIAN: u8 = 0;

/// Material code of a metal surface.
pub const METAL: u8 = 1;

/// Material code of a dielectric (glass-like) surface.
pub const DIELECTRIC: u8 = 2;

/// An object of a ray-traced scene, with lengths, colours and fuzz in
/// thousandths.
#[derive(Clone, Copy, Debug, PartialEq, Eq, Structural)]
pub enum Shape {
    Plane {
        position: FixedVec3,
        orientation: FixedVec3,
        size: FixedVec3,
        material: u8,
        color: FixedVec3,
        fuzz: i32,
    },
    Sphere { center: FixedVec3, radius: i32, material: u8, color: FixedVec3, fuzz: i32 },
}

impl FixedVec3 {
    /// The vector with the given components, in thousandths.
    pub fn new(x: i32, y: i32, z: i32) -> (v: Self)
        ensures
            v == fixed(x, y, z),
    {
        FixedVec3 { x, y, z }
    }
}

} // verus!
