pub mod scenes;

use crate::cpu_ray_tracer::tracer::held;
use crate::cpu_ray_tracer::tracer::KeyDelta;
use crate::cpu_ray_tracer::tracer::KEY_A;
use crate::cpu_ray_tracer::tracer::KEY_D;
use crate::cpu_ray_tracer::tracer::KEY_S;
use crate::cpu_ray_tracer::tracer::KEY_W;
use vstd::prelude::*;

verus! {

/// The camera velocity the path tracer's keys ask for (key mask
/// `0000ADWS`), in steps of 0.02 per unit of frame time: A moves along -x
/// and D along +x, W along -z and S along +z; opposite keys cancel.
pub fn velocity_delta(keys: u8) -> (d: KeyDelta)
    ensures
        d.x == held(keys, KEY_D) - held(keys, KEY_A),
        d.y == 0,
        d.z == held(keys, KEY_S) - held(keys, KEY_W),
{
    let mut x: i8 = 0;
    let mut z: i8 = 0;
    if keys & KEY_A == KEY_A {
        x = x - 1;
    }
    if keys & KEY_D == KEY_D {
        x = x + 1;
    }
    if keys & KEY_W == KEY_W {
        z = z - 1;
    }
    if keys & KEY_S == KEY_S {
        z = z + 1;
    }
    KeyDelta { x, y: 0, z }
}

} // verus!
