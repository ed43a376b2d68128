use crate::cpu_ray_tracer::tracer::held;
use crate::cpu_ray_tracer::tracer::KEY_A;
use crate::cpu_ray_tracer::tracer::KEY_D;
use crate::cpu_ray_tracer::tracer::KEY_E;
use crate::cpu_ray_tracer::tracer::KEY_Q;
use crate::cpu_ray_tracer::tracer::KEY_S;
use crate::cpu_ray_tracer::tracer::KEY_W;
use vstd::prelude::*;

verus! {

/// The key mask (`00EQADWS`) with one bit per held key.
pub open spec fn key_mask(e: bool, q: bool, a: bool, d: bool, w: bool, s: bool) -> u8 {
    ((if e { 32int } else { 0int }) + (if q { 16int } else { 0int }) + (if a { 8int } else { 0int })
        + (if d { 4int } else { 0int }) + (if w { 2int } else { 0int }) + (if s { 1int } else { 0int })) as u8
}

/// Builds the key mask the ray tracer reads from which of E, Q, A, D, W and
/// S are held.
pub fn encode_keys(e: bool, q: bool, a: bool, d: bool, w: bool, s: bool) -> (keys: u8)
    ensures
        keys == key_mask(e, q, a, d, w, s),
{
    let mut keys: u8 = 0;
    if e {
        keys += KEY_E;
    }
    if q {
        keys += KEY_Q;
    }
    if a {
        keys += KEY_A;
    }
    if d {
        keys += KEY_D;
    }
    if w {
        keys += KEY_W;
    }
    if s {
        keys += KEY_S;
    }
    keys
}

/// Reading back a key mask tells exactly which keys were held.
pub proof fn key_mask_round_trip(e: bool, q: bool, a: bool, d: bool, w: bool, s: bool)
    ensures
        held(key_mask(e, q, a, d, w, s), KEY_E) == (if e { 1int } else { 0int }),
        held(key_mask(e, q, a, d, w, s), KEY_Q) == (if q { 1int } else { 0int }),
        held(key_mask(e, q, a, d, w, s), KEY_A) == (if a { 1int } else { 0int }),
        held(key_mask(e, q, a, d, w, s), KEY_D) == (if d { 1int } else { 0int }),
        held(key_mask(e, q, a, d, w, s), KEY_W) == (if w { 1int } else { 0int }),
        held(key_mask(e, q, a, d, w, s), KEY_S) == (if s { 1int } else { 0int }),
{
    let m: u8 = key_mask(e, q, a, d, w, s);
    let be: u8 = if e { 32 } else { 0 };
    let bq: u8 = if q { 16 } else { 0 };
    let ba: u8 = if a { 8 } else { 0 };
    let bd: u8 = if d { 4 } else { 0 };
    let bw: u8 = if w { 2 } else { 0 };
    let bs: u8 = if s { 1 } else { 0 };
    assert(m == be | bq | ba | bd | bw | bs) by (bit_vector)
        requires
            m == (be + bq + ba + bd + bw + bs) as u8,
            be == 0 || be == 32,
            bq == 0 || bq == 16,
            ba == 0 || ba == 8,
            bd == 0 || bd == 4,
            bw == 0 || bw == 2,
            bs == 0 || bs == 1,
    ;
    assert((m & 32u8 == 32u8) == (be == 32) && (m & 16u8 == 16u8) == (bq == 16) && (m & 8u8 == 8u8)
        == (ba == 8) && (m & 4u8 == 4u8) == (bd == 4) && (m & 2u8 == 2u8) == (bw == 2) && (m & 1u8
        == 1u8) == (bs == 1)) by (bit_vector)
        requires
            m == be | bq | ba | bd | bw | bs,
            be == 0 || be == 32,
            bq == 0 || bq == 16,
            ba == 0 || ba == 8,
            bd == 0 || bd == 4,
            bw == 0 || bw == 2,
            bs == 0 || bs == 1,
    ;
}

} // verus!
