use vstd::prelude::*;

verus! {

/// Rings of latitude bands from pole to pole.
pub const STACK_COUNT: usize = 8;

/// Slices of longitude around the axis.
pub const SECTOR_COUNT: usize = 12;

/// Vertices of the sphere: one per stack boundary and sector boundary.
pub const VERTEX_COUNT: usize = 117;

/// Length of the index buffer: six slots per vertex, of which the triangles
/// fill the first 504 and the rest stay zero.
pub const INDEX_COUNT: usize = 702;

/// Index slots filled by triangles.
pub const TRIANGLE_INDEX_COUNT: usize = 504;

/// Corner `r` of the quad between stack `i` and the next one, at sector
/// `s`: the quad's top-left vertex is `k1 = i * 13 + s` and its
/// bottom-left `k2 = k1 + 13`; corners 0 to 2 are the triangle
/// (k1, k1 + 1, k2) and corners 3 to 5 the triangle (k1 + 1, k2 + 1, k2).
pub open spec fn sphere_corner(i: int, s: int, r: int) -> int {
    let k1 = i * 13 + s;
    let k2 = k1 + 13;
    if r == 0 {
        k1
    } else if r == 1 {
        k1 + 1
    } else if r == 2 {
        k2
    } else if r == 3 {
        k1 + 1
    } else if r == 4 {
        k2 + 1
    } else {
        k2
    }
}

/// The index at slot `p` of the sphere's index buffer. The first stack
/// touches the north pole and keeps only the second triangle of each quad
/// (slots 0 to 35); stacks 1 to 6 keep both (six slots per sector, 72 per
/// stack); the last stack touches the south pole and keeps only the first
/// triangle (slots 468 to 503). The remaining slots are zero.
pub open spec fn sphere_index(p: int) -> int {
    if p < 36 {
        sphere_corner(0, p / 3, 3 + p % 3)
    } else if p < 468 {
        let q = p - 36;
        sphere_corner(1 + q / 72, (q % 72) / 6, (q % 72) % 6)
    } else if p < 504 {
        let q = p - 468;
        sphere_corner(7, q / 3, q % 3)
    } else {
        0
    }
}

/// First slot used by stack `i`.
pub open spec fn row_start(i: int) -> int {
    if i == 0 {
        0
    } else if i <= 7 {
        36 + 72 * (i - 1)
    } else {
        504
    }
}

/// Slots used by the first `s` sectors of stack `i`: three per sector at
/// the poles, six elsewhere.
pub open spec fn slots_before(i: int, s: int) -> int {
    if i == 0 || i == 7 {
        3 * s
    } else {
        6 * s
    }
}

/// Slot `k` of sector `s` of stack `i` holds corner `k` of the quad, or, in
/// the first stack, corner `k + 3`.
proof fn sphere_slot(i: int, s: int, k: int)
    requires
        0 <= i < 8,
        0 <= s < 12,
        0 <= k < (if i == 0 || i == 7 { 3int } else { 6int }),
    ensures
        sphere_index(row_start(i) + slots_before(i, s) + k) == sphere_corner(
            i,
            s,
            if i == 0 { k + 3 } else { k },
        ),
{
    let p = row_start(i) + slots_before(i, s) + k;
    if i == 0 {
        assert(p / 3 == s && p % 3 == k);
    } else if i == 7 {
        assert((p - 468) / 3 == s && (p - 468) % 3 == k);
    } else {
        let q = p - 36;
        assert(q == 72 * (i - 1) + (6 * s + k));
        assert(q / 72 == i - 1 && q % 72 == 6 * s + k);
        assert((6 * s + k) / 6 == s && (6 * s + k) % 6 == k);
    }
}

/// The index buffer of the UV sphere: 702 slots, as `sphere_index`
/// describes them.
pub fn calculate_indices() -> (indices: Vec<u16>)
    ensures
        indices@.len() == INDEX_COUNT,
        forall|p: int| 0 <= p < INDEX_COUNT ==> #[trigger] indices@[p] as int == sphere_index(p),
{
    let mut indices: Vec<u16> = Vec::new();
    let mut i: usize = 0;
    while i < STACK_COUNT
        invariant
            i <= STACK_COUNT,
            indices@.len() == row_start(i as int),
            forall|p: int| 0 <= p < indices@.len() ==> #[trigger] indices@[p] as int == sphere_index(p),
        decreases STACK_COUNT - i,
    {
        let mut k1: u16 = (i as u16) * 13;
        let mut k2: u16 = k1 + 13;
        let mut s: usize = 0;
        while s < SECTOR_COUNT
            invariant
                i < STACK_COUNT,
                s <= SECTOR_COUNT,
                k1 == i * 13 + s,
                k2 == k1 + 13,
                indices@.len() == row_start(i as int) + slots_before(i as int, s as int),
                forall|p: int| 0 <= p < indices@.len() ==> #[trigger] indices@[p] as int == sphere_index(p),
            decreases SECTOR_COUNT - s,
        {
            let ghost base = indices@.len();
            if i != 0 {
                indices.push(k1);
                indices.push(k1 + 1);
                indices.push(k2);
            }
            if i != STACK_COUNT - 1 {
                indices.push(k1 + 1);
                indices.push(k2 + 1);
                indices.push(k2);
            }
            proof {
                assert forall|p: int| 0 <= p < indices@.len() implies #[trigger] indices@[p] as int
                    == sphere_index(p) by {
                    if p >= base {
                        sphere_slot(i as int, s as int, p - base);
                    }
                }
            }
            k1 += 1;
            k2 += 1;
            s += 1;
        }
        i += 1;
    }
    while indices.len() < INDEX_COUNT
        invariant
            TRIANGLE_INDEX_COUNT <= indices@.len() <= INDEX_COUNT,
            forall|p: int| 0 <= p < indices@.len() ==> #[trigger] indices@[p] as int == sphere_index(p),
        decreases INDEX_COUNT - indices@.len(),
    {
        indices.push(0);
    }
    indices
}

/// Every slot of the sphere's index buffer names one of its vertices.
pub proof fn sphere_indices_in_range(p: int)
    requires
        0 <= p < INDEX_COUNT,
    ensures
        0 <= sphere_index(p) < VERTEX_COUNT,
{
    if 36 <= p < 468 {
        let q = p - 36;
        assert(q / 72 <= 5);
        assert((q % 72) / 6 <= 11);
    }
}

} // verus!
