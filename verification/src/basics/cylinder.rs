use vstd::prelude::*;

verus! {

/// Sectors of the cylinder's fixed-size mesh.
pub const SECTOR_COUNT: usize = 36;

/// The sector after `i` going round a circle of `n` sectors.
pub open spec fn next_sector(i: int, n: int) -> int {
    if i + 1 < n {
        i + 1
    } else {
        0
    }
}

/// Vertices of a cylinder with `n` sectors: `n` rim vertices and a centre
/// for each cap, then `n` top and `n` bottom vertices of the side.
pub open spec fn cylinder_vertex_count(n: int) -> int {
    4 * n + 2
}

/// The vertex index at slot `p` of the index buffer of a cylinder with `n`
/// sectors, before it is narrowed to 16 bits. The top cap's fan comes first
/// (three slots per sector), then the bottom cap's fan (vertices offset by
/// `n + 1`, wound the other way), then two triangles per side quad (six
/// slots per sector, vertices offset by `2n + 2`).
pub open spec fn cylinder_index(n: int, p: int) -> int {
    if p < 3 * n {
        let i = p / 3;
        let r = p % 3;
        if r == 0 {
            i
        } else if r == 1 {
            next_sector(i, n)
        } else {
            n
        }
    } else if p < 6 * n {
        let q = p - 3 * n;
        let i = q / 3;
        let r = q % 3;
        let offset = n + 1;
        if r == 0 {
            next_sector(i, n) + offset
        } else if r == 1 {
            i + offset
        } else {
            n + offset
        }
    } else {
        let q = p - 6 * n;
        let i = q / 6;
        let r = q % 6;
        let offset = 2 * (n + 1);
        if r == 0 {
            next_sector(i, n) + offset
        } else if r == 1 {
            i + offset
        } else if r == 2 {
            next_sector(i, n) + offset + n
        } else if r == 3 {
            i + offset + n
        } else if r == 4 {
            next_sector(i, n) + offset + n
        } else {
            i + offset
        }
    }
}

/// `(i + 1) % n` for a sector `i` of `n`.
fn next_sector_exec(i: usize, n: usize) -> (r: usize)
    requires
        i < n,
    ensures
        r == next_sector(i as int, n as int),
{
    proof {
        if i + 1 < n {
            vstd::arithmetic::div_mod::lemma_small_mod((i + 1) as nat, n as nat);
        } else {
            vstd::arithmetic::div_mod::lemma_mod_self_0(n as int);
        }
    }
    (i + 1) % n
}

/// The index buffer of a cylinder with `sector_count` sectors: `12 *
/// sector_count` slots, slot `p` holding `cylinder_index(sector_count, p)`
/// narrowed to 16 bits.
pub fn calculate_indices_dynamic(sector_count: usize) -> (indices: Vec<u16>)
    requires
        4 * sector_count + 2 <= usize::MAX,
    ensures
        indices@.len() == 12 * sector_count,
        forall|p: int| 0 <= p < 12 * sector_count ==> #[trigger] indices@[p] == cylinder_index(
            sector_count as int,
            p,
        ) as u16,
{
    let n: usize = sector_count;
    let mut indices: Vec<u16> = Vec::new();
    // Top face
    let mut i: usize = 0;
    while i < n
        invariant
            i <= n,
            4 * n + 2 <= usize::MAX,
            indices@.len() == 3 * i,
            forall|p: int| 0 <= p < indices@.len() ==> #[trigger] indices@[p] == cylinder_index(n as int, p) as u16,
        decreases n - i,
    {
        let next: usize = next_sector_exec(i, n);
        indices.push(i as u16);
        indices.push(next as u16);
        indices.push(n as u16);
        proof {
            assert forall|p: int| 0 <= p < indices@.len() implies #[trigger] indices@[p]
                == cylinder_index(n as int, p) as u16 by {
                if p >= 3 * i {
                    assert(p / 3 == i && p % 3 == p - 3 * i);
                }
            }
        }
        i += 1;
    }
    // Bottom face
    let mut i: usize = 0;
    while i < n
        invariant
            i <= n,
            4 * n + 2 <= usize::MAX,
            indices@.len() == 3 * n + 3 * i,
            forall|p: int| 0 <= p < indices@.len() ==> #[trigger] indices@[p] == cylinder_index(n as int, p) as u16,
        decreases n - i,
    {
        let offset: usize = n + 1;
        let next: usize = next_sector_exec(i, n);
        indices.push((next + offset) as u16);
        indices.push((i + offset) as u16);
        indices.push((n + offset) as u16);
        proof {
            assert forall|p: int| 0 <= p < indices@.len() implies #[trigger] indices@[p]
                == cylinder_index(n as int, p) as u16 by {
                if p >= 3 * n + 3 * i {
                    let q = p - 3 * n;
                    assert(q / 3 == i && q % 3 == q - 3 * i);
                }
            }
        }
        i += 1;
    }
    // Side faces
    let mut i: usize = 0;
    while i < n
        invariant
            i <= n,
            4 * n + 2 <= usize::MAX,
            indices@.len() == 6 * n + 6 * i,
            forall|p: int| 0 <= p < indices@.len() ==> #[trigger] indices@[p] == cylinder_index(n as int, p) as u16,
        decreases n - i,
    {
        let offset: usize = 2 * (n + 1);
        let next: usize = next_sector_exec(i, n);
        let k1: usize = next + offset;
        let k2: usize = i + offset;
        let k3: usize = next + offset + n;
        indices.push(k1 as u16);
        indices.push(k2 as u16);
        indices.push(k3 as u16);
        let k1: usize = i + offset + n;
        let k2: usize = next + offset + n;
        let k3: usize = i + offset;
        indices.push(k1 as u16);
        indices.push(k2 as u16);
        indices.push(k3 as u16);
        proof {
            assert forall|p: int| 0 <= p < indices@.len() implies #[trigger] indices@[p]
                == cylinder_index(n as int, p) as u16 by {
                if p >= 6 * n + 6 * i {
                    let q = p - 6 * n;
                    assert(q / 6 == i && q % 6 == q - 6 * i);
                }
            }
        }
        i += 1;
    }
    indices
}

/// The index buffer of the fixed 36-sector cylinder mesh.
pub fn calculate_indices() -> (indices: Vec<u16>)
    ensures
        indices@.len() == 12 * SECTOR_COUNT,
        forall|p: int| 0 <= p < 12 * SECTOR_COUNT ==> #[trigger] indices@[p] == cylinder_index(
            SECTOR_COUNT as int,
            p,
        ) as u16,
{
    calculate_indices_dynamic(SECTOR_COUNT)
}

/// Every slot of a cylinder's index buffer names one of its vertices, and
/// while the vertex count fits in 16 bits the narrowing loses nothing.
pub proof fn cylinder_indices_in_range(n: int, p: int)
    requires
        0 < n,
        cylinder_vertex_count(n) <= 65536,
        0 <= p < 12 * n,
    ensures
        0 <= cylinder_index(n, p) < cylinder_vertex_count(n),
        cylinder_index(n, p) as u16 == cylinder_index(n, p),
{
    if p < 3 * n {
        assert(p / 3 < n);
    } else if p < 6 * n {
        assert((p - 3 * n) / 3 < n);
    } else {
        assert((p - 6 * n) / 6 < n);
    }
}

} // verus!
