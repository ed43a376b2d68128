use vstd::prelude::*;

verus! {

/// Points on the debug circle's outline.
pub const SECTOR_COUNT: usize = 60;

/// Slots of its index buffer: every point once, then the first again.
pub const INDEX_COUNT: usize = 61;

/// The index at slot `p` of the debug circle's line loop: the points in
/// order, closed by returning to point 0.
pub open spec fn debug_circle_index(p: int) -> int {
    if p < SECTOR_COUNT {
        p
    } else {
        0
    }
}

/// The index buffer of the debug circle: points 0 to 59, then 0 to close
/// the loop.
pub fn calculate_indices() -> (indices: Vec<u16>)
    ensures
        indices@.len() == INDEX_COUNT,
        forall|p: int| 0 <= p < INDEX_COUNT ==> #[trigger] indices@[p] as int == debug_circle_index(p),
        forall|p: int| 0 <= p < INDEX_COUNT ==> #[trigger] indices@[p] < SECTOR_COUNT,
{
    let mut indices: Vec<u16> = Vec::new();
    let mut i: u16 = 0;
    while i < 60
        invariant
            i <= 60,
            indices@.len() == i,
            forall|p: int| 0 <= p < i ==> #[trigger] indices@[p] as int == p,
        decreases 60 - i,
    {
        indices.push(i);
        i += 1;
    }
    indices.push(0);
    indices
}

} // verus!
