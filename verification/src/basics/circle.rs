use vstd::prelude::*;

verus! {

/// Vertex and index slots of the circle mesh.
pub const VERTEX_COUNT: usize = 10;

/// The circle's index buffer: ten slots, all naming vertex 0 (the mesh is
/// a placeholder whose vertices all sit at the origin).
pub fn calculate_indices() -> (indices: Vec<u16>)
    ensures
        indices@ == Seq::new(VERTEX_COUNT as nat, |p: int| 0u16),
{
    let mut indices: Vec<u16> = Vec::new();
    while indices.len() < VERTEX_COUNT
        invariant
            indices@.len() <= VERTEX_COUNT,
            forall|p: int| 0 <= p < indices@.len() ==> #[trigger] indices@[p] == 0u16,
        decreases VERTEX_COUNT - indices@.len(),
    {
        indices.push(0);
    }
    assert(indices@ =~= Seq::new(VERTEX_COUNT as nat, |p: int| 0u16));
    indices
}

} // verus!
