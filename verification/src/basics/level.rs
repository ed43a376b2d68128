use vstd::prelude::*;

verus! {

/// Spheres the demo level lays out.
pub const SPHERE_COUNT: i32 = 25;

/// Where the `i`-th sphere of the level sits: a 5 by 5 grid two units
/// apart, from (-4, -4) row by row.
pub open spec fn grid_position_of(i: int) -> (int, int) {
    (-4 + (i % 5) * 2, -4 + (i / 5) * 2)
}

/// The grid position of the `i`-th sphere of the level.
pub fn grid_position(i: i32) -> (p: (i32, i32))
    requires
        0 <= i,
    ensures
        (p.0 as int, p.1 as int) == grid_position_of(i as int),
{
    let x: i32 = -4 + i % 5 * 2;
    let y: i32 = -4 + i / 5 * 2;
    (x, y)
}

/// The level's spheres all sit on different grid points inside the square
/// from (-4, -4) to (4, 4).
pub proof fn grid_positions_distinct(i: int, j: int)
    requires
        0 <= i < SPHERE_COUNT,
        0 <= j < SPHERE_COUNT,
    ensures
        -4 <= grid_position_of(i).0 <= 4,
        -4 <= grid_position_of(i).1 <= 4,
        i != j ==> grid_position_of(i) != grid_position_of(j),
{
    assert(i == (i / 5) * 5 + i % 5);
    assert(j == (j / 5) * 5 + j % 5);
}

} // verus!
