//! Iteration grids: row-major tables of iteration counts, and their
//! mathematical model as a sequence of rows.

use vstd::prelude::*;

verus! {

/// The rows of a grid as mathematical sequences.
pub open spec fn grid_view(grid: Seq<Vec<u32>>) -> Seq<Seq<u32>> {
    Seq::new(grid.len(), |i: int| grid[i]@)
}

/// The grid has exactly `height` rows of `width` cells each.
pub open spec fn has_shape(grid: Seq<Seq<u32>>, width: int, height: int) -> bool {
    &&& grid.len() == height
    &&& forall|y: int| 0 <= y < grid.len() ==> (#[trigger] grid[y]).len() == width
}

/// All rows of the grid are as long as its first row.
pub open spec fn is_rectangular(grid: Seq<Seq<u32>>) -> bool {
    forall|y: int| 0 <= y < grid.len() ==> (#[trigger] grid[y]).len() == grid[0].len()
}

/// Every cell of the grid is at most `bound`.
pub open spec fn cells_at_most(grid: Seq<Seq<u32>>, bound: int) -> bool {
    forall|y: int, x: int|
        0 <= y < grid.len() && 0 <= x < grid[y].len() ==> (#[trigger] grid[y][x]) <= bound
}

/// Copies a grid cell by cell.
pub fn clone_grid(grid: &[Vec<u32>]) -> (copy: Vec<Vec<u32>>)
    ensures
        grid_view(copy@) == grid_view(grid@),
{
    let mut copy: Vec<Vec<u32>> = Vec::new();
    let mut y: usize = 0;
    while y < grid.len()
        invariant
            y <= grid.len(),
            copy.len() == y,
            forall|i: int| 0 <= i < y ==> (#[trigger] copy[i])@ == grid[i]@,
        decreases grid.len() - y,
    {
        let row = &grid[y];
        let mut fresh: Vec<u32> = Vec::new();
        let mut x: usize = 0;
        while x < row.len()
            invariant
                x <= row.len(),
                fresh.len() == x,
                forall|j: int| 0 <= j < x ==> fresh[j] == row[j],
            decreases row.len() - x,
        {
            fresh.push(row[x]);
            x += 1;
        }
        assert(fresh@ =~= row@);
        copy.push(fresh);
        y += 1;
    }
    assert(grid_view(copy@) =~= grid_view(grid@));
    copy
}

} // verus!
