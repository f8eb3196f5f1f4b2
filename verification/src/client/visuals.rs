//! Integer parts of the client's visuals: the grid cells around the camera,
//! the tint variation of a hexagon and the sprite variation of a tree.

use vstd::prelude::*;

use super::streaming::{square_chunks, square_fits, square_seq};
use crate::shared::types::{ChunkId, HexCoord};

verus! {

/// The grid cells within `half_cells` cells of `(cx, cy)` along both axes, in
/// the order of the chunk square: column offsets outside, row offsets inside.
pub open spec fn cells_square(cx: i32, cy: i32, half_cells: int) -> Seq<(i32, i32)> {
    square_seq(ChunkId { x: cx, y: cy }, half_cells).map_values(|c: ChunkId| (c.x, c.y))
}

/// The spatial-grid cells to look at around the camera's cell `(cx, cy)`.
pub fn cells_around(cx: i32, cy: i32, half_cells: i32) -> (res: Vec<(i32, i32)>)
    requires
        square_fits(ChunkId { x: cx, y: cy }, half_cells),
    ensures
        res@ == cells_square(cx, cy, half_cells as int),
{
    let square = square_chunks(ChunkId { x: cx, y: cy }, half_cells);
    let ghost sq = square@;
    let mut cells: Vec<(i32, i32)> = Vec::new();
    let mut k: usize = 0;
    while k < square.len()
        invariant
            sq == square@,
            sq == square_seq(ChunkId { x: cx, y: cy }, half_cells as int),
            0 <= k <= sq.len(),
            cells.len() == k,
            forall|j: int| 0 <= j < k ==> #[trigger] cells@[j] == (sq[j].x, sq[j].y),
        decreases sq.len() - k,
    {
        let c = square[k];
        cells.push((c.x, c.y));
        k = k + 1;
    }
    assert(cells@ =~= cells_square(cx, cy, half_cells as int));
    cells
}

/// Seed of the tint variation of the hexagon at `coord`.
pub open spec fn tint_seed(coord: HexCoord) -> u64 {
    (coord.q as u64).wrapping_mul(374761393) ^ (coord.r as u64).wrapping_mul(668265263)
}

/// Brightness variation of the hexagon at `coord`, in percent, in `[-10, 10)`.
pub fn tint_variation_percent(coord: HexCoord) -> (res: i32)
    ensures
        res == (tint_seed(coord) % 20) - 10,
        -10 <= res < 10,
{
    let seed = (coord.q as u64).wrapping_mul(374761393) ^ (coord.r as u64).wrapping_mul(668265263);
    (seed % 20) as i32 - 10
}

/// Which of the eight sprite variations a tree with building id `id` shows.
pub fn tree_variation(id: u64) -> (res: u8)
    ensures
        res == id % 8,
{
    (id % 8) as u8
}

} // verus!
