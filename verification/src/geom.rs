//! Board geometry: pixel-to-tile mapping and the checkerboard pattern.

use vstd::prelude::*;
use vstd::arithmetic::div_mod::{lemma_fundamental_div_mod, lemma_fundamental_div_mod_converse};

verus! {

/// A chess board is 8x8 tiles.
pub const GRID_SIZE: i64 = 8;

/// Pixel size of each (square) tile.
pub const GRID_CELL_SIZE: i64 = 90;

/// Width of the application window in pixels: the board plus a side panel.
pub const SCREEN_WIDTH: i64 = 8 * 90 + 340;

/// Height of the application window in pixels.
pub const SCREEN_HEIGHT: i64 = 8 * 90;

/// The tile coordinate a pixel coordinate falls in: the floor of
/// `px / GRID_CELL_SIZE`, also for pixels left of or above the window.
pub fn tile_coord(px: i64) -> (t: i64)
    ensures
        t == px as int / (GRID_CELL_SIZE as int),
{
    if px >= 0 {
        let q: i64 = ((px as u64) / 90) as i64;
        q
    } else {
        let m: u64 = (-(px + 1)) as u64;
        let q: i64 = -1 - (m / 90) as i64;
        proof {
            let n = px as int;
            lemma_fundamental_div_mod(n, 90);
            lemma_fundamental_div_mod_converse(-n - 1, 90, -(n / 90) - 1, 89 - n % 90);
        }
        q
    }
}

/// The two entries of the board palette, named as the colour table names
/// them (the `Black` paint is the lighter gold, the `White` the darker
/// brown).
#[derive(Clone, Copy, PartialEq, Eq, Structural, Debug)]
pub enum TileShade {
    Black,
    White,
}

/// The checkerboard pattern: `Black` paint where row and column have the
/// same parity, `White` paint elsewhere.
pub open spec fn spec_tile_shade(row: int, col: int) -> TileShade {
    if row % 2 == col % 2 {
        TileShade::Black
    } else {
        TileShade::White
    }
}

/// The paint of one board tile.
pub fn tile_shade(row: i64, col: i64) -> (s: TileShade)
    requires
        0 <= row,
        0 <= col,
    ensures
        s == spec_tile_shade(row as int, col as int),
{
    if col % 2 == 0 {
        if row % 2 == 0 {
            TileShade::Black
        } else {
            TileShade::White
        }
    } else {
        if row % 2 == 0 {
            TileShade::White
        } else {
            TileShade::Black
        }
    }
}

/// The top-left pixel of a board tile.
pub fn tile_origin(col: i64, row: i64) -> (p: (i64, i64))
    requires
        spec_on_board(col as int, row as int),
    ensures
        p.0 == GRID_CELL_SIZE * col,
        p.1 == GRID_CELL_SIZE * row,
{
    (GRID_CELL_SIZE * col, GRID_CELL_SIZE * row)
}

/// The board background as a display list: for each tile, row by row, its
/// paint and its top-left pixel.
pub fn grid_ops() -> (g: Vec<(TileShade, i64, i64)>)
    ensures
        g@.len() == 64,
        forall|k: int|
            0 <= k < 64 ==> #[trigger] g@[k] == (
                spec_tile_shade(k / 8, k % 8),
                (90 * (k % 8)) as i64,
                (90 * (k / 8)) as i64,
            ),
{
    let mut g: Vec<(TileShade, i64, i64)> = Vec::new();
    for row in 0..8i64
        invariant
            g@.len() == 8 * row,
            forall|k: int|
                0 <= k < 8 * row ==> #[trigger] g@[k] == (
                    spec_tile_shade(k / 8, k % 8),
                    (90 * (k % 8)) as i64,
                    (90 * (k / 8)) as i64,
                ),
    {
        for col in 0..8i64
            invariant
                0 <= row < 8,
                g@.len() == 8 * row + col,
                forall|k: int|
                    0 <= k < 8 * row + col ==> #[trigger] g@[k] == (
                        spec_tile_shade(k / 8, k % 8),
                        (90 * (k % 8)) as i64,
                        (90 * (k / 8)) as i64,
                    ),
        {
            let shade = tile_shade(row, col);
            let origin = tile_origin(col, row);
            g.push((shade, origin.0, origin.1));
            proof {
                let k = 8 * row + col;
                assert(k / 8 == row && k % 8 == col) by (nonlinear_arith)
                    requires
                        0 <= row < 8 && 0 <= col < 8 && k == 8 * row + col,
                ;
            }
        }
    }
    g
}

/// Whether a tile coordinate pair lies on the 8x8 board.
pub open spec fn spec_on_board(col: int, row: int) -> bool {
    0 <= col < 8 && 0 <= row < 8
}

/// Whether a tile coordinate pair lies on the 8x8 board.
pub fn on_board(col: i64, row: i64) -> (b: bool)
    ensures
        b == spec_on_board(col as int, row as int),
{
    0 <= col && col < GRID_SIZE && 0 <= row && row < GRID_SIZE
}

} // verus!
