//! The uniform grid that a layout can be generated as: where each cell
//! lies, how large the whole grid is, and when its coordinates fit in `i64`.
use vstd::prelude::*;

use crate::geometry::{Rect, Vec2};

verus! {

/// Whether `v` fits in an `i64` coordinate.
pub open spec fn fits_i64(v: int) -> bool {
    i64::MIN <= v <= i64::MAX
}

/// The value that an omitted padding or offset stands for.
pub open spec fn or_zero(v: Option<Vec2>) -> Vec2 {
    match v {
        Some(v) => v,
        None => Vec2 { x: 0, y: 0 },
    }
}

/// The gap before the `k`-th cell along one axis: none before the first.
pub open spec fn gap_before(padding: i64, k: int) -> int {
    if k > 0 {
        padding as int
    } else {
        0
    }
}

/// The minimum coordinate of the `k`-th cell along one axis of a grid.
pub open spec fn cell_start(tile: i64, padding: i64, offset: i64, k: int) -> int {
    (tile + gap_before(padding, k)) * k + offset
}

/// Whether `r` is the grid cell in column `x` and row `y`.
pub open spec fn is_grid_cell(r: Rect, tile: Vec2, padding: Vec2, offset: Vec2, x: int, y: int) -> bool {
    &&& r.min.x == cell_start(tile.x, padding.x, offset.x, x)
    &&& r.min.y == cell_start(tile.y, padding.y, offset.y, y)
    &&& r.max.x == r.min.x + tile.x
    &&& r.max.y == r.min.y + tile.y
}

/// The index of the cell in column `x` and row `y`: row by row, left to right.
pub open spec fn grid_index(columns: int, x: int, y: int) -> int {
    y * columns + x
}

/// The horizontal padding that the width formula uses: that between
/// columns, once a second column has been generated.
pub open spec fn width_gap(padding: Vec2, columns: int, rows: int) -> int {
    if rows > 0 && columns > 1 {
        padding.x as int
    } else {
        0
    }
}

/// The vertical padding that the height formula uses: that between rows,
/// once a second row has been generated.
pub open spec fn height_gap(padding: Vec2, rows: int) -> int {
    if rows > 1 {
        padding.y as int
    } else {
        0
    }
}

/// The extent along one axis of `count` cells of size `tile` with `gap`
/// between neighbours.
pub open spec fn grid_extent(tile: i64, gap: int, count: int) -> int {
    (tile + gap) * count - gap
}

/// The width of a generated grid.
pub open spec fn grid_width(tile: Vec2, columns: int, rows: int, padding: Vec2) -> int {
    grid_extent(tile.x, width_gap(padding, columns, rows), columns)
}

/// The height of a generated grid.
pub open spec fn grid_height(tile: Vec2, rows: int, padding: Vec2) -> int {
    grid_extent(tile.y, height_gap(padding, rows), rows)
}

/// Whether the cells along one axis of a grid of `count` cells start and
/// end within `i64`.
pub open spec fn axis_fits(tile: i64, padding: i64, offset: i64, count: int) -> bool {
    forall|k: int|
        0 <= k < count ==> {
            &&& fits_i64(#[trigger] cell_start(tile, padding, offset, k))
            &&& fits_i64(cell_start(tile, padding, offset, k) + tile)
        }
}

/// Whether every coordinate of the grid, and its extent, fits in an `i64`.
pub open spec fn grid_fits(tile: Vec2, columns: int, rows: int, padding: Vec2, offset: Vec2) -> bool {
    &&& rows > 0 ==> axis_fits(tile.x, padding.x, offset.x, columns)
    &&& columns > 0 ==> axis_fits(tile.y, padding.y, offset.y, rows)
    &&& fits_i64(grid_width(tile, columns, rows, padding))
    &&& fits_i64(grid_height(tile, rows, padding))
}

pub(crate) proof fn lemma_earlier_row_index(columns: int, x: int, y: int, rows_done: int)
    requires
        0 <= x < columns,
        0 <= y < rows_done,
    ensures
        0 <= grid_index(columns, x, y) < rows_done * columns,
{
    assert(0 <= y * columns + x < rows_done * columns) by (nonlinear_arith)
        requires
            0 <= x < columns,
            0 <= y < rows_done,
    ;
}

pub(crate) proof fn lemma_cell_start_from_running_gap(tile: i64, padding: i64, offset: i64, gap: i64, k: int)
    requires
        k >= 0,
        k > 0 ==> gap == padding,
    ensures
        (tile + gap) * k + offset == cell_start(tile, padding, offset, k),
{
    if k == 0 {
        assert((tile + gap) * k == 0 && (tile + gap_before(padding, k)) * k == 0) by (nonlinear_arith)
            requires
                k == 0,
        ;
    }
}

proof fn lemma_between_ends(a: int, k: int, m: int)
    requires
        1 <= k <= m,
    ensures
        a >= 0 ==> a <= a * k <= a * m,
        a < 0 ==> a * m <= a * k <= a,
{
    assert(a >= 0 ==> a <= a * k <= a * m) by (nonlinear_arith)
        requires
            1 <= k <= m,
    ;
    assert(a < 0 ==> a * m <= a * k <= a) by (nonlinear_arith)
        requires
            1 <= k <= m,
    ;
}

/// Whether the `k`-th cell along one axis starts and ends within `i64`.
fn cell_fits(tile: i64, padding: i64, offset: i64, k: usize) -> (r: bool)
    ensures
        r == (fits_i64(cell_start(tile, padding, offset, k as int)) && fits_i64(
            cell_start(tile, padding, offset, k as int) + tile,
        )),
{
    let gap: i128 = if k > 0 {
        padding as i128
    } else {
        0
    };
    match (tile as i128 + gap).checked_mul(k as i128) {
        None => false,
        Some(product) => match product.checked_add(offset as i128) {
            None => false,
            Some(start) => {
                if start < i64::MIN as i128 || start > i64::MAX as i128 {
                    false
                } else {
                    let end = start + tile as i128;
                    i64::MIN as i128 <= end && end <= i64::MAX as i128
                }
            },
        },
    }
}

/// Whether all cells along one axis of `count` cells start and end within
/// `i64`: the start is linear in the cell number past the first cell, so
/// the first, second and last cells decide it.
pub(crate) fn axis_cells_fit(tile: i64, padding: i64, offset: i64, count: usize) -> (r: bool)
    ensures
        r == axis_fits(tile, padding, offset, count as int),
{
    if count == 0 {
        return true;
    }
    let r = cell_fits(tile, padding, offset, 0) && cell_fits(tile, padding, offset, count - 1) && (
    count == 1 || cell_fits(tile, padding, offset, 1));
    proof {
        if r {
            assert forall|k: int| 0 <= k < count implies {
                &&& fits_i64(#[trigger] cell_start(tile, padding, offset, k))
                &&& fits_i64(cell_start(tile, padding, offset, k) + tile)
            } by {
                if k > 0 {
                    lemma_between_ends(tile + padding, k, count - 1);
                }
            }
        }
    }
    r
}

/// Whether `grid_extent` of these values fits in `i64`.
pub(crate) fn extent_fits(tile: i64, gap: i64, count: usize) -> (r: bool)
    ensures
        r == fits_i64(grid_extent(tile, gap as int, count as int)),
{
    match (tile as i128 + gap as i128).checked_mul(count as i128) {
        None => false,
        Some(product) => match product.checked_sub(gap as i128) {
            None => false,
            Some(extent) => i64::MIN as i128 <= extent && extent <= i64::MAX as i128,
        },
    }
}

/// Without padding, a generated grid is exactly `columns` tiles wide and
/// `rows` tiles high.
pub proof fn lemma_unpadded_grid_size(tile_size: Vec2, columns: usize, rows: usize, padding: Option<Vec2>)
    requires
        or_zero(padding) == (Vec2 { x: 0, y: 0 }),
    ensures
        grid_width(tile_size, columns as int, rows as int, or_zero(padding)) == tile_size.x * columns,
        grid_height(tile_size, rows as int, or_zero(padding)) == tile_size.y * rows,
{
}

} // verus!
