//! Grid tile layout: the world-space offset of every cell of a tile grid.
//!
//! A grid of `extent` tiles of size `tile_size` along one axis is centred on
//! the origin: the tile with index `i` sits at
//! `i * tile_size - (tile_size * extent) / 2`. The centre is a half-integer
//! when `tile_size * extent` is odd, so offsets are held in half units: every
//! stored value is twice the offset in world units, and is exact.

use vstd::prelude::*;

verus! {

/// Number of tiles along each axis of a grid.
#[derive(Clone, Copy, Debug, PartialEq, Eq, Structural)]
pub struct GridSize {
    pub cols: u32,
    pub rows: u32,
}

/// Offset of one tile from the origin, in half units.
#[derive(Clone, Copy, Debug, PartialEq, Eq, Structural)]
pub struct TileOffset {
    pub twice_x: i128,
    pub twice_y: i128,
}

/// Twice the offset of tile `index` along an axis of `extent` tiles.
pub open spec fn twice_axis_offset(index: int, tile_size: int, extent: int) -> int {
    2 * (index * tile_size) - tile_size * extent
}

/// The offset of the cell in column `col` and row `row`, each axis centred
/// over its own extent.
pub open spec fn tile_offset(grid: GridSize, tile_size: u32, col: u32, row: u32) -> TileOffset {
    TileOffset {
        twice_x: twice_axis_offset(col as int, tile_size as int, grid.cols as int) as i128,
        twice_y: twice_axis_offset(row as int, tile_size as int, grid.rows as int) as i128,
    }
}

/// Number of cells of a grid.
pub open spec fn cell_count(grid: GridSize) -> nat {
    (grid.cols * grid.rows) as nat
}

/// Position of a cell in column-major order: columns outermost, rows innermost.
pub open spec fn cell_index(grid: GridSize, col: int, row: int) -> int {
    col * grid.rows + row
}

/// The offsets of all cells of a grid, in column-major order.
pub open spec fn grid_layout_spec(grid: GridSize, tile_size: u32) -> Seq<TileOffset> {
    Seq::new(
        cell_count(grid),
        |k: int| tile_offset(grid, tile_size, (k / grid.rows as int) as u32, (k % grid.rows as int) as u32),
    )
}

/// Products of two 32-bit values stay far inside the 128-bit range.
proof fn lemma_product_bounds(a: u32, b: u32)
    ensures
        0 <= a * b <= 0xFFFF_FFFE_0000_0001,
{
    assert(0 <= a * b <= 0xFFFF_FFFF * 0xFFFF_FFFF) by (nonlinear_arith)
        requires
            0 <= a <= 0xFFFF_FFFF,
            0 <= b <= 0xFFFF_FFFF,
    ;
}

/// The stored fields of a tile offset are the exact doubled offsets: nothing
/// is lost when they are narrowed to 128 bits.
pub proof fn lemma_tile_offset_exact(grid: GridSize, tile_size: u32, col: u32, row: u32)
    ensures
        tile_offset(grid, tile_size, col, row).twice_x == twice_axis_offset(
            col as int,
            tile_size as int,
            grid.cols as int,
        ),
        tile_offset(grid, tile_size, col, row).twice_y == twice_axis_offset(
            row as int,
            tile_size as int,
            grid.rows as int,
        ),
{
    lemma_product_bounds(col, tile_size);
    lemma_product_bounds(row, tile_size);
    lemma_product_bounds(tile_size, grid.cols);
    lemma_product_bounds(tile_size, grid.rows);
}

/// Twice the offset of tile `index` along an axis of `extent` tiles of size
/// `tile_size`. The caller chooses the extent to centre over.
pub fn axis_offset(index: u32, tile_size: u32, extent: u32) -> (twice: i128)
    ensures
        twice == twice_axis_offset(index as int, tile_size as int, extent as int),
{
    let i: i128 = index as i128;
    let s: i128 = tile_size as i128;
    let n: i128 = extent as i128;
    proof {
        lemma_product_bounds(index, tile_size);
        lemma_product_bounds(tile_size, extent);
    }
    2 * (i * s) - s * n
}

/// The offset of one cell of `grid`.
pub fn cell_offset(grid: GridSize, tile_size: u32, col: u32, row: u32) -> (offset: TileOffset)
    ensures
        offset == tile_offset(grid, tile_size, col, row),
{
    proof {
        lemma_tile_offset_exact(grid, tile_size, col, row);
    }
    TileOffset {
        twice_x: axis_offset(col, tile_size, grid.cols),
        twice_y: axis_offset(row, tile_size, grid.rows),
    }
}

/// A cell's position in column-major order lies inside the grid and
/// determines the cell: dividing by the row count gives back column and row.
pub proof fn lemma_cell_index(grid: GridSize, col: int, row: int)
    requires
        0 <= col < grid.cols,
        0 <= row < grid.rows,
    ensures
        0 <= cell_index(grid, col, row) < cell_count(grid),
        cell_index(grid, col, row) / (grid.rows as int) == col,
        cell_index(grid, col, row) % (grid.rows as int) == row,
        cell_index(grid, col, row) + (grid.rows - row) == (col + 1) * grid.rows,
{
    let rows = grid.rows as int;
    let cols = grid.cols as int;
    assert(col * rows >= 0 && (col + 1) * rows == col * rows + rows && (col + 1) * rows <= cols
        * rows) by (nonlinear_arith)
        requires
            0 <= col < cols,
            0 < rows,
    ;
    vstd::arithmetic::div_mod::lemma_fundamental_div_mod_converse(
        cell_index(grid, col, row),
        rows,
        col,
        row,
    );
}

/// The offsets of all cells of `grid`, columns outermost and rows innermost.
pub fn grid_layout(grid: GridSize, tile_size: u32) -> (offsets: Vec<TileOffset>)
    ensures
        offsets@ == grid_layout_spec(grid, tile_size),
{
    let mut offsets: Vec<TileOffset> = Vec::new();
    let mut col: u32 = 0;
    while col < grid.cols
        invariant
            col <= grid.cols,
            offsets@.len() == col * grid.rows,
            offsets@.len() <= cell_count(grid),
            forall|k: int|
                0 <= k < offsets@.len() ==> offsets@[k] == grid_layout_spec(grid, tile_size)[k],
        decreases grid.cols - col,
    {
        let mut row: u32 = 0;
        while row < grid.rows
            invariant
                col < grid.cols,
                row <= grid.rows,
                offsets@.len() == col * grid.rows + row,
                offsets@.len() <= cell_count(grid),
                forall|k: int|
                    0 <= k < offsets@.len() ==> offsets@[k] == grid_layout_spec(
                        grid,
                        tile_size,
                    )[k],
            decreases grid.rows - row,
        {
            proof {
                lemma_cell_index(grid, col as int, row as int);
            }
            offsets.push(cell_offset(grid, tile_size, col, row));
            row = row + 1;
        }
        proof {
            assert((col + 1) * grid.rows == col * grid.rows + grid.rows) by (nonlinear_arith);
        }
        col = col + 1;
    }
    proof {
        if grid.cols > 0 && grid.rows > 0 {
            lemma_cell_index(grid, grid.cols - 1, grid.rows - 1);
        } else {
            assert(grid.cols * grid.rows == 0) by (nonlinear_arith)
                requires
                    grid.cols == 0 || grid.rows == 0,
            ;
        }
        assert(offsets@.len() == cell_count(grid));
    }
    offsets
}

/// A layout has one offset per cell, and the entry at a cell's column-major
/// position is that cell's offset.
pub proof fn lemma_layout_cells(grid: GridSize, tile_size: u32, col: u32, row: u32)
    requires
        col < grid.cols,
        row < grid.rows,
    ensures
        grid_layout_spec(grid, tile_size).len() == grid.cols * grid.rows,
        0 <= cell_index(grid, col as int, row as int) < grid_layout_spec(grid, tile_size).len(),
        grid_layout_spec(grid, tile_size)[cell_index(grid, col as int, row as int)] == tile_offset(
            grid,
            tile_size,
            col,
            row,
        ),
{
    lemma_cell_index(grid, col as int, row as int);
}

/// Neighbouring tiles are exactly one tile size apart along their axis, and
/// any two tiles of an axis are a whole number of tile sizes apart: in half
/// units, `2 * tile_size` per step.
pub proof fn lemma_axis_spacing(i: int, j: int, tile_size: int, extent: int)
    ensures
        twice_axis_offset(i + 1, tile_size, extent) - twice_axis_offset(i, tile_size, extent) == 2
            * tile_size,
        twice_axis_offset(j, tile_size, extent) - twice_axis_offset(i, tile_size, extent) == (j
            - i) * (2 * tile_size),
{
    assert(2 * ((i + 1) * tile_size) - 2 * (i * tile_size) == 2 * tile_size) by (nonlinear_arith);
    assert(2 * (j * tile_size) - 2 * (i * tile_size) == (j - i) * (2 * tile_size))
        by (nonlinear_arith);
}

/// With a positive tile size, different indices of an axis have different
/// offsets.
pub proof fn lemma_axis_offsets_distinct(i: int, j: int, tile_size: int, extent: int)
    requires
        tile_size > 0,
        i != j,
    ensures
        twice_axis_offset(i, tile_size, extent) != twice_axis_offset(j, tile_size, extent),
{
    lemma_axis_spacing(i, j, tile_size, extent);
    assert((j - i) * (2 * tile_size) != 0) by (nonlinear_arith)
        requires
            tile_size > 0,
            i != j,
    ;
}

/// With a positive tile size, different cells of a grid have different
/// offsets.
pub proof fn lemma_tile_offsets_distinct(
    grid: GridSize,
    tile_size: u32,
    col_a: u32,
    row_a: u32,
    col_b: u32,
    row_b: u32,
)
    requires
        tile_size > 0,
        col_a != col_b || row_a != row_b,
    ensures
        tile_offset(grid, tile_size, col_a, row_a) != tile_offset(grid, tile_size, col_b, row_b),
{
    lemma_tile_offset_exact(grid, tile_size, col_a, row_a);
    lemma_tile_offset_exact(grid, tile_size, col_b, row_b);
    if col_a != col_b {
        lemma_axis_offsets_distinct(
            col_a as int,
            col_b as int,
            tile_size as int,
            grid.cols as int,
        );
    } else {
        lemma_axis_offsets_distinct(
            row_a as int,
            row_b as int,
            tile_size as int,
            grid.rows as int,
        );
    }
}

/// A layout of a grid with at least one column and one row and a positive
/// tile size holds exactly `cols * rows` offsets, no two of them equal.
pub proof fn lemma_layout_distinct(grid: GridSize, tile_size: u32, a: int, b: int)
    requires
        grid.cols >= 1,
        grid.rows >= 1,
        tile_size > 0,
        0 <= a < grid.cols * grid.rows,
        0 <= b < grid.cols * grid.rows,
        a != b,
    ensures
        grid_layout_spec(grid, tile_size).len() == grid.cols * grid.rows,
        grid_layout_spec(grid, tile_size)[a] != grid_layout_spec(grid, tile_size)[b],
{
    let rows = grid.rows as int;
    let cols = grid.cols as int;
    vstd::arithmetic::div_mod::lemma_fundamental_div_mod(a, rows);
    vstd::arithmetic::div_mod::lemma_fundamental_div_mod(b, rows);
    vstd::arithmetic::div_mod::lemma_div_pos_is_pos(a, rows);
    vstd::arithmetic::div_mod::lemma_div_pos_is_pos(b, rows);
    vstd::arithmetic::div_mod::lemma_mod_pos_bound(a, rows);
    vstd::arithmetic::div_mod::lemma_mod_pos_bound(b, rows);
    assert(a / rows < cols) by (nonlinear_arith)
        requires
            0 <= a < cols * rows,
            rows > 0,
            a == rows * (a / rows) + a % rows,
            0 <= a % rows,
    ;
    assert(b / rows < cols) by (nonlinear_arith)
        requires
            0 <= b < cols * rows,
            rows > 0,
            b == rows * (b / rows) + b % rows,
            0 <= b % rows,
    ;
    lemma_tile_offsets_distinct(
        grid,
        tile_size,
        (a / rows) as u32,
        (a % rows) as u32,
        (b / rows) as u32,
        (b % rows) as u32,
    );
}

/// The span that an axis covers is symmetric about the origin: the low edge
/// of the first tile and the high edge of the last tile are additive inverses.
/// The extreme offsets themselves therefore add up to minus one tile size, and
/// are additive inverses only for tiles of size zero.
pub proof fn lemma_axis_span_symmetric(tile_size: int, extent: int)
    requires
        extent >= 1,
    ensures
        twice_axis_offset(0, tile_size, extent) + (twice_axis_offset(
            extent - 1,
            tile_size,
            extent,
        ) + 2 * tile_size) == 0,
        twice_axis_offset(0, tile_size, extent) + twice_axis_offset(extent - 1, tile_size, extent)
            == -2 * tile_size,
        twice_axis_offset(0, tile_size, extent) + twice_axis_offset(extent - 1, tile_size, extent)
            == 0 <==> tile_size == 0,
{
    assert(2 * (0 * tile_size) - tile_size * extent + (2 * ((extent - 1) * tile_size) - tile_size
        * extent) == -2 * tile_size) by (nonlinear_arith);
}

/// The first tile of an axis has the least offset and the last tile the
/// greatest.
pub proof fn lemma_axis_extremes(index: int, tile_size: int, extent: int)
    requires
        tile_size >= 0,
        0 <= index < extent,
    ensures
        twice_axis_offset(0, tile_size, extent) <= twice_axis_offset(index, tile_size, extent),
        twice_axis_offset(index, tile_size, extent) <= twice_axis_offset(
            extent - 1,
            tile_size,
            extent,
        ),
{
    assert(0 * tile_size <= index * tile_size <= (extent - 1) * tile_size) by (nonlinear_arith)
        requires
            tile_size >= 0,
            0 <= index < extent,
    ;
}

/// Along an axis with an even number of tiles the centre is a whole number
/// of units, and the stored offsets are even: no half unit occurs.
pub proof fn lemma_even_extent_whole_units(index: int, tile_size: int, extent: int)
    requires
        extent % 2 == 0,
    ensures
        twice_axis_offset(index, tile_size, extent) == 2 * (index * tile_size - tile_size * (extent
            / 2)),
{
    assert(tile_size * extent == 2 * (tile_size * (extent / 2))) by (nonlinear_arith)
        requires
            extent == 2 * (extent / 2),
    ;
}

} // verus!
