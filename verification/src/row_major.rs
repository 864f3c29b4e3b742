//! Row-major numbering of the entries of a grid whose cells hold a fixed
//! number of items: rows first, then the cells of a row, then the items of a
//! cell.

use vstd::prelude::*;

verus! {

/// The number of item `item` of cell `(row, column)` in a grid with `width`
/// cells to a row and `depth` items to a cell.
pub open spec fn row_major_index(width: int, depth: int, row: int, column: int, item: int) -> int {
    (row * width + column) * depth + item
}

/// Row, column and item are found again from the number by division.
pub proof fn lemma_row_major_split(
    height: int,
    width: int,
    depth: int,
    row: int,
    column: int,
    item: int,
)
    requires
        0 <= row < height,
        0 <= column < width,
        0 <= item < depth,
    ensures
        0 <= row_major_index(width, depth, row, column, item) < height * width * depth,
        row_major_index(width, depth, row, column, item) / depth == row * width + column,
        row_major_index(width, depth, row, column, item) % depth == item,
        (row * width + column) / width == row,
        (row * width + column) % width == column,
{
    let cell = row * width + column;
    let k = cell * depth + item;
    assert(0 <= cell < height * width) by (nonlinear_arith)
        requires
            0 <= row < height,
            0 <= column < width,
            cell == row * width + column,
    ;
    assert(0 <= k < height * width * depth) by (nonlinear_arith)
        requires
            0 <= cell < height * width,
            0 <= item < depth,
            k == cell * depth + item,
    ;
    assert(k == depth * cell + item) by (nonlinear_arith)
        requires
            k == cell * depth + item,
    ;
    vstd::arithmetic::div_mod::lemma_fundamental_div_mod_converse(k, depth, cell, item);
    assert(cell == width * row + column) by (nonlinear_arith)
        requires
            cell == row * width + column,
    ;
    vstd::arithmetic::div_mod::lemma_fundamental_div_mod_converse(cell, width, row, column);
}

/// Every number below the size of the grid names a row, a column and an item
/// of the grid.
pub proof fn lemma_row_major_parts(height: int, width: int, depth: int, k: int)
    requires
        0 <= height,
        0 <= width,
        0 <= depth,
        0 <= k < height * width * depth,
    ensures
        0 <= (k / depth) / width < height,
        0 <= (k / depth) % width < width,
        0 <= k % depth < depth,
        k == row_major_index(width, depth, (k / depth) / width, (k / depth) % width, k % depth),
{
    assert(depth > 0 && width > 0 && height > 0) by (nonlinear_arith)
        requires
            0 <= height,
            0 <= width,
            0 <= depth,
            0 <= k < height * width * depth,
    ;
    let cell = k / depth;
    assert(0 <= cell < height * width) by (nonlinear_arith)
        requires
            depth > 0,
            0 <= k < height * width * depth,
            cell == k / depth,
    ;
    assert(0 <= cell / width < height) by (nonlinear_arith)
        requires
            width > 0,
            0 <= cell < height * width,
    ;
    vstd::arithmetic::div_mod::lemma_fundamental_div_mod(k, depth);
    vstd::arithmetic::div_mod::lemma_fundamental_div_mod(cell, width);
    vstd::arithmetic::div_mod::lemma_mod_bound(k, depth);
    vstd::arithmetic::div_mod::lemma_mod_bound(cell, width);
    assert(cell == (cell / width) * width + cell % width) by (nonlinear_arith)
        requires
            cell == width * (cell / width) + cell % width,
    ;
    assert(k == cell * depth + k % depth) by (nonlinear_arith)
        requires
            k == depth * (k / depth) + k % depth,
            cell == k / depth,
    ;
}

} // verus!
