//! Flattening conventions between matrix cells and flat buffer offsets.
//!
//! The kernels read their input matrices row-major and write the
//! matrix-matrix result column-major with respect to the declared result
//! shape. That asymmetry is part of the crate's contract: a result with
//! `cols > 1` keeps the product of row `r` and column `c` at flat offset
//! `c * rows + r`, not `r * cols + c`. The two conventions coincide exactly
//! on single-column results.

use vstd::prelude::*;
use vstd::arithmetic::div_mod::lemma_fundamental_div_mod;

verus! {

/// Row-major flat offset of the cell at row `r`, column `c` of a grid with
/// `cols` columns: rows are contiguous.
pub open spec fn row_major_spec(r: int, c: int, cols: int) -> int {
    r * cols + c
}

/// Column-major flat offset of the cell at row `r`, column `c` of a grid
/// with `rows` rows: columns are contiguous.
pub open spec fn col_major_spec(r: int, c: int, rows: int) -> int {
    c * rows + r
}

/// Under either convention, every cell of an `rows` by `cols` grid flattens
/// to an offset inside the grid's element count.
pub proof fn lemma_grid_offset_in_bounds(r: int, c: int, rows: int, cols: int)
    requires
        0 <= r < rows,
        0 <= c < cols,
    ensures
        0 <= row_major_spec(r, c, cols) < rows * cols,
        0 <= col_major_spec(r, c, rows) < rows * cols,
{
    assert(0 <= r * cols + c < rows * cols) by (nonlinear_arith)
        requires
            0 <= r < rows,
            0 <= c < cols,
    ;
    assert(0 <= c * rows + r < rows * cols) by (nonlinear_arith)
        requires
            0 <= r < rows,
            0 <= c < cols,
    ;
}

/// Row-major offset of cell (`r`, `c`) in an `rows` by `cols` grid whose
/// element count fits in a flat vector: how the kernels index their inputs.
pub fn row_major_offset(r: usize, c: usize, rows: usize, cols: usize) -> (o: usize)
    requires
        r < rows,
        c < cols,
        rows * cols <= usize::MAX,
    ensures
        o == row_major_spec(r as int, c as int, cols as int),
        o < rows * cols,
{
    proof {
        lemma_grid_offset_in_bounds(r as int, c as int, rows as int, cols as int);
    }
    r * cols + c
}

/// Column-major offset of cell (`r`, `c`) in an `rows` by `cols` grid whose
/// element count fits in a flat vector: where the matrix-matrix kernel
/// writes the product of row `r` and column `c`.
pub fn col_major_offset(r: usize, c: usize, rows: usize, cols: usize) -> (o: usize)
    requires
        r < rows,
        c < cols,
        rows * cols <= usize::MAX,
    ensures
        o == col_major_spec(r as int, c as int, rows as int),
        o < rows * cols,
{
    proof {
        lemma_grid_offset_in_bounds(r as int, c as int, rows as int, cols as int);
    }
    c * rows + r
}

/// On a single-column grid the two conventions coincide: the column-major
/// offset of every cell equals its row-major offset, so a matrix-vector
/// product reads the same under either interpretation.
pub proof fn lemma_single_column_coincide(r: int, rows: int)
    requires
        0 <= r < rows,
    ensures
        col_major_spec(r, 0, rows) == row_major_spec(r, 0, 1),
{
}

/// Distinct cells of a grid flatten column-major to distinct offsets: each
/// work item of the matrix-matrix dispatch writes its own result slot and no
/// other's.
pub proof fn lemma_col_major_injective(r1: int, c1: int, r2: int, c2: int, rows: int)
    requires
        0 <= r1 < rows,
        0 <= r2 < rows,
        0 <= c1,
        0 <= c2,
        col_major_spec(r1, c1, rows) == col_major_spec(r2, c2, rows),
    ensures
        r1 == r2,
        c1 == c2,
{
    assert(r1 == r2 && c1 == c2) by (nonlinear_arith)
        requires
            0 <= r1 < rows,
            0 <= r2 < rows,
            0 <= c1,
            0 <= c2,
            c1 * rows + r1 == c2 * rows + r2,
    ;
}

/// Every offset of a flat result buffer is the column-major image of exactly
/// one cell of the `rows` by `cols` result grid (namely row `o % rows`,
/// column `o / rows`): the dispatch defines the whole buffer and leaves no
/// slot unwritten.
pub proof fn lemma_col_major_covers(o: int, rows: int, cols: int)
    requires
        1 <= rows,
        1 <= cols,
        0 <= o < rows * cols,
    ensures
        0 <= o % rows < rows,
        0 <= o / rows < cols,
        col_major_spec(o % rows, o / rows, rows) == o,
{
    lemma_fundamental_div_mod(o, rows);
    assert(o / rows < cols) by (nonlinear_arith)
        requires
            1 <= rows,
            0 <= o < rows * cols,
    ;
    assert((o / rows) * rows == rows * (o / rows)) by (nonlinear_arith);
}

} // verus!
