//! The device-side schedule of each operation.
//!
//! Every operation follows the same cycle: allocate device buffers, copy the
//! inputs in, dispatch one kernel over a work grid, read the output buffer
//! back. The functions here fix the decisions of that cycle — grid extents,
//! buffer lengths, kernel scalar arguments, and which input elements each
//! work item reads — so that the front end that talks to the device has
//! nothing left to compute.

use vstd::prelude::*;
use crate::layout::{row_major_offset, row_major_spec};
use crate::matrix::{Matrix, ShapeMismatch};

verus! {

/// The schedule of one matrix-matrix multiplication: a 2-D work grid with
/// one work item per result cell, the result buffer's length, and the three
/// extent arguments the kernel receives. The work item at grid position
/// (`r`, `c`) computes the dot product of row `r` of the left operand with
/// column `c` of the right operand and writes it at column-major offset
/// `col_major_spec(r, c, work_rows)` of the output buffer.
pub struct MatMulPlan {
    /// First work-grid extent: one work item per row of the left operand.
    pub work_rows: usize,
    /// Second work-grid extent: one work item per column of the right
    /// operand.
    pub work_cols: usize,
    /// Length of the device output buffer and of the result data.
    pub out_len: usize,
    /// Kernel argument: rows of the left operand.
    pub a_rows: i32,
    /// Kernel argument: columns of the left operand (the shared extent).
    pub a_cols: i32,
    /// Kernel argument: columns of the right operand.
    pub b_cols: i32,
}

/// Lays out one matrix-matrix multiplication of well-formed operands, or
/// rejects the pair with `ShapeMismatch` exactly when the shared extent does
/// not match (`a.cols != b.rows`). The extent bounds in the requires are
/// machine limits: the result buffer must fit in a flat vector and the
/// kernel receives the extents as 32-bit arguments.
pub fn plan_mat_mul(a: &Matrix, b: &Matrix) -> (r: Result<MatMulPlan, ShapeMismatch>)
    requires
        a.wf(),
        b.wf(),
        a.rows * b.cols <= usize::MAX,
        a.rows as int <= i32::MAX as int,
        a.cols as int <= i32::MAX as int,
        b.cols as int <= i32::MAX as int,
    ensures
        r is Ok <==> a.cols == b.rows,
        r matches Ok(p) ==> {
            &&& p.work_rows == a.rows
            &&& p.work_cols == b.cols
            &&& p.out_len == a.rows * b.cols
            &&& p.a_rows as int == a.rows as int
            &&& p.a_cols as int == a.cols as int
            &&& p.b_cols as int == b.cols as int
        },
{
    if a.cols != b.rows {
        return Err(ShapeMismatch);
    }
    Ok(MatMulPlan {
        work_rows: a.rows,
        work_cols: b.cols,
        out_len: a.rows * b.cols,
        a_rows: a.rows as i32,
        a_cols: a.cols as i32,
        b_cols: b.cols as i32,
    })
}

/// Lays out one matrix-scalar multiplication of a well-formed matrix: a 1-D
/// work grid with one work item per element, which is also the length of
/// both device buffers. The work item at grid position `i` multiplies the
/// element at flat offset `i` by the scalar and writes the product at the
/// same offset of the output buffer.
pub fn plan_scalar_mul(m: &Matrix) -> (work_items: usize)
    requires
        m.wf(),
    ensures
        work_items == m.rows * m.cols,
        work_items == m.data@.len(),
{
    m.data.len()
}

/// The read schedule of the work item that computes result cell (`r`, `c`)
/// of a matrix-matrix multiplication: for each `k` along the shared extent,
/// the pair of flat offsets it reads — element (`r`, `k`) of the left
/// operand and element (`k`, `c`) of the right operand, both row-major. Every
/// offset lies inside its operand's data, so the dispatch reads no memory
/// outside the two input buffers.
pub fn dot_product_offsets(a: &Matrix, b: &Matrix, r: usize, c: usize) -> (v: Vec<(usize, usize)>)
    requires
        a.wf(),
        b.wf(),
        a.cols == b.rows,
        r < a.rows,
        c < b.cols,
    ensures
        v@.len() == a.cols,
        forall|k: int| 0 <= k < v@.len() ==> v@[k].0 == row_major_spec(
            r as int,
            k,
            a.cols as int,
        ),
        forall|k: int| 0 <= k < v@.len() ==> v@[k].1 == row_major_spec(
            k,
            c as int,
            b.cols as int,
        ),
        forall|k: int| 0 <= k < v@.len() ==> v@[k].0 < a.data@.len() && v@[k].1 < b.data@.len(),
{
    let a_len: usize = a.data.len();
    let b_len: usize = b.data.len();
    let mut v: Vec<(usize, usize)> = Vec::new();
    let mut k: usize = 0;
    while k < a.cols
        invariant
            a.wf(),
            b.wf(),
            a.cols == b.rows,
            r < a.rows,
            c < b.cols,
            a_len == a.data@.len(),
            b_len == b.data@.len(),
            k <= a.cols,
            v@.len() == k,
            forall|j: int| 0 <= j < v@.len() ==> v@[j].0 == row_major_spec(
                r as int,
                j,
                a.cols as int,
            ),
            forall|j: int| 0 <= j < v@.len() ==> v@[j].1 == row_major_spec(
                j,
                c as int,
                b.cols as int,
            ),
            forall|j: int| 0 <= j < v@.len() ==> v@[j].0 < a.data@.len() && v@[j].1
                < b.data@.len(),
        decreases a.cols - k,
    {
        let a_off = row_major_offset(r, k, a.rows, a.cols);
        let b_off = row_major_offset(k, c, b.rows, b.cols);
        v.push((a_off, b_off));
        k = k + 1;
    }
    v
}

} // verus!
