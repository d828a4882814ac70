//! The matrix value type and its shape invariant.

use vstd::prelude::*;

verus! {

/// The rejection returned when declared extents and flat data cannot describe
/// one rectangular matrix, or when two multiplication operands do not fit
/// each other.
#[derive(Clone, Copy, Debug, PartialEq, Eq, Structural)]
pub struct ShapeMismatch;

/// A dense 2-D array of single-precision values: `rows` by `cols` cells,
/// flattened into `data` with exactly one element per cell.
///
/// Each element is carried as the 32-bit pattern of an IEEE-754 `binary32`
/// value, so that shape and layout are plain data here; the accelerator front
/// end that owns the device reinterprets the patterns as floats when it fills
/// device buffers, and produces the patterns again on readback. Inputs are
/// read row-major (`data[r * cols + c]` is the cell at row `r`, column `c`);
/// a matrix-matrix product is written back column-major
/// (`data[c * rows + r]`), which coincides with row-major when `cols == 1`.
///
/// A value is an immutable snapshot: no operation of this crate mutates a
/// `Matrix` in place.
pub struct Matrix {
    pub rows: usize,
    pub cols: usize,
    pub data: Vec<u32>,
}

impl Matrix {
    /// The shape invariant: both extents are positive and the flat data holds
    /// exactly one element per cell.
    pub open spec fn wf(self) -> bool {
        &&& self.rows >= 1
        &&& self.cols >= 1
        &&& self.data@.len() == self.rows * self.cols
    }

    /// Checked constructor: accepts exactly the extent/data combinations that
    /// satisfy the shape invariant, and rejects every other with
    /// `ShapeMismatch`.
    pub fn new(rows: usize, cols: usize, data: Vec<u32>) -> (r: Result<Matrix, ShapeMismatch>)
        ensures
            r is Ok <==> (rows >= 1 && cols >= 1 && data@.len() == rows * cols),
            r matches Ok(m) ==> m.rows == rows && m.cols == cols && m.data@ == data@ && m.wf(),
    {
        if rows == 0 || cols == 0 {
            return Err(ShapeMismatch);
        }
        let len: usize = data.len();
        match rows.checked_mul(cols) {
            Some(cells) => {
                if len == cells {
                    Ok(Matrix { rows, cols, data })
                } else {
                    Err(ShapeMismatch)
                }
            },
            None => {
                // More cells than any flat vector can hold, so `data` cannot
                // match the declared extents.
                Err(ShapeMismatch)
            },
        }
    }
}

} // verus!
