//! Host-side evaluation of the kernel schedules.
//!
//! Every read and write offset below comes from the library's verified
//! schedule functions; only the IEEE-754 arithmetic itself — the device's
//! share of the work — runs here on the host.

use ocl_algebra::dispatch::{dot_product_offsets, plan_mat_mul, plan_scalar_mul};
use ocl_algebra::layout::col_major_offset;
use ocl_algebra::matrix::Matrix;

const EPS: f32 = 1.0e-6;

fn to_bits(values: &[f32]) -> Vec<u32> {
    values.iter().map(|v| v.to_bits()).collect()
}

/// Evaluates the matrix-matrix schedule: one "work item" per result cell,
/// reading through `dot_product_offsets` and writing through
/// `col_major_offset`, exactly as the kernel does.
fn host_mat_mul(a: &Matrix, b: &Matrix) -> Vec<f32> {
    let plan = plan_mat_mul(a, b).unwrap();
    let mut out: Vec<f32> = vec![0.0; plan.out_len];
    for r in 0..plan.work_rows {
        for c in 0..plan.work_cols {
            let reads = dot_product_offsets(a, b, r, c);
            let mut acc: f32 = 0.0;
            for (a_off, b_off) in reads {
                acc += f32::from_bits(a.data[a_off]) * f32::from_bits(b.data[b_off]);
            }
            out[col_major_offset(r, c, plan.work_rows, plan.work_cols)] = acc;
        }
    }
    out
}

/// Evaluates the matrix-scalar schedule: one "work item" per element, each
/// multiplying the element at its own offset.
fn host_scalar_mul(m: &Matrix, scalar: f32) -> Vec<f32> {
    let work_items = plan_scalar_mul(m);
    let mut out: Vec<f32> = vec![0.0; work_items];
    for i in 0..work_items {
        out[i] = f32::from_bits(m.data[i]) * scalar;
    }
    out
}

#[test]
fn scalar_multiply_two_by_two() {
    let m = Matrix::new(2, 2, to_bits(&[1.0, 2.0, 3.0, 4.0])).unwrap();
    let out = host_scalar_mul(&m, 1.5);
    let expected = [1.5, 3.0, 4.5, 6.0];
    assert_eq!(out.len(), 4);
    for i in 0..4 {
        assert!((out[i] - expected[i]).abs() < EPS);
    }
}

#[test]
fn matrix_vector_multiply() {
    let a = Matrix::new(2, 2, to_bits(&[1.0, 2.0, 3.0, 4.0])).unwrap();
    let b = Matrix::new(2, 1, to_bits(&[4.0, 5.0])).unwrap();
    let out = host_mat_mul(&a, &b);
    assert_eq!(out.len(), 2);
    assert!((out[0] - 14.0).abs() < EPS);
    assert!((out[1] - 32.0).abs() < EPS);
}

#[test]
fn single_test() {
    let eps = 1.0e-6;
    let m0 = Matrix::new(2, 2, to_bits(&[1.0, 2.0, 3.0, 4.0])).unwrap();
    let m1 = Matrix::new(2, 1, to_bits(&[4.0, 5.0])).unwrap();

    /* matrix multiplication
       [1 2] * [4] = [14]
       [3 4]   [5]   [32] */
    let m = host_mat_mul(&m0, &m1);
    assert!((m[0] - 14.0f32).abs() < eps);
    assert!((m[1] - 32.0f32).abs() < eps);

    /* matrix scalar multiplication
       [1 2] * 1.5 = [1.5 3]
       [3 4]         [4.5 6]*/
    let m = host_scalar_mul(&m0, 1.5);
    assert!((m[0] - 1.5f32) < eps);
    assert!((m[1] - 3.0f32) < eps);
    assert!((m[2] - 4.5f32) < eps);
    assert!((m[3] - 6.0f32) < eps);
}

#[test]
fn column_major_layout_three_by_two() {
    // A is 3x2 and B is 2x2, so the result grid is 3 rows by 2 columns: a
    // shape on which row-major and column-major flattening differ.
    let a_values = [1.0, 2.0, 3.0, 4.0, 5.0, 6.0];
    let b_values = [7.0, 8.0, 9.0, 10.0];
    let a = Matrix::new(3, 2, to_bits(&a_values)).unwrap();
    let b = Matrix::new(2, 2, to_bits(&b_values)).unwrap();
    let out = host_mat_mul(&a, &b);
    assert_eq!(out.len(), 6);
    let rows = 3;
    let cols = 2;
    for r in 0..rows {
        for c in 0..cols {
            let mut sum: f32 = 0.0;
            for k in 0..2 {
                sum += a_values[r * 2 + k] * b_values[k * 2 + c];
            }
            // The product of row r and column c sits at the column-major
            // offset c*rows + r, not at the row-major offset r*cols + c.
            assert!((out[c * rows + r] - sum).abs() < EPS);
        }
    }
    // One concrete witness that the convention is load-bearing: cell (0, 1)
    // holds 1*8 + 2*10 = 28 and sits at column-major offset 1*3 + 0 = 3; its
    // row-major offset 0*2 + 1 = 1 holds a different cell's value (57).
    assert!((out[1 * rows + 0] - 28.0).abs() < EPS);
    assert!((out[0 * cols + 1] - 28.0).abs() >= EPS);
}

#[test]
fn scalar_multiply_by_one_is_identity() {
    let values = [0.0, -1.5, 3.25, 1.0e-3, 7.0, -42.0];
    let m = Matrix::new(2, 3, to_bits(&values)).unwrap();
    let out = host_scalar_mul(&m, 1.0);
    assert_eq!(out.len(), values.len());
    for i in 0..values.len() {
        assert!((out[i] - values[i]).abs() < EPS);
    }
}

#[test]
fn sequential_multiplies_are_independent() {
    let a1 = Matrix::new(2, 2, to_bits(&[1.0, 2.0, 3.0, 4.0])).unwrap();
    let b1 = Matrix::new(2, 1, to_bits(&[4.0, 5.0])).unwrap();
    let a2 = Matrix::new(1, 2, to_bits(&[10.0, 20.0])).unwrap();
    let b2 = Matrix::new(2, 2, to_bits(&[1.0, 0.0, 0.0, 1.0])).unwrap();

    let first = host_mat_mul(&a1, &b1);
    let second = host_mat_mul(&a2, &b2);

    // The second result reflects only its own inputs...
    assert_eq!(second.len(), 2);
    assert!((second[0] - 10.0).abs() < EPS);
    assert!((second[1] - 20.0).abs() < EPS);
    // ...and the first is unchanged by the later call.
    assert_eq!(first.len(), 2);
    assert!((first[0] - 14.0).abs() < EPS);
    assert!((first[1] - 32.0).abs() < EPS);
}
