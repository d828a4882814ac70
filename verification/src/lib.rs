//! Dense single-precision matrix arithmetic offloaded to an OpenCL
//! accelerator.
//!
//! The crate is split along the host/device boundary. This library holds the
//! decisions that the host makes and that can be stated exactly: which device
//! the selection policy picks (`device`), how matrix cells map to flat buffer
//! offsets on both sides of the kernel (`layout`), the shape invariant of the
//! `Matrix` value type (`matrix`), and the work-grid and buffer schedule of
//! each kernel dispatch (`dispatch`). The accelerator front end that owns the
//! command queue, compiles the kernels and moves the buffers consumes these
//! functions and performs the actual device calls.

pub mod device;
pub mod dispatch;
pub mod layout;
pub mod matrix;
