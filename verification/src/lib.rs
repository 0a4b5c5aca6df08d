//! A small 3-by-3 matrix library whose scalars are IEEE 754 binary32 values
//! carried as their raw bit patterns (`u32`): vector and matrix value types,
//! a dot-product kernel, a sequential reference multiply, and a parallel
//! fan-out/fan-in multiply with two aggregation strategies, proved to return
//! exactly the product matrix.

pub mod board;
pub mod matrix;
pub mod parallel;
pub mod scalar;

pub use matrix::{dot, multiply_sequential, Mat3, MatXVec3, Vec3};
pub use parallel::{cell_task, CellResult, MatXMat3, MatXMat3_locked};
