//! A fixed-size linear-algebra kernel: 3-component vectors and 3x3 matrices
//! of IEEE-754 binary32 scalars, with addition, subtraction, multiplication,
//! scaling, normalization, transposition and identity construction.
//!
//! Every scalar is carried as the raw `u32` bit pattern of an `f32`. The
//! arithmetic on bit patterns is performed by a software IEEE-754
//! implementation behind a small set of trusted wrappers in [`scalar`];
//! everything
//! built on top of them — element layout, multiplication order, the identity
//! and transposition laws — is verified.

pub mod matrix;
pub mod vector;
pub mod scalar;

pub use matrix::Matrix3x3;
pub use matrix::MatrixAdd;
pub use matrix::MatrixMul;
pub use matrix::MatrixSub;
pub use matrix::Transpose;
pub use matrix::Unit;
pub use vector::Vec3;
pub use vector::Vector;
