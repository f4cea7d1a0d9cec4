//! Matrices of a fixed size, stored as rows of vectors.
pub mod algebra;
pub mod determinant;
pub mod laws;
pub mod mat;

pub use determinant::determinent;
pub use mat::Mat;
