//! Fixed-dimension vectors and matrices over a scalar type, with the
//! arithmetic, geometric and matrix operations stated as contracts.
pub mod matrixs;
pub mod scalar;
pub mod vectors;
