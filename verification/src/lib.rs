//! Measurement values that carry a propagated statistical uncertainty and a
//! symbolic derivation trail, with elementwise lifts to fixed-length vectors
//! and to matrices of row vectors.
//!
//! The host evaluates IEEE-754 arithmetic and hands each result in as an
//! [`Fp`]: the bit pattern of the double together with its decimal rendering.
//! This core reads bit patterns to settle every domain question (zero
//! divisor, even root of a negative radicand, logarithm domain and base,
//! pole of the tangent), validates shapes, propagates failure as absence of
//! a result, and builds the derivation trail of every operation.

pub mod fp;
pub mod matrix;
pub mod scalar;
pub mod trail;
pub mod vector;

pub use fp::Fp;
pub use matrix::UnifiedMatrix;
pub use scalar::UnifiedNumber;
pub use vector::UnifiedVector;
