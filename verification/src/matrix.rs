//! The matrix type.
pub mod mat3x3;

pub use mat3x3::Mat3x3;
