//! The items most callers need, under one import.
pub use crate::matrix::Mat3x3;
pub use crate::traits::{Cross, Dot, Invert, Norm};
pub use crate::vector::{Vec2, Vec3};
