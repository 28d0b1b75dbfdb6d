//! The vector types.
pub mod scalar;
pub mod vec2;
pub mod vec3;

pub use vec2::Vec2;
pub use vec3::Vec3;
