//! Fixed-size vectors and a 3x3 matrix over a generic element type.
pub mod element;
pub mod identities;
pub mod matrix;
pub mod ordered;
pub mod traits;
pub mod vector;

pub mod prelude;
