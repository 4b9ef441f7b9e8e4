pub mod arith;
pub mod bits;
pub mod vector;

pub use vector::Vector3;
