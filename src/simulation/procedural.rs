pub mod asteroid_shape;
pub mod hash;
