pub mod geometry;
pub mod material;
pub mod rng;
pub mod trace;
