//! Core of a point-cloud viewer: camera interaction, point normalization,
//! viewport and input routing, all over IEEE-754 single-precision values
//! held by their bit patterns.
pub mod camera;
pub mod engine;
pub mod geometry;
pub mod pointcloud;
pub mod scalar;
