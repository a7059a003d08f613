//! Discrete core of a small path-tracing renderer.
//!
//! The floating-point parts of the renderer (vector arithmetic, intersection
//! tests, materials, the integrator) live in the accompanying application;
//! this crate holds the pieces whose behaviour is stated and proved exactly:
//! image-dimension parsing, the hashed permutation tables behind the Perlin
//! noise texture, pixel lookup in a decoded image texture, and the small
//! selector types the renderer shares.

pub mod dimensions;
pub mod geometry;
pub mod image;
pub mod integrator;
pub mod perlin;
pub mod scene;
