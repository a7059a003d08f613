//! The catalogue of built-in scenes.
//!
//! Each marker names one scene the renderer knows how to assemble. Assembly
//! itself only instantiates primitives, materials and textures with literal
//! floating-point parameters, so it lives with the renderer; the markers let
//! the rest of the program name a scene.

use vstd::prelude::*;

verus! {

/// Many small randomly placed spheres around three large ones, over a
/// checkered ground sphere.
pub struct RandomScene;

/// Two spheres textured with Perlin-noise marble.
pub struct PerlinSpheres;

/// A globe carrying the decoded earth image texture.
pub struct Earth;

/// The Perlin spheres lit by one rectangular diffuse light.
pub struct SimpleLight;

/// The Perlin spheres lit by three coloured sphere lights.
pub struct SimpleColoredLights;

/// The Cornell box with two rotated, translated blocks.
pub struct CornellBox;

/// The Cornell box with the two blocks turned into constant-density smoke.
pub struct CornellSmoke;

/// The showcase scene: a ground of random-height blocks under a BVH, assorted
/// spheres and media, and the earth globe.
pub struct FinalScene;

} // verus!
