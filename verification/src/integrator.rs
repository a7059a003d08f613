//! The control decisions of the recursive radiance integrator.
//!
//! The integrator's arithmetic — intersecting, scattering, multiplying
//! attenuation into the recursive radiance — is floating point and runs in
//! the renderer; the branching that drives it is decided here, so that the
//! termination and fall-through rules are stated and proved once.

use vstd::prelude::*;

verus! {

/// What one integrator step contributes for a ray.
#[derive(Clone, Copy, Debug, PartialEq, Eq, Structural)]
pub enum RadianceStep {
    /// The bounce budget is exhausted: the ray contributes black, whatever
    /// the scene holds.
    Terminate,
    /// The ray hit nothing: it contributes the background colour unchanged.
    Background,
    /// The surface does not scatter: the ray contributes the emitted light
    /// alone.
    EmittedOnly,
    /// The surface scatters: the ray contributes the emitted light plus the
    /// attenuated radiance of the scattered ray, traced with a budget one
    /// smaller.
    EmittedPlusScattered,
}

/// Decide one step of the radiance recursion from the remaining bounce
/// budget, whether the ray hit anything, and whether the hit surface
/// scattered it onward.
pub fn integrator_step(depth: i32, hit: bool, scattered: bool) -> (r: RadianceStep)
    ensures
        depth <= 0 ==> r == RadianceStep::Terminate,
        depth > 0 && !hit ==> r == RadianceStep::Background,
        depth > 0 && hit && !scattered ==> r == RadianceStep::EmittedOnly,
        depth > 0 && hit && scattered ==> r == RadianceStep::EmittedPlusScattered,
{
    if depth <= 0 {
        RadianceStep::Terminate
    } else if !hit {
        RadianceStep::Background
    } else if scattered {
        RadianceStep::EmittedPlusScattered
    } else {
        RadianceStep::EmittedOnly
    }
}

} // verus!
