//! Material scattering decisions on plain values.
//!
//! The reflectance and refraction formulas are floating-point work and stay
//! with the renderer; what is fixed here is the dielectric's branch policy.
//! A glass surface refracts an incoming ray unless refraction is impossible
//! (total internal reflection) or a Schlick-reflectance coin flip comes up
//! heads; in either of those cases it reflects. When refraction is
//! impossible, the ray reflects whatever the coin flip would have said.

use vstd::prelude::*;

verus! {

/// Which outgoing direction a dielectric surface gives a ray.
#[derive(Clone, Copy, Debug, PartialEq, Eq, Structural)]
pub enum GlassBranch {
    /// Mirror the incoming ray about the surface normal.
    Reflect,
    /// Bend the incoming ray through the surface by Snell's law.
    Refract,
}

/// The dielectric branch policy: reflect exactly when refraction is
/// impossible or the reflectance draw demands it — and when refraction is
/// impossible, reflect regardless of the draw.
pub fn dielectric_choice(cannot_refract: bool, reflectance_exceeds_draw: bool) -> (r:
    GlassBranch)
    ensures
        r == GlassBranch::Reflect <==> (cannot_refract || reflectance_exceeds_draw),
        cannot_refract ==> r == GlassBranch::Reflect,
{
    if cannot_refract || reflectance_exceeds_draw {
        GlassBranch::Reflect
    } else {
        GlassBranch::Refract
    }
}

} // verus!
