//! A deterministic procedural-generation engine for a hierarchical model of
//! celestial bodies: a galaxy owns stars, a star would own planets, a planet
//! owns moons. Identical seeds always reproduce identical structures; no
//! entity ever samples from ambient or global randomness. Every entity
//! record also carries a lossless textual serialization, proved to round
//! trip.

use vstd::prelude::*;

pub mod bodies;
pub mod codec;
pub mod galaxy;
pub mod sampler;

verus! {

pub use crate::bodies::Body;
pub use crate::bodies::BodyTypes;
pub use crate::bodies::DwarfMoon;
pub use crate::bodies::DwarfPlanet;
pub use crate::bodies::GalacticPosition;
pub use crate::bodies::HardBodyTypes;
pub use crate::bodies::HardBodyV;
pub use crate::bodies::InvalidAttribute;
pub use crate::bodies::Moon;
pub use crate::bodies::Planet;
pub use crate::bodies::PlanetTypes;
pub use crate::bodies::PlanetV;
pub use crate::bodies::Star;
pub use crate::bodies::StarTypes;
pub use crate::bodies::StarV;
pub use crate::galaxy::generate_nearby_stars;
pub use crate::galaxy::Galaxy;
pub use crate::galaxy::GalaxyType;
pub use crate::galaxy::NEARBY_STAR_COUNT;
pub use crate::sampler::Sampler;

} // verus!
