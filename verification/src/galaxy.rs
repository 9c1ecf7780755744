//! The generation algorithm: given a galaxy and a query position, derive a
//! bounded set of nearby stars. A sampler is seeded from the galaxy seed
//! alone, a fixed number of 64-bit values are drawn, and each drawn value
//! becomes the seed of one star, in draw order. The same seed always yields
//! the same stars; the query position is accepted but does not perturb the
//! output.

use vstd::prelude::*;
use crate::bodies::{GalacticPosition, Star, StarTypes, StarV};
use crate::sampler::{draw_of, Sampler};

verus! {

/// How many stars one "nearby stars" query yields.
pub const NEARBY_STAR_COUNT: usize = 10;

/// The classification of a galaxy.
#[derive(Clone, Copy, Debug, PartialEq, Eq, Structural)]
pub enum GalaxyType {
    Spiral,
}

/// A galaxy: the root of the hierarchy. Its stars are produced on demand,
/// never stored.
pub struct Galaxy {
    pub name: String,
    pub galaxy_type: GalaxyType,
    pub seed: u64,
}

/// The star that a nearby-stars query derives from its `k`-th draw: its seed
/// is the drawn value; its name is empty and its spectral class is `O`,
/// placeholders pending richer attribute sampling.
pub open spec fn nearby_star_model(seed: u64, k: int) -> StarV {
    StarV { name: Seq::<char>::empty(), star_type: StarTypes::O, seed: draw_of(seed, k) }
}

/// The full result of a nearby-stars query is a function of the galaxy seed
/// alone: the sequence of stars derived from the first `NEARBY_STAR_COUNT`
/// draws, in draw order.
pub open spec fn nearby_stars_model(seed: u64) -> Seq<StarV> {
    Seq::new(NEARBY_STAR_COUNT as nat, |k: int| nearby_star_model(seed, k))
}

impl Galaxy {
    /// Total constructor: a galaxy holds exactly the fields it was given.
    pub fn new(name: String, galaxy_type: GalaxyType, seed: u64) -> (g: Galaxy)
        ensures
            g.name@ == name@,
            g.galaxy_type == galaxy_type,
            g.seed == seed,
    {
        Galaxy { name, galaxy_type, seed }
    }

    /// Derive the stars near `pos`: exactly `NEARBY_STAR_COUNT` of them, each
    /// seeded from one draw of a sampler keyed by the galaxy seed, in draw
    /// order. The result is the model sequence of this galaxy's seed — the
    /// position does not perturb it — so equal seeds always yield equal
    /// results.
    pub fn get_nearby_stars(&self, pos: GalacticPosition) -> (stars: Vec<Star>)
        ensures
            stars@.map_values(|s: Star| s@) == nearby_stars_model(self.seed),
            stars@.len() == NEARBY_STAR_COUNT,
    {
        let mut rng = Sampler::from_seed(self.seed);
        let mut stars: Vec<Star> = Vec::new();
        for i in 0..NEARBY_STAR_COUNT
            invariant
                rng.seed() == self.seed,
                rng.drawn() == i as int,
                stars@.len() == i,
                forall|k: int| 0 <= k < i ==> (#[trigger] stars@[k])@ == nearby_star_model(
                    self.seed,
                    k,
                ),
        {
            let star_seed = rng.next_u64();
            stars.push(Star::new(String::new(), StarTypes::O, star_seed));
        }
        proof {
            assert(stars@.map_values(|s: Star| s@) =~= nearby_stars_model(self.seed));
        }
        stars
    }
}

/// The boundary the surrounding shell consumes: construct the galaxy from
/// its parts and derive its nearby stars in one step. The result is the
/// model sequence of `seed` alone, exactly as for
/// [`Galaxy::get_nearby_stars`].
pub fn generate_nearby_stars(
    seed: u64,
    galaxy_name: String,
    galaxy_type: GalaxyType,
    position: GalacticPosition,
) -> (stars: Vec<Star>)
    ensures
        stars@.map_values(|s: Star| s@) == nearby_stars_model(seed),
        stars@.len() == NEARBY_STAR_COUNT,
{
    let galaxy = Galaxy::new(galaxy_name, galaxy_type, seed);
    galaxy.get_nearby_stars(position)
}

/// Determinism: the nearby-stars result is pinned by the galaxy seed. Any
/// result the query can return for a galaxy with seed `seed` is the model
/// sequence of that seed, so two calls with identical seed and position
/// yield identical ordered sequences of (name, spectral class, seed).
pub proof fn lemma_generation_deterministic(r1: Seq<StarV>, r2: Seq<StarV>, seed: u64)
    requires
        r1 == nearby_stars_model(seed),
        r2 == nearby_stars_model(seed),
    ensures
        r1 == r2,
        r1.len() == NEARBY_STAR_COUNT,
        forall|k: int| 0 <= k < r1.len() ==> r1[k] == r2[k],
{
}

/// Isolation: a nearby-stars result depends on nothing but its own galaxy's
/// seed. Given the results of two calls, each is exactly the model sequence
/// of its own seed, whatever the other call's seed was — no sampler state is
/// shared across calls, so neither call can influence the other's output.
pub proof fn lemma_generation_isolated(r1: Seq<StarV>, r2: Seq<StarV>, seed1: u64, seed2: u64)
    requires
        r1 == nearby_stars_model(seed1),
        r2 == nearby_stars_model(seed2),
    ensures
        forall|k: int| 0 <= k < r1.len() ==> r1[k] == nearby_star_model(seed1, k),
        forall|k: int| 0 <= k < r2.len() ==> r2[k] == nearby_star_model(seed2, k),
{
}

} // verus!
