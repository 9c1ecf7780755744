//! The seeded sampler: a deterministic pseudo-random generator keyed by an
//! explicit 64-bit seed. Two samplers constructed from the same seed produce
//! identical value streams; a sampler owns its generator state exclusively
//! and consumes no global or shared mutable state.

use vstd::prelude::*;
use rand::rngs::StdRng;
use rand::Rng;
use rand::SeedableRng;

verus! {

/// The standard generator of the `rand` crate, an opaque value to the
/// contracts; a sampler's ghost fields shadow everything the library needs
/// to know of it.
#[verifier::external_type_specification]
#[verifier::external_body]
pub struct ExStdRng(StdRng);

/// The value stream of the standard generator: `draw_of(seed, k)` is the
/// `k`-th unsigned 64-bit value (counting from 0) drawn from a generator
/// seeded with `seed`. The generator algorithm is a pure function of its
/// seed, so the stream depends on the two arguments alone.
pub uninterp spec fn draw_of(seed: u64, k: int) -> u64;

/// A deterministic sampler. The ghost fields shadow the state of the
/// underlying generator: the next value drawn is `draw_of(seed, drawn)`.
/// Only the constructor below can build one, so the shadow state always
/// matches the generator's.
pub struct Sampler {
    rng: StdRng,
    seed: Ghost<u64>,
    drawn: Ghost<int>,
}

impl Sampler {
    /// The seed this sampler was constructed from.
    pub closed spec fn seed(self) -> u64 {
        self.seed@
    }

    /// How many values have been drawn so far.
    pub closed spec fn drawn(self) -> int {
        self.drawn@
    }

    /// Relies on `rand::SeedableRng::seed_from_u64` and `rand::rngs::StdRng`:
    /// seeding is documented as a deterministic expansion of the 64-bit seed,
    /// and the generator algorithm (ChaCha with 12 rounds, fixed for the
    /// version in use) is a deterministic function of that state, so the
    /// constructed sampler will emit exactly the stream named `draw_of(seed, _)`.
    #[verifier::external_body]
    pub fn from_seed(seed: u64) -> (s: Sampler)
        ensures
            s.seed() == seed,
            s.drawn() == 0,
    {
        Sampler { rng: StdRng::seed_from_u64(seed), seed: Ghost(seed), drawn: Ghost(0) }
    }

    /// Relies on `rand::Rng::gen::<u64>`: it returns the generator's next
    /// uniform 64-bit value and advances the state by one draw, so the result
    /// is the next element of the deterministic stream `draw_of(seed, _)`.
    #[verifier::external_body]
    pub fn next_u64(&mut self) -> (r: u64)
        ensures
            final(self).seed() == old(self).seed(),
            final(self).drawn() == old(self).drawn() + 1,
            r == draw_of(old(self).seed(), old(self).drawn()),
    {
        self.rng.gen::<u64>()
    }
}

} // verus!
