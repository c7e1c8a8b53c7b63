//! The source of uniform randomness behind every simulation run.
//!
//! All sampling in the library reduces to one primitive: drawing a uniform
//! integer below a bound. The richer draws (Bernoulli trials, Rademacher
//! steps) are built on it in verified code.

use rand::Rng;
use vstd::prelude::*;

verus! {

#[verifier::external_type_specification]
#[verifier::external_body]
pub struct ExThreadRng(rand::rngs::ThreadRng);

/// A handle to a pseudo-random generator, owned by one simulation run.
///
/// Nothing is known about the values drawn from it beyond the bounds stated
/// on each method, so every contract proved over it holds of every outcome.
pub struct RandomSource {
    rng: rand::rngs::ThreadRng,
}

impl RandomSource {
    /// Draws a fresh handle to the thread-local generator.
    ///
    /// Relies on rand::rng: it returns a handle to the initialized
    /// thread-local generator (panicking only if the operating system
    /// cannot supply entropy to initialize it).
    #[verifier::external_body]
    pub fn new() -> (r: RandomSource) {
        RandomSource { rng: rand::rng() }
    }

    /// Draws a uniform integer in `0 .. bound`.
    ///
    /// Relies on rand's Rng::random_range over the range `0..bound`: it
    /// returns a value of the range, and panics only when the range is
    /// empty, which `bound > 0` rules out.
    #[verifier::external_body]
    pub fn uniform_below(&mut self, bound: u64) -> (r: u64)
        requires
            bound > 0,
        ensures
            r < bound,
    {
        self.rng.random_range(0..bound)
    }
}

} // verus!
