//! Keys, per-type generation declarations, and drawing from a seed with them.
use vstd::prelude::*;

use crate::seed::Seed;
use crate::stream::{pcg_with_state, stream_state};

verus! {

/// Types that can be used as keys when generating deterministic pseudorandom values.
pub trait PrngKey {
    fn key(&self) -> u64;
}

/// The unit key: one key value for values that are global to a seed.
impl PrngKey for () {
    fn key(&self) -> (r: u64)
        ensures
            r == 0,
    {
        0
    }
}

/// Types that can be used to generate deterministic pseudorandom values of `T`.
pub trait Generate<T> {
    /// A hard-coded random number that is xor'ed with the seed value and key
    /// value to produce values that are unique to that seed-key-type.
    const XOR: u128;

    /// The sample distribution.
    type Distribution;

    fn distribution() -> Self::Distribution;
}

/// Relies on rand's `Distribution::sample`: one value of `T` drawn from `rng`.
#[verifier::external_body]
fn sample_from<T, D: rand::distributions::Distribution<T>>(
    dist: &D,
    rng: &mut rand_pcg::Pcg64Mcg,
) -> T {
    dist.sample(rng)
}

/// Helper trait for generating deterministic pseudorandom values for `PrngKey`
/// keys that implement `Generate<T>`.
pub trait Prng<K: PrngKey> {
    /// Generates a value for the given `Seed` and key `K`.
    fn generate<T>(&self, key: &K) -> T
        where
            K: Generate<T>,
            <K as Generate<T>>::Distribution: rand::distributions::Distribution<T>,
    ;

    /// The generator of the stream for `self`, key `K` and value type `T`.
    fn rng<T>(&self, key: &K) -> rand_pcg::Pcg64Mcg
        where
            K: Generate<T>,
    ;
}

impl<K: PrngKey> Prng<K> for Seed {
    fn generate<T>(&self, key: &K) -> T
        where
            K: Generate<T>,
            <K as Generate<T>>::Distribution: rand::distributions::Distribution<T>,
    {
        let mut rng = self.rng::<T>(key);
        sample_from(&K::distribution(), &mut rng)
    }

    fn rng<T>(&self, key: &K) -> (r: rand_pcg::Pcg64Mcg)
        where
            K: Generate<T>,
        ensures
            exists|k: u64| r == pcg_with_state(stream_state(self.0, k, <K as Generate<T>>::XOR)),
    {
        let k = key.key();
        self.rng_for(k, K::XOR)
    }
}

} // verus!
