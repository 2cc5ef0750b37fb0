//! How a seed, a key and a value type's constant become a generator's state.
use vstd::prelude::*;

use crate::seed::Seed;

verus! {

#[verifier::external_type_specification]
#[verifier::external_body]
pub struct ExPcg64Mcg(rand_pcg::Pcg64Mcg);

/// The `Pcg64Mcg` generator whose whole internal state is `state`.
pub uninterp spec fn pcg_with_state(state: u128) -> rand_pcg::Pcg64Mcg;

/// The 128-bit mix of a seed, a key and a value type's constant: the key is
/// placed in the upper 64 bits, clear of the generator's forced low bit.
pub open spec fn mixed_state(seed: u128, key: u64, xor: u128) -> u128 {
    seed ^ xor ^ ((key as u128) << 64u128)
}

/// The state of the generator started from a mix: its lowest bit is set.
pub open spec fn stream_state(seed: u128, key: u64, xor: u128) -> u128 {
    mixed_state(seed, key, xor) | 1u128
}

/// Relies on rand_pcg's `Pcg64Mcg::new`, which keeps `state | 1` as the
/// generator's state and nothing else.
#[verifier::external_body]
fn pcg64mcg_new(state: u128) -> (r: rand_pcg::Pcg64Mcg)
    ensures
        r == pcg_with_state(state | 1u128),
{
    rand_pcg::Pcg64Mcg::new(state)
}

impl Seed {
    /// Mixes this seed with a key value and a value type's constant.
    pub fn mix(&self, key: u64, xor: u128) -> (r: u128)
        ensures
            r == mixed_state(self.0, key, xor),
    {
        self.0 ^ xor ^ ((key as u128) << 64u128)
    }

    /// The generator of the stream for a key value and a value type's constant.
    pub fn rng_for(&self, key: u64, xor: u128) -> (r: rand_pcg::Pcg64Mcg)
        ensures
            r == pcg_with_state(stream_state(self.0, key, xor)),
    {
        pcg64mcg_new(self.mix(key, xor))
    }
}

/// Two different key values give generators that start in different states,
/// for any seed and constant: the key survives the generator's forced low bit.
pub proof fn lemma_key_separation(seed: u128, k1: u64, k2: u64, xor: u128)
    requires
        k1 != k2,
    ensures
        stream_state(seed, k1, xor) != stream_state(seed, k2, xor),
{
    assert((seed ^ xor ^ ((k1 as u128) << 64u128)) | 1u128 != (seed ^ xor ^ ((k2 as u128) << 64u128)) | 1u128)
        by (bit_vector)
        requires
            k1 != k2,
    ;
}

/// Two different seeds give different mixes, for any key and constant.
pub proof fn lemma_seed_separation(s1: u128, s2: u128, key: u64, xor: u128)
    requires
        s1 != s2,
    ensures
        mixed_state(s1, key, xor) != mixed_state(s2, key, xor),
{
    assert(s1 ^ xor ^ ((key as u128) << 64u128) != s2 ^ xor ^ ((key as u128) << 64u128))
        by (bit_vector)
        requires
            s1 != s2,
    ;
}

/// Two seeds give generators in the same state exactly when they agree on
/// every bit but the lowest, for any key and constant.
pub proof fn lemma_seed_stream_separation(s1: u128, s2: u128, key: u64, xor: u128)
    ensures
        stream_state(s1, key, xor) == stream_state(s2, key, xor) <==> s1 | 1u128 == s2 | 1u128,
{
    assert((s1 ^ xor ^ ((key as u128) << 64u128)) | 1u128 == (s2 ^ xor ^ ((key as u128) << 64u128))
        | 1u128 <==> s1 | 1u128 == s2 | 1u128) by (bit_vector);
}

/// Two different constants give different mixes, for any seed and key.
pub proof fn lemma_type_separation(seed: u128, key: u64, x1: u128, x2: u128)
    requires
        x1 != x2,
    ensures
        mixed_state(seed, key, x1) != mixed_state(seed, key, x2),
{
    assert(seed ^ x1 ^ ((key as u128) << 64u128) != seed ^ x2 ^ ((key as u128) << 64u128))
        by (bit_vector)
        requires
            x1 != x2,
    ;
}

/// Two value types' constants give generators in the same state exactly when
/// they agree on every bit but the lowest, for any seed and key.
pub proof fn lemma_type_stream_separation(seed: u128, key: u64, x1: u128, x2: u128)
    ensures
        stream_state(seed, key, x1) == stream_state(seed, key, x2) <==> x1 | 1u128 == x2 | 1u128,
{
    assert((seed ^ x1 ^ ((key as u128) << 64u128)) | 1u128 == (seed ^ x2 ^ ((key as u128) << 64u128))
        | 1u128 <==> x1 | 1u128 == x2 | 1u128) by (bit_vector);
}

/// The generators that `Seed::rng_for` returns for the same seed, key value and
/// constant are equal: a stream is a function of those three alone.
pub proof fn lemma_stream_deterministic(
    seed: u128,
    key: u64,
    xor: u128,
    r1: rand_pcg::Pcg64Mcg,
    r2: rand_pcg::Pcg64Mcg,
)
    requires
        r1 == pcg_with_state(stream_state(seed, key, xor)),
        r2 == pcg_with_state(stream_state(seed, key, xor)),
    ensures
        r1 == r2,
{
}

/// With the unit key (whose only value is 0), the stream depends on the seed
/// and the value type's constant alone: its state is `(seed ^ xor) | 1`.
pub proof fn lemma_unit_key_stream(seed: u128, xor: u128)
    ensures
        stream_state(seed, 0, xor) == (seed ^ xor) | 1u128,
{
    assert((seed ^ xor ^ ((0u64 as u128) << 64u128)) | 1u128 == (seed ^ xor) | 1u128)
        by (bit_vector);
}

} // verus!
