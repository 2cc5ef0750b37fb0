//! The seed of one reproducible universe of pseudorandom values.
use vstd::bytes::spec_u128_from_le_bytes;
use vstd::prelude::*;
use vstd::string::StringSliceAdditionalSpecFns;

verus! {

/// Seed values for procedurally generating deterministic pseudorandom numbers.
#[derive(Debug, Default, Copy, Clone, PartialEq, Eq, Hash, Structural)]
pub struct Seed(pub u128);

/// The 32-byte BLAKE3 digest of `input`.
pub uninterp spec fn blake3_of(input: Seq<u8>) -> Seq<u8>;

/// Relies on `blake3::hash`: its digest of the input bytes, `blake3::OUT_LEN`
/// (32) bytes long.
#[verifier::external_body]
fn blake3_digest(input: &[u8]) -> (r: Vec<u8>)
    ensures
        r@ == blake3_of(input@),
        r@.len() == 32,
{
    blake3::hash(input).as_bytes().to_vec()
}

/// The seed that a string's UTF-8 bytes hash to: the first 16 bytes of
/// their digest, read as a little-endian integer.
pub open spec fn seed_of_bytes(bytes: Seq<u8>) -> u128 {
    spec_u128_from_le_bytes(blake3_of(bytes).subrange(0, 16))
}

impl Seed {
    /// Generates a `Seed` by hashing a string.
    pub fn new_from_str(seed: &str) -> (r: Self)
        ensures
            r.0 == seed_of_bytes(seed.spec_bytes()),
    {
        let digest = blake3_digest(seed.as_bytes());
        let head = vstd::slice::slice_subrange(digest.as_slice(), 0, 16);
        Seed(vstd::bytes::u128_from_le_bytes(head))
    }
}

impl From<u128> for Seed {
    fn from(value: u128) -> (r: Self)
        ensures
            r.0 == value,
    {
        Seed(value)
    }
}

impl vstd::std_specs::convert::FromSpecImpl<u128> for Seed {
    open spec fn obeys_from_spec() -> bool {
        true
    }

    open spec fn from_spec(v: u128) -> Seed {
        Seed(v)
    }
}

/// Hashing the same string twice gives the same seed.
pub proof fn lemma_string_seed_deterministic(a: &str, b: &str)
    requires
        a@ == b@,
    ensures
        seed_of_bytes(a.spec_bytes()) == seed_of_bytes(b.spec_bytes()),
{
}

} // verus!
