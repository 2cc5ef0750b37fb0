//! Deterministic pseudorandom values keyed by a seed, a key and a value type.
//!
//! To generate values of type `T`, a key implements `PrngKey` and `Generate<T>`.
pub mod seed;
pub mod stream;
pub mod keyed;

pub use keyed::{Generate, Prng, PrngKey};
pub use seed::Seed;
