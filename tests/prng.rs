use keyed_prng::{Generate, Prng, PrngKey, Seed};
use rand::distributions::{Distribution, Standard};
use rand::Rng;

pub struct ValueKey(u64);

impl ValueKey {
    pub fn new(index: u64) -> Self {
        ValueKey(index)
    }
}

impl PrngKey for ValueKey {
    fn key(&self) -> u64 {
        self.0
    }
}

#[derive(Debug, PartialEq)]
struct Value1(f64);

impl Distribution<Value1> for Standard {
    fn sample<R: Rng + ?Sized>(&self, rng: &mut R) -> Value1 {
        Value1(rng.gen())
    }
}

impl Generate<Value1> for ValueKey {
    const XOR: u128 = 1;
    type Distribution = Standard;
    fn distribution() -> Self::Distribution {
        Standard
    }
}

#[derive(Debug, PartialEq)]
struct Value2(f64);

impl PartialEq<Value2> for Value1 {
    fn eq(&self, other: &Value2) -> bool {
        self.0.eq(&other.0)
    }
}

impl Distribution<Value2> for Standard {
    fn sample<R: Rng + ?Sized>(&self, rng: &mut R) -> Value2 {
        Value2(rng.gen())
    }
}

impl Generate<Value2> for ValueKey {
    const XOR: u128 = 2;
    type Distribution = Standard;
    fn distribution() -> Self::Distribution {
        Standard
    }
}

/// Prng global values
#[derive(Debug, PartialEq)]
pub struct Global(f64);

impl Generate<Global> for () {
    const XOR: u128 = 635184615;
    type Distribution = Standard;
    fn distribution() -> Self::Distribution {
        Standard
    }
}

impl Distribution<Global> for Standard {
    fn sample<R: Rng + ?Sized>(&self, rng: &mut R) -> Global {
        Global(rng.gen())
    }
}

#[test]
fn same_key_and_same_type_returns_same_values() {
    let seed = Seed::new_from_str("value test");
    let key = ValueKey::new(7);
    let value1a = seed.generate::<Value1>(&key);
    let value1b = seed.generate::<Value1>(&key);
    assert_eq!(value1a, value1b);
}

#[test]
fn same_key_and_different_type_returns_different_values() {
    let seed = Seed::new_from_str("value test");
    let key = ValueKey::new(7);
    let value1 = seed.generate::<Value1>(&key);
    let value2 = seed.generate::<Value2>(&key);
    assert_ne!(value1, value2);
}

#[test]
fn unit_key_return_consistent_values() {
    let seed = Seed::new_from_str("global test");
    let global1 = seed.generate::<Global>(&());
    let global2 = seed.generate::<Global>(&());
    assert_eq!(global1, global2);
}

#[test]
fn zero_and_one_generate_different_values() {
    let seed = Seed::new_from_str("test");
    let k1 = ValueKey(0);
    let k2 = ValueKey(1);
    assert_ne!(seed.generate::<Value1>(&k1), seed.generate::<Value1>(&k2));
}

#[test]
fn prng_rng_and_generate() {
    let seed = Seed::new_from_str("rng and generate");
    let key = ValueKey(23);
    let mut rng = Prng::<ValueKey>::rng::<Value1>(&seed, &key);
    let rng_value = rng.gen::<Value1>();
    let generate_value = seed.generate::<Value1>(&key);
    assert_eq!(rng_value, generate_value);
}
