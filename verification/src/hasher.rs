//! Types and methods for hashing objects.
use vstd::prelude::*;
use ahash::AHasher;

verus! {

/// The keyed hasher of the `ahash` crate.
#[verifier::external_type_specification]
#[verifier::external_body]
pub struct ExAHasher(ahash::AHasher);

/// A hasher keyed with `key1` and `key2` (`AHasher::new_with_keys`). Which
/// algorithm ahash uses depends on the features of the CPU the program is
/// built for, so nothing is stated of the hasher's state.
#[verifier::external_body]
fn keyed_hasher(key1: u128, key2: u128) -> AHasher {
    AHasher::new_with_keys(key1, key2)
}

/// Feeds a signed integer to the hasher (`<i64 as Hash>::hash`).
#[verifier::external_body]
fn hash_i64(hasher: &mut AHasher, value: i64) {
    std::hash::Hash::hash(&value, hasher)
}

/// Feeds an unsigned integer to the hasher (`<u64 as Hash>::hash`).
#[verifier::external_body]
fn hash_u64(hasher: &mut AHasher, value: u64) {
    std::hash::Hash::hash(&value, hasher)
}

/// Feeds a string to the hasher (`<str as Hash>::hash`).
#[verifier::external_body]
fn hash_str(hasher: &mut AHasher, value: &str) {
    std::hash::Hash::hash(value, hasher)
}

/// The hash of what was fed to the hasher (`AHasher::finish`). Nothing is
/// stated of it, as the algorithm depends on the CPU the program is built
/// for.
#[verifier::external_body]
fn finish_hash(hasher: &AHasher) -> u64 {
    std::hash::Hasher::finish(hasher)
}

/// A value fed to a hasher.
pub enum HashInput {
    /// A signed integer.
    Int(i64),
    /// An unsigned integer.
    UnsignedInt(u64),
    /// The characters of a string.
    Text(Seq<char>),
}

/// A keyed hasher for Inko values, that starts over after producing a hash.
pub struct Hasher {
    hasher: AHasher,
    key1: u64,
    key2: u64,
    /// The values fed to the hasher since it last started over, oldest first.
    fed: Ghost<Seq<HashInput>>,
}

impl Hasher {
    /// The keys of the hasher.
    pub closed spec fn keys(&self) -> (u64, u64) {
        (self.key1, self.key2)
    }

    /// The values fed to the hasher since it last started over, oldest
    /// first.
    pub closed spec fn fed(&self) -> Seq<HashInput> {
        self.fed@
    }

    /// Returns a hasher keyed with the two keys.
    pub fn new(key1: u64, key2: u64) -> (r: Self)
        ensures
            r.keys() == (key1, key2),
            r.fed() == Seq::<HashInput>::empty(),
    {
        Hasher {
            hasher: keyed_hasher(key1 as u128, key2 as u128),
            key1,
            key2,
            fed: Ghost(Seq::empty()),
        }
    }

    /// Feeds a signed integer to the hasher.
    pub fn write_int(&mut self, value: i64)
        ensures
            final(self).keys() == old(self).keys(),
            final(self).fed() == old(self).fed().push(HashInput::Int(value)),
    {
        hash_i64(&mut self.hasher, value);
        proof {
            self.fed@ = self.fed@.push(HashInput::Int(value));
        }
    }

    /// Feeds an unsigned integer to the hasher.
    pub fn write_unsigned_int(&mut self, value: u64)
        ensures
            final(self).keys() == old(self).keys(),
            final(self).fed() == old(self).fed().push(HashInput::UnsignedInt(value)),
    {
        hash_u64(&mut self.hasher, value);
        proof {
            self.fed@ = self.fed@.push(HashInput::UnsignedInt(value));
        }
    }

    /// Feeds a string to the hasher.
    pub fn write_string(&mut self, value: &str)
        ensures
            final(self).keys() == old(self).keys(),
            final(self).fed() == old(self).fed().push(HashInput::Text(value@)),
    {
        hash_str(&mut self.hasher, value);
        proof {
            self.fed@ = self.fed@.push(HashInput::Text(value@));
        }
    }

    /// Returns the hash of what was fed to the hasher, and starts over with
    /// a hasher keyed with the same keys.
    pub fn finish(&mut self) -> (r: u64)
        ensures
            final(self).keys() == old(self).keys(),
            final(self).fed() == Seq::<HashInput>::empty(),
    {
        let hash = finish_hash(&self.hasher);
        self.hasher = keyed_hasher(self.key1 as u128, self.key2 as u128);
        self.fed = Ghost(Seq::empty());
        hash
    }
}

} // verus!
