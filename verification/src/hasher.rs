//! Hashers: short-lived values that take in bytes and give a digest.
//!
//! A hasher takes its key when it is made and never changes it. It remembers
//! every byte written to it, in order, and its digest is the digest of all of
//! them under that key, however the writes were cut up.
use crate::digest::{xxh32_digest, xxh3_128_digest, xxh3_64_digest, xxh64_digest};
use crate::entropy::{EntropyPool, ENTROPY_POOL_SIZE};
use vstd::prelude::*;

verus! {

/// A hasher for XXH32, keyed by a 32-bit seed.
pub struct XXH32 {
    seed: u32,
    fed: Vec<u8>,
}

impl XXH32 {
    /// The seed this hasher was made with.
    pub closed spec fn seed(&self) -> u32 {
        self.seed
    }

    /// Every byte written so far, in order.
    pub closed spec fn fed(&self) -> Seq<u8> {
        self.fed@
    }

    /// The digest that this hasher stands for: that of all bytes written so
    /// far under its key.
    pub open spec fn digest(&self) -> u32 {
        xxh32_digest(self.fed(), self.seed())
    }

    /// A fresh hasher keyed by `seed`, with nothing written to it.
    pub fn with_seed(seed: u32) -> (h: Self)
        ensures
            h.seed() == seed,
            h.fed() == Seq::<u8>::empty(),
    {
        XXH32 { seed, fed: Vec::new() }
    }

    /// Takes in `bytes` after all that was written before. The key stays.
    pub fn write(&mut self, bytes: &[u8])
        ensures
            final(self).seed() == old(self).seed(),
            final(self).fed() == old(self).fed() + bytes@,
    {
        self.fed.extend_from_slice(bytes);
    }

    /// The XXH32 digest of all bytes written so far. The hasher is left as
    /// it was, so more may be written and a later digest taken.
    pub fn finish(&self) -> (digest: u32)
        ensures
            digest == self.digest(),
    {
        xxhash_rust::xxh32::xxh32(self.fed.as_slice(), self.seed)
    }
}

/// A hasher for XXH64, keyed by a 64-bit seed.
pub struct XXH64 {
    seed: u64,
    fed: Vec<u8>,
}

impl XXH64 {
    /// The seed this hasher was made with.
    pub closed spec fn seed(&self) -> u64 {
        self.seed
    }

    /// Every byte written so far, in order.
    pub closed spec fn fed(&self) -> Seq<u8> {
        self.fed@
    }

    /// The digest that this hasher stands for: that of all bytes written so
    /// far under its key.
    pub open spec fn digest(&self) -> u64 {
        xxh64_digest(self.fed(), self.seed())
    }

    /// A fresh hasher keyed by `seed`, with nothing written to it.
    pub fn with_seed(seed: u64) -> (h: Self)
        ensures
            h.seed() == seed,
            h.fed() == Seq::<u8>::empty(),
    {
        XXH64 { seed, fed: Vec::new() }
    }

}

impl core::hash::Hasher for XXH64 {
    /// Takes in `bytes` after all that was written before. The key stays.
    fn write(&mut self, bytes: &[u8])
        ensures
            final(self).seed() == old(self).seed(),
            final(self).fed() == old(self).fed() + bytes@,
    {
        self.fed.extend_from_slice(bytes);
    }

    /// The XXH64 digest of all bytes written so far. The hasher is left as
    /// it was, so more may be written and a later digest taken.
    fn finish(&self) -> (digest: u64)
        ensures
            digest == self.digest(),
    {
        xxhash_rust::xxh64::xxh64(self.fed.as_slice(), self.seed)
    }
}

/// A hasher for XXH3 with 64-bit digests, keyed by an entropy pool.
#[allow(non_camel_case_types)]
pub struct XXH3_64 {
    secret: [u8; ENTROPY_POOL_SIZE],
    fed: Vec<u8>,
}

impl XXH3_64 {
    /// The secret bytes this hasher was made with.
    pub closed spec fn secret(&self) -> Seq<u8> {
        self.secret@
    }

    /// Every byte written so far, in order.
    pub closed spec fn fed(&self) -> Seq<u8> {
        self.fed@
    }

    /// The digest that this hasher stands for: that of all bytes written so
    /// far under its key.
    pub open spec fn digest(&self) -> u64 {
        xxh3_64_digest(self.fed(), self.secret())
    }

    /// A fresh hasher keyed by the bytes of `pool`, with nothing written to
    /// it. The hasher keeps its own copy of the secret.
    pub fn with_entropy(pool: &EntropyPool) -> (h: Self)
        ensures
            h.secret() == pool@,
            h.fed() == Seq::<u8>::empty(),
    {
        XXH3_64 { secret: pool.entropy, fed: Vec::new() }
    }

}

impl core::hash::Hasher for XXH3_64 {
    /// Takes in `bytes` after all that was written before. The key stays.
    fn write(&mut self, bytes: &[u8])
        ensures
            final(self).secret() == old(self).secret(),
            final(self).fed() == old(self).fed() + bytes@,
    {
        self.fed.extend_from_slice(bytes);
    }

    /// The 64-bit XXH3 digest of all bytes written so far. The hasher is
    /// left as it was, so more may be written and a later digest taken.
    fn finish(&self) -> (digest: u64)
        ensures
            digest == self.digest(),
    {
        xxhash_rust::xxh3::xxh3_64_with_secret(self.fed.as_slice(), self.secret.as_slice())
    }
}

/// A hasher for XXH3 with 128-bit digests, keyed by an entropy pool.
#[allow(non_camel_case_types)]
pub struct XXH3_128 {
    secret: [u8; ENTROPY_POOL_SIZE],
    fed: Vec<u8>,
}

impl XXH3_128 {
    /// The secret bytes this hasher was made with.
    pub closed spec fn secret(&self) -> Seq<u8> {
        self.secret@
    }

    /// Every byte written so far, in order.
    pub closed spec fn fed(&self) -> Seq<u8> {
        self.fed@
    }

    /// The digest that this hasher stands for: that of all bytes written so
    /// far under its key.
    pub open spec fn digest(&self) -> u128 {
        xxh3_128_digest(self.fed(), self.secret())
    }

    /// A fresh hasher keyed by the bytes of `pool`, with nothing written to
    /// it. The hasher keeps its own copy of the secret.
    pub fn with_entropy(pool: &EntropyPool) -> (h: Self)
        ensures
            h.secret() == pool@,
            h.fed() == Seq::<u8>::empty(),
    {
        XXH3_128 { secret: pool.entropy, fed: Vec::new() }
    }

    /// Takes in `bytes` after all that was written before. The key stays.
    pub fn write(&mut self, bytes: &[u8])
        ensures
            final(self).secret() == old(self).secret(),
            final(self).fed() == old(self).fed() + bytes@,
    {
        self.fed.extend_from_slice(bytes);
    }

    /// The 128-bit XXH3 digest of all bytes written so far. The hasher is
    /// left as it was, so more may be written and a later digest taken.
    pub fn finish(&self) -> (digest: u128)
        ensures
            digest == self.digest(),
    {
        xxhash_rust::xxh3::xxh3_128_with_secret(self.fed.as_slice(), self.secret.as_slice())
    }
}

} // verus!
