//! The four xxHash digests, as computed by the `xxhash-rust` crate.
//!
//! The mixing itself is not this library's business. Each digest is known
//! here only as a function of the whole input and the keying material, which
//! is all that the hashers and builders need to say what they return.
use vstd::prelude::*;

verus! {

/// The XXH32 digest of `input` under `seed`.
pub uninterp spec fn xxh32_digest(input: Seq<u8>, seed: u32) -> u32;

/// The XXH64 digest of `input` under `seed`.
pub uninterp spec fn xxh64_digest(input: Seq<u8>, seed: u64) -> u64;

/// The 64-bit XXH3 digest of `input` under `secret`.
pub uninterp spec fn xxh3_64_digest(input: Seq<u8>, secret: Seq<u8>) -> u64;

/// The 128-bit XXH3 digest of `input` under `secret`.
pub uninterp spec fn xxh3_128_digest(input: Seq<u8>, secret: Seq<u8>) -> u128;

/// The least number of secret bytes that XXH3 accepts.
pub const SECRET_SIZE_MIN: usize = 136;

/// `xxhash_rust::xxh32::xxh32` computes the digest from the input bytes and
/// the seed alone.
pub assume_specification[ xxhash_rust::xxh32::xxh32 ](input: &[u8], seed: u32) -> (digest: u32)
    ensures
        digest == xxh32_digest(input@, seed),
;

/// `xxhash_rust::xxh64::xxh64` computes the digest from the input bytes and
/// the seed alone.
pub assume_specification[ xxhash_rust::xxh64::xxh64 ](input: &[u8], seed: u64) -> (digest: u64)
    ensures
        digest == xxh64_digest(input@, seed),
;

/// `xxhash_rust::xxh3::xxh3_64_with_secret` computes the digest from the
/// input bytes and the secret alone. It panics on a secret shorter than
/// `SECRET_SIZE_MIN`, which is therefore ruled out.
pub assume_specification[ xxhash_rust::xxh3::xxh3_64_with_secret ](
    input: &[u8],
    secret: &[u8],
) -> (digest: u64)
    requires
        secret@.len() >= SECRET_SIZE_MIN,
    ensures
        digest == xxh3_64_digest(input@, secret@),
;

/// `xxhash_rust::xxh3::xxh3_128_with_secret` computes the digest from the
/// input bytes and the secret alone. It panics on a secret shorter than
/// `SECRET_SIZE_MIN`, which is therefore ruled out.
pub assume_specification[ xxhash_rust::xxh3::xxh3_128_with_secret ](
    input: &[u8],
    secret: &[u8],
) -> (digest: u128)
    requires
        secret@.len() >= SECRET_SIZE_MIN,
    ensures
        digest == xxh3_128_digest(input@, secret@),
;

} // verus!
