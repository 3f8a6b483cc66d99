use seeded_xxhash::buildhash::{
    RandomStateXXH32, RandomStateXXH3_128, RandomStateXXH3_64, RandomStateXXH64,
};
use seeded_xxhash::entropy::EntropyPool;
use std::collections::HashMap;
use std::hash::{BuildHasher, Hasher};

fn pool_of(first: u8) -> EntropyPool {
    let mut entropy = [0u8; 192];
    for (i, byte) in entropy.iter_mut().enumerate() {
        *byte = first.wrapping_add((i as u8).wrapping_mul(7));
    }
    EntropyPool { entropy }
}

fn digest64(state: &RandomStateXXH64, bytes: &[u8]) -> u64 {
    let mut hasher = state.build_hasher();
    hasher.write(bytes);
    hasher.finish()
}

fn digest128(state: &RandomStateXXH3_128, bytes: &[u8]) -> u128 {
    let mut hasher = state.build_hasher();
    hasher.write(bytes);
    hasher.finish()
}

#[test]
fn fixed_seed_hashes_abc_the_same_twice() {
    let state = RandomStateXXH64 { seed: 0x1234 };
    let first = digest64(&state, b"abc");
    let second = digest64(&state, b"abc");
    assert_eq!(first, second);
    assert_eq!(first, xxhash_rust::xxh64::xxh64(b"abc", 0x1234));
}

#[test]
fn another_seed_hashes_abc_differently() {
    let a = digest64(&RandomStateXXH64 { seed: 0x1234 }, b"abc");
    let b = digest64(&RandomStateXXH64 { seed: 0x5678 }, b"abc");
    assert_ne!(a, b);
}

#[test]
fn same_pool_bytes_same_wide_digest_other_bytes_another() {
    let first = RandomStateXXH3_128 { pool: pool_of(1) };
    let second = RandomStateXXH3_128 { pool: pool_of(1) };
    let third = RandomStateXXH3_128 { pool: pool_of(2) };
    let a = digest128(&first, b"abc");
    let b = digest128(&second, b"abc");
    let c = digest128(&third, b"abc");
    assert_eq!(a, b);
    assert_ne!(a, c);
}

#[test]
fn xxh32_builder_keys_its_hashers_by_the_seed() {
    let state = RandomStateXXH32 { seed: 0 };
    let mut hasher = state.build_hasher();
    hasher.write(b"abc");
    assert_eq!(hasher.finish(), 0x32D1_53FF);

    let keyed = RandomStateXXH32 { seed: 0x1234 };
    let mut hasher = keyed.build_hasher();
    hasher.write(b"abc");
    assert_eq!(hasher.finish(), xxhash_rust::xxh32::xxh32(b"abc", 0x1234));
    assert_ne!(hasher.finish(), 0x32D1_53FF);
}

#[test]
fn xxh64_builder_keys_its_hashers_by_the_seed() {
    assert_eq!(digest64(&RandomStateXXH64 { seed: 0 }, b"abc"), 0x44BC_2CF5_AD77_0999);
    assert_eq!(digest64(&RandomStateXXH64 { seed: 0 }, b""), 0xEF46_DB37_51D8_E999);
}

#[test]
fn xxh3_64_builder_keys_its_hashers_by_the_pool() {
    let state = RandomStateXXH3_64 { pool: pool_of(9) };
    let mut hasher = state.build_hasher();
    hasher.write(b"abc");
    let mut oracle = xxhash_rust::xxh3::Xxh3::with_secret(pool_of(9).entropy);
    oracle.update(b"abc");
    assert_eq!(hasher.finish(), oracle.digest());

    let other = RandomStateXXH3_64 { pool: pool_of(10) };
    let mut hasher2 = other.build_hasher();
    hasher2.write(b"abc");
    assert_ne!(hasher.finish(), hasher2.finish());
}

#[test]
fn xxh3_128_builder_keys_its_hashers_by_the_pool() {
    let state = RandomStateXXH3_128 { pool: pool_of(9) };
    let mut oracle = xxhash_rust::xxh3::Xxh3::with_secret(pool_of(9).entropy);
    oracle.update(b"abc");
    assert_eq!(digest128(&state, b"abc"), oracle.digest128());
}

#[test]
fn long_inputs_agree_with_the_streaming_hashers() {
    let input: Vec<u8> = (0..1000u32).map(|i| (i % 251) as u8).collect();

    let mut h32 = RandomStateXXH32 { seed: 77 }.build_hasher();
    h32.write(&input);
    let mut o32 = xxhash_rust::xxh32::Xxh32::new(77);
    o32.update(&input);
    assert_eq!(h32.finish(), o32.digest());

    let mut o64 = xxhash_rust::xxh64::Xxh64::new(77);
    o64.update(&input);
    assert_eq!(digest64(&RandomStateXXH64 { seed: 77 }, &input), o64.digest());

    let mut o3 = xxhash_rust::xxh3::Xxh3::with_secret(pool_of(3).entropy);
    o3.update(&input);
    let mut h3 = RandomStateXXH3_64 { pool: pool_of(3) }.build_hasher();
    h3.write(&input);
    assert_eq!(h3.finish(), o3.digest());
    assert_eq!(digest128(&RandomStateXXH3_128 { pool: pool_of(3) }, &input), o3.digest128());
}

#[test]
fn digest_does_not_depend_on_how_the_writes_are_cut() {
    let state = RandomStateXXH64 { seed: 0x1234 };
    let mut pieces = state.build_hasher();
    pieces.write(b"a");
    pieces.write(b"");
    pieces.write(b"bc");
    assert_eq!(pieces.finish(), digest64(&state, b"abc"));

    let wide = RandomStateXXH3_128 { pool: pool_of(5) };
    let mut pieces = wide.build_hasher();
    pieces.write(b"ab");
    pieces.write(b"c");
    assert_eq!(pieces.finish(), digest128(&wide, b"abc"));
}

#[test]
fn finish_leaves_the_hasher_usable() {
    let state = RandomStateXXH32 { seed: 5 };
    let mut hasher = state.build_hasher();
    hasher.write(b"ab");
    let early = hasher.finish();
    assert_eq!(early, hasher.finish());
    hasher.write(b"c");
    assert_eq!(hasher.finish(), xxhash_rust::xxh32::xxh32(b"abc", 5));
    assert_eq!(early, xxhash_rust::xxh32::xxh32(b"ab", 5));
}

#[test]
fn building_a_hasher_leaves_the_builder_as_it_was() {
    let state = RandomStateXXH64 { seed: 42 };
    let _ = state.build_hasher();
    assert_eq!(state, RandomStateXXH64 { seed: 42 });

    let wide = RandomStateXXH3_64 { pool: pool_of(4) };
    let mut hasher = wide.build_hasher();
    hasher.write(b"xyz");
    assert_eq!(wide, RandomStateXXH3_64 { pool: pool_of(4) });
}

#[test]
fn builders_serve_as_the_hash_builder_of_a_map() {
    let mut by_seed = HashMap::with_hasher(RandomStateXXH64 { seed: 0x1234 });
    by_seed.insert("one", 1);
    by_seed.insert("two", 2);
    assert_eq!(by_seed.get("one"), Some(&1));
    assert_eq!(by_seed.get("three"), None);

    let mut by_pool = HashMap::with_hasher(RandomStateXXH3_64 { pool: pool_of(8) });
    by_pool.insert(7u32, "seven");
    assert_eq!(by_pool.get(&7), Some(&"seven"));
    assert_eq!(by_pool.len(), 1);
}

fn shareable<T: Send + Sync>() {}

#[test]
fn builders_can_be_shared_by_concurrent_readers() {
    shareable::<RandomStateXXH32>();
    shareable::<RandomStateXXH64>();
    shareable::<RandomStateXXH3_64>();
    shareable::<RandomStateXXH3_128>();
}
