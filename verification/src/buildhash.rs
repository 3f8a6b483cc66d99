//! The four builders: each holds keying material drawn once and mints
//! hashers keyed by it.
use crate::entropy::{draw, EntropyPool, EntropyUnavailable, ENTROPY_POOL_SIZE};
use crate::hasher::{XXH32, XXH3_128, XXH3_64, XXH64};
use crate::seed::{
    lemma_machine_value_is_native, lemma_machine_value_one_to_one, machine_value, u32_from_native,
    u64_from_native,
};
use vstd::prelude::*;
use vstd::std_specs::cmp::PartialEqSpec;

verus! {

/// Builder for XXH32 hashers, keyed by a 32-bit seed.
///
/// Two builders are equal exactly when their seeds are. As the digest has 32
/// bits, this builder cannot be a `BuildHasher`; it offers the same
/// operation under the same name.
#[derive(Copy, Clone, Debug)]
pub struct RandomStateXXH32 {
    pub seed: u32,
}

impl RandomStateXXH32 {
    /// What a draw of four bytes makes of a builder: on success the
    /// builder whose seed is those bytes read as one integer in the machine's
    /// byte order, on failure the failure itself.
    pub open spec fn made_of(drawn: Result<[u8; 4], EntropyUnavailable>) -> Result<
        Self,
        EntropyUnavailable,
    > {
        match drawn {
            Ok(bytes) => Ok(RandomStateXXH32 { seed: machine_value(bytes@) as u32 }),
            Err(e) => Err(e),
        }
    }

    /// Makes of a draw of four bytes what `made_of` says: the builder
    /// seeded with exactly those bytes, or the failure. No seed is ever made
    /// up, and none of the seed's bits is lost: the seed is the bytes' value
    /// in the machine's byte order.
    pub fn from_draw(drawn: Result<[u8; 4], EntropyUnavailable>) -> (r: Result<
        Self,
        EntropyUnavailable,
    >)
        ensures
            r == Self::made_of(drawn),
            drawn is Ok ==> r is Ok && r->Ok_0.seed as nat == machine_value(drawn->Ok_0@),
    {
        match drawn {
            Ok(bytes) => Ok(RandomStateXXH32 { seed: u32_from_native(bytes) }),
            Err(e) => Err(e),
        }
    }

    /// A builder with a seed drawn from the operating system: four bytes,
    /// drawn once. Whether there is a builder is up to the system; what
    /// comes back is what `from_draw` makes of the one draw.
    pub fn new() -> (r: Result<Self, EntropyUnavailable>)
        ensures
            exists|drawn: Result<[u8; 4], EntropyUnavailable>|
                r == #[trigger] Self::made_of(drawn),
    {
        Self::from_draw(draw::<4>())
    }

    /// A fresh hasher keyed by this builder's seed. The builder is not
    /// changed, so every hasher it makes is keyed alike.
    pub fn build_hasher(&self) -> (h: XXH32)
        ensures
            h.seed() == self.seed,
            h.fed() == Seq::<u8>::empty(),
    {
        XXH32::with_seed(self.seed)
    }
}

impl PartialEq for RandomStateXXH32 {
    fn eq(&self, other: &Self) -> (r: bool) {
        self.seed == other.seed
    }
}

impl Eq for RandomStateXXH32 {

}

impl vstd::std_specs::cmp::PartialEqSpecImpl for RandomStateXXH32 {
    open spec fn obeys_eq_spec() -> bool {
        true
    }

    open spec fn eq_spec(&self, other: &Self) -> bool {
        self.seed == other.seed
    }
}

/// Builder for XXH64 hashers, keyed by a 64-bit seed.
///
/// Two builders are equal exactly when their seeds are.
#[derive(Copy, Clone, Debug)]
pub struct RandomStateXXH64 {
    pub seed: u64,
}

impl RandomStateXXH64 {
    /// What a draw of eight bytes makes of a builder: on success the
    /// builder whose seed is those bytes read as one integer in the machine's
    /// byte order, on failure the failure itself.
    pub open spec fn made_of(drawn: Result<[u8; 8], EntropyUnavailable>) -> Result<
        Self,
        EntropyUnavailable,
    > {
        match drawn {
            Ok(bytes) => Ok(RandomStateXXH64 { seed: machine_value(bytes@) as u64 }),
            Err(e) => Err(e),
        }
    }

    /// Makes of a draw of eight bytes what `made_of` says: the builder
    /// seeded with exactly those bytes, or the failure. No seed is ever made
    /// up, and none of the seed's bits is lost: the seed is the bytes' value
    /// in the machine's byte order.
    pub fn from_draw(drawn: Result<[u8; 8], EntropyUnavailable>) -> (r: Result<
        Self,
        EntropyUnavailable,
    >)
        ensures
            r == Self::made_of(drawn),
            drawn is Ok ==> r is Ok && r->Ok_0.seed as nat == machine_value(drawn->Ok_0@),
    {
        match drawn {
            Ok(bytes) => Ok(RandomStateXXH64 { seed: u64_from_native(bytes) }),
            Err(e) => Err(e),
        }
    }

    /// A builder with a seed drawn from the operating system: eight bytes,
    /// drawn once. Whether there is a builder is up to the system; what
    /// comes back is what `from_draw` makes of the one draw.
    pub fn new() -> (r: Result<Self, EntropyUnavailable>)
        ensures
            exists|drawn: Result<[u8; 8], EntropyUnavailable>|
                r == #[trigger] Self::made_of(drawn),
    {
        Self::from_draw(draw::<8>())
    }
}

impl core::hash::BuildHasher for RandomStateXXH64 {
    type Hasher = XXH64;

    /// A fresh hasher keyed by this builder's seed. The builder is not
    /// changed, so every hasher it makes is keyed alike.
    fn build_hasher(&self) -> (h: XXH64)
        ensures
            h.seed() == self.seed,
            h.fed() == Seq::<u8>::empty(),
    {
        XXH64::with_seed(self.seed)
    }
}

impl PartialEq for RandomStateXXH64 {
    fn eq(&self, other: &Self) -> (r: bool) {
        self.seed == other.seed
    }
}

impl Eq for RandomStateXXH64 {

}

impl vstd::std_specs::cmp::PartialEqSpecImpl for RandomStateXXH64 {
    open spec fn obeys_eq_spec() -> bool {
        true
    }

    open spec fn eq_spec(&self, other: &Self) -> bool {
        self.seed == other.seed
    }
}

/// Builder for XXH3 hashers with 64-bit digests, keyed by an entropy
/// pool.
///
/// Two builders are equal exactly when their pools hold the same bytes.
#[allow(non_camel_case_types)]
#[derive(Debug)]
pub struct RandomStateXXH3_64 {
    pub pool: EntropyPool,
}

impl RandomStateXXH3_64 {
    /// What an attempt at a pool makes of a builder: on success the builder
    /// that holds that pool, on failure the failure itself.
    pub open spec fn made_of(made: Result<EntropyPool, EntropyUnavailable>) -> Result<
        Self,
        EntropyUnavailable,
    > {
        match made {
            Ok(pool) => Ok(RandomStateXXH3_64 { pool }),
            Err(e) => Err(e),
        }
    }

    /// Makes of an attempt at a pool what `made_of` says: the builder that
    /// holds exactly that pool, or the failure. No pool is ever made up.
    pub fn from_draw(made: Result<EntropyPool, EntropyUnavailable>) -> (r: Result<
        Self,
        EntropyUnavailable,
    >)
        ensures
            r == Self::made_of(made),
    {
        match made {
            Ok(pool) => Ok(RandomStateXXH3_64 { pool }),
            Err(e) => Err(e),
        }
    }

    /// A builder with a pool filled from the operating system, once.
    /// Whether there is a builder is up to the system; what comes back is
    /// what `from_draw` makes of the pool made of the one draw.
    pub fn new() -> (r: Result<Self, EntropyUnavailable>)
        ensures
            exists|drawn: Result<[u8; ENTROPY_POOL_SIZE], EntropyUnavailable>|
                r == Self::made_of(#[trigger] EntropyPool::made_of(drawn)),
    {
        Self::from_draw(EntropyPool::randomize())
    }
}

impl core::hash::BuildHasher for RandomStateXXH3_64 {
    type Hasher = XXH3_64;

    /// A fresh hasher keyed by this builder's pool. The builder is not
    /// changed, so every hasher it makes is keyed alike.
    fn build_hasher(&self) -> (h: XXH3_64)
        ensures
            h.secret() == self.pool@,
            h.fed() == Seq::<u8>::empty(),
    {
        XXH3_64::with_entropy(&self.pool)
    }
}

impl Clone for RandomStateXXH3_64 {
    /// A second builder with the same pool.
    fn clone(&self) -> (state: Self)
        ensures
            state == *self,
    {
        RandomStateXXH3_64 { pool: self.pool.clone() }
    }
}

impl PartialEq for RandomStateXXH3_64 {
    fn eq(&self, other: &Self) -> (r: bool) {
        self.pool == other.pool
    }
}

impl Eq for RandomStateXXH3_64 {

}

impl vstd::std_specs::cmp::PartialEqSpecImpl for RandomStateXXH3_64 {
    open spec fn obeys_eq_spec() -> bool {
        true
    }

    open spec fn eq_spec(&self, other: &Self) -> bool {
        self.pool@ == other.pool@
    }
}

/// Builder for XXH3 hashers with 128-bit digests, keyed by an entropy
/// pool.
///
/// Two builders are equal exactly when their pools hold the same bytes. As
/// the digest has 128 bits, this builder cannot be a `BuildHasher`; it offers
/// the same operation under the same name.
#[allow(non_camel_case_types)]
#[derive(Debug)]
pub struct RandomStateXXH3_128 {
    pub pool: EntropyPool,
}

impl RandomStateXXH3_128 {
    /// What an attempt at a pool makes of a builder: on success the builder
    /// that holds that pool, on failure the failure itself.
    pub open spec fn made_of(made: Result<EntropyPool, EntropyUnavailable>) -> Result<
        Self,
        EntropyUnavailable,
    > {
        match made {
            Ok(pool) => Ok(RandomStateXXH3_128 { pool }),
            Err(e) => Err(e),
        }
    }

    /// Makes of an attempt at a pool what `made_of` says: the builder that
    /// holds exactly that pool, or the failure. No pool is ever made up.
    pub fn from_draw(made: Result<EntropyPool, EntropyUnavailable>) -> (r: Result<
        Self,
        EntropyUnavailable,
    >)
        ensures
            r == Self::made_of(made),
    {
        match made {
            Ok(pool) => Ok(RandomStateXXH3_128 { pool }),
            Err(e) => Err(e),
        }
    }

    /// A builder with a pool filled from the operating system, once.
    /// Whether there is a builder is up to the system; what comes back is
    /// what `from_draw` makes of the pool made of the one draw.
    pub fn new() -> (r: Result<Self, EntropyUnavailable>)
        ensures
            exists|drawn: Result<[u8; ENTROPY_POOL_SIZE], EntropyUnavailable>|
                r == Self::made_of(#[trigger] EntropyPool::made_of(drawn)),
    {
        Self::from_draw(EntropyPool::randomize())
    }

    /// A fresh hasher keyed by this builder's pool. The builder is not
    /// changed, so every hasher it makes is keyed alike.
    pub fn build_hasher(&self) -> (h: XXH3_128)
        ensures
            h.secret() == self.pool@,
            h.fed() == Seq::<u8>::empty(),
    {
        XXH3_128::with_entropy(&self.pool)
    }
}

impl Clone for RandomStateXXH3_128 {
    /// A second builder with the same pool.
    fn clone(&self) -> (state: Self)
        ensures
            state == *self,
    {
        RandomStateXXH3_128 { pool: self.pool.clone() }
    }
}

impl PartialEq for RandomStateXXH3_128 {
    fn eq(&self, other: &Self) -> (r: bool) {
        self.pool == other.pool
    }
}

impl Eq for RandomStateXXH3_128 {

}

impl vstd::std_specs::cmp::PartialEqSpecImpl for RandomStateXXH3_128 {
    open spec fn obeys_eq_spec() -> bool {
        true
    }

    open spec fn eq_spec(&self, other: &Self) -> bool {
        self.pool@ == other.pool@
    }
}

/// Different draws give different `RandomStateXXH32` builders: each seed is
/// read from its own draw alone, and no two draws are read as the same seed.
pub proof fn lemma_xxh32_different_draws_differ(first: [u8; 4], second: [u8; 4])
    requires
        first@ != second@,
    ensures
        RandomStateXXH32::made_of(Ok(first)) is Ok,
        RandomStateXXH32::made_of(Ok(second)) is Ok,
        RandomStateXXH32::made_of(Ok(first))->Ok_0.seed != RandomStateXXH32::made_of(
            Ok(second),
        )->Ok_0.seed,
{
    lemma_machine_value_is_native(first@);
    lemma_machine_value_is_native(second@);
    if machine_value(first@) == machine_value(second@) {
        lemma_machine_value_one_to_one(first@, second@);
    }
}

/// Different draws give different `RandomStateXXH64` builders: each seed is
/// read from its own draw alone, and no two draws are read as the same seed.
pub proof fn lemma_xxh64_different_draws_differ(first: [u8; 8], second: [u8; 8])
    requires
        first@ != second@,
    ensures
        RandomStateXXH64::made_of(Ok(first)) is Ok,
        RandomStateXXH64::made_of(Ok(second)) is Ok,
        RandomStateXXH64::made_of(Ok(first))->Ok_0.seed != RandomStateXXH64::made_of(
            Ok(second),
        )->Ok_0.seed,
{
    lemma_machine_value_is_native(first@);
    lemma_machine_value_is_native(second@);
    if machine_value(first@) == machine_value(second@) {
        lemma_machine_value_one_to_one(first@, second@);
    }
}

/// Different draws give different `RandomStateXXH3_64` builders: each pool holds
/// its own draw, byte for byte.
pub proof fn lemma_xxh3_64_different_draws_differ(
    first: [u8; ENTROPY_POOL_SIZE],
    second: [u8; ENTROPY_POOL_SIZE],
)
    requires
        first@ != second@,
    ensures
        RandomStateXXH3_64::made_of(EntropyPool::made_of(Ok(first))) is Ok,
        RandomStateXXH3_64::made_of(EntropyPool::made_of(Ok(second))) is Ok,
        RandomStateXXH3_64::made_of(EntropyPool::made_of(Ok(first)))->Ok_0.pool@ == first@,
        !RandomStateXXH3_64::made_of(EntropyPool::made_of(Ok(first)))->Ok_0.eq_spec(
            &RandomStateXXH3_64::made_of(EntropyPool::made_of(Ok(second)))->Ok_0,
        ),
{
}

/// Different draws give different `RandomStateXXH3_128` builders: each pool holds
/// its own draw, byte for byte.
pub proof fn lemma_xxh3_128_different_draws_differ(
    first: [u8; ENTROPY_POOL_SIZE],
    second: [u8; ENTROPY_POOL_SIZE],
)
    requires
        first@ != second@,
    ensures
        RandomStateXXH3_128::made_of(EntropyPool::made_of(Ok(first))) is Ok,
        RandomStateXXH3_128::made_of(EntropyPool::made_of(Ok(second))) is Ok,
        RandomStateXXH3_128::made_of(EntropyPool::made_of(Ok(first)))->Ok_0.pool@ == first@,
        !RandomStateXXH3_128::made_of(EntropyPool::made_of(Ok(first)))->Ok_0.eq_spec(
            &RandomStateXXH3_128::made_of(EntropyPool::made_of(Ok(second)))->Ok_0,
        ),
{
}

/// Determinism: two hashers keyed by one `RandomStateXXH32` that were fed
/// the same bytes stand for the same digest.
pub proof fn lemma_xxh32_same_builder_same_digest(
    state: RandomStateXXH32,
    first: XXH32,
    second: XXH32,
)
    requires
        first.seed() == state.seed,
        second.seed() == state.seed,
        first.fed() == second.fed(),
    ensures
        first.digest() == second.digest(),
{
}

/// Determinism: two hashers keyed by one `RandomStateXXH64` that were fed
/// the same bytes stand for the same digest.
pub proof fn lemma_xxh64_same_builder_same_digest(
    state: RandomStateXXH64,
    first: XXH64,
    second: XXH64,
)
    requires
        first.seed() == state.seed,
        second.seed() == state.seed,
        first.fed() == second.fed(),
    ensures
        first.digest() == second.digest(),
{
}

/// Determinism: two hashers keyed by one `RandomStateXXH3_64` that were fed
/// the same bytes stand for the same digest.
pub proof fn lemma_xxh3_64_same_builder_same_digest(
    state: RandomStateXXH3_64,
    first: XXH3_64,
    second: XXH3_64,
)
    requires
        first.secret() == state.pool@,
        second.secret() == state.pool@,
        first.fed() == second.fed(),
    ensures
        first.digest() == second.digest(),
{
}

/// Determinism: two hashers keyed by one `RandomStateXXH3_128` that were fed
/// the same bytes stand for the same digest.
pub proof fn lemma_xxh3_128_same_builder_same_digest(
    state: RandomStateXXH3_128,
    first: XXH3_128,
    second: XXH3_128,
)
    requires
        first.secret() == state.pool@,
        second.secret() == state.pool@,
        first.fed() == second.fed(),
    ensures
        first.digest() == second.digest(),
{
}

/// Two `RandomStateXXH32` builders with the same seed are equal, to `==` as well as
/// in contracts; builders that `==` calls equal have the same seed.
pub proof fn lemma_xxh32_equal_by_seed(a: RandomStateXXH32, b: RandomStateXXH32)
    ensures
        a.seed == b.seed <==> a.eq_spec(&b),
        a.seed == b.seed <==> a == b,
{
}

/// Two `RandomStateXXH64` builders with the same seed are equal, to `==` as well as
/// in contracts; builders that `==` calls equal have the same seed.
pub proof fn lemma_xxh64_equal_by_seed(a: RandomStateXXH64, b: RandomStateXXH64)
    ensures
        a.seed == b.seed <==> a.eq_spec(&b),
        a.seed == b.seed <==> a == b,
{
}

/// Two `RandomStateXXH3_64` builders whose pools hold the same bytes are equal, to
/// `==` as well as in contracts; builders that `==` calls equal hold the same
/// bytes.
pub proof fn lemma_xxh3_64_equal_by_pool_bytes(a: RandomStateXXH3_64, b: RandomStateXXH3_64)
    ensures
        a.pool@ == b.pool@ <==> a.eq_spec(&b),
        a.pool@ == b.pool@ <==> a == b,
{
    if a.pool@ == b.pool@ {
        assert(a.pool.entropy =~= b.pool.entropy);
    }
}

/// Two `RandomStateXXH3_128` builders whose pools hold the same bytes are equal, to
/// `==` as well as in contracts; builders that `==` calls equal hold the same
/// bytes.
pub proof fn lemma_xxh3_128_equal_by_pool_bytes(a: RandomStateXXH3_128, b: RandomStateXXH3_128)
    ensures
        a.pool@ == b.pool@ <==> a.eq_spec(&b),
        a.pool@ == b.pool@ <==> a == b,
{
    if a.pool@ == b.pool@ {
        assert(a.pool.entropy =~= b.pool.entropy);
    }
}

} // verus!
