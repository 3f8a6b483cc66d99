//! Drawing unpredictable bytes from the operating system.
use vstd::prelude::*;

verus! {

/// The operating system could not supply random bytes.
///
/// There is deliberately nothing to recover with: a builder keyed with a
/// fixed or guessable seed would defeat its own purpose, so a failed draw
/// yields no builder at all.
#[derive(Clone, Copy, Debug, PartialEq, Eq, Structural)]
pub struct EntropyUnavailable;

/// The error of `getrandom`, carried through opaquely.
#[verifier::external_type_specification]
#[verifier::external_body]
pub struct ExGetrandomError(getrandom::Error);

/// `getrandom::getrandom` fills the whole of `dest` with bytes from the
/// system's source, or fails. Nothing is claimed of the bytes. Of failure
/// only this: as its documentation says, an empty `dest` is answered with
/// success at once, without asking the system. The slice keeps its length.
pub assume_specification[ getrandom::getrandom ](dest: &mut [u8]) -> (outcome: Result<
    (),
    getrandom::Error,
>)
    ensures
        final(dest)@.len() == old(dest)@.len(),
        old(dest)@.len() == 0 ==> outcome is Ok,
;

/// What a draw into `buf` amounts to, given how the system answered.
pub open spec fn settled<const N: usize>(
    outcome: Result<(), getrandom::Error>,
    buf: [u8; N],
) -> Result<[u8; N], EntropyUnavailable> {
    match outcome {
        Ok(_) => Ok(buf),
        Err(_) => Err(EntropyUnavailable),
    }
}

/// Turns the system's answer into the library's: the filled buffer on
/// success, `EntropyUnavailable` on any failure. A buffer that the system
/// did not vouch for is never handed on.
pub fn settle<const N: usize>(outcome: Result<(), getrandom::Error>, buf: [u8; N]) -> (r: Result<
    [u8; N],
    EntropyUnavailable,
>)
    ensures
        r == settled(outcome, buf),
{
    match outcome {
        Ok(_) => Ok(buf),
        Err(_) => Err(EntropyUnavailable),
    }
}

/// Draws `N` bytes from the operating system, once.
///
/// Whether a draw of one byte or more succeeds is up to the system; on
/// failure nothing is substituted. A draw of no bytes asks the system for
/// nothing and always succeeds.
pub fn draw<const N: usize>() -> (r: Result<[u8; N], EntropyUnavailable>)
    ensures
        N == 0 ==> r is Ok,
{
    let mut buf = [0u8; N];
    let outcome = getrandom::getrandom(&mut buf);
    settle(outcome, buf)
}

/// How many bytes an entropy pool holds: the secret size that XXH3 uses by
/// default.
pub const ENTROPY_POOL_SIZE: usize = 192;

/// A secret buffer for the XXH3 hashers, fixed once it is made.
///
/// Two pools are equal exactly when they hold the same bytes.
#[derive(Debug)]
pub struct EntropyPool {
    pub entropy: [u8; ENTROPY_POOL_SIZE],
}

impl View for EntropyPool {
    type V = Seq<u8>;

    /// The pool's bytes, in order.
    open spec fn view(&self) -> Seq<u8> {
        self.entropy@
    }
}

impl EntropyPool {
    /// What a draw of `ENTROPY_POOL_SIZE` bytes makes of a pool: on success
    /// the pool of exactly those bytes, on failure the failure itself.
    pub open spec fn made_of(drawn: Result<[u8; ENTROPY_POOL_SIZE], EntropyUnavailable>) -> Result<
        Self,
        EntropyUnavailable,
    > {
        match drawn {
            Ok(entropy) => Ok(EntropyPool { entropy }),
            Err(e) => Err(e),
        }
    }

    /// Makes of a draw what `made_of` says: the pool of exactly the drawn
    /// bytes, or the failure. No byte is ever made up.
    pub fn from_draw(drawn: Result<[u8; ENTROPY_POOL_SIZE], EntropyUnavailable>) -> (r: Result<
        Self,
        EntropyUnavailable,
    >)
        ensures
            r == Self::made_of(drawn),
    {
        match drawn {
            Ok(entropy) => Ok(EntropyPool { entropy }),
            Err(e) => Err(e),
        }
    }

    /// A pool filled straight from the operating system. Whether there is a
    /// pool is up to the system; what comes back is what `from_draw` makes
    /// of the one draw.
    pub fn randomize() -> (r: Result<Self, EntropyUnavailable>)
        ensures
            exists|drawn: Result<[u8; ENTROPY_POOL_SIZE], EntropyUnavailable>|
                r == #[trigger] Self::made_of(drawn),
    {
        Self::from_draw(draw::<ENTROPY_POOL_SIZE>())
    }
}

impl Clone for EntropyPool {
    /// A second pool with the same bytes.
    fn clone(&self) -> (pool: Self)
        ensures
            pool == *self,
    {
        EntropyPool { entropy: self.entropy }
    }
}

impl PartialEq for EntropyPool {
    fn eq(&self, other: &Self) -> (r: bool) {
        let mut i: usize = 0;
        while i < ENTROPY_POOL_SIZE
            invariant
                i <= ENTROPY_POOL_SIZE,
                forall|j: int| 0 <= j < i ==> self.entropy@[j] == other.entropy@[j],
            decreases ENTROPY_POOL_SIZE - i,
        {
            if self.entropy[i] != other.entropy[i] {
                return false;
            }
            i += 1;
        }
        assert(self.entropy@ =~= other.entropy@);
        true
    }
}

impl Eq for EntropyPool {

}

impl vstd::std_specs::cmp::PartialEqSpecImpl for EntropyPool {
    open spec fn obeys_eq_spec() -> bool {
        true
    }

    open spec fn eq_spec(&self, other: &Self) -> bool {
        self@ == other@
    }
}

} // verus!
