use vstd::arithmetic::power2::{lemma2_to64, lemma_pow2_adds, pow2};
use vstd::prelude::*;

use crate::grid::GridError;

verus! {

#[verifier::external_type_specification]
#[verifier::external_body]
pub struct ExOsRng(rand::rngs::OsRng);

#[verifier::external_type_specification]
#[verifier::external_body]
pub struct ExRandError(rand::Error);

/// The number that little-endian bytes `b` stand for.
pub open spec fn le_value(b: Seq<u8>) -> nat
    decreases b.len(),
{
    if b.len() == 0 {
        0
    } else {
        b[0] as nat + 256 * le_value(b.drop_first())
    }
}

/// A secret 256-bit tile key, held as 32 little-endian bytes.
///
/// A key is never copied; the only thing derived from it for display is its
/// last decimal digit.
pub struct Key {
    bytes: [u8; 32],
}

impl Key {
    /// The number the key stands for.
    pub closed spec fn value(&self) -> nat {
        le_value(self.bytes@)
    }

    /// The key whose little-endian bytes are `bytes`.
    pub fn from_bytes(bytes: [u8; 32]) -> (k: Key)
        ensures
            k.value() == le_value(bytes@),
    {
        Key { bytes }
    }

    /// The key's public digest: its value modulo ten.
    pub(crate) fn digest(&self) -> (d: u8)
        ensures
            d as nat == self.value() % 10,
    {
        let d = le_remainder(&self.bytes, 10);
        d as u8
    }
}

/// Relies on num-bigint's `BigUint::from_bytes_le` and `&BigUint % u32`: the
/// remainder of the little-endian number by `m`.
#[verifier::external_body]
fn le_remainder(bytes: &[u8; 32], m: u32) -> (d: u32)
    requires
        m > 0,
    ensures
        d as nat == le_value(bytes@) % (m as nat),
{
    let rem: num_bigint::BigUint = &num_bigint::BigUint::from_bytes_le(bytes) % m;
    u32::try_from(&rem).unwrap()
}

/// Relies on rand's `RngCore::try_fill_bytes` for `OsRng`, which asks the
/// operating system through getrandom: fills `buf` with random bytes, or
/// returns getrandom's error when the system source fails.
#[verifier::external_body]
fn fill_random(rng: &mut rand::rngs::OsRng, buf: &mut [u8; 32]) -> (r: Result<(), rand::Error>) {
    rand::RngCore::try_fill_bytes(rng, buf)
}

/// Turns the outcome of a draw into a key: the drawn `bytes` when the draw
/// succeeded, and `RandomnessUnavailable` when it failed. A failed draw never
/// yields a key.
pub fn key_from_draw(outcome: Result<(), rand::Error>, bytes: [u8; 32]) -> (r: Result<
    Key,
    GridError,
>)
    ensures
        outcome is Err <==> r == Err::<Key, GridError>(GridError::RandomnessUnavailable),
        outcome is Ok ==> (r is Ok && r->Ok_0.value() == le_value(bytes@)),
{
    match outcome {
        Ok(()) => Ok(Key { bytes }),
        Err(_) => Err(GridError::RandomnessUnavailable),
    }
}

/// Draws a fresh key from the operating system's source; a failing source is
/// reported as `RandomnessUnavailable`, never replaced by weaker material.
pub(crate) fn draw_key(rng: &mut rand::rngs::OsRng) -> (r: Result<Key, GridError>)
    ensures
        r is Err ==> r == Err::<Key, GridError>(GridError::RandomnessUnavailable),
{
    let mut bytes: [u8; 32] = [0u8; 32];
    let outcome = fill_random(rng, &mut bytes);
    key_from_draw(outcome, bytes)
}

/// The value of `n` little-endian bytes is below `2^(8n)`.
pub proof fn lemma_le_value_bound(b: Seq<u8>)
    ensures
        le_value(b) < pow2(8 * b.len()),
    decreases b.len(),
{
    if b.len() == 0 {
        lemma2_to64();
    } else {
        let rest = b.drop_first();
        lemma_le_value_bound(rest);
        lemma2_to64();
        lemma_pow2_adds(8, 8 * rest.len());
        assert(8 * b.len() == 8 + 8 * rest.len());
        assert(le_value(b) < pow2(8 * b.len())) by (nonlinear_arith)
            requires
                le_value(b) == b[0] as nat + 256 * le_value(rest),
                b[0] < 256,
                le_value(rest) < pow2(8 * rest.len()),
                pow2(8) * pow2(8 * rest.len()) == pow2(8 * b.len()),
                pow2(8) == 256,
        ;
    }
}

/// Every key lies in `0 .. 2^256`.
pub proof fn lemma_key_in_range(k: &Key)
    ensures
        0 <= k.value() < pow2(256),
{
    lemma_le_value_bound(k.bytes@);
}

} // verus!
