//! A seeded stream-cipher generator, handed to the operations that draw
//! randomness.
use rand::{RngCore, SeedableRng};
use rand_chacha::ChaCha8Rng;
use vstd::prelude::*;

use crate::operations::{generate_private_key_seed, seed_material, seeded_key_of};
use crate::scalar::is_canonical_scalar;

verus! {

#[verifier::external_type_specification]
#[verifier::external_body]
pub struct ExChaCha8Rng(ChaCha8Rng);

/// Relies on `rand::SeedableRng::from_seed` for `ChaCha8Rng`: a generator
/// whose whole output is fixed by the 32-byte seed.
#[verifier::external_body]
fn chacha_from_seed(seed: [u8; 32]) -> (r: ChaCha8Rng) {
    ChaCha8Rng::from_seed(seed)
}

/// Relies on `rand::RngCore::fill_bytes` for `ChaCha8Rng`, which overwrites
/// every byte of the buffer and never fails.
#[verifier::external_body]
fn chacha_fill(rng: &mut ChaCha8Rng, buf: &mut Vec<u8>)
    ensures
        final(buf)@.len() == old(buf)@.len(),
{
    rng.fill_bytes(buf.as_mut_slice())
}

/// A cryptographically secure generator: ChaCha with eight rounds.
///
/// Whoever holds it draws from it exclusively (`&mut`); a process that shares
/// one between callers guards it with a lock.
pub struct SecureRandom {
    rng: ChaCha8Rng,
}

impl SecureRandom {
    /// A generator whose output is fixed by `seed`; seeded from an entropy
    /// source it is unpredictable.
    pub fn from_seed(seed: [u8; 32]) -> (r: SecureRandom) {
        SecureRandom { rng: chacha_from_seed(seed) }
    }
}

/// Draws `n` bytes from the generator.
pub fn get_random(rng: &mut SecureRandom, n: usize) -> (r: Vec<u8>)
    ensures
        r@.len() == n,
{
    let mut buf: Vec<u8> = vec![0u8; n];
    chacha_fill(&mut rng.rng, &mut buf);
    buf
}

/// Draws a fresh private key from the generator: 32 drawn bytes are the seed
/// of [`generate_private_key_seed`]. The result is its 32-byte canonical
/// encoding.
pub fn generate_private_key_random(rng: &mut SecureRandom) -> (r: Vec<u8>)
    ensures
        exists|ikm: Seq<u8>| ikm.len() == 32 && r@ == #[trigger] seeded_key_of(seed_material(ikm)),
        is_canonical_scalar(r@),
{
    let ikm = get_random(rng, 32);
    let r = generate_private_key_seed(ikm.as_slice());
    assert(r@ == seeded_key_of(seed_material(ikm@)));
    r
}

} // verus!
