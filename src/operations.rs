//! Key derivation, signing and verification over byte buffers.
use bls12_381::{G1Affine, G1Projective, G2Affine, Scalar};
use bls_signatures::{PrivateKey, PublicKey, Serialize, Signature};
use vstd::prelude::*;

use crate::error::KeyError;
use crate::material::{
    copy_bytes, decode_private_key, decode_public_key, decode_signature, g1_compressed_valid,
    g1_uncompressed_valid, g2_compressed_valid, g2_uncompressed_valid, private_key_decoding,
    public_key_decoding, signature_decoding,
};
use crate::scalar::{is_canonical_scalar, le_nat};

verus! {

/// The compressed public key of the private scalar `secret`.
pub uninterp spec fn public_key_of(secret: nat) -> Seq<u8>;

/// The compressed signature of `message` under the private scalar `secret`.
pub uninterp spec fn signature_of(secret: nat, message: Seq<u8>) -> Seq<u8>;

/// Whether the signature encoded by `signature` is valid for `message` under
/// the public key encoded by `public_key`.
pub uninterp spec fn signature_verifies(
    public_key: Seq<u8>,
    signature: Seq<u8>,
    message: Seq<u8>,
) -> bool;

/// The canonical encoding of the private key derived from `seed`.
pub uninterp spec fn seeded_key_of(seed: Seq<u8>) -> Seq<u8>;

/// The shortest seed that the key derivation accepts.
pub const SEED_LEN: usize = 32;

/// The byte that closes a seed before it is padded.
pub const SEED_MARKER: u8 = 0x80;

/// Relies on `bls_signatures::PrivateKey::public_key` (the generator times the
/// scalar), written by `Serialize::as_bytes` as a 48-byte compressed point; the
/// key is read from its canonical encoding by `Scalar::from_bytes` and
/// `PrivateKey::from`.
#[verifier::external_body]
fn public_key_bytes(secret: &[u8]) -> (r: Vec<u8>)
    requires
        is_canonical_scalar(secret@),
    ensures
        r@ == public_key_of(le_nat(secret@)),
        r@.len() == 48,
{
    let bytes: &[u8; 32] = secret.try_into().unwrap();
    PrivateKey::from(Scalar::from_bytes(bytes).unwrap()).public_key().as_bytes()
}

/// Relies on `bls_signatures::PrivateKey::sign` (the message's hash to the
/// second group times the scalar), written by `Serialize::as_bytes` as a
/// 96-byte compressed point; the key is read from its canonical encoding by
/// `Scalar::from_bytes` and `PrivateKey::from`.
#[verifier::external_body]
fn signature_bytes(secret: &[u8], message: &[u8]) -> (r: Vec<u8>)
    requires
        is_canonical_scalar(secret@),
    ensures
        r@ == signature_of(le_nat(secret@), message@),
        r@.len() == 96,
{
    let bytes: &[u8; 32] = secret.try_into().unwrap();
    PrivateKey::from(Scalar::from_bytes(bytes).unwrap()).sign(message).as_bytes()
}

/// Relies on `bls_signatures::PublicKey::verify`, the pairing check of one
/// signature against one key and message; the key is read by
/// `G1Affine::from_compressed`, the signature by `G2Affine::from_compressed`.
#[verifier::external_body]
fn verify_compressed_compressed(public_key: &[u8], signature: &[u8], message: &[u8]) -> (r: bool)
    requires
        public_key@.len() == 48 && g1_compressed_valid(public_key@),
        signature@.len() == 96 && g2_compressed_valid(signature@),
    ensures
        r == signature_verifies(public_key@, signature@, message@),
{
    let pk: &[u8; 48] = public_key.try_into().unwrap();
    let sig: &[u8; 96] = signature.try_into().unwrap();
    let pk = PublicKey::from(G1Projective::from(G1Affine::from_compressed(pk).unwrap()));
    pk.verify(Signature::from(G2Affine::from_compressed(sig).unwrap()), message)
}

/// Relies on `bls_signatures::PublicKey::verify`, the pairing check of one
/// signature against one key and message; the key is read by
/// `G1Affine::from_compressed`, the signature by `G2Affine::from_uncompressed`.
#[verifier::external_body]
fn verify_compressed_uncompressed(public_key: &[u8], signature: &[u8], message: &[u8]) -> (r:
    bool)
    requires
        public_key@.len() == 48 && g1_compressed_valid(public_key@),
        signature@.len() == 192 && g2_uncompressed_valid(signature@),
    ensures
        r == signature_verifies(public_key@, signature@, message@),
{
    let pk: &[u8; 48] = public_key.try_into().unwrap();
    let sig: &[u8; 192] = signature.try_into().unwrap();
    let pk = PublicKey::from(G1Projective::from(G1Affine::from_compressed(pk).unwrap()));
    pk.verify(Signature::from(G2Affine::from_uncompressed(sig).unwrap()), message)
}

/// Relies on `bls_signatures::PublicKey::verify`, the pairing check of one
/// signature against one key and message; the key is read by
/// `G1Affine::from_uncompressed`, the signature by `G2Affine::from_compressed`.
#[verifier::external_body]
fn verify_uncompressed_compressed(public_key: &[u8], signature: &[u8], message: &[u8]) -> (r:
    bool)
    requires
        public_key@.len() == 96 && g1_uncompressed_valid(public_key@),
        signature@.len() == 96 && g2_compressed_valid(signature@),
    ensures
        r == signature_verifies(public_key@, signature@, message@),
{
    let pk: &[u8; 96] = public_key.try_into().unwrap();
    let sig: &[u8; 96] = signature.try_into().unwrap();
    let pk = PublicKey::from(G1Projective::from(G1Affine::from_uncompressed(pk).unwrap()));
    pk.verify(Signature::from(G2Affine::from_compressed(sig).unwrap()), message)
}

/// Relies on `bls_signatures::PublicKey::verify`, the pairing check of one
/// signature against one key and message; the key is read by
/// `G1Affine::from_uncompressed`, the signature by
/// `G2Affine::from_uncompressed`.
#[verifier::external_body]
fn verify_uncompressed_uncompressed(public_key: &[u8], signature: &[u8], message: &[u8]) -> (r:
    bool)
    requires
        public_key@.len() == 96 && g1_uncompressed_valid(public_key@),
        signature@.len() == 192 && g2_uncompressed_valid(signature@),
    ensures
        r == signature_verifies(public_key@, signature@, message@),
{
    let pk: &[u8; 96] = public_key.try_into().unwrap();
    let sig: &[u8; 192] = signature.try_into().unwrap();
    let pk = PublicKey::from(G1Projective::from(G1Affine::from_uncompressed(pk).unwrap()));
    pk.verify(Signature::from(G2Affine::from_uncompressed(sig).unwrap()), message)
}

/// Relies on `bls_signatures::PrivateKey::new`, key derivation by HKDF from a
/// seed of at least 32 bytes (it panics on a shorter one), and on
/// `Serialize::as_bytes`, which writes the scalar as 32 little-endian bytes.
#[verifier::external_body]
fn derive_seeded_key(seed: &[u8]) -> (r: Vec<u8>)
    requires
        seed@.len() >= SEED_LEN,
    ensures
        r@ == seeded_key_of(seed@),
        is_canonical_scalar(r@),
{
    PrivateKey::new(seed).as_bytes()
}

/// What key derivation is given for a seed: the seed, then [`SEED_MARKER`],
/// then zeros up to [`SEED_LEN`] bytes.
pub open spec fn seed_material(seed: Seq<u8>) -> Seq<u8> {
    let closed = seed.push(SEED_MARKER);
    if closed.len() < SEED_LEN {
        closed + Seq::new((SEED_LEN - closed.len()) as nat, |i: int| 0u8)
    } else {
        closed
    }
}

/// Builds [`seed_material`] of `seed`.
pub fn extend_seed(seed: &[u8]) -> (r: Vec<u8>)
    ensures
        r@ == seed_material(seed@),
{
    let mut r = copy_bytes(seed);
    r.push(SEED_MARKER);
    let ghost closed = seed@.push(SEED_MARKER);
    assert(r@ =~= closed + Seq::new(0, |i: int| 0u8));
    while r.len() < SEED_LEN
        invariant
            closed == seed@.push(SEED_MARKER),
            closed.len() <= r@.len(),
            closed.len() < SEED_LEN ==> r@.len() <= SEED_LEN,
            closed.len() >= SEED_LEN ==> r@.len() == closed.len(),
            r@ == closed + Seq::new((r@.len() - closed.len()) as nat, |i: int| 0u8),
        decreases SEED_LEN - r@.len(),
    {
        r.push(0u8);
        assert(r@ =~= closed + Seq::new((r@.len() - closed.len()) as nat, |i: int| 0u8));
    }
    assert(r@ =~= seed_material(seed@));
    r
}

/// The outcome of deriving the public key of a private key buffer.
pub open spec fn public_key_result(private_key: Seq<u8>) -> Result<Seq<u8>, KeyError> {
    match private_key_decoding(private_key) {
        Ok(secret) => Ok(public_key_of(secret)),
        Err(e) => Err(e),
    }
}

/// The outcome of signing `message` with a private key buffer.
pub open spec fn signing_result(private_key: Seq<u8>, message: Seq<u8>) -> Result<
    Seq<u8>,
    KeyError,
> {
    match private_key_decoding(private_key) {
        Ok(secret) => Ok(signature_of(secret, message)),
        Err(e) => Err(e),
    }
}

/// The outcome of verifying: 1 for a valid signature, 0 for an invalid one,
/// or the first decoding failure (public key before signature).
pub open spec fn verification_result(
    public_key: Seq<u8>,
    signature: Seq<u8>,
    message: Seq<u8>,
) -> Result<u8, KeyError> {
    match public_key_decoding(public_key) {
        Err(e) => Err(e),
        Ok(k) => match signature_decoding(signature) {
            Err(e) => Err(e),
            Ok(s) => Ok(
                if signature_verifies(k, s, message) {
                    1u8
                } else {
                    0u8
                },
            ),
        },
    }
}

/// The 48-byte compressed public key of a 32- or 64-byte private key.
pub fn get_public_key(private_key: &[u8]) -> (r: Result<Vec<u8>, KeyError>)
    ensures
        match r {
            Ok(v) => public_key_result(private_key@) == Ok::<Seq<u8>, KeyError>(v@),
            Err(e) => public_key_result(private_key@) == Err::<Seq<u8>, KeyError>(e),
        },
        r matches Ok(v) ==> v@.len() == 48,
{
    match decode_private_key(private_key) {
        Ok(k) => Ok(public_key_bytes(k.as_bytes())),
        Err(e) => Err(e),
    }
}

/// The 96-byte compressed signature of `message` under a 32- or 64-byte
/// private key.
pub fn sign(private_key: &[u8], message: &[u8]) -> (r: Result<Vec<u8>, KeyError>)
    ensures
        match r {
            Ok(v) => signing_result(private_key@, message@) == Ok::<Seq<u8>, KeyError>(v@),
            Err(e) => signing_result(private_key@, message@) == Err::<Seq<u8>, KeyError>(e),
        },
        r matches Ok(v) ==> v@.len() == 96,
{
    match decode_private_key(private_key) {
        Ok(k) => Ok(signature_bytes(k.as_bytes(), message)),
        Err(e) => Err(e),
    }
}

/// Checks a signature: `Ok(1)` if it is valid for the message under the
/// public key, `Ok(0)` if not, and an error if either buffer does not decode.
pub fn verify(public_key: &[u8], signature: &[u8], message: &[u8]) -> (r: Result<u8, KeyError>)
    ensures
        r == verification_result(public_key@, signature@, message@),
{
    let k = match decode_public_key(public_key) {
        Ok(k) => k,
        Err(e) => return Err(e),
    };
    let s = match decode_signature(signature) {
        Ok(s) => s,
        Err(e) => return Err(e),
    };
    let pk = k.as_bytes();
    let sig = s.as_bytes();
    let valid = if pk.len() == 48 {
        if sig.len() == 96 {
            verify_compressed_compressed(pk, sig, message)
        } else {
            verify_compressed_uncompressed(pk, sig, message)
        }
    } else {
        if sig.len() == 96 {
            verify_uncompressed_compressed(pk, sig, message)
        } else {
            verify_uncompressed_uncompressed(pk, sig, message)
        }
    };
    if valid {
        Ok(1)
    } else {
        Ok(0)
    }
}

/// Derives a private key, as its 32-byte canonical encoding, from a seed of
/// any length: the seed is extended by [`seed_material`], which no two seeds
/// share, and handed to the key derivation. The same seed always gives the
/// same key.
pub fn generate_private_key_seed(seed: &[u8]) -> (r: Vec<u8>)
    ensures
        r@ == seeded_key_of(seed_material(seed@)),
        is_canonical_scalar(r@),
{
    let material = extend_seed(seed);
    derive_seeded_key(material.as_slice())
}

} // verus!
