//! Key and signature material, decoded from byte buffers by their length.
use bls12_381::{G1Affine, G2Affine, Scalar};
use vstd::prelude::*;

use crate::error::KeyError;
use crate::scalar::{is_canonical_scalar, le_nat, scalar_order};

verus! {

/// Whether 48 bytes are the compressed encoding of a point of the prime-order
/// subgroup of the first group.
pub uninterp spec fn g1_compressed_valid(b: Seq<u8>) -> bool;

/// Whether 96 bytes are the uncompressed encoding of a point of the
/// prime-order subgroup of the first group.
pub uninterp spec fn g1_uncompressed_valid(b: Seq<u8>) -> bool;

/// Whether 96 bytes are the compressed encoding of a point of the prime-order
/// subgroup of the second group.
pub uninterp spec fn g2_compressed_valid(b: Seq<u8>) -> bool;

/// Whether 192 bytes are the uncompressed encoding of a point of the
/// prime-order subgroup of the second group.
pub uninterp spec fn g2_uncompressed_valid(b: Seq<u8>) -> bool;

/// Relies on `bls12_381::Scalar::from_bytes`, which accepts exactly the
/// little-endian encodings of values below the modulus.
#[verifier::external_body]
fn scalar_accepts(b: &[u8]) -> (r: bool)
    requires
        b@.len() == 32,
    ensures
        r == (le_nat(b@) < scalar_order()),
{
    let bytes: &[u8; 32] = b.try_into().unwrap();
    bool::from(Scalar::from_bytes(bytes).is_some())
}

/// Relies on `bls12_381::Scalar::from_bytes_wide`, which reduces a 512-bit
/// little-endian integer by the modulus, and on `Scalar::to_bytes`, which
/// writes the reduced value as 32 little-endian bytes.
#[verifier::external_body]
fn reduce_wide(b: &[u8]) -> (r: Vec<u8>)
    requires
        b@.len() == 64,
    ensures
        r@.len() == 32,
        le_nat(r@) == le_nat(b@) % scalar_order(),
{
    let bytes: &[u8; 64] = b.try_into().unwrap();
    Scalar::from_bytes_wide(bytes).to_bytes().to_vec()
}

/// Relies on `bls12_381::G1Affine::from_compressed`, which succeeds exactly on
/// compressed encodings of subgroup points.
#[verifier::external_body]
fn g1_accepts_compressed(b: &[u8]) -> (r: bool)
    requires
        b@.len() == 48,
    ensures
        r == g1_compressed_valid(b@),
{
    let bytes: &[u8; 48] = b.try_into().unwrap();
    bool::from(G1Affine::from_compressed(bytes).is_some())
}

/// Relies on `bls12_381::G1Affine::from_uncompressed`, which succeeds exactly
/// on uncompressed encodings of subgroup points.
#[verifier::external_body]
fn g1_accepts_uncompressed(b: &[u8]) -> (r: bool)
    requires
        b@.len() == 96,
    ensures
        r == g1_uncompressed_valid(b@),
{
    let bytes: &[u8; 96] = b.try_into().unwrap();
    bool::from(G1Affine::from_uncompressed(bytes).is_some())
}

/// Relies on `bls12_381::G2Affine::from_compressed`, which succeeds exactly on
/// compressed encodings of subgroup points.
#[verifier::external_body]
fn g2_accepts_compressed(b: &[u8]) -> (r: bool)
    requires
        b@.len() == 96,
    ensures
        r == g2_compressed_valid(b@),
{
    let bytes: &[u8; 96] = b.try_into().unwrap();
    bool::from(G2Affine::from_compressed(bytes).is_some())
}

/// Relies on `bls12_381::G2Affine::from_uncompressed`, which succeeds exactly
/// on uncompressed encodings of subgroup points.
#[verifier::external_body]
fn g2_accepts_uncompressed(b: &[u8]) -> (r: bool)
    requires
        b@.len() == 192,
    ensures
        r == g2_uncompressed_valid(b@),
{
    let bytes: &[u8; 192] = b.try_into().unwrap();
    bool::from(G2Affine::from_uncompressed(bytes).is_some())
}

/// A copy of `b`.
pub fn copy_bytes(b: &[u8]) -> (r: Vec<u8>)
    ensures
        r@ == b@,
{
    let mut r: Vec<u8> = Vec::new();
    let mut i: usize = 0;
    while i < b.len()
        invariant
            i <= b@.len(),
            r@ == b@.subrange(0, i as int),
        decreases b@.len() - i,
    {
        r.push(b[i]);
        i = i + 1;
        assert(r@ =~= b@.subrange(0, i as int));
    }
    assert(r@ =~= b@);
    r
}

/// A private key: the canonical 32-byte little-endian encoding of a scalar
/// below the group order. Its view is the scalar's value.
pub struct PrivateKeyMaterial {
    bytes: Vec<u8>,
}

impl PrivateKeyMaterial {
    #[verifier::type_invariant]
    spec fn canonical(self) -> bool {
        is_canonical_scalar(self.bytes@)
    }

    /// The canonical encoding of the key.
    pub fn as_bytes(&self) -> (r: &[u8])
        ensures
            is_canonical_scalar(r@),
            le_nat(r@) == self@,
    {
        proof {
            use_type_invariant(self);
        }
        self.bytes.as_slice()
    }
}

impl View for PrivateKeyMaterial {
    type V = nat;

    closed spec fn view(&self) -> nat {
        le_nat(self.bytes@)
    }
}

/// A public key: an encoding, 48 bytes compressed or 96 uncompressed, of a
/// point of the first group's prime-order subgroup. Its view is that encoding.
pub struct PublicKeyMaterial {
    encoding: Vec<u8>,
}

impl PublicKeyMaterial {
    #[verifier::type_invariant]
    spec fn valid(self) -> bool {
        public_key_decoding(self.encoding@) == Ok::<Seq<u8>, KeyError>(self.encoding@)
    }

    /// The encoding of the key.
    pub fn as_bytes(&self) -> (r: &[u8])
        ensures
            r@ == self@,
            public_key_decoding(r@) == Ok::<Seq<u8>, KeyError>(r@),
    {
        proof {
            use_type_invariant(self);
        }
        self.encoding.as_slice()
    }
}

impl View for PublicKeyMaterial {
    type V = Seq<u8>;

    closed spec fn view(&self) -> Seq<u8> {
        self.encoding@
    }
}

/// A signature: an encoding, 96 bytes compressed or 192 uncompressed, of a
/// point of the second group's prime-order subgroup. Its view is that
/// encoding.
pub struct SignatureMaterial {
    encoding: Vec<u8>,
}

impl SignatureMaterial {
    #[verifier::type_invariant]
    spec fn valid(self) -> bool {
        signature_decoding(self.encoding@) == Ok::<Seq<u8>, KeyError>(self.encoding@)
    }

    /// The encoding of the signature.
    pub fn as_bytes(&self) -> (r: &[u8])
        ensures
            r@ == self@,
            signature_decoding(r@) == Ok::<Seq<u8>, KeyError>(r@),
    {
        proof {
            use_type_invariant(self);
        }
        self.encoding.as_slice()
    }
}

impl View for SignatureMaterial {
    type V = Seq<u8>;

    closed spec fn view(&self) -> Seq<u8> {
        self.encoding@
    }
}

/// The outcome of decoding a private key buffer: the scalar's value, or why
/// there is none.
pub open spec fn private_key_decoding(b: Seq<u8>) -> Result<nat, KeyError> {
    if b.len() == 32 {
        if le_nat(b) < scalar_order() {
            Ok(le_nat(b))
        } else {
            Err(KeyError::InvalidScalar)
        }
    } else if b.len() == 64 {
        Ok(le_nat(b) % scalar_order())
    } else {
        Err(KeyError::InvalidLength { short: 32, long: 64, actual: b.len() as usize })
    }
}

/// The outcome of decoding a public key buffer: the accepted encoding, or why
/// it is refused.
pub open spec fn public_key_decoding(b: Seq<u8>) -> Result<Seq<u8>, KeyError> {
    if b.len() == 48 {
        if g1_compressed_valid(b) {
            Ok(b)
        } else {
            Err(KeyError::InvalidPoint)
        }
    } else if b.len() == 96 {
        if g1_uncompressed_valid(b) {
            Ok(b)
        } else {
            Err(KeyError::InvalidPoint)
        }
    } else {
        Err(KeyError::InvalidLength { short: 48, long: 96, actual: b.len() as usize })
    }
}

/// The outcome of decoding a signature buffer: the accepted encoding, or why
/// it is refused.
pub open spec fn signature_decoding(b: Seq<u8>) -> Result<Seq<u8>, KeyError> {
    if b.len() == 96 {
        if g2_compressed_valid(b) {
            Ok(b)
        } else {
            Err(KeyError::InvalidPoint)
        }
    } else if b.len() == 192 {
        if g2_uncompressed_valid(b) {
            Ok(b)
        } else {
            Err(KeyError::InvalidPoint)
        }
    } else {
        Err(KeyError::InvalidLength { short: 96, long: 192, actual: b.len() as usize })
    }
}

/// Decodes a private key from 32 canonical or 64 wide little-endian bytes;
/// a wide value is reduced modulo the group order.
pub fn decode_private_key(b: &[u8]) -> (r: Result<PrivateKeyMaterial, KeyError>)
    ensures
        match r {
            Ok(k) => private_key_decoding(b@) == Ok::<nat, KeyError>(k@),
            Err(e) => private_key_decoding(b@) == Err::<nat, KeyError>(e),
        },
{
    let n = b.len();
    if n == 32 {
        if scalar_accepts(b) {
            Ok(PrivateKeyMaterial { bytes: copy_bytes(b) })
        } else {
            Err(KeyError::InvalidScalar)
        }
    } else if n == 64 {
        Ok(PrivateKeyMaterial { bytes: reduce_wide(b) })
    } else {
        Err(KeyError::InvalidLength { short: 32, long: 64, actual: n })
    }
}

/// Decodes a public key from a 48-byte compressed or a 96-byte uncompressed
/// encoding of a first-group subgroup point.
pub fn decode_public_key(b: &[u8]) -> (r: Result<PublicKeyMaterial, KeyError>)
    ensures
        match r {
            Ok(k) => public_key_decoding(b@) == Ok::<Seq<u8>, KeyError>(k@),
            Err(e) => public_key_decoding(b@) == Err::<Seq<u8>, KeyError>(e),
        },
{
    let n = b.len();
    let accepted = if n == 48 {
        g1_accepts_compressed(b)
    } else if n == 96 {
        g1_accepts_uncompressed(b)
    } else {
        return Err(KeyError::InvalidLength { short: 48, long: 96, actual: n });
    };
    if accepted {
        Ok(PublicKeyMaterial { encoding: copy_bytes(b) })
    } else {
        Err(KeyError::InvalidPoint)
    }
}

/// Decodes a signature from a 96-byte compressed or a 192-byte uncompressed
/// encoding of a second-group subgroup point.
pub fn decode_signature(b: &[u8]) -> (r: Result<SignatureMaterial, KeyError>)
    ensures
        match r {
            Ok(s) => signature_decoding(b@) == Ok::<Seq<u8>, KeyError>(s@),
            Err(e) => signature_decoding(b@) == Err::<Seq<u8>, KeyError>(e),
        },
{
    let n = b.len();
    let accepted = if n == 96 {
        g2_accepts_compressed(b)
    } else if n == 192 {
        g2_accepts_uncompressed(b)
    } else {
        return Err(KeyError::InvalidLength { short: 96, long: 192, actual: n });
    };
    if accepted {
        Ok(SignatureMaterial { encoding: copy_bytes(b) })
    } else {
        Err(KeyError::InvalidPoint)
    }
}

} // verus!
