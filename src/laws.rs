//! Properties that hold of every input, stated over the operations' models.
use vstd::prelude::*;

use crate::error::KeyError;
use crate::material::{private_key_decoding, public_key_decoding, signature_decoding};
use crate::operations::{
    public_key_of, public_key_result, seed_material, signature_of, signing_result,
    verification_result, SEED_LEN, SEED_MARKER,
};
use crate::scalar::{is_canonical_scalar, le_nat, scalar_order};

verus! {

/// Every canonical 32-byte scalar decodes to its own value, and its public key
/// is the one of that value: derivation succeeds and depends on the value
/// alone.
pub proof fn lemma_canonical_key_decodes(s: Seq<u8>)
    requires
        is_canonical_scalar(s),
    ensures
        private_key_decoding(s) == Ok::<nat, KeyError>(le_nat(s)),
        public_key_result(s) == Ok::<Seq<u8>, KeyError>(public_key_of(le_nat(s))),
{
}

/// A buffer whose length is not one of the two encodings of its material is
/// refused with `InvalidLength`, naming both accepted lengths and its own.
pub proof fn lemma_wrong_length_refused(b: Seq<u8>)
    requires
        b.len() <= usize::MAX,
    ensures
        b.len() != 32 && b.len() != 64 ==> private_key_decoding(b) == Err::<nat, KeyError>(
            KeyError::InvalidLength { short: 32, long: 64, actual: b.len() as usize },
        ),
        b.len() != 48 && b.len() != 96 ==> public_key_decoding(b) == Err::<Seq<u8>, KeyError>(
            KeyError::InvalidLength { short: 48, long: 96, actual: b.len() as usize },
        ),
        b.len() != 96 && b.len() != 192 ==> signature_decoding(b) == Err::<Seq<u8>, KeyError>(
            KeyError::InvalidLength { short: 96, long: 192, actual: b.len() as usize },
        ),
{
}

/// A canonical private key, such as one drawn at random, is accepted by both
/// public key derivation and signing, for every message, the empty one
/// included.
pub proof fn lemma_canonical_key_signs(k: Seq<u8>, message: Seq<u8>)
    requires
        is_canonical_scalar(k),
    ensures
        public_key_result(k) == Ok::<Seq<u8>, KeyError>(public_key_of(le_nat(k))),
        signing_result(k, message) == Ok::<Seq<u8>, KeyError>(signature_of(le_nat(k), message)),
{
}

/// A verification whose public key or signature does not decode reports that
/// decoding failure; it never reads as a rejected signature (`Ok(0)`).
pub proof fn lemma_decode_failure_is_not_rejection(
    public_key: Seq<u8>,
    signature: Seq<u8>,
    message: Seq<u8>,
)
    ensures
        public_key_decoding(public_key) matches Err(e) ==> verification_result(
            public_key,
            signature,
            message,
        ) == Err::<u8, KeyError>(e),
        public_key_decoding(public_key) is Ok ==> (signature_decoding(signature) matches Err(e)
            ==> verification_result(public_key, signature, message) == Err::<u8, KeyError>(e)),
        (verification_result(public_key, signature, message) is Ok) == (public_key_decoding(
            public_key,
        ) is Ok && signature_decoding(signature) is Ok),
{
}

/// Every seed, the empty one included, is extended to an input that the key
/// derivation accepts, and two distinct seeds are never extended to the same
/// input: seeded keys can differ only through the derivation itself.
pub proof fn lemma_seed_material_injective(a: Seq<u8>, b: Seq<u8>)
    ensures
        seed_material(a).len() >= SEED_LEN,
        a != b ==> seed_material(a) != seed_material(b),
{
    if a != b && seed_material(a) == seed_material(b) {
        let ma = seed_material(a);
        let mb = seed_material(b);
        assert(ma[a.len() as int] == SEED_MARKER);
        assert(mb[b.len() as int] == SEED_MARKER);
        if a.len() == b.len() {
            assert(a =~= ma.subrange(0, a.len() as int));
            assert(b =~= mb.subrange(0, b.len() as int));
        } else if a.len() < b.len() {
            assert(ma[b.len() as int] == 0u8);
        } else {
            assert(mb[a.len() as int] == 0u8);
        }
    }
}

/// Every 64-byte buffer decodes, also when its value is at least the group
/// order, to its value reduced modulo the order.
pub proof fn lemma_wide_key_reduces(b: Seq<u8>)
    requires
        b.len() == 64,
    ensures
        private_key_decoding(b) == Ok::<nat, KeyError>(le_nat(b) % scalar_order()),
        le_nat(b) % scalar_order() < scalar_order(),
{
}

} // verus!
