//! Decoding, signing and verification of BLS signatures over raw byte buffers.
//!
//! Buffers are dispatched on their length alone: private keys come as 32-byte
//! canonical or 64-byte wide little-endian scalars, public keys as 48-byte
//! compressed or 96-byte uncompressed first-group points, and signatures as
//! 96-byte compressed or 192-byte uncompressed second-group points.
pub mod error;
pub mod laws;
pub mod material;
pub mod operations;
pub mod random;
pub mod scalar;

pub use error::KeyError;
pub use material::{
    decode_private_key, decode_public_key, decode_signature, PrivateKeyMaterial,
    PublicKeyMaterial, SignatureMaterial,
};
pub use operations::{
    extend_seed, generate_private_key_seed, get_public_key, sign, verify, SEED_LEN, SEED_MARKER,
};
pub use random::{generate_private_key_random, get_random, SecureRandom};
