use bls12_381::{G1Affine, G2Affine};
use bls_facade::{
    decode_private_key, decode_public_key, decode_signature, generate_private_key_random,
    generate_private_key_seed, get_public_key,
    extend_seed, get_random, sign, verify, KeyError, SecureRandom,
};

/// The group order, little-endian.
const ORDER_LE: [u8; 32] = [
    0x01, 0x00, 0x00, 0x00, 0xff, 0xff, 0xff, 0xff, 0xfe, 0x5b, 0xfe, 0xff, 0x02, 0xa4, 0xbd,
    0x53, 0x05, 0xd8, 0xa1, 0x09, 0x08, 0xd8, 0x39, 0x33, 0x48, 0x7d, 0x9d, 0x29, 0x53, 0xa7,
    0xed, 0x73,
];

/// The compressed generator of the first group.
const G1_GENERATOR: &str = "97f1d3a73197d7942695638c4fa9ac0fc3688c4f9774b905a14e3a3f171bac586c55e83ff97a1aeffb3af00adb22c6bb";

fn from_hex(s: &str) -> Vec<u8> {
    (0..s.len())
        .step_by(2)
        .map(|i| u8::from_str_radix(&s[i..i + 2], 16).unwrap())
        .collect()
}

fn scalar_le(v: u8) -> Vec<u8> {
    let mut b = vec![0u8; 32];
    b[0] = v;
    b
}

fn provider(tag: u8) -> SecureRandom {
    SecureRandom::from_seed([tag; 32])
}

#[test]
fn canonical_scalar_gives_deterministic_public_key() {
    let k = scalar_le(7);
    assert!(decode_private_key(&k).is_ok());
    let a = get_public_key(&k).unwrap();
    let b = get_public_key(&k).unwrap();
    assert_eq!(a.len(), 48);
    assert_eq!(a, b);
    assert_ne!(a, k);
}

#[test]
fn public_key_of_one_is_the_generator() {
    assert_eq!(get_public_key(&scalar_le(1)).unwrap(), from_hex(G1_GENERATOR));
}

#[test]
fn private_key_of_wrong_length_is_refused() {
    for n in [0usize, 1, 31, 33, 48, 63, 65, 96] {
        let b = vec![1u8; n];
        assert_eq!(
            decode_private_key(&b).err(),
            Some(KeyError::InvalidLength { short: 32, long: 64, actual: n })
        );
        assert_eq!(
            get_public_key(&b),
            Err(KeyError::InvalidLength { short: 32, long: 64, actual: n })
        );
    }
}

#[test]
fn public_key_of_wrong_length_is_refused() {
    for n in [0usize, 32, 47, 49, 95, 97, 192] {
        let b = vec![0u8; n];
        assert_eq!(
            decode_public_key(&b).err(),
            Some(KeyError::InvalidLength { short: 48, long: 96, actual: n })
        );
    }
}

#[test]
fn signature_of_wrong_length_is_refused() {
    for n in [0usize, 48, 95, 97, 191, 193] {
        let b = vec![0u8; n];
        assert_eq!(
            decode_signature(&b).err(),
            Some(KeyError::InvalidLength { short: 96, long: 192, actual: n })
        );
    }
}

#[test]
fn scalar_equal_to_order_is_invalid() {
    assert_eq!(decode_private_key(&ORDER_LE).err(), Some(KeyError::InvalidScalar));
    assert_eq!(sign(&ORDER_LE, b"m"), Err(KeyError::InvalidScalar));
}

#[test]
fn point_not_on_curve_is_invalid() {
    let mut pk = from_hex(G1_GENERATOR);
    pk[47] ^= 1;
    assert_eq!(decode_public_key(&pk).err(), Some(KeyError::InvalidPoint));
    let sig = vec![0xffu8; 96];
    assert_eq!(decode_signature(&sig).err(), Some(KeyError::InvalidPoint));
    assert_eq!(decode_public_key(&[0u8; 96]).err(), Some(KeyError::InvalidPoint));
}

#[test]
fn random_key_round_trips() {
    let mut rng = provider(1);
    let k = generate_private_key_random(&mut rng);
    assert_eq!(k.len(), 32);
    let pk = get_public_key(&k).unwrap();
    for m in [&b""[..], b"hello", &[0u8; 1000][..]] {
        let sig = sign(&k, m).unwrap();
        assert_eq!(sig.len(), 96);
        assert_eq!(verify(&pk, &sig, m), Ok(1));
    }
}

#[test]
fn uncompressed_encodings_verify() {
    let k = scalar_le(42);
    let pk = get_public_key(&k).unwrap();
    let sig = sign(&k, b"payload").unwrap();
    let pk_full =
        G1Affine::from_compressed(&pk.clone().try_into().unwrap()).unwrap().to_uncompressed();
    let sig_full =
        G2Affine::from_compressed(&sig.clone().try_into().unwrap()).unwrap().to_uncompressed();
    assert_eq!(verify(&pk_full, &sig_full, b"payload"), Ok(1));
    assert_eq!(verify(&pk, &sig_full, b"payload"), Ok(1));
    assert_eq!(verify(&pk_full, &sig, b"other"), Ok(0));
}

#[test]
fn mutated_signature_never_verifies() {
    let k = scalar_le(9);
    let pk = get_public_key(&k).unwrap();
    let sig = sign(&k, b"msg").unwrap();
    for i in 0..sig.len() {
        for bit in 0..8 {
            let mut bad = sig.clone();
            bad[i] ^= 1 << bit;
            assert_ne!(verify(&pk, &bad, b"msg"), Ok(1));
        }
    }
}

#[test]
fn other_key_does_not_verify() {
    let k1 = scalar_le(3);
    let k2 = scalar_le(4);
    let sig = sign(&k1, b"msg").unwrap();
    let pk2 = get_public_key(&k2).unwrap();
    assert_eq!(verify(&pk2, &sig, b"msg"), Ok(0));
}

#[test]
fn malformed_public_key_is_a_decode_error() {
    let k = scalar_le(5);
    let sig = sign(&k, b"msg").unwrap();
    let r = verify(&[0u8; 47], &sig, b"msg");
    assert_eq!(r, Err(KeyError::InvalidLength { short: 48, long: 96, actual: 47 }));
    assert_ne!(r, Ok(0));
    let pk = get_public_key(&k).unwrap();
    assert_eq!(
        verify(&pk, &sig[..95], b"msg"),
        Err(KeyError::InvalidLength { short: 96, long: 192, actual: 95 })
    );
}

#[test]
fn seeded_keys_are_deterministic() {
    let seed = [11u8; 32];
    let a = generate_private_key_seed(&seed);
    let b = generate_private_key_seed(&seed);
    assert_eq!(a.len(), 32);
    assert_eq!(a, b);
    assert_ne!(a, seed.to_vec());
    let c = generate_private_key_seed(&[12u8; 40]);
    assert_ne!(a, c);
    assert!(decode_private_key(&a).is_ok());
}

#[test]
fn short_seeds_give_distinct_keys() {
    let one = generate_private_key_seed(&[1]);
    let two = generate_private_key_seed(&[2]);
    let pair = generate_private_key_seed(&[1, 0]);
    let empty = generate_private_key_seed(&[]);
    for k in [&one, &two, &pair, &empty] {
        assert_eq!(k.len(), 32);
        assert!(decode_private_key(k).is_ok());
    }
    assert_ne!(one, two);
    assert_ne!(one, pair);
    assert_ne!(one, empty);
    assert_eq!(one, generate_private_key_seed(&[1]));
}

#[test]
fn seed_is_closed_by_marker_and_padded() {
    let mut expected = vec![1u8, 2, 0x80];
    expected.resize(32, 0);
    assert_eq!(extend_seed(&[1, 2]), expected);
    let long = [7u8; 40];
    let mut expected = long.to_vec();
    expected.push(0x80);
    assert_eq!(extend_seed(&long), expected);
    let mut expected = vec![0x80u8];
    expected.resize(32, 0);
    assert_eq!(extend_seed(&[]), expected);
}

#[test]
fn random_draws_have_requested_length_and_differ() {
    let mut rng = provider(2);
    assert!(get_random(&mut rng, 0).is_empty());
    let mut seen: Vec<Vec<u8>> = Vec::new();
    for _ in 0..200 {
        let b = get_random(&mut rng, 16);
        assert_eq!(b.len(), 16);
        assert!(!seen.contains(&b));
        seen.push(b);
    }
    assert_ne!(get_random(&mut rng, 64), vec![0u8; 64]);
}

#[test]
fn equal_seeds_give_equal_streams() {
    let mut a = provider(3);
    let mut b = provider(3);
    assert_eq!(get_random(&mut a, 32), get_random(&mut b, 32));
    assert_ne!(get_random(&mut a, 32), get_random(&mut provider(4), 32));
}

#[test]
fn random_keys_differ() {
    let mut rng = provider(5);
    let a = generate_private_key_random(&mut rng);
    let b = generate_private_key_random(&mut rng);
    assert_ne!(a, b);
}

#[test]
fn wide_scalar_is_reduced() {
    // order + 5, written in 64 bytes
    let mut wide = ORDER_LE.to_vec();
    wide.extend_from_slice(&[0u8; 32]);
    wide[0] += 5;
    assert!(decode_private_key(&wide).is_ok());
    assert_eq!(get_public_key(&wide), get_public_key(&scalar_le(5)));
    assert_eq!(sign(&wide, b"x"), sign(&scalar_le(5), b"x"));
    let all_ones = vec![0xffu8; 64];
    assert!(decode_private_key(&all_ones).is_ok());
    assert!(get_public_key(&all_ones).is_ok());
}

#[test]
fn wide_zero_padded_scalar_matches_canonical() {
    let mut wide = scalar_le(1);
    wide.extend_from_slice(&[0u8; 32]);
    assert_eq!(get_public_key(&wide).unwrap(), from_hex(G1_GENERATOR));
}
