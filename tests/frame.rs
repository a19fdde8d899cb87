use transpher::cipher::{KEY_LEN, NONCE_LEN};
use transpher::frame::{seal, seal_with_nonce, unseal, UnsealError, FRAME_OVERHEAD};
use transpher::key::Key;
use transpher::relay::MAX_CHUNK;

fn key_of(byte: u8) -> Key {
    Key::from_bytes(vec![byte; KEY_LEN]).expect("32 bytes make a key")
}

fn sample(len: usize) -> Vec<u8> {
    (0..len).map(|i| (i * 7 + 3) as u8).collect()
}

#[test]
fn round_trip_restores_plaintext() {
    let key = key_of(0x42);
    for len in [1usize, 2, 15, 16, 17, 100, 1000, MAX_CHUNK] {
        let p = sample(len);
        let wire = seal(&p, &key);
        assert_eq!(unseal(&wire, &key), Ok(p));
    }
}

#[test]
fn frame_is_plaintext_plus_overhead() {
    let key = key_of(7);
    assert_eq!(FRAME_OVERHEAD, 28);
    for len in [1usize, 5, 64, MAX_CHUNK] {
        let wire = seal(&sample(len), &key);
        assert_eq!(wire.len(), len + 28);
    }
}

#[test]
fn flipping_any_bit_is_detected() {
    let key = key_of(9);
    let wire = seal(b"hello", &key);
    for byte in 0..wire.len() {
        for bit in 0..8 {
            let mut tampered = wire.clone();
            tampered[byte] ^= 1 << bit;
            assert_eq!(unseal(&tampered, &key), Err(UnsealError::Authentication));
        }
    }
}

#[test]
fn nonces_differ_between_seals() {
    let key = key_of(3);
    let a = seal(b"same text", &key);
    let b = seal(b"same text", &key);
    assert_ne!(a[..NONCE_LEN], b[..NONCE_LEN]);
}

#[test]
fn wrong_key_is_rejected() {
    let k1 = key_of(1);
    let k2 = key_of(2);
    let wire = seal(b"secret chunk", &k1);
    assert_eq!(unseal(&wire, &k2), Err(UnsealError::Authentication));
}

#[test]
fn short_chunks_are_malformed() {
    let key = key_of(5);
    for len in 0..NONCE_LEN {
        assert_eq!(unseal(&vec![0u8; len], &key), Err(UnsealError::Malformed));
    }
}

#[test]
fn chunks_without_a_full_tag_fail_authentication() {
    let key = key_of(5);
    for len in NONCE_LEN..FRAME_OVERHEAD {
        assert_eq!(unseal(&vec![0u8; len], &key), Err(UnsealError::Authentication));
    }
}

#[test]
fn seal_with_nonce_matches_known_vector() {
    // AES-256-GCM, all-zero key and nonce, sixteen zero bytes.
    let key = key_of(0);
    let nonce = [0u8; 12];
    let wire = seal_with_nonce(&[0u8; 16], &key, &nonce);
    let expected = hex::decode(
        "000000000000000000000000cea7403d4d606b6e074ec5d3baf39d18d0d1c8a799996bf0265b98b5d48ab919",
    )
    .unwrap();
    assert_eq!(wire, expected);
}

#[test]
fn seal_with_nonce_puts_nonce_first_and_hides_plaintext() {
    let key = key_of(0x11);
    let nonce: Vec<u8> = (1..=12).collect();
    let p = b"plain words here".to_vec();
    let wire = seal_with_nonce(&p, &key, &nonce);
    assert_eq!(wire[..NONCE_LEN], nonce[..]);
    assert_ne!(wire[NONCE_LEN..NONCE_LEN + p.len()], p[..]);
    assert_eq!(wire, seal_with_nonce(&p, &key, &nonce));
    assert_eq!(unseal(&wire, &key), Ok(p));
}

#[test]
fn sealed_empty_chunk_is_a_bare_tag() {
    let key = key_of(0);
    let wire = seal_with_nonce(&[], &key, &[0u8; 12]);
    assert_eq!(wire[NONCE_LEN..], hex::decode("530f8afbc74536b9a963b4f1c4cb738b").unwrap()[..]);
}
