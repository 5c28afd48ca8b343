use jam_crypto::eddsa::{ed25519_keypair, ed25519_sign, ed25519_verify};

#[test]
fn keypair_is_seed_then_verification_key() {
    let seed = [42u8; 32];
    let pair = ed25519_keypair(&seed);
    assert_eq!(pair.len(), 64);
    assert_eq!(&pair[..32], &seed);
    let again = ed25519_keypair(&seed);
    assert_eq!(pair, again);
}

#[test]
fn different_seeds_give_different_verification_keys() {
    let a = ed25519_keypair(&[0u8; 32]);
    let b = ed25519_keypair(&[1u8; 32]);
    assert_ne!(&a[32..], &b[32..]);
}

#[test]
fn ed25519_sign_then_verify_accepts() {
    let seed = [9u8; 32];
    let pair = ed25519_keypair(&seed);
    let msg = b"a message worth signing";
    let sig = ed25519_sign(msg, &pair[..32]);
    assert_eq!(sig.len(), 64);
    assert!(ed25519_verify(msg, &pair[32..], &sig));
}

#[test]
fn signing_is_deterministic() {
    let seed = [3u8; 32];
    let msg = b"twice the same";
    assert_eq!(ed25519_sign(msg, &seed), ed25519_sign(msg, &seed));
}

#[test]
fn verify_rejects_tampered_inputs() {
    let seed = [5u8; 32];
    let pair = ed25519_keypair(&seed);
    let msg = b"original message";
    let sig = ed25519_sign(msg, &pair[..32]);
    assert!(ed25519_verify(msg, &pair[32..], &sig));

    let mut bad_sig = sig.clone();
    bad_sig[10] ^= 0x01;
    assert!(!ed25519_verify(msg, &pair[32..], &bad_sig));
    assert!(!ed25519_verify(b"original messagE", &pair[32..], &sig));
    let other = ed25519_keypair(&[6u8; 32]);
    assert!(!ed25519_verify(msg, &other[32..], &sig));
}

#[test]
fn verify_rejects_malformed_keys_and_signatures() {
    let seed = [8u8; 32];
    let pair = ed25519_keypair(&seed);
    let msg = b"message";
    let sig = ed25519_sign(msg, &pair[..32]);
    assert!(!ed25519_verify(msg, &pair[32..63], &sig));
    assert!(!ed25519_verify(msg, &[], &sig));
    assert!(!ed25519_verify(msg, &pair[32..], &sig[..63]));
    assert!(!ed25519_verify(msg, &pair[32..], &[]));
}
