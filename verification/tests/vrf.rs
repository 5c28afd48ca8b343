use jam_crypto::ietf::{
    ietf_vrf_output_hash, ietf_vrf_output_hash_from_secret, ietf_vrf_sign, ietf_vrf_verify,
};
use jam_crypto::keys::{public_key, secret_key};

fn hex(bytes: &[u8]) -> String {
    let mut s = String::new();
    for b in bytes {
        s.push_str(&format!("{:02x}", b));
    }
    s
}

#[test]
fn public_key_derivation_is_deterministic() {
    let seed = b"a fairly ordinary seed";
    let pk1 = public_key(seed);
    let pk2 = public_key(seed);
    assert_eq!(pk1, pk2);
    assert_eq!(pk1.len(), 32);
    let sk1 = secret_key(seed);
    let sk2 = secret_key(seed);
    assert_eq!(sk1, sk2);
    assert_eq!(sk1.len(), 32);
}

#[test]
fn different_seeds_give_different_keys() {
    assert_ne!(public_key(&[0u8; 32]), public_key(&[1u8; 32]));
    assert_ne!(secret_key(&[0u8; 32]), secret_key(&[1u8; 32]));
}

#[test]
fn zero_seed_public_key_golden_vector() {
    let pk = public_key(&[0u8; 32]);
    assert_eq!(
        hex(&pk),
        "5e465beb01dbafe160ce8216047f2155dd0569f058afd52dcea601025a8d161d"
    );
}

#[test]
fn zero_seed_signature_verifies_only_under_own_key() {
    let seed = [0u8; 32];
    let secret = secret_key(&seed);
    let public = public_key(&seed);
    let other_public = public_key(&[7u8; 32]);
    let input = b"fixed message input";
    let aux = b"fixed aux";
    let sig = ietf_vrf_sign(&secret, input, aux);
    assert_eq!(sig.len(), 96);
    assert!(ietf_vrf_verify(&public, input, aux, &sig));
    assert!(!ietf_vrf_verify(&other_public, input, aux, &sig));
}

#[test]
fn sign_then_verify_accepts() {
    let secret = secret_key(b"seed of the round trip");
    let public = public_key(b"seed of the round trip");
    let sig = ietf_vrf_sign(&secret, b"some input data", b"some aux data");
    assert_eq!(sig.len(), 96);
    assert!(ietf_vrf_verify(&public, b"some input data", b"some aux data", &sig));
}

#[test]
fn tampering_flips_verification() {
    let secret = secret_key(b"tamper seed");
    let public = public_key(b"tamper seed");
    let input = b"tamper input";
    let aux = b"tamper aux";
    let sig = ietf_vrf_sign(&secret, input, aux);
    assert!(ietf_vrf_verify(&public, input, aux, &sig));

    for idx in [0usize, 31, 32, 63, 64, 95] {
        let mut bad = sig.clone();
        bad[idx] ^= 0x01;
        assert!(!ietf_vrf_verify(&public, input, aux, &bad), "byte {} of the proof", idx);
    }
    assert!(!ietf_vrf_verify(&public, b"tamper inpuT", aux, &sig));
    assert!(!ietf_vrf_verify(&public, input, b"tamper auX", &sig));
}

#[test]
fn verify_rejects_wrong_lengths_outright() {
    let secret = secret_key(b"length seed");
    let public = public_key(b"length seed");
    let sig = ietf_vrf_sign(&secret, b"input", b"aux");

    assert!(!ietf_vrf_verify(&public, b"input", b"aux", &sig[..95]));
    assert!(!ietf_vrf_verify(&public, b"input", b"aux", &[]));
    let mut long = sig.clone();
    long.push(0);
    assert!(!ietf_vrf_verify(&public, b"input", b"aux", &long));
    assert!(!ietf_vrf_verify(&public[..31], b"input", b"aux", &sig));
    assert!(!ietf_vrf_verify(&[], b"input", b"aux", &sig));
}

#[test]
fn output_hash_round_trip() {
    let secret = secret_key(b"hash seed");
    let input = b"hash input";
    let sig = ietf_vrf_sign(&secret, input, b"hash aux");
    let from_sig = ietf_vrf_output_hash(&sig);
    let from_secret = ietf_vrf_output_hash_from_secret(&secret, input);
    assert_eq!(from_sig.len(), 32);
    assert_eq!(from_sig, from_secret);
}

#[test]
fn output_hash_ignores_aux() {
    let secret = secret_key(b"aux free seed");
    let sig1 = ietf_vrf_sign(&secret, b"same input", b"one aux");
    let sig2 = ietf_vrf_sign(&secret, b"same input", b"another aux");
    assert_eq!(ietf_vrf_output_hash(&sig1), ietf_vrf_output_hash(&sig2));
}

#[test]
fn output_hash_rejects_malformed_signature() {
    assert!(ietf_vrf_output_hash(&[]).is_empty());
    assert!(ietf_vrf_output_hash(&[0xffu8; 96]).is_empty());
    let secret = secret_key(b"short sig seed");
    let sig = ietf_vrf_sign(&secret, b"input", b"aux");
    assert!(ietf_vrf_output_hash(&sig[..40]).is_empty());
}

#[test]
fn sign_rejects_malformed_secret() {
    assert!(ietf_vrf_sign(&[0u8; 31], b"input", b"aux").is_empty());
    assert!(ietf_vrf_sign(&[0xffu8; 32], b"input", b"aux").is_empty());
    assert!(ietf_vrf_output_hash_from_secret(&[0xffu8; 32], b"input").is_empty());
}
