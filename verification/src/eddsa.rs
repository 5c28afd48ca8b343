//! Plain Ed25519 signature scheme: keypair derivation, signing and
//! verification, independent of the VRF engines.
//!
//! A signing key is its 32-byte seed; a keypair is the seed followed by the
//! 32-byte verification key. Key-generation and signing demand a 32-byte
//! key — a wrong length is a caller error, excluded by precondition here and
//! checked again by any unverified caller. Verification is total: malformed
//! keys and signatures simply yield `false`.

use vstd::prelude::*;

verus! {

/// The 64-byte deterministic (RFC-8032) Ed25519 signature of a message
/// under a 32-byte signing key.
pub uninterp spec fn ed_sig_of(msg: Seq<u8>, key: Seq<u8>) -> Seq<u8>;

/// Whether Ed25519 verification accepts the triple: the verification key
/// and the signature decode, and the signature equation holds for the
/// message.
pub uninterp spec fn ed_accepts(msg: Seq<u8>, vk: Seq<u8>, sig: Seq<u8>) -> bool;

/// The 32-byte Ed25519 verification key derived from a 32-byte seed.
pub uninterp spec fn ed_vk_of(seed: Seq<u8>) -> Seq<u8>;

/// Relies on `ed25519_zebra::SigningKey::try_from` (infallible for 32-byte
/// slices) and the deterministic `SigningKey::sign`: 64 bytes, a function of
/// message and key alone. The last clause is RFC-8032 correctness, which the
/// crate's own sign/verify pair exhibits: a signature this function produces
/// is accepted by the verifier under the key's verification key.
#[verifier::external_body]
fn ed_sign_raw(msg: &[u8], key: &[u8]) -> (r: Vec<u8>)
    requires
        key@.len() == 32,
    ensures
        r@ == ed_sig_of(msg@, key@),
        r@.len() == 64,
        ed_accepts(msg@, ed_vk_of(key@), r@),
{
    let sk = ed25519_zebra::SigningKey::try_from(key).unwrap();
    sk.sign(msg).to_bytes().to_vec()
}

/// Relies on `ed25519_zebra::Signature::try_from`,
/// `VerificationKey::try_from` and `VerificationKey::verify`: the whole
/// pipeline is a function of the three byte strings, false on any decode
/// failure and on a failed signature equation, for inputs of any length.
#[verifier::external_body]
fn ed_verify_raw(msg: &[u8], vk: &[u8], sig: &[u8]) -> (r: bool)
    ensures
        r == ed_accepts(msg@, vk@, sig@),
{
    let sig = match ed25519_zebra::Signature::try_from(sig) {
        Ok(s) => s,
        Err(_) => return false,
    };
    match ed25519_zebra::VerificationKey::try_from(vk) {
        Ok(key) => key.verify(&sig, msg).is_ok(),
        Err(_) => false,
    }
}

/// Relies on `ed25519_zebra::SigningKey::try_from` (infallible for 32-byte
/// slices) and `SigningKey::verification_key`: 32 bytes, a function of the
/// seed alone.
#[verifier::external_body]
fn ed_verification_key_raw(seed: &[u8]) -> (r: Vec<u8>)
    requires
        seed@.len() == 32,
    ensures
        r@ == ed_vk_of(seed@),
        r@.len() == 32,
{
    let sk = ed25519_zebra::SigningKey::try_from(seed).unwrap();
    <[u8; 32]>::from(sk.verification_key()).to_vec()
}

/// Sign a message with a 32-byte Ed25519 signing key.
///
/// The signature is deterministic — a function of message and key alone —
/// and, the sign/verify round trip, it is accepted by [`ed25519_verify`]
/// under the verification key derived from the same signing key.
pub fn ed25519_sign(data: &[u8], signing_key: &[u8]) -> (r: Vec<u8>)
    requires
        signing_key@.len() == 32,
    ensures
        r@ == ed_sig_of(data@, signing_key@),
        r@.len() == 64,
        ed_accepts(data@, ed_vk_of(signing_key@), r@),
{
    ed_sign_raw(data, signing_key)
}

/// Verify an Ed25519 signature: true exactly when the verification pipeline
/// accepts the triple. Total — malformed keys and signatures of any length
/// yield `false`, never a panic.
pub fn ed25519_verify(msg: &[u8], v_key: &[u8], signature: &[u8]) -> (r: bool)
    ensures
        r == ed_accepts(msg@, v_key@, signature@),
{
    ed_verify_raw(msg, v_key, signature)
}

/// Derive the 64-byte keypair for a 32-byte seed: the seed itself (which is
/// the signing key's serialization) followed by the verification key.
pub fn ed25519_keypair(seed: &[u8]) -> (r: Vec<u8>)
    requires
        seed@.len() == 32,
    ensures
        r@.len() == 64,
        r@.subrange(0, 32) == seed@,
        r@.subrange(32, 64) == ed_vk_of(seed@),
{
    let mut out: Vec<u8> = Vec::new();
    let mut i: usize = 0;
    while i < 32
        invariant
            seed@.len() == 32,
            i <= 32,
            out@ == seed@.subrange(0, i as int),
        decreases 32 - i,
    {
        out.push(seed[i]);
        i += 1;
    }
    assert(out@ == seed@);
    let vk = ed_verification_key_raw(seed);
    let mut j: usize = 0;
    while j < vk.len()
        invariant
            seed@.len() == 32,
            vk@.len() == 32,
            vk@ == ed_vk_of(seed@),
            j <= 32,
            out@ == seed@ + vk@.subrange(0, j as int),
        decreases vk@.len() - j,
    {
        out.push(vk[j]);
        j += 1;
    }
    assert(out@ == seed@ + vk@);
    assert(out@.subrange(0, 32) == seed@);
    assert(out@.subrange(32, 64) == vk@);
    out
}

} // verus!
