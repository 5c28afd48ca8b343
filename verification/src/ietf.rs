//! IETF (RFC-9381 style) single-signer VRF: deterministic signing, strict
//! length-checked verification, and output-hash extraction.
//!
//! A serialized signature is the 32-byte compressed output point followed by
//! a 64-byte Schnorr proof (32-byte challenge, 32-byte response scalar).
//! Verification rejects, before any deserialization is attempted, a public
//! key that is not exactly 32 bytes or a signature that is not exactly
//! 96 bytes. Every decode failure on untrusted bytes folds into `false` for
//! verification and into an empty result for extraction.

use vstd::prelude::*;

use crate::keys::{
    input_maps, output_enc_of, point_hash_of, public_of_secret, secret_decodes,
};
use ark_vrf::ietf::{Prover as IetfProver, Verifier as IetfVerifier};
use ark_vrf::reexports::ark_serialize::{CanonicalDeserialize, CanonicalSerialize};
use ark_vrf::suites::bandersnatch;

verus! {

/// The 64-byte serialized Schnorr proof produced by the deterministic
/// prover for a serialized secret, raw input data and auxiliary data.
/// Meaningful where `secret_decodes` and `input_maps` hold.
pub uninterp spec fn ietf_proof_of(secret: Seq<u8>, data: Seq<u8>, aux: Seq<u8>) -> Seq<u8>;

/// The 96-byte serialized IETF VRF signature: the compressed output point
/// followed by the serialized proof.
pub open spec fn ietf_sig_of(secret: Seq<u8>, data: Seq<u8>, aux: Seq<u8>) -> Seq<u8> {
    output_enc_of(secret, data) + ietf_proof_of(secret, data, aux)
}

/// Whether a byte string deserializes to an IETF VRF signature: a compressed
/// output point from its first 32 bytes, then a challenge and a canonical
/// response scalar.
pub uninterp spec fn ietf_sig_decodes(sig: Seq<u8>) -> bool;

/// Whether the IETF verification pipeline accepts the quadruple: the public
/// key and the signature deserialize, the input data maps to a curve point,
/// and the proof equation holds for the recomputed challenge.
pub uninterp spec fn ietf_accepts(pk: Seq<u8>, data: Seq<u8>, aux: Seq<u8>, sig: Seq<u8>) -> bool;

/// Relies on `ark_vrf::Secret::deserialize_compressed`, `Input::new`
/// (Elligator2 hash-to-curve), `Secret::output` and the deterministic
/// `ietf::Prover::prove` (nonce derived from secret and input, no
/// randomness), serializing the output point and the proof separately.
/// The last two clauses are the crate's own round trip: the concatenation
/// that `prove` yields deserializes again, and the produced proof satisfies
/// the verifier for the secret's public key.
#[verifier::external_body]
fn ietf_prove_raw(secret: &[u8], data: &[u8], aux: &[u8]) -> (r: Option<(Vec<u8>, Vec<u8>)>)
    ensures
        r is Some <==> (secret_decodes(secret@) && input_maps(data@)),
        r matches Some(v) ==> {
            &&& v.0@ == output_enc_of(secret@, data@)
            &&& v.0@.len() == 32
            &&& v.1@ == ietf_proof_of(secret@, data@, aux@)
            &&& v.1@.len() == 64
            &&& ietf_sig_decodes(v.0@ + v.1@)
            &&& ietf_accepts(public_of_secret(secret@), data@, aux@, v.0@ + v.1@)
        },
{
    let s = bandersnatch::Secret::deserialize_compressed(secret).ok()?;
    let input = bandersnatch::Input::new(data)?;
    let out = s.output(input);
    let proof = s.prove(input, out, aux);
    let mut obuf = Vec::new();
    out.serialize_compressed(&mut obuf).unwrap();
    let mut pbuf = Vec::new();
    proof.serialize_compressed(&mut pbuf).unwrap();
    Some((obuf, pbuf))
}

/// Relies on the compressed deserialization of `Output`, `IetfProof` and
/// `Public`, `Input::new`, and `ietf::Verifier::verify`: the whole pipeline
/// is a function of the four byte strings, false on any decode failure and
/// on a failed proof equation. Reads the signature bytes as the prover
/// serializes them: output point first, proof second.
#[verifier::external_body]
fn ietf_verify_raw(pk: &[u8], data: &[u8], aux: &[u8], sig: &[u8]) -> (r: bool)
    ensures
        r == ietf_accepts(pk@, data@, aux@, sig@),
{
    let mut reader: &[u8] = sig;
    let out = match bandersnatch::Output::deserialize_compressed(&mut reader) { Ok(v) => v, _ => return false };
    let proof = match bandersnatch::IetfProof::deserialize_compressed(&mut reader) { Ok(v) => v, _ => return false };
    let public = match bandersnatch::Public::deserialize_compressed(pk) { Ok(v) => v, _ => return false };
    let input = match bandersnatch::Input::new(data) { Some(v) => v, _ => return false };
    public.verify(input, out, aux, &proof).is_ok()
}

/// Relies on the compressed deserialization of `Output` (the signature's
/// first 32 bytes) and `IetfProof`, and on `Output::hash` truncated to
/// 32 bytes. The whole signature must decode; the hash depends on the output
/// point alone.
#[verifier::external_body]
fn ietf_output_hash_raw(sig: &[u8]) -> (r: Option<Vec<u8>>)
    ensures
        r is Some <==> ietf_sig_decodes(sig@),
        r matches Some(v) ==> v@ == point_hash_of(sig@.subrange(0, 32)) && v@.len() == 32,
{
    let mut reader: &[u8] = sig;
    let out = bandersnatch::Output::deserialize_compressed(&mut reader).ok()?;
    bandersnatch::IetfProof::deserialize_compressed(&mut reader).ok()?;
    Some(out.hash()[..32].to_vec())
}

/// Relies on `ark_vrf::Secret::deserialize_compressed`, `Input::new`,
/// `Secret::output` and `Output::hash` truncated to 32 bytes: the hash of
/// the output point for this secret and input, which equals the hash of the
/// point decoded back from that output's canonical encoding.
#[verifier::external_body]
fn output_hash_from_secret_raw(secret: &[u8], data: &[u8]) -> (r: Option<Vec<u8>>)
    ensures
        r is Some <==> (secret_decodes(secret@) && input_maps(data@)),
        r matches Some(v) ==> v@ == point_hash_of(output_enc_of(secret@, data@)) && v@.len() == 32,
{
    let s = bandersnatch::Secret::deserialize_compressed(secret).ok()?;
    let input = bandersnatch::Input::new(data)?;
    Some(s.output(input).hash()[..32].to_vec())
}

/// Sign: produce the 96-byte IETF VRF signature binding the secret, the
/// input data and the auxiliary data, or an empty buffer if the secret does
/// not deserialize or the input does not map to a curve point.
///
/// On success the signature's first 32 bytes are the compressed VRF output
/// point, the whole signature deserializes again, and — the prove/verify
/// round trip — it is accepted by `ietf_vrf_verify` under the public key of
/// the same secret.
pub fn ietf_vrf_sign(secret: &[u8], vrf_input_data: &[u8], aux_data: &[u8]) -> (r: Vec<u8>)
    ensures
        secret_decodes(secret@) && input_maps(vrf_input_data@) ==> {
            &&& r@ == ietf_sig_of(secret@, vrf_input_data@, aux_data@)
            &&& r@.len() == 96
            &&& r@.subrange(0, 32) == output_enc_of(secret@, vrf_input_data@)
            &&& ietf_sig_decodes(r@)
            &&& ietf_accepts(public_of_secret(secret@), vrf_input_data@, aux_data@, r@)
        },
        !(secret_decodes(secret@) && input_maps(vrf_input_data@)) ==> r@.len() == 0,
{
    match ietf_prove_raw(secret, vrf_input_data, aux_data) {
        Some(parts) => {
            let (mut sig, mut proof_part) = parts;
            sig.append(&mut proof_part);
            proof {
                assert(sig@.subrange(0, 32) =~= output_enc_of(secret@, vrf_input_data@));
            }
            sig
        },
        None => Vec::new(),
    }
}

/// Verify: true exactly when the public key is 32 bytes, the signature is
/// 96 bytes, and the IETF verification pipeline accepts the quadruple.
///
/// A signature or key of any other length is rejected before any
/// deserialization is attempted; no input can make this function panic.
pub fn ietf_vrf_verify(
    public_key: &[u8],
    vrf_input_data: &[u8],
    aux_data: &[u8],
    signature: &[u8],
) -> (r: bool)
    ensures
        r == {
            &&& public_key@.len() == 32
            &&& signature@.len() == 96
            &&& ietf_accepts(public_key@, vrf_input_data@, aux_data@, signature@)
        },
        public_key@.len() != 32 ==> !r,
        signature@.len() != 96 ==> !r,
{
    if signature.len() != crate::IETF_SIGNATURE_LEN || public_key.len() != crate::POINT_LEN {
        return false;
    }
    ietf_verify_raw(public_key, vrf_input_data, aux_data, signature)
}

/// Extract the 32-byte output hash from a serialized signature, or an empty
/// buffer if the signature does not deserialize.
pub fn ietf_vrf_output_hash(signature: &[u8]) -> (r: Vec<u8>)
    ensures
        ietf_sig_decodes(signature@) ==> {
            &&& r@ == point_hash_of(signature@.subrange(0, 32))
            &&& r@.len() == 32
        },
        !ietf_sig_decodes(signature@) ==> r@.len() == 0,
{
    match ietf_output_hash_raw(signature) {
        Some(h) => h,
        None => Vec::new(),
    }
}

/// Compute the 32-byte output hash directly from a serialized secret and the
/// input data, without producing a signature, or an empty buffer if the
/// secret does not deserialize or the input does not map to a curve point.
pub fn ietf_vrf_output_hash_from_secret(secret: &[u8], vrf_input_data: &[u8]) -> (r: Vec<u8>)
    ensures
        secret_decodes(secret@) && input_maps(vrf_input_data@) ==> {
            &&& r@ == point_hash_of(output_enc_of(secret@, vrf_input_data@))
            &&& r@.len() == 32
        },
        !(secret_decodes(secret@) && input_maps(vrf_input_data@)) ==> r@.len() == 0,
{
    match output_hash_from_secret_raw(secret, vrf_input_data) {
        Some(h) => h,
        None => Vec::new(),
    }
}

/// Law: output-hash round trip. For a signature produced by the prover, the
/// hash extracted from the signature bytes — the hash of the point encoded in
/// its first 32 bytes — equals the output hash computed directly from the
/// secret and the input data, since those 32 bytes are exactly the output
/// point the prover serialized.
pub proof fn lemma_output_hash_round_trip(secret: Seq<u8>, data: Seq<u8>, aux: Seq<u8>, sig: Seq<u8>)
    requires
        secret_decodes(secret),
        input_maps(data),
        sig == ietf_sig_of(secret, data, aux),
        sig.subrange(0, 32) == output_enc_of(secret, data),
    ensures
        point_hash_of(sig.subrange(0, 32)) == point_hash_of(output_enc_of(secret, data)),
{
}

} // verus!
