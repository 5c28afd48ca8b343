//! VRF key handling: derivation of the Bandersnatch secret scalar and its
//! public counterpart from a seed, and the byte-level model shared by the
//! IETF and ring VRF modes.
//!
//! Keys cross this interface only in serialized form: a secret is its 32-byte
//! little-endian scalar encoding, a public key its 32-byte compressed point
//! encoding. The cryptographic maps themselves live in the `ark-vrf` crate
//! and are named here by uninterpreted spec functions; what the library
//! states about them is exactly what that crate's sources show.

use vstd::prelude::*;

use ark_vrf::reexports::ark_serialize::CanonicalSerialize;
use ark_vrf::suites::bandersnatch;

verus! {

/// The 32-byte compressed public key derived from a seed: the seed is hashed
/// to a nonzero secret scalar and multiplied onto the fixed generator.
pub uninterp spec fn public_of_seed(seed: Seq<u8>) -> Seq<u8>;

/// The 32-byte serialized secret scalar derived from a seed.
pub uninterp spec fn secret_of_seed(seed: Seq<u8>) -> Seq<u8>;

/// Whether a byte string deserializes to a valid secret scalar
/// (a canonical 32-byte little-endian encoding comes first).
pub uninterp spec fn secret_decodes(secret: Seq<u8>) -> bool;

/// The 32-byte compressed public key of a serialized secret scalar.
/// Meaningful where `secret_decodes` holds.
pub uninterp spec fn public_of_secret(secret: Seq<u8>) -> Seq<u8>;

/// Whether hash-to-curve (Elligator2, RFC-9380) maps the given data to a
/// curve point. The map is total in practice; the underlying routine still
/// reports the degenerate case and callers fold it into their error result.
pub uninterp spec fn input_maps(data: Seq<u8>) -> bool;

/// The 32-byte compressed VRF output point for a serialized secret and raw
/// input data: the secret scalar times the hash-to-curve image of the data.
/// Meaningful where `secret_decodes` and `input_maps` hold.
pub uninterp spec fn output_enc_of(secret: Seq<u8>, data: Seq<u8>) -> Seq<u8>;

/// The 32-byte output hash of the curve point whose compressed encoding is
/// given: the suite's point-to-hash (SHA-512) truncated to 32 bytes.
/// Meaningful where the encoding decodes to a point.
pub uninterp spec fn point_hash_of(enc: Seq<u8>) -> Seq<u8>;

/// Relies on `ark_vrf::Secret::from_seed` (total for every seed length; hashes
/// the seed and reduces to a nonzero scalar), `Secret::public` and compressed
/// point serialization: 32 bytes, a function of the seed alone.
#[verifier::external_body]
fn public_from_seed(seed: &[u8]) -> (r: Vec<u8>)
    ensures
        r@ == public_of_seed(seed@),
        r@.len() == 32,
{
    let secret = bandersnatch::Secret::from_seed(seed);
    let mut buf = Vec::new();
    secret.public().serialize_compressed(&mut buf).unwrap();
    buf
}

/// Relies on `ark_vrf::Secret::from_seed` and scalar serialization: 32 bytes,
/// a function of the seed alone. The last two clauses are the serialization
/// round trip: a canonical scalar encoding deserializes back to the same
/// secret, whose cached public point is the one derived from the seed.
#[verifier::external_body]
fn secret_from_seed(seed: &[u8]) -> (r: Vec<u8>)
    ensures
        r@ == secret_of_seed(seed@),
        r@.len() == 32,
        secret_decodes(r@),
        public_of_secret(r@) == public_of_seed(seed@),
{
    let secret = bandersnatch::Secret::from_seed(seed);
    let mut buf = Vec::new();
    secret.serialize_compressed(&mut buf).unwrap();
    buf
}

/// Derive the 32-byte compressed public key for a seed.
///
/// Total: any seed length is accepted, and the result is a function of the
/// seed alone.
pub fn public_key(seed: &[u8]) -> (r: Vec<u8>)
    ensures
        r@ == public_of_seed(seed@),
        r@.len() == 32,
{
    public_from_seed(seed)
}

/// Derive the 32-byte serialized secret scalar for a seed.
///
/// The result always deserializes back to a valid secret, and its public
/// counterpart is exactly `public_key` of the same seed.
pub fn secret_key(seed: &[u8]) -> (r: Vec<u8>)
    ensures
        r@ == secret_of_seed(seed@),
        r@.len() == 32,
        secret_decodes(r@),
        public_of_secret(r@) == public_of_seed(seed@),
{
    secret_from_seed(seed)
}

/// Law: key derivation is deterministic. Any two public keys derived from
/// the same seed are equal, and likewise any two derived secrets; repeated
/// calls of `public_key` and `secret_key` can never disagree.
pub proof fn lemma_key_derivation_deterministic(
    seed: Seq<u8>,
    pk1: Seq<u8>,
    pk2: Seq<u8>,
    sk1: Seq<u8>,
    sk2: Seq<u8>,
)
    requires
        pk1 == public_of_seed(seed),
        pk2 == public_of_seed(seed),
        sk1 == secret_of_seed(seed),
        sk2 == secret_of_seed(seed),
    ensures
        pk1 == pk2,
        sk1 == sk2,
{
}

} // verus!
