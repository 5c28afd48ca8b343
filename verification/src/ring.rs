//! Anonymous ring VRF: the ring-membership commitment (the "ring root"),
//! ring signing, ring verification, and output-hash extraction.
//!
//! A ring is passed as a buffer of concatenated 32-byte compressed public
//! keys. A buffer whose length is not a multiple of 32 is rejected outright;
//! a chunk that does not decode to a valid public key is replaced by the
//! suite's fixed padding point, so ring construction is total over the
//! remaining buffers. The commitment binds the full ordered chunk sequence,
//! padding substitutions included.
//!
//! The ring proof system runs over a structured reference string that the
//! caller supplies: [`ring_proof_params`] takes the serialized KZG powers
//! (uncompressed, unvalidated — the blob is trusted configuration, not wire
//! input) and a ring size, and yields a [`RingParams`] handle that every
//! ring operation borrows. Loading is cheap and the handle is immutable, so
//! callers build one per ring size and share it. Two parties agree on
//! commitments and signatures exactly when they load the same reference
//! string; a blob too small for the requested ring size is reported, not
//! panicked on.

use vstd::prelude::*;

use crate::keys::{input_maps, output_enc_of, point_hash_of, public_of_secret, secret_decodes};
use ark_vrf::reexports::ark_serialize::{CanonicalDeserialize, CanonicalSerialize};
use ark_vrf::ring::{Prover as RingModeProver, RingCommitment, Verifier as RingModeVerifier};
use ark_vrf::suites::bandersnatch;
use vstd::slice::slice_subrange;

verus! {

/// Length in bytes of a serialized ring commitment: three compressed
/// BLS12-381 G1 points of 48 bytes each.
pub const RING_COMMITMENT_LEN: usize = 144;

/// Why `ring_root` rejected its input.
#[derive(Clone, Copy, Debug, PartialEq, Eq, Structural)]
pub enum RingError {
    /// The ring buffer's length is not a multiple of 32.
    InvalidRingEncoding,
    /// The parameter handle is not loaded for exactly this member count, or
    /// its reference string did not deserialize or is too small for it.
    UnsupportedRingSize,
}

/// The ordered sequence of 32-byte chunks of a buffer whose length is a
/// multiple of 32.
pub open spec fn chunk_seq(s: Seq<u8>) -> Seq<Seq<u8>> {
    Seq::new(s.len() / 32, |i: int| s.subrange(32 * i, 32 * i + 32))
}

/// Whether the serialized reference string deserializes to KZG powers that
/// suffice for a ring of `ring_size` members (the proof system's evaluation
/// domain for that size, with its reserved rows, must fit the powers).
pub uninterp spec fn ring_params_ok(srs: Seq<u8>, ring_size: nat) -> bool;

/// The 144-byte serialized ring commitment, under the parameters derived
/// from the given reference string, for an ordered sequence of 32-byte
/// chunks: each chunk is decoded to a public key or replaced by the fixed
/// padding point, and the resulting column polynomials are committed.
/// Meaningful where `ring_params_ok(srs, chunks.len())` holds.
pub uninterp spec fn ring_root_of(srs: Seq<u8>, chunks: Seq<Seq<u8>>) -> Seq<u8>;

/// Whether a byte string deserializes to a ring VRF signature: a compressed
/// output point from its first 32 bytes, then the Pedersen proof and the
/// ring-membership proof.
pub uninterp spec fn ring_sig_decodes(sig: Seq<u8>) -> bool;

/// Whether the ring verification pipeline, under the parameters derived
/// from the given reference string for `ring_size` members, accepts the
/// tuple: the parameters load, the signature and the 144-byte commitment
/// deserialize, the input data maps to a curve point, and both the Pedersen
/// proof and the ring-membership proof check out against the verifier key
/// rebuilt from the commitment.
pub uninterp spec fn ring_accepts(
    srs: Seq<u8>,
    sig: Seq<u8>,
    data: Seq<u8>,
    aux: Seq<u8>,
    commitment: Seq<u8>,
    ring_size: nat,
) -> bool;

/// Opaque holder of the deserialized proof-system parameters. Declaring the
/// underlying generic outside type to the verifier is refused (its trait
/// bound cannot be declared), so the parameters are carried behind this
/// opaque struct and only the trusted ring functions look inside.
#[verifier::external_body]
struct ParamsHolder {
    params: Option<bandersnatch::RingProofParams>,
}

/// Ring proof parameters loaded for one ring size: the deserialized
/// KZG/PIOP parameters beside the exact reference-string bytes and size
/// they were loaded from. Only [`ring_proof_params`] constructs values of
/// this type, which is what ties the fields together.
pub struct RingParams {
    holder: ParamsHolder,
    srs: Vec<u8>,
    size: usize,
    ok: bool,
}

impl RingParams {
    /// The serialized reference string this handle was loaded from.
    pub closed spec fn srs_view(self) -> Seq<u8> {
        self.srs@
    }

    /// The ring size this handle was loaded for.
    pub closed spec fn size_view(self) -> nat {
        self.size as nat
    }

    /// Whether the reference string deserialized and suffices for the size.
    pub closed spec fn params_ok(self) -> bool {
        self.ok
    }

    /// Whether the parameters loaded successfully: exactly
    /// `ring_params_ok` of the reference string and size.
    pub fn is_loaded(&self) -> (b: bool)
        ensures
            b == self.params_ok(),
    {
        self.ok
    }
}

/// Relies on `PcsParams::deserialize_uncompressed_unchecked` (structural
/// read of the KZG powers, no point validation — the blob is trusted
/// configuration) and `RingProofParams::from_pcs_params`, which errors when
/// the powers cannot cover the ring size's evaluation domain and otherwise
/// truncates them and derives the PIOP parameters. Deterministic in the
/// bytes and the size; no panic on malformed or insufficient input.
#[verifier::external_body]
fn load_params_raw(srs: &[u8], ring_size: usize) -> (p: RingParams)
    ensures
        p.srs_view() == srs@,
        p.size_view() == ring_size as nat,
        p.params_ok() == ring_params_ok(srs@, ring_size as nat),
{
    let pcs = bandersnatch::PcsParams::deserialize_uncompressed_unchecked(srs).ok();
    let params = match pcs {
        Some(p) => bandersnatch::RingProofParams::from_pcs_params(ring_size, p).ok(),
        None => None,
    };
    let ok = params.is_some();
    RingParams { holder: ParamsHolder { params }, srs: srs.to_vec(), size: ring_size, ok }
}

/// Load the ring proof parameters for a given reference string and ring
/// size.
///
/// The handle records the bytes and size it was loaded from;
/// [`RingParams::is_loaded`] tells whether they sufficed. Loading is
/// deterministic, so two parties that load the same reference string agree
/// on every commitment and verification below.
pub fn ring_proof_params(srs: &[u8], ring_size: u32) -> (p: RingParams)
    ensures
        p.srs_view() == srs@,
        p.size_view() == ring_size as nat,
        p.params_ok() == ring_params_ok(srs@, ring_size as nat),
{
    load_params_raw(srs, ring_size as usize)
}

/// Opaque holder of one decoded member key. Declaring the underlying
/// generic curve-point type to the verifier is refused (its trait bound
/// cannot be declared), so the point is carried behind this opaque struct
/// and only the trusted ring functions look inside.
#[verifier::external_body]
struct MemberPoint {
    point: bandersnatch::Public,
}

/// A ring member as the commitment builder consumes it: the decoded public
/// key (or the padding point) beside the exact 32-byte chunk it came from.
/// Only [`ring_point_of_chunk`] constructs values of this type, which is
/// what ties the two fields together.
pub struct RingPoint {
    point: MemberPoint,
    chunk: Vec<u8>,
}

impl RingPoint {
    /// The 32-byte chunk this ring member was built from.
    pub closed spec fn chunk_view(self) -> Seq<u8> {
        self.chunk@
    }
}

/// Relies on `ark_vrf::Public::deserialize_compressed` and
/// `RingProofParams::padding_point`: a chunk that does not decode to a valid
/// public key is replaced by the suite's fixed padding point. Total for
/// 32-byte chunks.
#[verifier::external_body]
fn ring_point_of_chunk(c: &[u8]) -> (p: RingPoint)
    requires
        c@.len() == 32,
    ensures
        p.chunk_view() == c@,
{
    let point = match bandersnatch::Public::deserialize_compressed(c) {
        Ok(pk) => pk,
        Err(_) => bandersnatch::Public::from(bandersnatch::RingProofParams::padding_point()),
    };
    RingPoint { point: MemberPoint { point }, chunk: c.to_vec() }
}

/// Relies on `RingProofParams::verifier_key` over the members' points and
/// the commitment's compressed serialization: 144 bytes, a function of the
/// reference string and the ordered chunk sequence alone, since each
/// member's point is determined by its chunk and the parameters by the
/// bytes they were loaded from. The parameters cover exactly this member
/// count, so no member is dropped.
#[verifier::external_body]
fn commitment_of_points(p: &RingParams, pts: &Vec<RingPoint>) -> (r: Option<Vec<u8>>)
    requires
        pts@.len() == p.size_view(),
    ensures
        r is Some <==> p.params_ok(),
        r matches Some(v) ==> {
            &&& v@ == ring_root_of(p.srs_view(), pts@.map_values(|q: RingPoint| q.chunk_view()))
            &&& v@.len() == RING_COMMITMENT_LEN
        },
{
    let params = match &p.holder.params { Some(v) => v, _ => return None };
    let points: Vec<_> = pts.iter().map(|x| x.point.point.0).collect();
    let verifier_key = params.verifier_key(&points);
    let mut buf = Vec::new();
    verifier_key.commitment().serialize_compressed(&mut buf).unwrap();
    Some(buf)
}

/// Relies on the compressed deserialization of `Output`, `RingProof` and the
/// ring commitment, `Input::new`, `verifier_key_from_commitment` and
/// `ring::Verifier::verify`: the whole pipeline is a function of the
/// reference string, the byte strings and the ring size, false on unloaded
/// parameters, on any decode failure and on a failed proof.
#[verifier::external_body]
fn ring_verify_raw(p: &RingParams, sig: &[u8], data: &[u8], aux: &[u8], commitment: &[u8]) -> (r:
    bool)
    ensures
        r == ring_accepts(p.srs_view(), sig@, data@, aux@, commitment@, p.size_view()),
{
    let params = match &p.holder.params { Some(v) => v, _ => return false };
    let mut reader: &[u8] = sig;
    let out = match bandersnatch::Output::deserialize_compressed(&mut reader) { Ok(v) => v, _ => return false };
    let proof = match bandersnatch::RingProof::deserialize_compressed(&mut reader) { Ok(v) => v, _ => return false };
    let input = match bandersnatch::Input::new(data) { Some(v) => v, _ => return false };
    let comm = match RingCommitment::<bandersnatch::BandersnatchSha512Ell2>::deserialize_compressed(commitment) { Ok(v) => v, _ => return false };
    let verifier = params.verifier(params.verifier_key_from_commitment(comm));
    bandersnatch::Public::verify(input, out, aux, &proof, &verifier).is_ok()
}

/// Relies on the compressed deserialization of `Output` (the signature's
/// first 32 bytes) and `RingProof`, and on `Output::hash` truncated to
/// 32 bytes. The whole signature must decode; the hash depends on the
/// output point alone.
#[verifier::external_body]
fn ring_output_hash_raw(sig: &[u8]) -> (r: Option<Vec<u8>>)
    ensures
        r is Some <==> ring_sig_decodes(sig@),
        r matches Some(v) ==> v@ == point_hash_of(sig@.subrange(0, 32)) && v@.len() == 32,
{
    let mut reader: &[u8] = sig;
    let out = bandersnatch::Output::deserialize_compressed(&mut reader).ok()?;
    bandersnatch::RingProof::deserialize_compressed(&mut reader).ok()?;
    Some(out.hash()[..32].to_vec())
}

/// Relies on `Secret::deserialize_compressed`, `Input::new`,
/// `Secret::output`, `prover_key`, `prover` and `ring::Prover::prove`,
/// serializing the output point and the proof separately. The clauses state
/// what holds of every produced pair: the first part is the compressed
/// output point for this secret and input, the concatenation deserializes
/// again, and — completeness of the ring scheme — whenever the member at
/// `index` is the canonical encoding of this secret's public key, the
/// concatenation is accepted against the commitment of the same ring under
/// the same parameters.
#[verifier::external_body]
fn ring_prove_raw(
    p: &RingParams,
    secret: &[u8],
    data: &[u8],
    aux: &[u8],
    pts: &Vec<RingPoint>,
    index: usize,
) -> (r: Option<(Vec<u8>, Vec<u8>)>)
    requires
        pts@.len() == p.size_view(),
        index < pts@.len(),
    ensures
        r is Some <==> (secret_decodes(secret@) && input_maps(data@) && p.params_ok()),
        r matches Some(v) ==> {
            &&& v.0@ == output_enc_of(secret@, data@)
            &&& v.0@.len() == 32
            &&& ring_sig_decodes(v.0@ + v.1@)
            &&& (pts@[index as int].chunk_view() == public_of_secret(secret@) ==> ring_accepts(
                p.srs_view(),
                v.0@ + v.1@,
                data@,
                aux@,
                ring_root_of(p.srs_view(), pts@.map_values(|q: RingPoint| q.chunk_view())),
                pts@.len(),
            ))
        },
{
    let params = match &p.holder.params { Some(v) => v, _ => return None };
    let s = bandersnatch::Secret::deserialize_compressed(secret).ok()?;
    let input = bandersnatch::Input::new(data)?;
    let out = s.output(input);
    let points: Vec<_> = pts.iter().map(|x| x.point.point.0).collect();
    let proof = s.prove(input, out, aux, &params.prover(params.prover_key(&points), index));
    let (mut obuf, mut pbuf) = (Vec::new(), Vec::new());
    out.serialize_compressed(&mut obuf).unwrap();
    proof.serialize_compressed(&mut pbuf).unwrap();
    Some((obuf, pbuf))
}

/// Decode a validated ring buffer into its members, chunk by chunk.
fn ring_points_of(ring: &[u8]) -> (pts: Vec<RingPoint>)
    requires
        ring@.len() % 32 == 0,
    ensures
        pts@.len() == ring@.len() / 32,
        pts@.map_values(|p: RingPoint| p.chunk_view()) =~= chunk_seq(ring@),
{
    let n: usize = ring.len() / 32;
    assert(32 * (n as int) == ring@.len()) by {
        vstd::arithmetic::div_mod::lemma_fundamental_div_mod(ring@.len() as int, 32);
    }
    let mut pts: Vec<RingPoint> = Vec::new();
    let mut i: usize = 0;
    while i < n
        invariant
            n == ring@.len() / 32,
            32 * (n as int) == ring@.len(),
            ring@.len() <= usize::MAX,
            i <= n,
            pts@.len() == i,
            forall|j: int|
                0 <= j < i ==> pts@[j].chunk_view() == ring@.subrange(32 * j, 32 * j + 32),
        decreases n - i,
    {
        assert(32 * (i as int) + 32 <= ring@.len());
        let chunk = slice_subrange(ring, 32 * i, 32 * i + 32);
        let p = ring_point_of_chunk(chunk);
        pts.push(p);
        i += 1;
    }
    assert forall|j: int| 0 <= j < n implies pts@.map_values(|p: RingPoint| p.chunk_view())[j]
        == chunk_seq(ring@)[j] by {
        assert(pts@[j].chunk_view() == ring@.subrange(32 * j, 32 * j + 32));
    }
    pts
}

/// Build the ring-membership commitment (the "ring root") for a buffer of
/// concatenated 32-byte compressed public keys, under loaded parameters.
///
/// A buffer whose length is not a multiple of 32 is rejected with
/// [`RingError::InvalidRingEncoding`] before any chunk is read. The
/// parameters must have been loaded for exactly this member count and have
/// loaded successfully; otherwise [`RingError::UnsupportedRingSize`].
/// Otherwise the result is the 144-byte serialized commitment, a function
/// of the reference string and the ordered chunk sequence alone — chunks
/// that decode to no valid public key contribute the fixed padding point at
/// their position.
pub fn ring_root(params: &RingParams, ring: &[u8]) -> (r: Result<Vec<u8>, RingError>)
    ensures
        ring@.len() % 32 != 0 ==> r == Err::<Vec<u8>, RingError>(RingError::InvalidRingEncoding),
        ring@.len() % 32 == 0 && (ring@.len() / 32 != params.size_view() || !params.params_ok())
            ==> r == Err::<Vec<u8>, RingError>(RingError::UnsupportedRingSize),
        ring@.len() % 32 == 0 && ring@.len() / 32 == params.size_view() && params.params_ok()
            ==> (r matches Ok(v) && {
            &&& v@ == ring_root_of(params.srs_view(), chunk_seq(ring@))
            &&& v@.len() == RING_COMMITMENT_LEN
        }),
{
    if ring.len() % 32 != 0 {
        return Err(RingError::InvalidRingEncoding);
    }
    if ring.len() / 32 != params.size || !params.ok {
        return Err(RingError::UnsupportedRingSize);
    }
    let pts = ring_points_of(ring);
    match commitment_of_points(params, &pts) {
        Some(v) => Ok(v),
        None => Err(RingError::UnsupportedRingSize),
    }
}

/// Verify a ring VRF signature against a ring commitment, under loaded
/// parameters.
///
/// True exactly when the ring verification pipeline accepts the tuple;
/// false on unloaded parameters and on any malformed input, never
/// panicking on attacker-controlled bytes.
pub fn ring_vrf_verify(
    params: &RingParams,
    signature: &[u8],
    vrf_input_data: &[u8],
    aux_data: &[u8],
    commitment: &[u8],
) -> (r: bool)
    ensures
        r == ring_accepts(
            params.srs_view(),
            signature@,
            vrf_input_data@,
            aux_data@,
            commitment@,
            params.size_view(),
        ),
{
    ring_verify_raw(params, signature, vrf_input_data, aux_data, commitment)
}

/// Extract the 32-byte output hash from a serialized ring VRF signature, or
/// an empty buffer if the signature does not deserialize.
pub fn ring_vrf_output_hash(signature: &[u8]) -> (r: Vec<u8>)
    ensures
        ring_sig_decodes(signature@) ==> {
            &&& r@ == point_hash_of(signature@.subrange(0, 32))
            &&& r@.len() == 32
        },
        !ring_sig_decodes(signature@) ==> r@.len() == 0,
{
    match ring_output_hash_raw(signature) {
        Some(h) => h,
        None => Vec::new(),
    }
}

/// Sign in ring mode: produce a ring VRF signature for the member at
/// `prover_index` of the given ring, binding the secret, the input data and
/// the auxiliary data, or an empty buffer on any rejected input.
///
/// The ring buffer is validated exactly as in [`ring_root`]; an empty
/// buffer is returned when it is rejected, when `prover_index` is out of
/// range, when the parameters are not loaded for exactly this member count,
/// and when the secret does not deserialize or the input does not map to a
/// curve point. On success the signature's first 32 bytes are the
/// compressed VRF output point, the signature deserializes again, and —
/// whenever the ring's chunk at `prover_index` is the canonical encoding of
/// this secret's public key — it is accepted by [`ring_vrf_verify`] against
/// [`ring_root`] of the same ring under the same parameters.
pub fn ring_vrf_sign(
    params: &RingParams,
    secret: &[u8],
    vrf_input_data: &[u8],
    aux_data: &[u8],
    ring: &[u8],
    prover_index: u32,
) -> (r: Vec<u8>)
    ensures
        ring@.len() % 32 != 0 ==> r@.len() == 0,
        prover_index >= ring@.len() / 32 ==> r@.len() == 0,
        ring@.len() / 32 != params.size_view() ==> r@.len() == 0,
        !(secret_decodes(secret@) && input_maps(vrf_input_data@) && params.params_ok())
            ==> r@.len() == 0,
        (ring@.len() % 32 == 0 && prover_index < ring@.len() / 32 && ring@.len() / 32
            == params.size_view() && secret_decodes(secret@) && input_maps(vrf_input_data@)
            && params.params_ok()) ==> {
            &&& r@.len() >= 32
            &&& r@.subrange(0, 32) == output_enc_of(secret@, vrf_input_data@)
            &&& ring_sig_decodes(r@)
            &&& (chunk_seq(ring@)[prover_index as int] == public_of_secret(secret@)
                ==> ring_accepts(
                params.srs_view(),
                r@,
                vrf_input_data@,
                aux_data@,
                ring_root_of(params.srs_view(), chunk_seq(ring@)),
                ring@.len() / 32,
            ))
        },
{
    if ring.len() % 32 != 0 || ring.len() / 32 != params.size {
        return Vec::new();
    }
    let n: usize = ring.len() / 32;
    if prover_index as usize >= n {
        return Vec::new();
    }
    let pts = ring_points_of(ring);
    match ring_prove_raw(params, secret, vrf_input_data, aux_data, &pts, prover_index as usize) {
        Some(parts) => {
            let (mut sig, mut proof_part) = parts;
            sig.append(&mut proof_part);
            proof {
                assert(sig@.subrange(0, 32) =~= output_enc_of(secret@, vrf_input_data@));
            }
            sig
        },
        None => Vec::new(),
    }
}

/// Law: the ring root is a function of the reference string and the ring
/// bytes alone. Any two commitments built under the same reference string
/// from rings with the same chunk sequence — in particular, from the very
/// same buffer — are equal, whether or not some chunks decode only to the
/// padding point.
pub proof fn lemma_ring_root_deterministic(
    srs: Seq<u8>,
    ring1: Seq<u8>,
    ring2: Seq<u8>,
    r1: Seq<u8>,
    r2: Seq<u8>,
)
    requires
        chunk_seq(ring1) == chunk_seq(ring2),
        r1 == ring_root_of(srs, chunk_seq(ring1)),
        r2 == ring_root_of(srs, chunk_seq(ring2)),
    ensures
        r1 == r2,
{
}

} // verus!
