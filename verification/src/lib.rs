//! Bandersnatch VRF primitives — an IETF (RFC-9381 style) single-signer mode
//! and an anonymous ring mode with a succinct ring-membership commitment —
//! together with a plain Ed25519 signature scheme.
//!
//! All public operations work on byte encodings: compressed curve points and
//! scalars are 32 bytes, an IETF VRF signature is 96 bytes (output point
//! followed by the proof), and verification-class operations fold every
//! decode failure into `false` or an empty result instead of panicking.
//! The ring proof system runs over a structured reference string that the
//! caller supplies in serialized form and loads once per ring size; see the
//! `ring` module.

use vstd::prelude::*;

pub mod eddsa;
pub mod ietf;
pub mod keys;
pub mod ring;

verus! {

/// Length in bytes of a compressed curve point, of a serialized secret
/// scalar, of an Ed25519 key, and of a VRF output hash.
pub const POINT_LEN: usize = 32;

/// Length in bytes of a serialized IETF VRF signature: a compressed output
/// point followed by a 32-byte challenge and a 32-byte response scalar.
pub const IETF_SIGNATURE_LEN: usize = 96;

} // verus!
