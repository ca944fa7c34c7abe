//! The cryptographic edge of the signer: the truncated blake3 digest and the
//! Ed25519 signature, each reached through a trusted wrapper around the
//! outside implementation.

use vstd::prelude::*;
use ed25519_dalek::Signer;

verus! {

/// Declares `ed25519_dalek::SigningKey` so that an opaque signing key can be
/// passed through this library's signatures.
#[verifier::external_type_specification]
#[verifier::external_body]
pub struct ExSigningKey(ed25519_dalek::SigningKey);

/// The 20-byte truncation of the blake3 extended output of `data`. The
/// digest is a function of the input bytes alone; its pages-long definition
/// lives in the blake3 implementation, so only its name is stated here.
pub uninterp spec fn blake3_20(data: Seq<u8>) -> Seq<u8>;

/// Whether Ed25519 verification accepts signature bytes `sig` over message
/// `msg` under public-key bytes `pk`. A function of the three byte strings
/// alone.
pub uninterp spec fn ed25519_verifies(pk: Seq<u8>, msg: Seq<u8>, sig: Seq<u8>) -> bool;

/// Relies on `blake3::Hasher`: `update` absorbs the input, `finalize_xof`
/// opens the extended-output stream, and `OutputReader::fill` takes its first
/// 20 bytes. The stream is a deterministic function of the input alone.
#[verifier::external_body]
pub(crate) fn blake3_hash_20(data: &Vec<u8>) -> (r: Vec<u8>)
    ensures
        r@ == blake3_20(data@),
        r@.len() == 20,
{
    let mut hasher = blake3::Hasher::new();
    hasher.update(data.as_slice());
    let mut out = [0u8; 20];
    hasher.finalize_xof().fill(&mut out);
    out.to_vec()
}

/// Relies on `ed25519_dalek::SigningKey`: `Signer::sign` produces the
/// deterministic 64-byte Ed25519 signature of the message under the key, and
/// `verifying_key` the matching 32-byte public key, under which that
/// signature verifies (`VerifyingKey::verify` accepts what `sign` of the
/// same key and message produced).
#[verifier::external_body]
pub(crate) fn sign_digest(key: &ed25519_dalek::SigningKey, msg: &Vec<u8>) -> (r: (Vec<u8>, Vec<u8>))
    ensures
        r.0@.len() == 64,
        r.1@.len() == 32,
        ed25519_verifies(r.1@, msg@, r.0@),
{
    let signature = key.sign(msg.as_slice());
    let public_key = key.verifying_key();
    (signature.to_vec(), public_key.as_bytes().to_vec())
}

} // verus!
