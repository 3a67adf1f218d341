//! The hash, the generator and the text encoding behind viewing keys.
//!
//! None of the three is verified here. Each result is named, so that the
//! contracts around them can say which bytes went in and where the result
//! went.

use vstd::prelude::*;

verus! {

/// The SHA-256 digest of `data`.
pub uninterp spec fn sha_256_digest(data: Seq<u8>) -> Seq<u8>;

/// The first 32 bytes that the generator seeded with `seed` and `entropy` gives out.
pub uninterp spec fn prng_bytes(seed: Seq<u8>, entropy: Seq<u8>) -> Seq<u8>;

/// The base64 text of `data`, in the standard alphabet with padding.
pub uninterp spec fn base64_text(data: Seq<u8>) -> Seq<char>;

/// `secret_toolkit::crypto::sha_256`: the SHA-256 digest of `data`, which is
/// always 32 bytes long. That the bytes are the digest is taken on trust.
#[verifier::external_body]
pub(crate) fn sha_256(data: &[u8]) -> (digest: Vec<u8>)
    ensures
        digest@ == sha_256_digest(data@),
        digest@.len() == 32,
{
    secret_toolkit::crypto::sha_256(data).to_vec()
}

/// `secret_toolkit::crypto::Prng`: a ChaCha generator keyed with the digest of
/// `seed` followed by `entropy`, asked once for 32 bytes. The same inputs give
/// the same bytes; which bytes is taken on trust.
#[verifier::external_body]
pub(crate) fn prng_rand_bytes(seed: &[u8], entropy: &[u8]) -> (bytes: Vec<u8>)
    ensures
        bytes@ == prng_bytes(seed@, entropy@),
        bytes@.len() == 32,
{
    secret_toolkit::crypto::Prng::new(seed, entropy).rand_bytes().to_vec()
}

/// `base64::encode`: the base64 text of `data`. Which text is taken on trust.
#[verifier::external_body]
pub(crate) fn base64_encode(data: &[u8]) -> (text: String)
    ensures
        text@ == base64_text(data@),
{
    base64::encode(data)
}

} // verus!
