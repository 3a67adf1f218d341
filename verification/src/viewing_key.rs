//! Viewing keys: the secret an account presents to read its own position.
//!
//! Only the digest of a key is ever stored. A key is checked by hashing it and
//! comparing the two digests byte by byte, without stopping at the first
//! difference.

use crate::constants::VIEWING_KEY_SIZE;
use crate::crypto::{
    base64_encode, base64_text, prng_bytes, prng_rand_bytes, sha_256, sha_256_digest,
};
use crate::host::Env;
use vstd::prelude::*;
use vstd::string::StringExecFns;
use vstd::utf8::encode_utf8;

verus! {

/// A viewing key, in the clear.
#[derive(Debug, Clone, PartialEq, Eq)]
pub struct ViewingKey(pub String);

/// The digest under which a key is stored.
pub open spec fn key_hash(key: Seq<char>) -> Seq<u8> {
    sha_256_digest(encode_utf8(key))
}

/// The eight bytes of `x`, most significant first.
pub open spec fn be_bytes(x: u64) -> Seq<u8> {
    seq![
        (x >> 56) as u8,
        (x >> 48) as u8,
        (x >> 40) as u8,
        (x >> 32) as u8,
        (x >> 24) as u8,
        (x >> 16) as u8,
        (x >> 8) as u8,
        x as u8,
    ]
}

/// What is mixed into the generator besides the seed: the block's height and
/// time, the sender, and what the sender supplied.
pub open spec fn key_entropy(env: Env, entropy: Seq<u8>) -> Seq<u8> {
    be_bytes(env.height) + be_bytes(env.time) + encode_utf8(env.sender@) + entropy
}

/// The key derived for a sender: a fixed prefix and the base64 text of the
/// digest of what the generator gave out.
pub open spec fn derived_key(env: Env, seed: Seq<u8>, entropy: Seq<u8>) -> Seq<char> {
    "api_key_"@ + base64_text(sha_256_digest(prng_bytes(seed, key_entropy(env, entropy))))
}

/// A digest of zeros, against which a key is checked where none is stored.
pub fn blank_hash() -> (hash: Vec<u8>)
    ensures
        hash@ == Seq::new(VIEWING_KEY_SIZE as nat, |i: int| 0u8),
{
    let mut hash: Vec<u8> = Vec::new();
    let mut i: usize = 0;
    while i < VIEWING_KEY_SIZE
        invariant
            i <= VIEWING_KEY_SIZE,
            hash@ == Seq::new(i as nat, |j: int| 0u8),
        decreases VIEWING_KEY_SIZE - i,
    {
        hash.push(0u8);
        i += 1;
        assert(hash@ =~= Seq::new(i as nat, |j: int| 0u8));
    }
    hash
}

/// Whether two byte strings are equal. Strings of one length are compared in
/// full, whatever they hold.
pub fn ct_slice_compare(a: &[u8], b: &[u8]) -> (same: bool)
    ensures
        same == (a@ == b@),
{
    if a.len() != b.len() {
        return false;
    }
    let mut diff: u8 = 0;
    let mut i: usize = 0;
    assert(a@.subrange(0, 0) =~= b@.subrange(0, 0));
    while i < a.len()
        invariant
            a@.len() == b@.len(),
            i <= a@.len(),
            (diff == 0) == (a@.subrange(0, i as int) == b@.subrange(0, i as int)),
        decreases a.len() - i,
    {
        let x: u8 = a[i];
        let y: u8 = b[i];
        let ghost before = diff;
        diff = diff | (x ^ y);
        assert((diff == 0) == (before == 0 && x == y)) by (bit_vector)
            requires
                diff == before | (x ^ y),
        ;
        proof {
            let pa = a@.subrange(0, i as int);
            let pb = b@.subrange(0, i as int);
            let qa = a@.subrange(0, i + 1);
            let qb = b@.subrange(0, i + 1);
            if pa == pb && x == y {
                assert(qa =~= qb) by {
                    assert forall|j: int| 0 <= j < i + 1 implies qa[j] == qb[j] by {
                        if j < i {
                            assert(qa[j] == pa[j]);
                            assert(qb[j] == pb[j]);
                        }
                    }
                }
            }
            if qa == qb {
                assert(x == y) by {
                    assert(qa[i as int] == qb[i as int]);
                }
                assert(pa =~= pb) by {
                    assert forall|j: int| 0 <= j < i implies pa[j] == pb[j] by {
                        assert(qa[j] == qb[j]);
                    }
                }
            }
        }
        i += 1;
    }
    assert(a@.subrange(0, i as int) =~= a@);
    assert(b@.subrange(0, i as int) =~= b@);
    diff == 0
}

/// Appends the eight bytes of `x`, most significant first.
fn push_be_bytes(out: &mut Vec<u8>, x: u64)
    ensures
        final(out)@ == old(out)@ + be_bytes(x),
{
    out.push(#[verifier::truncate] ((x >> 56) as u8));
    out.push(#[verifier::truncate] ((x >> 48) as u8));
    out.push(#[verifier::truncate] ((x >> 40) as u8));
    out.push(#[verifier::truncate] ((x >> 32) as u8));
    out.push(#[verifier::truncate] ((x >> 24) as u8));
    out.push(#[verifier::truncate] ((x >> 16) as u8));
    out.push(#[verifier::truncate] ((x >> 8) as u8));
    out.push(#[verifier::truncate] (x as u8));
    assert(out@ =~= old(out)@ + be_bytes(x));
}

/// Appends `bytes`.
fn push_bytes(out: &mut Vec<u8>, bytes: &[u8])
    ensures
        final(out)@ == old(out)@ + bytes@,
{
    let mut i: usize = 0;
    while i < bytes.len()
        invariant
            i <= bytes@.len(),
            out@ == old(out)@ + bytes@.subrange(0, i as int),
        decreases bytes.len() - i,
    {
        out.push(bytes[i]);
        i += 1;
        assert(out@ =~= old(out)@ + bytes@.subrange(0, i as int));
    }
    assert(bytes@.subrange(0, i as int) =~= bytes@);
}

impl ViewingKey {
    /// Derives a key for the sender of `env` from the contract's seed and
    /// from what the sender supplied.
    pub fn new(env: &Env, seed: &[u8], entropy: &[u8]) -> (key: ViewingKey)
        ensures
            key.0@ == derived_key(*env, seed@, entropy@),
    {
        let mut mixed: Vec<u8> = Vec::new();
        push_be_bytes(&mut mixed, env.height);
        push_be_bytes(&mut mixed, env.time);
        push_bytes(&mut mixed, env.sender.as_str().as_bytes());
        push_bytes(&mut mixed, entropy);
        assert(mixed@ =~= key_entropy(*env, entropy@));
        let rand = prng_rand_bytes(seed, mixed.as_slice());
        let digest = sha_256(rand.as_slice());
        let text = base64_encode(digest.as_slice());
        ViewingKey(String::from_str("api_key_").concat(text.as_str()))
    }

    /// The digest under which this key is stored.
    pub fn to_hashed(&self) -> (hash: Vec<u8>)
        ensures
            hash@ == key_hash(self.0@),
            hash@.len() == VIEWING_KEY_SIZE,
    {
        sha_256(self.0.as_str().as_bytes())
    }

    /// Whether `hashed_pw` is the digest of this key.
    pub fn check_viewing_key(&self, hashed_pw: &[u8]) -> (matches: bool)
        ensures
            matches == (key_hash(self.0@) == hashed_pw@),
    {
        let mine = self.to_hashed();
        ct_slice_compare(mine.as_slice(), hashed_pw)
    }
}

} // verus!
