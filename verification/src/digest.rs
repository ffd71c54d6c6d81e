use crypto::digest::Digest;
use crypto::sha2::Sha256;
use vstd::prelude::*;

verus! {

/// Width of a transaction digest, in bytes.
pub const DIGEST_LEN: usize = 32;

/// The SHA-256 digest of a byte string.
pub uninterp spec fn sha256_digest(bytes: Seq<u8>) -> Seq<u8>;

/// `Sha256::new`, `input` and `result` of the hash crate: the digest of
/// the bytes, which has 32 bytes.
#[verifier::external_body]
pub(crate) fn sha256_of(bytes: &[u8]) -> (digest: Vec<u8>)
    ensures
        digest@ == sha256_digest(bytes@),
        digest@.len() == DIGEST_LEN,
{
    let mut hasher = Sha256::new();
    hasher.input(bytes);
    let mut digest = vec![0u8; 32];
    hasher.result(&mut digest);
    digest
}

} // verus!
