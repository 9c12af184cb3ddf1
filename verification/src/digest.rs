//! Digests of byte strings, and their hexadecimal text.
//!
//! The digest algorithms themselves are not written here: each is computed
//! by the crate that implements it, and stands in contracts under a name.

use vstd::prelude::*;
use sha2::Digest;
use crate::algorithm::ChecksumType;
use crate::hex::{hex_encode, hex_lower, is_lower_hex, lemma_hex_lower_shape};

verus! {

/// The MD5 digest of `data`, as the `md5` crate computes it.
pub uninterp spec fn md5_digest(data: Seq<u8>) -> Seq<u8>;

/// The SHA-1 digest of `data`, as the `sha1` crate computes it.
pub uninterp spec fn sha1_digest(data: Seq<u8>) -> Seq<u8>;

/// The SHA-256 digest of `data`, as the `sha2` crate computes it.
pub uninterp spec fn sha256_digest(data: Seq<u8>) -> Seq<u8>;

/// The digest of `data` under `algorithm`.
pub open spec fn digest_of(algorithm: ChecksumType, data: Seq<u8>) -> Seq<u8> {
    match algorithm {
        ChecksumType::Md5 => md5_digest(data),
        ChecksumType::Sha1 => sha1_digest(data),
        ChecksumType::Sha256 => sha256_digest(data),
    }
}

/// The checksum of `data` under `algorithm`: its digest in lower-case
/// hexadecimal text.
pub open spec fn checksum_of(algorithm: ChecksumType, data: Seq<u8>) -> Seq<char> {
    hex_lower(digest_of(algorithm, data))
}

/// The number of characters in a checksum of `algorithm`: 32 for MD5, 40 for
/// SHA-1, 64 for SHA-256.
pub open spec fn checksum_len(algorithm: ChecksumType) -> nat {
    2 * algorithm.spec_digest_len()
}

/// Calls `md5::compute` and takes the sixteen bytes out of the `Digest` it
/// returns. The result depends on the bytes of `data` alone.
#[verifier::external_body]
fn md5_compute(data: &[u8]) -> (digest: [u8; 16])
    ensures
        digest@ == md5_digest(data@),
{
    md5::compute(data).0
}

/// Formats an `md5::Digest` with `{:?}`. The crate's `Debug` impl hands over
/// to its `LowerHex` impl, which writes each of the sixteen bytes with
/// `{:02x}`: two lower-case hexadecimal digits, the high half first.
#[verifier::external_body]
fn md5_debug_text(digest: [u8; 16]) -> (text: String)
    ensures
        text@ == hex_lower(digest@),
{
    format!("{:?}", md5::Digest(digest))
}

/// Calls `sha1::Sha1::digest`, which feeds `data` to a fresh hasher and
/// finalizes it. The output is an array of twenty bytes that depends on the
/// bytes of `data` alone.
#[verifier::external_body]
fn sha1_compute(data: &[u8]) -> (digest: [u8; 20])
    ensures
        digest@ == sha1_digest(data@),
{
    sha1::Sha1::digest(data).into()
}

/// Calls `sha2::Sha256::digest`, which feeds `data` to a fresh hasher and
/// finalizes it. The output is an array of thirty-two bytes that depends on
/// the bytes of `data` alone.
#[verifier::external_body]
fn sha256_compute(data: &[u8]) -> (digest: [u8; 32])
    ensures
        digest@ == sha256_digest(data@),
{
    sha2::Sha256::digest(data).into()
}

/// Computes the checksum of `data` under `algorithm`.
///
/// The text is a function of the algorithm and the bytes alone, so hashing
/// the same content twice gives the same text. It is always lower-case
/// hexadecimal and has the length that belongs to the algorithm.
pub fn checksum(algorithm: ChecksumType, data: &[u8]) -> (text: String)
    ensures
        text@ == checksum_of(algorithm, data@),
        text@.len() == checksum_len(algorithm),
        forall|i: int| 0 <= i < text@.len() ==> is_lower_hex(#[trigger] text@[i]),
{
    let text = match algorithm {
        ChecksumType::Md5 => {
            let digest = md5_compute(data);
            md5_debug_text(digest)
        },
        ChecksumType::Sha1 => {
            let digest = sha1_compute(data);
            hex_encode(digest.as_slice())
        },
        ChecksumType::Sha256 => {
            let digest = sha256_compute(data);
            hex_encode(digest.as_slice())
        },
    };
    proof {
        lemma_hex_lower_shape(digest_of(algorithm, data@));
    }
    text
}

/// Equal content has equal checksums under one algorithm.
pub proof fn lemma_checksum_deterministic(
    algorithm: ChecksumType,
    first: Seq<u8>,
    second: Seq<u8>,
)
    requires
        first == second,
    ensures
        checksum_of(algorithm, first) == checksum_of(algorithm, second),
{
}

} // verus!
