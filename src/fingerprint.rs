//! Content fingerprints of credential files, for cheap change detection.
use vstd::prelude::*;
use crate::text::{hex_lower, hex_of, lemma_hex_len};

verus! {

/// The MD5 digest of a byte sequence.
pub uninterp spec fn md5_of(data: Seq<u8>) -> Seq<u8>;

/// Relies on md5::compute: the sixteen-byte digest of the data, which
/// depends on the data alone.
#[verifier::external_body]
fn md5_digest(data: &[u8]) -> (r: Vec<u8>)
    ensures
        r@ == md5_of(data@),
        r@.len() == 16,
{
    md5::compute(data).0.to_vec()
}

/// The fingerprint of some content: its MD5 digest in lower-case hex.
pub open spec fn fingerprint_of(content: Seq<u8>) -> Seq<char> {
    hex_of(md5_of(content))
}

/// The fingerprint of a file's content, or the empty string when there is
/// no file.
pub open spec fn file_hash_of(content: Option<Seq<u8>>) -> Seq<char> {
    match content {
        Some(c) => fingerprint_of(c),
        None => Seq::empty(),
    }
}

/// Fingerprints some content; the result is never empty.
pub fn fingerprint(content: &[u8]) -> (r: String)
    ensures
        r@ == fingerprint_of(content@),
        r@.len() == 32,
{
    let digest = md5_digest(content);
    proof {
        lemma_hex_len(digest@);
    }
    hex_lower(&digest)
}

/// Fingerprints a file's content when the file exists; an absent file has
/// the empty fingerprint.
pub fn file_hash(content: Option<&Vec<u8>>) -> (r: String)
    ensures
        r@ == file_hash_of(
            match content {
                Some(c) => Some(c@),
                None => None,
            },
        ),
{
    match content {
        Some(c) => fingerprint(c.as_slice()),
        None => String::new(),
    }
}

} // verus!
