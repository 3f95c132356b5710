//! Decompression of gzip-encoded payloads.

use std::io::Read;
use vstd::prelude::*;

verus! {

/// What `flate2::read::GzDecoder` decodes `data` to: the content of the first
/// gzip member, or `None` where the decoder reports an error.
pub uninterp spec fn gzip_inflated(data: Seq<u8>) -> Option<Seq<u8>>;

/// `flate2::read::GzDecoder::new` on the bytes, read to its end with
/// `Read::read_to_end`: the decoded bytes, and `None` where the read fails.
#[verifier::external_body]
pub(crate) fn inflate(data: &[u8]) -> (r: Option<Vec<u8>>)
    ensures
        match r {
            Some(decoded) => gzip_inflated(data@) == Some(decoded@),
            None => gzip_inflated(data@) is None,
        },
{
    let mut decoded = Vec::new();
    flate2::read::GzDecoder::new(data).read_to_end(&mut decoded).ok()?;
    Some(decoded)
}

/// Whether a payload starts with the two bytes that open every gzip stream.
pub open spec fn is_gzip(data: Seq<u8>) -> bool {
    data.len() >= 2 && data[0] == 0x1f && data[1] == 0x8b
}

/// The payload itself, or what it decodes to where it is gzip-encoded.
pub open spec fn decompressed(data: Seq<u8>) -> Option<Seq<u8>> {
    if is_gzip(data) {
        gzip_inflated(data)
    } else {
        Some(data)
    }
}

/// Whether a payload is gzip-encoded.
pub fn starts_with_gzip_magic(data: &[u8]) -> (r: bool)
    ensures
        r == is_gzip(data@),
{
    data.len() >= 2 && data[0] == 0x1f && data[1] == 0x8b
}

} // verus!
