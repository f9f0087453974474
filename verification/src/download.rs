//! The download endpoint's core: settle the requested size, build the
//! response body, and name the headers that defeat caching.

use vstd::prelude::*;
use crate::payload::generate_payload;
use crate::size::{effective_size_mb, lemma_effective_size_in_range, opt_str_view, parse_size_mb};

verus! {

/// What the body of a download response is, for a given `size` parameter:
/// exactly the settled number of megabytes, all zero.
pub open spec fn is_download_body(q: Option<Seq<char>>, body: Seq<u8>) -> bool {
    &&& body.len() == effective_size_mb(q) * (crate::BYTES_PER_MB as int)
    &&& forall|i: int| 0 <= i < body.len() ==> body[i] == 0
}

/// The full response body for a download request: the `size` parameter,
/// stripped, parsed, defaulted and clamped, decides the length; the
/// content is zero-filled and never inspected.
pub fn download_body(size_param: Option<&str>) -> (body: Vec<u8>)
    ensures
        is_download_body(opt_str_view(size_param), body@),
{
    let size_mb: usize = parse_size_mb(size_param);
    proof {
        lemma_effective_size_in_range(opt_str_view(size_param));
    }
    generate_payload(size_mb)
}

/// For every `size` input, the settled size lies between zero and the
/// maximum, and the download body is exactly that many megabytes long.
pub proof fn lemma_download_body_length(q: Option<Seq<char>>, body: Seq<u8>)
    requires
        is_download_body(q, body),
    ensures
        0 <= effective_size_mb(q) <= crate::MAX_SIZE_MB,
        body.len() == effective_size_mb(q) * (crate::BYTES_PER_MB as int),
{
    lemma_effective_size_in_range(q);
}

/// Two download responses to the same request always have the same length:
/// the body length is a function of the `size` parameter alone, so a
/// repeated request re-transfers the same number of bytes.
pub proof fn lemma_download_length_deterministic(q: Option<Seq<char>>, b1: Seq<u8>, b2: Seq<u8>)
    requires
        is_download_body(q, b1),
        is_download_body(q, b2),
    ensures
        b1.len() == b2.len(),
{
}

/// The headers every download response carries: an opaque byte stream that
/// must never be served from a cache.
pub fn download_headers() -> (h: Vec<(String, String)>)
    ensures
        h@.len() == 4,
        h@[0].0@ == "Content-Type"@,
        h@[0].1@ == "application/octet-stream"@,
        h@[1].0@ == "Cache-Control"@,
        h@[1].1@ == "no-store, no-cache, must-revalidate"@,
        h@[2].0@ == "Pragma"@,
        h@[2].1@ == "no-cache"@,
        h@[3].0@ == "Expires"@,
        h@[3].1@ == "0"@,
{
    let mut h: Vec<(String, String)> = Vec::new();
    h.push((String::from_str("Content-Type"), String::from_str("application/octet-stream")));
    h.push((String::from_str("Cache-Control"), String::from_str("no-store, no-cache, must-revalidate")));
    h.push((String::from_str("Pragma"), String::from_str("no-cache")));
    h.push((String::from_str("Expires"), String::from_str("0")));
    h
}

} // verus!
