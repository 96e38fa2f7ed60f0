//! The result of a fetch, assembled from what the transport handed back.
use vstd::prelude::*;
use vstd::utf8::encode_utf8;

use crate::charset::{resolve_and_decode, resolved_text};

verus! {

/// How many redirects a fetch follows before it fails.
pub const MAX_REDIRECTS: usize = 10;

/// The time limit of a whole request, in seconds.
pub const TIMEOUT_SECS: u64 = 30;

/// A fetched page: its decoded text, the URL it finally came from, and the
/// HTTP status, whatever that status is.
#[derive(Clone, Debug, PartialEq, Eq)]
pub struct ProxyResponse {
    pub content: String,
    pub url: String,
    pub status: u16,
}

/// The bytes of the content type header, an absent one read as empty.
pub open spec fn header_bytes(content_type: Option<&str>) -> Seq<u8> {
    match content_type {
        Some(ct) => encode_utf8(ct@),
        None => Seq::empty(),
    }
}

/// Builds the fetch result from the response's status, final URL, content
/// type header (absent when the response had none, or none readable as
/// text) and body. The status is kept as it is: a 4xx or 5xx response is a
/// result too, with its body decoded.
pub fn build_response(status: u16, final_url: String, content_type: Option<&str>, body: &[u8]) -> (r:
    ProxyResponse)
    requires
        body@.len() <= usize::MAX / 4,
    ensures
        r.status == status,
        r.url@ == final_url@,
        r.content@ == resolved_text(body@, header_bytes(content_type)),
{
    let ct = match content_type {
        Some(ct) => ct,
        None => "",
    };
    proof {
        if content_type is None {
            assert(encode_utf8(""@) =~= Seq::<u8>::empty()) by {
                reveal_strlit("");
            }
        }
    }
    let content = resolve_and_decode(body, ct);
    ProxyResponse { content, url: final_url, status }
}

} // verus!
