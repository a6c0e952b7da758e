//! The crate's view of the `url` and `percent-encoding` crates.
//!
//! Each wrapper extracts one component of a parsed URL as a plain value.
//! Nothing is assumed about the components themselves: the logic that uses
//! them is verified for every value they could take. The one named result
//! is percent-decoding, which is a function of its input alone.

use vstd::prelude::*;
use url::Url;

verus! {

#[verifier::external_type_specification]
#[verifier::external_body]
pub struct ExUrl(Url);

/// Relies on url::Url::username: the raw, still percent-encoded username,
/// empty when the URL carries none.
#[verifier::external_body]
pub(crate) fn url_username(u: &Url) -> String {
    u.username().to_owned()
}

/// Relies on url::Url::password: the raw, still percent-encoded password,
/// when the URL carries one.
#[verifier::external_body]
pub(crate) fn url_password(u: &Url) -> Option<String> {
    u.password().map(|p| p.to_owned())
}

/// Relies on url::Url::host_str: the host part of the URL, when there is
/// one.
#[verifier::external_body]
pub(crate) fn url_host_str(u: &Url) -> Option<String> {
    u.host_str().map(|h| h.to_owned())
}

/// Relies on url::Url::port: the port written in the URL, when there is
/// one.
#[verifier::external_body]
pub(crate) fn url_port(u: &Url) -> Option<u16> {
    u.port()
}

/// Relies on url::Url::path_segments: the first path segment, or nothing
/// for a URL whose path holds no segments.
#[verifier::external_body]
pub(crate) fn url_first_path_segment(u: &Url) -> Option<String> {
    u.path_segments().and_then(|mut segments| segments.next()).map(|s| s.to_owned())
}

/// Relies on url::Url::query_pairs: the query's key-value pairs in URL
/// order, percent-decoded by the `url` crate.
#[verifier::external_body]
pub(crate) fn url_query_pairs(u: &Url) -> Vec<(String, String)> {
    u.query_pairs().map(|(k, v)| (k.into_owned(), v.into_owned())).collect()
}

/// What percent-decoding yields on `s` when the decoded bytes are valid
/// UTF-8; the result depends on the characters of `s` alone.
pub uninterp spec fn pct_decoded_utf8(s: Seq<char>) -> Option<Seq<char>>;

/// Relies on percent_encoding::percent_decode and
/// PercentDecode::decode_utf8: replaces every percent-escape of `s` by the
/// byte it denotes, and yields the result as text when it is valid UTF-8.
#[verifier::external_body]
pub(crate) fn percent_decode_utf8(s: &str) -> (r: Option<String>)
    ensures
        match r {
            Some(d) => pct_decoded_utf8(s@) == Some(d@),
            None => pct_decoded_utf8(s@) is None,
        },
{
    match percent_encoding::percent_decode(s.as_bytes()).decode_utf8() {
        Ok(d) => Some(d.into_owned()),
        Err(_) => None,
    }
}

} // verus!
