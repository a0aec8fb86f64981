use vstd::prelude::*;
use crate::errors::FetchError;
use crate::naming::{filename_from_path, spec_filename};

verus! {

/// A URL that parsed: what the rest of the pipeline reads of it, held as
/// plain strings. Immutable once constructed, and built only from a
/// successful parse.
pub struct UrlParts {
    /// The parser's normalized serialization of the whole URL; what the
    /// request is issued against.
    pub serialized: String,
    /// The path component of that serialization. For URLs with an
    /// authority this begins with `/`; for cannot-be-a-base URLs it does
    /// not, and the path then yields no segments.
    pub path: String,
}

/// The normalized serialization that the URL parser produces for `raw`:
/// `Some` exactly when `raw` conforms to URL syntax. A function of the
/// input string alone.
pub uninterp spec fn url_serialization(raw: Seq<char>) -> Option<Seq<char>>;

/// Relies on `url::Url::parse` (re-exported as `reqwest::Url`): whether a
/// string parses, and the normalized serialization when it does, depend on
/// the string alone, and parsing performs no I/O. `Url::path` returns the
/// path component of that serialization.
#[verifier::external_body]
fn parse_url_raw(raw: &str) -> (r: Option<UrlParts>)
    ensures
        r is Some <==> url_serialization(raw@) is Some,
        r matches Some(u) ==> url_serialization(raw@) == Some(u.serialized@),
{
    match reqwest::Url::parse(raw) {
        Ok(u) => {
            let path = u.path().to_string();
            Some(UrlParts { serialized: String::from(u), path })
        },
        Err(_) => None,
    }
}

/// Validates a string as a URL, with no network access: `Ok` exactly when
/// the string conforms to URL syntax, and `MalformedUrl`, carrying the
/// input verbatim, otherwise.
pub fn parse_url(raw: &str) -> (r: Result<UrlParts, FetchError>)
    ensures
        r is Ok <==> url_serialization(raw@) is Some,
        r matches Ok(u) ==> url_serialization(raw@) == Some(u.serialized@),
        r matches Err(e) ==> e matches (FetchError::MalformedUrl { input }) && input@ == raw@,
{
    match parse_url_raw(raw) {
        Some(u) => Ok(u),
        None => Err(FetchError::MalformedUrl { input: raw.to_owned() }),
    }
}

impl UrlParts {
    /// The output filename this URL derives, exactly as `spec_filename`
    /// states it over the path.
    pub fn filename(&self) -> (r: String)
        ensures
            r@ == spec_filename(self.path@),
    {
        filename_from_path(self.path.as_str())
    }
}

} // verus!
