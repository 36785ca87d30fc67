//! URL parsing, delegated to the `url` crate.
//!
//! A target string is parsed lazily, at the iteration that dispatches it.
//! The parsed value is opaque to the verifier; all the dispatcher relies on
//! is that parsing is a pure function of the string, so whether an
//! iteration aborts with an invalid URL depends on the configuration alone.

use vstd::prelude::*;

verus! {

/// `url::Url`, declared so a parsed URL can ride along in a dispatch plan.
/// The value is opaque to the verifier and is only carried through to the
/// shell that executes the request.
#[verifier::external_type_specification]
#[verifier::external_body]
pub struct ExUrl(url::Url);

/// Whether a string parses as an absolute URL.  The answer depends on the
/// characters of the string alone.
pub uninterp spec fn url_well_formed(s: Seq<char>) -> bool;

/// Relies on `url::Url::parse`: a deterministic parse whose success
/// depends on the input string alone.
#[verifier::external_body]
pub(crate) fn parse_url(s: &str) -> (r: Option<url::Url>)
    ensures
        r is Some <==> url_well_formed(s@),
{
    match url::Url::parse(s) {
        Ok(u) => Some(u),
        Err(_) => None,
    }
}

} // verus!
