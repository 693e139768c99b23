//! URL parsing and resolution, done by the `url` crate that hyper re-exports.
use vstd::prelude::*;

verus! {

/// The serialization of `s` parsed as an absolute URL, if it parses.
pub uninterp spec fn parsed(s: Seq<char>) -> Option<Seq<char>>;

/// The serialization of `rel` resolved against the absolute URL `base`, if both parse.
pub uninterp spec fn joined(base: Seq<char>, rel: Seq<char>) -> Option<Seq<char>>;

/// Relies on `hyper::Url::parse` (url 1.7's `Url::parse`): parses an absolute URL, and
/// `Url::into_string` gives its serialization.
#[verifier::external_body]
pub(crate) fn parse_url(s: &str) -> (r: Option<String>)
    ensures
        match r {
            Some(u) => parsed(s@) == Some(u@),
            None => parsed(s@) is None,
        },
{
    match hyper::Url::parse(s) {
        Ok(u) => Some(u.into_string()),
        Err(_) => None,
    }
}

/// Relies on `hyper::Url::join` (url 1.7's `Url::join`): resolves `rel` against `base`, which is
/// first parsed with `Url::parse`; `Url::into_string` gives the serialization.
#[verifier::external_body]
pub(crate) fn join_url(base: &str, rel: &str) -> (r: Option<String>)
    ensures
        match r {
            Some(u) => joined(base@, rel@) == Some(u@),
            None => joined(base@, rel@) is None,
        },
{
    match hyper::Url::parse(base) {
        Ok(b) => match b.join(rel) {
            Ok(u) => Some(u.into_string()),
            Err(_) => None,
        },
        Err(_) => None,
    }
}

} // verus!
