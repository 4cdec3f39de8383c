//! The two text checks that the validator delegates to outside
//! libraries: regular-expression matching for `pattern` and URL
//! well-formedness for `format: uri`. Each result is a function of the
//! argument strings alone, named by an uninterpreted spec function.

use vstd::prelude::*;

verus! {

/// Whether `pat` is a valid regular expression, as `regex::Regex::new`
/// decides it.
pub uninterp spec fn regex_compiles(pat: Seq<char>) -> bool;

/// Whether the regular expression `pat` matches somewhere in `text`,
/// as `regex::Regex::is_match` decides it. Meaningful only when
/// `regex_compiles(pat)` holds.
pub uninterp spec fn regex_matches(pat: Seq<char>, text: Seq<char>) -> bool;

/// Relies on `regex::Regex::new` and `regex::Regex::is_match`: `new`
/// accepts exactly the valid patterns, and `is_match` reports whether
/// the compiled pattern matches anywhere in the text. Both results
/// depend on the two strings alone.
#[verifier::external_body]
pub fn regex_is_match(pat: &str, text: &str) -> (r: Option<bool>)
    ensures
        r is Some <==> regex_compiles(pat@),
        r matches Some(m) ==> m == regex_matches(pat@, text@),
{
    match regex::Regex::new(pat) {
        Ok(re) => Some(re.is_match(text)),
        Err(_) => None,
    }
}

/// Whether `s` parses as an absolute URL, as `url::Url::parse` decides
/// it.
pub uninterp spec fn uri_wellformed(s: Seq<char>) -> bool;

/// Relies on `url::Url::parse`: it accepts exactly the well-formed
/// absolute URLs, a function of the input string alone.
#[verifier::external_body]
pub fn uri_is_valid(s: &str) -> (r: bool)
    ensures
        r == uri_wellformed(s@),
{
    url::Url::parse(s).is_ok()
}

} // verus!
