use vstd::prelude::*;

verus! {

/// Whether the regex crate accepts `pattern`.
pub uninterp spec fn regex_accepts(pattern: Seq<char>) -> bool;

/// Whether the regex `pattern` finds a match somewhere in `haystack`
/// (false for a pattern that the regex crate refuses).
pub uninterp spec fn regex_finds(pattern: Seq<char>, haystack: Seq<char>) -> bool;

/// Relies on `regex::Regex::new`: it returns `Ok` exactly for the patterns
/// that the crate accepts, a property of the pattern text alone.
#[verifier::external_body]
pub(crate) fn regex_compiles(pattern: &str) -> (r: bool)
    ensures
        r == regex_accepts(pattern@),
{
    regex::Regex::new(pattern).is_ok()
}

/// Relies on `regex::Regex::new` and `regex::Regex::is_match`: whether the
/// compiled pattern matches anywhere in `haystack`, a property of the two texts
/// alone; a refused pattern matches nothing.
#[verifier::external_body]
pub(crate) fn regex_is_match(pattern: &str, haystack: &str) -> (r: bool)
    ensures
        r == regex_finds(pattern@, haystack@),
{
    match regex::Regex::new(pattern) {
        Ok(re) => re.is_match(haystack),
        Err(_) => false,
    }
}

} // verus!
