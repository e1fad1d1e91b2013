//! Regular expressions, matched by the `regex` crate.

use vstd::prelude::*;

verus! {

/// Whether `regex::Regex::is_match` finds `pattern` in `text`; `None` where
/// `regex::Regex::new` takes `pattern` for no regular expression.
pub uninterp spec fn regex_is_match(pattern: Seq<char>, text: Seq<char>) -> Option<bool>;

/// What the first group of `pattern` holds in the match that
/// `regex::Regex::captures` finds in `text`; `None` where `pattern` is no
/// regular expression, where nothing in `text` matches, and where the group
/// took no part in the match.
pub uninterp spec fn regex_first_group(pattern: Seq<char>, text: Seq<char>) -> Option<Seq<char>>;

/// Whether `pattern` is a regular expression that matches somewhere in
/// `text`.
pub open spec fn pattern_found(pattern: Seq<char>, text: Seq<char>) -> bool {
    regex_is_match(pattern, text) == Some(true)
}

/// `regex::Regex::new` on `pattern` and `Regex::is_match` on `text`. The
/// result depends on the two strings alone; an error of `new` is `None`.
#[verifier::external_body]
pub(crate) fn is_match(pattern: &str, text: &str) -> (r: Option<bool>)
    ensures
        r == regex_is_match(pattern@, text@),
{
    regex::Regex::new(pattern).ok().map(|re| re.is_match(text))
}

/// `regex::Regex::new` on `pattern`, `Regex::captures` on `text` and
/// `Captures::get(1)`, copied out as a string. The result depends on the two
/// strings alone; an error of `new`, no match and an unused group are all
/// `None`.
#[verifier::external_body]
pub(crate) fn first_group(pattern: &str, text: &str) -> (r: Option<String>)
    ensures
        r is Some <==> regex_first_group(pattern@, text@) is Some,
        r is Some ==> regex_first_group(pattern@, text@) == Some(r->0@),
{
    regex::Regex::new(pattern).ok()?.captures(text)?.get(1).map(|m| m.as_str().to_string())
}

} // verus!
