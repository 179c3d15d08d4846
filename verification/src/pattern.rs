//! Regular-expression predicates, delegated to the `regex` crate behind
//! one trusted wrapper.  A pattern that fails to compile is a failed
//! match, not an error.

use vstd::prelude::*;

verus! {

/// Whether the `regex` crate accepts the pattern.  The pattern grammar is
/// not written out here; the name only fixes that acceptance is a function
/// of the pattern alone.
pub uninterp spec fn regex_ok(pat: Seq<char>) -> bool;

/// Whether the compiled pattern matches somewhere in the text: a function
/// of the pattern and the text alone.
pub uninterp spec fn regex_match(pat: Seq<char>, text: Seq<char>) -> bool;

/// Relies on `regex::Regex::new` and `regex::Regex::is_match`: compiling
/// succeeds on a fixed set of patterns, and a compiled pattern matches a
/// fixed set of texts.
#[verifier::external_body]
fn try_match(pattern: &str, text: &str) -> (r: Option<bool>)
    ensures
        r is Some <==> regex_ok(pattern@),
        r is Some ==> r.unwrap() == regex_match(pattern@, text@),
{
    match regex::Regex::new(pattern) {
        Ok(re) => Some(re.is_match(text)),
        Err(_) => None,
    }
}

/// The text matches the pattern: the pattern compiles and matches
/// somewhere in the text.
pub open spec fn matches_spec(text: Seq<char>, pat: Seq<char>) -> bool {
    regex_ok(pat) && regex_match(pat, text)
}

/// The case-insensitive variant works by wrapping the pattern in an
/// inline case-insensitive group before compiling.
pub open spec fn matches_ci_spec(text: Seq<char>, pat: Seq<char>) -> bool {
    matches_spec(text, "(?i:"@ + pat + ")"@)
}

/// Whether the text matches the pattern; an unparseable pattern is a
/// failed match.
pub fn matches_regex(text: &str, pattern: &str) -> (r: bool)
    ensures
        r == matches_spec(text@, pattern@),
{
    match try_match(pattern, text) {
        Some(b) => b,
        None => false,
    }
}

/// Whether the text matches the pattern case-insensitively, by compiling
/// the pattern inside an inline case-insensitive group.
pub fn matches_regex_ci(text: &str, pattern: &str) -> (r: bool)
    ensures
        r == matches_ci_spec(text@, pattern@),
{
    let mut wrapped = String::from_str("(?i:");
    wrapped.append(pattern);
    wrapped.append(")");
    proof {
        assert(wrapped@ == "(?i:"@ + pattern@ + ")"@);
    }
    match try_match(wrapped.as_str(), text) {
        Some(b) => b,
        None => false,
    }
}

} // verus!
