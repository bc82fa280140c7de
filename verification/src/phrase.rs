//! The phrase by which a message asks for a nickname.

use vstd::prelude::*;

verus! {

/// The phrase as a regular expression: `Translate` or `translate`, a colon,
/// whitespace, and then the name, which begins with a letter and runs to the
/// end of the line. The name is the first group.
pub const TRANSLATE_PATTERN: &'static str = "(?m)[Tt]ranslate:[[:space:]]+([[:alpha:]].*)$";

/// What the first group of the regular expression `pattern` holds in the
/// leftmost match that `regex::Regex::captures` finds in `text`: none where
/// the pattern does not compile or has no group, where nothing matches, or
/// where the group took no part in the match.
pub uninterp spec fn first_group(pattern: Seq<char>, text: Seq<char>) -> Option<Seq<char>>;

/// Compiles `pattern` with `regex::Regex::new`, searches `text` with
/// `regex::Regex::captures` and hands out the text of group 1. Nothing is
/// proved of it: the contract only gives the result its name, which says
/// that it depends on the pattern and the text alone.
#[verifier::external_body]
pub(crate) fn capture_first_group(pattern: &str, text: &str) -> (captured: Option<String>)
    ensures
        captured.deep_view() == first_group(pattern@, text@),
{
    let compiled = regex::Regex::new(pattern).ok()?;
    let found = compiled.captures(text)?;
    found.get(1).map(|group| group.as_str().to_string())
}

/// The name that `text` asks to have translated, if it asks.
pub fn extract_name(text: &str) -> (name: Option<String>)
    ensures
        name.deep_view() == first_group(TRANSLATE_PATTERN@, text@),
{
    capture_first_group(TRANSLATE_PATTERN, text)
}

} // verus!
