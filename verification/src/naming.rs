//! The name of a profile, derived from the name of its tag type.

use regex::Regex;
use vstd::prelude::*;

verus! {

/// Whether `regex::Regex::new` accepts the pattern.
pub uninterp spec fn pattern_compiles(pattern: Seq<char>) -> bool;

/// What `regex::Regex::replace` gives for the regex compiled from the
/// pattern: the haystack with its leftmost-first match replaced by the
/// expanded replacement, or the haystack itself where nothing matches.
pub uninterp spec fn first_match_replaced(
    pattern: Seq<char>,
    haystack: Seq<char>,
    replacement: Seq<char>,
) -> Seq<char>;

/// What `str::to_lowercase` gives for a text.
pub uninterp spec fn lowercase_of(text: Seq<char>) -> Seq<char>;

/// Calls `regex::Regex::new` on the pattern and, where that compiles,
/// `regex::Regex::replace` on the haystack with a replacement string. The
/// result is `None` exactly where the pattern is refused. The contract only
/// names what the two calls give; nothing about matching is claimed.
#[verifier::external_body]
fn replace_first(pattern: &str, haystack: &str, replacement: &str) -> (out: Option<String>)
    ensures
        out.is_some() == pattern_compiles(pattern@),
        out.is_some() ==> out.unwrap()@ == first_match_replaced(
            pattern@,
            haystack@,
            replacement@,
        ),
{
    match Regex::new(pattern) {
        Ok(compiled) => Some(compiled.replace(haystack, replacement).into_owned()),
        Err(_) => None,
    }
}

/// Calls `str::to_lowercase`. The contract only names the result.
#[verifier::external_body]
fn lowercase(text: &str) -> (out: String)
    ensures
        out@ == lowercase_of(text@),
{
    text.to_lowercase()
}

/// The profile name for a tag type's name: the name in lower case, with
/// the module path before it cut off by the pattern `.*::`.
pub open spec fn profile_label(tag: Seq<char>) -> Seq<char> {
    first_match_replaced(".*::"@, lowercase_of(tag), ""@)
}

/// The profile name of a tag type, given the type's name as the compiler
/// writes it. It is `None` only if the regex engine refuses the pattern.
pub fn profile_name(tag: &str) -> (label: Option<String>)
    ensures
        label.is_some() == pattern_compiles(".*::"@),
        label.is_some() ==> label.unwrap()@ == profile_label(tag@),
{
    let lowered: String = lowercase(tag);
    replace_first(".*::", lowered.as_str(), "")
}

} // verus!
