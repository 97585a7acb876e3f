//! Texts: views of optional texts, and the string operations that the
//! library takes from elsewhere.

use vstd::prelude::*;

verus! {

/// The view of an optional text.
pub open spec fn text_view(text: Option<String>) -> Option<Seq<char>> {
    match text {
        Some(t) => Some(t@),
        None => None,
    }
}

/// A copy of an optional text.
pub fn copy_text(text: &Option<String>) -> (r: Option<String>)
    ensures
        text_view(r) == text_view(*text),
{
    match text {
        Some(t) => Some(t.clone()),
        None => None,
    }
}

/// Whether `pattern` occurs in `text`.
pub open spec fn occurs_in(pattern: Seq<char>, text: Seq<char>) -> bool {
    exists|i: int|
        0 <= i && i + pattern.len() <= text.len() && #[trigger] text.subrange(
            i,
            i + pattern.len(),
        ) == pattern
}

/// Calls `str::contains` with a text as the pattern: whether the pattern
/// occurs in the text as a contiguous part.
#[verifier::external_body]
pub(crate) fn contains_text(text: &str, pattern: &str) -> (r: bool)
    ensures
        r == occurs_in(pattern@, text@),
{
    text.contains(pattern)
}

/// What `str::replace` makes of `text` when every match of the text
/// `from` is replaced by `to`.
pub uninterp spec fn replaced(text: Seq<char>, from: Seq<char>, to: Seq<char>) -> Seq<char>;

/// Calls `str::replace` with a text as the pattern; the result is the one
/// that `replaced` names.
#[verifier::external_body]
pub(crate) fn replace_text(text: &str, from: &str, to: &str) -> (r: String)
    ensures
        r@ == replaced(text@, from@, to@),
{
    text.replace(from, to)
}

/// What the first capture group of the regular expression `pattern` holds
/// in its leftmost match in `text`, as the `regex` crate finds it: `None`
/// where the pattern is refused, nothing matches or the group took no part.
pub uninterp spec fn first_capture(pattern: Seq<char>, text: Seq<char>) -> Option<Seq<char>>;

/// Calls `regex::Regex::new` on the pattern and `Regex::captures` on the
/// text, and copies what group 1 matched; the result is the one that
/// `first_capture` names.
#[verifier::external_body]
pub(crate) fn capture_first(pattern: &str, text: &str) -> (r: Option<String>)
    ensures
        text_view(r) == first_capture(pattern@, text@),
{
    regex::Regex::new(pattern).ok()?.captures(text)?.get(1).map(|m| m.as_str().to_string())
}

} // verus!
