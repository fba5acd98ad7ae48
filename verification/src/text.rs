//! Searching and folding of text.

use vstd::prelude::*;

verus! {

/// True when `needle` occurs in `haystack` as a run of consecutive characters.
pub open spec fn occurs_in(needle: Seq<char>, haystack: Seq<char>) -> bool {
    exists|start: int|
        0 <= start && start + needle.len() <= haystack.len() && #[trigger] haystack.subrange(
            start,
            start + needle.len(),
        ) == needle
}

/// The lowercase form of a text, as `str::to_lowercase` of the standard library gives it.
pub uninterp spec fn lowercase_of(text: Seq<char>) -> Seq<char>;

/// `str::contains` with a string as its pattern: whether the pattern matches a sub-slice
/// of the text.
#[verifier::external_body]
pub(crate) fn contains(haystack: &str, needle: &str) -> (found: bool)
    ensures
        found == occurs_in(needle@, haystack@),
{
    haystack.contains(needle)
}

/// `str::to_lowercase`: the text with each character replaced by its lowercase
/// equivalent.
#[verifier::external_body]
pub(crate) fn to_lowercase(text: &str) -> (lowered: String)
    ensures
        lowered@ == lowercase_of(text@),
{
    text.to_lowercase()
}

/// The text without leading and trailing whitespace, as `str::trim` of the standard
/// library gives it.
pub uninterp spec fn trimmed_of(text: Seq<char>) -> Seq<char>;

/// The number that a text spells in decimal, as `str::parse::<u32>` of the standard
/// library reads it, or nothing where it reads none.
pub uninterp spec fn parsed_u32(text: Seq<char>) -> Option<u32>;

/// `str::replace`, with the double quote as its pattern and nothing to put in its place:
/// the text without its double quotes.
#[verifier::external_body]
pub(crate) fn without_quotes(text: &str) -> (cleaned: String)
    ensures
        cleaned@ == text@.filter(|c: char| c != '"'),
{
    text.replace('"', "")
}

/// `str::trim`: the text without leading and trailing whitespace.
#[verifier::external_body]
pub(crate) fn trim(text: &str) -> (trimmed: &str)
    ensures
        trimmed@ == trimmed_of(text@),
{
    text.trim()
}

/// `str::parse::<u32>`: the number that the text spells, if it spells one.
#[verifier::external_body]
pub(crate) fn parse_u32(text: &str) -> (number: Option<u32>)
    ensures
        number == parsed_u32(text@),
{
    text.parse::<u32>().ok()
}

} // verus!
