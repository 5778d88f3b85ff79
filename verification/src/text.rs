//! Comparisons of text that the providers' filters rest on: matching without
//! regard to ASCII case, lower-casing, and searching for a phrase.

use vstd::prelude::*;

verus! {

/// The code of `c` with the ASCII capitals `A` to `Z` moved onto `a` to `z`;
/// every other character keeps its own code.
pub open spec fn ascii_folded(c: char) -> int {
    if 'A' <= c && c <= 'Z' {
        c as int + 32
    } else {
        c as int
    }
}

/// `a` and `b` are the same text once ASCII capitals are read as small letters.
pub open spec fn same_ignoring_ascii_case(a: Seq<char>, b: Seq<char>) -> bool {
    &&& a.len() == b.len()
    &&& forall|i: int| 0 <= i < a.len() ==> ascii_folded(#[trigger] a[i]) == ascii_folded(b[i])
}

/// `needle` stands somewhere in `haystack` as one unbroken run. The empty
/// text occurs in every text.
pub open spec fn occurs_in(needle: Seq<char>, haystack: Seq<char>) -> bool {
    exists|start: int|
        0 <= start && start + needle.len() <= haystack.len() && #[trigger] haystack.subrange(
            start,
            start + needle.len(),
        ) == needle
}

/// The lower-case form that the Unicode character database gives a text.
pub uninterp spec fn unicode_lowercase(text: Seq<char>) -> Seq<char>;

/// `str::eq_ignore_ascii_case`: the two texts are equal once each of the
/// letters `A` to `Z` is replaced by its small letter; characters outside
/// ASCII must agree exactly.
#[verifier::external_body]
pub(crate) fn eq_ignore_ascii_case(a: &str, b: &str) -> (same: bool)
    ensures
        same == same_ignoring_ascii_case(a@, b@),
{
    a.eq_ignore_ascii_case(b)
}

/// `str::to_lowercase`: the lower-case form of the whole text, by the rules
/// of Unicode. The rules are not written out here: the result has a name.
#[verifier::external_body]
pub(crate) fn to_lowercase(text: &str) -> (lower: String)
    ensures
        lower@ == unicode_lowercase(text@),
{
    text.to_lowercase()
}

/// `str::contains` with a text as the pattern: whether the pattern matches a
/// part of the searched text.
#[verifier::external_body]
pub(crate) fn contains(haystack: &str, needle: &str) -> (found: bool)
    ensures
        found == occurs_in(needle@, haystack@),
{
    haystack.contains(needle)
}

} // verus!
