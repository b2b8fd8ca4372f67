use vstd::prelude::*;

verus! {

/// `needle` occurs in `hay` as a run of consecutive characters
/// (case-sensitive; the empty text occurs everywhere).
pub open spec fn is_substring(needle: Seq<char>, hay: Seq<char>) -> bool {
    exists|i: int|
        0 <= i && i + needle.len() <= hay.len() && #[trigger] hay.subrange(i, i + needle.len())
            == needle
}

/// Relies on `str::contains` with a `&str` pattern: true exactly when the
/// pattern occurs in the text. Both are valid UTF-8, so a byte match is a
/// character match.
#[verifier::external_body]
pub(crate) fn contains(hay: &String, needle: &String) -> (r: bool)
    ensures
        r == is_substring(needle@, hay@),
{
    hay.as_str().contains(needle.as_str())
}

} // verus!
