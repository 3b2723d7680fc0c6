//! Text helpers shared by the other modules.

use vstd::prelude::*;

verus! {

/// `str::eq`: two string slices are equal exactly when they hold the same
/// characters in the same order.
pub assume_specification[ <str as PartialEq>::eq ](a: &str, b: &str) -> (res: bool)
    ensures
        res == (a@ == b@),
;

/// The `len` characters of `text` that start at position `start`.
pub open spec fn window(text: Seq<char>, start: int, len: nat) -> Seq<char> {
    text.subrange(start, start + len)
}

/// Whether `needle` occurs somewhere in `haystack` as a contiguous run.
pub open spec fn occurs_in(needle: Seq<char>, haystack: Seq<char>) -> bool {
    exists|start: int|
        0 <= start && start + needle.len() <= haystack.len() && #[trigger] window(
            haystack,
            start,
            needle.len(),
        ) == needle
}

/// `str::contains` with a string pattern: true exactly when the pattern
/// matches a sub-slice of the haystack.
#[verifier::external_body]
pub(crate) fn contains_text(haystack: &str, needle: &str) -> (res: bool)
    ensures
        res == occurs_in(needle@, haystack@),
{
    haystack.contains(needle)
}

/// Compares two string slices character by character.
pub fn same_text(a: &str, b: &str) -> (res: bool)
    ensures
        res == (a@ == b@),
{
    *a == *b
}

/// An owned copy of an optional text.
pub fn clone_optional_text(text: &Option<String>) -> (res: Option<String>)
    ensures
        res.deep_view() == text.deep_view(),
{
    match text {
        Some(t) => Some(t.clone()),
        None => None,
    }
}

/// An owned copy of a list of texts, in the same order.
pub fn clone_texts(texts: &Vec<String>) -> (res: Vec<String>)
    ensures
        res.deep_view() == texts.deep_view(),
{
    let mut copy: Vec<String> = Vec::new();
    let mut i: usize = 0;
    while i < texts.len()
        invariant
            i <= texts.len(),
            copy.len() == i,
            forall|j: int| 0 <= j < i ==> copy[j]@ == texts[j]@,
        decreases texts.len() - i,
    {
        copy.push(texts[i].clone());
        i += 1;
    }
    assert(copy.deep_view() =~= texts.deep_view());
    copy
}

} // verus!
