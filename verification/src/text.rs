//! Case-insensitive literal matching of a search term against text.

use vstd::prelude::*;

verus! {

/// The lowercase form of a text, as `str::to_lowercase` gives it: the
/// Unicode lowercase mapping, which depends on the characters alone.
pub uninterp spec fn lowercase(s: Seq<char>) -> Seq<char>;

/// `needle` stands in `hay` at position `i`.
pub open spec fn occurs_at(needle: Seq<char>, hay: Seq<char>, i: int) -> bool {
    &&& 0 <= i
    &&& i + needle.len() <= hay.len()
    &&& hay.subrange(i, i + needle.len()) == needle
}

/// `needle` stands somewhere in `hay`, character for character.
pub open spec fn is_substring(needle: Seq<char>, hay: Seq<char>) -> bool {
    exists|i: int| occurs_at(needle, hay, i)
}

/// A term that is already lowercase is found in a text, whatever the case
/// of the text.
pub open spec fn term_in(needle: Seq<char>, text: Seq<char>) -> bool {
    is_substring(needle, lowercase(text))
}

/// Calls `str::to_lowercase`. The contract only gives the result its name:
/// the same text always has the same lowercase form.
#[verifier::external_body]
fn std_to_lowercase(s: &str) -> (r: String)
    ensures
        r@ == lowercase(s@),
{
    s.to_lowercase()
}

/// Calls `str::contains` with a string pattern, which std documents as
/// true exactly when the pattern matches a sub-slice of the text.
#[verifier::external_body]
fn std_contains(hay: &str, needle: &str) -> (b: bool)
    ensures
        b == is_substring(needle@, hay@),
{
    hay.contains(needle)
}

/// Brings a search term into the form in which texts are compared with it.
pub fn normalize_term(term: &str) -> (needle: String)
    ensures
        needle@ == lowercase(term@),
{
    std_to_lowercase(term)
}

/// Whether `needle` occurs in `text`, both taken as they are.
pub fn contains_literal(text: &str, needle: &str) -> (b: bool)
    ensures
        b == is_substring(needle@, text@),
{
    std_contains(text, needle)
}

/// Whether a normalized term occurs in `text` once the text is lowercased.
pub fn matches_term(text: &str, needle: &str) -> (b: bool)
    ensures
        b == term_in(needle@, text@),
{
    let lowered = std_to_lowercase(text);
    contains_literal(lowered.as_str(), needle)
}

/// Matching looks at term and text only through their lowercase forms:
/// of two terms that differ in case alone, and two texts that differ in
/// case alone, either term is found in either text or none in any.
pub proof fn lemma_match_ignores_case(
    term_a: Seq<char>,
    term_b: Seq<char>,
    text_a: Seq<char>,
    text_b: Seq<char>,
)
    requires
        lowercase(term_a) == lowercase(term_b),
        lowercase(text_a) == lowercase(text_b),
    ensures
        term_in(lowercase(term_a), text_a) == term_in(lowercase(term_b), text_b),
{
}

/// The empty term is found in every text.
pub proof fn lemma_empty_term_matches(hay: Seq<char>)
    ensures
        is_substring(Seq::<char>::empty(), hay),
{
    assert(hay.subrange(0, 0) =~= Seq::<char>::empty());
    assert(occurs_at(Seq::<char>::empty(), hay, 0));
}

/// A term longer than the text is not found in it.
pub proof fn lemma_longer_term_is_absent(needle: Seq<char>, hay: Seq<char>)
    requires
        needle.len() > hay.len(),
    ensures
        !is_substring(needle, hay),
{
}

} // verus!
