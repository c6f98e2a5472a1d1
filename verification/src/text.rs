//! Comparing and lower-casing text.

use vstd::prelude::*;
use vstd::utf8::is_ascii_chars;

verus! {

/// `str`'s `==`: two string slices are equal when they hold the same
/// characters.
pub assume_specification[ <str as PartialEq>::eq ](a: &str, b: &str) -> (same: bool)
    ensures
        same == (a@ == b@),
;

/// The lower-case form of one ASCII character: the letters `A` to `Z` move to
/// `a` to `z`, every other character stays.
pub open spec fn ascii_lower(c: char) -> char {
    if 'A' <= c <= 'Z' {
        ((c as u32 + 32) as u32) as char
    } else {
        c
    }
}

/// What `str::to_lowercase` returns for text that holds a character outside
/// ASCII.
pub uninterp spec fn unicode_lowercase(s: Seq<char>) -> Seq<char>;

/// The lower-case form of ASCII text, character by character.
pub open spec fn ascii_lowercase(s: Seq<char>) -> Seq<char> {
    s.map_values(|c: char| ascii_lower(c))
}

/// The lower-case form of a text.
pub open spec fn lowercase(s: Seq<char>) -> Seq<char> {
    if is_ascii_chars(s) {
        ascii_lowercase(s)
    } else {
        unicode_lowercase(s)
    }
}

/// `str::to_lowercase`. On ASCII text it changes the letters `A` to `Z` into
/// `a` to `z` and nothing else; on any other text the result is a function of
/// the text that is not spelled out here.
#[verifier::external_body]
pub(crate) fn to_lowercase(s: &str) -> (lowered: String)
    ensures
        is_ascii_chars(s@) ==> lowered@ == ascii_lowercase(s@),
        !is_ascii_chars(s@) ==> lowered@ == unicode_lowercase(s@),
{
    s.to_lowercase()
}

/// Text made of the letters `a` to `z` alone is its own lower-case form.
pub proof fn lemma_lowercase_of_lower_letters(s: Seq<char>)
    requires
        forall|i: int| 0 <= i < s.len() ==> 'a' <= #[trigger] s[i] <= 'z',
    ensures
        lowercase(s) == s,
{
    assert(is_ascii_chars(s));
    assert(ascii_lowercase(s) =~= s);
}

} // verus!
