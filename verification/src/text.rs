//! Text operations that the rest of the library is stated over: substring
//! search, case folding, decimal numerals and single-character edits.

use vstd::prelude::*;

verus! {

/// `needle` occurs in `hay` starting at position `i`.
pub open spec fn occurs_at(needle: Seq<char>, hay: Seq<char>, i: int) -> bool {
    &&& 0 <= i
    &&& i + needle.len() <= hay.len()
    &&& hay.subrange(i, i + needle.len()) == needle
}

/// `needle` occurs somewhere in `hay`. The empty text occurs in every text.
pub open spec fn is_substring(needle: Seq<char>, hay: Seq<char>) -> bool {
    exists|i: int| occurs_at(needle, hay, i)
}

/// The lower-case form of a text, as `str::to_lowercase` of the standard
/// library computes it from the text alone.
pub uninterp spec fn lowercase(s: Seq<char>) -> Seq<char>;

/// The character of a decimal digit.
pub open spec fn digit_char(d: nat) -> char
    recommends
        d < 10,
{
    if d == 0 {
        '0'
    } else if d == 1 {
        '1'
    } else if d == 2 {
        '2'
    } else if d == 3 {
        '3'
    } else if d == 4 {
        '4'
    } else if d == 5 {
        '5'
    } else if d == 6 {
        '6'
    } else if d == 7 {
        '7'
    } else if d == 8 {
        '8'
    } else {
        '9'
    }
}

/// The decimal numeral of `n`, without sign or leading zeros.
pub open spec fn decimal(n: nat) -> Seq<char>
    decreases n,
{
    if n < 10 {
        seq![digit_char(n)]
    } else {
        decimal(n / 10).push(digit_char(n % 10))
    }
}

/// `str::contains` with a string pattern: whether `needle` occurs in `hay` as
/// a contiguous run of characters.
#[verifier::external_body]
pub(crate) fn str_contains(hay: &str, needle: &str) -> (found: bool)
    ensures
        found == is_substring(needle@, hay@),
{
    hay.contains(needle)
}

/// `str::to_lowercase`: the lower-case form of `s`, which depends on `s`
/// alone.
#[verifier::external_body]
pub(crate) fn str_to_lowercase(s: &str) -> (lower: String)
    ensures
        lower@ == lowercase(s@),
{
    s.to_lowercase()
}

/// `u32::to_string`: the decimal numeral of `n`.
#[verifier::external_body]
pub(crate) fn u32_to_string(n: u32) -> (numeral: String)
    ensures
        numeral@ == decimal(n as nat),
{
    n.to_string()
}

/// `String::push`: appends one character.
#[verifier::external_body]
pub(crate) fn string_push(s: &mut String, c: char)
    ensures
        final(s)@ == old(s)@.push(c),
{
    s.push(c)
}

/// `String::pop`: removes the last character and returns it, or returns
/// `None` and leaves the empty string empty.
#[verifier::external_body]
pub(crate) fn string_pop(s: &mut String) -> (last: Option<char>)
    ensures
        old(s)@.len() == 0 ==> last is None && final(s)@ == old(s)@,
        old(s)@.len() > 0 ==> last == Some(old(s)@.last()) && final(s)@ == old(s)@.drop_last(),
{
    s.pop()
}

/// Whether the lower-case form of `text` contains `lowered_query`.
pub open spec fn folds_to_contain(text: Seq<char>, lowered_query: Seq<char>) -> bool {
    is_substring(lowered_query, lowercase(text))
}

/// Whether `text` contains `query` when case is ignored: the lower-case form
/// of the one contains the lower-case form of the other.
pub open spec fn matches_query(text: Seq<char>, query: Seq<char>) -> bool {
    folds_to_contain(text, lowercase(query))
}

} // verus!
