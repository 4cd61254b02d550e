//! Text: what the standard library and `itertools` do to it, stated for the
//! verifier, which has no account of them.

use itertools::Itertools;
use vstd::prelude::*;

verus! {

/// The mathematical value of a list of texts.
pub open spec fn texts_view(texts: Seq<String>) -> Seq<Seq<char>> {
    texts.map_values(|text: String| text@)
}

/// The lower-case form of a character if it is an upper-case ASCII letter,
/// and the character itself otherwise.
pub open spec fn ascii_lowercase_char(c: char) -> char {
    if 'A' <= c <= 'Z' {
        ((c as u32) + 32) as char
    } else {
        c
    }
}

/// The text with every upper-case ASCII letter replaced by its lower-case
/// form.
pub open spec fn ascii_lowercase(text: Seq<char>) -> Seq<char> {
    text.map_values(|c: char| ascii_lowercase_char(c))
}

/// The decimal digits of a natural number, most significant first.
pub open spec fn decimal_digits(n: nat) -> Seq<char>
    decreases n,
{
    if n < 10 {
        seq![(('0' as u32) + n as u32) as char]
    } else {
        decimal_digits(n / 10).push((('0' as u32) + (n % 10) as u32) as char)
    }
}

/// The decimal form of an integer, with a minus sign if it is negative.
pub open spec fn decimal(n: int) -> Seq<char> {
    if n < 0 {
        seq!['-'] + decimal_digits((-n) as nat)
    } else {
        decimal_digits(n as nat)
    }
}

/// The texts one after another, with `separator` between each two.
pub open spec fn joined(texts: Seq<Seq<char>>, separator: Seq<char>) -> Seq<char>
    decreases texts.len(),
{
    if texts.len() == 0 {
        Seq::empty()
    } else if texts.len() == 1 {
        texts[0]
    } else {
        joined(texts.drop_last(), separator) + separator + texts.last()
    }
}

/// The text without the white space at its start and at its end, in the
/// sense of `str::trim`.
pub uninterp spec fn trimmed(text: Seq<char>) -> Seq<char>;

/// The pieces of the text that are separated by white space, in the sense of
/// `str::split_whitespace`.
pub uninterp spec fn whitespace_split(text: Seq<char>) -> Seq<Seq<char>>;

/// Whether the character is a letter or a digit, in the sense of
/// `char::is_alphanumeric`.
pub uninterp spec fn char_is_alphanumeric(c: char) -> bool;

/// `==` on `str`: two texts are the same exactly when they have the same
/// characters in the same order.
#[verifier::external_body]
pub(crate) fn str_eq(left: &str, right: &str) -> (same: bool)
    ensures
        same == (left@ == right@),
{
    left == right
}

/// `str::trim`. What it gives depends on the text alone.
#[verifier::external_body]
pub(crate) fn trim(text: &str) -> (rest: &str)
    ensures
        rest@ == trimmed(text@),
{
    text.trim()
}

/// `str::to_ascii_lowercase`: upper-case ASCII letters are replaced by
/// their lower-case forms, and nothing else is changed.
#[verifier::external_body]
pub(crate) fn to_ascii_lowercase(text: &str) -> (lower: String)
    ensures
        lower@ == ascii_lowercase(text@),
{
    text.to_ascii_lowercase()
}

/// `str::eq_ignore_ascii_case`: whether two texts have the same lower-case
/// ASCII form.
#[verifier::external_body]
pub(crate) fn eq_ignore_ascii_case(left: &str, right: &str) -> (same: bool)
    ensures
        same == (ascii_lowercase(left@) == ascii_lowercase(right@)),
{
    left.eq_ignore_ascii_case(right)
}

/// `str::split_whitespace`, with each piece as a text of its own. What it
/// gives depends on the text alone.
#[verifier::external_body]
pub(crate) fn split_whitespace(text: &str) -> (pieces: Vec<String>)
    ensures
        texts_view(pieces@) == whitespace_split(text@),
{
    text.split_whitespace().map(|piece| piece.to_string()).collect()
}

/// `char::is_alphanumeric`. What it gives depends on the character alone.
#[verifier::external_body]
pub(crate) fn is_alphanumeric(c: char) -> (alphanumeric: bool)
    ensures
        alphanumeric == char_is_alphanumeric(c),
{
    c.is_alphanumeric()
}

/// `String::from_iter` on characters: the text made of the characters, in
/// their order.
#[verifier::external_body]
pub(crate) fn string_from_chars(chars: &Vec<char>) -> (text: String)
    ensures
        text@ == chars@,
{
    String::from_iter(chars.iter())
}

/// `i64::to_string`: the decimal form of the number.
#[verifier::external_body]
pub(crate) fn i64_to_string(n: i64) -> (text: String)
    ensures
        text@ == decimal(n as int),
{
    n.to_string()
}

/// `Itertools::join` of `itertools` on texts: the texts one after another,
/// with the separator between each two.
#[verifier::external_body]
pub(crate) fn join(texts: &Vec<String>, separator: &str) -> (text: String)
    ensures
        text@ == joined(texts_view(texts@), separator@),
{
    texts.iter().join(separator)
}

/// The characters of a text, in their order.
pub fn chars_of(text: &str) -> (chars: Vec<char>)
    ensures
        chars@ == text@,
{
    let length = text.unicode_len();
    let mut chars: Vec<char> = Vec::new();
    let mut i: usize = 0;
    while i < length
        invariant
            i <= length,
            length == text@.len(),
            chars@ == text@.subrange(0, i as int),
        decreases length - i,
    {
        chars.push(text.get_char(i));
        i = i + 1;
        assert(chars@ =~= text@.subrange(0, i as int));
    }
    assert(text@.subrange(0, i as int) =~= text@);
    chars
}

} // verus!
