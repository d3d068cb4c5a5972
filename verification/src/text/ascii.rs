//! Letter case of ASCII letters. Other characters have none here.

use super::chars::{chars_of, same_chars, text_of};
use vstd::prelude::*;

verus! {

/// The lower case form of an ASCII letter; any other character as it is.
pub open spec fn lower_char(c: char) -> char {
    if 'A' <= c && c <= 'Z' {
        ((c as u8) + 32) as u8 as char
    } else {
        c
    }
}

/// The text with its ASCII letters in lower case.
pub open spec fn lower(text: Seq<char>) -> Seq<char> {
    text.map_values(|c: char| lower_char(c))
}

fn lower_char_of(c: char) -> (r: char)
    ensures
        r == lower_char(c),
{
    if 'A' <= c && c <= 'Z' {
        ((c as u8) + 32) as char
    } else {
        c
    }
}

fn lower_chars(text: &str) -> (chars: Vec<char>)
    ensures
        chars@ == lower(text@),
{
    let source = chars_of(text);
    let mut chars: Vec<char> = Vec::new();
    for i in 0..source.len()
        invariant
            source@ == text@,
            chars@ == lower(text@).take(i as int),
    {
        chars.push(lower_char_of(source[i]));
    }
    proof {
        assert(lower(text@).take(source.len() as int) =~= lower(text@));
    }
    chars
}

/// The text with its ASCII letters in lower case.
pub fn to_lower(text: &str) -> (lowered: String)
    ensures
        lowered@ == lower(text@),
{
    let chars = lower_chars(text);
    text_of(&chars)
}

/// Whether two texts are equal, the case of ASCII letters aside.
pub fn same_ignoring_case(left: &str, right: &str) -> (same: bool)
    ensures
        same == (lower(left@) == lower(right@)),
{
    let left_chars = lower_chars(left);
    let right_chars = lower_chars(right);
    same_chars(&left_chars, &right_chars)
}

/// Lower case changes just the letters from A to Z, each to the one 32 places on; it leaves no
/// such letter, and doing it again changes nothing.
pub proof fn law_lower_changes_capitals_only(text: Seq<char>)
    ensures
        lower(text).len() == text.len(),
        forall|i: int|
            #![trigger lower(text)[i]]
            0 <= i < text.len() ==> if 'A' <= text[i] <= 'Z' {
                lower(text)[i] as int == text[i] as int + 32
            } else {
                lower(text)[i] == text[i]
            },
        lower(lower(text)) == lower(text),
{
    assert forall|i: int| 0 <= i < text.len() implies lower_char(lower_char(#[trigger] text[i]))
        == lower_char(text[i]) by {}
    assert(lower(lower(text)) =~= lower(text));
}

} // verus!
