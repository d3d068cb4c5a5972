//! Finding one text in another, and cutting a text there.

use super::chars::{chars_of, same_chars, slice_of, text_of};
use vstd::prelude::*;

verus! {

/// Whether `needle` stands in `text` at `at`.
pub open spec fn stands_at(text: Seq<char>, needle: Seq<char>, at: int) -> bool {
    &&& 0 <= at
    &&& at + needle.len() <= text.len()
    &&& text.subrange(at, at + needle.len()) == needle
}

/// Whether `needle` stands anywhere in `text`.
pub open spec fn contains_text(text: Seq<char>, needle: Seq<char>) -> bool {
    exists|at: int| stands_at(text, needle, at)
}

/// Whether `at` is the first place at which `needle` stands in `text`.
pub open spec fn first_at(text: Seq<char>, needle: Seq<char>, at: int) -> bool {
    &&& stands_at(text, needle, at)
    &&& forall|before: int| 0 <= before < at ==> !stands_at(text, needle, before)
}

/// Whether `text` begins with `prefix`.
pub open spec fn begins_with(text: Seq<char>, prefix: Seq<char>) -> bool {
    stands_at(text, prefix, 0)
}

/// The place of the first `wanted`; the length of the text where there is none.
pub open spec fn index_of_char(text: Seq<char>, wanted: char) -> int
    decreases text.len(),
{
    if text.len() == 0 || text[0] == wanted {
        0
    } else {
        1 + index_of_char(text.drop_first(), wanted)
    }
}

/// The place of the last `wanted`; `-1` where there is none.
pub open spec fn last_index_of_char(text: Seq<char>, wanted: char) -> int
    decreases text.len(),
{
    if text.len() == 0 {
        -1
    } else if text.last() == wanted {
        text.len() - 1
    } else {
        last_index_of_char(text.drop_last(), wanted)
    }
}

/// The first place at which `needle` stands in `text`.
pub open spec fn index_of_text(text: Seq<char>, needle: Seq<char>) -> Option<int>
    decreases text.len(),
{
    if stands_at(text, needle, 0) {
        Some(0)
    } else if text.len() == 0 {
        None
    } else {
        match index_of_text(text.drop_first(), needle) {
            Some(at) => Some(at + 1),
            None => None,
        }
    }
}

/// The first place is the first of all places, and there is one wherever the text is contained.
pub proof fn lemma_index_of_text(text: Seq<char>, needle: Seq<char>)
    ensures
        match index_of_text(text, needle) {
            Some(at) => first_at(text, needle, at),
            None => !contains_text(text, needle),
        },
    decreases text.len(),
{
    if !stands_at(text, needle, 0) {
        if text.len() > 0 {
            let rest = text.drop_first();
            lemma_index_of_text(rest, needle);
            assert forall|at: int| at > 0 implies #[trigger] stands_at(text, needle, at)
                == stands_at(rest, needle, at - 1) by {
                if at + needle.len() <= text.len() {
                    assert(text.subrange(at, at + needle.len()) =~= rest.subrange(
                        at - 1,
                        at - 1 + needle.len(),
                    ));
                }
            }
            match index_of_text(rest, needle) {
                Some(at) => {
                    assert(stands_at(text, needle, at + 1));
                    assert forall|before: int| 0 <= before < at + 1 implies !stands_at(
                        text,
                        needle,
                        before,
                    ) by {
                        if before > 0 {
                            assert(!stands_at(rest, needle, before - 1));
                        }
                    }
                },
                None => {
                    assert forall|at: int| !stands_at(text, needle, at) by {
                        if at > 0 {
                            assert(!stands_at(rest, needle, at - 1));
                        }
                    }
                },
            }
        } else {
            assert forall|at: int| !stands_at(text, needle, at) by {
                if stands_at(text, needle, at) {
                    assert(at == 0);
                }
            }
        }
    }
}

/// There is one first place only.
pub proof fn lemma_first_at_is_index(text: Seq<char>, needle: Seq<char>, at: int)
    requires
        first_at(text, needle, at),
    ensures
        index_of_text(text, needle) == Some(at),
{
    lemma_index_of_text(text, needle);
    assert(stands_at(text, needle, at));
    match index_of_text(text, needle) {
        Some(other) => {
            if other < at {
                assert(!stands_at(text, needle, other));
            } else if at < other {
                assert(!stands_at(text, needle, at));
            }
        },
        None => {},
    }
}

/// The first place of `needle` in `text`.
pub fn find_chars(text: &[char], needle: &[char]) -> (found: Option<usize>)
    ensures
        match found {
            Some(at) => first_at(text@, needle@, at as int),
            None => !contains_text(text@, needle@),
        },
{
    if needle.len() > text.len() {
        return None;
    }
    let last: usize = text.len() - needle.len();
    let mut at: usize = 0;
    while at <= last
        invariant
            last == text.len() - needle.len(),
            at <= last + 1,
            forall|before: int| 0 <= before < at ==> !stands_at(text@, needle@, before),
        decreases last + 1 - at,
    {
        let part = slice_of(text, at, at + needle.len());
        if same_chars(&part, needle) {
            return Some(at);
        }
        if at == last {
            return None;
        }
        at = at + 1;
    }
    None
}

/// Whether `needle` stands anywhere in `text`.
pub fn has_text(text: &str, needle: &str) -> (r: bool)
    ensures
        r == contains_text(text@, needle@),
{
    let text_chars = chars_of(text);
    let needle_chars = chars_of(needle);
    find_chars(&text_chars, &needle_chars).is_some()
}

/// The text after `prefix`, where it begins with it.
pub fn after_prefix(text: &str, prefix: &str) -> (rest: Option<String>)
    ensures
        match rest {
            Some(rest) => begins_with(text@, prefix@) && rest@ == text@.skip(prefix@.len() as int),
            None => !begins_with(text@, prefix@),
        },
{
    let chars = chars_of(text);
    let wanted = chars_of(prefix);
    if wanted.len() > chars.len() {
        return None;
    }
    let head = slice_of(&chars, 0, wanted.len());
    if !same_chars(&head, &wanted) {
        return None;
    }
    let tail = slice_of(&chars, wanted.len(), chars.len());
    Some(text_of(&tail))
}

/// The place of the first `wanted`; the length of the text where there is none.
pub fn position_of(chars: &[char], wanted: char) -> (at: usize)
    ensures
        at == index_of_char(chars@, wanted),
        at <= chars.len(),
        at < chars.len() ==> chars@[at as int] == wanted,
        forall|before: int| 0 <= before < at ==> chars@[before] != wanted,
{
    let mut at: usize = 0;
    proof {
        assert(chars@.skip(0) =~= chars@);
    }
    while at < chars.len() && chars[at] != wanted
        invariant
            at <= chars.len(),
            index_of_char(chars@, wanted) == at + index_of_char(chars@.skip(at as int), wanted),
            forall|before: int| 0 <= before < at ==> chars@[before] != wanted,
        decreases chars.len() - at,
    {
        proof {
            assert(chars@.skip(at as int).drop_first() =~= chars@.skip(at + 1));
        }
        at = at + 1;
    }
    at
}

/// The parts before and after the first `separator`, where there is one.
pub fn split_at_first(text: &str, separator: char) -> (parts: Option<(String, String)>)
    ensures
        match parts {
            Some((head, tail)) => {
                let at = index_of_char(text@, separator);
                at < text@.len() && head@ == text@.take(at) && tail@ == text@.skip(at + 1)
            },
            None => index_of_char(text@, separator) == text@.len(),
        },
{
    let chars = chars_of(text);
    let at: usize = position_of(&chars, separator);
    if at == chars.len() {
        return None;
    }
    let head = slice_of(&chars, 0, at);
    let tail = slice_of(&chars, at + 1, chars.len());
    proof {
        assert(head@ =~= text@.take(at as int));
        assert(tail@ =~= text@.skip(at + 1));
    }
    Some((text_of(&head), text_of(&tail)))
}

/// The parts before and after the last `separator`, where there is one.
pub fn split_at_last(text: &str, separator: char) -> (parts: Option<(String, String)>)
    ensures
        match parts {
            Some((head, tail)) => {
                let at = last_index_of_char(text@, separator);
                0 <= at < text@.len() && head@ == text@.take(at) && tail@ == text@.skip(at + 1)
            },
            None => last_index_of_char(text@, separator) == -1,
        },
{
    let chars = chars_of(text);
    let mut end: usize = chars.len();
    proof {
        assert(text@.take(end as int) =~= text@);
    }
    while end > 0 && chars[end - 1] != separator
        invariant
            chars@ == text@,
            end <= chars.len(),
            last_index_of_char(text@, separator) == last_index_of_char(
                text@.take(end as int),
                separator,
            ),
        decreases end,
    {
        proof {
            assert(text@.take(end as int).drop_last() =~= text@.take(end - 1));
        }
        end = end - 1;
    }
    if end == 0 {
        return None;
    }
    let at: usize = end - 1;
    let head = slice_of(&chars, 0, at);
    let tail = slice_of(&chars, end, chars.len());
    proof {
        assert(head@ =~= text@.take(at as int));
        assert(tail@ =~= text@.skip(at + 1));
    }
    Some((text_of(&head), text_of(&tail)))
}

/// A character that occurs has a place, and the first one holds it.
pub proof fn lemma_index_of_char(text: Seq<char>, wanted: char)
    ensures
        0 <= index_of_char(text, wanted) <= text.len(),
        index_of_char(text, wanted) < text.len() ==> text[index_of_char(text, wanted)] == wanted,
        forall|before: int|
            0 <= before < index_of_char(text, wanted) ==> text[before] != wanted,
    decreases text.len(),
{
    if text.len() > 0 && text[0] != wanted {
        lemma_index_of_char(text.drop_first(), wanted);
        assert forall|before: int| 0 <= before < index_of_char(text, wanted) implies text[before]
            != wanted by {
            if before > 0 {
                assert(text.drop_first()[before - 1] == text[before]);
            }
        }
    }
}

} // verus!
