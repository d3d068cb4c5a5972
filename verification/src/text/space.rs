//! White space, and the words between it.

use super::chars::{chars_of, slice_of, text_of};
use vstd::prelude::*;

verus! {

/// The contents of an optional string.
pub open spec fn optional_text(text: Option<String>) -> Option<Seq<char>> {
    match text {
        Some(text) => Some(text@),
        None => None,
    }
}

/// Whether a character has the Unicode property `White_Space`.
pub open spec fn is_space(c: char) -> bool {
    let code = c as u32;
    ||| 0x09 <= code <= 0x0d
    ||| code == 0x20
    ||| code == 0x85
    ||| code == 0xa0
    ||| code == 0x1680
    ||| 0x2000 <= code <= 0x200a
    ||| code == 0x2028
    ||| code == 0x2029
    ||| code == 0x202f
    ||| code == 0x205f
    ||| code == 0x3000
}

/// Whether a character has the Unicode property `White_Space`.
pub fn is_space_char(c: char) -> (r: bool)
    ensures
        r == is_space(c),
{
    let code: u32 = c as u32;
    (0x09 <= code && code <= 0x0d) || code == 0x20 || code == 0x85 || code == 0xa0 || code == 0x1680
        || (0x2000 <= code && code <= 0x200a) || code == 0x2028 || code == 0x2029 || code == 0x202f
        || code == 0x205f || code == 0x3000
}

/// The text without white space at its start.
pub open spec fn trim_start(text: Seq<char>) -> Seq<char>
    decreases text.len(),
{
    if text.len() > 0 && is_space(text[0]) {
        trim_start(text.drop_first())
    } else {
        text
    }
}

/// The text without white space at its end.
pub open spec fn trim_end(text: Seq<char>) -> Seq<char>
    decreases text.len(),
{
    if text.len() > 0 && is_space(text.last()) {
        trim_end(text.drop_last())
    } else {
        text
    }
}

/// The text without white space at either end.
pub open spec fn trim(text: Seq<char>) -> Seq<char> {
    trim_end(trim_start(text))
}

/// A word where there is one: the list of it alone, or nothing.
pub open spec fn word_list(word: Seq<char>) -> Seq<Seq<char>> {
    if word.len() > 0 {
        seq![word]
    } else {
        Seq::empty()
    }
}

/// The words of `current` followed by `text`, where `current` is the word being read.
pub open spec fn words_after(current: Seq<char>, text: Seq<char>) -> Seq<Seq<char>>
    decreases text.len(),
{
    if text.len() == 0 {
        word_list(current)
    } else if is_space(text[0]) {
        word_list(current) + words_after(Seq::empty(), text.drop_first())
    } else {
        words_after(current.push(text[0]), text.drop_first())
    }
}

/// The parts of the text between white space, none of them empty.
pub open spec fn words(text: Seq<char>) -> Seq<Seq<char>> {
    words_after(Seq::empty(), text)
}

/// The parts, with a space between each two.
pub open spec fn join(parts: Seq<Seq<char>>, separator: Seq<char>) -> Seq<char>
    decreases parts.len(),
{
    if parts.len() == 0 {
        Seq::empty()
    } else if parts.len() == 1 {
        parts[0]
    } else {
        join(parts.drop_last(), separator) + separator + parts.last()
    }
}

/// The contents of a list of strings.
pub open spec fn views(parts: Seq<String>) -> Seq<Seq<char>> {
    parts.map_values(|part: String| part@)
}

/// The text without white space at either end.
pub fn trimmed(text: &str) -> (r: String)
    ensures
        r@ == trim(text@),
{
    let chars = chars_of(text);
    let mut start: usize = 0;
    proof {
        assert(text@.skip(0) =~= text@);
    }
    while start < chars.len() && is_space_char(chars[start])
        invariant
            chars@ == text@,
            start <= chars.len(),
            trim_start(text@) == trim_start(text@.skip(start as int)),
        decreases chars.len() - start,
    {
        proof {
            assert(text@.skip(start as int).drop_first() =~= text@.skip(start + 1));
        }
        start = start + 1;
    }
    let ghost kept = text@.skip(start as int);
    proof {
        assert(trim_start(text@) == kept);
    }
    let mut end: usize = chars.len();
    proof {
        assert(kept.take(end - start) =~= kept);
    }
    while start < end && is_space_char(chars[end - 1])
        invariant
            chars@ == text@,
            kept == text@.skip(start as int),
            start <= end <= chars.len(),
            trim_end(kept) == trim_end(kept.take(end - start)),
        decreases end,
    {
        proof {
            assert(kept.take(end - start).drop_last() =~= kept.take(end - start - 1));
        }
        end = end - 1;
    }
    proof {
        assert(kept.take(end - start) =~= text@.subrange(start as int, end as int));
    }
    let part = slice_of(&chars, start, end);
    text_of(&part)
}

/// The parts of the text between white space.
pub fn split_words(text: &str) -> (parts: Vec<String>)
    ensures
        views(parts@) == words(text@),
{
    let chars = chars_of(text);
    let mut parts: Vec<String> = Vec::new();
    let mut current: Vec<char> = Vec::new();
    proof {
        assert(text@.skip(0) =~= text@);
        assert(views(parts@) + words(text@) =~= words(text@));
    }
    for i in 0..chars.len()
        invariant
            chars@ == text@,
            words(text@) == views(parts@) + words_after(current@, text@.skip(i as int)),
    {
        let ghost before = views(parts@);
        let ghost rest = text@.skip(i as int);
        let c = chars[i];
        proof {
            assert(rest.drop_first() =~= text@.skip(i + 1));
            assert(rest[0] == c);
        }
        if is_space_char(c) {
            if current.len() > 0 {
                parts.push(text_of(&current));
                proof {
                    assert(views(parts@) =~= before.push(current@));
                    assert(before + (seq![current@] + words_after(Seq::empty(), rest.drop_first()))
                        =~= before.push(current@) + words_after(Seq::empty(), rest.drop_first()));
                }
                current = Vec::new();
            } else {
                proof {
                    assert(word_list(current@) + words_after(Seq::empty(), rest.drop_first())
                        =~= words_after(Seq::empty(), rest.drop_first()));
                    assert(current@ =~= Seq::empty());
                }
            }
        } else {
            current.push(c);
        }
    }
    proof {
        assert(text@.skip(chars.len() as int).len() == 0);
        assert(words_after(current@, text@.skip(chars.len() as int)) == word_list(current@));
    }
    if current.len() > 0 {
        let ghost before = views(parts@);
        parts.push(text_of(&current));
        proof {
            assert(views(parts@) =~= before.push(current@));
            assert(before + seq![current@] =~= before.push(current@));
        }
    } else {
        proof {
            assert(views(parts@) + word_list(current@) =~= views(parts@));
        }
    }
    parts
}

/// The number of words of the text.
pub fn count_words(text: &str) -> (count: usize)
    ensures
        count == words(text@).len(),
{
    let parts = split_words(text);
    proof {
        assert(views(parts@).len() == parts@.len());
    }
    parts.len()
}

/// The parts with a separator between each two.
pub fn joined(parts: &[String], separator: &str) -> (text: String)
    ensures
        text@ == join(views(parts@), separator@),
{
    let mut text = String::new();
    for i in 0..parts.len()
        invariant
            text@ == join(views(parts@).take(i as int), separator@),
    {
        proof {
            let all = views(parts@);
            assert(all.take(i + 1).drop_last() =~= all.take(i as int));
            assert(all.take(i + 1).last() == parts@[i as int]@);
        }
        if i > 0 {
            text.append(separator);
        }
        text.append(parts[i].as_str());
        proof {
            if i == 0 {
                assert(text@ =~= parts@[0]@);
            }
        }
    }
    proof {
        assert(views(parts@).take(parts.len() as int) =~= views(parts@));
    }
    text
}

/// A part without white space, read at the start of a text, extends the word being read.
pub proof fn lemma_words_after_word(current: Seq<char>, word: Seq<char>, text: Seq<char>)
    requires
        forall|i: int| 0 <= i < word.len() ==> !is_space(word[i]),
    ensures
        words_after(current, word + text) == words_after(current + word, text),
    decreases word.len(),
{
    if word.len() == 0 {
        assert(word + text =~= text);
        assert(current + word =~= current);
    } else {
        assert((word + text).drop_first() =~= word.drop_first() + text);
        assert(current.push(word[0]) + word.drop_first() =~= current + word);
        lemma_words_after_word(current.push(word[0]), word.drop_first(), text);
    }
}

/// Whether the characters are a word: one or more, none of them white space.
pub open spec fn is_word(word: Seq<char>) -> bool {
    word.len() > 0 && forall|i: int| 0 <= i < word.len() ==> !is_space(word[i])
}

/// Every part between white space is a word.
pub proof fn lemma_words_are_words(current: Seq<char>, text: Seq<char>)
    requires
        current.len() > 0 ==> is_word(current),
    ensures
        forall|k: int|
            0 <= k < words_after(current, text).len() ==> is_word(
                #[trigger] words_after(current, text)[k],
            ),
    decreases text.len(),
{
    if text.len() > 0 {
        if is_space(text[0]) {
            let rest = words_after(Seq::empty(), text.drop_first());
            lemma_words_are_words(Seq::empty(), text.drop_first());
            assert forall|k: int| 0 <= k < words_after(current, text).len() implies is_word(
                #[trigger] words_after(current, text)[k],
            ) by {
                let lead = word_list(current);
                if k >= lead.len() {
                    assert(words_after(current, text)[k] == rest[k - lead.len()]);
                }
            }
        } else {
            lemma_words_are_words(current.push(text[0]), text.drop_first());
            assert(words_after(current, text) == words_after(
                current.push(text[0]),
                text.drop_first(),
            ));
        }
    } else {
        assert(words_after(current, text) == word_list(current));
    }
}

} // verus!
