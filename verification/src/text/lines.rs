//! The lines of a text.

use super::chars::{chars_of, text_of};
use super::space::views;
use vstd::prelude::*;

verus! {

/// A line that a line feed ended, without the carriage return before it.
pub open spec fn without_return(line: Seq<char>) -> Seq<char> {
    if line.len() > 0 && line.last() == '\r' {
        line.drop_last()
    } else {
        line
    }
}

/// The lines of `current` followed by `text`, where `current` is the line being read.
pub open spec fn lines_after(current: Seq<char>, text: Seq<char>) -> Seq<Seq<char>>
    decreases text.len(),
{
    if text.len() == 0 {
        if current.len() > 0 {
            seq![current]
        } else {
            Seq::empty()
        }
    } else if text[0] == '\n' {
        seq![without_return(current)] + lines_after(Seq::empty(), text.drop_first())
    } else {
        lines_after(current.push(text[0]), text.drop_first())
    }
}

/// The lines of a text: a line ends at a line feed, which a carriage return may precede, or at
/// the end of the text.
pub open spec fn lines(text: Seq<char>) -> Seq<Seq<char>> {
    lines_after(Seq::empty(), text)
}

/// The lines of the text.
pub fn split_lines(text: &str) -> (parts: Vec<String>)
    ensures
        views(parts@) == lines(text@),
{
    let chars = chars_of(text);
    let mut parts: Vec<String> = Vec::new();
    let mut current: Vec<char> = Vec::new();
    proof {
        assert(text@.skip(0) =~= text@);
        assert(views(parts@) + lines(text@) =~= lines(text@));
    }
    for i in 0..chars.len()
        invariant
            chars@ == text@,
            lines(text@) == views(parts@) + lines_after(current@, text@.skip(i as int)),
    {
        let ghost before = views(parts@);
        let ghost rest = text@.skip(i as int);
        let c = chars[i];
        proof {
            assert(rest.drop_first() =~= text@.skip(i + 1));
            assert(rest[0] == c);
        }
        if c == '\n' {
            let ghost line = current@;
            if current.len() > 0 && current[current.len() - 1] == '\r' {
                let _ = current.pop();
            }
            parts.push(text_of(&current));
            proof {
                assert(current@ =~= without_return(line));
                assert(views(parts@) =~= before.push(current@));
                assert(before + (seq![current@] + lines_after(Seq::empty(), rest.drop_first()))
                    =~= before.push(current@) + lines_after(Seq::empty(), rest.drop_first()));
            }
            current = Vec::new();
        } else {
            current.push(c);
        }
    }
    proof {
        assert(text@.skip(chars.len() as int).len() == 0);
    }
    if current.len() > 0 {
        let ghost before = views(parts@);
        parts.push(text_of(&current));
        proof {
            assert(views(parts@) =~= before.push(current@));
            assert(before + seq![current@] =~= before.push(current@));
        }
    } else {
        proof {
            assert(views(parts@) + Seq::<Seq<char>>::empty() =~= views(parts@));
        }
    }
    parts
}

} // verus!
