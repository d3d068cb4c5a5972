//! The head of a response.

use crate::failure::Failure;
use crate::text::ascii::{lower, same_ignoring_case, to_lower};
use crate::text::chars::{chars_of, slice_of, text_of};
use crate::text::number::{decimal, decimal_text, parse_u16, parsed_number};
use crate::text::search::{
    contains_text, has_text, index_of_char, lemma_index_of_char, split_at_first,
};
use crate::text::space::{split_words, trim, trimmed, views, words};
use vstd::prelude::*;

verus! {

/// How `Debug` shows a text.
pub uninterp spec fn debug_form(text: Seq<char>) -> Seq<char>;

/// Prints a text by `<str as std::fmt::Debug>::fmt`. The result is named by [`debug_form`].
#[verifier::external_body]
fn debug_text(text: &str) -> (shown: String)
    ensures
        shown@ == debug_form(text@),
{
    format!("{text:?}")
}

/// The headers of a response, the names in lower case.
pub open spec fn header_views(headers: Seq<(String, String)>) -> Seq<(Seq<char>, Seq<char>)> {
    headers.map_values(|header: (String, String)| (header.0@, header.1@))
}

/// The status that a status line gives as its second word.
pub open spec fn status_of(line: Seq<char>) -> Option<u16> {
    if words(line).len() < 2 {
        None
    } else {
        match parsed_number(words(line)[1], 10, u16::MAX as int) {
            Some(number) => Some(number as u16),
            None => None,
        }
    }
}

/// What is wrong with a status line without a status.
pub open spec fn bad_status_message(line: Seq<char>) -> Seq<char> {
    "invalid HTTP response from vLLM server: "@ + debug_form(line)
}

/// Reads a status line.
pub fn parse_status_line(line: &str) -> (result: Result<u16, Failure>)
    ensures
        match result {
            Ok(status) => status_of(line@) == Some(status),
            Err(failure) => status_of(line@) is None && failure@ == seq![bad_status_message(line@)],
        },
{
    let parts = split_words(line);
    proof {
        assert(views(parts@).len() == parts@.len());
        if parts@.len() > 1 {
            assert(views(parts@)[1] == parts@[1]@);
        }
    }
    if parts.len() > 1 {
        match parse_u16(parts[1].as_str()) {
            Ok(status) => {
                return Ok(status);
            },
            Err(_) => {},
        }
    }
    let shown = debug_text(line);
    Err(
        Failure::new(
            "invalid HTTP response from vLLM server: ".to_string().concat(shown.as_str()),
        ),
    )
}

/// A line without its line end.
pub open spec fn without_line_end(line: Seq<char>) -> Seq<char>
    decreases line.len(),
{
    if line.len() > 0 && (line.last() == '\r' || line.last() == '\n') {
        without_line_end(line.drop_last())
    } else {
        line
    }
}

fn strip_line_end(line: &str) -> (stripped: String)
    ensures
        stripped@ == without_line_end(line@),
{
    let chars = chars_of(line);
    let mut end: usize = chars.len();
    proof {
        assert(line@.take(end as int) =~= line@);
    }
    while end > 0 && (chars[end - 1] == '\r' || chars[end - 1] == '\n')
        invariant
            chars@ == line@,
            end <= chars.len(),
            without_line_end(line@) == without_line_end(line@.take(end as int)),
        decreases end,
    {
        proof {
            assert(line@.take(end as int).drop_last() =~= line@.take(end - 1));
        }
        end = end - 1;
    }
    let part = slice_of(&chars, 0, end);
    proof {
        assert(part@ =~= line@.take(end as int));
    }
    text_of(&part)
}

/// The header that a line holds: a name in lower case and a value, split at the first colon. A
/// line without a colon holds none.
pub open spec fn header_of(line: Seq<char>) -> Seq<(Seq<char>, Seq<char>)> {
    let at = index_of_char(line, ':');
    if at < line.len() {
        seq![(lower(trim(line.take(at))), trim(line.skip(at + 1)))]
    } else {
        Seq::empty()
    }
}

/// The headers in a list of lines, after those in `found`; none where the empty line that ends
/// them is not among the lines.
pub open spec fn headers_after(
    found: Seq<(Seq<char>, Seq<char>)>,
    lines: Seq<Seq<char>>,
) -> Option<Seq<(Seq<char>, Seq<char>)>>
    decreases lines.len(),
{
    if lines.len() == 0 {
        None
    } else if without_line_end(lines[0]).len() == 0 {
        Some(found)
    } else {
        headers_after(found + header_of(without_line_end(lines[0])), lines.drop_first())
    }
}

/// The headers in a list of lines up to the first empty one.
pub fn read_headers(lines: &[String]) -> (headers: Option<Vec<(String, String)>>)
    ensures
        match headers {
            Some(headers) => headers_after(Seq::empty(), views(lines@)) == Some(
                header_views(headers@),
            ),
            None => headers_after(Seq::empty(), views(lines@)) is None,
        },
{
    let ghost all = views(lines@);
    let mut headers: Vec<(String, String)> = Vec::new();
    proof {
        assert(all.skip(0) =~= all);
        assert(header_views(headers@) =~= Seq::empty());
    }
    for i in 0..lines.len()
        invariant
            all == views(lines@),
            headers_after(Seq::empty(), all) == headers_after(
                header_views(headers@),
                all.skip(i as int),
            ),
    {
        let ghost before = header_views(headers@);
        proof {
            assert(all.skip(i as int).drop_first() =~= all.skip(i + 1));
            assert(all.skip(i as int)[0] == lines@[i as int]@);
        }
        let line = strip_line_end(lines[i].as_str());
        if line.as_str().is_empty() {
            return Some(headers);
        }
        match split_at_first(line.as_str(), ':') {
            Some((name, value)) => {
                let name_text = trimmed(name.as_str());
                headers.push((to_lower(name_text.as_str()), trimmed(value.as_str())));
                proof {
                    assert(header_views(headers@) =~= before + header_of(line@));
                }
            },
            None => {
                proof {
                    lemma_index_of_char(line@, ':');
                    assert(before + header_of(line@) =~= before);
                }
            },
        }
    }
    None
}

/// Whether a header of that name holds the text, the case of letters aside.
pub open spec fn has_header(
    headers: Seq<(Seq<char>, Seq<char>)>,
    name: Seq<char>,
    needle: Seq<char>,
) -> bool {
    exists|i: int|
        0 <= i < headers.len() && lower((#[trigger] headers[i]).0) == lower(name) && contains_text(
            lower(headers[i].1),
            needle,
        )
}

/// Whether a header of that name holds the text, which is in lower case.
pub fn header_contains(headers: &[(String, String)], name: &str, needle: &str) -> (r: bool)
    ensures
        r == has_header(header_views(headers@), name@, needle@),
{
    let ghost all = header_views(headers@);
    for i in 0..headers.len()
        invariant
            all == header_views(headers@),
            forall|j: int|
                0 <= j < i ==> !(lower((#[trigger] all[j]).0) == lower(name@) && contains_text(
                    lower(all[j].1),
                    needle@,
                )),
    {
        proof {
            assert(all[i as int] == (headers@[i as int].0@, headers@[i as int].1@));
        }
        if same_ignoring_case(headers[i].0.as_str(), name) {
            let value = to_lower(headers[i].1.as_str());
            if has_text(value.as_str(), needle) {
                return true;
            }
        }
    }
    false
}

/// What a response that refuses a request says.
pub open spec fn refusal_message(status: u16, body: Seq<char>) -> Seq<char> {
    "vLLM HTTP "@ + decimal(status as nat) + ": "@ + trim(body)
}

/// The failure of a request that the server refused.
pub fn refusal(status: u16, body: &str) -> (failure: Failure)
    ensures
        failure@ == seq![refusal_message(status, body@)],
{
    let message = "vLLM HTTP ".to_string().concat(decimal_text(status as u64).as_str()).concat(
        ": ",
    ).concat(trimmed(body).as_str());
    Failure::new(message)
}

} // verus!
