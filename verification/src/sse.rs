//! Server-sent events: the data lines of a byte stream that arrives in pieces.
//!
//! Lines are told apart in the bytes. No byte of a line end, and none of `data:`, is ever part of
//! a longer character, so the text of a line is the same as if the event were decoded first.

use crate::text::bytes::{bytes_between, text_from_utf8, utf8_lossy};
use crate::text::space::{trim, trimmed, views};
use vstd::prelude::*;

verus! {

/// The first place at which `mark` stands in the bytes.
pub open spec fn find_mark(bytes: Seq<u8>, mark: Seq<u8>) -> Option<int>
    decreases bytes.len(),
{
    if bytes.len() == 0 || bytes.len() < mark.len() {
        None
    } else if bytes.take(mark.len() as int) == mark {
        Some(0)
    } else {
        match find_mark(bytes.drop_first(), mark) {
            Some(at) => Some(at + 1),
            None => None,
        }
    }
}

/// Two line feeds.
pub open spec fn feed_pair() -> Seq<u8> {
    seq![10u8, 10u8]
}

/// Two line ends of a carriage return and a line feed each.
pub open spec fn return_pair() -> Seq<u8> {
    seq![13u8, 10u8, 13u8, 10u8]
}

/// Where the first event ends: at the first two line feeds; where there are none, at the first
/// two line ends with carriage returns.
pub open spec fn boundary(bytes: Seq<u8>) -> Option<int> {
    match find_mark(bytes, feed_pair()) {
        Some(at) => Some(at),
        None => find_mark(bytes, return_pair()),
    }
}

/// Whether a byte is part of a line end.
pub open spec fn is_break(byte: u8) -> bool {
    byte == 13 || byte == 10
}

/// The bytes without the line ends at their start.
pub open spec fn without_breaks(bytes: Seq<u8>) -> Seq<u8>
    decreases bytes.len(),
{
    if bytes.len() > 0 && is_break(bytes[0]) {
        without_breaks(bytes.drop_first())
    } else {
        bytes
    }
}

/// The bytes of `data:`.
pub open spec fn data_mark() -> Seq<u8> {
    seq![100u8, 97u8, 116u8, 97u8, 58u8]
}

/// A line without the carriage returns at its end.
pub open spec fn without_returns(line: Seq<u8>) -> Seq<u8>
    decreases line.len(),
{
    if line.len() > 0 && line.last() == 13 {
        without_returns(line.drop_last())
    } else {
        line
    }
}

/// The data that one line carries: the text of what follows `data:`, without white space at
/// either end.
pub open spec fn line_data(line: Seq<u8>) -> Seq<Seq<char>> {
    if line.len() >= 5 && line.take(5) == data_mark() {
        seq![trim(utf8_lossy(without_returns(line.skip(5))))]
    } else {
        Seq::empty()
    }
}

/// The data of the lines of `current` followed by `bytes`, where `current` is the line being
/// read.
pub open spec fn data_after(current: Seq<u8>, bytes: Seq<u8>) -> Seq<Seq<char>>
    decreases bytes.len(),
{
    if bytes.len() == 0 {
        line_data(current)
    } else if bytes[0] == 10 {
        line_data(current) + data_after(Seq::empty(), bytes.drop_first())
    } else {
        data_after(current.push(bytes[0]), bytes.drop_first())
    }
}

/// The data of an event, line by line.
pub open spec fn event_data(event: Seq<u8>) -> Seq<Seq<char>> {
    data_after(Seq::empty(), event)
}

/// A mark that is found stands within the bytes.
pub proof fn lemma_find_mark(bytes: Seq<u8>, mark: Seq<u8>)
    requires
        mark.len() > 0,
    ensures
        find_mark(bytes, mark) matches Some(at) ==> 0 <= at <= bytes.len() - mark.len()
            && bytes.subrange(at, at + mark.len()) == mark && bytes[at] == mark[0],
    decreases bytes.len(),
{
    if bytes.len() == 0 || bytes.len() < mark.len() {
    } else if bytes.take(mark.len() as int) == mark {
        assert(bytes.subrange(0, mark.len() as int) =~= bytes.take(mark.len() as int));
        assert(bytes.take(mark.len() as int)[0] == bytes[0]);
    } else {
        lemma_find_mark(bytes.drop_first(), mark);
        match find_mark(bytes.drop_first(), mark) {
            Some(at) => {
                assert(bytes.drop_first().subrange(at, at + mark.len()) =~= bytes.subrange(
                    at + 1,
                    at + 1 + mark.len(),
                ));
            },
            None => {},
        }
    }
}

proof fn lemma_without_breaks(bytes: Seq<u8>)
    ensures
        without_breaks(bytes).len() <= bytes.len(),
        bytes.len() > 0 && is_break(bytes[0]) ==> without_breaks(bytes).len() < bytes.len(),
    decreases bytes.len(),
{
    if bytes.len() > 0 && is_break(bytes[0]) {
        lemma_without_breaks(bytes.drop_first());
    }
}

/// What follows an event is shorter than what held it.
pub proof fn lemma_boundary(bytes: Seq<u8>)
    ensures
        boundary(bytes) matches Some(at) ==> 0 <= at < bytes.len() && is_break(bytes[at])
            && without_breaks(bytes.skip(at)).len() < bytes.len(),
{
    lemma_find_mark(bytes, feed_pair());
    lemma_find_mark(bytes, return_pair());
    match boundary(bytes) {
        Some(at) => {
            lemma_without_breaks(bytes.skip(at));
        },
        None => {},
    }
}

/// The data of the events that are complete.
pub open spec fn ready(bytes: Seq<u8>) -> Seq<Seq<char>>
    decreases bytes.len(),
{
    match boundary(bytes) {
        Some(at) => {
            proof {
                lemma_boundary(bytes);
            }
            event_data(bytes.take(at)) + ready(without_breaks(bytes.skip(at)))
        },
        None => Seq::empty(),
    }
}

/// The bytes that stay when the complete events have been taken.
pub open spec fn left(bytes: Seq<u8>) -> Seq<u8>
    decreases bytes.len(),
{
    match boundary(bytes) {
        Some(at) => {
            proof {
                lemma_boundary(bytes);
            }
            left(without_breaks(bytes.skip(at)))
        },
        None => bytes,
    }
}

/// Whether `mark` stands in the bytes at `at`.
fn stands_mark(bytes: &[u8], at: usize, mark: &[u8]) -> (r: bool)
    requires
        at + mark.len() <= bytes.len(),
    ensures
        r == (bytes@.skip(at as int).take(mark.len() as int) == mark@),
{
    let ghost part = bytes@.skip(at as int).take(mark.len() as int);
    for i in 0..mark.len()
        invariant
            at + mark.len() <= bytes.len(),
            part == bytes@.skip(at as int).take(mark.len() as int),
            forall|j: int| 0 <= j < i ==> part[j] == mark@[j],
    {
        if bytes[at + i] != mark[i] {
            proof {
                assert(part[i as int] != mark@[i as int]);
            }
            return false;
        }
    }
    proof {
        assert(part =~= mark@);
    }
    true
}

fn find_mark_in(bytes: &[u8], mark: &[u8]) -> (found: Option<usize>)
    requires
        mark.len() > 0,
    ensures
        match found {
            Some(at) => find_mark(bytes@, mark@) == Some(at as int),
            None => find_mark(bytes@, mark@) is None,
        },
{
    let mut at: usize = 0;
    proof {
        assert(bytes@.skip(0) =~= bytes@);
    }
    while at < bytes.len() && bytes.len() - at >= mark.len()
        invariant
            mark.len() > 0,
            at <= bytes.len(),
            find_mark(bytes@, mark@) == (match find_mark(bytes@.skip(at as int), mark@) {
                Some(rest) => Some(rest + at),
                None => None::<int>,
            }),
        decreases bytes.len() - at,
    {
        proof {
            assert(bytes@.skip(at as int).drop_first() =~= bytes@.skip(at + 1));
        }
        if stands_mark(bytes, at, mark) {
            return Some(at);
        }
        at = at + 1;
    }
    None
}

/// Where the first event in the bytes ends.
pub fn find_sse_boundary(bytes: &[u8]) -> (found: Option<usize>)
    ensures
        match found {
            Some(at) => boundary(bytes@) == Some(at as int),
            None => boundary(bytes@) is None,
        },
{
    let feeds: Vec<u8> = vec![10, 10];
    proof {
        assert(feeds@ =~= feed_pair());
    }
    match find_mark_in(bytes, &feeds) {
        Some(at) => Some(at),
        None => {
            let ends: Vec<u8> = vec![13, 10, 13, 10];
            proof {
                assert(ends@ =~= return_pair());
            }
            find_mark_in(bytes, &ends)
        },
    }
}

fn push_line_data(data: &mut Vec<String>, line: &[u8])
    ensures
        views(final(data)@) == views(old(data)@) + line_data(line@),
{
    let ghost before = views(data@);
    let mark: Vec<u8> = vec![100, 97, 116, 97, 58];
    proof {
        assert(mark@ =~= data_mark());
        assert(line@.skip(0) =~= line@);
    }
    if line.len() >= 5 && stands_mark(line, 0, &mark) {
        let mut end: usize = line.len();
        let ghost rest = line@.skip(5);
        proof {
            assert(rest.take(end - 5) =~= rest);
        }
        while end > 5 && line[end - 1] == 13
            invariant
                rest == line@.skip(5),
                5 <= end <= line.len(),
                without_returns(rest) == without_returns(rest.take(end - 5)),
            decreases end,
        {
            proof {
                assert(rest.take(end - 5).drop_last() =~= rest.take(end - 6));
            }
            end = end - 1;
        }
        let part = bytes_between(line, 5, end);
        proof {
            assert(part@ =~= rest.take(end - 5));
        }
        let text = text_from_utf8(&part);
        data.push(trimmed(text.as_str()));
    }
    proof {
        assert(views(data@) =~= before + line_data(line@));
    }
}

fn push_event_data(data: &mut Vec<String>, event: &[u8])
    ensures
        views(final(data)@) == views(old(data)@) + event_data(event@),
{
    let ghost before = views(data@);
    let mut current: Vec<u8> = Vec::new();
    proof {
        assert(event@.skip(0) =~= event@);
    }
    for i in 0..event.len()
        invariant
            before + event_data(event@) == views(data@) + data_after(
                current@,
                event@.skip(i as int),
            ),
    {
        let ghost rest = event@.skip(i as int);
        let ghost now = views(data@);
        proof {
            assert(rest.drop_first() =~= event@.skip(i + 1));
            assert(rest[0] == event@[i as int]);
        }
        if event[i] == 10 {
            let ghost line = current@;
            push_line_data(data, &current);
            proof {
                let tail = data_after(Seq::empty(), rest.drop_first());
                assert(now + (line_data(line) + tail) =~= (now + line_data(line)) + tail);
            }
            current = Vec::new();
        } else {
            current.push(event[i]);
        }
    }
    push_line_data(data, &current);
}

/// The bytes of a stream that no complete event has used up.
pub struct SseAccumulator {
    pub pending: Vec<u8>,
}

impl SseAccumulator {
    /// Nothing has arrived.
    pub fn new() -> (accumulator: SseAccumulator)
        ensures
            accumulator.pending@.len() == 0,
    {
        SseAccumulator { pending: Vec::new() }
    }

    /// Takes the next bytes of the stream, and gives the data of the events that they complete.
    pub fn push(&mut self, bytes: &[u8]) -> (data: Vec<String>)
        ensures
            views(data@) == ready(old(self).pending@ + bytes@),
            final(self).pending@ == left(old(self).pending@ + bytes@),
    {
        self.pending.extend_from_slice(bytes);
        let ghost all = self.pending@;
        let mut data: Vec<String> = Vec::new();
        proof {
            assert(all =~= old(self).pending@ + bytes@);
            assert(views(data@) + ready(all) =~= ready(all));
        }
        loop
            invariant
                views(data@) + ready(self.pending@) == ready(all),
                left(self.pending@) == left(all),
            ensures
                views(data@) == ready(all),
                self.pending@ == left(all),
            decreases self.pending@.len(),
        {
            proof {
                lemma_boundary(self.pending@);
            }
            let ghost now = views(data@);
            let ghost bytes_now = self.pending@;
            match find_sse_boundary(&self.pending) {
                None => {
                    proof {
                        assert(now + Seq::<Seq<char>>::empty() =~= now);
                    }
                    break;
                },
                Some(at) => {
                    let event = bytes_between(&self.pending, 0, at);
                    proof {
                        assert(event@ =~= bytes_now.take(at as int));
                    }
                    push_event_data(&mut data, &event);
                    let mut start: usize = at;
                    while start < self.pending.len() && (self.pending[start] == 13
                        || self.pending[start] == 10)
                        invariant
                            self.pending@ == bytes_now,
                            at <= start <= self.pending.len(),
                            without_breaks(bytes_now.skip(at as int)) == without_breaks(
                                bytes_now.skip(start as int),
                            ),
                        decreases self.pending.len() - start,
                    {
                        proof {
                            assert(bytes_now.skip(start as int).drop_first() =~= bytes_now.skip(
                                start + 1,
                            ));
                        }
                        start = start + 1;
                    }
                    let rest = bytes_between(&self.pending, start, self.pending.len());
                    proof {
                        assert(rest@ =~= bytes_now.skip(start as int));
                        let tail = ready(without_breaks(bytes_now.skip(at as int)));
                        assert(now + (event_data(event@) + tail) =~= (now + event_data(event@))
                            + tail);
                    }
                    self.pending = rest;
                },
            }
        }
        data
    }
}

} // verus!
