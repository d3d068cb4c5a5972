//! The body of a response, in pieces as they arrive.

use super::response::{has_header, header_contains, header_views};
use crate::failure::Failure;
use crate::text::number::{hex_error, parse_hex, parsed_number};
use crate::text::search::{index_of_char, lemma_index_of_char, split_at_first};
use crate::text::space::{trim, trimmed};
use vstd::prelude::*;

verus! {

/// How far the reading of a body has come.
#[derive(Debug, Clone, Copy, PartialEq, Eq, Structural)]
pub enum BodyState {
    /// The size of the next chunk comes next.
    Size,
    /// That many bytes of a chunk come next.
    Chunk(usize),
    /// The line end after a chunk comes next.
    ChunkEnd,
    /// The body is not in chunks; any bytes come next.
    Plain,
    /// The body is complete.
    Complete,
}

/// What to read next of a body.
#[derive(Debug, Clone, Copy, PartialEq, Eq, Structural)]
pub enum BodyRead {
    Line,
    Exactly(usize),
    /// As many bytes as there are.
    Available,
    Nothing,
}

/// What has been read of a body.
pub enum BodyEvent {
    Line(String),
    /// Bytes; none at the end of the stream.
    Bytes(Vec<u8>),
    /// Reading failed, for this reason.
    Failed(String),
}

/// Where the reading of a body begins: with a chunk's size where the headers say so.
pub open spec fn first_state(headers: Seq<(Seq<char>, Seq<char>)>) -> BodyState {
    if has_header(headers, "transfer-encoding"@, "chunked"@) {
        BodyState::Size
    } else {
        BodyState::Plain
    }
}

/// What a line says of a chunk's size: the part before a semicolon.
pub open spec fn size_text(line: Seq<char>) -> Seq<char> {
    let text = trim(line);
    text.take(index_of_char(text, ';'))
}

/// The size of a chunk, in hexadecimal digits.
pub open spec fn chunk_size(line: Seq<char>) -> Option<int> {
    parsed_number(size_text(line), 16, usize::MAX as int)
}

impl BodyState {
    /// What to read next.
    pub open spec fn wants(self) -> BodyRead {
        match self {
            BodyState::Size => BodyRead::Line,
            BodyState::Chunk(size) => BodyRead::Exactly(size),
            BodyState::ChunkEnd => BodyRead::Exactly(2),
            BodyState::Plain => BodyRead::Available,
            BodyState::Complete => BodyRead::Nothing,
        }
    }

    /// Whether an event is what was to be read.
    pub open spec fn expects(self, event: BodyEvent) -> bool {
        match (self.wants(), event) {
            (BodyRead::Nothing, _) => false,
            (_, BodyEvent::Failed(_)) => true,
            (BodyRead::Line, BodyEvent::Line(_)) => true,
            (BodyRead::Exactly(size), BodyEvent::Bytes(bytes)) => bytes@.len() == size,
            (BodyRead::Available, BodyEvent::Bytes(_)) => true,
            _ => false,
        }
    }

    /// The state after an event; none where reading has failed.
    pub open spec fn after(self, event: BodyEvent) -> Option<BodyState> {
        match (self, event) {
            (_, BodyEvent::Failed(_)) => None,
            (BodyState::Size, BodyEvent::Line(line)) => match chunk_size(line@) {
                Some(size) => Some(
                    if size == 0 {
                        BodyState::Complete
                    } else {
                        BodyState::Chunk(size as usize)
                    },
                ),
                None => None,
            },
            (BodyState::Chunk(_), _) => Some(BodyState::ChunkEnd),
            (BodyState::ChunkEnd, _) => Some(BodyState::Size),
            (BodyState::Plain, BodyEvent::Bytes(bytes)) => Some(
                if bytes@.len() == 0 {
                    BodyState::Complete
                } else {
                    BodyState::Plain
                },
            ),
            _ => Some(self),
        }
    }

    /// The bytes of the body that an event brings.
    pub open spec fn brings(self, event: BodyEvent) -> Seq<u8> {
        match (self, event) {
            (BodyState::Chunk(_), BodyEvent::Bytes(bytes)) => bytes@,
            (BodyState::Plain, BodyEvent::Bytes(bytes)) => bytes@,
            _ => Seq::empty(),
        }
    }

    /// What an event that makes reading fail says.
    pub open spec fn complaint(self, event: BodyEvent) -> Seq<Seq<char>> {
        match event {
            BodyEvent::Line(line) => seq![
                "invalid chunk size from vLLM: "@ + size_text(line@),
                hex_error(size_text(line@), usize::BITS as int),
            ],
            BodyEvent::Failed(reason) => seq![reason@],
            BodyEvent::Bytes(_) => Seq::empty(),
        }
    }

    /// Where the reading of a body begins.
    pub fn start(headers: &[(String, String)]) -> (state: BodyState)
        ensures
            state == first_state(header_views(headers@)),
    {
        if header_contains(headers, "transfer-encoding", "chunked") {
            BodyState::Size
        } else {
            BodyState::Plain
        }
    }

    /// What to read next.
    pub fn next_read(self) -> (read: BodyRead)
        ensures
            read == self.wants(),
    {
        match self {
            BodyState::Size => BodyRead::Line,
            BodyState::Chunk(size) => BodyRead::Exactly(size),
            BodyState::ChunkEnd => BodyRead::Exactly(2),
            BodyState::Plain => BodyRead::Available,
            BodyState::Complete => BodyRead::Nothing,
        }
    }

    /// Takes in what has been read: the next state, and the bytes of the body that it brings.
    pub fn accept(self, event: BodyEvent) -> (result: Result<(BodyState, Vec<u8>), Failure>)
        requires
            self.expects(event),
        ensures
            match result {
                Ok((state, bytes)) => self.after(event) == Some(state) && bytes@ == self.brings(
                    event,
                ),
                Err(failure) => self.after(event) is None && failure@ == self.complaint(event),
            },
    {
        match event {
            BodyEvent::Failed(reason) => Err(Failure::new(reason)),
            BodyEvent::Line(line) => {
                let text = trimmed(line.as_str());
                proof {
                    lemma_index_of_char(text@, ';');
                    assert(text@.take(text@.len() as int) =~= text@);
                }
                let size_part = match split_at_first(text.as_str(), ';') {
                    Some((head, _)) => head,
                    None => text,
                };
                match parse_hex(size_part.as_str()) {
                    Ok(size) => {
                        if size == 0 {
                            Ok((BodyState::Complete, Vec::new()))
                        } else {
                            Ok((BodyState::Chunk(size), Vec::new()))
                        }
                    },
                    Err(reason) => {
                        let message = "invalid chunk size from vLLM: ".to_string().concat(
                            size_part.as_str(),
                        );
                        Err(Failure::because(message, reason))
                    },
                }
            },
            BodyEvent::Bytes(bytes) => match self {
                BodyState::Chunk(_) => Ok((BodyState::ChunkEnd, bytes)),
                BodyState::Plain => {
                    if bytes.len() == 0 {
                        Ok((BodyState::Complete, bytes))
                    } else {
                        Ok((BodyState::Plain, bytes))
                    }
                },
                _ => Ok((BodyState::Size, Vec::new())),
            },
        }
    }
}

/// Where a list of events leads, and the bytes of the body that they bring; none where reading
/// fails.
pub open spec fn body_of(state: BodyState, events: Seq<BodyEvent>) -> Option<(BodyState, Seq<u8>)>
    decreases events.len(),
{
    if events.len() == 0 {
        Some((state, Seq::empty()))
    } else {
        match state.after(events[0]) {
            Some(next) => match body_of(next, events.drop_first()) {
                Some((last, bytes)) => Some((last, state.brings(events[0]) + bytes)),
                None => None,
            },
            None => None,
        }
    }
}

/// A chunk as it is read: the line with its size, its bytes and the line end after them.
pub struct ChunkEvents {
    pub line: String,
    pub bytes: Vec<u8>,
    pub end: Vec<u8>,
}

/// The events of a list of chunks.
pub open spec fn chunk_events(chunks: Seq<ChunkEvents>) -> Seq<BodyEvent>
    decreases chunks.len(),
{
    if chunks.len() == 0 {
        Seq::empty()
    } else {
        seq![
            BodyEvent::Line(chunks[0].line),
            BodyEvent::Bytes(chunks[0].bytes),
            BodyEvent::Bytes(chunks[0].end),
        ] + chunk_events(chunks.drop_first())
    }
}

/// The bytes of a list of chunks.
pub open spec fn chunk_bytes(chunks: Seq<ChunkEvents>) -> Seq<u8>
    decreases chunks.len(),
{
    if chunks.len() == 0 {
        Seq::empty()
    } else {
        chunks[0].bytes@ + chunk_bytes(chunks.drop_first())
    }
}

/// A body in chunks, each as long as its size line says, is read to its end and brings the bytes
/// of the chunks, in order.
pub proof fn law_chunked_body_is_read_whole(chunks: Seq<ChunkEvents>, last: String)
    requires
        forall|i: int|
            0 <= i < chunks.len() ==> chunk_size((#[trigger] chunks[i]).line@) == Some(
                chunks[i].bytes@.len() as int,
            ) && chunks[i].bytes@.len() > 0,
        chunk_size(last@) == Some(0int),
    ensures
        body_of(BodyState::Size, chunk_events(chunks).push(BodyEvent::Line(last))) == Some(
            (BodyState::Complete, chunk_bytes(chunks)),
        ),
    decreases chunks.len(),
{
    let end = BodyEvent::Line(last);
    let events = chunk_events(chunks).push(end);
    reveal_with_fuel(body_of, 4);
    if chunks.len() == 0 {
        assert(events =~= seq![end]);
        assert(events.drop_first() =~= Seq::<BodyEvent>::empty());
        assert(Seq::<u8>::empty() + Seq::<u8>::empty() =~= Seq::<u8>::empty());
    } else {
        let chunk = chunks[0];
        let rest = chunks.drop_first();
        assert forall|i: int| 0 <= i < rest.len() implies chunk_size((#[trigger] rest[i]).line@)
            == Some(rest[i].bytes@.len() as int) && rest[i].bytes@.len() > 0 by {
            assert(rest[i] == chunks[i + 1]);
        }
        law_chunked_body_is_read_whole(rest, last);
        let after = chunk_events(rest).push(end);
        assert(events[0] == BodyEvent::Line(chunk.line));
        assert(events.drop_first()[0] == BodyEvent::Bytes(chunk.bytes));
        assert(events.drop_first().drop_first()[0] == BodyEvent::Bytes(chunk.end));
        assert(events.drop_first().drop_first().drop_first() =~= after);
        let nothing = Seq::<u8>::empty();
        assert(nothing + (chunk.bytes@ + (nothing + chunk_bytes(rest))) =~= chunk_bytes(chunks));
    }
}

} // verus!
