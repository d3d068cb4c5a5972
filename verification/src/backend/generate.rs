//! Requests for generated text, and what comes of them.

use crate::failure::{chain_text, Failure};
use crate::json::value::JsonValue;
use crate::text::space::views;
use serde_json::Number;
use std::path::PathBuf;
use vstd::prelude::*;

verus! {

/// A number that steers sampling, in the forms in which backends take it.
#[derive(Debug, Clone)]
pub struct SamplingNumber {
    /// The shortest digits that name the number.
    pub shown: String,
    /// The number with six digits after the point.
    pub fixed: String,
    /// The number in JSON, which has no form for one that is not finite.
    pub json: Option<Number>,
}

/// How finely a stream is cut.
#[derive(Debug, Clone, Copy, PartialEq, Eq, Structural)]
pub enum StreamGranularity {
    Token,
    Chunk,
}

/// A request for generated text.
#[derive(Debug, Clone)]
pub struct GenerateRequest {
    pub prompt: String,
    /// The messages of a chat, each as the JSON object that servers take.
    pub messages: Vec<JsonValue>,
    pub image_urls: Vec<String>,
    pub max_tokens: usize,
    pub temperature: Option<SamplingNumber>,
    pub top_p: Option<SamplingNumber>,
    pub stop: Vec<String>,
    pub seed: Option<u64>,
    pub stream_granularity: StreamGranularity,
    pub verbose: bool,
    pub debug: bool,
}

/// How long the parts of a generation took, in nanoseconds.
#[derive(Debug, Clone, Copy)]
pub struct GenerationTimings {
    pub load_nanos: u64,
    pub warmup_nanos: u64,
    pub first_token_nanos: u64,
    pub prompt_nanos: u64,
    pub decode_nanos: u64,
    pub total_nanos: u64,
}

/// Generated text.
#[derive(Debug, Clone)]
pub struct GenerateResponse {
    pub text: String,
    pub prompt_tokens: usize,
    pub completion_tokens: usize,
    pub finish_reason: String,
    pub timings: GenerationTimings,
    pub backend_diagnostics: Vec<String>,
}

/// A piece of a stream of generated text.
#[derive(Debug, Clone)]
pub enum GenerateStreamEvent {
    TextChunk(String),
    Done {
        finish_reason: String,
        prompt_tokens: usize,
        completion_tokens: usize,
        timings: GenerationTimings,
        backend_diagnostics: Vec<String>,
    },
}

/// One thing that was looked at to find out whether a backend works.
#[derive(Debug, Clone)]
pub struct BackendDoctorCheck {
    pub name: String,
    pub ok: bool,
    pub detail: String,
}

/// An argument of a program: a text, or the path of a file.
#[derive(Debug, Clone)]
pub enum CommandArg {
    Text(String),
    File(PathBuf),
}

/// The mathematical model of a [`GenerateResponse`].
#[verifier::ext_equal]
pub struct Response {
    pub text: Seq<char>,
    pub prompt_tokens: usize,
    pub completion_tokens: usize,
    pub finish_reason: Seq<char>,
    pub timings: GenerationTimings,
    pub backend_diagnostics: Seq<Seq<char>>,
}

impl View for GenerateResponse {
    type V = Response;

    open spec fn view(&self) -> Response {
        Response {
            text: self.text@,
            prompt_tokens: self.prompt_tokens,
            completion_tokens: self.completion_tokens,
            finish_reason: self.finish_reason@,
            timings: self.timings,
            backend_diagnostics: views(self.backend_diagnostics@),
        }
    }
}

/// The mathematical model of a [`GenerateStreamEvent`].
pub enum StreamPiece {
    Text(Seq<char>),
    /// The end of the stream, with everything but the text of a response.
    End(Response),
}

impl View for GenerateStreamEvent {
    type V = StreamPiece;

    open spec fn view(&self) -> StreamPiece {
        match self {
            GenerateStreamEvent::TextChunk(text) => StreamPiece::Text(text@),
            GenerateStreamEvent::Done {
                finish_reason,
                prompt_tokens,
                completion_tokens,
                timings,
                backend_diagnostics,
            } => StreamPiece::End(
                Response {
                    text: Seq::empty(),
                    prompt_tokens: *prompt_tokens,
                    completion_tokens: *completion_tokens,
                    finish_reason: finish_reason@,
                    timings: *timings,
                    backend_diagnostics: views(backend_diagnostics@),
                },
            ),
        }
    }
}

/// The mathematical model of a [`CommandArg`].
pub enum Argument {
    Text(Seq<char>),
    File(PathBuf),
}

impl View for CommandArg {
    type V = Argument;

    open spec fn view(&self) -> Argument {
        match self {
            CommandArg::Text(text) => Argument::Text(text@),
            CommandArg::File(path) => Argument::File(*path),
        }
    }
}

/// The models of a list of arguments.
pub open spec fn arguments_of(args: Seq<CommandArg>) -> Seq<Argument> {
    args.map_values(|arg: CommandArg| arg@)
}

/// The models of a list of stream events.
pub open spec fn pieces_of(events: Seq<GenerateStreamEvent>) -> Seq<StreamPiece> {
    events.map_values(|event: GenerateStreamEvent| event@)
}

impl Default for GenerationTimings {
    /// No time at all.
    fn default() -> (timings: GenerationTimings)
        ensures
            timings == (GenerationTimings {
                load_nanos: 0,
                warmup_nanos: 0,
                first_token_nanos: 0,
                prompt_nanos: 0,
                decode_nanos: 0,
                total_nanos: 0,
            }),
    {
        GenerationTimings {
            load_nanos: 0,
            warmup_nanos: 0,
            first_token_nanos: 0,
            prompt_nanos: 0,
            decode_nanos: 0,
            total_nanos: 0,
        }
    }
}

/// How a response ends a stream.
pub open spec fn end_of(response: Response) -> StreamPiece {
    StreamPiece::End(Response { text: Seq::empty(), ..response })
}

/// A whole response as a stream: its text, unless it is empty, and the end.
pub open spec fn whole_stream(response: Response) -> Seq<StreamPiece> {
    if response.text.len() > 0 {
        seq![StreamPiece::Text(response.text), end_of(response)]
    } else {
        seq![end_of(response)]
    }
}

impl GenerateResponse {
    /// The end of the stream that brings the response.
    pub fn into_end(self) -> (event: GenerateStreamEvent)
        ensures
            event@ == end_of(self@),
    {
        let event = GenerateStreamEvent::Done {
            finish_reason: self.finish_reason,
            prompt_tokens: self.prompt_tokens,
            completion_tokens: self.completion_tokens,
            timings: self.timings,
            backend_diagnostics: self.backend_diagnostics,
        };
        proof {
            assert(event@->End_0 =~= end_of(self@)->End_0);
        }
        event
    }

    /// The stream that brings the response as a whole.
    pub fn into_stream(self) -> (events: Vec<GenerateStreamEvent>)
        ensures
            pieces_of(events@) == whole_stream(self@),
    {
        let ghost response = self@;
        let mut events: Vec<GenerateStreamEvent> = Vec::new();
        if !self.text.as_str().is_empty() {
            events.push(GenerateStreamEvent::TextChunk(self.text.clone()));
        }
        events.push(self.into_end());
        proof {
            assert(pieces_of(events@) =~= whole_stream(response));
        }
        events
    }
}

/// The models of a list of what a stream carries: pieces, or messages of failures.
pub open spec fn carried(items: Seq<Result<GenerateStreamEvent, String>>) -> Seq<
    Result<StreamPiece, Seq<char>>,
> {
    items.map_values(
        |item: Result<GenerateStreamEvent, String>|
            match item {
                Ok(event) => Ok::<StreamPiece, Seq<char>>(event@),
                Err(message) => Err(message@),
            },
    )
}

/// Pieces as what a stream carries.
pub open spec fn carried_pieces(pieces: Seq<StreamPiece>) -> Seq<Result<StreamPiece, Seq<char>>> {
    pieces.map_values(|piece: StreamPiece| Ok::<StreamPiece, Seq<char>>(piece))
}

/// What the stream of a generation carries that comes as a whole: the response, or the outermost
/// message of a failure.
pub fn stream_of(result: Result<GenerateResponse, Failure>) -> (items: Vec<
    Result<GenerateStreamEvent, String>,
>)
    ensures
        carried(items@) == (match result {
            Ok(response) => carried_pieces(whole_stream(response@)),
            Err(failure) => seq![Err::<StreamPiece, Seq<char>>(failure.message@)],
        }),
{
    let mut items: Vec<Result<GenerateStreamEvent, String>> = Vec::new();
    match result {
        Ok(response) => {
            let ghost pieces = whole_stream(response@);
            let events = response.into_stream();
            let ghost all = events@;
            for event in iter: events
                invariant
                    iter.seq() == all,
                    pieces_of(all) == pieces,
                    carried(items@) == carried_pieces(pieces).take(iter.index() as int),
            {
                let ghost before = carried(items@);
                let ghost now = event@;
                proof {
                    assert(pieces_of(all)[iter.index() as int] == now);
                }
                items.push(Ok(event));
                proof {
                    assert(carried(items@) =~= before.push(Ok::<StreamPiece, Seq<char>>(now)));
                }
            }
            proof {
                assert(pieces_of(all).len() == all.len());
                assert(carried_pieces(pieces).take(pieces.len() as int) =~= carried_pieces(pieces));
            }
        },
        Err(failure) => {
            items.push(Err(failure.message));
            proof {
                assert(carried(items@) =~= seq![Err::<StreamPiece, Seq<char>>(failure.message@)]);
            }
        },
    }
    items
}

/// How a stream whose text has been sent ends: with the end of the response, or with what went
/// wrong and what led to it.
pub fn stream_end(result: Result<GenerateResponse, Failure>) -> (item: Result<
    GenerateStreamEvent,
    String,
>)
    ensures
        match result {
            Ok(response) => item is Ok && item->Ok_0@ == end_of(response@),
            Err(failure) => item is Err && item->Err_0@ == chain_text(failure@),
        },
{
    match result {
        Ok(response) => Ok(response.into_end()),
        Err(failure) => Err(failure.format_chain()),
    }
}

} // verus!
