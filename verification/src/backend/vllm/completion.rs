//! One completion of a chat by a vLLM server.

use crate::backend::generate::{GenerateRequest, GenerateResponse, GenerationTimings, Response, SamplingNumber};
use crate::backend::runner::{at_least_one, word_count};
use crate::failure::Failure;
use crate::json::bridge::parsed_text;
use crate::json::value::{
    entry_trees, first_item_of, item_trees, member_of, number_tree, text_in, unsigned_in, JsonTree,
    JsonValue,
};
use crate::sse::{left, ready, SseAccumulator};
use crate::text::chars::same_text;
use crate::text::space::{trim, trimmed, views, words};
use vstd::prelude::*;

verus! {

/// A number that steers sampling, in JSON.
pub open spec fn sampling_tree(number: SamplingNumber) -> JsonTree {
    match number.json {
        Some(number) => number_tree(number),
        None => JsonTree::Null,
    }
}

/// The message of a user.
pub open spec fn user_message(prompt: Seq<char>) -> JsonTree {
    JsonTree::Object(
        map![
            "role"@ => JsonTree::Text("user"@),
            "content"@ => JsonTree::Text(prompt),
        ],
    )
}

/// The messages of a request: its own, or its prompt as a user's where it has none.
pub open spec fn message_trees(request: GenerateRequest) -> Seq<JsonTree> {
    if request.messages@.len() == 0 {
        seq![user_message(request.prompt@)]
    } else {
        item_trees(request.messages@)
    }
}

/// The stops of a request, in JSON.
pub open spec fn stop_trees(stops: Seq<Seq<char>>) -> Seq<JsonTree> {
    stops.map_values(|stop: Seq<char>| JsonTree::Text(stop))
}

/// The members of a request for a completion that every request has.
pub open spec fn fixed_members(model_name: Seq<char>, request: GenerateRequest) -> Map<
    Seq<char>,
    JsonTree,
> {
    Map::<Seq<char>, JsonTree>::empty().insert("model"@, JsonTree::Text(model_name)).insert(
        "messages"@,
        JsonTree::Array(message_trees(request)),
    ).insert("max_tokens"@, JsonTree::Unsigned(request.max_tokens as u64)).insert(
        "stream"@,
        JsonTree::Bool(true),
    ).insert(
        "stream_options"@,
        JsonTree::Object(
            Map::<Seq<char>, JsonTree>::empty().insert("include_usage"@, JsonTree::Bool(true)),
        ),
    )
}

/// The members with one more, where it is given.
pub open spec fn with_member(
    members: Map<Seq<char>, JsonTree>,
    name: Seq<char>,
    value: Option<JsonTree>,
) -> Map<Seq<char>, JsonTree> {
    match value {
        Some(value) => members.insert(name, value),
        None => members,
    }
}

/// A request for a completion, in JSON.
pub open spec fn body_tree(model_name: Seq<char>, request: GenerateRequest) -> JsonTree {
    let fixed = fixed_members(model_name, request);
    let with_temperature = with_member(
        fixed,
        "temperature"@,
        match request.temperature {
            Some(number) => Some(sampling_tree(number)),
            None => None,
        },
    );
    let with_top_p = with_member(
        with_temperature,
        "top_p"@,
        match request.top_p {
            Some(number) => Some(sampling_tree(number)),
            None => None,
        },
    );
    let with_stop = with_member(
        with_top_p,
        "stop"@,
        if request.stop@.len() > 0 {
            Some(JsonTree::Array(stop_trees(views(request.stop@))))
        } else {
            None
        },
    );
    let with_seed = with_member(
        with_stop,
        "seed"@,
        match request.seed {
            Some(seed) => Some(JsonTree::Unsigned(seed)),
            None => None,
        },
    );
    JsonTree::Object(with_seed)
}

fn push_member(members: &mut Vec<(String, JsonValue)>, name: &str, value: JsonValue)
    ensures
        entry_trees(final(members)@) == entry_trees(old(members)@).insert(name@, value.tree()),
{
    let ghost before = members@;
    members.push((name.to_string(), value));
    proof {
        assert(members@.drop_last() =~= before);
    }
}

fn sampling_value(number: &SamplingNumber) -> (value: JsonValue)
    ensures
        value.tree() == sampling_tree(*number),
{
    match &number.json {
        Some(number) => JsonValue::Number(number.clone()),
        None => JsonValue::Null,
    }
}

fn message_values(request: &GenerateRequest) -> (values: Vec<JsonValue>)
    ensures
        item_trees(values@) == message_trees(*request),
{
    let mut values: Vec<JsonValue> = Vec::new();
    if request.messages.len() == 0 {
        let mut members: Vec<(String, JsonValue)> = Vec::new();
        push_member(&mut members, "role", JsonValue::Text("user".to_string()));
        push_member(&mut members, "content", JsonValue::Text(request.prompt.clone()));
        let message = JsonValue::Object(members);
        proof {
            assert(message.tree()->Object_0 =~= user_message(request.prompt@)->Object_0);
        }
        values.push(message);
        proof {
            assert(item_trees(values@) =~= seq![user_message(request.prompt@)]);
        }
        return values;
    }
    for i in 0..request.messages.len()
        invariant
            item_trees(values@) == item_trees(request.messages@).take(i as int),
    {
        let ghost before = values@;
        values.push(request.messages[i].clone());
        proof {
            assert(item_trees(values@) =~= item_trees(before).push(
                request.messages@[i as int].tree(),
            ));
        }
    }
    proof {
        assert(item_trees(request.messages@).take(request.messages.len() as int) =~= item_trees(
            request.messages@,
        ));
    }
    values
}

fn stop_values(stops: &[String]) -> (values: Vec<JsonValue>)
    ensures
        item_trees(values@) == stop_trees(views(stops@)),
{
    let mut values: Vec<JsonValue> = Vec::new();
    for i in 0..stops.len()
        invariant
            item_trees(values@) == stop_trees(views(stops@)).take(i as int),
    {
        let ghost before = values@;
        values.push(JsonValue::Text(stops[i].clone()));
        proof {
            assert(item_trees(values@) =~= item_trees(before).push(
                JsonTree::Text(stops@[i as int]@),
            ));
        }
    }
    proof {
        assert(stop_trees(views(stops@)).take(stops.len() as int) =~= stop_trees(views(stops@)));
    }
    values
}

/// A request for a completion, in JSON.
pub fn chat_completion_body(model_name: &str, request: &GenerateRequest) -> (body: JsonValue)
    ensures
        body.tree() == body_tree(model_name@, *request),
{
    let mut options: Vec<(String, JsonValue)> = Vec::new();
    push_member(&mut options, "include_usage", JsonValue::Bool(true));
    let mut members: Vec<(String, JsonValue)> = Vec::new();
    push_member(&mut members, "model", JsonValue::Text(model_name.to_string()));
    push_member(&mut members, "messages", JsonValue::Array(message_values(request)));
    push_member(&mut members, "max_tokens", JsonValue::Unsigned(request.max_tokens as u64));
    push_member(&mut members, "stream", JsonValue::Bool(true));
    push_member(&mut members, "stream_options", JsonValue::Object(options));
    match &request.temperature {
        Some(number) => push_member(&mut members, "temperature", sampling_value(number)),
        None => {},
    }
    match &request.top_p {
        Some(number) => push_member(&mut members, "top_p", sampling_value(number)),
        None => {},
    }
    if request.stop.len() > 0 {
        push_member(&mut members, "stop", JsonValue::Array(stop_values(&request.stop)));
    }
    match request.seed {
        Some(seed) => push_member(&mut members, "seed", JsonValue::Unsigned(seed)),
        None => {},
    }
    JsonValue::Object(members)
}

/// A completion as far as it has come.
#[derive(Debug, Clone)]
pub struct VllmCompletion {
    pub text: String,
    pub prompt_tokens: usize,
    pub completion_tokens: usize,
    pub prompt_nanos: u64,
    pub decode_nanos: u64,
    /// When the first text came; zero before that.
    pub first_token_nanos: u64,
    pub finish_reason: String,
}

/// The mathematical model of a [`VllmCompletion`].
#[verifier::ext_equal]
pub struct Completion {
    pub text: Seq<char>,
    pub prompt_tokens: usize,
    pub completion_tokens: usize,
    pub prompt_nanos: u64,
    pub decode_nanos: u64,
    pub first_token_nanos: u64,
    pub finish_reason: Seq<char>,
}

impl View for VllmCompletion {
    type V = Completion;

    open spec fn view(&self) -> Completion {
        Completion {
            text: self.text@,
            prompt_tokens: self.prompt_tokens,
            completion_tokens: self.completion_tokens,
            prompt_nanos: self.prompt_nanos,
            decode_nanos: self.decode_nanos,
            first_token_nanos: self.first_token_nanos,
            finish_reason: self.finish_reason@,
        }
    }
}

impl Default for VllmCompletion {
    /// Nothing has come.
    fn default() -> (completion: VllmCompletion)
        ensures
            completion@ == no_completion(Seq::empty()),
    {
        VllmCompletion {
            text: String::new(),
            prompt_tokens: 0,
            completion_tokens: 0,
            prompt_nanos: 0,
            decode_nanos: 0,
            first_token_nanos: 0,
            finish_reason: String::new(),
        }
    }
}

/// A completion of which nothing has come.
pub open spec fn no_completion(finish_reason: Seq<char>) -> Completion {
    Completion {
        text: Seq::empty(),
        prompt_tokens: 0,
        completion_tokens: 0,
        prompt_nanos: 0,
        decode_nanos: 0,
        first_token_nanos: 0,
        finish_reason,
    }
}

/// The first choice of an event.
pub open spec fn first_choice(event: JsonTree) -> Option<JsonTree> {
    first_item_of(event.member("choices"@))
}

/// Why the first choice of an event has ended.
pub open spec fn event_reason(event: JsonTree) -> Option<Seq<char>> {
    text_in(member_of(first_choice(event), "finish_reason"@))
}

/// A count of tokens that an event tells.
pub open spec fn event_tokens(event: JsonTree, name: Seq<char>) -> Option<u64> {
    unsigned_in(member_of(event.member("usage"@), name))
}

/// The text that an event adds.
pub open spec fn event_text(event: JsonTree) -> Option<Seq<char>> {
    text_in(member_of(member_of(first_choice(event), "delta"@), "content"@))
}

/// A completion after the counts and the reason that an event tells.
pub open spec fn after_counts(completion: Completion, event: JsonTree) -> Completion {
    Completion {
        finish_reason: match event_reason(event) {
            Some(reason) => if reason.len() > 0 {
                reason
            } else {
                completion.finish_reason
            },
            None => completion.finish_reason,
        },
        prompt_tokens: match event_tokens(event, "prompt_tokens"@) {
            Some(tokens) => tokens as usize,
            None => completion.prompt_tokens,
        },
        completion_tokens: match event_tokens(event, "completion_tokens"@) {
            Some(tokens) => tokens as usize,
            None => completion.completion_tokens,
        },
        ..completion
    }
}

fn first_choice_of(event: &JsonValue) -> (choice: Option<&JsonValue>)
    ensures
        match choice {
            Some(choice) => first_choice(event.tree()) == Some(choice.tree()),
            None => first_choice(event.tree()) is None,
        },
{
    match event.member("choices") {
        Some(choices) => choices.first_item(),
        None => None,
    }
}

/// Takes in the counts and the reason that an event tells.
pub fn update_completion_from_event(completion: &mut VllmCompletion, event: &JsonValue)
    ensures
        final(completion)@ == after_counts(old(completion)@, event.tree()),
{
    match first_choice_of(event) {
        Some(choice) => match choice.member("finish_reason") {
            Some(reason) => match reason.as_text() {
                Some(reason) => {
                    if !reason.is_empty() {
                        completion.finish_reason = reason.to_string();
                    }
                },
                None => {},
            },
            None => {},
        },
        None => {},
    }
    match event.member("usage") {
        Some(usage) => {
            match usage.member("prompt_tokens") {
                Some(tokens) => match tokens.as_unsigned() {
                    Some(tokens) => {
                        completion.prompt_tokens = tokens as usize;
                    },
                    None => {},
                },
                None => {},
            }
            match usage.member("completion_tokens") {
                Some(tokens) => match tokens.as_unsigned() {
                    Some(tokens) => {
                        completion.completion_tokens = tokens as usize;
                    },
                    None => {},
                },
                None => {},
            }
        },
        None => {},
    }
}

/// The text that an event adds.
pub fn delta_content(event: &JsonValue) -> (text: Option<String>)
    ensures
        match text {
            Some(text) => event_text(event.tree()) == Some(text@),
            None => event_text(event.tree()) is None,
        },
{
    match first_choice_of(event) {
        Some(choice) => match choice.member("delta") {
            Some(delta) => match delta.member("content") {
                Some(content) => match content.as_text() {
                    Some(text) => Some(text.to_string()),
                    None => None,
                },
                None => None,
            },
            None => None,
        },
        None => None,
    }
}

/// A completion after an event that came at some time.
pub open spec fn after_event(completion: Completion, event: JsonTree, now: u64) -> Completion {
    let counted = after_counts(completion, event);
    match event_text(event) {
        Some(text) => if text.len() > 0 {
            Completion {
                text: counted.text + text,
                first_token_nanos: if counted.first_token_nanos == 0 {
                    now
                } else {
                    counted.first_token_nanos
                },
                ..counted
            }
        } else {
            counted
        },
        None => counted,
    }
}

/// The pieces of text that an event brings: one, or none.
pub open spec fn event_pieces(event: JsonTree) -> Seq<Seq<char>> {
    match event_text(event) {
        Some(text) => if text.len() > 0 {
            seq![text]
        } else {
            Seq::empty()
        },
        None => Seq::empty(),
    }
}

/// Where a completion stands after some data: the completion, the pieces of text that came, and
/// what went wrong, where something did.
#[verifier::ext_equal]
pub struct Progress {
    pub completion: Completion,
    pub pieces: Seq<Seq<char>>,
    pub failure: Option<Seq<Seq<char>>>,
}

/// Where a completion stands after the data of one event.
pub open spec fn after_data(completion: Completion, data: Seq<char>, now: u64) -> Progress {
    if data == "[DONE]"@ {
        Progress { completion, pieces: Seq::empty(), failure: None }
    } else {
        match parsed_text(data) {
            Ok(event) => Progress {
                completion: after_event(completion, event, now),
                pieces: event_pieces(event),
                failure: None,
            },
            Err(message) => Progress {
                completion,
                pieces: Seq::empty(),
                failure: Some(seq!["invalid vLLM SSE event: "@ + data, message]),
            },
        }
    }
}

/// Where a completion stands after the data of a list of events; what follows data that is wrong
/// is not read.
pub open spec fn after_all_data(
    completion: Completion,
    data: Seq<Seq<char>>,
    now: u64,
) -> Progress
    decreases data.len(),
{
    if data.len() == 0 {
        Progress { completion, pieces: Seq::empty(), failure: None }
    } else {
        let before = after_all_data(completion, data.drop_last(), now);
        if before.failure is Some {
            before
        } else {
            let last = after_data(before.completion, data.last(), now);
            Progress {
                completion: last.completion,
                pieces: before.pieces + last.pieces,
                failure: last.failure,
            }
        }
    }
}

/// Once data is wrong, what follows it changes nothing.
proof fn lemma_stopped(completion: Completion, data: Seq<Seq<char>>, count: int, now: u64)
    requires
        0 <= count <= data.len(),
        after_all_data(completion, data.take(count), now).failure is Some,
    ensures
        after_all_data(completion, data, now) == after_all_data(completion, data.take(count), now),
    decreases data.len() - count,
{
    if count == data.len() {
        assert(data.take(count) =~= data);
    } else {
        assert(data.take(count + 1).drop_last() =~= data.take(count));
        lemma_stopped(completion, data, count + 1, now);
    }
}

/// The pieces put together.
pub open spec fn all_text(pieces: Seq<Seq<char>>) -> Seq<char>
    decreases pieces.len(),
{
    if pieces.len() == 0 {
        Seq::empty()
    } else {
        all_text(pieces.drop_last()) + pieces.last()
    }
}

/// The text of a completion grows by just the pieces that are streamed.
pub proof fn law_stream_brings_the_text(completion: Completion, data: Seq<Seq<char>>, now: u64)
    ensures
        after_all_data(completion, data, now).completion.text == completion.text + all_text(
            after_all_data(completion, data, now).pieces,
        ),
    decreases data.len(),
{
    if data.len() == 0 {
        assert(completion.text + Seq::<char>::empty() =~= completion.text);
    } else {
        law_stream_brings_the_text(completion, data.drop_last(), now);
        let before = after_all_data(completion, data.drop_last(), now);
        if before.failure is None {
            let last = after_data(before.completion, data.last(), now);
            if last.pieces.len() > 0 {
                assert((before.pieces + last.pieces).drop_last() =~= before.pieces);
                assert((before.pieces + last.pieces).last() == last.pieces[0]);
                assert(last.completion.text == before.completion.text + last.pieces[0]);
                assert(completion.text + (all_text(before.pieces) + last.pieces[0]) =~= (
                completion.text + all_text(before.pieces)) + last.pieces[0]);
            } else {
                assert(before.pieces + last.pieces =~= before.pieces);
                assert(last.completion.text =~= before.completion.text);
            }
        }
    }
}

/// A completion that is under way.
pub struct CompletionRun {
    pub completion: VllmCompletion,
    pub sse: SseAccumulator,
}

/// What some bytes of a response have brought.
pub struct CompletionProgress {
    /// The pieces of text, in order.
    pub pieces: Vec<String>,
    /// What went wrong after them, where something did.
    pub failure: Option<Failure>,
}

/// The model of an optional failure.
pub open spec fn failure_option(failure: Option<Failure>) -> Option<Seq<Seq<char>>> {
    match failure {
        Some(failure) => Some(failure@),
        None => None,
    }
}

impl VllmCompletion {
    /// Takes in an event that came at some time; gives the piece of text that it brings.
    pub fn take_event(&mut self, event: &JsonValue, now: u64) -> (piece: Option<String>)
        ensures
            final(self)@ == after_event(old(self)@, event.tree(), now),
            match piece {
                Some(piece) => event_pieces(event.tree()) == seq![piece@],
                None => event_pieces(event.tree()).len() == 0,
            },
    {
        update_completion_from_event(self, event);
        match delta_content(event) {
            Some(text) => {
                if text.as_str().is_empty() {
                    return None;
                }
                if self.first_token_nanos == 0 {
                    self.first_token_nanos = now;
                }
                self.text.append(text.as_str());
                Some(text)
            },
            None => None,
        }
    }
}

impl CompletionRun {
    /// Nothing has come; where no reason is told, the completion ends for its length.
    pub fn new() -> (run: CompletionRun)
        ensures
            run.completion@ == no_completion("length"@),
            run.sse.pending@.len() == 0,
    {
        CompletionRun {
            completion: VllmCompletion {
                text: String::new(),
                prompt_tokens: 0,
                completion_tokens: 0,
                prompt_nanos: 0,
                decode_nanos: 0,
                first_token_nanos: 0,
                finish_reason: "length".to_string(),
            },
            sse: SseAccumulator::new(),
        }
    }

    /// Takes in bytes of the response that came at some time.
    pub fn on_bytes(&mut self, bytes: &[u8], now: u64) -> (progress: CompletionProgress)
        ensures
            final(self).sse.pending@ == left(old(self).sse.pending@ + bytes@),
            ({
                let expected = after_all_data(
                    old(self).completion@,
                    ready(old(self).sse.pending@ + bytes@),
                    now,
                );
                &&& final(self).completion@ == expected.completion
                &&& views(progress.pieces@) == expected.pieces
                &&& failure_option(progress.failure) == expected.failure
            }),
    {
        let ghost start = self.completion@;
        let data = self.sse.push(bytes);
        let ghost all = views(data@);
        let mut pieces: Vec<String> = Vec::new();
        proof {
            assert(views(pieces@) =~= Seq::empty());
            assert(all.take(0).len() == 0);
        }
        for i in 0..data.len()
            invariant
                all == views(data@),
                self.sse.pending@ == left(old(self).sse.pending@ + bytes@),
                all == ready(old(self).sse.pending@ + bytes@),
                start == old(self).completion@,
                after_all_data(start, all.take(i as int), now) == (Progress {
                    completion: self.completion@,
                    pieces: views(pieces@),
                    failure: None,
                }),
        {
            let ghost before = views(pieces@);
            proof {
                assert(all.take(i + 1).drop_last() =~= all.take(i as int));
                assert(all.take(i + 1).last() == data@[i as int]@);
                assert(before + Seq::<Seq<char>>::empty() =~= before);
            }
            if !same_text(data[i].as_str(), "[DONE]") {
                match JsonValue::parse_text(data[i].as_str()) {
                    Err(reason) => {
                        let message = "invalid vLLM SSE event: ".to_string().concat(
                            data[i].as_str(),
                        );
                        proof {
                            lemma_stopped(start, all, i + 1, now);
                        }
                        return CompletionProgress {
                            pieces,
                            failure: Some(Failure::because(message, reason)),
                        };
                    },
                    Ok(event) => match self.completion.take_event(&event, now) {
                        Some(piece) => {
                            pieces.push(piece);
                            proof {
                                assert(views(pieces@) =~= before + seq![piece@]);
                            }
                        },
                        None => {
                            proof {
                                assert(before + event_pieces(event.tree()) =~= before);
                            }
                        },
                    },
                }
            }
        }
        proof {
            assert(all.take(data.len() as int) =~= all);
        }
        CompletionProgress { pieces, failure: None }
    }
}

/// A completion with what the server did not tell.
pub open spec fn finished(
    completion: Completion,
    prompt: Seq<char>,
    elapsed_nanos: u64,
) -> Completion {
    let first = completion.first_token_nanos;
    Completion {
        prompt_tokens: if completion.prompt_tokens == 0 && trim(prompt).len() > 0 {
            at_least_one(words(prompt).len())
        } else {
            completion.prompt_tokens
        },
        prompt_nanos: if completion.prompt_nanos == 0 && first > 0 {
            first
        } else {
            completion.prompt_nanos
        },
        decode_nanos: if completion.decode_nanos > 0 {
            completion.decode_nanos
        } else if first > 0 && elapsed_nanos > first {
            (elapsed_nanos - first) as u64
        } else {
            elapsed_nanos
        },
        completion_tokens: if completion.completion_tokens == 0 {
            at_least_one(words(completion.text).len())
        } else {
            completion.completion_tokens
        },
        ..completion
    }
}

/// Fills in what the server did not tell; the completion took `elapsed_nanos` as a whole.
pub fn finalize_completion_stats(
    completion: &mut VllmCompletion,
    request: &GenerateRequest,
    elapsed_nanos: u64,
)
    ensures
        final(completion)@ == finished(old(completion)@, request.prompt@, elapsed_nanos),
{
    if completion.prompt_tokens == 0 && !trimmed(request.prompt.as_str()).as_str().is_empty() {
        completion.prompt_tokens = word_count(request.prompt.as_str());
    }
    if completion.prompt_nanos == 0 && completion.first_token_nanos > 0 {
        completion.prompt_nanos = completion.first_token_nanos;
    }
    if completion.decode_nanos == 0 {
        completion.decode_nanos =
        if completion.first_token_nanos > 0 && elapsed_nanos > completion.first_token_nanos {
            elapsed_nanos - completion.first_token_nanos
        } else {
            elapsed_nanos
        };
    }
    if completion.completion_tokens == 0 {
        completion.completion_tokens = word_count(completion.text.as_str());
    }
}

/// The time to the first text and the time after it make up the whole, where the server told
/// neither and the first text came before the end.
pub proof fn law_times_add_up(completion: Completion, prompt: Seq<char>, elapsed_nanos: u64)
    requires
        completion.prompt_nanos == 0,
        completion.decode_nanos == 0,
        completion.first_token_nanos < elapsed_nanos,
    ensures
        finished(completion, prompt, elapsed_nanos).prompt_nanos + finished(
            completion,
            prompt,
            elapsed_nanos,
        ).decode_nanos == elapsed_nanos,
{
}

/// What speaks against a generation before anything is tried.
pub fn check_request(request: &GenerateRequest) -> (result: Result<(), Failure>)
    ensures
        match result {
            Ok(_) => request.image_urls@.len() == 0,
            Err(failure) => request.image_urls@.len() > 0 && failure@ == seq![
                "vLLM text backend received image inputs; use a VLM-capable model/runtime"@,
            ],
        },
{
    if request.image_urls.len() > 0 {
        return Err(
            Failure::new(
                "vLLM text backend received image inputs; use a VLM-capable model/runtime".to_string(),
            ),
        );
    }
    Ok(())
}

/// The response that a completion makes.
pub open spec fn completion_response(
    completion: Completion,
    load_nanos: u64,
    total_nanos: u64,
) -> Response {
    Response {
        text: completion.text,
        prompt_tokens: completion.prompt_tokens,
        completion_tokens: completion.completion_tokens,
        finish_reason: completion.finish_reason,
        timings: GenerationTimings {
            load_nanos,
            warmup_nanos: 0,
            first_token_nanos: completion.first_token_nanos,
            prompt_nanos: completion.prompt_nanos,
            decode_nanos: completion.decode_nanos,
            total_nanos,
        },
        backend_diagnostics: Seq::empty(),
    }
}

impl VllmCompletion {
    /// The response that the completion makes.
    pub fn into_response(self, load_nanos: u64, total_nanos: u64) -> (response: GenerateResponse)
        ensures
            response@ == completion_response(self@, load_nanos, total_nanos),
    {
        let response = GenerateResponse {
            text: self.text,
            prompt_tokens: self.prompt_tokens,
            completion_tokens: self.completion_tokens,
            finish_reason: self.finish_reason,
            timings: GenerationTimings {
                load_nanos,
                warmup_nanos: 0,
                first_token_nanos: self.first_token_nanos,
                prompt_nanos: self.prompt_nanos,
                decode_nanos: self.decode_nanos,
                total_nanos,
            },
            backend_diagnostics: Vec::new(),
        };
        proof {
            assert(response@ =~= completion_response(self@, load_nanos, total_nanos));
        }
        response
    }
}

} // verus!
