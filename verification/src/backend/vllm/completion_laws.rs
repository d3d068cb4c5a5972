//! What holds of every completion: what is asked for, what events tell, and that it does not
//! matter how the response is cut into pieces.

use super::completion::{
    after_all_data, after_counts, after_data, after_event, body_tree, completion_response,
    event_pieces, finished, message_trees, sampling_tree, stop_trees, user_message, Completion,
    Progress,
};
use crate::backend::generate::GenerateRequest;
use crate::json::bridge::parsed_text;
use crate::json::value::{number_tree, JsonTree};
use crate::sse::ready;
use crate::sse_laws::{data_of_pieces, hides_nothing, law_pieces_do_not_matter, left_of_pieces, whole};
use crate::text::space::{trim, views, words};
use vstd::prelude::*;

verus! {

/// A completion, its times aside.
pub open spec fn untimed(completion: Completion) -> Completion {
    Completion { first_token_nanos: 0, ..completion }
}

/// Whether two runs have come to the same, times aside.
pub open spec fn same_progress(first: Progress, second: Progress) -> bool {
    &&& first.pieces == second.pieces
    &&& first.failure == second.failure
    &&& untimed(first.completion) == untimed(second.completion)
}

/// Where a completion stands after pieces of a response, each of which came at its own time. What
/// follows data that is wrong is not read.
pub open spec fn after_pieces(
    completion: Completion,
    pieces: Seq<Seq<u8>>,
    times: Seq<u64>,
) -> Progress
    decreases pieces.len(),
{
    if pieces.len() == 0 {
        Progress { completion, pieces: Seq::empty(), failure: None }
    } else {
        let before = after_pieces(completion, pieces.drop_last(), times.drop_last());
        if before.failure is Some {
            before
        } else {
            let last = after_all_data(
                before.completion,
                ready(left_of_pieces(pieces.drop_last()) + pieces.last()),
                times.last(),
            );
            Progress {
                completion: last.completion,
                pieces: before.pieces + last.pieces,
                failure: last.failure,
            }
        }
    }
}

proof fn lemma_times_do_not_matter(
    first: Completion,
    second: Completion,
    data: Seq<Seq<char>>,
    early: u64,
    late: u64,
)
    requires
        untimed(first) == untimed(second),
    ensures
        same_progress(after_all_data(first, data, early), after_all_data(second, data, late)),
    decreases data.len(),
{
    if data.len() > 0 {
        lemma_times_do_not_matter(first, second, data.drop_last(), early, late);
        let one = after_all_data(first, data.drop_last(), early);
        let other = after_all_data(second, data.drop_last(), late);
        if one.failure is None {
            let one_last = after_data(one.completion, data.last(), early);
            let other_last = after_data(other.completion, data.last(), late);
            assert(one.completion.text == untimed(one.completion).text);
            assert(other.completion.text == untimed(other.completion).text);
            assert(one.completion.finish_reason == untimed(one.completion).finish_reason);
            assert(other.completion.finish_reason == untimed(other.completion).finish_reason);
            assert(one.completion.prompt_tokens == untimed(one.completion).prompt_tokens);
            assert(other.completion.prompt_tokens == untimed(other.completion).prompt_tokens);
            assert(one.completion.completion_tokens == untimed(one.completion).completion_tokens);
            assert(other.completion.completion_tokens == untimed(
                other.completion,
            ).completion_tokens);
            assert(one.completion.prompt_nanos == untimed(one.completion).prompt_nanos);
            assert(other.completion.prompt_nanos == untimed(other.completion).prompt_nanos);
            assert(one.completion.decode_nanos == untimed(one.completion).decode_nanos);
            assert(other.completion.decode_nanos == untimed(other.completion).decode_nanos);
            assert(untimed(one_last.completion) =~= untimed(other_last.completion));
        }
    }
}

proof fn lemma_data_in_two(
    completion: Completion,
    first: Seq<Seq<char>>,
    second: Seq<Seq<char>>,
    now: u64,
)
    ensures
        ({
            let before = after_all_data(completion, first, now);
            let after = after_all_data(before.completion, second, now);
            after_all_data(completion, first + second, now) == (if before.failure is Some {
                before
            } else {
                Progress {
                    completion: after.completion,
                    pieces: before.pieces + after.pieces,
                    failure: after.failure,
                }
            })
        }),
    decreases second.len(),
{
    let before = after_all_data(completion, first, now);
    if second.len() == 0 {
        assert(first + second =~= first);
        assert(before.pieces + Seq::<Seq<char>>::empty() =~= before.pieces);
    } else {
        lemma_data_in_two(completion, first, second.drop_last(), now);
        assert((first + second).drop_last() =~= first + second.drop_last());
        assert((first + second).last() == second.last());
        let middle = after_all_data(before.completion, second.drop_last(), now);
        let last = after_data(middle.completion, second.last(), now);
        assert(before.pieces + (middle.pieces + last.pieces) =~= (before.pieces + middle.pieces)
            + last.pieces);
    }
}

proof fn lemma_pieces_as_data(
    completion: Completion,
    pieces: Seq<Seq<u8>>,
    times: Seq<u64>,
    now: u64,
)
    requires
        times.len() == pieces.len(),
    ensures
        same_progress(
            after_pieces(completion, pieces, times),
            after_all_data(completion, data_of_pieces(pieces), now),
        ),
    decreases pieces.len(),
{
    if pieces.len() > 0 {
        let front = pieces.drop_last();
        lemma_pieces_as_data(completion, front, times.drop_last(), now);
        let timed = after_pieces(completion, front, times.drop_last());
        let at_once = after_all_data(completion, data_of_pieces(front), now);
        let data = ready(left_of_pieces(front) + pieces.last());
        lemma_data_in_two(completion, data_of_pieces(front), data, now);
        if timed.failure is None {
            lemma_times_do_not_matter(
                timed.completion,
                at_once.completion,
                data,
                times.last(),
                now,
            );
        }
    }
}

/// However a response is cut into pieces, and whenever they come, the same text is streamed, the
/// same failure is met, and the same completion comes of it, but for the time of its first text.
pub proof fn law_pieces_of_response_do_not_matter(
    completion: Completion,
    pieces: Seq<Seq<u8>>,
    times: Seq<u64>,
    now: u64,
)
    requires
        times.len() == pieces.len(),
        hides_nothing(whole(pieces)),
    ensures
        same_progress(
            after_pieces(completion, pieces, times),
            after_all_data(completion, ready(whole(pieces)), now),
        ),
{
    law_pieces_do_not_matter(pieces);
    lemma_pieces_as_data(completion, pieces, times, now);
}

/// The reason under the first choice of an event is taken over as it is, unless it is empty; an
/// event without one keeps the reason that was there.
pub proof fn law_told_reason_is_taken_over(
    completion: Completion,
    event: JsonTree,
    choices: Seq<JsonTree>,
    now: u64,
)
    requires
        event.member("choices"@) == Some(JsonTree::Array(choices)),
        choices.len() > 0,
    ensures
        match choices[0].member("finish_reason"@) {
            Some(JsonTree::Text(reason)) => reason.len() > 0 ==> after_event(
                completion,
                event,
                now,
            ).finish_reason == reason && after_counts(completion, event).finish_reason == reason,
            _ => true,
        },
        !(choices[0].member("finish_reason"@) is Some && choices[0].member("finish_reason"@)->0 is
            Text && choices[0].member("finish_reason"@)->0->Text_0.len() > 0) ==> after_event(
            completion,
            event,
            now,
        ).finish_reason == completion.finish_reason && after_counts(completion, event).finish_reason
            == completion.finish_reason,
{
}

/// Two events that tell different reasons leave completions with different reasons.
pub proof fn law_different_reasons_stay_different(
    completion: Completion,
    first: JsonTree,
    second: JsonTree,
    first_choices: Seq<JsonTree>,
    second_choices: Seq<JsonTree>,
    first_reason: Seq<char>,
    second_reason: Seq<char>,
)
    requires
        first.member("choices"@) == Some(JsonTree::Array(first_choices)),
        second.member("choices"@) == Some(JsonTree::Array(second_choices)),
        first_choices.len() > 0,
        second_choices.len() > 0,
        first_choices[0].member("finish_reason"@) == Some(JsonTree::Text(first_reason)),
        second_choices[0].member("finish_reason"@) == Some(JsonTree::Text(second_reason)),
        first_reason.len() > 0,
        second_reason.len() > 0,
        first_reason != second_reason,
    ensures
        after_counts(completion, first).finish_reason != after_counts(
            completion,
            second,
        ).finish_reason,
{
}

/// The counts of tokens under an event's usage are taken over as they are; an event that tells
/// none keeps those that were there, and no event changes the times that the server told.
pub proof fn law_told_counts_are_taken_over(
    completion: Completion,
    event: JsonTree,
    usage: JsonTree,
    now: u64,
)
    requires
        event.member("usage"@) == Some(usage),
    ensures
        match usage.member("prompt_tokens"@) {
            Some(JsonTree::Unsigned(tokens)) => after_event(completion, event, now).prompt_tokens
                == tokens as usize,
            _ => true,
        },
        match usage.member("completion_tokens"@) {
            Some(JsonTree::Unsigned(tokens)) => after_event(
                completion,
                event,
                now,
            ).completion_tokens == tokens as usize,
            _ => true,
        },
        !(usage.member("prompt_tokens"@) is Some && usage.member("prompt_tokens"@)->0 is Unsigned)
            ==> after_event(completion, event, now).prompt_tokens == completion.prompt_tokens,
        !(usage.member("completion_tokens"@) is Some && usage.member("completion_tokens"@)->0 is
            Unsigned) ==> after_event(completion, event, now).completion_tokens
            == completion.completion_tokens,
        after_event(completion, event, now).prompt_nanos == completion.prompt_nanos,
        after_event(completion, event, now).decode_nanos == completion.decode_nanos,
{
}

/// An event without usage tells no counts, one without choices no reason and no text.
pub proof fn law_silent_event_changes_nothing(completion: Completion, event: JsonTree, now: u64)
    ensures
        event.member("usage"@) is None ==> after_event(completion, event, now).prompt_tokens
            == completion.prompt_tokens && after_event(completion, event, now).completion_tokens
            == completion.completion_tokens,
        event.member("choices"@) is None ==> after_event(completion, event, now).finish_reason
            == completion.finish_reason && after_event(completion, event, now).text
            == completion.text && event_pieces(event).len() == 0,
        event.member("usage"@) is None && event.member("choices"@) is None ==> after_event(
            completion,
            event,
            now,
        ) == completion,
{
}

/// The text under the first choice's delta is what an event adds to the text and hands on as a
/// piece; the first text to come sets the time of the first token, and later text leaves it.
pub proof fn law_told_text_is_added(
    completion: Completion,
    event: JsonTree,
    choices: Seq<JsonTree>,
    delta: JsonTree,
    text: Seq<char>,
    now: u64,
)
    requires
        event.member("choices"@) == Some(JsonTree::Array(choices)),
        choices.len() > 0,
        choices[0].member("delta"@) == Some(delta),
        delta.member("content"@) == Some(JsonTree::Text(text)),
    ensures
        after_event(completion, event, now).text == completion.text + text,
        text.len() > 0 ==> event_pieces(event) == seq![text],
        text.len() == 0 ==> event_pieces(event).len() == 0,
        text.len() > 0 && completion.first_token_nanos == 0 ==> after_event(
            completion,
            event,
            now,
        ).first_token_nanos == now,
        text.len() == 0 || completion.first_token_nanos > 0 ==> after_event(
            completion,
            event,
            now,
        ).first_token_nanos == completion.first_token_nanos,
{
    if text.len() == 0 {
        assert(completion.text + text =~= completion.text);
    }
}

/// Data that is an event is read as that event. The mark at the end of a stream changes nothing
/// and is no error; other data that is no JSON is an error that shows the data.
pub proof fn law_data_is_read_as_an_event(completion: Completion, data: Seq<char>, now: u64)
    ensures
        data == "[DONE]"@ ==> after_data(completion, data, now) == (Progress {
            completion,
            pieces: Seq::empty(),
            failure: None,
        }),
        data != "[DONE]"@ && parsed_text(data) is Ok ==> {
            let progress = after_data(completion, data, now);
            &&& progress.completion == after_event(completion, parsed_text(data)->Ok_0, now)
            &&& progress.failure is None
        },
        data != "[DONE]"@ && parsed_text(data) is Err ==> {
            let progress = after_data(completion, data, now);
            &&& progress.completion == completion
            &&& progress.failure is Some
            &&& progress.failure->0[0] == "invalid vLLM SSE event: "@ + data
            &&& progress.failure->0[1] == parsed_text(data)->Err_0
        },
{
}

/// What the server told of tokens and times stays in the end. Where it told nothing, the tokens of
/// a prompt that is not blank and those of the answer are counted by words, and at least one.
pub proof fn law_told_numbers_stay(completion: Completion, prompt: Seq<char>, elapsed_nanos: u64)
    ensures
        ({
            let end = finished(completion, prompt, elapsed_nanos);
            &&& end.text == completion.text
            &&& end.finish_reason == completion.finish_reason
            &&& end.first_token_nanos == completion.first_token_nanos
            &&& completion.prompt_tokens > 0 ==> end.prompt_tokens == completion.prompt_tokens
            &&& completion.completion_tokens > 0 ==> end.completion_tokens
                == completion.completion_tokens
            &&& completion.prompt_nanos > 0 ==> end.prompt_nanos == completion.prompt_nanos
            &&& completion.decode_nanos > 0 ==> end.decode_nanos == completion.decode_nanos
            &&& completion.prompt_tokens == 0 && trim(prompt).len() == 0 ==> end.prompt_tokens == 0
            &&& completion.completion_tokens == 0 && 0 < words(completion.text).len() <= usize::MAX
                ==> end.completion_tokens == words(completion.text).len()
            &&& completion.completion_tokens == 0 && words(completion.text).len() == 0
                ==> end.completion_tokens == 1
            &&& completion.prompt_tokens == 0 && trim(prompt).len() > 0 && 0 < words(prompt).len()
                <= usize::MAX ==> end.prompt_tokens == words(prompt).len()
        }),
{
}

/// The response is the completion: its text, counts, reason and times.
pub proof fn law_response_is_the_completion(
    completion: Completion,
    load_nanos: u64,
    total_nanos: u64,
)
    ensures
        ({
            let response = completion_response(completion, load_nanos, total_nanos);
            &&& response.text == completion.text
            &&& response.prompt_tokens == completion.prompt_tokens
            &&& response.completion_tokens == completion.completion_tokens
            &&& response.finish_reason == completion.finish_reason
            &&& response.timings.load_nanos == load_nanos
            &&& response.timings.warmup_nanos == 0
            &&& response.timings.first_token_nanos == completion.first_token_nanos
            &&& response.timings.prompt_nanos == completion.prompt_nanos
            &&& response.timings.decode_nanos == completion.decode_nanos
            &&& response.timings.total_nanos == total_nanos
        }),
{
}

proof fn lemma_member_names_differ()
    ensures
        "model"@.len() == 5,
        "messages"@.len() == 8,
        "max_tokens"@.len() == 10,
        "stream"@.len() == 6,
        "stream_options"@.len() == 14,
        "temperature"@.len() == 11,
        "top_p"@.len() == 5,
        "stop"@.len() == 4,
        "seed"@.len() == 4,
        "model"@ != "top_p"@,
        "stop"@ != "seed"@,
{
    reveal_strlit("model");
    reveal_strlit("messages");
    reveal_strlit("max_tokens");
    reveal_strlit("stream");
    reveal_strlit("stream_options");
    reveal_strlit("temperature");
    reveal_strlit("top_p");
    reveal_strlit("stop");
    reveal_strlit("seed");
    assert("model"@[0] != "top_p"@[0]);
    assert("stop"@[1] != "seed"@[1]);
}

/// Where a request has messages, all of them are sent, each as it is and in their order.
pub proof fn law_all_messages_are_sent(model_name: Seq<char>, request: GenerateRequest)
    requires
        request.messages@.len() > 0,
    ensures
        body_tree(model_name, request).member("messages"@) is Some,
        body_tree(model_name, request).member("messages"@)->0 is Array,
        body_tree(model_name, request).member("messages"@)->0->Array_0.len()
            == request.messages@.len(),
        forall|i: int|
            0 <= i < request.messages@.len() ==> body_tree(model_name, request).member(
                "messages"@,
            )->0->Array_0[i] == (#[trigger] request.messages@[i]).tree(),
{
    lemma_body_members(model_name, request);
}

/// Where a request has no messages, its prompt is sent as the one message of a user.
pub proof fn law_prompt_is_sent_as_a_message(model_name: Seq<char>, request: GenerateRequest)
    requires
        request.messages@.len() == 0,
    ensures
        ({
            let sent = body_tree(model_name, request).member("messages"@);
            &&& sent is Some
            &&& sent->0 is Array
            &&& sent->0->Array_0.len() == 1
            &&& sent->0->Array_0[0].member("role"@) == Some(JsonTree::Text("user"@))
            &&& sent->0->Array_0[0].member("content"@) == Some(JsonTree::Text(request.prompt@))
        }),
{
    lemma_body_members(model_name, request);
    reveal_strlit("role");
    reveal_strlit("content");
    assert("role"@.len() != "content"@.len());
    assert(message_trees(request)[0] == user_message(request.prompt@));
}

proof fn lemma_body_members(model_name: Seq<char>, request: GenerateRequest)
    ensures
        ({
            let body = body_tree(model_name, request);
            &&& body.member("model"@) == Some(JsonTree::Text(model_name))
            &&& body.member("messages"@) == Some(JsonTree::Array(message_trees(request)))
            &&& body.member("max_tokens"@) == Some(JsonTree::Unsigned(request.max_tokens as u64))
            &&& body.member("stream"@) == Some(JsonTree::Bool(true))
            &&& body.member("stream_options"@) is Some
            &&& body.member("stream_options"@)->0.member("include_usage"@) == Some(
                JsonTree::Bool(true),
            )
            &&& body.member("temperature"@) == (match request.temperature {
                Some(number) => Some(sampling_tree(number)),
                None => None,
            })
            &&& body.member("top_p"@) == (match request.top_p {
                Some(number) => Some(sampling_tree(number)),
                None => None,
            })
            &&& body.member("stop"@) == (if request.stop@.len() > 0 {
                Some(JsonTree::Array(stop_trees(views(request.stop@))))
            } else {
                None
            })
            &&& body.member("seed"@) == (match request.seed {
                Some(seed) => Some(JsonTree::Unsigned(seed)),
                None => None,
            })
        }),
{
    lemma_member_names_differ();
}

/// A request to the server names the model and the limit on tokens, and asks for a stream that
/// tells the usage.
pub proof fn law_body_asks_for_a_stream_of_the_model(model_name: Seq<char>, request: GenerateRequest)
    ensures
        ({
            let body = body_tree(model_name, request);
            &&& body.member("model"@) == Some(JsonTree::Text(model_name))
            &&& body.member("max_tokens"@) == Some(JsonTree::Unsigned(request.max_tokens as u64))
            &&& body.member("stream"@) == Some(JsonTree::Bool(true))
            &&& body.member("stream_options"@) is Some
            &&& body.member("stream_options"@)->0.member("include_usage"@) == Some(
                JsonTree::Bool(true),
            )
        }),
{
    lemma_body_members(model_name, request);
}

/// What a request says of sampling is sent where it says so, and not where it does not: the
/// temperature, the nucleus, the seed, and all stops in their order.
pub proof fn law_sampling_is_sent_where_given(model_name: Seq<char>, request: GenerateRequest)
    ensures
        ({
            let body = body_tree(model_name, request);
            &&& body.member("temperature"@) is Some <==> request.temperature is Some
            &&& body.member("top_p"@) is Some <==> request.top_p is Some
            &&& body.member("seed"@) is Some <==> request.seed is Some
            &&& body.member("stop"@) is Some <==> request.stop@.len() > 0
            &&& request.temperature is Some && request.temperature->0.json is Some ==> body.member(
                "temperature"@,
            ) == Some(number_tree(request.temperature->0.json->0))
            &&& request.temperature is Some && request.temperature->0.json is None ==> body.member(
                "temperature"@,
            ) == Some(JsonTree::Null)
            &&& request.top_p is Some && request.top_p->0.json is Some ==> body.member("top_p"@)
                == Some(number_tree(request.top_p->0.json->0))
            &&& request.top_p is Some && request.top_p->0.json is None ==> body.member("top_p"@)
                == Some(JsonTree::Null)
            &&& request.seed is Some ==> body.member("seed"@) == Some(
                JsonTree::Unsigned(request.seed->0),
            )
            &&& request.stop@.len() > 0 ==> body.member("stop"@)->0 is Array && body.member(
                "stop"@,
            )->0->Array_0.len() == request.stop@.len()
        }),
        forall|i: int|
            0 <= i < request.stop@.len() ==> body_tree(model_name, request).member(
                "stop"@,
            )->0->Array_0[i] == JsonTree::Text((#[trigger] request.stop@[i])@),
{
    lemma_body_members(model_name, request);
}

/// Data is taken in turn: what comes of more data is what the last brings to what came before, and
/// nothing more once something was wrong.
pub proof fn law_data_is_taken_in_turn(
    completion: Completion,
    data: Seq<Seq<char>>,
    last: Seq<char>,
    now: u64,
)
    ensures
        ({
            let before = after_all_data(completion, data, now);
            let after = after_all_data(completion, data.push(last), now);
            let step = after_data(before.completion, last, now);
            &&& before.failure is Some ==> after == before
            &&& before.failure is None ==> after.completion == step.completion && after.pieces
                == before.pieces + step.pieces && after.failure == step.failure
        }),
        after_all_data(completion, Seq::empty(), now).completion == completion,
{
    assert(data.push(last).drop_last() =~= data);
}

} // verus!
