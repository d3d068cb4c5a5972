//! The routes of the API.

use vstd::prelude::*;

verus! {

/// How a path is asked for.
#[derive(Debug, Clone, Copy, PartialEq, Eq, Structural)]
pub enum RouteMethod {
    Get,
    Post,
    Delete,
}

/// What answers a request.
#[derive(Debug, Clone, Copy, PartialEq, Eq, Structural)]
pub enum Handler {
    Models,
    ChatCompletions,
    ImageGenerations,
    ImageEdits,
    VideoGenerations,
    AudioGenerations,
    AudioSpeech,
    AudioTranscriptions,
    Capabilities,
    Parameters,
    Output,
    CreateJob,
    GetJob,
    CancelJob,
}

/// A route: a path, in which `{id}` stands for any one segment, and what answers there.
#[derive(Debug, Clone, Copy)]
pub struct Route {
    pub path: &'static str,
    pub method: RouteMethod,
    pub handler: Handler,
}

/// The path at which a handler answers.
pub open spec fn handler_path(handler: Handler) -> Seq<char> {
    match handler {
        Handler::Models => "/v1/models"@,
        Handler::ChatCompletions => "/v1/chat/completions"@,
        Handler::ImageGenerations => "/v1/images/generations"@,
        Handler::ImageEdits => "/v1/images/edits"@,
        Handler::VideoGenerations => "/v1/videos/generations"@,
        Handler::AudioGenerations => "/v1/audio/generations"@,
        Handler::AudioSpeech => "/v1/audio/speech"@,
        Handler::AudioTranscriptions => "/v1/audio/transcriptions"@,
        Handler::Capabilities => "/v1/capabilities"@,
        Handler::Parameters => "/v1/parameters"@,
        Handler::Output => "/v1/outputs/{id}"@,
        Handler::CreateJob => "/v1/jobs"@,
        Handler::GetJob => "/v1/jobs/{id}"@,
        Handler::CancelJob => "/v1/jobs/{id}"@,
    }
}

/// The method by which a handler is asked.
pub open spec fn handler_method(handler: Handler) -> RouteMethod {
    match handler {
        Handler::Models => RouteMethod::Get,
        Handler::Capabilities => RouteMethod::Get,
        Handler::Parameters => RouteMethod::Get,
        Handler::Output => RouteMethod::Get,
        Handler::GetJob => RouteMethod::Get,
        Handler::CancelJob => RouteMethod::Delete,
        _ => RouteMethod::Post,
    }
}

/// Every handler, in the order of the routes.
pub open spec fn all_handlers() -> Seq<Handler> {
    seq![
        Handler::Models,
        Handler::ChatCompletions,
        Handler::ImageGenerations,
        Handler::ImageEdits,
        Handler::VideoGenerations,
        Handler::AudioGenerations,
        Handler::AudioSpeech,
        Handler::AudioTranscriptions,
        Handler::Capabilities,
        Handler::Parameters,
        Handler::Output,
        Handler::CreateJob,
        Handler::GetJob,
        Handler::CancelJob,
    ]
}

fn route_of(handler: Handler) -> (route: Route)
    ensures
        route.handler == handler,
        route.path@ == handler_path(handler),
        route.method == handler_method(handler),
{
    let path = match handler {
        Handler::Models => "/v1/models",
        Handler::ChatCompletions => "/v1/chat/completions",
        Handler::ImageGenerations => "/v1/images/generations",
        Handler::ImageEdits => "/v1/images/edits",
        Handler::VideoGenerations => "/v1/videos/generations",
        Handler::AudioGenerations => "/v1/audio/generations",
        Handler::AudioSpeech => "/v1/audio/speech",
        Handler::AudioTranscriptions => "/v1/audio/transcriptions",
        Handler::Capabilities => "/v1/capabilities",
        Handler::Parameters => "/v1/parameters",
        Handler::Output => "/v1/outputs/{id}",
        Handler::CreateJob => "/v1/jobs",
        Handler::GetJob => "/v1/jobs/{id}",
        Handler::CancelJob => "/v1/jobs/{id}",
    };
    let method = match handler {
        Handler::Models => RouteMethod::Get,
        Handler::Capabilities => RouteMethod::Get,
        Handler::Parameters => RouteMethod::Get,
        Handler::Output => RouteMethod::Get,
        Handler::GetJob => RouteMethod::Get,
        Handler::CancelJob => RouteMethod::Delete,
        _ => RouteMethod::Post,
    };
    Route { path, method, handler }
}

/// The routes of the API, one for each handler.
pub fn routes() -> (routes: Vec<Route>)
    ensures
        routes@.len() == all_handlers().len(),
        forall|i: int|
            0 <= i < routes@.len() ==> (#[trigger] routes@[i]).handler == all_handlers()[i]
                && routes@[i].path@ == handler_path(all_handlers()[i]) && routes@[i].method
                == handler_method(all_handlers()[i]),
{
    vec![
        route_of(Handler::Models),
        route_of(Handler::ChatCompletions),
        route_of(Handler::ImageGenerations),
        route_of(Handler::ImageEdits),
        route_of(Handler::VideoGenerations),
        route_of(Handler::AudioGenerations),
        route_of(Handler::AudioSpeech),
        route_of(Handler::AudioTranscriptions),
        route_of(Handler::Capabilities),
        route_of(Handler::Parameters),
        route_of(Handler::Output),
        route_of(Handler::CreateJob),
        route_of(Handler::GetJob),
        route_of(Handler::CancelJob),
    ]
}

/// Every handler has its route, and no two handlers answer at the same path and method.
pub proof fn law_routes_do_not_clash(first: Handler, second: Handler)
    ensures
        all_handlers().contains(first),
        handler_path(first) == handler_path(second) && handler_method(first) == handler_method(
            second,
        ) ==> first == second,
{
    lemma_is_listed(first);
    lemma_paths_differ(first, second);
}

proof fn lemma_is_listed(handler: Handler)
    ensures
        all_handlers().contains(handler),
{
    let all = all_handlers();
    assert(all[0] == Handler::Models);
    assert(all[1] == Handler::ChatCompletions);
    assert(all[2] == Handler::ImageGenerations);
    assert(all[3] == Handler::ImageEdits);
    assert(all[4] == Handler::VideoGenerations);
    assert(all[5] == Handler::AudioGenerations);
    assert(all[6] == Handler::AudioSpeech);
    assert(all[7] == Handler::AudioTranscriptions);
    assert(all[8] == Handler::Capabilities);
    assert(all[9] == Handler::Parameters);
    assert(all[10] == Handler::Output);
    assert(all[11] == Handler::CreateJob);
    assert(all[12] == Handler::GetJob);
    assert(all[13] == Handler::CancelJob);
}

proof fn lemma_paths_differ(first: Handler, second: Handler)
    ensures
        handler_path(first) == handler_path(second) && handler_method(first) == handler_method(
            second,
        ) ==> first == second,
{
    reveal_strlit("/v1/models");
    reveal_strlit("/v1/chat/completions");
    reveal_strlit("/v1/images/generations");
    reveal_strlit("/v1/images/edits");
    reveal_strlit("/v1/videos/generations");
    reveal_strlit("/v1/audio/generations");
    reveal_strlit("/v1/audio/speech");
    reveal_strlit("/v1/audio/transcriptions");
    reveal_strlit("/v1/capabilities");
    reveal_strlit("/v1/parameters");
    reveal_strlit("/v1/outputs/{id}");
    reveal_strlit("/v1/jobs");
    reveal_strlit("/v1/jobs/{id}");
    let one = handler_path(first);
    let other = handler_path(second);
    if one == other {
        assert(one.len() == other.len());
        assert(one[4] == other[4]);
        assert(one[10] == other[10] || one.len() <= 10);
    }
}

/// What reads is asked with GET, what cancels with DELETE, and what makes something with POST.
pub proof fn law_methods_tell_what_handlers_do(handler: Handler)
    ensures
        handler_method(handler) == RouteMethod::Delete <==> handler == Handler::CancelJob,
        handler_method(handler) == RouteMethod::Get <==> seq![
            Handler::Models,
            Handler::Capabilities,
            Handler::Parameters,
            Handler::Output,
            Handler::GetJob,
        ].contains(handler),
{
    let reading = seq![
        Handler::Models,
        Handler::Capabilities,
        Handler::Parameters,
        Handler::Output,
        Handler::GetJob,
    ];
    assert(reading[0] == Handler::Models && reading[1] == Handler::Capabilities);
    assert(reading[2] == Handler::Parameters && reading[3] == Handler::Output);
    assert(reading[4] == Handler::GetJob);
}

/// A job is read and cancelled at its id below the place where jobs are made. Images, videos and
/// audio are each generated below a place of their own, beside what else is done with them.
pub proof fn law_paths_follow_what_they_are_about()
    ensures
        handler_path(Handler::GetJob) == handler_path(Handler::CreateJob) + "/{id}"@,
        handler_path(Handler::CancelJob) == handler_path(Handler::GetJob),
        handler_path(Handler::CreateJob) == "/v1/"@ + "jobs"@,
        handler_path(Handler::Models) == "/v1/"@ + "models"@,
        handler_path(Handler::Capabilities) == "/v1/"@ + "capabilities"@,
        handler_path(Handler::Parameters) == "/v1/"@ + "parameters"@,
        handler_path(Handler::Output) == "/v1/"@ + "outputs"@ + "/{id}"@,
        handler_path(Handler::ChatCompletions) == "/v1/"@ + "chat"@ + "/completions"@,
        handler_path(Handler::ImageGenerations) == "/v1/"@ + "images"@ + "/generations"@,
        handler_path(Handler::ImageEdits) == "/v1/"@ + "images"@ + "/edits"@,
        handler_path(Handler::VideoGenerations) == "/v1/"@ + "videos"@ + "/generations"@,
        handler_path(Handler::AudioGenerations) == "/v1/"@ + "audio"@ + "/generations"@,
        handler_path(Handler::AudioSpeech) == "/v1/"@ + "audio"@ + "/speech"@,
        handler_path(Handler::AudioTranscriptions) == "/v1/"@ + "audio"@ + "/transcriptions"@,
{
    reveal_strlit("/v1/models");
    reveal_strlit("/v1/chat/completions");
    reveal_strlit("/v1/images/generations");
    reveal_strlit("/v1/images/edits");
    reveal_strlit("/v1/videos/generations");
    reveal_strlit("/v1/audio/generations");
    reveal_strlit("/v1/audio/speech");
    reveal_strlit("/v1/audio/transcriptions");
    reveal_strlit("/v1/capabilities");
    reveal_strlit("/v1/parameters");
    reveal_strlit("/v1/outputs/{id}");
    reveal_strlit("/v1/jobs");
    reveal_strlit("/v1/jobs/{id}");
    reveal_strlit("/v1/");
    reveal_strlit("jobs");
    reveal_strlit("models");
    reveal_strlit("capabilities");
    reveal_strlit("parameters");
    reveal_strlit("outputs");
    reveal_strlit("chat");
    reveal_strlit("images");
    reveal_strlit("videos");
    reveal_strlit("audio");
    reveal_strlit("/{id}");
    reveal_strlit("/completions");
    reveal_strlit("/generations");
    reveal_strlit("/edits");
    reveal_strlit("/speech");
    reveal_strlit("/transcriptions");
}

} // verus!
