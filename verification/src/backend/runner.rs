//! What the backends share that run a separate runner program.

use super::generate::{GenerateResponse, GenerationTimings, Response};
use crate::failure::Failure;
use crate::json::bridge::parsed_bytes;
use crate::json::value::{text_in, unsigned_in, JsonTree, JsonValue};
use crate::paths::{path_text, shown_path};
use crate::process::{
    command_output_detail, command_succeeded, output_detail, succeeded, CommandOutcome,
};
use crate::text::bytes::{text_from_utf8, utf8_lossy};
use crate::text::space::{count_words, words};
use std::path::PathBuf;
use vstd::prelude::*;

verus! {

/// A place where a program may be.
#[derive(Debug, Clone)]
pub struct Candidate {
    pub label: String,
    pub path: Option<PathBuf>,
}

/// What was found at a place.
#[derive(Debug, Clone)]
pub struct RunnerCheck {
    /// Whether a file is there.
    pub exists: bool,
    /// What came of asking the program for help; nothing where no file was there to be run.
    pub help: Option<CommandOutcome>,
}

/// The mathematical model of an attempt to find a program.
#[verifier::ext_equal]
pub struct Attempt {
    pub label: Seq<char>,
    pub path: Option<PathBuf>,
    pub exists: bool,
    pub usable: bool,
    pub detail: Seq<char>,
}

/// The mathematical model of what a search has found.
#[verifier::ext_equal]
pub struct Discovery {
    pub path: Option<PathBuf>,
    pub source: Seq<char>,
    pub attempts: Seq<Attempt>,
}

/// An attempt to find a runner.
#[derive(Debug, Clone)]
pub struct RunnerAttempt {
    pub label: String,
    pub path: Option<PathBuf>,
    pub exists: bool,
    pub usable: bool,
    pub detail: String,
}

/// What the search for a runner has found.
#[derive(Debug, Clone)]
pub struct RunnerDiscovery {
    pub path: Option<PathBuf>,
    pub source: String,
    pub attempts: Vec<RunnerAttempt>,
}

/// What to do next in the search for a runner.
pub enum RunnerSearch {
    /// Find out what is at the path.
    Check(PathBuf),
    Done(RunnerDiscovery),
}

impl View for RunnerAttempt {
    type V = Attempt;

    open spec fn view(&self) -> Attempt {
        Attempt {
            label: self.label@,
            path: self.path,
            exists: self.exists,
            usable: self.usable,
            detail: self.detail@,
        }
    }
}

/// The models of a list of attempts.
pub open spec fn runner_attempts(attempts: Seq<RunnerAttempt>) -> Seq<Attempt> {
    attempts.map_values(|attempt: RunnerAttempt| attempt@)
}

impl View for RunnerDiscovery {
    type V = Discovery;

    open spec fn view(&self) -> Discovery {
        Discovery {
            path: self.path,
            source: self.source@,
            attempts: runner_attempts(self.attempts@),
        }
    }
}

/// Whether the runner at a place can be used: it is there, and it gives help when asked.
pub open spec fn is_usable(check: RunnerCheck) -> bool {
    check.exists && (check.help matches Some(outcome) && succeeded(outcome))
}

/// Whether the runner at a place can be used.
pub fn runner_help_ok(check: &RunnerCheck) -> (r: bool)
    ensures
        r == is_usable(*check),
{
    match &check.help {
        Some(outcome) => check.exists && command_succeeded(outcome),
        None => false,
    }
}

/// The attempt at a place that is not known.
pub open spec fn unset_attempt(label: Seq<char>) -> Attempt {
    Attempt { label, path: None, exists: false, usable: false, detail: "not set"@ }
}

/// The attempt at a place that was looked at.
pub open spec fn checked_attempt(label: Seq<char>, path: PathBuf, check: RunnerCheck) -> Attempt {
    Attempt {
        label,
        path: Some(path),
        exists: check.exists,
        usable: is_usable(check),
        detail: if is_usable(check) {
            "runner --help ok"@
        } else {
            "runner missing or --help failed"@
        },
    }
}

/// Where a search stands.
pub enum Search {
    Check(PathBuf),
    Done(Discovery),
}

impl View for RunnerSearch {
    type V = Search;

    open spec fn view(&self) -> Search {
        match self {
            RunnerSearch::Check(path) => Search::Check(*path),
            RunnerSearch::Done(discovery) => Search::Done(discovery@),
        }
    }
}

/// Where the search among the candidates stands after the attempts and with the checks that
/// follow them. The first usable runner is taken; candidates without a path are passed over.
pub open spec fn search_from(
    attempts: Seq<Attempt>,
    candidates: Seq<Candidate>,
    checks: Seq<RunnerCheck>,
) -> Search
    decreases candidates.len(),
{
    if candidates.len() == 0 {
        Search::Done(Discovery { path: None, source: "missing"@, attempts })
    } else {
        let label = candidates[0].label@;
        match candidates[0].path {
            None => search_from(
                attempts.push(unset_attempt(label)),
                candidates.drop_first(),
                checks,
            ),
            Some(path) => if checks.len() == 0 {
                Search::Check(path)
            } else if is_usable(checks[0]) {
                Search::Done(
                    Discovery {
                        path: Some(path),
                        source: label,
                        attempts: attempts.push(checked_attempt(label, path, checks[0])),
                    },
                )
            } else {
                search_from(
                    attempts.push(checked_attempt(label, path, checks[0])),
                    candidates.drop_first(),
                    checks.drop_first(),
                )
            },
        }
    }
}

/// Where the search for a runner stands: what to look at next, or what was found. `checks` says
/// what was found at the places that were looked at so far.
pub fn search_runner(candidates: &[Candidate], checks: &[RunnerCheck]) -> (search: RunnerSearch)
    ensures
        search@ == search_from(Seq::empty(), candidates@, checks@),
{
    let mut attempts: Vec<RunnerAttempt> = Vec::new();
    let mut used: usize = 0;
    proof {
        assert(candidates@.skip(0) =~= candidates@);
        assert(checks@.skip(0) =~= checks@);
        assert(runner_attempts(attempts@) =~= Seq::empty());
    }
    for i in 0..candidates.len()
        invariant
            used <= checks.len(),
            search_from(Seq::empty(), candidates@, checks@) == search_from(
                runner_attempts(attempts@),
                candidates@.skip(i as int),
                checks@.skip(used as int),
            ),
    {
        let ghost before = runner_attempts(attempts@);
        proof {
            assert(candidates@.skip(i as int).drop_first() =~= candidates@.skip(i + 1));
        }
        let label = candidates[i].label.clone();
        match &candidates[i].path {
            None => {
                attempts.push(
                    RunnerAttempt {
                        label,
                        path: None,
                        exists: false,
                        usable: false,
                        detail: "not set".to_string(),
                    },
                );
                proof {
                    assert(runner_attempts(attempts@) =~= before.push(unset_attempt(label@)));
                }
            },
            Some(path) => {
                if used == checks.len() {
                    return RunnerSearch::Check(path.clone());
                }
                let usable = runner_help_ok(&checks[used]);
                let detail = if usable {
                    "runner --help ok".to_string()
                } else {
                    "runner missing or --help failed".to_string()
                };
                attempts.push(
                    RunnerAttempt {
                        label: label.clone(),
                        path: Some(path.clone()),
                        exists: checks[used].exists,
                        usable,
                        detail,
                    },
                );
                proof {
                    assert(runner_attempts(attempts@) =~= before.push(
                        checked_attempt(label@, *path, checks@[used as int]),
                    ));
                    assert(checks@.skip(used as int).drop_first() =~= checks@.skip(used + 1));
                }
                if usable {
                    return RunnerSearch::Done(
                        RunnerDiscovery { path: Some(path.clone()), source: label, attempts },
                    );
                }
                used = used + 1;
            },
        }
    }
    RunnerSearch::Done(RunnerDiscovery { path: None, source: "missing".to_string(), attempts })
}

/// How a message lists an attempt.
pub open spec fn attempt_line(attempt: Attempt) -> Seq<char> {
    "\n- "@ + attempt.label + (match attempt.path {
        Some(path) => ": "@ + path_text(path),
        None => Seq::empty(),
    }) + " ("@ + (if attempt.exists {
        "exists"@
    } else {
        "missing"@
    }) + ", "@ + (if attempt.usable {
        "usable"@
    } else {
        "not usable"@
    }) + "): "@ + attempt.detail
}

/// How a message lists attempts.
pub open spec fn attempt_lines(attempts: Seq<Attempt>) -> Seq<char>
    decreases attempts.len(),
{
    if attempts.len() == 0 {
        Seq::empty()
    } else {
        attempt_lines(attempts.drop_last()) + attempt_line(attempts.last())
    }
}

/// How a message lists an attempt.
pub fn shown_attempt(
    label: &str,
    path: &Option<PathBuf>,
    exists: bool,
    usable: bool,
    detail: &str,
) -> (line: String)
    ensures
        line@ == attempt_line(
            Attempt { label: label@, path: *path, exists, usable, detail: detail@ },
        ),
{
    let shown = match path {
        Some(path) => ": ".to_string().concat(shown_path(path).as_str()),
        None => String::new(),
    };
    "\n- ".to_string().concat(label).concat(shown.as_str()).concat(" (").concat(
        if exists {
            "exists"
        } else {
            "missing"
        },
    ).concat(", ").concat(
        if usable {
            "usable"
        } else {
            "not usable"
        },
    ).concat("): ").concat(detail)
}

/// Whether an attempt found something that cannot be used.
pub open spec fn some_unusable(attempts: Seq<Attempt>) -> bool {
    exists|i: int| 0 <= i < attempts.len() && (#[trigger] attempts[i]).exists && !attempts[i].usable
}

/// What was measured when a runner ran.
#[derive(Debug, Clone)]
pub struct TimedRun {
    pub outcome: CommandOutcome,
    pub decode_nanos: u64,
    pub total_nanos: u64,
}

/// The timings of a run.
pub open spec fn run_timings(run: TimedRun) -> GenerationTimings {
    GenerationTimings {
        load_nanos: 0,
        warmup_nanos: 0,
        first_token_nanos: 0,
        prompt_nanos: 0,
        decode_nanos: run.decode_nanos,
        total_nanos: run.total_nanos,
    }
}

/// The timings of a run.
pub fn timings_of(run: &TimedRun) -> (timings: GenerationTimings)
    ensures
        timings == run_timings(*run),
{
    GenerationTimings {
        load_nanos: 0,
        warmup_nanos: 0,
        first_token_nanos: 0,
        prompt_nanos: 0,
        decode_nanos: run.decode_nanos,
        total_nanos: run.total_nanos,
    }
}

/// What is said of a model's directory that is not there.
pub open spec fn no_directory_text(id: Seq<char>, dir: PathBuf) -> Seq<char> {
    "model directory for '"@ + id + "' does not exist: "@ + path_text(dir)
}

/// What is said of a model's directory that is not there.
pub fn no_directory_message(id: &str, dir: &PathBuf) -> (message: String)
    ensures
        message@ == no_directory_text(id@, *dir),
{
    "model directory for '".to_string().concat(id).concat("' does not exist: ").concat(
        shown_path(dir).as_str(),
    )
}

/// What a runner's reply says, or what is wrong with it. `name` is the runner's name in messages.
pub open spec fn reply_response(
    name: Seq<char>,
    prompt: Seq<char>,
    reply: JsonTree,
    timings: GenerationTimings,
) -> Result<Response, Seq<char>> {
    match text_in(reply.member("text"@)) {
        None => Err(name + " JSON missing string field 'text'"@),
        Some(text) => Ok(
            Response {
                text,
                prompt_tokens: match unsigned_in(reply.member("prompt_tokens"@)) {
                    Some(tokens) => tokens as usize,
                    None => at_least_one(words(prompt).len()),
                },
                completion_tokens: match unsigned_in(reply.member("completion_tokens"@)) {
                    Some(tokens) => tokens as usize,
                    None => at_least_one(words(text).len()),
                },
                finish_reason: match text_in(reply.member("finish_reason"@)) {
                    Some(reason) => reason,
                    None => "stop"@,
                },
                timings,
                backend_diagnostics: Seq::empty(),
            },
        ),
    }
}

/// A count, or one where it is zero.
pub open spec fn at_least_one(count: nat) -> usize {
    if count == 0 {
        1
    } else {
        count as usize
    }
}

/// The number of words of a text, or one where there are none.
pub fn word_count(text: &str) -> (count: usize)
    ensures
        count == at_least_one(words(text@).len()),
{
    let count: usize = count_words(text);
    if count == 0 {
        1
    } else {
        count
    }
}

/// A member of a value that is a text.
fn text_member(value: &JsonValue, name: &str) -> (text: Option<String>)
    ensures
        match text {
            Some(text) => text_in(value.tree().member(name@)) == Some(text@),
            None => text_in(value.tree().member(name@)) is None,
        },
{
    match value.member(name) {
        Some(member) => match member.as_text() {
            Some(text) => Some(text.to_string()),
            None => None,
        },
        None => None,
    }
}

/// A member of a value that is an unsigned number.
fn unsigned_member(value: &JsonValue, name: &str) -> (number: Option<u64>)
    ensures
        number == unsigned_in(value.tree().member(name@)),
{
    match value.member(name) {
        Some(member) => member.as_unsigned(),
        None => None,
    }
}

/// Reads a runner's reply.
pub fn read_reply(
    name: &str,
    prompt: &str,
    reply: &JsonValue,
    timings: GenerationTimings,
) -> (result: Result<GenerateResponse, Failure>)
    ensures
        match result {
            Ok(response) => reply_response(name@, prompt@, reply.tree(), timings) == Ok::<
                Response,
                Seq<char>,
            >(response@),
            Err(failure) => {
                let expected = reply_response(name@, prompt@, reply.tree(), timings);
                expected is Err && failure@ == seq![expected->Err_0]
            },
        },
{
    let text = match text_member(reply, "text") {
        Some(text) => text,
        None => {
            return Err(
                Failure::new(name.to_string().concat(" JSON missing string field 'text'")),
            );
        },
    };
    let prompt_tokens: usize = match unsigned_member(reply, "prompt_tokens") {
        Some(tokens) => tokens as usize,
        None => word_count(prompt),
    };
    let completion_tokens: usize = match unsigned_member(reply, "completion_tokens") {
        Some(tokens) => tokens as usize,
        None => word_count(text.as_str()),
    };
    let finish_reason = match text_member(reply, "finish_reason") {
        Some(reason) => reason,
        None => "stop".to_string(),
    };
    let response = GenerateResponse {
        text,
        prompt_tokens,
        completion_tokens,
        finish_reason,
        timings,
        backend_diagnostics: Vec::new(),
    };
    proof {
        assert(response@ =~= reply_response(name@, prompt@, reply.tree(), timings)->Ok_0);
    }
    Ok(response)
}

/// What came of running a runner: a response, or what went wrong.
pub open spec fn run_response(
    name: Seq<char>,
    runner: PathBuf,
    prompt: Seq<char>,
    outcome: CommandOutcome,
    timings: GenerationTimings,
) -> Result<Response, Seq<Seq<char>>> {
    match outcome {
        CommandOutcome::Failed(reason) => Err(
            seq!["failed to run "@ + name + " "@ + path_text(runner), reason@],
        ),
        CommandOutcome::Finished(output) => if !output.success {
            Err(seq![name + " failed: "@ + output_detail(output)])
        } else {
            match parsed_bytes(output.stdout@) {
                Err(message) => Err(
                    seq![
                        name + " returned invalid JSON: "@ + utf8_lossy(output.stdout@),
                        message,
                    ],
                ),
                Ok(reply) => match reply_response(name, prompt, reply, timings) {
                    Ok(response) => Ok(response),
                    Err(message) => Err(seq![message]),
                },
            }
        },
    }
}

/// The result of a generation as a model.
pub open spec fn response_result(
    result: Result<GenerateResponse, Failure>,
) -> Result<Response, Seq<Seq<char>>> {
    match result {
        Ok(response) => Ok(response@),
        Err(failure) => Err(failure@),
    }
}

/// Reads what came of running a runner.
pub fn read_run(
    name: &str,
    runner: &PathBuf,
    prompt: &str,
    outcome: &CommandOutcome,
    timings: GenerationTimings,
) -> (result: Result<GenerateResponse, Failure>)
    ensures
        response_result(result) == run_response(name@, *runner, prompt@, *outcome, timings),
{
    match outcome {
        CommandOutcome::Failed(reason) => {
            let message = "failed to run ".to_string().concat(name).concat(" ").concat(
                shown_path(runner).as_str(),
            );
            Err(Failure::because(message, reason.clone()))
        },
        CommandOutcome::Finished(output) => {
            if !output.success {
                let detail = command_output_detail(output);
                return Err(
                    Failure::new(name.to_string().concat(" failed: ").concat(detail.as_str())),
                );
            }
            match JsonValue::parse_bytes(&output.stdout) {
                Err(reason) => {
                    let shown = text_from_utf8(&output.stdout);
                    let message = name.to_string().concat(" returned invalid JSON: ").concat(
                        shown.as_str(),
                    );
                    Err(Failure::because(message, reason))
                },
                Ok(reply) => read_reply(name, prompt, &reply, timings),
            }
        },
    }
}

proof fn lemma_search_result(
    attempts: Seq<Attempt>,
    candidates: Seq<Candidate>,
    checks: Seq<RunnerCheck>,
)
    requires
        forall|i: int| 0 <= i < attempts.len() ==> !(#[trigger] attempts[i]).usable,
    ensures
        search_from(attempts, candidates, checks) matches Search::Done(discovery) ==> {
            &&& discovery.attempts.len() >= attempts.len()
            &&& discovery.path is None ==> forall|i: int|
                0 <= i < discovery.attempts.len() ==> !(#[trigger] discovery.attempts[i]).usable
            &&& discovery.path is Some ==> {
                &&& discovery.attempts.len() > 0
                &&& discovery.attempts.last().usable
                &&& discovery.attempts.last().path == discovery.path
                &&& discovery.attempts.last().label == discovery.source
                &&& forall|i: int|
                    0 <= i < discovery.attempts.len() - 1 ==> !(
                    #[trigger] discovery.attempts[i]).usable
            }
        },
    decreases candidates.len(),
{
    if candidates.len() > 0 {
        let label = candidates[0].label@;
        match candidates[0].path {
            None => {
                lemma_search_result(
                    attempts.push(unset_attempt(label)),
                    candidates.drop_first(),
                    checks,
                );
            },
            Some(path) => {
                if checks.len() > 0 && !is_usable(checks[0]) {
                    lemma_search_result(
                        attempts.push(checked_attempt(label, path, checks[0])),
                        candidates.drop_first(),
                        checks.drop_first(),
                    );
                }
            },
        }
    }
}

/// A search takes the first usable runner: the attempt at it is the last and the only usable one,
/// and it is named as the source. Where nothing is found, no attempt was usable.
pub proof fn law_first_usable_runner_is_taken(candidates: Seq<Candidate>, checks: Seq<RunnerCheck>)
    ensures
        search_from(Seq::empty(), candidates, checks) matches Search::Done(discovery) ==> {
            &&& discovery.path is None ==> forall|i: int|
                0 <= i < discovery.attempts.len() ==> !(#[trigger] discovery.attempts[i]).usable
            &&& discovery.path is Some ==> {
                &&& discovery.attempts.len() > 0
                &&& discovery.attempts.last().usable
                &&& discovery.attempts.last().path == discovery.path
                &&& discovery.attempts.last().label == discovery.source
                &&& forall|i: int|
                    0 <= i < discovery.attempts.len() - 1 ==> !(
                    #[trigger] discovery.attempts[i]).usable
            }
        },
{
    lemma_search_result(Seq::empty(), candidates, checks);
}

/// What a runner replies is the response: its text as it is, its counts and its reason where it
/// tells them. Without a text there is no response; without counts, words are counted; without a
/// reason, the response has ended by itself.
pub proof fn law_reply_is_the_response(
    name: Seq<char>,
    prompt: Seq<char>,
    reply: JsonTree,
    timings: GenerationTimings,
)
    ensures
        ({
            let result = reply_response(name, prompt, reply, timings);
            let text = reply.member("text"@);
            let has_text = text is Some && text->0 is Text;
            let told = reply.member("completion_tokens"@);
            let told_prompt = reply.member("prompt_tokens"@);
            let reason = reply.member("finish_reason"@);
            &&& result is Ok <==> has_text
            &&& result matches Ok(response) ==> {
                &&& response.text == text->0->Text_0
                &&& response.timings == timings
                &&& response.backend_diagnostics.len() == 0
                &&& reason is Some && reason->0 is Text ==> response.finish_reason
                    == reason->0->Text_0
                &&& !(reason is Some && reason->0 is Text) ==> response.finish_reason == "stop"@
                &&& told is Some && told->0 is Unsigned ==> response.completion_tokens
                    == told->0->Unsigned_0 as usize
                &&& told_prompt is Some && told_prompt->0 is Unsigned ==> response.prompt_tokens
                    == told_prompt->0->Unsigned_0 as usize
                &&& told is None && 0 < words(response.text).len() <= usize::MAX
                    ==> response.completion_tokens == words(response.text).len()
                &&& told_prompt is None && 0 < words(prompt).len() <= usize::MAX
                    ==> response.prompt_tokens == words(prompt).len()
                &&& told is None && words(response.text).len() == 0 ==> response.completion_tokens
                    == 1
            }
        }),
{
}

/// A run gives a response only where the program ran, succeeded and wrote JSON with a text.
pub proof fn law_failed_run_gives_no_response(
    name: Seq<char>,
    runner: PathBuf,
    prompt: Seq<char>,
    outcome: CommandOutcome,
    timings: GenerationTimings,
)
    ensures
        ({
            let result = run_response(name, runner, prompt, outcome, timings);
            &&& result is Ok ==> outcome is Finished && outcome->Finished_0.success && parsed_bytes(
                outcome->Finished_0.stdout@,
            ) is Ok
            &&& outcome is Finished && outcome->Finished_0.success && parsed_bytes(
                outcome->Finished_0.stdout@,
            ) is Ok && reply_response(
                name,
                prompt,
                parsed_bytes(outcome->Finished_0.stdout@)->Ok_0,
                timings,
            ) is Ok ==> result is Ok && result->Ok_0 == reply_response(
                name,
                prompt,
                parsed_bytes(outcome->Finished_0.stdout@)->Ok_0,
                timings,
            )->Ok_0
        }),
{
}

/// A runner can be used just where it is there and gives help when asked, and a run's times are
/// those that were measured.
pub proof fn law_usable_runner_gives_help(check: RunnerCheck, run: TimedRun)
    ensures
        is_usable(check) <==> check.exists && check.help is Some && check.help->0 is Finished
            && check.help->0->Finished_0.success,
        run_timings(run).decode_nanos == run.decode_nanos,
        run_timings(run).total_nanos == run.total_nanos,
        run_timings(run).load_nanos == 0,
        run_timings(run).first_token_nanos == 0,
{
}

/// A runner that is found is at the path of a candidate.
pub proof fn law_found_runner_is_a_candidate(
    attempts: Seq<Attempt>,
    candidates: Seq<Candidate>,
    checks: Seq<RunnerCheck>,
)
    ensures
        search_from(attempts, candidates, checks) matches Search::Done(discovery) ==> (
        discovery.path is Some ==> exists|i: int|
            0 <= i < candidates.len() && (#[trigger] candidates[i]).path == discovery.path
                && candidates[i].label@ == discovery.source),
        search_from(attempts, candidates, checks) matches Search::Check(path) ==> exists|i: int|
            0 <= i < candidates.len() && (#[trigger] candidates[i]).path == Some(path),
    decreases candidates.len(),
{
    if candidates.len() > 0 {
        let rest = candidates.drop_first();
        let label = candidates[0].label@;
        if candidates[0].path is None {
            let more = attempts.push(unset_attempt(label));
            law_found_runner_is_a_candidate(more, rest, checks);
            lemma_candidates_of_rest(candidates);
        } else if checks.len() > 0 && !is_usable(checks[0]) {
            let more = attempts.push(checked_attempt(label, candidates[0].path->0, checks[0]));
            law_found_runner_is_a_candidate(more, rest, checks.drop_first());
            lemma_candidates_of_rest(candidates);
        } else {
            assert(candidates[0].path is Some);
        }
    }
}

proof fn lemma_candidates_of_rest(candidates: Seq<Candidate>)
    requires
        candidates.len() > 0,
    ensures
        forall|i: int|
            0 <= i < candidates.drop_first().len() ==> #[trigger] candidates.drop_first()[i]
                == candidates[i + 1],
{
}

} // verus!
