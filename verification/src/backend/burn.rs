//! The Burn backend, which runs a Burn runner.

use super::args::{flag_with, push_file, push_flag, push_text};
use super::generate::{
    arguments_of, Argument, CommandArg, GenerateRequest, GenerateResponse, Response,
};
use super::runner::{
    attempt_lines, no_directory_message, no_directory_text, read_run, run_response, run_timings,
    search_from, search_runner, shown_attempt, some_unusable, timings_of, Attempt, Candidate,
    Discovery, RunnerCheck, RunnerDiscovery, RunnerSearch, Search, TimedRun,
};
use crate::failure::Failure;
use crate::model::{ModelFormat, ModelManifest, ModelStore};
use crate::paths::{
    entry_path, is_below, is_plain_name, keeps_text, lemma_below_below, lemma_last_two,
    lemma_plain_backends, lemma_plain_name, path_parts, path_text, shown_path, takes_names, PathPart,
};
use crate::text::number::{decimal, decimal_text};
use crate::text::space::views;
use std::path::PathBuf;
use vstd::prelude::*;

verus! {

/// What a Burn runner computes on.
#[derive(Debug, Clone, Copy, PartialEq, Eq, Structural)]
pub enum BurnMode {
    Cuda,
    Cpu,
}

/// The Burn backend.
#[derive(Debug, Clone)]
pub struct BurnBackend {
    pub store: ModelStore,
    pub mode: BurnMode,
}

/// What the search for a Burn runner has found.
#[derive(Debug, Clone)]
pub struct BurnDiscovery {
    pub path: Option<PathBuf>,
    pub source: String,
    pub attempts: Vec<BurnDiscoveryAttempt>,
}

/// An attempt to find a Burn runner.
#[derive(Debug, Clone)]
pub struct BurnDiscoveryAttempt {
    pub label: String,
    pub path: Option<PathBuf>,
    pub exists: bool,
    pub usable: bool,
    pub detail: String,
}

/// What to do next in the search for a Burn runner.
pub enum BurnSearch {
    /// Find out what is at the path.
    Check(PathBuf),
    Done(BurnDiscovery),
}

impl View for BurnDiscoveryAttempt {
    type V = Attempt;

    open spec fn view(&self) -> Attempt {
        Attempt {
            label: self.label@,
            path: self.path,
            exists: self.exists,
            usable: self.usable,
            detail: self.detail@,
        }
    }
}

/// The models of a list of attempts.
pub open spec fn burn_attempts(attempts: Seq<BurnDiscoveryAttempt>) -> Seq<Attempt> {
    attempts.map_values(|attempt: BurnDiscoveryAttempt| attempt@)
}

impl View for BurnDiscovery {
    type V = Discovery;

    open spec fn view(&self) -> Discovery {
        Discovery {
            path: self.path,
            source: self.source@,
            attempts: burn_attempts(self.attempts@),
        }
    }
}

impl View for BurnSearch {
    type V = Search;

    open spec fn view(&self) -> Search {
        match self {
            BurnSearch::Check(path) => Search::Check(*path),
            BurnSearch::Done(discovery) => Search::Done(discovery@),
        }
    }
}

impl BurnMode {
    /// The name of the backend in this mode.
    pub open spec fn label_text(self) -> Seq<char> {
        match self {
            BurnMode::Cuda => "burn-cuda"@,
            BurnMode::Cpu => "burn-cpu"@,
        }
    }

    /// The name of the backend in this mode, for messages.
    pub open spec fn display_text(self) -> Seq<char> {
        match self {
            BurnMode::Cuda => "Burn CUDA"@,
            BurnMode::Cpu => "Burn CPU"@,
        }
    }

    /// What the runner is told to compute on.
    pub open spec fn backend_text(self) -> Seq<char> {
        match self {
            BurnMode::Cuda => "cuda"@,
            BurnMode::Cpu => "cpu"@,
        }
    }

    /// The environment variable that names the runner for this mode.
    pub open spec fn variable_text(self) -> Seq<char> {
        match self {
            BurnMode::Cuda => "WERK_BURN_RUNNER_CUDA"@,
            BurnMode::Cpu => "WERK_BURN_RUNNER_CPU"@,
        }
    }

    /// The name of the backend in this mode.
    pub fn label(self) -> (label: &'static str)
        ensures
            label@ == self.label_text(),
    {
        match self {
            BurnMode::Cuda => "burn-cuda",
            BurnMode::Cpu => "burn-cpu",
        }
    }

    /// The name of the backend in this mode, for messages.
    pub fn display(self) -> (name: &'static str)
        ensures
            name@ == self.display_text(),
    {
        match self {
            BurnMode::Cuda => "Burn CUDA",
            BurnMode::Cpu => "Burn CPU",
        }
    }

    /// What is said before the backend is used in this mode.
    pub fn using_note(self) -> (note: String)
        ensures
            note@ == "Using "@ + self.display_text() + " backend"@,
    {
        "Using ".to_string().concat(self.display()).concat(" backend")
    }

    /// What the runner is told to compute on.
    pub fn backend_arg(self) -> (arg: &'static str)
        ensures
            arg@ == self.backend_text(),
    {
        match self {
            BurnMode::Cuda => "cuda",
            BurnMode::Cpu => "cpu",
        }
    }

    /// The environment variable that names the runner for this mode. `WERK_BURN_RUNNER` names one
    /// for every mode.
    pub fn runner_variable(self) -> (name: &'static str)
        ensures
            name@ == self.variable_text(),
    {
        match self {
            BurnMode::Cuda => "WERK_BURN_RUNNER_CUDA",
            BurnMode::Cpu => "WERK_BURN_RUNNER_CPU",
        }
    }
}

/// The file name of the runner.
pub open spec fn runner_file(windows: bool) -> Seq<char> {
    if windows {
        "werk-burn-runner.exe"@
    } else {
        "werk-burn-runner"@
    }
}

/// The file name of the runner.
pub fn runner_name(windows: bool) -> (name: &'static str)
    ensures
        name@ == runner_file(windows),
        is_plain_name(name@),
{
    proof {
        lemma_plain_names();
    }
    if windows {
        "werk-burn-runner.exe"
    } else {
        "werk-burn-runner"
    }
}

/// The names that lead from the store to the managed runner.
pub open spec fn managed_runner_names(mode: BurnMode, windows: bool) -> Seq<Seq<char>> {
    seq!["backends"@, mode.label_text(), runner_file(windows)]
}

proof fn lemma_plain_names()
    ensures
        is_plain_name("burn-cuda"@),
        is_plain_name("burn-cpu"@),
        is_plain_name("werk-burn-runner.exe"@),
        is_plain_name("werk-burn-runner"@),
{
    assert(is_plain_name("burn-cuda"@)) by {
        reveal_strlit("burn-cuda");
        lemma_plain_name("burn-cuda"@);
    }
    assert(is_plain_name("burn-cpu"@)) by {
        reveal_strlit("burn-cpu");
        lemma_plain_name("burn-cpu"@);
    }
    assert(is_plain_name("werk-burn-runner.exe"@)) by {
        reveal_strlit("werk-burn-runner.exe");
        lemma_plain_name("werk-burn-runner.exe"@);
    }
    assert(is_plain_name("werk-burn-runner"@)) by {
        reveal_strlit("werk-burn-runner");
        lemma_plain_name("werk-burn-runner"@);
    }
}

/// The path of the managed runner.
pub fn managed_runner_path(store: &ModelStore, mode: BurnMode, windows: bool) -> (path: PathBuf)
    ensures
        is_below(path, store.home, managed_runner_names(mode, windows)),
{
    proof {
        lemma_plain_names();
        lemma_plain_backends();
    }
    let label = mode.label();
    let backends = entry_path(&store.home, "backends");
    let dir = entry_path(&backends, label);
    let path = entry_path(&dir, runner_name(windows));
    proof {
        let upper = seq!["backends"@] + seq![label@];
        lemma_below_below(dir, backends, store.home, seq!["backends"@], seq![label@]);
        lemma_below_below(path, dir, store.home, upper, seq![runner_file(windows)]);
        assert(upper + seq![runner_file(windows)] =~= managed_runner_names(mode, windows));
    }
    path
}

/// Runners of different modes never share a path.
pub proof fn law_modes_have_runners_of_their_own(
    home: PathBuf,
    first_mode: BurnMode,
    second_mode: BurnMode,
    windows: bool,
    first: PathBuf,
    second: PathBuf,
)
    requires
        takes_names(home) || keeps_text(path_text(home)),
        first_mode != second_mode,
        is_below(first, home, managed_runner_names(first_mode, windows)),
        is_below(second, home, managed_runner_names(second_mode, windows)),
    ensures
        first != second,
{
    lemma_plain_names();
    lemma_plain_backends();
    reveal_strlit("burn-cuda");
    reveal_strlit("burn-cpu");
    assert(first_mode.label_text().last() != second_mode.label_text().last());
    if keeps_text(path_text(home)) {
        lemma_last_two(
            path_text(first),
            path_text(home),
            managed_runner_names(first_mode, windows),
        );
        lemma_last_two(
            path_text(second),
            path_text(home),
            managed_runner_names(second_mode, windows),
        );
    } else {
        let at = path_parts(home).len() as int + 1;
        assert(path_parts(first)[at] == PathPart::Name(first_mode.label_text()));
        assert(path_parts(second)[at] == PathPart::Name(second_mode.label_text()));
    }
}

/// Whether candidates are the places of a Burn runner, in the order in which they are tried: the
/// one that is set for the mode, the one that is set for every mode, the managed one and the one
/// in the search path.
pub open spec fn are_burn_candidates(
    candidates: Seq<Candidate>,
    store: ModelStore,
    mode: BurnMode,
    set_for_mode: Option<PathBuf>,
    set_for_all: Option<PathBuf>,
    in_path: Option<PathBuf>,
    windows: bool,
) -> bool {
    &&& candidates.len() == 4
    &&& candidates[0].label@ == mode.variable_text() && candidates[0].path == set_for_mode
    &&& candidates[1].label@ == "WERK_BURN_RUNNER"@ && candidates[1].path == set_for_all
    &&& candidates[2].label@ == "managed cache"@ && candidates[2].path is Some && is_below(
        candidates[2].path->0,
        store.home,
        managed_runner_names(mode, windows),
    )
    &&& candidates[3].label@ == "PATH: werk-burn-runner"@ && candidates[3].path == in_path
}

/// What a message says when no runner is found.
pub open spec fn missing_text(mode: BurnMode, attempts: Seq<Attempt>) -> Seq<char> {
    mode.display_text() + " requested but no runner is installed.\n\nTried:"@ + attempt_lines(
        attempts,
    ) + "\n\nFix:"@ + "\n- install a Werk release artifact that includes the Burn runner"@
        + "\n- or set WERK_BURN_RUNNER=/path/to/werk-burn-runner"@ + "\n- or set WERK_BURN_RUNNER_"@
        + (match mode {
        BurnMode::Cuda => "CUDA"@,
        BurnMode::Cpu => "CPU"@,
    }) + "=/path/to/werk-burn-runner"@
}

fn attempt_list(attempts: &[BurnDiscoveryAttempt]) -> (text: String)
    ensures
        text@ == attempt_lines(burn_attempts(attempts@)),
{
    let ghost all = burn_attempts(attempts@);
    let mut text = String::new();
    for i in 0..attempts.len()
        invariant
            all == burn_attempts(attempts@),
            text@ == attempt_lines(all.take(i as int)),
    {
        proof {
            assert(all.take(i + 1).drop_last() =~= all.take(i as int));
            assert(all.take(i + 1).last() == attempts@[i as int]@);
        }
        let attempt = &attempts[i];
        let line = shown_attempt(
            attempt.label.as_str(),
            &attempt.path,
            attempt.exists,
            attempt.usable,
            attempt.detail.as_str(),
        );
        text.append(line.as_str());
    }
    proof {
        assert(all.take(attempts.len() as int) =~= all);
    }
    text
}

fn from_runner(found: RunnerDiscovery) -> (discovery: BurnDiscovery)
    ensures
        discovery@ == found@,
{
    let ghost whole = found@;
    let ghost all = found.attempts@;
    let mut attempts: Vec<BurnDiscoveryAttempt> = Vec::new();
    for attempt in iter: found.attempts
        invariant
            iter.seq() == all,
            burn_attempts(attempts@) == super::runner::runner_attempts(all).take(
                iter.index() as int,
            ),
    {
        let ghost before = burn_attempts(attempts@);
        let ghost now = attempt@;
        attempts.push(
            BurnDiscoveryAttempt {
                label: attempt.label,
                path: attempt.path,
                exists: attempt.exists,
                usable: attempt.usable,
                detail: attempt.detail,
            },
        );
        proof {
            assert(burn_attempts(attempts@) =~= before.push(now));
        }
    }
    let discovery = BurnDiscovery { path: found.path, source: found.source, attempts };
    proof {
        assert(discovery@ =~= whole);
    }
    discovery
}

/// What has come of a generation so far.
#[derive(Debug, Clone)]
pub struct BurnAnswers {
    /// What the search for a runner has found, once it was made.
    pub discovery: Option<BurnDiscovery>,
    /// Whether the model's directory is there, once that was looked at.
    pub directory: Option<bool>,
    /// What came of running the runner, once it ran.
    pub run: Option<TimedRun>,
}

/// What to do next in a generation.
pub enum BurnStep {
    Fail(Failure),
    FindRunner,
    /// Find out whether the path is that of a directory.
    CheckDirectory(PathBuf),
    /// Print the notes, and run the program.
    Run { notes: Vec<String>, program: PathBuf, args: Vec<CommandArg> },
    Done(GenerateResponse),
}

/// The arguments of a runner.
pub open spec fn burn_arguments(
    mode: BurnMode,
    model_dir: PathBuf,
    request: GenerateRequest,
) -> Seq<Argument> {
    seq![
        Argument::Text("--model"@),
        Argument::File(model_dir),
        Argument::Text("--prompt"@),
        Argument::Text(request.prompt@),
        Argument::Text("--max-tokens"@),
        Argument::Text(decimal(request.max_tokens as nat)),
        Argument::Text("--backend"@),
        Argument::Text(mode.backend_text()),
        Argument::Text("--json"@),
    ] + flag_with(
        "--temperature"@,
        match request.temperature {
            Some(number) => Some(number.shown@),
            None => None,
        },
    ) + flag_with(
        "--top-p"@,
        match request.top_p {
            Some(number) => Some(number.shown@),
            None => None,
        },
    ) + flag_with(
        "--seed"@,
        match request.seed {
            Some(seed) => Some(decimal(seed as nat)),
            None => None,
        },
    )
}

/// The arguments of a runner.
pub fn burn_args(mode: BurnMode, model_dir: &PathBuf, request: &GenerateRequest) -> (args: Vec<
    CommandArg,
>)
    ensures
        arguments_of(args@) == burn_arguments(mode, *model_dir, *request),
{
    let mut args: Vec<CommandArg> = Vec::new();
    push_text(&mut args, "--model");
    push_file(&mut args, model_dir);
    push_flag(&mut args, "--prompt", request.prompt.as_str());
    push_flag(&mut args, "--max-tokens", decimal_text(request.max_tokens as u64).as_str());
    push_flag(&mut args, "--backend", mode.backend_arg());
    push_text(&mut args, "--json");
    let ghost fixed = arguments_of(args@);
    match &request.temperature {
        Some(number) => push_flag(&mut args, "--temperature", number.shown.as_str()),
        None => {},
    }
    match &request.top_p {
        Some(number) => push_flag(&mut args, "--top-p", number.shown.as_str()),
        None => {},
    }
    match request.seed {
        Some(seed) => push_flag(&mut args, "--seed", decimal_text(seed).as_str()),
        None => {},
    }
    proof {
        assert(arguments_of(args@) =~= burn_arguments(mode, *model_dir, *request));
    }
    args
}

/// What debugging shows before the runner runs.
pub open spec fn burn_notes(
    mode: BurnMode,
    runner: PathBuf,
    model_dir: PathBuf,
    debug: bool,
) -> Seq<Seq<char>> {
    if debug {
        seq![
            "selected backend: "@ + mode.label_text(),
            "Burn runner: "@ + path_text(runner),
            "model path: "@ + path_text(model_dir),
        ]
    } else {
        Seq::empty()
    }
}

/// What speaks against a generation before anything is tried.
pub open spec fn burn_objection(
    manifest: ModelManifest,
    request: GenerateRequest,
) -> Option<Seq<char>> {
    if manifest.format != ModelFormat::SafeTensors {
        Some("Burn backend supports HF safetensors model directories only"@)
    } else if request.image_urls@.len() > 0 {
        Some("Burn text backend received image inputs; use a VLM-capable model/runtime"@)
    } else {
        None
    }
}

/// Whether a step is the one that follows what has come of a generation so far.
pub open spec fn is_burn_step(
    step: BurnStep,
    mode: BurnMode,
    manifest: ModelManifest,
    request: GenerateRequest,
    model_dir: PathBuf,
    answers: BurnAnswers,
) -> bool {
    match burn_objection(manifest, request) {
        Some(message) => step matches BurnStep::Fail(failure) && failure@ == seq![message],
        None => match answers.discovery {
            None => step is FindRunner,
            Some(discovery) => match discovery.path {
                None => step matches BurnStep::Fail(failure) && failure@ == seq![
                    missing_text(mode, discovery@.attempts),
                ],
                Some(runner) => match answers.directory {
                    None => step matches BurnStep::CheckDirectory(dir) && dir == model_dir,
                    Some(false) => step matches BurnStep::Fail(failure) && failure@ == seq![
                        no_directory_text(manifest.id@, model_dir),
                    ],
                    Some(true) => match answers.run {
                        None => step matches BurnStep::Run { notes, program, args } && views(notes@)
                            == burn_notes(mode, runner, model_dir, request.debug) && program
                            == runner && arguments_of(args@) == burn_arguments(
                            mode,
                            model_dir,
                            request,
                        ),
                        Some(run) => match run_response(
                            "Burn runner"@,
                            runner,
                            request.prompt@,
                            run.outcome,
                            run_timings(run),
                        ) {
                            Ok(response) => step matches BurnStep::Done(done) && done@ == response,
                            Err(messages) => step matches BurnStep::Fail(failure) && failure@
                                == messages,
                        },
                    },
                },
            },
        },
    }
}

impl BurnBackend {
    /// The backend for the models of a store.
    pub fn new(store: ModelStore, mode: BurnMode) -> (backend: BurnBackend)
        ensures
            backend.store == store,
            backend.mode == mode,
    {
        BurnBackend { store, mode }
    }

    /// The places of a runner, in the order in which they are tried.
    pub fn candidates(
        store: &ModelStore,
        mode: BurnMode,
        set_for_mode: Option<PathBuf>,
        set_for_all: Option<PathBuf>,
        in_path: Option<PathBuf>,
        windows: bool,
    ) -> (candidates: Vec<Candidate>)
        ensures
            are_burn_candidates(
                candidates@,
                *store,
                mode,
                set_for_mode,
                set_for_all,
                in_path,
                windows,
            ),
    {
        vec![
            Candidate { label: mode.runner_variable().to_string(), path: set_for_mode },
            Candidate { label: "WERK_BURN_RUNNER".to_string(), path: set_for_all },
            Candidate {
                label: "managed cache".to_string(),
                path: Some(managed_runner_path(store, mode, windows)),
            },
            Candidate { label: "PATH: werk-burn-runner".to_string(), path: in_path },
        ]
    }

    /// Where the search for a runner stands: what to look at next, or what was found.
    pub fn discover(candidates: &[Candidate], checks: &[RunnerCheck]) -> (search: BurnSearch)
        ensures
            search@ == search_from(Seq::empty(), candidates@, checks@),
    {
        match search_runner(candidates, checks) {
            RunnerSearch::Check(path) => BurnSearch::Check(path),
            RunnerSearch::Done(discovery) => BurnSearch::Done(from_runner(discovery)),
        }
    }

    /// What was found, for a message.
    pub fn probe(mode: BurnMode, discovery: &BurnDiscovery) -> (result: Result<String, Failure>)
        ensures
            match result {
                Ok(text) => discovery.path is Some && text@ == mode.display_text() + " runner "@
                    + path_text(discovery.path->0),
                Err(failure) => discovery.path is None && failure@ == seq![
                    missing_text(mode, discovery@.attempts),
                ],
            },
    {
        match &discovery.path {
            Some(path) => Ok(
                mode.display().to_string().concat(" runner ").concat(shown_path(path).as_str()),
            ),
            None => Err(Failure::new(BurnBackend::missing_message(mode, discovery))),
        }
    }

    /// What a message says when no runner is found.
    pub fn missing_message(mode: BurnMode, discovery: &BurnDiscovery) -> (message: String)
        ensures
            message@ == missing_text(mode, discovery@.attempts),
    {
        mode.display().to_string().concat(
            " requested but no runner is installed.\n\nTried:",
        ).concat(attempt_list(&discovery.attempts).as_str()).concat("\n\nFix:").concat(
            "\n- install a Werk release artifact that includes the Burn runner",
        ).concat("\n- or set WERK_BURN_RUNNER=/path/to/werk-burn-runner").concat(
            "\n- or set WERK_BURN_RUNNER_",
        ).concat(
            match mode {
                BurnMode::Cuda => "CUDA",
                BurnMode::Cpu => "CPU",
            },
        ).concat("=/path/to/werk-burn-runner")
    }

    /// Why no runner is at hand, in short.
    pub fn unavailable_reason(discovery: &BurnDiscovery) -> (reason: String)
        ensures
            reason@ == (if some_unusable(discovery@.attempts) {
                "Burn runner validation failed"@
            } else {
                "Burn runner not installed"@
            }),
    {
        let ghost all = discovery@.attempts;
        for i in 0..discovery.attempts.len()
            invariant
                all == burn_attempts(discovery.attempts@),
                forall|j: int| 0 <= j < i ==> !((#[trigger] all[j]).exists && !all[j].usable),
        {
            proof {
                assert(all[i as int] == discovery.attempts@[i as int]@);
            }
            if discovery.attempts[i].exists && !discovery.attempts[i].usable {
                return "Burn runner validation failed".to_string();
            }
        }
        "Burn runner not installed".to_string()
    }

    /// The runner that was found.
    pub fn runner(&self, discovery: &BurnDiscovery) -> (result: Result<PathBuf, Failure>)
        ensures
            match result {
                Ok(path) => discovery.path == Some(path),
                Err(failure) => discovery.path is None && failure@ == seq![
                    missing_text(self.mode, discovery@.attempts),
                ],
            },
    {
        match &discovery.path {
            Some(path) => Ok(path.clone()),
            None => Err(Failure::new(BurnBackend::missing_message(self.mode, discovery))),
        }
    }

    /// What to do next in a generation with the model in `model_dir`.
    pub fn generate_inner(
        &self,
        manifest: &ModelManifest,
        request: &GenerateRequest,
        model_dir: &PathBuf,
        answers: &BurnAnswers,
    ) -> (step: BurnStep)
        ensures
            is_burn_step(step, self.mode, *manifest, *request, *model_dir, *answers),
    {
        if manifest.format != ModelFormat::SafeTensors {
            return BurnStep::Fail(
                Failure::new(
                    "Burn backend supports HF safetensors model directories only".to_string(),
                ),
            );
        }
        if request.image_urls.len() > 0 {
            return BurnStep::Fail(
                Failure::new(
                    "Burn text backend received image inputs; use a VLM-capable model/runtime".to_string(),
                ),
            );
        }
        let runner = match &answers.discovery {
            None => {
                return BurnStep::FindRunner;
            },
            Some(discovery) => match self.runner(discovery) {
                Ok(runner) => runner,
                Err(failure) => {
                    return BurnStep::Fail(failure);
                },
            },
        };
        match answers.directory {
            None => {
                return BurnStep::CheckDirectory(model_dir.clone());
            },
            Some(there) => {
                if !there {
                    return BurnStep::Fail(
                        Failure::new(no_directory_message(manifest.id.as_str(), model_dir)),
                    );
                }
            },
        }
        match &answers.run {
            None => {
                let mut notes: Vec<String> = Vec::new();
                if request.debug {
                    notes.push("selected backend: ".to_string().concat(self.mode.label()));
                    notes.push("Burn runner: ".to_string().concat(shown_path(&runner).as_str()));
                    notes.push("model path: ".to_string().concat(shown_path(model_dir).as_str()));
                }
                proof {
                    assert(views(notes@) =~= burn_notes(
                        self.mode,
                        runner,
                        *model_dir,
                        request.debug,
                    ));
                }
                let args = burn_args(self.mode, model_dir, request);
                BurnStep::Run { notes, program: runner, args }
            },
            Some(run) => match read_run(
                "Burn runner",
                &runner,
                request.prompt.as_str(),
                &run.outcome,
                timings_of(run),
            ) {
                Ok(response) => BurnStep::Done(response),
                Err(failure) => BurnStep::Fail(failure),
            },
        }
    }
}

/// The runner is told the model's directory, the prompt, the limit on tokens, what to compute on,
/// and to reply in JSON; after that the sampling where the request gives it.
pub proof fn law_runner_is_told_the_request(
    mode: BurnMode,
    model_dir: PathBuf,
    request: GenerateRequest,
)
    ensures
        ({
            let args = burn_arguments(mode, model_dir, request);
            let heat = if request.temperature is Some {
                2int
            } else {
                0
            };
            let nucleus = if request.top_p is Some {
                2int
            } else {
                0
            };
            let seed = if request.seed is Some {
                2int
            } else {
                0
            };
            &&& args.len() == 9 + heat + nucleus + seed
            &&& args[0] == Argument::Text("--model"@) && args[1] == Argument::File(model_dir)
            &&& args[2] == Argument::Text("--prompt"@) && args[3] == Argument::Text(request.prompt@)
            &&& args[4] == Argument::Text("--max-tokens"@) && args[5] == Argument::Text(
                decimal(request.max_tokens as nat),
            )
            &&& args[6] == Argument::Text("--backend"@)
            &&& mode == BurnMode::Cuda ==> args[7] == Argument::Text("cuda"@)
            &&& mode == BurnMode::Cpu ==> args[7] == Argument::Text("cpu"@)
            &&& args[8] == Argument::Text("--json"@)
            &&& request.temperature is Some ==> args[9] == Argument::Text("--temperature"@)
                && args[10] == Argument::Text(request.temperature->0.shown@)
            &&& request.top_p is Some ==> args[9 + heat] == Argument::Text("--top-p"@) && args[10
                + heat] == Argument::Text(request.top_p->0.shown@)
            &&& request.seed is Some ==> args[9 + heat + nucleus] == Argument::Text("--seed"@)
                && args[10 + heat + nucleus] == Argument::Text(decimal(request.seed->0 as nat))
        }),
{
}

/// A generation runs the runner that was found on the model's directory, and only where that is
/// there. It gives the response that the run gives, and none for images or other formats.
pub proof fn law_generation_runs_what_was_found(
    step: BurnStep,
    mode: BurnMode,
    manifest: ModelManifest,
    request: GenerateRequest,
    model_dir: PathBuf,
    answers: BurnAnswers,
)
    requires
        is_burn_step(step, mode, manifest, request, model_dir, answers),
    ensures
        manifest.format != ModelFormat::SafeTensors || request.image_urls@.len() > 0
            ==> step is Fail,
        step matches BurnStep::Run { notes, program, args } ==> answers.discovery is Some
            && answers.discovery->0.path == Some(program) && answers.directory == Some(true)
            && arguments_of(args@) == burn_arguments(mode, model_dir, request) && (!request.debug
            ==> notes@.len() == 0),
        step matches BurnStep::Done(response) ==> answers.run is Some && run_response(
            "Burn runner"@,
            answers.discovery->0.path->0,
            request.prompt@,
            answers.run->0.outcome,
            run_timings(answers.run->0),
        ) == Ok::<Response, Seq<Seq<char>>>(response@),
        step matches BurnStep::CheckDirectory(dir) ==> dir == model_dir,
        answers.directory == Some(false) ==> !(step is Run) && !(step is Done),
{
    if step is Run {
        assert(views(step->Run_notes@).len() == step->Run_notes@.len());
    }
}

/// Of the places of a runner the one that is set for the mode comes first, after it the one that
/// is set for every mode, the managed one of the mode, and the one in the search path.
pub proof fn law_places_of_runners_stand_in_order(
    candidates: Seq<Candidate>,
    store: ModelStore,
    mode: BurnMode,
    set_for_mode: Option<PathBuf>,
    set_for_all: Option<PathBuf>,
    in_path: Option<PathBuf>,
    windows: bool,
)
    requires
        are_burn_candidates(
            candidates,
            store,
            mode,
            set_for_mode,
            set_for_all,
            in_path,
            windows,
        ),
    ensures
        candidates.len() == 4,
        candidates[0].path == set_for_mode,
        candidates[1].path == set_for_all,
        candidates[2].path is Some && is_below(
            candidates[2].path->0,
            store.home,
            seq![
                "backends"@,
                match mode {
                    BurnMode::Cuda => "burn-cuda"@,
                    BurnMode::Cpu => "burn-cpu"@,
                },
                if windows {
                    "werk-burn-runner.exe"@
                } else {
                    "werk-burn-runner"@
                },
            ],
        ),
        candidates[3].path == in_path,
{
}

} // verus!
