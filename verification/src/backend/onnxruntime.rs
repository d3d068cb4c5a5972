//! The ONNX Runtime backend, which runs an ONNX Runtime runner.

use super::args::{push_file, push_flag, push_text};
use super::generate::{
    arguments_of, Argument, CommandArg, GenerateRequest, GenerateResponse, Response,
};
use super::path_search::{find_in_path, is_place_step, PathSearch};
use super::runner::{
    attempt_lines, is_usable, read_run, run_response, run_timings, runner_attempts,
    runner_help_ok, search_from, search_runner, shown_attempt, some_unusable, timings_of, Attempt,
    Candidate, Discovery, RunnerCheck, RunnerDiscovery, RunnerSearch, Search, TimedRun,
};
use crate::failure::Failure;
use crate::model::{
    ArtifactKind, ArtifactStatus, ModelArtifact, ModelFormat, ModelManifest, ModelStore,
};
use crate::paths::{
    entry_path, has_parent, is_below, is_beside, is_joined, is_parent, is_plain_name, joined_path,
    keeps_text, lemma_below_below, lemma_last_two, lemma_plain_backends, lemma_plain_name,
    parent_path, path_parts, path_text, same_path, shown_path, takes_names, PathPart,
};
use crate::text::number::{decimal, decimal_text};
use crate::text::space::views;
use std::path::PathBuf;
use vstd::prelude::*;

verus! {

/// What an ONNX Runtime runner computes on.
#[derive(Debug, Clone, Copy, PartialEq, Eq, Structural)]
pub enum OnnxRuntimeMode {
    Cuda,
    Rocm,
    Cpu,
}

impl OnnxRuntimeMode {
    /// The name of the backend in this mode.
    pub open spec fn label_text(self) -> Seq<char> {
        match self {
            OnnxRuntimeMode::Cuda => "onnxruntime-cuda"@,
            OnnxRuntimeMode::Rocm => "onnxruntime-rocm"@,
            OnnxRuntimeMode::Cpu => "onnxruntime-cpu"@,
        }
    }

    /// The name of the backend in this mode, for messages.
    pub open spec fn display_text(self) -> Seq<char> {
        match self {
            OnnxRuntimeMode::Cuda => "ONNX Runtime CUDA"@,
            OnnxRuntimeMode::Rocm => "ONNX Runtime ROCm"@,
            OnnxRuntimeMode::Cpu => "ONNX Runtime CPU"@,
        }
    }

    /// What the runner is told to compute on.
    pub open spec fn backend_text(self) -> Seq<char> {
        match self {
            OnnxRuntimeMode::Cuda => "cuda"@,
            OnnxRuntimeMode::Rocm => "rocm"@,
            OnnxRuntimeMode::Cpu => "cpu"@,
        }
    }

    /// The environment variable that names the runner for this mode.
    pub open spec fn variable_text(self) -> Seq<char> {
        match self {
            OnnxRuntimeMode::Cuda => "WERK_ONNX_RUNTIME_CUDA"@,
            OnnxRuntimeMode::Rocm => "WERK_ONNX_RUNTIME_ROCM"@,
            OnnxRuntimeMode::Cpu => "WERK_ONNX_RUNTIME_CPU"@,
        }
    }

    /// The environment variable that names the bundled runner for this mode.
    pub open spec fn bundle_text(self) -> Seq<char> {
        match self {
            OnnxRuntimeMode::Cuda => "WERK_ONNX_RUNTIME_BUNDLE_CUDA"@,
            OnnxRuntimeMode::Rocm => "WERK_ONNX_RUNTIME_BUNDLE_ROCM"@,
            OnnxRuntimeMode::Cpu => "WERK_ONNX_RUNTIME_BUNDLE_CPU"@,
        }
    }

    /// The name of the backend in this mode.
    pub fn label(self) -> (label: &'static str)
        ensures
            label@ == self.label_text(),
    {
        match self {
            OnnxRuntimeMode::Cuda => "onnxruntime-cuda",
            OnnxRuntimeMode::Rocm => "onnxruntime-rocm",
            OnnxRuntimeMode::Cpu => "onnxruntime-cpu",
        }
    }

    /// The name of the backend in this mode, for messages.
    pub fn display(self) -> (name: &'static str)
        ensures
            name@ == self.display_text(),
    {
        match self {
            OnnxRuntimeMode::Cuda => "ONNX Runtime CUDA",
            OnnxRuntimeMode::Rocm => "ONNX Runtime ROCm",
            OnnxRuntimeMode::Cpu => "ONNX Runtime CPU",
        }
    }

    /// What is said before the backend is used in this mode.
    pub fn using_note(self) -> (note: String)
        ensures
            note@ == "Using "@ + self.display_text() + " backend"@,
    {
        "Using ".to_string().concat(self.display()).concat(" backend")
    }

    /// What the runner is told to compute on.
    pub fn backend_arg(self) -> (arg: &'static str)
        ensures
            arg@ == self.backend_text(),
    {
        match self {
            OnnxRuntimeMode::Cuda => "cuda",
            OnnxRuntimeMode::Rocm => "rocm",
            OnnxRuntimeMode::Cpu => "cpu",
        }
    }

    /// The environment variable that names the runner for this mode. `WERK_ONNX_RUNTIME` names
    /// one for every mode.
    pub fn runner_variable(self) -> (name: &'static str)
        ensures
            name@ == self.variable_text(),
    {
        match self {
            OnnxRuntimeMode::Cuda => "WERK_ONNX_RUNTIME_CUDA",
            OnnxRuntimeMode::Rocm => "WERK_ONNX_RUNTIME_ROCM",
            OnnxRuntimeMode::Cpu => "WERK_ONNX_RUNTIME_CPU",
        }
    }

    /// The environment variable that names the bundled runner for this mode.
    /// `WERK_ONNX_RUNTIME_BUNDLE` names one for every mode.
    pub fn bundle_env(self) -> (name: &'static str)
        ensures
            name@ == self.bundle_text(),
    {
        match self {
            OnnxRuntimeMode::Cuda => "WERK_ONNX_RUNTIME_BUNDLE_CUDA",
            OnnxRuntimeMode::Rocm => "WERK_ONNX_RUNTIME_BUNDLE_ROCM",
            OnnxRuntimeMode::Cpu => "WERK_ONNX_RUNTIME_BUNDLE_CPU",
        }
    }
}

/// What may be done to make the runtime available.
#[derive(Debug, Clone, Copy)]
pub struct OnnxProvisionOptions {
    pub install_missing_runtime: bool,
    pub verbose: bool,
}

impl Default for OnnxProvisionOptions {
    /// Nothing is installed, and nothing is said.
    fn default() -> (options: OnnxProvisionOptions)
        ensures
            !options.install_missing_runtime,
            !options.verbose,
    {
        OnnxProvisionOptions { install_missing_runtime: false, verbose: false }
    }
}

/// Whether the runtime can be used.
#[derive(Debug, Clone, Copy, PartialEq, Eq, Structural)]
pub enum OnnxRuntimeAvailability {
    Ready,
    Installable,
    Unavailable,
}

/// The ONNX Runtime backend.
#[derive(Debug, Clone)]
pub struct OnnxRuntimeBackend {
    pub store: ModelStore,
    pub mode: OnnxRuntimeMode,
}

/// What the search for an ONNX Runtime runner has found.
#[derive(Debug, Clone)]
pub struct OnnxRuntimeDiscovery {
    pub path: Option<PathBuf>,
    pub source: String,
    pub attempts: Vec<OnnxRuntimeAttempt>,
}

/// An attempt to find an ONNX Runtime runner.
#[derive(Debug, Clone)]
pub struct OnnxRuntimeAttempt {
    pub label: String,
    pub path: Option<PathBuf>,
    pub exists: bool,
    pub usable: bool,
    pub detail: String,
}

/// What to do next in the search for an ONNX Runtime runner.
pub enum OnnxRuntimeSearch {
    /// Find out what is at the path.
    Check(PathBuf),
    Done(OnnxRuntimeDiscovery),
}

impl View for OnnxRuntimeAttempt {
    type V = Attempt;

    open spec fn view(&self) -> Attempt {
        Attempt {
            label: self.label@,
            path: self.path,
            exists: self.exists,
            usable: self.usable,
            detail: self.detail@,
        }
    }
}

/// The models of a list of attempts.
pub open spec fn onnx_attempts(attempts: Seq<OnnxRuntimeAttempt>) -> Seq<Attempt> {
    attempts.map_values(|attempt: OnnxRuntimeAttempt| attempt@)
}

impl View for OnnxRuntimeDiscovery {
    type V = Discovery;

    open spec fn view(&self) -> Discovery {
        Discovery {
            path: self.path,
            source: self.source@,
            attempts: onnx_attempts(self.attempts@),
        }
    }
}

impl View for OnnxRuntimeSearch {
    type V = Search;

    open spec fn view(&self) -> Search {
        match self {
            OnnxRuntimeSearch::Check(path) => Search::Check(*path),
            OnnxRuntimeSearch::Done(discovery) => Search::Done(discovery@),
        }
    }
}

/// The file name of the runner.
pub open spec fn runner_file(windows: bool) -> Seq<char> {
    if windows {
        "werk-onnx-runner.exe"@
    } else {
        "werk-onnx-runner"@
    }
}

/// The file name of the runner.
pub fn runner_name(windows: bool) -> (name: &'static str)
    ensures
        name@ == runner_file(windows),
        is_plain_name(name@),
{
    proof {
        lemma_plain_names();
    }
    if windows {
        "werk-onnx-runner.exe"
    } else {
        "werk-onnx-runner"
    }
}

proof fn lemma_plain_names()
    ensures
        is_plain_name("dist"@),
        is_plain_name("onnxruntime-cuda"@),
        is_plain_name("onnxruntime-rocm"@),
        is_plain_name("onnxruntime-cpu"@),
        is_plain_name("werk-onnx-runner.exe"@),
        is_plain_name("werk-onnx-runner"@),
{
    assert(is_plain_name("dist"@)) by {
        reveal_strlit("dist");
        lemma_plain_name("dist"@);
    }
    assert(is_plain_name("onnxruntime-cuda"@)) by {
        reveal_strlit("onnxruntime-cuda");
        lemma_plain_name("onnxruntime-cuda"@);
    }
    assert(is_plain_name("onnxruntime-rocm"@)) by {
        reveal_strlit("onnxruntime-rocm");
        lemma_plain_name("onnxruntime-rocm"@);
    }
    assert(is_plain_name("onnxruntime-cpu"@)) by {
        reveal_strlit("onnxruntime-cpu");
        lemma_plain_name("onnxruntime-cpu"@);
    }
    assert(is_plain_name("werk-onnx-runner.exe"@)) by {
        reveal_strlit("werk-onnx-runner.exe");
        lemma_plain_name("werk-onnx-runner.exe"@);
    }
    assert(is_plain_name("werk-onnx-runner"@)) by {
        reveal_strlit("werk-onnx-runner");
        lemma_plain_name("werk-onnx-runner"@);
    }
}

/// The names that lead from a directory of backends to the runner.
pub open spec fn runner_names(mode: OnnxRuntimeMode, windows: bool) -> Seq<Seq<char>> {
    seq![mode.label_text(), runner_file(windows)]
}

/// The names that lead from the store to the managed runner.
pub open spec fn managed_runner_names(mode: OnnxRuntimeMode, windows: bool) -> Seq<Seq<char>> {
    seq!["backends"@] + runner_names(mode, windows)
}

/// The runner of a backend below a directory.
fn runner_below(dir: &PathBuf, mode: OnnxRuntimeMode, windows: bool) -> (path: PathBuf)
    ensures
        is_below(path, *dir, runner_names(mode, windows)),
{
    proof {
        lemma_plain_names();
    }
    let backend_dir = entry_path(dir, mode.label());
    let path = entry_path(&backend_dir, runner_name(windows));
    proof {
        let upper = seq![mode.label_text()];
        let lower = seq![runner_file(windows)];
        lemma_below_below(path, backend_dir, *dir, upper, lower);
        assert(upper + lower =~= runner_names(mode, windows));
    }
    path
}

/// The runner of a backend below the directory of backends in a directory.
fn managed_below(dir: &PathBuf, mode: OnnxRuntimeMode, windows: bool) -> (path: PathBuf)
    ensures
        is_below(path, *dir, managed_runner_names(mode, windows)),
{
    proof {
        lemma_plain_backends();
    }
    let backends = entry_path(dir, "backends");
    let path = runner_below(&backends, mode, windows);
    proof {
        lemma_below_below(path, backends, *dir, seq!["backends"@], runner_names(mode, windows));
    }
    path
}

/// The path of the managed runner.
pub fn managed_runner_path(store: &ModelStore, mode: OnnxRuntimeMode, windows: bool) -> (path:
    PathBuf)
    ensures
        is_below(path, store.home, managed_runner_names(mode, windows)),
{
    managed_below(&store.home, mode, windows)
}

/// Runners of different modes never share a path.
pub proof fn law_modes_have_runners_of_their_own(
    home: PathBuf,
    first_mode: OnnxRuntimeMode,
    second_mode: OnnxRuntimeMode,
    windows: bool,
    first: PathBuf,
    second: PathBuf,
)
    requires
        takes_names(home) || keeps_text(path_text(home)),
        first_mode != second_mode,
        is_below(first, home, managed_runner_names(first_mode, windows)),
        is_below(second, home, managed_runner_names(second_mode, windows)),
    ensures
        first != second,
{
    lemma_plain_names();
    lemma_plain_backends();
    reveal_strlit("onnxruntime-cuda");
    reveal_strlit("onnxruntime-rocm");
    reveal_strlit("onnxruntime-cpu");
    let first_names = managed_runner_names(first_mode, windows);
    let second_names = managed_runner_names(second_mode, windows);
    assert(first_mode.label_text().last() != second_mode.label_text().last());
    if keeps_text(path_text(home)) {
        lemma_last_two(path_text(first), path_text(home), first_names);
        lemma_last_two(path_text(second), path_text(home), second_names);
    } else {
        let at = path_parts(home).len() as int + 1;
        assert(path_parts(first)[at] == PathPart::Name(first_mode.label_text()));
        assert(path_parts(second)[at] == PathPart::Name(second_mode.label_text()));
    }
}

/// Whether candidates are the places of a runner, in the order in which they are tried: the one
/// that is set for the mode, the one that is set for every mode, the managed one and the one in
/// the search path.
pub open spec fn are_onnx_candidates(
    candidates: Seq<Candidate>,
    store: ModelStore,
    mode: OnnxRuntimeMode,
    set_for_mode: Option<PathBuf>,
    set_for_all: Option<PathBuf>,
    in_path: Option<PathBuf>,
    windows: bool,
) -> bool {
    &&& candidates.len() == 4
    &&& candidates[0].label@ == mode.variable_text() && candidates[0].path == set_for_mode
    &&& candidates[1].label@ == "WERK_ONNX_RUNTIME"@ && candidates[1].path == set_for_all
    &&& candidates[2].label@ == "managed cache"@ && candidates[2].path is Some && is_below(
        candidates[2].path->0,
        store.home,
        managed_runner_names(mode, windows),
    )
    &&& candidates[3].label@ == "PATH: werk-onnx-runner"@ && candidates[3].path == in_path
}

/// What a message says when no runner is found.
pub open spec fn missing_text(mode: OnnxRuntimeMode, attempts: Seq<Attempt>) -> Seq<char> {
    "No "@ + mode.display_text() + " runner found.\n\nTried:"@ + attempt_lines(attempts)
        + "\n\nFix:"@ + "\n- set WERK_ONNX_RUNTIME=/path/to/werk-onnx-runner"@
        + "\n- or install a managed ONNX Runtime runner artifact for Werk"@
}

fn attempt_list(attempts: &[OnnxRuntimeAttempt]) -> (text: String)
    ensures
        text@ == attempt_lines(onnx_attempts(attempts@)),
{
    let ghost all = onnx_attempts(attempts@);
    let mut text = String::new();
    for i in 0..attempts.len()
        invariant
            all == onnx_attempts(attempts@),
            text@ == attempt_lines(all.take(i as int)),
    {
        proof {
            assert(all.take(i + 1).drop_last() =~= all.take(i as int));
            assert(all.take(i + 1).last() == attempts@[i as int]@);
        }
        let attempt = &attempts[i];
        let line = shown_attempt(
            attempt.label.as_str(),
            &attempt.path,
            attempt.exists,
            attempt.usable,
            attempt.detail.as_str(),
        );
        text.append(line.as_str());
    }
    proof {
        assert(all.take(attempts.len() as int) =~= all);
    }
    text
}

fn from_runner(found: RunnerDiscovery) -> (discovery: OnnxRuntimeDiscovery)
    ensures
        discovery@ == found@,
{
    let ghost whole = found@;
    let ghost all = found.attempts@;
    let mut attempts: Vec<OnnxRuntimeAttempt> = Vec::new();
    for attempt in iter: found.attempts
        invariant
            iter.seq() == all,
            onnx_attempts(attempts@) == runner_attempts(all).take(iter.index() as int),
    {
        let ghost before = onnx_attempts(attempts@);
        let ghost now = attempt@;
        attempts.push(
            OnnxRuntimeAttempt {
                label: attempt.label,
                path: attempt.path,
                exists: attempt.exists,
                usable: attempt.usable,
                detail: attempt.detail,
            },
        );
        proof {
            assert(onnx_attempts(attempts@) =~= before.push(now));
        }
    }
    let discovery = OnnxRuntimeDiscovery { path: found.path, source: found.source, attempts };
    proof {
        assert(discovery@ =~= whole);
    }
    discovery
}

/// Whether a program has a parent.
pub open spec fn has_directory(program: Option<PathBuf>) -> bool {
    program is Some && has_parent(path_parts(program->0))
}

/// Whether paths are those of the bundled runners: two next to the program, where it has a parent,
/// and two in the project, where there is one.
pub open spec fn are_bundled(
    paths: Seq<PathBuf>,
    mode: OnnxRuntimeMode,
    program: Option<PathBuf>,
    project: Option<PathBuf>,
    windows: bool,
) -> bool {
    let beside: int = if has_directory(program) {
        2
    } else {
        0
    };
    let below: int = if project is Some {
        2
    } else {
        0
    };
    let managed = managed_runner_names(mode, windows);
    &&& paths.len() == beside + below
    &&& has_directory(program) ==> is_beside(paths[0], program->0, managed) && is_beside(
        paths[1],
        program->0,
        runner_names(mode, windows),
    )
    &&& project is Some ==> is_below(paths[beside], project->0, managed) && is_below(
        paths[beside + 1],
        project->0,
        seq!["dist"@] + managed,
    )
}

/// A path where there is one.
pub open spec fn path_list(path: Option<PathBuf>) -> Seq<PathBuf> {
    match path {
        Some(path) => seq![path],
        None => Seq::empty(),
    }
}

/// Where bundled runners may be: the one that is set for the mode, the one that is set for every
/// mode, those next to the program, and those in the project that the program was built from.
pub fn bundled_runner_candidates(
    mode: OnnxRuntimeMode,
    set_for_mode: Option<PathBuf>,
    set_for_all: Option<PathBuf>,
    program: Option<PathBuf>,
    project: Option<PathBuf>,
    windows: bool,
) -> (candidates: Vec<PathBuf>)
    ensures
        ({
            let set = path_list(set_for_mode) + path_list(set_for_all);
            &&& candidates@.len() >= set.len()
            &&& candidates@.take(set.len() as int) == set
            &&& are_bundled(
                candidates@.skip(set.len() as int),
                mode,
                program,
                project,
                windows,
            )
        }),
{
    let mut candidates: Vec<PathBuf> = Vec::new();
    match &set_for_mode {
        Some(path) => candidates.push(path.clone()),
        None => {},
    }
    match &set_for_all {
        Some(path) => candidates.push(path.clone()),
        None => {},
    }
    let ghost set = candidates@;
    proof {
        assert(set =~= path_list(set_for_mode) + path_list(set_for_all));
    }
    match &program {
        Some(program) => match parent_path(program) {
            Some(dir) => {
                candidates.push(managed_below(&dir, mode, windows));
                candidates.push(runner_below(&dir, mode, windows));
            },
            None => {},
        },
        None => {},
    }
    match &project {
        Some(root) => {
            proof {
                lemma_plain_names();
            }
            candidates.push(managed_below(root, mode, windows));
            let dist = entry_path(root, "dist");
            let in_dist = managed_below(&dist, mode, windows);
            proof {
                lemma_below_below(
                    in_dist,
                    dist,
                    *root,
                    seq!["dist"@],
                    managed_runner_names(mode, windows),
                );
            }
            candidates.push(in_dist);
        },
        None => {},
    }
    proof {
        assert(candidates@.take(set.len() as int) =~= set);
        assert(are_bundled(candidates@.skip(set.len() as int), mode, program, project, windows));
    }
    candidates
}

/// Which of the checks found a usable runner.
pub open spec fn usable_checks(checks: Seq<RunnerCheck>) -> Seq<bool> {
    checks.map_values(|check: RunnerCheck| is_usable(check))
}

/// What to do next in the search for a bundled runner; the first usable one is taken.
pub fn find_bundled_runner(candidates: &[PathBuf], checks: &[RunnerCheck]) -> (step: PathSearch)
    ensures
        is_place_step(step, candidates@, usable_checks(checks@)),
{
    let mut usable: Vec<bool> = Vec::new();
    for i in 0..checks.len()
        invariant
            usable@ == usable_checks(checks@).take(i as int),
    {
        usable.push(runner_help_ok(&checks[i]));
    }
    proof {
        assert(usable_checks(checks@).take(checks.len() as int) =~= usable_checks(checks@));
    }
    find_in_path(candidates, &usable)
}

/// How a message lists paths.
pub open spec fn path_lines(paths: Seq<PathBuf>) -> Seq<char>
    decreases paths.len(),
{
    if paths.len() == 0 {
        Seq::empty()
    } else {
        path_lines(paths.drop_last()) + "\n- "@ + path_text(paths.last())
    }
}

/// What a message says when no bundled runner is found.
pub open spec fn missing_bundle_text(
    mode: OnnxRuntimeMode,
    candidates: Seq<PathBuf>,
    windows: bool,
) -> Seq<char> {
    "No bundled "@ + mode.display_text() + " runner found for provisioning."@ + "\n\nTried:"@
        + path_lines(candidates) + "\n\nFix:"@ + "\n- set "@ + mode.bundle_text() + "=/path/to/"@
        + runner_file(windows)
        + "\n- or ship the runner under backends/<runtime>/ next to the werk binary"@
        + "\n- or set WERK_ONNX_RUNTIME=/path/to/werk-onnx-runner"@
}

/// What a message says when no bundled runner is found.
pub fn missing_bundle_message(mode: OnnxRuntimeMode, candidates: &[PathBuf], windows: bool) -> (
    message: String)
    ensures
        message@ == missing_bundle_text(mode, candidates@, windows),
{
    let mut list = String::new();
    for i in 0..candidates.len()
        invariant
            list@ == path_lines(candidates@.take(i as int)),
    {
        proof {
            assert(candidates@.take(i + 1).drop_last() =~= candidates@.take(i as int));
        }
        list.append("\n- ");
        list.append(shown_path(&candidates[i]).as_str());
    }
    proof {
        assert(candidates@.take(candidates.len() as int) =~= candidates@);
    }
    "No bundled ".to_string().concat(mode.display()).concat(
        " runner found for provisioning.",
    ).concat("\n\nTried:").concat(list.as_str()).concat("\n\nFix:").concat("\n- set ").concat(
        mode.bundle_env(),
    ).concat("=/path/to/").concat(runner_name(windows)).concat(
        "\n- or ship the runner under backends/<runtime>/ next to the werk binary",
    ).concat("\n- or set WERK_ONNX_RUNTIME=/path/to/werk-onnx-runner")
}

/// What has come of installing a runner so far.
#[derive(Debug, Clone)]
pub struct InstallAnswers {
    /// What was found at the bundled runners' places.
    pub checks: Vec<RunnerCheck>,
    /// Whether the directory was made, once that was tried.
    pub directory_made: Option<Result<(), String>>,
    /// Whether the runner was copied, once that was tried.
    pub copied: Option<Result<(), String>>,
    /// Whether the runner was made executable, once that was tried.
    pub made_executable: Option<Result<(), String>>,
    /// What was found at the installed runner's place, once that was looked at.
    pub installed_check: Option<RunnerCheck>,
}

/// What to do next to install a runner.
pub enum InstallStep {
    Fail(Failure),
    /// Find out what is at the path.
    Check(PathBuf),
    MakeDirectory(PathBuf),
    Copy { source: PathBuf, dest: PathBuf },
    MakeExecutable(PathBuf),
    /// Find out whether the installed runner works.
    CheckInstalled(PathBuf),
    Done(PathBuf),
}

/// What is said when the runner could not be copied.
pub open spec fn copy_failure_text(source: PathBuf, dest: PathBuf) -> Seq<char> {
    "failed to copy ONNX Runtime runner from "@ + path_text(source) + " to "@ + path_text(dest)
}

/// Whether a step is the one that follows what has come of the installation of `source` as
/// `dest` so far.
pub open spec fn is_placing_step(
    step: InstallStep,
    source: PathBuf,
    dest: PathBuf,
    answers: InstallAnswers,
) -> bool {
    let differs = path_parts(source) != path_parts(dest);
    if !has_parent(path_parts(dest)) {
        step matches InstallStep::Fail(failure) && failure@ == seq![
            "invalid managed ONNX Runtime path "@ + path_text(dest),
        ]
    } else {
        match answers.directory_made {
            None => step matches InstallStep::MakeDirectory(dir) && is_parent(dir, dest),
            Some(Err(reason)) => step matches InstallStep::Fail(failure) && failure@
                == seq![reason@],
            Some(Ok(_)) => if differs && answers.copied is None {
                step matches InstallStep::Copy { source: from, dest: to } && from == source && to
                    == dest
            } else if differs && answers.copied->0 is Err {
                step matches InstallStep::Fail(failure) && failure@ == seq![
                    copy_failure_text(source, dest),
                    answers.copied->0->Err_0@,
                ]
            } else {
                match answers.made_executable {
                    None => step matches InstallStep::MakeExecutable(path) && path == dest,
                    Some(Err(reason)) => step matches InstallStep::Fail(failure) && failure@
                        == seq![reason@],
                    Some(Ok(_)) => match answers.installed_check {
                        None => step matches InstallStep::CheckInstalled(path) && path == dest,
                        Some(check) => if is_usable(check) {
                            step matches InstallStep::Done(path) && path == dest
                        } else {
                            step matches InstallStep::Fail(failure) && failure@ == seq![
                                "installed ONNX Runtime runner did not pass --help validation: "@
                                    + path_text(dest),
                            ]
                        },
                    },
                }
            },
        }
    }
}

/// Whether a step is the one that follows what has come of an installation so far.
pub open spec fn is_install_step(
    step: InstallStep,
    mode: OnnxRuntimeMode,
    bundled: Seq<PathBuf>,
    dest: PathBuf,
    windows: bool,
    answers: InstallAnswers,
) -> bool {
    exists|search: PathSearch|
        {
            &&& is_place_step(search, bundled, usable_checks(answers.checks@))
            &&& match search {
                PathSearch::Check(path) => step matches InstallStep::Check(asked) && asked == path,
                PathSearch::Done(None) => step matches InstallStep::Fail(failure) && failure@
                    == seq![missing_bundle_text(mode, bundled, windows)],
                PathSearch::Done(Some(source)) => is_placing_step(step, source, dest, answers),
            }
        }
}

fn placing_step(source: PathBuf, dest: &PathBuf, answers: &InstallAnswers) -> (step: InstallStep)
    ensures
        is_placing_step(step, source, *dest, *answers),
{
    let dir = match parent_path(dest) {
        Some(dir) => dir,
        None => {
            let message = "invalid managed ONNX Runtime path ".to_string().concat(
                shown_path(dest).as_str(),
            );
            return InstallStep::Fail(Failure::new(message));
        },
    };
    match &answers.directory_made {
        None => {
            return InstallStep::MakeDirectory(dir);
        },
        Some(Err(reason)) => {
            return InstallStep::Fail(Failure::new(reason.clone()));
        },
        Some(Ok(_)) => {},
    }
    if !same_path(&source, dest) {
        match &answers.copied {
            None => {
                return InstallStep::Copy { source, dest: dest.clone() };
            },
            Some(Err(reason)) => {
                let message = "failed to copy ONNX Runtime runner from ".to_string().concat(
                    shown_path(&source).as_str(),
                ).concat(" to ").concat(shown_path(dest).as_str());
                return InstallStep::Fail(Failure::because(message, reason.clone()));
            },
            Some(Ok(_)) => {},
        }
    }
    match &answers.made_executable {
        None => {
            return InstallStep::MakeExecutable(dest.clone());
        },
        Some(Err(reason)) => {
            return InstallStep::Fail(Failure::new(reason.clone()));
        },
        Some(Ok(_)) => {},
    }
    match &answers.installed_check {
        None => InstallStep::CheckInstalled(dest.clone()),
        Some(check) => {
            if runner_help_ok(check) {
                InstallStep::Done(dest.clone())
            } else {
                let message =
                    "installed ONNX Runtime runner did not pass --help validation: ".to_string().concat(
                shown_path(dest).as_str());
                InstallStep::Fail(Failure::new(message))
            }
        },
    }
}

/// What to do next to install a bundled runner as the managed one, `dest`.
pub fn install_managed_onnx_runtime(
    mode: OnnxRuntimeMode,
    bundled: &[PathBuf],
    dest: &PathBuf,
    windows: bool,
    answers: &InstallAnswers,
) -> (step: InstallStep)
    ensures
        is_install_step(step, mode, bundled@, *dest, windows, *answers),
{
    let search = find_bundled_runner(bundled, &answers.checks);
    let ghost found = search;
    let step = match search {
        PathSearch::Check(path) => InstallStep::Check(path),
        PathSearch::Done(None) => InstallStep::Fail(
            Failure::new(missing_bundle_message(mode, bundled, windows)),
        ),
        PathSearch::Done(Some(source)) => placing_step(source, dest, answers),
    };
    proof {
        assert(is_place_step(found, bundled@, usable_checks(answers.checks@)));
    }
    step
}

/// What to do next to find out whether the runtime can be used.
pub enum AvailabilityStep {
    /// Find out what is at the path.
    Check(PathBuf),
    Known(OnnxRuntimeAvailability),
}

/// Whether a step is the one that follows what is known: a runner that was found is ready; else
/// a usable bundled one can be installed.
pub open spec fn is_availability_step(
    step: AvailabilityStep,
    found: Option<PathBuf>,
    bundled: Seq<PathBuf>,
    checks: Seq<RunnerCheck>,
) -> bool {
    if found is Some {
        step == AvailabilityStep::Known(OnnxRuntimeAvailability::Ready)
    } else {
        exists|search: PathSearch|
            {
                &&& is_place_step(search, bundled, usable_checks(checks))
                &&& step == match search {
                    PathSearch::Check(path) => AvailabilityStep::Check(path),
                    PathSearch::Done(Some(_)) => AvailabilityStep::Known(
                        OnnxRuntimeAvailability::Installable,
                    ),
                    PathSearch::Done(None) => AvailabilityStep::Known(
                        OnnxRuntimeAvailability::Unavailable,
                    ),
                }
            }
    }
}

/// What has come of making the runtime available so far.
#[derive(Debug, Clone)]
pub struct EnsureAnswers {
    /// What the search for a runner has found, once it was made.
    pub discovery: Option<OnnxRuntimeDiscovery>,
    /// Whether a runner was installed, once that was tried.
    pub installed: Option<Result<(), Failure>>,
    /// What the search after the installation has found, once it was made.
    pub discovery_after: Option<OnnxRuntimeDiscovery>,
    /// Whether the model's ONNX file is ready, once that was asked.
    pub artifact_ready: Option<bool>,
    /// Whether the ONNX file was built, once that was tried.
    pub built: Option<Result<(), Failure>>,
}

/// What to do next to make the runtime available.
pub enum EnsureAction {
    Fail(Failure),
    Discover,
    Install,
    DiscoverAgain,
    /// Ask whether the model's ONNX file is ready.
    AskArtifact,
    BuildArtifact,
    Done,
}

/// What to do next to make the runtime available, and what to print before it.
pub struct EnsureStep {
    pub notes: Vec<String>,
    pub action: EnsureAction,
}

/// Notes that are printed where more is to be said.
pub open spec fn notes_if(verbose: bool, notes: Seq<Seq<char>>) -> Seq<Seq<char>> {
    if verbose {
        notes
    } else {
        Seq::empty()
    }
}

/// The search that counts: the one after an installation, where there was one.
pub open spec fn last_discovery(
    options: OnnxProvisionOptions,
    answers: EnsureAnswers,
) -> Option<OnnxRuntimeDiscovery> {
    if answers.discovery matches Some(first) && first.path is None
        && options.install_missing_runtime {
        answers.discovery_after
    } else {
        answers.discovery
    }
}

/// Whether a step is the one that follows once a runner is at hand.
pub open spec fn is_artifact_step(
    step: EnsureStep,
    manifest: ModelManifest,
    mode: OnnxRuntimeMode,
    options: OnnxProvisionOptions,
    answers: EnsureAnswers,
) -> bool {
    let ready = seq!["Selected runtime: "@ + mode.display_text(), "Runtime status: ready"@];
    let verbose = options.verbose;
    if manifest.format == ModelFormat::Onnx {
        step.action is Done && views(step.notes@) == notes_if(
            verbose,
            ready + seq!["Artifact: direct ONNX model"@, "Result: runtime ready"@],
        )
    } else {
        match answers.artifact_ready {
            None => step.action is AskArtifact && views(step.notes@) == notes_if(verbose, ready),
            Some(true) => step.action is Done && views(step.notes@) == notes_if(
                verbose,
                seq!["Artifact: ready"@, "Result: runtime ready"@],
            ),
            Some(false) => match answers.built {
                None => step.action is BuildArtifact && views(step.notes@) == notes_if(
                    verbose,
                    seq!["Artifact: building ONNX export"@],
                ),
                Some(Ok(_)) => step.action is Done && views(step.notes@) == notes_if(
                    verbose,
                    seq!["Result: runtime ready"@],
                ),
                Some(Err(reason)) => {
                    &&& step.action matches EnsureAction::Fail(failure)
                    &&& failure@ == seq!["ONNX artifact generation failed"@] + reason@
                    &&& views(step.notes@) == notes_if(
                        verbose,
                        seq!["Result: artifact build failed: "@ + "ONNX artifact generation failed"@],
                    )
                },
            },
        }
    }
}

/// Whether a step fails for one reason and prints nothing.
pub open spec fn fails_with(step: EnsureStep, messages: Seq<Seq<char>>) -> bool {
    &&& step.action matches EnsureAction::Fail(failure)
    &&& failure@ == messages
    &&& step.notes@.len() == 0
}

/// Whether a step is the one that follows what has come of making the runtime available so far.
pub open spec fn is_ensure_step(
    step: EnsureStep,
    manifest: ModelManifest,
    mode: OnnxRuntimeMode,
    options: OnnxProvisionOptions,
    answers: EnsureAnswers,
) -> bool {
    if manifest.format != ModelFormat::SafeTensors && manifest.format != ModelFormat::Onnx {
        fails_with(
            step,
            seq!["ONNX Runtime route requires a safetensors source model or direct ONNX model"@],
        )
    } else if answers.discovery is None {
        step.action is Discover && step.notes@.len() == 0
    } else if answers.discovery->0.path is None && options.install_missing_runtime
        && answers.installed is None {
        step.action is Install && step.notes@.len() == 0
    } else if answers.discovery->0.path is None && options.install_missing_runtime
        && answers.installed->0 is Err {
        fails_with(step, answers.installed->0->Err_0@)
    } else {
        match last_discovery(options, answers) {
            None => step.action is DiscoverAgain && step.notes@.len() == 0,
            Some(discovery) => if discovery.path is None {
                fails_with(step, seq![missing_text(mode, discovery@.attempts)])
            } else {
                is_artifact_step(step, manifest, mode, options, answers)
            },
        }
    }
}

fn failing(failure: Failure) -> (step: EnsureStep)
    ensures
        fails_with(step, failure@),
{
    EnsureStep { notes: Vec::new(), action: EnsureAction::Fail(failure) }
}

fn quiet(action: EnsureAction) -> (step: EnsureStep)
    ensures
        step.action == action,
        step.notes@.len() == 0,
{
    EnsureStep { notes: Vec::new(), action }
}

fn artifact_step(
    manifest: &ModelManifest,
    mode: OnnxRuntimeMode,
    options: OnnxProvisionOptions,
    answers: &EnsureAnswers,
) -> (step: EnsureStep)
    ensures
        is_artifact_step(step, *manifest, mode, options, *answers),
{
    let mut notes: Vec<String> = Vec::new();
    let ghost ready = seq!["Selected runtime: "@ + mode.display_text(), "Runtime status: ready"@];
    if manifest.format == ModelFormat::Onnx {
        if options.verbose {
            notes.push("Selected runtime: ".to_string().concat(mode.display()));
            notes.push("Runtime status: ready".to_string());
            notes.push("Artifact: direct ONNX model".to_string());
            notes.push("Result: runtime ready".to_string());
        }
        proof {
            assert(views(notes@) =~= notes_if(
                options.verbose,
                ready + seq!["Artifact: direct ONNX model"@, "Result: runtime ready"@],
            ));
        }
        return EnsureStep { notes, action: EnsureAction::Done };
    }
    match answers.artifact_ready {
        None => {
            if options.verbose {
                notes.push("Selected runtime: ".to_string().concat(mode.display()));
                notes.push("Runtime status: ready".to_string());
            }
            proof {
                assert(views(notes@) =~= notes_if(options.verbose, ready));
            }
            EnsureStep { notes, action: EnsureAction::AskArtifact }
        },
        Some(there) => {
            if there {
                if options.verbose {
                    notes.push("Artifact: ready".to_string());
                    notes.push("Result: runtime ready".to_string());
                }
                proof {
                    assert(views(notes@) =~= notes_if(
                        options.verbose,
                        seq!["Artifact: ready"@, "Result: runtime ready"@],
                    ));
                }
                return EnsureStep { notes, action: EnsureAction::Done };
            }
            match &answers.built {
                None => {
                    if options.verbose {
                        notes.push("Artifact: building ONNX export".to_string());
                    }
                    proof {
                        assert(views(notes@) =~= notes_if(
                            options.verbose,
                            seq!["Artifact: building ONNX export"@],
                        ));
                    }
                    EnsureStep { notes, action: EnsureAction::BuildArtifact }
                },
                Some(Ok(_)) => {
                    if options.verbose {
                        notes.push("Result: runtime ready".to_string());
                    }
                    proof {
                        assert(views(notes@) =~= notes_if(
                            options.verbose,
                            seq!["Result: runtime ready"@],
                        ));
                    }
                    EnsureStep { notes, action: EnsureAction::Done }
                },
                Some(Err(reason)) => {
                    let failure = reason.copied().under(
                        "ONNX artifact generation failed".to_string(),
                    );
                    if options.verbose {
                        notes.push(
                            "Result: artifact build failed: ".to_string().concat(
                                "ONNX artifact generation failed",
                            ),
                        );
                    }
                    proof {
                        assert(views(notes@) =~= notes_if(
                            options.verbose,
                            seq![
                                "Result: artifact build failed: "@
                                    + "ONNX artifact generation failed"@,
                            ],
                        ));
                    }
                    EnsureStep { notes, action: EnsureAction::Fail(failure) }
                },
            }
        },
    }
}

/// What has come of locating the model so far.
#[derive(Debug, Clone)]
pub struct LocateAnswers {
    /// The path of the model's main file, once that was asked.
    pub model_file: Option<PathBuf>,
    /// The model's ONNX file where one is ready, once that was asked.
    pub ready_artifact: Option<Option<ModelArtifact>>,
    /// The ONNX file that was built, once that was tried.
    pub built_artifact: Option<Result<ModelArtifact, Failure>>,
}

/// What to do next to locate the model.
pub enum LocateStep {
    Fail(Failure),
    /// Ask for the path of this file of the model.
    AskFile(String),
    /// Ask for the model's ONNX file.
    AskArtifact,
    BuildArtifact,
    Done(PathBuf),
}

/// What is said of an ONNX file that cannot be used.
pub open spec fn not_ready_text(id: Seq<char>) -> Seq<char> {
    "ONNX artifact for '"@ + id + "' is not ready"@
}

/// Whether a step gives the path of an ONNX file below the model's directory, or says that the
/// file cannot be used.
pub open spec fn is_artifact_path_step(
    step: LocateStep,
    id: Seq<char>,
    model_dir: PathBuf,
    artifact: ModelArtifact,
) -> bool {
    if artifact.status != ArtifactStatus::Ready || artifact.kind != ArtifactKind::Onnx {
        step matches LocateStep::Fail(failure) && failure@ == seq![not_ready_text(id)]
    } else {
        step matches LocateStep::Done(path) && is_joined(path, model_dir, artifact.path@)
    }
}

/// Whether a step is the one that follows what has come of locating the model so far.
pub open spec fn is_locate_step(
    step: LocateStep,
    manifest: ModelManifest,
    model_dir: PathBuf,
    answers: LocateAnswers,
) -> bool {
    if manifest.format == ModelFormat::Onnx {
        match manifest.model_path {
            None => step matches LocateStep::Fail(failure) && failure@ == seq![
                "ONNX manifest has no model_path"@,
            ],
            Some(file) => match answers.model_file {
                None => step matches LocateStep::AskFile(asked) && asked@ == file@,
                Some(path) => step matches LocateStep::Done(found) && found == path,
            },
        }
    } else if manifest.format != ModelFormat::SafeTensors {
        step matches LocateStep::Fail(failure) && failure@ == seq![
            "ONNX Runtime backend supports safetensors source models and direct ONNX models only"@,
        ]
    } else {
        match answers.ready_artifact {
            None => step is AskArtifact,
            Some(Some(artifact)) => is_artifact_path_step(step, manifest.id@, model_dir, artifact),
            Some(None) => match answers.built_artifact {
                None => step is BuildArtifact,
                Some(Err(reason)) => step matches LocateStep::Fail(failure) && failure@ == reason@,
                Some(Ok(artifact)) => is_artifact_path_step(
                    step,
                    manifest.id@,
                    model_dir,
                    artifact,
                ),
            },
        }
    }
}

fn artifact_path_step(id: &str, model_dir: &PathBuf, artifact: &ModelArtifact) -> (step: LocateStep)
    ensures
        is_artifact_path_step(step, id@, *model_dir, *artifact),
{
    if artifact.status != ArtifactStatus::Ready || artifact.kind != ArtifactKind::Onnx {
        let message = "ONNX artifact for '".to_string().concat(id).concat("' is not ready");
        return LocateStep::Fail(Failure::new(message));
    }
    LocateStep::Done(joined_path(model_dir, artifact.path.as_str()))
}

/// What to do next to locate the model whose directory is `model_dir`.
pub fn model_path(manifest: &ModelManifest, model_dir: &PathBuf, answers: &LocateAnswers) -> (step:
    LocateStep)
    ensures
        is_locate_step(step, *manifest, *model_dir, *answers),
{
    if manifest.format == ModelFormat::Onnx {
        return match &manifest.model_path {
            None => LocateStep::Fail(Failure::new("ONNX manifest has no model_path".to_string())),
            Some(file) => match &answers.model_file {
                None => LocateStep::AskFile(file.clone()),
                Some(path) => LocateStep::Done(path.clone()),
            },
        };
    }
    if manifest.format != ModelFormat::SafeTensors {
        return LocateStep::Fail(
            Failure::new(
                "ONNX Runtime backend supports safetensors source models and direct ONNX models only".to_string(),
            ),
        );
    }
    match &answers.ready_artifact {
        None => LocateStep::AskArtifact,
        Some(Some(artifact)) => artifact_path_step(manifest.id.as_str(), model_dir, artifact),
        Some(None) => match &answers.built_artifact {
            None => LocateStep::BuildArtifact,
            Some(Err(reason)) => LocateStep::Fail(reason.copied()),
            Some(Ok(artifact)) => artifact_path_step(manifest.id.as_str(), model_dir, artifact),
        },
    }
}

/// What has come of a generation so far.
#[derive(Debug, Clone)]
pub struct OnnxAnswers {
    /// What the search for a runner has found, once it was made.
    pub discovery: Option<OnnxRuntimeDiscovery>,
    pub locate: LocateAnswers,
    /// What came of running the runner on the model, once it ran.
    pub run: Option<TimedRun>,
}

/// What to do next in a generation.
pub enum OnnxStep {
    Fail(Failure),
    FindRunner,
    /// Locate the model; the step is neither a failure nor the last one.
    Locate(LocateStep),
    /// Print the notes, and run the program.
    Run { notes: Vec<String>, program: PathBuf, args: Vec<CommandArg> },
    Done(GenerateResponse),
}

/// The arguments of a runner.
pub open spec fn onnx_arguments(
    mode: OnnxRuntimeMode,
    model: PathBuf,
    request: GenerateRequest,
) -> Seq<Argument> {
    seq![
        Argument::Text("--model"@),
        Argument::File(model),
        Argument::Text("--prompt"@),
        Argument::Text(request.prompt@),
        Argument::Text("--max-tokens"@),
        Argument::Text(decimal(request.max_tokens as nat)),
        Argument::Text("--backend"@),
        Argument::Text(mode.backend_text()),
        Argument::Text("--json"@),
    ]
}

/// The arguments of a runner.
pub fn onnx_args(mode: OnnxRuntimeMode, model: &PathBuf, request: &GenerateRequest) -> (args: Vec<
    CommandArg,
>)
    ensures
        arguments_of(args@) == onnx_arguments(mode, *model, *request),
{
    let mut args: Vec<CommandArg> = Vec::new();
    push_text(&mut args, "--model");
    push_file(&mut args, model);
    push_flag(&mut args, "--prompt", request.prompt.as_str());
    push_flag(&mut args, "--max-tokens", decimal_text(request.max_tokens as u64).as_str());
    push_flag(&mut args, "--backend", mode.backend_arg());
    push_text(&mut args, "--json");
    proof {
        assert(arguments_of(args@) =~= onnx_arguments(mode, *model, *request));
    }
    args
}

/// What is printed before the runner runs.
pub open spec fn onnx_notes(
    mode: OnnxRuntimeMode,
    runner: PathBuf,
    model: PathBuf,
    request: GenerateRequest,
) -> Seq<Seq<char>> {
    notes_if(request.verbose, seq!["Starting generation..."@]) + notes_if(
        request.debug,
        seq![
            "selected backend: "@ + mode.label_text(),
            "ONNX Runtime runner: "@ + path_text(runner),
            "ONNX model: "@ + path_text(model),
        ],
    )
}

/// Whether a step is the one that follows once the runner and the model are at hand.
pub open spec fn is_running_step(
    step: OnnxStep,
    mode: OnnxRuntimeMode,
    runner: PathBuf,
    model: PathBuf,
    request: GenerateRequest,
    run: Option<TimedRun>,
) -> bool {
    match run {
        None => step matches OnnxStep::Run { notes, program, args } && views(notes@) == onnx_notes(
            mode,
            runner,
            model,
            request,
        ) && program == runner && arguments_of(args@) == onnx_arguments(mode, model, request),
        Some(run) => match run_response(
            "ONNX Runtime runner"@,
            runner,
            request.prompt@,
            run.outcome,
            run_timings(run),
        ) {
            Ok(response) => step matches OnnxStep::Done(done) && done@ == response,
            Err(messages) => step matches OnnxStep::Fail(failure) && failure@ == messages,
        },
    }
}

/// Whether a step follows a step in locating the model.
pub open spec fn follows_locating(
    step: OnnxStep,
    located: LocateStep,
    mode: OnnxRuntimeMode,
    runner: PathBuf,
    request: GenerateRequest,
    run: Option<TimedRun>,
) -> bool {
    match located {
        LocateStep::Fail(reason) => step matches OnnxStep::Fail(failure) && failure == reason,
        LocateStep::Done(model) => is_running_step(step, mode, runner, model, request, run),
        _ => step matches OnnxStep::Locate(next) && next == located,
    }
}

/// Whether a step is the one that follows what has come of a generation so far.
pub open spec fn is_onnx_step(
    step: OnnxStep,
    mode: OnnxRuntimeMode,
    manifest: ModelManifest,
    request: GenerateRequest,
    model_dir: PathBuf,
    answers: OnnxAnswers,
) -> bool {
    if request.image_urls@.len() > 0 {
        step matches OnnxStep::Fail(failure) && failure@ == seq![
            "ONNX Runtime text backend received image inputs; use a VLM-capable model/runtime"@,
        ]
    } else {
        match answers.discovery {
            None => step is FindRunner,
            Some(discovery) => match discovery.path {
                None => step matches OnnxStep::Fail(failure) && failure@ == seq![
                    missing_text(mode, discovery@.attempts),
                ],
                Some(runner) => exists|located: LocateStep|
                    {
                        &&& is_locate_step(located, manifest, model_dir, answers.locate)
                        &&& follows_locating(step, located, mode, runner, request, answers.run)
                    },
            },
        }
    }
}

impl OnnxRuntimeBackend {
    /// The backend for the models of a store.
    pub fn new(store: ModelStore, mode: OnnxRuntimeMode) -> (backend: OnnxRuntimeBackend)
        ensures
            backend.store == store,
            backend.mode == mode,
    {
        OnnxRuntimeBackend { store, mode }
    }

    /// The places of a runner, in the order in which they are tried.
    pub fn candidates(
        store: &ModelStore,
        mode: OnnxRuntimeMode,
        set_for_mode: Option<PathBuf>,
        set_for_all: Option<PathBuf>,
        in_path: Option<PathBuf>,
        windows: bool,
    ) -> (candidates: Vec<Candidate>)
        ensures
            are_onnx_candidates(
                candidates@,
                *store,
                mode,
                set_for_mode,
                set_for_all,
                in_path,
                windows,
            ),
    {
        vec![
            Candidate { label: mode.runner_variable().to_string(), path: set_for_mode },
            Candidate { label: "WERK_ONNX_RUNTIME".to_string(), path: set_for_all },
            Candidate {
                label: "managed cache".to_string(),
                path: Some(managed_runner_path(store, mode, windows)),
            },
            Candidate { label: "PATH: werk-onnx-runner".to_string(), path: in_path },
        ]
    }

    /// Where the search for a runner stands: what to look at next, or what was found.
    pub fn discover(candidates: &[Candidate], checks: &[RunnerCheck]) -> (search: OnnxRuntimeSearch)
        ensures
            search@ == search_from(Seq::empty(), candidates@, checks@),
    {
        match search_runner(candidates, checks) {
            RunnerSearch::Check(path) => OnnxRuntimeSearch::Check(path),
            RunnerSearch::Done(discovery) => OnnxRuntimeSearch::Done(from_runner(discovery)),
        }
    }

    /// What was found, for a message.
    pub fn probe(mode: OnnxRuntimeMode, discovery: &OnnxRuntimeDiscovery) -> (result: Result<
        String,
        Failure,
    >)
        ensures
            match result {
                Ok(text) => discovery.path is Some && text@ == mode.display_text() + " runner "@
                    + path_text(discovery.path->0),
                Err(failure) => discovery.path is None && failure@ == seq![
                    missing_text(mode, discovery@.attempts),
                ],
            },
    {
        match &discovery.path {
            Some(path) => Ok(
                mode.display().to_string().concat(" runner ").concat(shown_path(path).as_str()),
            ),
            None => Err(Failure::new(OnnxRuntimeBackend::missing_message(mode, discovery))),
        }
    }

    /// What a message says when no runner is found.
    pub fn missing_message(mode: OnnxRuntimeMode, discovery: &OnnxRuntimeDiscovery) -> (message:
        String)
        ensures
            message@ == missing_text(mode, discovery@.attempts),
    {
        "No ".to_string().concat(mode.display()).concat(" runner found.\n\nTried:").concat(
            attempt_list(&discovery.attempts).as_str(),
        ).concat("\n\nFix:").concat("\n- set WERK_ONNX_RUNTIME=/path/to/werk-onnx-runner").concat(
            "\n- or install a managed ONNX Runtime runner artifact for Werk",
        )
    }

    /// Why no runner is at hand, in short.
    pub fn unavailable_reason(discovery: &OnnxRuntimeDiscovery) -> (reason: String)
        ensures
            reason@ == (if some_unusable(discovery@.attempts) {
                "runner validation failed"@
            } else {
                "runner not installed or bundled"@
            }),
    {
        let ghost all = discovery@.attempts;
        for i in 0..discovery.attempts.len()
            invariant
                all == onnx_attempts(discovery.attempts@),
                forall|j: int| 0 <= j < i ==> !((#[trigger] all[j]).exists && !all[j].usable),
        {
            proof {
                assert(all[i as int] == discovery.attempts@[i as int]@);
            }
            if discovery.attempts[i].exists && !discovery.attempts[i].usable {
                return "runner validation failed".to_string();
            }
        }
        "runner not installed or bundled".to_string()
    }

    /// What to do next to find out whether the runtime can be used. `checks` says what was found
    /// at the first of the bundled runners' places.
    pub fn availability(
        discovery: &OnnxRuntimeDiscovery,
        bundled: &[PathBuf],
        checks: &[RunnerCheck],
    ) -> (step: AvailabilityStep)
        ensures
            is_availability_step(step, discovery.path, bundled@, checks@),
    {
        if discovery.path.is_some() {
            return AvailabilityStep::Known(OnnxRuntimeAvailability::Ready);
        }
        let search = find_bundled_runner(bundled, checks);
        let ghost found = search;
        let step = match search {
            PathSearch::Check(path) => AvailabilityStep::Check(path),
            PathSearch::Done(Some(_)) => AvailabilityStep::Known(
                OnnxRuntimeAvailability::Installable,
            ),
            PathSearch::Done(None) => AvailabilityStep::Known(OnnxRuntimeAvailability::Unavailable),
        };
        proof {
            assert(is_place_step(found, bundled@, usable_checks(checks@)));
        }
        step
    }

    /// What to do next to make the runtime available for a model, where nothing may be installed
    /// and nothing is said.
    pub fn ensure_available_for_model(
        manifest: &ModelManifest,
        mode: OnnxRuntimeMode,
        answers: &EnsureAnswers,
    ) -> (step: EnsureStep)
        ensures
            is_ensure_step(
                step,
                *manifest,
                mode,
                OnnxProvisionOptions { install_missing_runtime: false, verbose: false },
                *answers,
            ),
    {
        OnnxRuntimeBackend::ensure_available_for_model_with_options(
            manifest,
            mode,
            OnnxProvisionOptions::default(),
            answers,
        )
    }

    /// What to do next to make the runtime available for a model.
    pub fn ensure_available_for_model_with_options(
        manifest: &ModelManifest,
        mode: OnnxRuntimeMode,
        options: OnnxProvisionOptions,
        answers: &EnsureAnswers,
    ) -> (step: EnsureStep)
        ensures
            is_ensure_step(step, *manifest, mode, options, *answers),
    {
        if manifest.format != ModelFormat::SafeTensors && manifest.format != ModelFormat::Onnx {
            return failing(
                Failure::new(
                    "ONNX Runtime route requires a safetensors source model or direct ONNX model".to_string(),
                ),
            );
        }
        let mut last = &answers.discovery;
        match &answers.discovery {
            None => {
                return quiet(EnsureAction::Discover);
            },
            Some(first) => {
                if first.path.is_none() && options.install_missing_runtime {
                    match &answers.installed {
                        None => {
                            return quiet(EnsureAction::Install);
                        },
                        Some(Err(reason)) => {
                            return failing(reason.copied());
                        },
                        Some(Ok(_)) => {
                            last = &answers.discovery_after;
                        },
                    }
                }
            },
        }
        match last {
            None => quiet(EnsureAction::DiscoverAgain),
            Some(discovery) => {
                if discovery.path.is_none() {
                    failing(Failure::new(OnnxRuntimeBackend::missing_message(mode, discovery)))
                } else {
                    artifact_step(manifest, mode, options, answers)
                }
            },
        }
    }

    /// The runner that was found.
    pub fn runner(&self, discovery: &OnnxRuntimeDiscovery) -> (result: Result<PathBuf, Failure>)
        ensures
            match result {
                Ok(path) => discovery.path == Some(path),
                Err(failure) => discovery.path is None && failure@ == seq![
                    missing_text(self.mode, discovery@.attempts),
                ],
            },
    {
        match &discovery.path {
            Some(path) => Ok(path.clone()),
            None => Err(Failure::new(OnnxRuntimeBackend::missing_message(self.mode, discovery))),
        }
    }

    fn running_step(
        &self,
        runner: PathBuf,
        model: PathBuf,
        request: &GenerateRequest,
        run: &Option<TimedRun>,
    ) -> (step: OnnxStep)
        ensures
            is_running_step(step, self.mode, runner, model, *request, *run),
    {
        match run {
            None => {
                let mut notes: Vec<String> = Vec::new();
                if request.verbose {
                    notes.push("Starting generation...".to_string());
                }
                if request.debug {
                    notes.push("selected backend: ".to_string().concat(self.mode.label()));
                    notes.push(
                        "ONNX Runtime runner: ".to_string().concat(shown_path(&runner).as_str()),
                    );
                    notes.push("ONNX model: ".to_string().concat(shown_path(&model).as_str()));
                }
                proof {
                    assert(views(notes@) =~= onnx_notes(self.mode, runner, model, *request));
                }
                let args = onnx_args(self.mode, &model, request);
                OnnxStep::Run { notes, program: runner, args }
            },
            Some(run) => match read_run(
                "ONNX Runtime runner",
                &runner,
                request.prompt.as_str(),
                &run.outcome,
                timings_of(run),
            ) {
                Ok(response) => OnnxStep::Done(response),
                Err(failure) => OnnxStep::Fail(failure),
            },
        }
    }

    /// What to do next in a generation with the model whose directory is `model_dir`.
    pub fn generate_inner(
        &self,
        manifest: &ModelManifest,
        request: &GenerateRequest,
        model_dir: &PathBuf,
        answers: &OnnxAnswers,
    ) -> (step: OnnxStep)
        ensures
            is_onnx_step(step, self.mode, *manifest, *request, *model_dir, *answers),
    {
        if request.image_urls.len() > 0 {
            return OnnxStep::Fail(
                Failure::new(
                    "ONNX Runtime text backend received image inputs; use a VLM-capable model/runtime".to_string(),
                ),
            );
        }
        let runner = match &answers.discovery {
            None => {
                return OnnxStep::FindRunner;
            },
            Some(discovery) => match self.runner(discovery) {
                Ok(runner) => runner,
                Err(failure) => {
                    return OnnxStep::Fail(failure);
                },
            },
        };
        let located = model_path(manifest, model_dir, &answers.locate);
        let ghost locating = located;
        let step = match located {
            LocateStep::Fail(failure) => OnnxStep::Fail(failure),
            LocateStep::Done(model) => self.running_step(runner, model, request, &answers.run),
            next => OnnxStep::Locate(next),
        };
        proof {
            assert(is_locate_step(locating, *manifest, *model_dir, answers.locate));
            assert(follows_locating(step, locating, self.mode, runner, *request, answers.run));
        }
        step
    }
}

/// A runner is installed only where none was found and the caller permits it.
pub proof fn law_nothing_is_installed_unasked(
    step: EnsureStep,
    manifest: ModelManifest,
    mode: OnnxRuntimeMode,
    options: OnnxProvisionOptions,
    answers: EnsureAnswers,
)
    requires
        is_ensure_step(step, manifest, mode, options, answers),
        step.action is Install,
    ensures
        options.install_missing_runtime,
        answers.discovery is Some,
        answers.discovery->0.path is None,
{
}

/// The runtime is declared ready only where a runner was found, and where the model is an ONNX
/// model or its ONNX file is ready or was built.
pub proof fn law_ready_needs_runner_and_model(
    step: EnsureStep,
    manifest: ModelManifest,
    mode: OnnxRuntimeMode,
    options: OnnxProvisionOptions,
    answers: EnsureAnswers,
)
    requires
        is_ensure_step(step, manifest, mode, options, answers),
        step.action is Done,
    ensures
        last_discovery(options, answers) is Some,
        last_discovery(options, answers)->0.path is Some,
        manifest.format == ModelFormat::Onnx || answers.artifact_ready == Some(true) || (
        answers.built is Some && answers.built->0 is Ok),
{
}

/// Nothing is printed unless more is to be said.
pub proof fn law_quiet_unless_verbose(
    step: EnsureStep,
    manifest: ModelManifest,
    mode: OnnxRuntimeMode,
    options: OnnxProvisionOptions,
    answers: EnsureAnswers,
)
    requires
        is_ensure_step(step, manifest, mode, options, answers),
        !options.verbose,
    ensures
        step.notes@.len() == 0,
{
    assert(views(step.notes@).len() == step.notes@.len());
}

/// The runner is told the model, the prompt, the limit on tokens, what to compute on, and to reply
/// in JSON.
pub proof fn law_runner_is_told_the_request(
    mode: OnnxRuntimeMode,
    model: PathBuf,
    request: GenerateRequest,
)
    ensures
        ({
            let args = onnx_arguments(mode, model, request);
            &&& args.len() == 9
            &&& args[0] == Argument::Text("--model"@) && args[1] == Argument::File(model)
            &&& args[2] == Argument::Text("--prompt"@) && args[3] == Argument::Text(request.prompt@)
            &&& args[4] == Argument::Text("--max-tokens"@) && args[5] == Argument::Text(
                decimal(request.max_tokens as nat),
            )
            &&& args[6] == Argument::Text("--backend"@)
            &&& mode == OnnxRuntimeMode::Cuda ==> args[7] == Argument::Text("cuda"@)
            &&& mode == OnnxRuntimeMode::Rocm ==> args[7] == Argument::Text("rocm"@)
            &&& mode == OnnxRuntimeMode::Cpu ==> args[7] == Argument::Text("cpu"@)
            &&& args[8] == Argument::Text("--json"@)
        }),
{
}

/// The model that is run is the file of an ONNX model, or the ONNX file that is ready or was built
/// for another one. What is not ready, or is of another kind, is not run.
pub proof fn law_located_model_is_ready(
    step: LocateStep,
    manifest: ModelManifest,
    model_dir: PathBuf,
    answers: LocateAnswers,
)
    requires
        is_locate_step(step, manifest, model_dir, answers),
    ensures
        step matches LocateStep::Done(path) ==> if manifest.format == ModelFormat::Onnx {
            manifest.model_path is Some && answers.model_file == Some(path)
        } else {
            let ready = answers.ready_artifact;
            let artifact = if ready is Some && ready->0 is Some {
                ready->0->0
            } else {
                answers.built_artifact->0->Ok_0
            };
            &&& manifest.format == ModelFormat::SafeTensors
            &&& ready is Some
            &&& ready->0 is None ==> answers.built_artifact is Some && answers.built_artifact->0 is Ok
            &&& artifact.status == ArtifactStatus::Ready
            &&& artifact.kind == ArtifactKind::Onnx
            &&& is_joined(path, model_dir, artifact.path@)
        },
        step is BuildArtifact ==> manifest.format == ModelFormat::SafeTensors
            && answers.ready_artifact is Some && answers.ready_artifact->0 is None
            && answers.built_artifact is None,
        step is AskArtifact ==> answers.ready_artifact is None,
        manifest.format != ModelFormat::Onnx && manifest.format != ModelFormat::SafeTensors
            ==> step is Fail,
{
}

/// A generation runs the runner that was found, and gives what its run gives; with images it gives
/// nothing.
pub proof fn law_generation_runs_what_was_found(
    step: OnnxStep,
    mode: OnnxRuntimeMode,
    manifest: ModelManifest,
    request: GenerateRequest,
    model_dir: PathBuf,
    answers: OnnxAnswers,
)
    requires
        is_onnx_step(step, mode, manifest, request, model_dir, answers),
    ensures
        request.image_urls@.len() > 0 ==> step is Fail,
        step matches OnnxStep::Run { notes, program, args } ==> answers.discovery is Some
            && answers.discovery->0.path == Some(program) && answers.run is None,
        step matches OnnxStep::Done(response) ==> answers.run is Some && run_response(
            "ONNX Runtime runner"@,
            answers.discovery->0.path->0,
            request.prompt@,
            answers.run->0.outcome,
            run_timings(answers.run->0),
        ) == Ok::<Response, Seq<Seq<char>>>(response@),
        answers.discovery is Some && answers.discovery->0.path is None ==> step is Fail,
{
}

/// A bundled runner is put in place with each step only after the one before it, is copied only
/// from a place that is another, and is taken only where it can be used there.
pub proof fn law_placed_runner_works(
    step: InstallStep,
    source: PathBuf,
    dest: PathBuf,
    answers: InstallAnswers,
)
    requires
        is_placing_step(step, source, dest, answers),
    ensures
        step matches InstallStep::Done(path) ==> path == dest && answers.installed_check is Some
            && is_usable(answers.installed_check->0) && answers.made_executable is Some
            && answers.made_executable->0 is Ok && answers.directory_made is Some
            && answers.directory_made->0 is Ok && (path_parts(source) != path_parts(dest)
            ==> answers.copied is Some && answers.copied->0 is Ok),
        step matches InstallStep::Copy { source: from, dest: to } ==> from == source && to == dest
            && path_parts(source) != path_parts(dest) && answers.copied is None,
        step matches InstallStep::MakeDirectory(dir) ==> is_parent(dir, dest),
        step matches InstallStep::MakeExecutable(path) ==> path == dest,
        step matches InstallStep::CheckInstalled(path) ==> path == dest,
{
}

/// Of the places of a runner the one that is set for the mode comes first, after it the one that
/// is set for every mode, the managed one of the mode, and the one in the search path.
pub proof fn law_places_of_runners_stand_in_order(
    candidates: Seq<Candidate>,
    store: ModelStore,
    mode: OnnxRuntimeMode,
    set_for_mode: Option<PathBuf>,
    set_for_all: Option<PathBuf>,
    in_path: Option<PathBuf>,
    windows: bool,
)
    requires
        are_onnx_candidates(
            candidates,
            store,
            mode,
            set_for_mode,
            set_for_all,
            in_path,
            windows,
        ),
    ensures
        candidates.len() == 4,
        candidates[0].path == set_for_mode,
        candidates[1].path == set_for_all,
        candidates[2].path is Some && is_below(
            candidates[2].path->0,
            store.home,
            seq![
                "backends"@,
                match mode {
                    OnnxRuntimeMode::Cuda => "onnxruntime-cuda"@,
                    OnnxRuntimeMode::Rocm => "onnxruntime-rocm"@,
                    OnnxRuntimeMode::Cpu => "onnxruntime-cpu"@,
                },
                if windows {
                    "werk-onnx-runner.exe"@
                } else {
                    "werk-onnx-runner"@
                },
            ],
        ),
        candidates[3].path == in_path,
{
    assert(managed_runner_names(mode, windows) =~= seq![
        "backends"@,
        match mode {
            OnnxRuntimeMode::Cuda => "onnxruntime-cuda"@,
            OnnxRuntimeMode::Rocm => "onnxruntime-rocm"@,
            OnnxRuntimeMode::Cpu => "onnxruntime-cpu"@,
        },
        if windows {
            "werk-onnx-runner.exe"@
        } else {
            "werk-onnx-runner"@
        },
    ]);
}

} // verus!
