//! The search for a vLLM server.

use super::command::{
    answers, executable_supports_vllm, python_vllm_status, remote_supports_vllm, vllm_status,
    PythonCheck, Server, VllmCommand,
};
use super::platform::{
    local_rejection, local_vllm_platform_rejection, text_of_option, VllmPlatform,
};
use crate::backend::runner::{attempt_lines, shown_attempt, Attempt};
use crate::http::url::{http_url, server_url};
use crate::model::ModelStore;
use crate::paths::{
    entry_path, is_below, is_plain_name, lemma_below_below, lemma_plain_backends, lemma_plain_name,
    path_text, shown_path,
};
use crate::process::{succeeded, CommandOutcome};
use crate::text::chars::same_text;
use crate::text::number::{lemma_parsed_number_in_range, parse_u16, parsed_number, port_error};
use std::path::PathBuf;
use vstd::prelude::*;

verus! {

/// What the search for a vLLM server has found.
#[derive(Debug, Clone)]
pub struct VllmDiscovery {
    pub command: Option<VllmCommand>,
    pub source: String,
    pub attempts: Vec<VllmDiscoveryAttempt>,
}

/// An attempt to find a vLLM server.
#[derive(Debug, Clone)]
pub struct VllmDiscoveryAttempt {
    pub label: String,
    pub path: Option<PathBuf>,
    pub exists: bool,
    pub usable: bool,
    pub detail: String,
}

impl View for VllmDiscoveryAttempt {
    type V = Attempt;

    open spec fn view(&self) -> Attempt {
        Attempt {
            label: self.label@,
            path: self.path,
            exists: self.exists,
            usable: self.usable,
            detail: self.detail@,
        }
    }
}

/// The models of a list of attempts.
pub open spec fn vllm_attempts(attempts: Seq<VllmDiscoveryAttempt>) -> Seq<Attempt> {
    attempts.map_values(|attempt: VllmDiscoveryAttempt| attempt@)
}

/// The mathematical model of a [`VllmDiscovery`].
#[verifier::ext_equal]
pub struct Found {
    pub server: Option<Server>,
    pub source: Seq<char>,
    pub attempts: Seq<Attempt>,
}

/// The model of an optional command.
pub open spec fn server_option(command: Option<VllmCommand>) -> Option<Server> {
    match command {
        Some(command) => Some(command@),
        None => None,
    }
}

impl View for VllmDiscovery {
    type V = Found;

    open spec fn view(&self) -> Found {
        Found {
            server: server_option(self.command),
            source: self.source@,
            attempts: vllm_attempts(self.attempts@),
        }
    }
}

/// The file name of vLLM's program.
pub open spec fn executable_file(windows: bool) -> Seq<char> {
    if windows {
        "vllm.exe"@
    } else {
        "vllm"@
    }
}

/// The file name of vLLM's program.
pub fn vllm_executable_name(windows: bool) -> (name: &'static str)
    ensures
        name@ == executable_file(windows),
        is_plain_name(name@),
{
    proof {
        reveal_strlit("vllm.exe");
        lemma_plain_name("vllm.exe"@);
        reveal_strlit("vllm");
        lemma_plain_name("vllm"@);
    }
    if windows {
        "vllm.exe"
    } else {
        "vllm"
    }
}

/// The names that lead from the store to the managed vLLM.
pub open spec fn managed_dir_names() -> Seq<Seq<char>> {
    seq!["backends"@, "vllm"@]
}

/// The directory of the managed vLLM.
pub fn managed_vllm_dir(store: &ModelStore) -> (dir: PathBuf)
    ensures
        is_below(dir, store.home, managed_dir_names()),
{
    proof {
        lemma_plain_backends();
        reveal_strlit("vllm");
        lemma_plain_name("vllm"@);
    }
    let backends = entry_path(&store.home, "backends");
    let dir = entry_path(&backends, "vllm");
    proof {
        lemma_below_below(dir, backends, store.home, seq!["backends"@], seq!["vllm"@]);
        assert(seq!["backends"@] + seq!["vllm"@] =~= managed_dir_names());
    }
    dir
}

/// The directory of the managed virtual environment.
pub fn managed_venv(store: &ModelStore) -> (dir: PathBuf)
    ensures
        is_below(dir, store.home, managed_dir_names() + seq!["venv"@]),
{
    proof {
        reveal_strlit("venv");
        lemma_plain_name("venv"@);
    }
    let managed = managed_vllm_dir(store);
    let dir = entry_path(&managed, "venv");
    proof {
        lemma_below_below(dir, managed, store.home, managed_dir_names(), seq!["venv"@]);
    }
    dir
}

/// The names that lead from a virtual environment to its Python.
pub open spec fn venv_python_names(windows: bool) -> Seq<Seq<char>> {
    if windows {
        seq!["Scripts"@, "python.exe"@]
    } else {
        seq!["bin"@, "python"@]
    }
}

/// The names that lead from the store to the managed Python.
pub open spec fn managed_python_names(windows: bool) -> Seq<Seq<char>> {
    managed_dir_names() + seq!["venv"@] + venv_python_names(windows)
}

/// The path of the managed Python.
pub fn managed_vllm_python(store: &ModelStore, windows: bool) -> (path: PathBuf)
    ensures
        is_below(path, store.home, managed_python_names(windows)),
{
    let venv = managed_venv(store);
    let (dir_name, file_name) = if windows {
        ("Scripts", "python.exe")
    } else {
        ("bin", "python")
    };
    proof {
        reveal_strlit("Scripts");
        lemma_plain_name("Scripts"@);
        reveal_strlit("python.exe");
        lemma_plain_name("python.exe"@);
        reveal_strlit("bin");
        lemma_plain_name("bin"@);
        reveal_strlit("python");
        lemma_plain_name("python"@);
    }
    let dir = entry_path(&venv, dir_name);
    let path = entry_path(&dir, file_name);
    proof {
        let upper = managed_dir_names() + seq!["venv"@];
        lemma_below_below(path, dir, venv, seq![dir_name@], seq![file_name@]);
        assert(seq![dir_name@] + seq![file_name@] =~= venv_python_names(windows));
        lemma_below_below(path, venv, store.home, upper, venv_python_names(windows));
    }
    path
}

/// What the environment says of vLLM, and where the managed Python would be.
#[derive(Debug, Clone)]
pub struct VllmSettings {
    /// The value of `WERK_VLLM_HOST`.
    pub host: Option<String>,
    /// The value of `WERK_VLLM_PORT`.
    pub port: Option<String>,
    /// The value of `WERK_VLLM_PYTHON`.
    pub python: Option<PathBuf>,
    pub managed_python: PathBuf,
    pub windows: bool,
}

impl VllmSettings {
    /// The settings for a store.
    pub fn new(
        store: &ModelStore,
        host: Option<String>,
        port: Option<String>,
        python: Option<PathBuf>,
        windows: bool,
    ) -> (settings: VllmSettings)
        ensures
            settings.host == host,
            settings.port == port,
            settings.python == python,
            is_below(settings.managed_python, store.home, managed_python_names(windows)),
            settings.windows == windows,
    {
        let managed_python = managed_vllm_python(store, windows);
        VllmSettings { host, port, python, managed_python, windows }
    }
}

/// What has come of the search so far: each answer once its question was asked.
#[derive(Debug, Clone)]
pub struct VllmAnswers {
    /// The status with which the remote server answers a question for its models.
    pub models_status: Option<Option<u16>>,
    /// The status with which the remote server answers a question for its health.
    pub health_status: Option<Option<u16>>,
    pub set_python: Option<PythonCheck>,
    pub managed_python: Option<PythonCheck>,
    /// The program in the search path.
    pub executable: Option<Option<PathBuf>>,
    /// What came of asking that program for help.
    pub executable_help: Option<CommandOutcome>,
    /// `python3` in the search path.
    pub python3: Option<Option<PathBuf>>,
    pub python3_check: Option<PythonCheck>,
    /// `python` in the search path.
    pub python: Option<Option<PathBuf>>,
    pub python_check: Option<PythonCheck>,
}

/// A question whose answer the search needs next.
pub enum VllmQuestion {
    /// Ask the server at the address for its models.
    GetModels(String),
    /// Ask the server at the address for its health.
    GetHealth(String),
    CheckSetPython(PathBuf),
    CheckManagedPython(PathBuf),
    FindExecutable(String),
    RunExecutableHelp(PathBuf),
    FindPython3,
    CheckPython3(PathBuf),
    FindPython,
    CheckPython(PathBuf),
}

/// Where the search stands.
pub enum VllmSearch {
    Ask(VllmQuestion),
    Done(VllmDiscovery),
}

/// The mathematical model of a [`VllmQuestion`].
pub enum Question {
    GetModels(Seq<char>),
    GetHealth(Seq<char>),
    CheckSetPython(PathBuf),
    CheckManagedPython(PathBuf),
    FindExecutable(Seq<char>),
    RunExecutableHelp(PathBuf),
    FindPython3,
    CheckPython3(PathBuf),
    FindPython,
    CheckPython(PathBuf),
}

impl View for VllmQuestion {
    type V = Question;

    open spec fn view(&self) -> Question {
        match self {
            VllmQuestion::GetModels(url) => Question::GetModels(url@),
            VllmQuestion::GetHealth(url) => Question::GetHealth(url@),
            VllmQuestion::CheckSetPython(path) => Question::CheckSetPython(*path),
            VllmQuestion::CheckManagedPython(path) => Question::CheckManagedPython(*path),
            VllmQuestion::FindExecutable(name) => Question::FindExecutable(name@),
            VllmQuestion::RunExecutableHelp(path) => Question::RunExecutableHelp(*path),
            VllmQuestion::FindPython3 => Question::FindPython3,
            VllmQuestion::CheckPython3(path) => Question::CheckPython3(*path),
            VllmQuestion::FindPython => Question::FindPython,
            VllmQuestion::CheckPython(path) => Question::CheckPython(*path),
        }
    }
}

/// Where a search stands after one of its stages: a question is open, a server is found, or the
/// next stage follows with the attempts so far.
pub enum Stage {
    Ask(Question),
    Stop(Found),
    Next(Seq<Attempt>),
}

enum SearchStage {
    Ask(VllmQuestion),
    Stop(VllmDiscovery),
    Next(Vec<VllmDiscoveryAttempt>),
}

impl View for SearchStage {
    type V = Stage;

    closed spec fn view(&self) -> Stage {
        match self {
            SearchStage::Ask(question) => Stage::Ask(question@),
            SearchStage::Stop(discovery) => Stage::Stop(discovery@),
            SearchStage::Next(attempts) => Stage::Next(vllm_attempts(attempts@)),
        }
    }
}

/// The attempt at a remote server.
pub open spec fn remote_attempt(host: Seq<char>, port: u16, usable: bool) -> Attempt {
    Attempt {
        label: "WERK_VLLM_HOST/WERK_VLLM_PORT"@,
        path: None,
        exists: usable,
        usable,
        detail: if usable {
            "remote vLLM server reachable at "@ + server_url(host, port)
        } else {
            "remote vLLM server is not reachable at "@ + server_url(host, port)
        },
    }
}

/// The attempt at a remote server on a port that is none.
pub open spec fn bad_port_attempt(port: Seq<char>) -> Attempt {
    Attempt {
        label: "WERK_VLLM_PORT"@,
        path: None,
        exists: true,
        usable: false,
        detail: "invalid port: "@ + port_error(port),
    }
}

/// The stage that tries the remote server on a host and a port. Its health is asked only where
/// the question for its models does not show that it answers.
pub open spec fn remote_stage_at(host: Seq<char>, port: u16, asked: VllmAnswers) -> Stage {
    match asked.models_status {
        None => Stage::Ask(Question::GetModels(server_url(host, port))),
        Some(models) => if models != Some(200u16) && asked.health_status is None {
            Stage::Ask(Question::GetHealth(server_url(host, port)))
        } else {
            let usable = answers(
                models,
                match asked.health_status {
                    Some(health) => health,
                    None => None,
                },
            );
            let attempts = seq![remote_attempt(host, port, usable)];
            if usable {
                Stage::Stop(
                    Found {
                        server: Some(Server::Remote(host, port)),
                        source: "env WERK_VLLM_HOST/WERK_VLLM_PORT"@,
                        attempts,
                    },
                )
            } else {
                Stage::Next(attempts)
            }
        },
    }
}

/// The stage that tries the remote server that is set.
pub open spec fn remote_stage(settings: VllmSettings, asked: VllmAnswers) -> Stage {
    if settings.host is Some && settings.port is Some {
        let port = settings.port->0@;
        match parsed_number(port, 10, u16::MAX as int) {
            Some(number) => remote_stage_at(settings.host->0@, number as u16, asked),
            None => Stage::Next(seq![bad_port_attempt(port)]),
        }
    } else {
        Stage::Next(Seq::empty())
    }
}

/// The attempt at a Python.
pub open spec fn python_attempt(
    label: Seq<char>,
    path: PathBuf,
    exists: bool,
    check: PythonCheck,
) -> Attempt {
    Attempt {
        label,
        path: Some(path),
        exists,
        usable: vllm_status(check).0,
        detail: vllm_status(check).1,
    }
}

/// The stage that tries a Python; `exists` says whether its file is there.
pub open spec fn python_stage(
    attempts: Seq<Attempt>,
    label: Seq<char>,
    source: Seq<char>,
    path: PathBuf,
    exists: bool,
    check: PythonCheck,
) -> Stage {
    let all = attempts.push(python_attempt(label, path, exists, check));
    if vllm_status(check).0 {
        Stage::Stop(Found { server: Some(Server::Python(path)), source, attempts: all })
    } else {
        Stage::Next(all)
    }
}

/// The stage that tries the Python that is set.
pub open spec fn set_python_stage(
    attempts: Seq<Attempt>,
    settings: VllmSettings,
    asked: VllmAnswers,
) -> Stage {
    match settings.python {
        None => Stage::Next(attempts),
        Some(path) => match asked.set_python {
            None => Stage::Ask(Question::CheckSetPython(path)),
            Some(check) => python_stage(
                attempts,
                "WERK_VLLM_PYTHON"@,
                "env WERK_VLLM_PYTHON"@,
                path,
                check is Ran,
                check,
            ),
        },
    }
}

/// The stage that tries the managed Python.
pub open spec fn managed_python_stage(
    attempts: Seq<Attempt>,
    settings: VllmSettings,
    asked: VllmAnswers,
) -> Stage {
    match asked.managed_python {
        None => Stage::Ask(Question::CheckManagedPython(settings.managed_python)),
        Some(check) => python_stage(
            attempts,
            "managed venv"@,
            "managed venv"@,
            settings.managed_python,
            check is Ran,
            check,
        ),
    }
}

/// The attempt at the program in the search path.
pub open spec fn executable_attempt(windows: bool, path: Option<PathBuf>, usable: bool) -> Attempt {
    Attempt {
        label: "PATH: "@ + executable_file(windows),
        path,
        exists: path is Some,
        usable,
        detail: if path is None {
            "not found"@
        } else if usable {
            "vLLM executable ok"@
        } else {
            "vLLM executable did not run"@
        },
    }
}

/// The stage that tries the program in the search path.
pub open spec fn executable_stage(
    attempts: Seq<Attempt>,
    settings: VllmSettings,
    asked: VllmAnswers,
) -> Stage {
    let windows = settings.windows;
    match asked.executable {
        None => Stage::Ask(Question::FindExecutable(executable_file(windows))),
        Some(None) => Stage::Next(attempts.push(executable_attempt(windows, None, false))),
        Some(Some(path)) => match asked.executable_help {
            None => Stage::Ask(Question::RunExecutableHelp(path)),
            Some(help) => {
                let all = attempts.push(executable_attempt(windows, Some(path), succeeded(help)));
                if succeeded(help) {
                    Stage::Stop(
                        Found {
                            server: Some(Server::Executable(path)),
                            source: "PATH"@,
                            attempts: all,
                        },
                    )
                } else {
                    Stage::Next(all)
                }
            },
        },
    }
}

/// The stage that tries a Python in the search path. `find` and `check` are its questions.
pub open spec fn path_python_stage(
    attempts: Seq<Attempt>,
    name: Seq<char>,
    found: Option<Option<PathBuf>>,
    checked: Option<PythonCheck>,
    find: Question,
    check: spec_fn(PathBuf) -> Question,
) -> Stage {
    match found {
        None => Stage::Ask(find),
        Some(None) => Stage::Next(attempts),
        Some(Some(path)) => match checked {
            None => Stage::Ask(check(path)),
            Some(result) => python_stage(
                attempts,
                "PATH: "@ + name,
                "PATH "@ + name,
                path,
                true,
                result,
            ),
        },
    }
}

/// The stage that tries `python3` in the search path.
pub open spec fn python3_stage(attempts: Seq<Attempt>, asked: VllmAnswers) -> Stage {
    path_python_stage(
        attempts,
        "python3"@,
        asked.python3,
        asked.python3_check,
        Question::FindPython3,
        |path: PathBuf| Question::CheckPython3(path),
    )
}

/// The stage that tries `python` in the search path.
pub open spec fn plain_python_stage(attempts: Seq<Attempt>, asked: VllmAnswers) -> Stage {
    path_python_stage(
        attempts,
        "python"@,
        asked.python,
        asked.python_check,
        Question::FindPython,
        |path: PathBuf| Question::CheckPython(path),
    )
}

/// Where the search stands: the remote server that is set is tried first, after it the Python
/// that is set, the managed Python, the program in the search path, and at last `python3` and
/// `python` in the search path.
pub open spec fn search_stage(settings: VllmSettings, asked: VllmAnswers) -> Stage {
    match remote_stage(settings, asked) {
        Stage::Next(attempts) => match set_python_stage(attempts, settings, asked) {
            Stage::Next(attempts) => match managed_python_stage(attempts, settings, asked) {
                Stage::Next(attempts) => match executable_stage(attempts, settings, asked) {
                    Stage::Next(attempts) => match python3_stage(attempts, asked) {
                        Stage::Next(attempts) => plain_python_stage(attempts, asked),
                        stage => stage,
                    },
                    stage => stage,
                },
                stage => stage,
            },
            stage => stage,
        },
        stage => stage,
    }
}

/// What the search has found when no stage is left.
pub open spec fn nothing_found(attempts: Seq<Attempt>) -> Found {
    Found { server: None, source: "missing"@, attempts }
}

/// Whether a search stands where its stages lead.
pub open spec fn is_vllm_search(
    search: VllmSearch,
    settings: VllmSettings,
    asked: VllmAnswers,
) -> bool {
    match search_stage(settings, asked) {
        Stage::Ask(question) => search matches VllmSearch::Ask(next) && next@ == question,
        Stage::Stop(found) => search matches VllmSearch::Done(discovery) && discovery@ == found,
        Stage::Next(attempts) => search matches VllmSearch::Done(discovery) && discovery@
            == nothing_found(attempts),
    }
}

fn push_attempt(
    attempts: &mut Vec<VllmDiscoveryAttempt>,
    label: String,
    path: Option<PathBuf>,
    exists: bool,
    usable: bool,
    detail: String,
)
    ensures
        vllm_attempts(final(attempts)@) == vllm_attempts(old(attempts)@).push(
            Attempt { label: label@, path, exists, usable, detail: detail@ },
        ),
{
    let ghost before = vllm_attempts(attempts@);
    attempts.push(VllmDiscoveryAttempt { label, path, exists, usable, detail });
    proof {
        assert(vllm_attempts(attempts@) =~= before.push(
            Attempt { label: label@, path, exists, usable, detail: detail@ },
        ));
    }
}

fn try_remote(settings: &VllmSettings, asked: &VllmAnswers) -> (stage: SearchStage)
    ensures
        stage@ == remote_stage(*settings, *asked),
{
    let mut attempts: Vec<VllmDiscoveryAttempt> = Vec::new();
    proof {
        assert(vllm_attempts(attempts@) =~= Seq::empty());
    }
    let (host, port_text) = match (&settings.host, &settings.port) {
        (Some(host), Some(port)) => (host, port),
        _ => {
            return SearchStage::Next(attempts);
        },
    };
    let port = match parse_u16(port_text.as_str()) {
        Ok(port) => port,
        Err(reason) => {
            push_attempt(
                &mut attempts,
                "WERK_VLLM_PORT".to_string(),
                None,
                true,
                false,
                "invalid port: ".to_string().concat(reason.as_str()),
            );
            proof {
                assert(vllm_attempts(attempts@) =~= seq![bad_port_attempt(port_text@)]);
            }
            return SearchStage::Next(attempts);
        },
    };
    let url = http_url(host.as_str(), port);
    let models = match asked.models_status {
        None => {
            return SearchStage::Ask(VllmQuestion::GetModels(url));
        },
        Some(models) => models,
    };
    let usable = match asked.health_status {
        Some(health) => remote_supports_vllm(models, health),
        None => {
            if !remote_supports_vllm(models, None) {
                return SearchStage::Ask(VllmQuestion::GetHealth(url));
            }
            true
        },
    };
    let detail = if usable {
        "remote vLLM server reachable at ".to_string().concat(url.as_str())
    } else {
        "remote vLLM server is not reachable at ".to_string().concat(url.as_str())
    };
    push_attempt(
        &mut attempts,
        "WERK_VLLM_HOST/WERK_VLLM_PORT".to_string(),
        None,
        usable,
        usable,
        detail,
    );
    proof {
        assert(vllm_attempts(attempts@) =~= seq![remote_attempt(host@, port, usable)]);
    }
    if usable {
        SearchStage::Stop(
            VllmDiscovery {
                command: Some(VllmCommand::Remote { host: host.clone(), port }),
                source: "env WERK_VLLM_HOST/WERK_VLLM_PORT".to_string(),
                attempts,
            },
        )
    } else {
        SearchStage::Next(attempts)
    }
}

fn try_python(
    attempts: Vec<VllmDiscoveryAttempt>,
    label: String,
    source: String,
    path: &PathBuf,
    exists: bool,
    check: &PythonCheck,
) -> (stage: SearchStage)
    ensures
        stage@ == python_stage(
            vllm_attempts(attempts@),
            label@,
            source@,
            *path,
            exists,
            *check,
        ),
{
    let mut attempts = attempts;
    let (usable, detail) = python_vllm_status(check);
    push_attempt(&mut attempts, label, Some(path.clone()), exists, usable, detail);
    if usable {
        SearchStage::Stop(
            VllmDiscovery { command: Some(VllmCommand::Python(path.clone())), source, attempts },
        )
    } else {
        SearchStage::Next(attempts)
    }
}

fn has_file(check: &PythonCheck) -> (r: bool)
    ensures
        r == (*check is Ran),
{
    match check {
        PythonCheck::Missing => false,
        PythonCheck::Ran(_) => true,
    }
}

fn try_set_python(
    attempts: Vec<VllmDiscoveryAttempt>,
    settings: &VllmSettings,
    asked: &VllmAnswers,
) -> (stage: SearchStage)
    ensures
        stage@ == set_python_stage(vllm_attempts(attempts@), *settings, *asked),
{
    match &settings.python {
        None => SearchStage::Next(attempts),
        Some(path) => match &asked.set_python {
            None => SearchStage::Ask(VllmQuestion::CheckSetPython(path.clone())),
            Some(check) => try_python(
                attempts,
                "WERK_VLLM_PYTHON".to_string(),
                "env WERK_VLLM_PYTHON".to_string(),
                path,
                has_file(check),
                check,
            ),
        },
    }
}

fn try_managed_python(
    attempts: Vec<VllmDiscoveryAttempt>,
    settings: &VllmSettings,
    asked: &VllmAnswers,
) -> (stage: SearchStage)
    ensures
        stage@ == managed_python_stage(vllm_attempts(attempts@), *settings, *asked),
{
    match &asked.managed_python {
        None => SearchStage::Ask(
            VllmQuestion::CheckManagedPython(settings.managed_python.clone()),
        ),
        Some(check) => try_python(
            attempts,
            "managed venv".to_string(),
            "managed venv".to_string(),
            &settings.managed_python,
            has_file(check),
            check,
        ),
    }
}

fn try_executable(
    attempts: Vec<VllmDiscoveryAttempt>,
    settings: &VllmSettings,
    asked: &VllmAnswers,
) -> (stage: SearchStage)
    ensures
        stage@ == executable_stage(vllm_attempts(attempts@), *settings, *asked),
{
    let mut attempts = attempts;
    let name = vllm_executable_name(settings.windows);
    let label = "PATH: ".to_string().concat(name);
    match &asked.executable {
        None => SearchStage::Ask(VllmQuestion::FindExecutable(name.to_string())),
        Some(None) => {
            push_attempt(&mut attempts, label, None, false, false, "not found".to_string());
            SearchStage::Next(attempts)
        },
        Some(Some(path)) => match &asked.executable_help {
            None => SearchStage::Ask(VllmQuestion::RunExecutableHelp(path.clone())),
            Some(help) => {
                let usable = executable_supports_vllm(help);
                let detail = if usable {
                    "vLLM executable ok".to_string()
                } else {
                    "vLLM executable did not run".to_string()
                };
                push_attempt(&mut attempts, label, Some(path.clone()), true, usable, detail);
                if usable {
                    SearchStage::Stop(
                        VllmDiscovery {
                            command: Some(VllmCommand::Executable(path.clone())),
                            source: "PATH".to_string(),
                            attempts,
                        },
                    )
                } else {
                    SearchStage::Next(attempts)
                }
            },
        },
    }
}

fn try_python3(attempts: Vec<VllmDiscoveryAttempt>, asked: &VllmAnswers) -> (stage: SearchStage)
    ensures
        stage@ == python3_stage(vllm_attempts(attempts@), *asked),
{
    match &asked.python3 {
        None => SearchStage::Ask(VllmQuestion::FindPython3),
        Some(None) => SearchStage::Next(attempts),
        Some(Some(path)) => match &asked.python3_check {
            None => SearchStage::Ask(VllmQuestion::CheckPython3(path.clone())),
            Some(check) => try_python(
                attempts,
                "PATH: ".to_string().concat("python3"),
                "PATH ".to_string().concat("python3"),
                path,
                true,
                check,
            ),
        },
    }
}

fn try_plain_python(attempts: Vec<VllmDiscoveryAttempt>, asked: &VllmAnswers) -> (stage:
    SearchStage)
    ensures
        stage@ == plain_python_stage(vllm_attempts(attempts@), *asked),
{
    match &asked.python {
        None => SearchStage::Ask(VllmQuestion::FindPython),
        Some(None) => SearchStage::Next(attempts),
        Some(Some(path)) => match &asked.python_check {
            None => SearchStage::Ask(VllmQuestion::CheckPython(path.clone())),
            Some(check) => try_python(
                attempts,
                "PATH: ".to_string().concat("python"),
                "PATH ".to_string().concat("python"),
                path,
                true,
                check,
            ),
        },
    }
}

fn search_to_end(settings: &VllmSettings, asked: &VllmAnswers) -> (stage: SearchStage)
    ensures
        stage@ == search_stage(*settings, *asked),
{
    let stage = try_remote(settings, asked);
    let stage = match stage {
        SearchStage::Next(attempts) => try_set_python(attempts, settings, asked),
        stage => {
            return stage;
        },
    };
    let stage = match stage {
        SearchStage::Next(attempts) => try_managed_python(attempts, settings, asked),
        stage => {
            return stage;
        },
    };
    let stage = match stage {
        SearchStage::Next(attempts) => try_executable(attempts, settings, asked),
        stage => {
            return stage;
        },
    };
    let stage = match stage {
        SearchStage::Next(attempts) => try_python3(attempts, asked),
        stage => {
            return stage;
        },
    };
    match stage {
        SearchStage::Next(attempts) => try_plain_python(attempts, asked),
        stage => stage,
    }
}

/// Where the search for a vLLM server stands: the question to ask next, or what was found.
pub fn discover_vllm(settings: &VllmSettings, asked: &VllmAnswers) -> (search: VllmSearch)
    ensures
        is_vllm_search(search, *settings, *asked),
{
    match search_to_end(settings, asked) {
        SearchStage::Ask(question) => VllmSearch::Ask(question),
        SearchStage::Stop(discovery) => VllmSearch::Done(discovery),
        SearchStage::Next(attempts) => VllmSearch::Done(
            VllmDiscovery { command: None, source: "missing".to_string(), attempts },
        ),
    }
}

/// Whether no attempt found something usable.
pub open spec fn none_usable(attempts: Seq<Attempt>) -> bool {
    forall|i: int| 0 <= i < attempts.len() ==> !(#[trigger] attempts[i]).usable
}

/// Whether the last attempt, and no other, found something usable.
pub open spec fn only_last_usable(attempts: Seq<Attempt>) -> bool {
    attempts.len() > 0 && attempts.last().usable && none_usable(attempts.drop_last())
}

/// Whether a stage has found a server with its last attempt, or has found nothing usable.
spec fn stage_fits(stage: Stage) -> bool {
    match stage {
        Stage::Ask(_) => true,
        Stage::Stop(found) => found.server is Some && only_last_usable(found.attempts),
        Stage::Next(attempts) => none_usable(attempts),
    }
}

proof fn lemma_python_stage_fits(
    attempts: Seq<Attempt>,
    label: Seq<char>,
    source: Seq<char>,
    path: PathBuf,
    exists: bool,
    check: PythonCheck,
)
    requires
        none_usable(attempts),
    ensures
        stage_fits(python_stage(attempts, label, source, path, exists, check)),
{
    let all = attempts.push(python_attempt(label, path, exists, check));
    assert(all.drop_last() =~= attempts);
}

proof fn lemma_executable_stage_fits(
    attempts: Seq<Attempt>,
    settings: VllmSettings,
    asked: VllmAnswers,
)
    requires
        none_usable(attempts),
    ensures
        stage_fits(executable_stage(attempts, settings, asked)),
{
    if asked.executable is Some && asked.executable->0 is Some && asked.executable_help is Some {
        let all = attempts.push(
            executable_attempt(
                settings.windows,
                asked.executable->0,
                succeeded(asked.executable_help->0),
            ),
        );
        assert(all.drop_last() =~= attempts);
    }
}

proof fn lemma_remote_stage_fits(settings: VllmSettings, asked: VllmAnswers)
    ensures
        stage_fits(remote_stage(settings, asked)),
{
    match remote_stage(settings, asked) {
        Stage::Stop(found) => {
            assert(found.attempts.drop_last() =~= Seq::empty());
        },
        _ => {},
    }
}

proof fn lemma_stages_fit(settings: VllmSettings, asked: VllmAnswers)
    ensures
        stage_fits(search_stage(settings, asked)),
{
    lemma_remote_stage_fits(settings, asked);
    if remote_stage(settings, asked) is Next {
        let first = remote_stage(settings, asked)->Next_0;
        if settings.python is Some && asked.set_python is Some {
            lemma_python_stage_fits(
                first,
                "WERK_VLLM_PYTHON"@,
                "env WERK_VLLM_PYTHON"@,
                settings.python->0,
                asked.set_python->0 is Ran,
                asked.set_python->0,
            );
        }
        if set_python_stage(first, settings, asked) is Next {
            let second = set_python_stage(first, settings, asked)->Next_0;
            if asked.managed_python is Some {
                lemma_python_stage_fits(
                    second,
                    "managed venv"@,
                    "managed venv"@,
                    settings.managed_python,
                    asked.managed_python->0 is Ran,
                    asked.managed_python->0,
                );
            }
            if managed_python_stage(second, settings, asked) is Next {
                let third = managed_python_stage(second, settings, asked)->Next_0;
                lemma_executable_stage_fits(third, settings, asked);
                if executable_stage(third, settings, asked) is Next {
                    let fourth = executable_stage(third, settings, asked)->Next_0;
                    lemma_path_stages_fit(fourth, asked);
                }
            }
        }
    }
}

proof fn lemma_path_stages_fit(attempts: Seq<Attempt>, asked: VllmAnswers)
    requires
        none_usable(attempts),
    ensures
        stage_fits(python3_stage(attempts, asked)),
        python3_stage(attempts, asked) matches Stage::Next(more) ==> stage_fits(
            plain_python_stage(more, asked),
        ),
{
    if asked.python3 is Some && asked.python3->0 is Some && asked.python3_check is Some {
        lemma_python_stage_fits(
            attempts,
            "PATH: "@ + "python3"@,
            "PATH "@ + "python3"@,
            asked.python3->0->0,
            true,
            asked.python3_check->0,
        );
    }
    if python3_stage(attempts, asked) is Next {
        let more = python3_stage(attempts, asked)->Next_0;
        if asked.python is Some && asked.python->0 is Some && asked.python_check is Some {
            lemma_python_stage_fits(
                more,
                "PATH: "@ + "python"@,
                "PATH "@ + "python"@,
                asked.python->0->0,
                true,
                asked.python_check->0,
            );
        }
    }
}

/// The search takes the first server that can be used: the attempt at it is the last, and the
/// only usable one. Where nothing is found, no attempt was usable.
pub proof fn law_first_usable_server_is_taken(
    search: VllmSearch,
    settings: VllmSettings,
    asked: VllmAnswers,
)
    requires
        is_vllm_search(search, settings, asked),
    ensures
        search matches VllmSearch::Done(discovery) ==> if discovery.command is Some {
            only_last_usable(discovery@.attempts)
        } else {
            none_usable(discovery@.attempts)
        },
{
    lemma_stages_fit(settings, asked);
}

/// A remote server that is set and answers is taken, whatever there is on the machine.
pub proof fn law_remote_server_comes_first(
    search: VllmSearch,
    settings: VllmSettings,
    asked: VllmAnswers,
)
    requires
        is_vllm_search(search, settings, asked),
        settings.host is Some,
        settings.port is Some,
        parsed_number(settings.port->0@, 10, u16::MAX as int) is Some,
        asked.models_status == Some(Some(200u16)),
    ensures
        search matches VllmSearch::Done(discovery) && discovery@.server == Some(
            Server::Remote(
                settings.host->0@,
                parsed_number(settings.port->0@, 10, u16::MAX as int)->0 as u16,
            ),
        ),
{
}

/// Whether a server of the list of attempts was a remote one.
pub open spec fn has_remote_attempt(attempts: Seq<Attempt>) -> bool {
    exists|i: int|
        0 <= i < attempts.len() && (#[trigger] attempts[i]).label
            == "WERK_VLLM_HOST/WERK_VLLM_PORT"@
}

/// Whether a remote server was tried.
pub fn discovery_has_remote_attempt(discovery: &VllmDiscovery) -> (r: bool)
    ensures
        r == has_remote_attempt(discovery@.attempts),
{
    let ghost all = discovery@.attempts;
    for i in 0..discovery.attempts.len()
        invariant
            all == vllm_attempts(discovery.attempts@),
            forall|j: int|
                0 <= j < i ==> (#[trigger] all[j]).label != "WERK_VLLM_HOST/WERK_VLLM_PORT"@,
    {
        proof {
            assert(all[i as int] == discovery.attempts@[i as int]@);
        }
        if same_text(discovery.attempts[i].label.as_str(), "WERK_VLLM_HOST/WERK_VLLM_PORT") {
            return true;
        }
    }
    false
}

/// Why what was found cannot be used on a platform: a remote server can be used everywhere.
pub open spec fn discovery_rejection(found: Found, platform: VllmPlatform) -> Option<Seq<char>> {
    if found.server matches Some(Server::Remote(_, _)) || has_remote_attempt(found.attempts) {
        None
    } else {
        local_rejection(platform)
    }
}

/// Why what was found cannot be used on a platform.
pub fn local_vllm_platform_rejection_for_discovery_with_platform(
    discovery: &VllmDiscovery,
    platform: VllmPlatform,
) -> (reason: Option<&'static str>)
    ensures
        text_of_option(reason) == discovery_rejection(discovery@, platform),
{
    match &discovery.command {
        Some(VllmCommand::Remote { .. }) => {
            return None;
        },
        _ => {},
    }
    if discovery_has_remote_attempt(discovery) {
        return None;
    }
    local_vllm_platform_rejection(platform)
}

/// What a message says when no server is found.
pub open spec fn missing_text(attempts: Seq<Attempt>) -> Seq<char> {
    "No vLLM runtime found.\n\nTried:"@ + attempt_lines(attempts) + "\n\nFix:"@
        + "\n- set WERK_VLLM_PYTHON=/path/to/python-with-vllm"@
        + "\n- or set WERK_VLLM_HOST=127.0.0.1 and WERK_VLLM_PORT=<port>"@
        + "\n- or run: werk backend install vllm"@ + "\n- or use: werk --backend candle ..."@
}

/// What a message says when no server is found.
pub fn missing_vllm_message(discovery: &VllmDiscovery) -> (message: String)
    ensures
        message@ == missing_text(discovery@.attempts),
{
    let ghost all = discovery@.attempts;
    let mut list = String::new();
    for i in 0..discovery.attempts.len()
        invariant
            all == vllm_attempts(discovery.attempts@),
            list@ == attempt_lines(all.take(i as int)),
    {
        proof {
            assert(all.take(i + 1).drop_last() =~= all.take(i as int));
            assert(all.take(i + 1).last() == discovery.attempts@[i as int]@);
        }
        let attempt = &discovery.attempts[i];
        let line = shown_attempt(
            attempt.label.as_str(),
            &attempt.path,
            attempt.exists,
            attempt.usable,
            attempt.detail.as_str(),
        );
        list.append(line.as_str());
    }
    proof {
        assert(all.take(discovery.attempts.len() as int) =~= all);
    }
    "No vLLM runtime found.\n\nTried:".to_string().concat(list.as_str()).concat(
        "\n\nFix:",
    ).concat("\n- set WERK_VLLM_PYTHON=/path/to/python-with-vllm").concat(
        "\n- or set WERK_VLLM_HOST=127.0.0.1 and WERK_VLLM_PORT=<port>",
    ).concat("\n- or run: werk backend install vllm").concat(
        "\n- or use: werk --backend candle ...",
    )
}

/// The first attempt that found something it cannot use; where there is none, the first that
/// found nothing usable.
pub open spec fn telling_attempt(attempts: Seq<Attempt>) -> Option<Attempt> {
    match first_unusable(attempts, true) {
        Some(attempt) => Some(attempt),
        None => first_unusable(attempts, false),
    }
}

/// The first attempt that is not usable, and that found something where `existing` says so.
pub open spec fn first_unusable(attempts: Seq<Attempt>, existing: bool) -> Option<Attempt>
    decreases attempts.len(),
{
    if attempts.len() == 0 {
        None
    } else if !attempts[0].usable && (existing ==> attempts[0].exists) {
        Some(attempts[0])
    } else {
        first_unusable(attempts.drop_first(), existing)
    }
}

/// Why no server is at hand, in short.
pub open spec fn unavailable_text(attempts: Seq<Attempt>) -> Seq<char> {
    match telling_attempt(attempts) {
        Some(attempt) => attempt.label + (match attempt.path {
            Some(path) => " ("@ + path_text(path) + ")"@,
            None => Seq::empty(),
        }) + ": "@ + attempt.detail,
        None => "No vLLM runtime found; run: werk backend install vllm"@,
    }
}

fn find_unusable<'a>(discovery: &'a VllmDiscovery, existing: bool) -> (found: Option<
    &'a VllmDiscoveryAttempt,
>)
    ensures
        match found {
            Some(attempt) => first_unusable(discovery@.attempts, existing) == Some(attempt@),
            None => first_unusable(discovery@.attempts, existing) is None,
        },
{
    let ghost all = discovery@.attempts;
    proof {
        assert(all.skip(0) =~= all);
    }
    for i in 0..discovery.attempts.len()
        invariant
            all == vllm_attempts(discovery.attempts@),
            first_unusable(all, existing) == first_unusable(all.skip(i as int), existing),
    {
        proof {
            assert(all.skip(i as int).drop_first() =~= all.skip(i + 1));
            assert(all.skip(i as int)[0] == discovery.attempts@[i as int]@);
        }
        let attempt = &discovery.attempts[i];
        if !attempt.usable && (!existing || attempt.exists) {
            return Some(attempt);
        }
    }
    None
}

/// Why no server is at hand, in short.
pub fn concise_vllm_unavailable_reason(discovery: &VllmDiscovery) -> (reason: String)
    ensures
        reason@ == unavailable_text(discovery@.attempts),
{
    let telling = match find_unusable(discovery, true) {
        Some(attempt) => Some(attempt),
        None => find_unusable(discovery, false),
    };
    match telling {
        Some(attempt) => {
            let place = match &attempt.path {
                Some(path) => " (".to_string().concat(shown_path(path).as_str()).concat(")"),
                None => String::new(),
            };
            attempt.label.clone().concat(place.as_str()).concat(": ").concat(
                attempt.detail.as_str(),
            )
        },
        None => "No vLLM runtime found; run: werk backend install vllm".to_string(),
    }
}

/// Whether a Python was run and could import vLLM's server.
pub open spec fn did_import(check: Option<PythonCheck>) -> bool {
    match check {
        Some(PythonCheck::Ran(CommandOutcome::Finished(output))) => output.success,
        _ => false,
    }
}

/// Whether a program was run and succeeded.
pub open spec fn did_succeed(outcome: Option<CommandOutcome>) -> bool {
    match outcome {
        Some(CommandOutcome::Finished(output)) => output.success,
        _ => false,
    }
}

/// Whether a remote server is set with a port that is one.
pub open spec fn sets_remote(settings: VllmSettings) -> bool {
    settings.host is Some && settings.port is Some && parsed_number(
        settings.port->0@,
        10,
        u16::MAX as int,
    ) is Some
}

/// Whether a remote server is set and has answered with the status 200.
pub open spec fn remote_did_answer(settings: VllmSettings, asked: VllmAnswers) -> bool {
    sets_remote(settings) && (asked.models_status == Some(Some(200u16)) || (
    asked.models_status is Some && asked.health_status == Some(Some(200u16))))
}

/// The server that a search ends with is the thing that was checked, by its kind and its path: a
/// Python whose own import succeeded, the program in the search path whose help succeeded, or the
/// remote server that is set and answered.
pub proof fn law_server_is_what_was_checked(
    search: VllmSearch,
    settings: VllmSettings,
    asked: VllmAnswers,
)
    requires
        is_vllm_search(search, settings, asked),
    ensures
        search matches VllmSearch::Done(discovery) ==> match discovery@.server {
            Some(Server::Python(path)) => {
                ||| settings.python == Some(path) && did_import(asked.set_python)
                ||| path == settings.managed_python && did_import(asked.managed_python)
                ||| asked.python3 == Some(Some(path)) && did_import(asked.python3_check)
                ||| asked.python == Some(Some(path)) && did_import(asked.python_check)
            },
            Some(Server::Executable(path)) => {
                &&& asked.executable == Some(Some(path))
                &&& did_succeed(asked.executable_help)
                &&& !(settings.python is Some && did_import(asked.set_python))
                &&& !did_import(asked.managed_python)
                &&& !remote_did_answer(settings, asked)
            },
            Some(Server::Remote(host, port)) => {
                &&& remote_did_answer(settings, asked)
                &&& host == settings.host->0@
                &&& Some(port as int) == parsed_number(settings.port->0@, 10, u16::MAX as int)
            },
            None => {
                &&& !remote_did_answer(settings, asked)
                &&& !(settings.python is Some && did_import(asked.set_python))
                &&& !did_import(asked.managed_python)
                &&& !(asked.executable is Some && asked.executable->0 is Some && did_succeed(
                    asked.executable_help,
                ))
                &&& !(asked.python3 is Some && asked.python3->0 is Some && did_import(
                    asked.python3_check,
                ))
                &&& !(asked.python is Some && asked.python->0 is Some && did_import(
                    asked.python_check,
                ))
            },
        },
{
    if sets_remote(settings) {
        lemma_parsed_number_in_range(settings.port->0@, u16::MAX as int);
    }
}

/// A search that is over has taken the first place that can be used: the remote server, the Python
/// that is set, the managed Python, the program in the search path, `python3` and `python` there.
pub proof fn law_places_are_taken_in_turn(
    search: VllmSearch,
    settings: VllmSettings,
    asked: VllmAnswers,
)
    requires
        is_vllm_search(search, settings, asked),
        search is Done,
    ensures
        ({
            let server = search->Done_0@.server;
            let set = settings.python is Some && did_import(asked.set_python);
            let managed = did_import(asked.managed_python);
            let program = asked.executable is Some && asked.executable->0 is Some && did_succeed(
                asked.executable_help,
            );
            let python3 = asked.python3 is Some && asked.python3->0 is Some && did_import(
                asked.python3_check,
            );
            let python = asked.python is Some && asked.python->0 is Some && did_import(
                asked.python_check,
            );
            let remote = remote_did_answer(settings, asked);
            &&& remote ==> server is Some && server->0 is Remote
            &&& !remote && set ==> server == Some(Server::Python(settings.python->0))
            &&& !remote && !set && managed ==> server == Some(
                Server::Python(settings.managed_python),
            )
            &&& !remote && !set && !managed && program ==> server == Some(
                Server::Executable(asked.executable->0->0),
            )
            &&& !remote && !set && !managed && !program && python3 ==> server == Some(
                Server::Python(asked.python3->0->0),
            )
            &&& !remote && !set && !managed && !program && !python3 && python ==> server == Some(
                Server::Python(asked.python->0->0),
            )
        }),
{
}

/// A search asks only for what it does not know, and only of the places that are to be tried: the
/// remote server and the Python that are set, the managed Python, and what the search path has.
/// While it asks, nothing that comes before can be used.
pub proof fn law_asks_for_what_is_not_known(
    search: VllmSearch,
    settings: VllmSettings,
    asked: VllmAnswers,
)
    requires
        is_vllm_search(search, settings, asked),
    ensures
        search matches VllmSearch::Ask(question) ==> match question@ {
            Question::GetModels(url) => sets_remote(settings) && asked.models_status is None && url
                == server_url(
                settings.host->0@,
                parsed_number(settings.port->0@, 10, u16::MAX as int)->0 as u16,
            ),
            Question::GetHealth(url) => sets_remote(settings) && asked.models_status is Some
                && asked.models_status != Some(Some(200u16)) && asked.health_status is None && url
                == server_url(
                settings.host->0@,
                parsed_number(settings.port->0@, 10, u16::MAX as int)->0 as u16,
            ),
            Question::CheckSetPython(path) => settings.python == Some(path)
                && asked.set_python is None && !remote_did_answer(settings, asked),
            Question::CheckManagedPython(path) => path == settings.managed_python
                && asked.managed_python is None && !remote_did_answer(settings, asked),
            Question::FindExecutable(name) => asked.executable is None && !did_import(
                asked.managed_python,
            ) && name == (if settings.windows {
                "vllm.exe"@
            } else {
                "vllm"@
            }),
            Question::RunExecutableHelp(path) => asked.executable == Some(Some(path))
                && asked.executable_help is None && !did_import(asked.managed_python),
            Question::FindPython3 => asked.python3 is None,
            Question::CheckPython3(path) => asked.python3 == Some(Some(path))
                && asked.python3_check is None,
            Question::FindPython => asked.python is None,
            Question::CheckPython(path) => asked.python == Some(Some(path))
                && asked.python_check is None,
        },
{
}

/// A search that is over tells of every place that it has tried, and tells of each whether it can
/// be used as the check of that place has shown.
pub proof fn law_attempts_tell_what_was_tried(
    search: VllmSearch,
    settings: VllmSettings,
    asked: VllmAnswers,
)
    requires
        is_vllm_search(search, settings, asked),
        search is Done,
        !(search->Done_0@.server is Some),
    ensures
        ({
            let attempts = search->Done_0@.attempts;
            let before = (if settings.host is Some && settings.port is Some {
                1int
            } else {
                0
            }) + (if settings.python is Some {
                1int
            } else {
                0
            });
            &&& search->Done_0@.source == "missing"@
            &&& attempts.len() >= before + 2
            &&& attempts[before].label == "managed venv"@
            &&& attempts[before].path == Some(settings.managed_python)
            &&& attempts[before + 1].path == asked.executable->0
            &&& attempts[before + 1].exists == (asked.executable->0 is Some)
            &&& settings.python is Some ==> attempts[before - 1].path == settings.python
                && attempts[before - 1].label == "WERK_VLLM_PYTHON"@
        }),
{
}

} // verus!
