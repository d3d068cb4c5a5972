//! Starting a vLLM server, and keeping it.

use super::command::{server_text, Server, VllmCommand};
use super::discovery::{missing_text, missing_vllm_message, VllmDiscovery};
use super::platform::{wsl_failure_text, wsl_vllm_health_failure_message, VllmPlatform};
use crate::failure::Failure;
use crate::http::url::{http_url, server_url};
use crate::model::{ModelFormat, ModelManifest};
use crate::paths::{path_text, shown_path};
use crate::shell::{arguments, shell_join, shown_arguments, split_args};
use crate::text::chars::same_text;
use crate::text::number::{decimal, decimal_text};
use crate::text::space::{join, joined, views};
use std::collections::VecDeque;
use std::path::PathBuf;
use vstd::prelude::*;

verus! {

/// Whether the value of an environment variable switches something on.
pub open spec fn is_true(value: Option<Seq<char>>) -> bool {
    value is Some && (value->0 == "1"@ || value->0 == "true"@ || value->0 == "yes"@ || value->0
        == "on"@)
}

/// Whether the value of an environment variable switches something on.
pub fn env_true(value: Option<&str>) -> (r: bool)
    ensures
        r == is_true(
            match value {
                Some(value) => Some(value@),
                None => None,
            },
        ),
{
    match value {
        Some(value) => same_text(value, "1") || same_text(value, "true") || same_text(value, "yes")
            || same_text(value, "on"),
        None => false,
    }
}

/// The arguments that a server is started with before those that are set.
pub open spec fn fixed_server_arguments(
    server: Server,
    model_dir: PathBuf,
    model_name: Seq<char>,
    port: u16,
) -> Seq<Seq<char>> {
    (match server {
        Server::Python(_) => seq![
            "-m"@,
            "vllm.entrypoints.openai.api_server"@,
            "--model"@,
            path_text(model_dir),
        ],
        Server::Executable(_) => seq!["serve"@, path_text(model_dir)],
        Server::Remote(_, _) => Seq::empty(),
    }) + seq![
        "--host"@,
        "127.0.0.1"@,
        "--port"@,
        decimal(port as nat),
        "--served-model-name"@,
        model_name,
    ]
}

/// The arguments that a server is started with; `extra` is the command line of those that are
/// set.
pub open spec fn server_arguments(
    server: Server,
    model_dir: PathBuf,
    model_name: Seq<char>,
    port: u16,
    extra: Option<Seq<char>>,
) -> Seq<Seq<char>> {
    fixed_server_arguments(server, model_dir, model_name, port) + (match extra {
        Some(line) => arguments(line),
        None => Seq::empty(),
    })
}

/// The arguments that a server is started with; `extra` is the value of `WERK_VLLM_ARGS`.
pub fn vllm_server_args(
    command: &VllmCommand,
    model_dir: &PathBuf,
    model_name: &str,
    port: u16,
    extra: Option<&str>,
) -> (args: Vec<String>)
    ensures
        views(args@) == server_arguments(
            command@,
            *model_dir,
            model_name@,
            port,
            match extra {
                Some(line) => Some(line@),
                None => None,
            },
        ),
{
    let mut args: Vec<String> = Vec::new();
    match command {
        VllmCommand::Python(_) => {
            args.push("-m".to_string());
            args.push("vllm.entrypoints.openai.api_server".to_string());
            args.push("--model".to_string());
            args.push(shown_path(model_dir));
        },
        VllmCommand::Executable(_) => {
            args.push("serve".to_string());
            args.push(shown_path(model_dir));
        },
        VllmCommand::Remote { .. } => {},
    }
    args.push("--host".to_string());
    args.push("127.0.0.1".to_string());
    args.push("--port".to_string());
    args.push(decimal_text(port as u64));
    args.push("--served-model-name".to_string());
    args.push(model_name.to_string());
    let ghost fixed = fixed_server_arguments(command@, *model_dir, model_name@, port);
    proof {
        assert(views(args@) =~= fixed);
    }
    match extra {
        None => {
            proof {
                assert(fixed + Seq::<Seq<char>>::empty() =~= fixed);
            }
        },
        Some(line) => {
            let more = split_args(line);
            for i in 0..more.len()
                invariant
                    views(args@) == fixed + views(more@).take(i as int),
            {
                let ghost before = views(args@);
                args.push(more[i].clone());
                proof {
                    assert(views(args@) =~= before.push(more@[i as int]@));
                    assert(views(more@).take(i + 1) =~= views(more@).take(i as int).push(
                        more@[i as int]@,
                    ));
                }
            }
            proof {
                assert(views(more@).take(more.len() as int) =~= views(more@));
            }
        },
    }
    args
}

/// A server that has been started or reached.
#[derive(Debug, Clone)]
pub struct VllmServer {
    pub command_label: String,
    pub discovery_source: String,
    pub args: Vec<String>,
    pub model_dir: PathBuf,
    pub model_name: String,
    pub url: String,
    /// The process of a server that was started here.
    pub pid: Option<u32>,
}

/// The mathematical model of a [`VllmServer`].
#[verifier::ext_equal]
pub struct RunningServer {
    pub command_label: Seq<char>,
    pub discovery_source: Seq<char>,
    pub args: Seq<Seq<char>>,
    pub model_dir: PathBuf,
    pub model_name: Seq<char>,
    pub url: Seq<char>,
    pub pid: Option<u32>,
}

impl View for VllmServer {
    type V = RunningServer;

    open spec fn view(&self) -> RunningServer {
        RunningServer {
            command_label: self.command_label@,
            discovery_source: self.discovery_source@,
            args: views(self.args@),
            model_dir: self.model_dir,
            model_name: self.model_name@,
            url: self.url@,
            pid: self.pid,
        }
    }
}

/// What has come of starting a server so far: each answer once its question was asked.
#[derive(Debug, Clone)]
pub struct StartAnswers {
    pub discovery: Option<VllmDiscovery>,
    /// A free port of this machine, or why there is none.
    pub port: Option<Result<u16, String>>,
    /// The process that was started, or why none was.
    pub started: Option<Result<u32, String>>,
}

/// What to do next to start a server.
pub enum StartStep {
    Fail(Failure),
    Discover,
    /// Print the note, and find a free port.
    FindPort { note: String },
    /// Start the program; `own_output` says that it writes to this program's output.
    Start { program: PathBuf, args: Vec<String>, own_output: bool },
    /// Print the note, where there is one, and wait until the server is ready.
    Await { note: Option<String>, server: VllmServer },
}

/// The note that a server is used.
pub open spec fn start_note() -> Seq<char> {
    "Using vLLM CUDA backend"@
}

/// Whether a step is the one that follows once a server on this machine is to be started.
pub open spec fn is_local_start_step(
    step: StartStep,
    server: Server,
    program: PathBuf,
    source: Seq<char>,
    model_name: Seq<char>,
    model_dir: PathBuf,
    extra: Option<Seq<char>>,
    log: Option<Seq<char>>,
    known: StartAnswers,
) -> bool {
    match known.port {
        None => step matches StartStep::FindPort { note } && note@ == start_note(),
        Some(Err(reason)) => step matches StartStep::Fail(failure) && failure@ == seq![reason@],
        Some(Ok(port)) => {
            let started_with = server_arguments(server, model_dir, model_name, port, extra);
            match known.started {
                None => step matches StartStep::Start { program: run, args, own_output } && run
                    == program && views(args@) == started_with && own_output == is_true(log),
                Some(Err(reason)) => step matches StartStep::Fail(failure) && failure@ == seq![
                    "failed to start vLLM server using "@ + path_text(program),
                    reason@,
                ],
                Some(Ok(pid)) => step matches StartStep::Await { note, server: running } && note
                    is None && running@ == (RunningServer {
                    command_label: server_text(server),
                    discovery_source: source,
                    args: started_with,
                    model_dir,
                    model_name,
                    url: server_url("127.0.0.1"@, port),
                    pid: Some(pid),
                }),
            }
        },
    }
}

/// Whether a step is the one that follows what has come of starting a server so far.
pub open spec fn is_start_step(
    step: StartStep,
    model_name: Seq<char>,
    model_dir: PathBuf,
    extra: Option<Seq<char>>,
    log: Option<Seq<char>>,
    known: StartAnswers,
) -> bool {
    match known.discovery {
        None => step is Discover,
        Some(discovery) => match discovery@.server {
            None => step matches StartStep::Fail(failure) && failure@ == seq![
                missing_text(discovery@.attempts),
            ],
            Some(Server::Remote(host, port)) => {
                step matches StartStep::Await { note, server } && note is Some && note->0@
                    == start_note() && server@ == (RunningServer {
                    command_label: "remote vLLM OpenAI server"@,
                    discovery_source: discovery@.source,
                    args: Seq::empty(),
                    model_dir,
                    model_name,
                    url: server_url(host, port),
                    pid: None,
                })
            },
            Some(Server::Python(program)) => is_local_start_step(
                step,
                Server::Python(program),
                program,
                discovery@.source,
                model_name,
                model_dir,
                extra,
                log,
                known,
            ),
            Some(Server::Executable(program)) => is_local_start_step(
                step,
                Server::Executable(program),
                program,
                discovery@.source,
                model_name,
                model_dir,
                extra,
                log,
                known,
            ),
        },
    }
}

/// What to do next to start a server on a model. `extra` and `log` are the values of
/// `WERK_VLLM_ARGS` and `WERK_VLLM_LOG`.
pub fn start(
    model_name: &str,
    model_dir: &PathBuf,
    extra: Option<&str>,
    log: Option<&str>,
    known: &StartAnswers,
) -> (step: StartStep)
    ensures
        is_start_step(
            step,
            model_name@,
            *model_dir,
            match extra {
                Some(line) => Some(line@),
                None => None,
            },
            match log {
                Some(value) => Some(value@),
                None => None,
            },
            *known,
        ),
{
    let discovery = match &known.discovery {
        None => {
            return StartStep::Discover;
        },
        Some(discovery) => discovery,
    };
    let command = match &discovery.command {
        None => {
            return StartStep::Fail(Failure::new(missing_vllm_message(discovery)));
        },
        Some(command) => command,
    };
    let program = match command {
        VllmCommand::Remote { host, port } => {
            let server = VllmServer {
                command_label: "remote vLLM OpenAI server".to_string(),
                discovery_source: discovery.source.clone(),
                args: Vec::new(),
                model_dir: model_dir.clone(),
                model_name: model_name.to_string(),
                url: http_url(host.as_str(), *port),
                pid: None,
            };
            proof {
                assert(views(server.args@) =~= Seq::empty());
            }
            return StartStep::Await {
                note: Some("Using vLLM CUDA backend".to_string()),
                server,
            };
        },
        _ => command.executable(),
    };
    let port = match &known.port {
        None => {
            return StartStep::FindPort { note: "Using vLLM CUDA backend".to_string() };
        },
        Some(Err(reason)) => {
            return StartStep::Fail(Failure::new(reason.clone()));
        },
        Some(Ok(port)) => *port,
    };
    let args = vllm_server_args(command, model_dir, model_name, port, extra);
    match &known.started {
        None => StartStep::Start { program, args, own_output: env_true(log) },
        Some(Err(reason)) => {
            let message = "failed to start vLLM server using ".to_string().concat(
                shown_path(&program).as_str(),
            );
            StartStep::Fail(Failure::because(message, reason.clone()))
        },
        Some(Ok(pid)) => {
            let server = VllmServer {
                command_label: command.display(),
                discovery_source: discovery.source.clone(),
                args,
                model_dir: model_dir.clone(),
                model_name: model_name.to_string(),
                url: http_url("127.0.0.1", port),
                pid: Some(*pid),
            };
            StartStep::Await { note: None, server }
        },
    }
}

/// The last lines that a server wrote, at most eighty.
#[derive(Debug, Clone)]
pub struct LogTail {
    pub lines: VecDeque<String>,
}

/// The lines of a log.
pub open spec fn tail_lines(lines: Seq<String>) -> Seq<Seq<char>> {
    views(lines)
}

/// The last of a list of lines, at most eighty.
pub open spec fn last_lines(lines: Seq<Seq<char>>) -> Seq<Seq<char>> {
    if lines.len() <= 80 {
        lines
    } else {
        lines.skip(lines.len() - 80)
    }
}

/// What is said of the last lines that a server wrote.
pub open spec fn tail_text(lines: Seq<Seq<char>>) -> Seq<char> {
    if lines.len() == 0 {
        Seq::empty()
    } else {
        "\n\nvLLM output tail:\n"@ + join(lines, "\n"@)
    }
}

impl LogTail {
    /// Whether the tail is no longer than it may be.
    pub open spec fn wf(self) -> bool {
        self.lines@.len() <= 80
    }

    /// Nothing was written yet.
    pub fn new() -> (tail: LogTail)
        ensures
            tail.wf(),
            tail_lines(tail.lines@).len() == 0,
    {
        LogTail { lines: VecDeque::new() }
    }

    /// Adds a line that was written to the output of that name; where the tail is full, its first
    /// line makes room.
    pub fn push_line(&mut self, label: &str, line: &str)
        requires
            old(self).wf(),
        ensures
            final(self).wf(),
            tail_lines(final(self).lines@) == last_lines(
                tail_lines(old(self).lines@).push(label@ + ": "@ + line@),
            ),
    {
        let ghost before = self.lines@;
        if self.lines.len() >= 80 {
            let _ = self.lines.pop_front();
        }
        self.lines.push_back(label.to_string().concat(": ").concat(line));
        proof {
            let all = tail_lines(before).push(label@ + ": "@ + line@);
            assert(tail_lines(self.lines@) =~= last_lines(all));
        }
    }

    /// What is said of the last lines that a server wrote.
    pub fn formatted(&self) -> (text: String)
        ensures
            text@ == tail_text(tail_lines(self.lines@)),
    {
        if self.lines.len() == 0 {
            return String::new();
        }
        let mut lines: Vec<String> = Vec::new();
        for i in 0..self.lines.len()
            invariant
                views(lines@) == tail_lines(self.lines@).take(i as int),
        {
            let ghost before = views(lines@);
            lines.push(self.lines[i].clone());
            proof {
                assert(views(lines@) =~= before.push(self.lines@[i as int]@));
            }
        }
        proof {
            assert(tail_lines(self.lines@).take(self.lines@.len() as int) =~= tail_lines(
                self.lines@,
            ));
        }
        "\n\nvLLM output tail:\n".to_string().concat(joined(&lines, "\n").as_str())
    }
}

/// The tail after a list of lines.
pub open spec fn tail_after(lines: Seq<Seq<char>>) -> Seq<Seq<char>>
    decreases lines.len(),
{
    if lines.len() == 0 {
        Seq::empty()
    } else {
        last_lines(tail_after(lines.drop_last()).push(lines.last()))
    }
}

/// However many lines were written, the tail holds the last ones, in order.
pub proof fn law_tail_holds_last_lines(lines: Seq<Seq<char>>)
    ensures
        tail_after(lines) == last_lines(lines),
    decreases lines.len(),
{
    if lines.len() > 0 {
        let front = lines.drop_last();
        law_tail_holds_last_lines(front);
        assert(last_lines(last_lines(front).push(lines.last())) =~= last_lines(lines));
    }
}

/// What was seen while waiting for a server: each answer once its question was asked.
#[derive(Debug, Clone)]
pub struct WaitAnswers {
    /// How the server's process ended, where it did; or why that could not be found out.
    pub exit: Option<Result<Option<String>, String>>,
    /// The status with which the server answers a question for its health.
    pub health: Option<Option<u16>>,
    /// The status with which the server answers a question for its models.
    pub models: Option<Option<u16>>,
    /// How long the wait has taken.
    pub waited_nanos: Option<u64>,
}

/// What to do next while waiting for a server.
pub enum WaitStep {
    Fail(Failure),
    /// Find out whether the server's process has ended.
    CheckExit,
    GetHealth,
    GetModels,
    CheckClock,
    /// Wait a quarter of a second, and ask everything anew.
    Sleep,
    Ready,
}

/// How long a server may take to become ready: five minutes.
pub const HEALTH_TIMEOUT_NANOS: u64 = 300_000_000_000;

/// How long to wait before a server is asked again: a quarter of a second.
pub const HEALTH_POLL_NANOS: u64 = 250_000_000;

/// Whether a step fails for a reason, in the words that fit the platform.
pub open spec fn gives_up(step: WaitStep, platform: VllmPlatform, reason: Seq<char>) -> bool {
    step matches WaitStep::Fail(failure) && failure@ == seq![
        match wsl_failure_text(platform, reason) {
            Some(message) => message,
            None => reason,
        },
    ]
}

/// What is said of a server whose process has ended.
pub open spec fn exited_text(status: Seq<char>, tail: Seq<Seq<char>>) -> Seq<char> {
    "vLLM server exited before becoming healthy ("@ + status + ")"@ + tail_text(tail)
}

/// What is said of a server that took too long.
pub open spec fn timeout_text(url: Seq<char>, tail: Seq<Seq<char>>) -> Seq<char> {
    "timed out waiting for vLLM server at "@ + url + tail_text(tail)
}

/// Whether a step is the one that follows what was seen while waiting. The server is ready once
/// it answers one of two questions with the status 200.
pub open spec fn is_wait_step(
    step: WaitStep,
    platform: VllmPlatform,
    url: Seq<char>,
    tail: Seq<Seq<char>>,
    seen: WaitAnswers,
) -> bool {
    match seen.exit {
        None => step is CheckExit,
        Some(Err(reason)) => step matches WaitStep::Fail(failure) && failure@ == seq![reason@],
        Some(Ok(Some(status))) => gives_up(step, platform, exited_text(status@, tail)),
        Some(Ok(None)) => if seen.health is None {
            step is GetHealth
        } else if seen.health->0 == Some(200u16) {
            step is Ready
        } else if seen.models is None {
            step is GetModels
        } else if seen.models->0 == Some(200u16) {
            step is Ready
        } else {
            match seen.waited_nanos {
                None => step is CheckClock,
                Some(waited) => if waited > HEALTH_TIMEOUT_NANOS {
                    gives_up(step, platform, timeout_text(url, tail))
                } else {
                    step is Sleep
                },
            }
        },
    }
}

fn give_up(platform: VllmPlatform, reason: String) -> (step: WaitStep)
    ensures
        gives_up(step, platform, reason@),
{
    match wsl_vllm_health_failure_message(platform, reason.as_str()) {
        Some(message) => WaitStep::Fail(Failure::new(message)),
        None => WaitStep::Fail(Failure::new(reason)),
    }
}

fn is_success(status: Option<u16>) -> (r: bool)
    ensures
        r == (status == Some(200u16)),
{
    match status {
        Some(status) => status == 200,
        None => false,
    }
}

/// What to do next while waiting for the server at `url`.
pub fn wait_until_ready(platform: VllmPlatform, url: &str, tail: &LogTail, seen: &WaitAnswers) -> (
    step: WaitStep)
    ensures
        is_wait_step(step, platform, url@, tail_lines(tail.lines@), *seen),
{
    match &seen.exit {
        None => {
            return WaitStep::CheckExit;
        },
        Some(Err(reason)) => {
            return WaitStep::Fail(Failure::new(reason.clone()));
        },
        Some(Ok(Some(status))) => {
            let reason = "vLLM server exited before becoming healthy (".to_string().concat(
                status.as_str(),
            ).concat(")").concat(tail.formatted().as_str());
            return give_up(platform, reason);
        },
        Some(Ok(None)) => {},
    }
    match seen.health {
        None => {
            return WaitStep::GetHealth;
        },
        Some(status) => {
            if is_success(status) {
                return WaitStep::Ready;
            }
        },
    }
    match seen.models {
        None => {
            return WaitStep::GetModels;
        },
        Some(status) => {
            if is_success(status) {
                return WaitStep::Ready;
            }
        },
    }
    match seen.waited_nanos {
        None => WaitStep::CheckClock,
        Some(waited) => {
            if waited > HEALTH_TIMEOUT_NANOS {
                let reason = "timed out waiting for vLLM server at ".to_string().concat(
                    url,
                ).concat(tail.formatted().as_str());
                give_up(platform, reason)
            } else {
                WaitStep::Sleep
            }
        },
    }
}

/// Whether a server still runs: one that was started here while its process has not ended, a
/// remote one while it tells its models.
pub fn is_running(
    started_here: bool,
    exit: &Result<Option<String>, String>,
    models: Option<u16>,
) -> (r: bool)
    ensures
        r == (if started_here {
            exit matches Ok(status) && status is None
        } else {
            models == Some(200u16)
        }),
{
    if !started_here {
        return is_success(models);
    }
    match exit {
        Ok(status) => status.is_none(),
        Err(_) => false,
    }
}

/// What debugging shows of a server.
pub open spec fn debug_text(server: RunningServer, reused: bool) -> Seq<Seq<char>> {
    seq![
        "selected backend: vllm-cuda"@,
        "actual engine: vLLM OpenAI-compatible server"@,
        "vLLM executable: "@ + server.command_label,
        "discovery source: "@ + server.discovery_source,
        "full vLLM args: "@ + (if server.args.len() == 0 {
            "<remote server>"@
        } else {
            join(shown_arguments(server.args), " "@)
        }),
        "model path: "@ + path_text(server.model_dir),
        "server PID: "@ + (match server.pid {
            Some(pid) => decimal(pid as nat),
            None => "external"@,
        }),
        "server URL: "@ + server.url,
        "reused existing server: "@ + (if reused {
            "true"@
        } else {
            "false"@
        }),
    ]
}

impl VllmServer {
    /// What debugging shows of the server; nothing where nothing is debugged.
    pub fn debug_lines(&self, debug: bool, reused: bool) -> (lines: Vec<String>)
        ensures
            views(lines@) == (if debug {
                debug_text(self@, reused)
            } else {
                Seq::empty()
            }),
    {
        let mut lines: Vec<String> = Vec::new();
        if !debug {
            proof {
                assert(views(lines@) =~= Seq::empty());
            }
            return lines;
        }
        let args = if self.args.len() == 0 {
            "<remote server>".to_string()
        } else {
            shell_join(&self.args)
        };
        let pid = match self.pid {
            Some(pid) => decimal_text(pid as u64),
            None => "external".to_string(),
        };
        lines.push("selected backend: vllm-cuda".to_string());
        lines.push("actual engine: vLLM OpenAI-compatible server".to_string());
        lines.push("vLLM executable: ".to_string().concat(self.command_label.as_str()));
        lines.push("discovery source: ".to_string().concat(self.discovery_source.as_str()));
        lines.push("full vLLM args: ".to_string().concat(args.as_str()));
        lines.push("model path: ".to_string().concat(shown_path(&self.model_dir).as_str()));
        lines.push("server PID: ".to_string().concat(pid.as_str()));
        lines.push("server URL: ".to_string().concat(self.url.as_str()));
        lines.push(
            "reused existing server: ".to_string().concat(
                if reused {
                    "true"
                } else {
                    "false"
                },
            ),
        );
        proof {
            assert(views(lines@) =~= debug_text(self@, reused));
        }
        lines
    }
}

/// The key under which the server of a model is kept.
pub open spec fn key_text(id: Seq<char>, model_dir: PathBuf, extra: Option<Seq<char>>) -> Seq<
    char,
> {
    id + ":"@ + path_text(model_dir) + ":"@ + (match extra {
        Some(line) => line,
        None => Seq::empty(),
    })
}

/// The key under which the server of a model is kept; `extra` is the value of `WERK_VLLM_ARGS`.
pub fn server_key(id: &str, model_dir: &PathBuf, extra: Option<&str>) -> (key: String)
    ensures
        key@ == key_text(
            id@,
            *model_dir,
            match extra {
                Some(line) => Some(line@),
                None => None,
            },
        ),
{
    let lead = id.to_string().concat(":").concat(shown_path(model_dir).as_str()).concat(":");
    match extra {
        Some(line) => lead.concat(line),
        None => {
            proof {
                assert(lead@ + Seq::<char>::empty() =~= lead@);
            }
            lead
        },
    }
}

/// The servers that are kept, each under its key.
pub struct ServerCache<S> {
    pub entries: Vec<(String, S)>,
}

/// What a list of entries holds under a key; the last entry counts.
pub open spec fn kept_under<S>(entries: Seq<(String, S)>, key: Seq<char>) -> Option<S>
    decreases entries.len(),
{
    if entries.len() == 0 {
        None
    } else if entries.last().0@ == key {
        Some(entries.last().1)
    } else {
        kept_under(entries.drop_last(), key)
    }
}

impl<S> ServerCache<S> {
    /// What is kept under a key.
    pub open spec fn at(self, key: Seq<char>) -> Option<S> {
        kept_under(self.entries@, key)
    }

    /// Whether no key has two entries.
    pub open spec fn wf(self) -> bool {
        forall|i: int, j: int|
            0 <= i < j < self.entries@.len() ==> (#[trigger] self.entries@[i]).0@ != (
            #[trigger] self.entries@[j]).0@
    }

    /// Nothing is kept.
    pub fn new() -> (cache: ServerCache<S>)
        ensures
            cache.wf(),
            forall|key: Seq<char>| (#[trigger] cache.at(key)) is None,
    {
        ServerCache { entries: Vec::new() }
    }

    fn place(&self, key: &str) -> (place: Option<usize>)
        ensures
            match place {
                Some(place) => place < self.entries@.len() && self.entries@[place as int].0@ == key@
                    && self.at(key@) == Some(self.entries@[place as int].1) && forall|i: int|
                    place < i < self.entries@.len() ==> (#[trigger] self.entries@[i]).0@ != key@,
                None => self.at(key@) is None && forall|i: int|
                    0 <= i < self.entries@.len() ==> (#[trigger] self.entries@[i]).0@ != key@,
            },
    {
        let mut i: usize = self.entries.len();
        proof {
            assert(self.entries@.take(i as int) =~= self.entries@);
        }
        while i > 0
            invariant
                i <= self.entries@.len(),
                self.at(key@) == kept_under(self.entries@.take(i as int), key@),
                forall|j: int|
                    i <= j < self.entries@.len() ==> (#[trigger] self.entries@[j]).0@ != key@,
            decreases i,
        {
            proof {
                assert(self.entries@.take(i as int).drop_last() =~= self.entries@.take(i - 1));
            }
            i = i - 1;
            if same_text(self.entries[i].0.as_str(), key) {
                return Some(i);
            }
        }
        None
    }

    /// What is kept under a key.
    pub fn find(&self, key: &str) -> (found: Option<&S>)
        ensures
            match found {
                Some(server) => self.at(key@) == Some(*server),
                None => self.at(key@) is None,
            },
    {
        match self.place(key) {
            Some(place) => Some(&self.entries[place].1),
            None => None,
        }
    }

    /// Keeps a server under a key, in the place of the one that was kept there.
    pub fn insert(&mut self, key: String, server: S)
        ensures
            old(self).wf() ==> final(self).wf(),
            final(self).at(key@) == Some(server),
            forall|other: Seq<char>|
                other != key@ ==> #[trigger] final(self).at(other) == old(self).at(other),
    {
        let ghost before = self.entries@;
        match self.place(key.as_str()) {
            Some(place) => {
                let _ = self.entries.remove(place);
                proof {
                    assert forall|other: Seq<char>| other != key@ implies kept_under(
                        before.remove(place as int),
                        other,
                    ) == #[trigger] kept_under(before, other) by {
                        lemma_without_entry(before, place as int, other);
                    }
                    assert forall|i: int|
                        old(self).wf() && 0 <= i < before.remove(place as int).len() implies (
                    #[trigger] before.remove(place as int)[i]).0@ != key@ by {
                        if i < place {
                            assert(before.remove(place as int)[i] == before[i]);
                        } else {
                            assert(before.remove(place as int)[i] == before[i + 1]);
                        }
                    }
                }
            },
            None => {},
        }
        let ghost middle = self.entries@;
        self.entries.push((key, server));
        proof {
            assert(self.entries@.drop_last() =~= middle);
            assert forall|other: Seq<char>| other != key@ implies #[trigger] kept_under(
                self.entries@,
                other,
            ) == kept_under(before, other) by {
                assert(kept_under(middle, other) == kept_under(before, other));
            }
        }
    }
}

proof fn lemma_without_entry<S>(entries: Seq<(String, S)>, place: int, key: Seq<char>)
    requires
        0 <= place < entries.len(),
        entries[place].0@ != key,
    ensures
        kept_under(entries.remove(place), key) == kept_under(entries, key),
    decreases entries.len(),
{
    let rest = entries.remove(place);
    if place == entries.len() - 1 {
        assert(rest =~= entries.drop_last());
    } else {
        assert(rest.last() == entries.last());
        assert(rest.drop_last() =~= entries.drop_last().remove(place));
        lemma_without_entry(entries.drop_last(), place, key);
    }
}

/// What to do next to get the server of a model.
pub enum CacheStep {
    Fail(Failure),
    /// Find the model's directory, and look up what is kept for the model there.
    LookUp,
    /// Find out whether the server that is kept still runs.
    AskRunning,
    Reuse,
    Start,
}

/// Whether a step is the one that follows what is known: a server that is kept and still runs is
/// used again; else one is started.
pub open spec fn is_cache_step(
    step: CacheStep,
    format: ModelFormat,
    kept: Option<bool>,
    running: Option<bool>,
) -> bool {
    if format != ModelFormat::SafeTensors {
        step matches CacheStep::Fail(failure) && failure@ == seq![
            "vLLM backend supports HF safetensors model directories only"@,
        ]
    } else {
        match (kept, running) {
            (None, _) => step is LookUp,
            (Some(false), _) => step is Start,
            (Some(true), None) => step is AskRunning,
            (Some(true), Some(true)) => step is Reuse,
            (Some(true), Some(false)) => step is Start,
        }
    }
}

/// What to do next to get the server of a model. `kept` says whether one is kept for it, once
/// that was looked up, `running` whether that one still runs, once that was asked.
pub fn cached_server(manifest: &ModelManifest, kept: Option<bool>, running: Option<bool>) -> (step:
    CacheStep)
    ensures
        is_cache_step(step, manifest.format, kept, running),
{
    if manifest.format != ModelFormat::SafeTensors {
        return CacheStep::Fail(
            Failure::new("vLLM backend supports HF safetensors model directories only".to_string()),
        );
    }
    match kept {
        None => CacheStep::LookUp,
        Some(there) => {
            if !there {
                return CacheStep::Start;
            }
            match running {
                None => CacheStep::AskRunning,
                Some(runs) => {
                    if runs {
                        CacheStep::Reuse
                    } else {
                        CacheStep::Start
                    }
                },
            }
        },
    }
}

/// Whether a chat with a model can keep a server of its own.
pub fn has_chat_session(manifest: &ModelManifest) -> (r: bool)
    ensures
        r == (manifest.format == ModelFormat::SafeTensors),
{
    manifest.format == ModelFormat::SafeTensors
}

/// A server is started on the model's directory: a Python runs the server's module with it, the
/// program serves it. Either is told to listen on this machine at the port and to give the model
/// its name, and the arguments that are set come last, as they are.
pub proof fn law_server_is_started_on_the_model(
    server: Server,
    model_dir: PathBuf,
    model_name: Seq<char>,
    port: u16,
    extra: Option<Seq<char>>,
)
    requires
        !(server is Remote),
    ensures
        ({
            let args = server_arguments(server, model_dir, model_name, port, extra);
            let at = if server is Python {
                4int
            } else {
                2
            };
            let more = match extra {
                Some(line) => arguments(line),
                None => Seq::empty(),
            };
            &&& server is Python ==> args[0] == "-m"@ && args[1]
                == "vllm.entrypoints.openai.api_server"@ && args[2] == "--model"@
            &&& server is Executable ==> args[0] == "serve"@
            &&& args[at - 1] == path_text(model_dir)
            &&& args[at] == "--host"@ && args[at + 1] == "127.0.0.1"@
            &&& args[at + 2] == "--port"@ && args[at + 3] == decimal(port as nat)
            &&& args[at + 4] == "--served-model-name"@ && args[at + 5] == model_name
            &&& args.skip(at + 6) == more
        }),
{
    let args = server_arguments(server, model_dir, model_name, port, extra);
    let at = if server is Python {
        4int
    } else {
        2
    };
    let more = match extra {
        Some(line) => arguments(line),
        None => Seq::empty(),
    };
    assert(args.skip(at + 6) =~= more);
}

/// What is started is the program that was found, and the server is reached where it listens: one
/// that was started here on this machine at the port that was found, a remote one at its own
/// address. It is asked for the model by the name that it was given.
pub proof fn law_server_is_reached_where_it_listens(
    step: StartStep,
    model_name: Seq<char>,
    model_dir: PathBuf,
    extra: Option<Seq<char>>,
    log: Option<Seq<char>>,
    known: StartAnswers,
)
    requires
        is_start_step(step, model_name, model_dir, extra, log, known),
    ensures
        step matches StartStep::Start { program, args, own_output } ==> {
            let server = known.discovery->0@.server;
            &&& known.discovery is Some
            &&& server == Some(Server::Python(program)) || server == Some(
                Server::Executable(program),
            )
            &&& known.port is Some && known.port->0 is Ok
            &&& views(args@) == server_arguments(
                server->0,
                model_dir,
                model_name,
                known.port->0->Ok_0,
                extra,
            )
        },
        step matches StartStep::Await { note, server } ==> {
            let found = known.discovery->0@.server;
            &&& known.discovery is Some && found is Some
            &&& server@.model_name == model_name
            &&& server@.model_dir == model_dir
            &&& server@.discovery_source == known.discovery->0@.source
            &&& match found->0 {
                Server::Remote(host, port) => server@.url == server_url(host, port)
                    && server@.pid is None && server@.args.len() == 0,
                _ => known.port is Some && known.port->0 is Ok && server@.url == server_url(
                    "127.0.0.1"@,
                    known.port->0->Ok_0,
                ) && known.started is Some && known.started->0 is Ok && server@.pid == Some(
                    known.started->0->Ok_0,
                ),
            }
        },
        step is Discover <==> known.discovery is None,
        step is FindPort ==> known.port is None,
        known.discovery is Some && known.discovery->0@.server is None ==> step is Fail,
        known.discovery is Some && known.discovery->0@.server is Some
            && known.discovery->0@.server->0 is Remote ==> step is Await,
{
}

/// A server is ready just where its process has not ended and it answers one of the two questions
/// with the status 200. One whose process has ended is given up, and so is one that has not
/// answered for more than five minutes; until that time the wait goes on.
pub proof fn law_ready_where_the_server_answers(
    step: WaitStep,
    platform: VllmPlatform,
    url: Seq<char>,
    tail: Seq<Seq<char>>,
    seen: WaitAnswers,
)
    requires
        is_wait_step(step, platform, url, tail, seen),
    ensures
        ({
            let runs = seen.exit is Some && seen.exit->0 is Ok && seen.exit->0->Ok_0 is None;
            let healthy = seen.health == Some(Some(200u16));
            let listed = seen.health is Some && seen.models == Some(Some(200u16));
            &&& step is Ready <==> runs && (healthy || listed)
            &&& seen.exit is Some && !runs ==> step is Fail
            &&& step is Sleep ==> runs && seen.waited_nanos is Some && seen.waited_nanos->0
                <= 300_000_000_000u64
            &&& step is Fail && runs ==> seen.waited_nanos is Some && seen.waited_nanos->0
                > 300_000_000_000u64 && !healthy && !listed
            &&& step is CheckExit <==> seen.exit is None
            &&& step is GetHealth ==> seen.health is None
            &&& step is GetModels ==> seen.models is None && seen.health is Some && !healthy
            &&& step is CheckClock ==> seen.waited_nanos is None && !healthy && !listed
        }),
{
}

/// A server is used again just where one is kept for the model and still runs. One is started just
/// where none is kept or the kept one has stopped. Only models of one format are served at all.
pub proof fn law_running_server_is_used_again(
    step: CacheStep,
    format: ModelFormat,
    kept: Option<bool>,
    running: Option<bool>,
)
    requires
        is_cache_step(step, format, kept, running),
    ensures
        step is Fail <==> format != ModelFormat::SafeTensors,
        step is Reuse <==> format == ModelFormat::SafeTensors && kept == Some(true) && running
            == Some(true),
        step is Start <==> format == ModelFormat::SafeTensors && (kept == Some(false) || (kept
            == Some(true) && running == Some(false))),
        step is LookUp <==> format == ModelFormat::SafeTensors && kept is None,
        step is AskRunning <==> format == ModelFormat::SafeTensors && kept == Some(true)
            && running is None,
{
}

/// Servers of one model in one directory are kept apart by the arguments that are set.
pub proof fn law_arguments_keep_servers_apart(
    id: Seq<char>,
    model_dir: PathBuf,
    first: Seq<char>,
    second: Seq<char>,
)
    ensures
        key_text(id, model_dir, Some(first)) == key_text(id, model_dir, Some(second)) <==> first
            == second,
        key_text(id, model_dir, None) == key_text(id, model_dir, Some(Seq::empty())),
{
    let lead = id + ":"@ + path_text(model_dir) + ":"@;
    let one = key_text(id, model_dir, Some(first));
    let other = key_text(id, model_dir, Some(second));
    assert(one.skip(lead.len() as int) =~= first);
    assert(other.skip(lead.len() as int) =~= second);
}

/// Something is switched on just where its variable is set to one of four words.
pub proof fn law_four_words_switch_on(value: Option<Seq<char>>)
    ensures
        is_true(value) <==> value is Some && seq!["1"@, "true"@, "yes"@, "on"@].contains(value->0),
{
    let all = seq!["1"@, "true"@, "yes"@, "on"@];
    assert(all[0] == "1"@ && all[1] == "true"@ && all[2] == "yes"@ && all[3] == "on"@);
}

} // verus!
