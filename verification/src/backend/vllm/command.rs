//! How a vLLM server is reached or started.

use crate::failure::Failure;
use crate::http::url::{http_url, server_url};
use crate::paths::{path_from, path_text, shown_path};
use crate::process::{
    command_failure_detail, command_succeeded, first_line, first_output_line, output_detail,
    output_text, shown_output, succeeded, CommandOutcome,
};
use crate::text::ascii::{lower, same_ignoring_case, to_lower};
use crate::text::chars::same_text;
use crate::text::space::{optional_text, trim, trimmed, views};
use std::path::PathBuf;
use vstd::prelude::*;

verus! {

/// A vLLM server, or a program that starts one.
#[derive(Debug, Clone)]
pub enum VllmCommand {
    Python(PathBuf),
    Executable(PathBuf),
    Remote { host: String, port: u16 },
}

/// The mathematical model of a [`VllmCommand`].
pub enum Server {
    Python(PathBuf),
    Executable(PathBuf),
    Remote(Seq<char>, u16),
}

impl View for VllmCommand {
    type V = Server;

    open spec fn view(&self) -> Server {
        match self {
            VllmCommand::Python(path) => Server::Python(*path),
            VllmCommand::Executable(path) => Server::Executable(*path),
            VllmCommand::Remote { host, port } => Server::Remote(host@, *port),
        }
    }
}

/// How messages show a server.
pub open spec fn server_text(server: Server) -> Seq<char> {
    match server {
        Server::Python(path) => path_text(path) + " -m vllm.entrypoints.openai.api_server"@,
        Server::Executable(path) => path_text(path),
        Server::Remote(host, port) => server_url(host, port),
    }
}

impl VllmCommand {
    /// The program that starts the server; an empty path where the server is remote.
    pub fn executable(&self) -> (path: PathBuf)
        ensures
            match self@ {
                Server::Python(program) => path == program,
                Server::Executable(program) => path == program,
                Server::Remote(_, _) => path_text(path).len() == 0,
            },
    {
        match self {
            VllmCommand::Python(path) => path.clone(),
            VllmCommand::Executable(path) => path.clone(),
            VllmCommand::Remote { .. } => {
                proof {
                    reveal_strlit("");
                }
                path_from("")
            },
        }
    }

    /// How messages show the server.
    pub fn display(&self) -> (text: String)
        ensures
            text@ == server_text(self@),
    {
        match self {
            VllmCommand::Python(path) => shown_path(path).concat(
                " -m vllm.entrypoints.openai.api_server",
            ),
            VllmCommand::Executable(path) => shown_path(path),
            VllmCommand::Remote { host, port } => http_url(host.as_str(), *port),
        }
    }

    /// The same server.
    pub fn copied(&self) -> (copy: VllmCommand)
        ensures
            copy@ == self@,
    {
        match self {
            VllmCommand::Python(path) => VllmCommand::Python(path.clone()),
            VllmCommand::Executable(path) => VllmCommand::Executable(path.clone()),
            VllmCommand::Remote { host, port } => VllmCommand::Remote {
                host: host.clone(),
                port: *port,
            },
        }
    }
}

/// What came of trying a Python.
#[derive(Debug, Clone)]
pub enum PythonCheck {
    /// No file is at its path.
    Missing,
    /// It was run, with this outcome.
    Ran(CommandOutcome),
}

/// What a Python that was run to see whether it can import something has shown. `cannot` is said
/// of one that cannot, `can` of one that can.
pub open spec fn python_status(
    check: PythonCheck,
    can: Seq<char>,
    cannot: Seq<char>,
) -> (bool, Seq<char>) {
    match check {
        PythonCheck::Missing => (false, "Python path does not exist"@),
        PythonCheck::Ran(CommandOutcome::Failed(reason)) => (
            false,
            "failed to run Python: "@ + reason@,
        ),
        PythonCheck::Ran(CommandOutcome::Finished(output)) => if output.success {
            (true, can)
        } else {
            (false, cannot + ": "@ + output_detail(output))
        },
    }
}

/// The output of a Python that ran.
pub open spec fn python_output(check: PythonCheck) -> Seq<char> {
    match check {
        PythonCheck::Ran(CommandOutcome::Finished(output)) => output_text(output.stdout@),
        _ => Seq::empty(),
    }
}

/// Whether a Python can serve vLLM, and what is to be said of it.
pub open spec fn vllm_status(check: PythonCheck) -> (bool, Seq<char>) {
    python_status(
        check,
        "vLLM OpenAI server import ok"@,
        "Python cannot import vLLM OpenAI server"@,
    )
}

/// Whether a Python has PyTorch for ROCm, and what is to be said of it.
pub open spec fn rocm_status(check: PythonCheck) -> (bool, Seq<char>) {
    python_status(
        check,
        "PyTorch ROCm/HIP runtime detected ("@ + python_output(check) + ")"@,
        "Python does not expose a ROCm/HIP PyTorch stack"@,
    )
}

fn read_python_status(check: &PythonCheck, can: String, cannot: &str) -> (status: (bool, String))
    ensures
        (status.0, status.1@) == python_status(*check, can@, cannot@),
{
    match check {
        PythonCheck::Missing => (false, "Python path does not exist".to_string()),
        PythonCheck::Ran(CommandOutcome::Failed(reason)) => (
            false,
            "failed to run Python: ".to_string().concat(reason.as_str()),
        ),
        PythonCheck::Ran(CommandOutcome::Finished(output)) => {
            if output.success {
                (true, can)
            } else {
                (false, command_failure_detail(cannot, output))
            }
        },
    }
}

/// The arguments by which a Python shows that it can serve vLLM.
pub fn vllm_import_args() -> (args: Vec<String>)
    ensures
        views(args@) == seq![
            "-c"@,
            "import vllm; import vllm.entrypoints.openai.api_server"@,
        ],
{
    let args: Vec<String> = vec![
        "-c".to_string(),
        "import vllm; import vllm.entrypoints.openai.api_server".to_string(),
    ];
    proof {
        assert(views(args@) =~= seq![
            "-c"@,
            "import vllm; import vllm.entrypoints.openai.api_server"@,
        ]);
    }
    args
}

/// The arguments by which a Python shows that it has PyTorch for ROCm.
pub fn rocm_import_args() -> (args: Vec<String>)
    ensures
        views(args@) == seq![
            "-c"@,
            "import torch; hip = getattr(torch.version, 'hip', None); assert hip, 'torch.version.hip is not set'; print(hip)"@,
        ],
{
    let args: Vec<String> = vec![
        "-c".to_string(),
        "import torch; hip = getattr(torch.version, 'hip', None); assert hip, 'torch.version.hip is not set'; print(hip)".to_string(),
    ];
    proof {
        assert(views(args@) =~= seq![
            "-c"@,
            "import torch; hip = getattr(torch.version, 'hip', None); assert hip, 'torch.version.hip is not set'; print(hip)"@,
        ]);
    }
    args
}

/// The arguments by which a Python asks the server's module for help.
pub fn server_help_args() -> (args: Vec<String>)
    ensures
        views(args@) == seq![
            "-m"@,
            "vllm.entrypoints.openai.api_server"@,
            "--help"@,
        ],
{
    let args: Vec<String> = vec![
        "-m".to_string(),
        "vllm.entrypoints.openai.api_server".to_string(),
        "--help".to_string(),
    ];
    proof {
        assert(views(args@) =~= seq![
            "-m"@,
            "vllm.entrypoints.openai.api_server"@,
            "--help"@,
        ]);
    }
    args
}

/// The arguments by which vLLM's program is asked for help on serving.
pub fn serve_help_args() -> (args: Vec<String>)
    ensures
        views(args@) == seq![
            "serve"@,
            "--help"@,
        ],
{
    let args: Vec<String> = vec![
        "serve".to_string(),
        "--help".to_string(),
    ];
    proof {
        assert(views(args@) =~= seq![
            "serve"@,
            "--help"@,
        ]);
    }
    args
}

/// Where a server tells its models.
pub fn models_path() -> (path: &'static str)
    ensures
        path@ == "/v1/models"@,
{
    "/v1/models"
}

/// Where a server tells its health.
pub fn health_path() -> (path: &'static str)
    ensures
        path@ == "/health"@,
{
    "/health"
}

/// Where a server completes chats.
pub fn completions_path() -> (path: &'static str)
    ensures
        path@ == "/v1/chat/completions"@,
{
    "/v1/chat/completions"
}

/// Whether a Python can serve vLLM, and what is to be said of it. It is run with
/// [`vllm_import_args`].
pub fn python_vllm_status(check: &PythonCheck) -> (status: (bool, String))
    ensures
        (status.0, status.1@) == vllm_status(*check),
{
    read_python_status(
        check,
        "vLLM OpenAI server import ok".to_string(),
        "Python cannot import vLLM OpenAI server",
    )
}

/// Whether a Python has PyTorch for ROCm, and what is to be said of it. It is run with
/// [`rocm_import_args`].
pub fn python_rocm_status(check: &PythonCheck) -> (status: (bool, String))
    ensures
        (status.0, status.1@) == rocm_status(*check),
{
    let shown = match check {
        PythonCheck::Ran(CommandOutcome::Finished(output)) => shown_output(&output.stdout),
        _ => String::new(),
    };
    read_python_status(
        check,
        "PyTorch ROCm/HIP runtime detected (".to_string().concat(shown.as_str()).concat(")"),
        "Python does not expose a ROCm/HIP PyTorch stack",
    )
}

/// Whether a program serves vLLM: it gives help on serving when asked with [`serve_help_args`].
pub fn executable_supports_vllm(help: &CommandOutcome) -> (r: bool)
    ensures
        r == succeeded(*help),
{
    command_succeeded(help)
}

/// Whether a remote server answers: one of the two questions got the status 200.
pub open spec fn answers(models: Option<u16>, health: Option<u16>) -> bool {
    models == Some(200u16) || health == Some(200u16)
}

/// Whether a remote server answers, by the statuses with which it answers questions for its models
/// and its health.
pub fn remote_supports_vllm(models: Option<u16>, health: Option<u16>) -> (r: bool)
    ensures
        r == answers(models, health),
{
    let by_models = match models {
        Some(status) => status == 200,
        None => false,
    };
    let by_health = match health {
        Some(status) => status == 200,
        None => false,
    };
    by_models || by_health
}

/// Whether the environment says that a remote server runs on ROCm.
pub open spec fn rocm_confirmed(accelerator: Option<Seq<char>>, rocm: Option<Seq<char>>) -> bool {
    ||| accelerator is Some && (lower(accelerator->0) == lower("rocm"@) || lower(accelerator->0)
        == lower("hip"@))
    ||| rocm is Some && (lower(rocm->0) == "1"@ || lower(rocm->0) == "true"@ || lower(rocm->0)
        == "yes"@ || lower(rocm->0) == "on"@ || lower(rocm->0) == "rocm"@ || lower(rocm->0)
        == "hip"@)
}

/// Whether the environment says that a remote server runs on ROCm; `accelerator` and `rocm` are
/// the values of `WERK_VLLM_ACCELERATOR` and `WERK_VLLM_ROCM`.
pub fn remote_rocm_explicitly_confirmed(accelerator: Option<&str>, rocm: Option<&str>) -> (r: bool)
    ensures
        r == rocm_confirmed(
            match accelerator {
                Some(value) => Some(value@),
                None => None,
            },
            match rocm {
                Some(value) => Some(value@),
                None => None,
            },
        ),
{
    let by_accelerator = match accelerator {
        Some(value) => same_ignoring_case(value, "rocm") || same_ignoring_case(value, "hip"),
        None => false,
    };
    let by_flag = match rocm {
        Some(value) => {
            let lowered = to_lower(value);
            let text = lowered.as_str();
            same_text(text, "1") || same_text(text, "true") || same_text(text, "yes") || same_text(
                text,
                "on",
            ) || same_text(text, "rocm") || same_text(text, "hip")
        },
        None => false,
    };
    by_accelerator || by_flag
}

/// A borrow of a text.
pub(crate) fn borrowed(text: &Option<String>) -> (borrow: Option<&str>)
    ensures
        match borrow {
            Some(borrow) => optional_text(*text) == Some(borrow@),
            None => *text is None,
        },
{
    match text {
        Some(text) => Some(text.as_str()),
        None => None,
    }
}

/// What is known of a server's accelerator.
#[derive(Debug, Clone)]
pub struct RocmFacts {
    /// What came of asking a Python for its PyTorch, where the server is a Python.
    pub python: PythonCheck,
    /// The value of `WERK_VLLM_ACCELERATOR`.
    pub accelerator: Option<String>,
    /// The value of `WERK_VLLM_ROCM`.
    pub rocm: Option<String>,
}

/// What shows that a server runs on ROCm, or why nothing shows it.
pub open spec fn rocm_capability(server: Server, facts: RocmFacts) -> Result<
    Seq<char>,
    Seq<char>,
> {
    match server {
        Server::Python(_) => {
            let status = rocm_status(facts.python);
            if status.0 {
                Ok(status.1)
            } else {
                Err(
                    "vLLM is installed, but the Python environment is not ROCm-capable: "@
                        + status.1
                        + ". Install vLLM with a ROCm/HIP PyTorch build or use --backend cuda/auto."@,
                )
            }
        },
        Server::Remote(host, port) => if rocm_confirmed(
            optional_text(facts.accelerator),
            optional_text(facts.rocm),
        ) {
            Ok(
                "remote vLLM endpoint at "@ + server_url(host, port)
                    + " marked ROCm-capable by environment"@,
            )
        } else {
            Err(
                "remote vLLM endpoint is reachable at "@ + server_url(host, port)
                    + ", but ROCm capability cannot be inferred. Set WERK_VLLM_ACCELERATOR=rocm or WERK_VLLM_ROCM=1 for an explicitly ROCm-backed remote server."@,
            )
        },
        Server::Executable(path) => Err(
            "vLLM executable "@ + path_text(path)
                + " is installed, but ROCm capability cannot be verified from the executable. Set WERK_VLLM_PYTHON to a Python environment where torch.version.hip is set, or use a remote endpoint with WERK_VLLM_ACCELERATOR=rocm."@,
        ),
    }
}

/// What shows that a server runs on ROCm, or why nothing shows it.
pub fn vllm_rocm_capability(command: &VllmCommand, facts: &RocmFacts) -> (result: Result<
    String,
    Failure,
>)
    ensures
        match result {
            Ok(detail) => rocm_capability(command@, *facts) == Ok::<Seq<char>, Seq<char>>(detail@),
            Err(failure) => {
                let expected = rocm_capability(command@, *facts);
                expected is Err && failure@ == seq![expected->Err_0]
            },
        },
{
    match command {
        VllmCommand::Python(_) => {
            let (usable, detail) = python_rocm_status(&facts.python);
            if usable {
                Ok(detail)
            } else {
                let message =
                    "vLLM is installed, but the Python environment is not ROCm-capable: ".to_string().concat(
                detail.as_str()).concat(
                    ". Install vLLM with a ROCm/HIP PyTorch build or use --backend cuda/auto.",
                );
                Err(Failure::new(message))
            }
        },
        VllmCommand::Remote { host, port } => {
            let url = http_url(host.as_str(), *port);
            if remote_rocm_explicitly_confirmed(
                borrowed(&facts.accelerator),
                borrowed(&facts.rocm),
            ) {
                Ok(
                    "remote vLLM endpoint at ".to_string().concat(url.as_str()).concat(
                        " marked ROCm-capable by environment",
                    ),
                )
            } else {
                let message = "remote vLLM endpoint is reachable at ".to_string().concat(
                    url.as_str(),
                ).concat(
                    ", but ROCm capability cannot be inferred. Set WERK_VLLM_ACCELERATOR=rocm or WERK_VLLM_ROCM=1 for an explicitly ROCm-backed remote server.",
                );
                Err(Failure::new(message))
            }
        },
        VllmCommand::Executable(path) => {
            let message = "vLLM executable ".to_string().concat(shown_path(path).as_str()).concat(
                " is installed, but ROCm capability cannot be verified from the executable. Set WERK_VLLM_PYTHON to a Python environment where torch.version.hip is set, or use a remote endpoint with WERK_VLLM_ACCELERATOR=rocm.",
            );
            Err(Failure::new(message))
        },
    }
}

/// What came of asking a server for its version.
#[derive(Debug, Clone)]
pub enum VersionAnswer {
    /// The outcome of the program that was run.
    Ran(CommandOutcome),
    /// The status that a remote server answered with.
    Status(Option<u16>),
}

/// The program that is run to ask a server for its version, and its arguments; a remote server is
/// asked for its models instead, at [`models_path`].
pub fn version_command(command: &VllmCommand) -> (program: Option<(PathBuf, Vec<String>)>)
    ensures
        match command@ {
            Server::Python(path) => program is Some && (program->0).0 == path
                && views((program->0).1@) == seq![
                "-c"@,
                "import vllm; print(getattr(vllm, '__version__', 'unknown'))"@,
            ],
            Server::Executable(path) => program is Some && (program->0).0 == path
                && views((program->0).1@) == seq!["--version"@],
            Server::Remote(_, _) => program is None,
        },
{
    let mut args: Vec<String> = Vec::new();
    match command {
        VllmCommand::Python(path) => {
            args.push("-c".to_string());
            args.push("import vllm; print(getattr(vllm, '__version__', 'unknown'))".to_string());
            proof {
                assert(views(args@) =~= seq![
                    "-c"@,
                    "import vllm; print(getattr(vllm, '__version__', 'unknown'))"@,
                ]);
            }
            Some((path.clone(), args))
        },
        VllmCommand::Executable(path) => {
            args.push("--version".to_string());
            proof {
                assert(views(args@) =~= seq!["--version"@]);
            }
            Some((path.clone(), args))
        },
        VllmCommand::Remote { .. } => None,
    }
}

/// The version of a server, where its answer tells one.
pub open spec fn server_version(server: Server, answer: VersionAnswer) -> Option<Seq<char>> {
    match (server, answer) {
        (
            Server::Python(_),
            VersionAnswer::Ran(CommandOutcome::Finished(output)),
        ) => if output.success {
            Some(output_text(output.stdout@))
        } else {
            None
        },
        (
            Server::Executable(_),
            VersionAnswer::Ran(CommandOutcome::Finished(output)),
        ) => if output.success {
            Some(
                trim(
                    match first_line(output.stdout@) {
                        Some(line) => line,
                        None => "unknown"@,
                    },
                ),
            )
        } else {
            None
        },
        (Server::Remote(_, _), VersionAnswer::Status(Some(200))) => Some(
            "remote server reachable"@,
        ),
        _ => None,
    }
}

/// The version of a server, where its answer tells one.
pub fn vllm_version(command: &VllmCommand, answer: &VersionAnswer) -> (version: Option<String>)
    ensures
        match version {
            Some(version) => server_version(command@, *answer) == Some(version@),
            None => server_version(command@, *answer) is None,
        },
{
    match (command, answer) {
        (VllmCommand::Python(_), VersionAnswer::Ran(CommandOutcome::Finished(output))) => {
            if output.success {
                Some(shown_output(&output.stdout))
            } else {
                None
            }
        },
        (VllmCommand::Executable(_), VersionAnswer::Ran(CommandOutcome::Finished(output))) => {
            if output.success {
                let line = match first_output_line(&output.stdout) {
                    Some(line) => line,
                    None => "unknown".to_string(),
                };
                Some(trimmed(line.as_str()))
            } else {
                None
            }
        },
        (VllmCommand::Remote { .. }, VersionAnswer::Status(Some(status))) => {
            if *status == 200 {
                Some("remote server reachable".to_string())
            } else {
                None
            }
        },
        _ => None,
    }
}

/// The version of the server that was found, where one was, it was asked, and its answer tells one.
pub open spec fn found_version(server: Option<Server>, answer: Option<VersionAnswer>) -> Option<
    Seq<char>,
> {
    match (server, answer) {
        (Some(server), Some(answer)) => server_version(server, answer),
        _ => None,
    }
}

/// The version of the server that was found, where one was, it was asked, and its answer tells one.
pub fn vllm_version_found(command: &Option<VllmCommand>, answer: Option<&VersionAnswer>) -> (version:
    Option<String>)
    ensures
        optional_text(version) == found_version(
            match command {
                Some(command) => Some(command@),
                None => None,
            },
            match answer {
                Some(answer) => Some(*answer),
                None => None,
            },
        ),
{
    match (command, answer) {
        (Some(command), Some(answer)) => vllm_version(command, answer),
        _ => None,
    }
}

/// What came of starting the server's module to see whether it starts: nothing to object to, or
/// what is wrong.
pub open spec fn validation_failure(
    python: PathBuf,
    import: PythonCheck,
    help: Option<CommandOutcome>,
) -> Option<Seq<Seq<char>>> {
    if !vllm_status(import).0 {
        Some(
            seq![
                "vLLM installation validation failed for "@ + path_text(python) + ": "@
                    + vllm_status(import).1,
            ],
        )
    } else {
        match help {
            Some(CommandOutcome::Failed(reason)) => Some(
                seq![
                    "failed to validate vLLM OpenAI server entrypoint with "@ + path_text(python),
                    reason@,
                ],
            ),
            Some(CommandOutcome::Finished(output)) => if output.success {
                None
            } else {
                Some(
                    seq![
                        "vLLM OpenAI server entrypoint validation failed for "@ + path_text(python)
                            + ": "@ + "server module did not start"@ + ": "@ + output_detail(output),
                    ],
                )
            },
            None => None,
        }
    }
}

/// What to do next to see whether a Python serves vLLM.
pub enum ValidationStep {
    Fail(Failure),
    /// Ask the server's module for help, with [`server_help_args`].
    RunHelp,
    Done,
}

/// What to do next to see whether a Python serves vLLM; `help` is what came of asking the
/// server's module for help, once that was done.
pub fn validate_vllm_python(
    python: &PathBuf,
    import: &PythonCheck,
    help: Option<&CommandOutcome>,
) -> (step: ValidationStep)
    ensures
        ({
            let help_outcome = match help {
                Some(outcome) => Some(*outcome),
                None => None,
            };
            match validation_failure(*python, *import, help_outcome) {
                Some(messages) => step matches ValidationStep::Fail(failure) && failure@
                    == messages,
                None => if help is None {
                    step is RunHelp
                } else {
                    step is Done
                },
            }
        }),
{
    let (usable, detail) = python_vllm_status(import);
    if !usable {
        let message = "vLLM installation validation failed for ".to_string().concat(
            shown_path(python).as_str(),
        ).concat(": ").concat(detail.as_str());
        return ValidationStep::Fail(Failure::new(message));
    }
    match help {
        None => ValidationStep::RunHelp,
        Some(CommandOutcome::Failed(reason)) => {
            let message =
                "failed to validate vLLM OpenAI server entrypoint with ".to_string().concat(
            shown_path(python).as_str());
            ValidationStep::Fail(Failure::because(message, reason.clone()))
        },
        Some(CommandOutcome::Finished(output)) => {
            if output.success {
                ValidationStep::Done
            } else {
                let why = command_failure_detail("server module did not start", output);
                let message =
                    "vLLM OpenAI server entrypoint validation failed for ".to_string().concat(
                shown_path(python).as_str()).concat(": ").concat(why.as_str());
                proof {
                    let lead = "vLLM OpenAI server entrypoint validation failed for "@ + path_text(
                        *python,
                    ) + ": "@;
                    let middle = "server module did not start"@;
                    assert(lead + (middle + ": "@ + output_detail(*output)) =~= lead + middle
                        + ": "@ + output_detail(*output));
                }
                ValidationStep::Fail(Failure::new(message))
            }
        },
    }
}

/// A Python serves vLLM just where it was run and succeeded, a remote server just where one of its
/// answers has the status 200.
pub proof fn law_what_answers_can_serve(
    check: PythonCheck,
    models: Option<u16>,
    health: Option<u16>,
)
    ensures
        vllm_status(check).0 <==> (check matches PythonCheck::Ran(CommandOutcome::Finished(output))
            && output.success),
        rocm_status(check).0 <==> (check matches PythonCheck::Ran(CommandOutcome::Finished(output))
            && output.success),
        answers(models, health) <==> (models is Some && models->0 == 200) || (health is Some
            && health->0 == 200),
{
}

/// A version is told only by an answer of the right kind that succeeded.
pub proof fn law_version_needs_an_answer(server: Server, answer: VersionAnswer)
    ensures
        server_version(server, answer) is Some <==> if server is Remote {
            answer == VersionAnswer::Status(Some(200u16))
        } else {
            answer matches VersionAnswer::Ran(CommandOutcome::Finished(output)) && output.success
        },
        server matches Server::Python(_) ==> (answer matches VersionAnswer::Ran(
            CommandOutcome::Finished(output),
        ) ==> (output.success ==> server_version(server, answer) == Some(
            output_text(output.stdout@),
        ))),
{
}

/// The environment says that a remote server runs on ROCm just where one of its two variables
/// names ROCm or HIP, in any letter case, or the second is switched on.
pub proof fn law_environment_confirms_rocm(accelerator: Option<Seq<char>>, rocm: Option<Seq<char>>)
    ensures
        rocm_confirmed(accelerator, rocm) <==> (accelerator is Some && seq!["rocm"@, "hip"@].contains(
            lower(accelerator->0),
        )) || (rocm is Some && seq!["1"@, "true"@, "yes"@, "on"@, "rocm"@, "hip"@].contains(
            lower(rocm->0),
        )),
{
    reveal_strlit("rocm");
    reveal_strlit("hip");
    assert(lower("rocm"@) =~= "rocm"@);
    assert(lower("hip"@) =~= "hip"@);
    let names = seq!["rocm"@, "hip"@];
    assert(names[0] == "rocm"@ && names[1] == "hip"@);
    let words = seq!["1"@, "true"@, "yes"@, "on"@, "rocm"@, "hip"@];
    assert(words[0] == "1"@ && words[1] == "true"@ && words[2] == "yes"@ && words[3] == "on"@);
    assert(words[4] == "rocm"@ && words[5] == "hip"@);
}

} // verus!
