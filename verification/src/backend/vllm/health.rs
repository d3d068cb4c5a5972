//! What is to be said of a vLLM server, or of none.

use super::command::{
    borrowed, found_version, vllm_version_found, Server, VersionAnswer, VllmCommand,
};
use super::discovery::{
    concise_vllm_unavailable_reason, discovery_rejection,
    local_vllm_platform_rejection_for_discovery_with_platform, unavailable_text, Found,
    VllmDiscovery,
};
use super::platform::{local_rejection, local_vllm_platform_rejection, VllmPlatform};
use crate::backend::generate::BackendDoctorCheck;
use crate::failure::Failure;
use crate::http::url::{http_url, server_url};
use crate::paths::{path_text, shown_path};
use crate::process::{first_line, first_output_line, CommandOutcome};
use std::path::PathBuf;
use vstd::prelude::*;

verus! {

/// How a vLLM server is doing.
#[derive(Debug, Clone)]
pub struct VllmHealthStatus {
    pub installed_label: &'static str,
    pub health_label: &'static str,
    pub healthy: bool,
    pub detail: String,
}

/// The mathematical model of a [`VllmHealthStatus`].
pub struct Health {
    pub installed_label: Seq<char>,
    pub health_label: Seq<char>,
    pub healthy: bool,
    pub detail: Seq<char>,
}

impl View for VllmHealthStatus {
    type V = Health;

    open spec fn view(&self) -> Health {
        Health {
            installed_label: self.installed_label@,
            health_label: self.health_label@,
            healthy: self.healthy,
            detail: self.detail@,
        }
    }
}

/// How health is called on a platform that rejects vLLM.
pub open spec fn rejected_label(platform: VllmPlatform) -> Seq<char> {
    if platform == VllmPlatform::Wsl {
        "best-effort on WSL"@
    } else {
        "unsupported"@
    }
}

/// How what was found is doing on a platform; `version` is the version of a local server, where
/// it tells one.
pub open spec fn health_on(
    found: Found,
    platform: VllmPlatform,
    version: Option<Seq<char>>,
) -> Health {
    match found.server {
        Some(Server::Remote(host, port)) => Health {
            installed_label: "remote"@,
            health_label: "healthy"@,
            healthy: true,
            detail: "remote OpenAI-compatible vLLM endpoint reachable at "@ + server_url(
                host,
                port,
            ),
        },
        Some(_) => match local_rejection(platform) {
            Some(reason) => Health {
                installed_label: "yes"@,
                health_label: rejected_label(platform),
                healthy: false,
                detail: reason,
            },
            None => Health {
                installed_label: "yes"@,
                health_label: "eligible"@,
                healthy: true,
                detail: match version {
                    Some(version) => version,
                    None => "version unknown"@,
                },
            },
        },
        None => match discovery_rejection(found, platform) {
            Some(reason) => Health {
                installed_label: "no"@,
                health_label: rejected_label(platform),
                healthy: false,
                detail: reason,
            },
            None => Health {
                installed_label: "no"@,
                health_label: "missing"@,
                healthy: false,
                detail: unavailable_text(found.attempts),
            },
        },
    }
}

/// Whether the health of what was found takes in its version.
pub fn health_asks_version(discovery: &VllmDiscovery, platform: VllmPlatform) -> (r: bool)
    ensures
        r == (discovery@.server is Some && !(discovery@.server->0 is Remote) && local_rejection(
            platform,
        ) is None),
{
    match &discovery.command {
        None => false,
        Some(VllmCommand::Remote { .. }) => false,
        Some(_) => local_vllm_platform_rejection(platform).is_none(),
    }
}

/// The version matters to health only where it is asked for.
pub proof fn law_version_matters_only_where_asked(
    found: Found,
    platform: VllmPlatform,
    first: Option<Seq<char>>,
    second: Option<Seq<char>>,
)
    requires
        !(found.server is Some && !(found.server->0 is Remote) && local_rejection(platform) is None),
    ensures
        health_on(found, platform, first) == health_on(found, platform, second),
{
}

fn label_for(platform: VllmPlatform) -> (label: &'static str)
    ensures
        label@ == rejected_label(platform),
{
    if platform == VllmPlatform::Wsl {
        "best-effort on WSL"
    } else {
        "unsupported"
    }
}

/// How what was found is doing on a platform. `version` matters where [`health_asks_version`]
/// says so.
pub fn vllm_health_for_platform(
    discovery: &VllmDiscovery,
    platform: VllmPlatform,
    version: Option<&str>,
) -> (health: VllmHealthStatus)
    ensures
        health@ == health_on(
            discovery@,
            platform,
            match version {
                Some(version) => Some(version@),
                None => None,
            },
        ),
{
    match &discovery.command {
        Some(VllmCommand::Remote { host, port }) => VllmHealthStatus {
            installed_label: "remote",
            health_label: "healthy",
            healthy: true,
            detail: "remote OpenAI-compatible vLLM endpoint reachable at ".to_string().concat(
                http_url(host.as_str(), *port).as_str(),
            ),
        },
        Some(_) => match local_vllm_platform_rejection(platform) {
            Some(reason) => VllmHealthStatus {
                installed_label: "yes",
                health_label: label_for(platform),
                healthy: false,
                detail: reason.to_string(),
            },
            None => VllmHealthStatus {
                installed_label: "yes",
                health_label: "eligible",
                healthy: true,
                detail: match version {
                    Some(version) => version.to_string(),
                    None => "version unknown".to_string(),
                },
            },
        },
        None => match local_vllm_platform_rejection_for_discovery_with_platform(
            discovery,
            platform,
        ) {
            Some(reason) => VllmHealthStatus {
                installed_label: "no",
                health_label: label_for(platform),
                healthy: false,
                detail: reason.to_string(),
            },
            None => VllmHealthStatus {
                installed_label: "no",
                health_label: "missing",
                healthy: false,
                detail: concise_vllm_unavailable_reason(discovery),
            },
        },
    }
}

/// What is healthy was found, and runs remotely or where vLLM can run.
pub proof fn law_healthy_needs_server(
    found: Found,
    platform: VllmPlatform,
    version: Option<Seq<char>>,
)
    ensures
        health_on(found, platform, version).healthy <==> found.server is Some && (
        found.server->0 is Remote || local_rejection(platform) is None),
{
}

/// The mathematical model of a [`BackendDoctorCheck`].
pub struct Check {
    pub name: Seq<char>,
    pub ok: bool,
    pub detail: Seq<char>,
}

impl View for BackendDoctorCheck {
    type V = Check;

    open spec fn view(&self) -> Check {
        Check { name: self.name@, ok: self.ok, detail: self.detail@ }
    }
}

/// The models of a list of checks.
pub open spec fn checks_of(checks: Seq<BackendDoctorCheck>) -> Seq<Check> {
    checks.map_values(|check: BackendDoctorCheck| check@)
}

/// What running a program shows: its first line where it succeeds, else why it matters and what
/// went wrong.
pub open spec fn command_check_of(
    command: Seq<char>,
    detail: Seq<char>,
    outcome: CommandOutcome,
) -> Check {
    match outcome {
        CommandOutcome::Failed(reason) => Check {
            name: command,
            ok: false,
            detail: detail + "; "@ + reason@,
        },
        CommandOutcome::Finished(output) => if output.success {
            Check {
                name: command,
                ok: true,
                detail: match first_line(output.stdout@) {
                    Some(line) => line,
                    None => detail,
                },
            }
        } else {
            Check {
                name: command,
                ok: false,
                detail: detail + "; command exited with "@ + output.status@,
            }
        },
    }
}

/// What running a program shows.
pub fn command_check(command: &str, detail: &str, outcome: &CommandOutcome) -> (check:
    BackendDoctorCheck)
    ensures
        check@ == command_check_of(command@, detail@, *outcome),
{
    match outcome {
        CommandOutcome::Failed(reason) => BackendDoctorCheck {
            name: command.to_string(),
            ok: false,
            detail: detail.to_string().concat("; ").concat(reason.as_str()),
        },
        CommandOutcome::Finished(output) => {
            if output.success {
                let line = match first_output_line(&output.stdout) {
                    Some(line) => line,
                    None => detail.to_string(),
                };
                BackendDoctorCheck { name: command.to_string(), ok: true, detail: line }
            } else {
                BackendDoctorCheck {
                    name: command.to_string(),
                    ok: false,
                    detail: detail.to_string().concat("; command exited with ").concat(
                        output.status.as_str(),
                    ),
                }
            }
        },
    }
}

/// How the checks show the place of the Python.
pub open spec fn python_place(found: Found, managed_python: PathBuf) -> Seq<char> {
    match found.server {
        Some(Server::Python(path)) => path_text(path),
        Some(Server::Executable(path)) => "using executable "@ + path_text(path),
        Some(Server::Remote(host, port)) => "using remote "@ + server_url(host, port),
        None => "managed path "@ + path_text(managed_python),
    }
}

/// A text, or another where there is none.
pub open spec fn text_or(text: Option<Seq<char>>, other: Seq<char>) -> Seq<char> {
    match text {
        Some(text) => text,
        None => other,
    }
}

/// What is looked at to find out whether vLLM works.
pub open spec fn doctor_checks(
    managed_python: PathBuf,
    found: Found,
    health: Health,
    version: Option<Seq<char>>,
    nvidia_smi: CommandOutcome,
) -> Seq<Check> {
    seq![
        Check { name: "vLLM discovery"@, ok: found.server is Some, detail: found.source },
        Check {
            name: "vLLM Python path"@,
            ok: found.server is Some && found.server->0 is Python,
            detail: python_place(found, managed_python),
        },
        Check {
            name: "vLLM installed"@,
            ok: found.server is Some,
            detail: text_or(version, "not installed"@),
        },
        Check {
            name: "vLLM health"@,
            ok: health.healthy,
            detail: health.health_label + ": "@ + health.detail,
        },
        command_check_of(
            "nvidia-smi"@,
            "required to verify CUDA visibility for vLLM"@,
            nvidia_smi,
        ),
        Check {
            name: "vLLM version"@,
            ok: found.server is Some,
            detail: text_or(version, "unknown"@),
        },
    ]
}

/// The program that is run, without arguments, to see whether CUDA is there.
pub fn doctor_program() -> (program: &'static str)
    ensures
        program@ == "nvidia-smi"@,
{
    "nvidia-smi"
}

/// What is looked at to find out whether vLLM works. `answer` is what came of asking the server
/// that was found for its version, `nvidia_smi` what came of running [`doctor_program`].
pub fn vllm_doctor_checks(
    managed_python: &PathBuf,
    discovery: &VllmDiscovery,
    platform: VllmPlatform,
    answer: Option<&VersionAnswer>,
    nvidia_smi: &CommandOutcome,
) -> (checks: Vec<BackendDoctorCheck>)
    ensures
        ({
            let version = found_version(
                discovery@.server,
                match answer {
                    Some(answer) => Some(*answer),
                    None => None,
                },
            );
            checks_of(checks@) == doctor_checks(
                *managed_python,
                discovery@,
                health_on(discovery@, platform, version),
                version,
                *nvidia_smi,
            )
        }),
{
    let version = vllm_version_found(&discovery.command, answer);
    let health = vllm_health_for_platform(discovery, platform, borrowed(&version));
    doctor_checks_from(managed_python, discovery, &health, borrowed(&version), nvidia_smi)
}

fn doctor_checks_from(
    managed_python: &PathBuf,
    discovery: &VllmDiscovery,
    health: &VllmHealthStatus,
    version: Option<&str>,
    nvidia_smi: &CommandOutcome,
) -> (checks: Vec<BackendDoctorCheck>)
    ensures
        checks_of(checks@) == doctor_checks(
            *managed_python,
            discovery@,
            health@,
            match version {
                Some(version) => Some(version@),
                None => None,
            },
            *nvidia_smi,
        ),
{
    let found = discovery.command.is_some();
    let (is_python, place) = match &discovery.command {
        Some(VllmCommand::Python(path)) => (true, shown_path(path)),
        Some(VllmCommand::Executable(path)) => (
            false,
            "using executable ".to_string().concat(shown_path(path).as_str()),
        ),
        Some(VllmCommand::Remote { host, port }) => (
            false,
            "using remote ".to_string().concat(http_url(host.as_str(), *port).as_str()),
        ),
        None => (
            false,
            "managed path ".to_string().concat(shown_path(managed_python).as_str()),
        ),
    };
    let installed = match version {
        Some(version) => version.to_string(),
        None => "not installed".to_string(),
    };
    let known = match version {
        Some(version) => version.to_string(),
        None => "unknown".to_string(),
    };
    let checks: Vec<BackendDoctorCheck> = vec![
        BackendDoctorCheck {
            name: "vLLM discovery".to_string(),
            ok: found,
            detail: discovery.source.clone(),
        },
        BackendDoctorCheck {
            name: "vLLM Python path".to_string(),
            ok: is_python,
            detail: place,
        },
        BackendDoctorCheck {
            name: "vLLM installed".to_string(),
            ok: found,
            detail: installed,
        },
        BackendDoctorCheck {
            name: "vLLM health".to_string(),
            ok: health.healthy,
            detail: health.health_label.to_string().concat(": ").concat(health.detail.as_str()),
        },
        command_check(doctor_program(), "required to verify CUDA visibility for vLLM", nvidia_smi),
        BackendDoctorCheck { name: "vLLM version".to_string(), ok: found, detail: known },
    ];
    proof {
        assert(checks_of(checks@) =~= doctor_checks(
            *managed_python,
            discovery@,
            health@,
            match version {
                Some(version) => Some(version@),
                None => None,
            },
            *nvidia_smi,
        ));
    }
    checks
}

/// Why a server cannot be used on a platform: a remote one can be used everywhere.
pub open spec fn eligibility(server: Server, platform: VllmPlatform) -> Option<Seq<char>> {
    if server is Remote {
        None
    } else {
        local_rejection(platform)
    }
}

/// Whether a server can be used on a platform.
pub fn ensure_vllm_platform_eligible(command: &VllmCommand, platform: VllmPlatform) -> (result:
    Result<(), Failure>)
    ensures
        match result {
            Ok(_) => eligibility(command@, platform) is None,
            Err(failure) => eligibility(command@, platform) is Some && failure@ == seq![
                eligibility(command@, platform)->0,
            ] && failure.message@ == eligibility(command@, platform)->0,
        },
{
    match command {
        VllmCommand::Remote { .. } => {
            return Ok(());
        },
        _ => {},
    }
    match local_vllm_platform_rejection(platform) {
        Some(reason) => Err(Failure::new(reason.to_string())),
        None => Ok(()),
    }
}

/// Health tells what was found: a remote server by its address, a local one that can run here by
/// its version, one that cannot by the reason, and nothing by what was tried.
pub proof fn law_health_tells_what_was_found(
    found: Found,
    platform: VllmPlatform,
    version: Option<Seq<char>>,
)
    ensures
        ({
            let health = health_on(found, platform, version);
            let remote = found.server is Some && found.server->0 is Remote;
            let local = found.server is Some && !(found.server->0 is Remote);
            let runs = platform == VllmPlatform::NativeLinux;
            &&& found.server is None <==> health.installed_label == "no"@
            &&& local <==> health.installed_label == "yes"@
            &&& remote <==> health.installed_label == "remote"@
            &&& health.healthy <==> remote || local && runs
            &&& local && runs && version is Some ==> health.detail == version->0
            &&& local && runs && version is None ==> health.detail == "version unknown"@
            &&& local && !runs ==> Some(health.detail) == local_rejection(platform)
        }),
{
    reveal_strlit("no");
    reveal_strlit("yes");
    reveal_strlit("remote");
    assert("no"@.len() == 2 && "yes"@.len() == 3 && "remote"@.len() == 6);
}

/// The checks tell what was found, and pass just where it was: the search and the version where
/// there is a server, the Python where the server is one, health where it is healthy, and the
/// program where it ran and succeeded.
pub proof fn law_checks_pass_where_things_work(
    managed_python: PathBuf,
    found: Found,
    health: Health,
    version: Option<Seq<char>>,
    nvidia_smi: CommandOutcome,
)
    ensures
        ({
            let checks = doctor_checks(managed_python, found, health, version, nvidia_smi);
            &&& checks.len() == 6
            &&& checks[0].ok == (found.server is Some)
            &&& checks[0].detail == found.source
            &&& checks[1].ok == (found.server is Some && found.server->0 is Python)
            &&& checks[2].ok == (found.server is Some)
            &&& checks[3].ok == health.healthy
            &&& checks[4].ok == (nvidia_smi is Finished && nvidia_smi->Finished_0.success)
            &&& checks[5].ok == (found.server is Some)
            &&& version is Some ==> checks[2].detail == version->0 && checks[5].detail == version->0
        }),
{
}

} // verus!
