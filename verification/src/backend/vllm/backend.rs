//! What the vLLM backend says of itself.

use super::command::{
    borrowed, found_version, rocm_capability, rocm_confirmed, server_text, vllm_rocm_capability,
    vllm_version_found, PythonCheck, RocmFacts, Server, VersionAnswer, VllmCommand,
};
use super::discovery::{
    concise_vllm_unavailable_reason, discover_vllm, discovery_rejection, is_vllm_search,
    local_vllm_platform_rejection_for_discovery_with_platform, missing_text, missing_vllm_message,
    unavailable_text, Found, VllmAnswers, VllmDiscovery, VllmSearch, VllmSettings,
};
use super::health::{
    eligibility, ensure_vllm_platform_eligible, health_on, text_or, vllm_health_for_platform,
    VllmHealthStatus,
};
use super::platform::{compact, compact_error, VllmPlatform};
use crate::backend::external::probe_view;
use crate::failure::Failure;
use crate::http::url::{http_url, server_url};
use crate::model::ModelStore;
use crate::process::CommandOutcome;
use crate::text::space::optional_text;
use vstd::prelude::*;

verus! {

/// The vLLM backend for the models of a store.
#[derive(Debug, Clone)]
pub struct VllmBackend {
    pub store: ModelStore,
}

/// What a probe of vLLM says: what was found, or why nothing can be used.
pub open spec fn probe_of(
    found: Found,
    platform: VllmPlatform,
    version: Option<Seq<char>>,
) -> Result<Seq<char>, Seq<Seq<char>>> {
    match discovery_rejection(found, platform) {
        Some(reason) => Err(seq![reason]),
        None => match found.server {
            None => Err(seq![missing_text(found.attempts)]),
            Some(server) => match eligibility(server, platform) {
                Some(reason) => Err(seq![reason]),
                None => match server {
                    Server::Remote(host, port) => Ok(
                        "vLLM OpenAI server at "@ + server_url(host, port),
                    ),
                    _ => Ok(
                        "vLLM "@ + server_text(server) + " ("@ + text_or(
                            version,
                            "version unknown"@,
                        ) + ")"@,
                    ),
                },
            },
        },
    }
}

/// What a probe of vLLM on ROCm says.
pub open spec fn rocm_probe_of(
    found: Found,
    platform: VllmPlatform,
    facts: RocmFacts,
) -> Result<Seq<char>, Seq<Seq<char>>> {
    match found.server {
        None => Err(seq![missing_text(found.attempts)]),
        Some(server) => match eligibility(server, platform) {
            Some(reason) => Err(seq![reason]),
            None => match rocm_capability(server, facts) {
                Ok(detail) => Ok("vLLM ROCm ("@ + detail + ")"@),
                Err(message) => Err(seq![message]),
            },
        },
    }
}

/// Why vLLM cannot be used, in short.
pub open spec fn unavailable_reason_of(found: Found, platform: VllmPlatform) -> Seq<char> {
    match discovery_rejection(found, platform) {
        Some(reason) => reason,
        None => if found.server is Some && eligibility(found.server->0, platform) is Some {
            compact(eligibility(found.server->0, platform)->0)
        } else {
            unavailable_text(found.attempts)
        },
    }
}

/// Why vLLM on ROCm cannot be used, in short.
pub open spec fn rocm_unavailable_reason_of(
    found: Found,
    platform: VllmPlatform,
    facts: RocmFacts,
) -> Seq<char> {
    match discovery_rejection(found, platform) {
        Some(reason) => reason,
        None => match found.server {
            None => unavailable_text(found.attempts),
            Some(server) => match eligibility(server, platform) {
                Some(reason) => compact(reason),
                None => match rocm_capability(server, facts) {
                    Err(message) => compact(message),
                    Ok(_) => "vLLM ROCm runtime is unavailable"@,
                },
            },
        },
    }
}

/// What is found when a server is needed: it, or what is said when none is.
pub fn require_vllm(discovery: VllmDiscovery) -> (result: Result<VllmDiscovery, Failure>)
    ensures
        match result {
            Ok(found) => found == discovery && discovery@.server is Some,
            Err(failure) => discovery@.server is None && failure@ == seq![
                missing_text(discovery@.attempts),
            ],
        },
{
    if discovery.command.is_some() {
        Ok(discovery)
    } else {
        Err(Failure::new(missing_vllm_message(&discovery)))
    }
}

impl VllmBackend {
    /// The backend for the models of a store.
    pub fn new(store: ModelStore) -> (backend: VllmBackend)
        ensures
            backend.store == store,
    {
        VllmBackend { store }
    }

    /// Where the search for a server stands: the question to ask next, or what was found.
    pub fn discover(settings: &VllmSettings, asked: &VllmAnswers) -> (search: VllmSearch)
        ensures
            is_vllm_search(search, *settings, *asked),
    {
        discover_vllm(settings, asked)
    }

    /// How what was found is doing on a platform. `answer` is what came of asking it for its
    /// version, which matters where [`super::health::health_asks_version`] says so.
    pub fn health(
        discovery: &VllmDiscovery,
        platform: VllmPlatform,
        answer: Option<&VersionAnswer>,
    ) -> (health: VllmHealthStatus)
        ensures
            health@ == health_on(
                discovery@,
                platform,
                found_version(
                    discovery@.server,
                    match answer {
                        Some(answer) => Some(*answer),
                        None => None,
                    },
                ),
            ),
    {
        let version = vllm_version_found(&discovery.command, answer);
        vllm_health_for_platform(discovery, platform, borrowed(&version))
    }

    /// What a probe of vLLM says. `answer` is what came of asking what was found for its version.
    pub fn probe(
        discovery: &VllmDiscovery,
        platform: VllmPlatform,
        answer: Option<&VersionAnswer>,
    ) -> (result: Result<String, Failure>)
        ensures
            probe_view(result) == probe_of(
                discovery@,
                platform,
                found_version(
                    discovery@.server,
                    match answer {
                        Some(answer) => Some(*answer),
                        None => None,
                    },
                ),
            ),
    {
        match local_vllm_platform_rejection_for_discovery_with_platform(discovery, platform) {
            Some(reason) => {
                return Err(Failure::new(reason.to_string()));
            },
            None => {},
        }
        match &discovery.command {
            None => Err(Failure::new(missing_vllm_message(discovery))),
            Some(command) => {
                match ensure_vllm_platform_eligible(command, platform) {
                    Err(failure) => {
                        return Err(failure);
                    },
                    Ok(_) => {},
                }
                let told = match vllm_version_found(&discovery.command, answer) {
                    Some(version) => version,
                    None => "version unknown".to_string(),
                };
                match command {
                    VllmCommand::Remote { host, port } => Ok(
                        "vLLM OpenAI server at ".to_string().concat(
                            http_url(host.as_str(), *port).as_str(),
                        ),
                    ),
                    _ => Ok(
                        "vLLM ".to_string().concat(command.display().as_str()).concat(" (").concat(
                            told.as_str(),
                        ).concat(")"),
                    ),
                }
            },
        }
    }

    /// What a probe of vLLM on ROCm says.
    pub fn probe_rocm(discovery: &VllmDiscovery, platform: VllmPlatform, facts: &RocmFacts) -> (result:
        Result<String, Failure>)
        ensures
            probe_view(result) == rocm_probe_of(discovery@, platform, *facts),
    {
        match &discovery.command {
            None => Err(Failure::new(missing_vllm_message(discovery))),
            Some(command) => {
                match ensure_vllm_platform_eligible(command, platform) {
                    Err(failure) => {
                        return Err(failure);
                    },
                    Ok(_) => {},
                }
                match vllm_rocm_capability(command, facts) {
                    Ok(detail) => Ok(
                        "vLLM ROCm (".to_string().concat(detail.as_str()).concat(")"),
                    ),
                    Err(failure) => Err(failure),
                }
            },
        }
    }

    /// What is said when vLLM is missing: why it cannot run here, or what was tried.
    pub fn missing_message(discovery: &VllmDiscovery, platform: VllmPlatform) -> (message: String)
        ensures
            message@ == (match discovery_rejection(discovery@, platform) {
                Some(reason) => reason,
                None => missing_text(discovery@.attempts),
            }),
    {
        match local_vllm_platform_rejection_for_discovery_with_platform(discovery, platform) {
            Some(reason) => reason.to_string(),
            None => missing_vllm_message(discovery),
        }
    }

    /// Why vLLM cannot be used, in short.
    pub fn unavailable_reason(discovery: &VllmDiscovery, platform: VllmPlatform) -> (reason: String)
        ensures
            reason@ == unavailable_reason_of(discovery@, platform),
    {
        match local_vllm_platform_rejection_for_discovery_with_platform(discovery, platform) {
            Some(reason) => {
                return reason.to_string();
            },
            None => {},
        }
        match &discovery.command {
            Some(command) => match ensure_vllm_platform_eligible(command, platform) {
                Err(failure) => {
                    return compact_error(failure.message.as_str());
                },
                Ok(_) => {},
            },
            None => {},
        }
        concise_vllm_unavailable_reason(discovery)
    }

    /// Why vLLM on ROCm cannot be used, in short.
    pub fn rocm_unavailable_reason(
        discovery: &VllmDiscovery,
        platform: VllmPlatform,
        facts: &RocmFacts,
    ) -> (reason: String)
        ensures
            reason@ == rocm_unavailable_reason_of(discovery@, platform, *facts),
    {
        match local_vllm_platform_rejection_for_discovery_with_platform(discovery, platform) {
            Some(reason) => {
                return reason.to_string();
            },
            None => {},
        }
        match &discovery.command {
            None => concise_vllm_unavailable_reason(discovery),
            Some(command) => {
                match ensure_vllm_platform_eligible(command, platform) {
                    Err(failure) => {
                        return compact_error(failure.message.as_str());
                    },
                    Ok(_) => {},
                }
                match vllm_rocm_capability(command, facts) {
                    Err(failure) => {
                        proof {
                            assert(failure@[0] == failure.message@);
                        }
                        compact_error(failure.message.as_str())
                    },
                    Ok(_) => "vLLM ROCm runtime is unavailable".to_string(),
                }
            },
        }
    }
}

/// A probe succeeds just where a server was found that can be used here: a remote one, or any on
/// Linux outside WSL. It names the remote server's address, or the local server.
pub proof fn law_probe_succeeds_where_a_server_can_run(
    found: Found,
    platform: VllmPlatform,
    version: Option<Seq<char>>,
)
    ensures
        ({
            let probe = probe_of(found, platform, version);
            let remote = found.server is Some && found.server->0 is Remote;
            &&& probe is Ok <==> remote || (found.server is Some && platform
                == VllmPlatform::NativeLinux)
            &&& probe is Ok && !remote && version is Some ==> probe->Ok_0 == "vLLM "@ + server_text(
                found.server->0,
            ) + " ("@ + version->0 + ")"@
            &&& found.server matches Some(Server::Remote(host, port)) ==> probe->Ok_0
                == "vLLM OpenAI server at "@ + server_url(host, port)
        }),
{
}

/// A probe for ROCm succeeds just where a server was found that can be used here and shows ROCm: a
/// Python by its own PyTorch, a remote server by the environment. A program alone shows nothing.
pub proof fn law_rocm_probe_needs_proof_of_rocm(
    found: Found,
    platform: VllmPlatform,
    facts: RocmFacts,
)
    ensures
        rocm_probe_of(found, platform, facts) is Ok <==> match found.server {
            Some(Server::Python(_)) => platform == VllmPlatform::NativeLinux && (
            facts.python matches PythonCheck::Ran(CommandOutcome::Finished(output))
                && output.success),
            Some(Server::Remote(_, _)) => rocm_confirmed(
                optional_text(facts.accelerator),
                optional_text(facts.rocm),
            ),
            _ => false,
        },
{
}

} // verus!
