use std::path::PathBuf;
use werk1112::backend::burn::BurnMode;
use werk1112::backend::external::{LlamaCppBackend, MlxBackend};
use werk1112::backend::generate::{GenerateRequest, SamplingNumber, StreamGranularity};
use werk1112::backend::onnxruntime::OnnxRuntimeMode;
use werk1112::backend::vllm::backend::{require_vllm, VllmBackend};
use werk1112::backend::vllm::command::{
    completions_path, health_path, models_path, python_rocm_status, python_vllm_status,
    remote_rocm_explicitly_confirmed, rocm_import_args, serve_help_args, server_help_args,
    validate_vllm_python, version_command, vllm_import_args, vllm_rocm_capability, vllm_version,
    vllm_version_found, PythonCheck, RocmFacts, ValidationStep, VersionAnswer, VllmCommand,
};
use werk1112::backend::vllm::completion::{
    chat_completion_body, check_request, delta_content, finalize_completion_stats,
    update_completion_from_event, CompletionRun, VllmCompletion,
};
use werk1112::backend::vllm::discovery::{
    concise_vllm_unavailable_reason, discover_vllm, managed_vllm_dir, managed_vllm_python,
    missing_vllm_message, VllmAnswers, VllmDiscovery, VllmDiscoveryAttempt, VllmQuestion,
    VllmSearch, VllmSettings,
};
use werk1112::backend::vllm::health::{
    command_check, doctor_program, health_asks_version, vllm_doctor_checks,
    vllm_health_for_platform,
};
use werk1112::backend::vllm::install::{
    find_bootstrap_python, install_managed_vllm, BootstrapAnswers, BootstrapStep, InstallPlan,
    VllmInstallAction, VllmInstallAnswers,
};
use werk1112::backend::vllm::model_dir::{resolve_vllm_model_dir, ModelDirAnswers, ModelDirStep};
use werk1112::backend::vllm::platform::{
    compact_error, current_vllm_platform, is_wsl_environment, is_wsl_sensitive_vllm_failure,
    linux_release_looks_like_wsl, local_vllm_platform_rejection, managed_vllm_install_rejection,
    wsl_vllm_health_failure_message, wsl_vllm_message, HostSystem, VllmPlatform,
};
use werk1112::backend::vllm::server::{
    cached_server, env_true, has_chat_session, is_running, server_key, start, vllm_server_args,
    wait_until_ready, CacheStep, LogTail, ServerCache, StartAnswers, StartStep, VllmServer,
    WaitAnswers, WaitStep, HEALTH_POLL_NANOS, HEALTH_TIMEOUT_NANOS,
};
use werk1112::json::value::JsonValue;
use werk1112::model::{ModelFormat, ModelManifest, ModelMetadata, ModelStore, RepositoryLayout};
use werk1112::process::{help_args, CommandOutcome, CommandOutput};

fn finished(success: bool, stdout: &str, stderr: &str) -> CommandOutcome {
    CommandOutcome::Finished(CommandOutput {
        success,
        status: if success { "exit status: 0".to_string() } else { "exit status: 1".to_string() },
        stdout: stdout.as_bytes().to_vec(),
        stderr: stderr.as_bytes().to_vec(),
    })
}

fn manifest(id: &str, config_path: Option<&str>, model_path: Option<&str>) -> ModelManifest {
    ModelManifest {
        id: id.to_string(),
        format: ModelFormat::SafeTensors,
        architecture: Some("qwen3".to_string()),
        config_path: config_path.map(str::to_string),
        model_path: model_path.map(str::to_string),
        metadata: ModelMetadata {
            repository_layout: RepositoryLayout { name: "Transformers".to_string() },
            family: None,
        },
    }
}

fn request(prompt: &str) -> GenerateRequest {
    GenerateRequest {
        prompt: prompt.to_string(),
        messages: Vec::new(),
        image_urls: Vec::new(),
        max_tokens: 32,
        temperature: None,
        top_p: None,
        stop: Vec::new(),
        seed: None,
        stream_granularity: StreamGranularity::Chunk,
        verbose: false,
        debug: false,
    }
}

fn sampling(value: f64) -> SamplingNumber {
    SamplingNumber {
        shown: format!("{value}"),
        fixed: format!("{value:.6}"),
        json: serde_json::Number::from_f64(value),
    }
}

fn no_facts() -> RocmFacts {
    RocmFacts { python: PythonCheck::Missing, accelerator: None, rocm: None }
}

fn settings() -> VllmSettings {
    VllmSettings {
        host: None,
        port: None,
        python: None,
        managed_python: PathBuf::from("/home/werk/backends/vllm/venv/bin/python"),
        windows: false,
    }
}

fn nothing_asked() -> VllmAnswers {
    VllmAnswers {
        models_status: None,
        health_status: None,
        set_python: None,
        managed_python: None,
        executable: None,
        executable_help: None,
        python3: None,
        python3_check: None,
        python: None,
        python_check: None,
    }
}

fn discovery(command: Option<VllmCommand>) -> VllmDiscovery {
    VllmDiscovery { command, source: "test".to_string(), attempts: Vec::new() }
}

fn remote() -> VllmCommand {
    VllmCommand::Remote { host: "127.0.0.1".to_string(), port: 8000 }
}

#[test]
fn chat_completion_body_uses_openai_messages() {
    let request = GenerateRequest {
        prompt: "ignored rendered prompt".to_string(),
        messages: vec![JsonValue::Object(vec![
            ("role".to_string(), JsonValue::Text("user".to_string())),
            ("content".to_string(), JsonValue::Text("hello".to_string())),
        ])],
        image_urls: Vec::new(),
        max_tokens: 32,
        temperature: Some(sampling(0.2)),
        top_p: None,
        stop: vec!["stop".to_string()],
        seed: Some(7),
        stream_granularity: StreamGranularity::Chunk,
        verbose: false,
        debug: false,
    };
    let body = chat_completion_body("model", &request).to_serde();
    assert_eq!(body["model"], "model");
    assert_eq!(body["messages"][0]["content"], "hello");
    assert_eq!(body["stream"], true);
    assert_eq!(body["stream_options"]["include_usage"], true);
    assert_eq!(body["max_tokens"], 32);
    assert_eq!(body["temperature"], 0.2);
    assert_eq!(body["stop"][0], "stop");
    assert_eq!(body["seed"], 7);
    assert!(body.get("top_p").is_none());
}

#[test]
fn chat_completion_body_turns_prompt_into_user_message() {
    let body = chat_completion_body("m", &request("hi there")).to_serde();
    assert_eq!(body["messages"][0]["role"], "user");
    assert_eq!(body["messages"][0]["content"], "hi there");
    assert!(body.get("stop").is_none());
    assert!(body.get("seed").is_none());
    assert!(body.get("temperature").is_none());
    let mut odd = request("hi");
    odd.top_p = Some(sampling(f64::NAN));
    assert!(chat_completion_body("m", &odd).to_serde()["top_p"].is_null());
}

#[test]
fn parses_vllm_streaming_delta_and_usage() {
    let mut completion = VllmCompletion::default();
    let value = JsonValue::parse_text(
        "{\"choices\": [{\"delta\": {\"content\": \"hello\"}, \"finish_reason\": null}],
          \"usage\": {\"prompt_tokens\": 4, \"completion_tokens\": 2}}",
    )
    .unwrap();
    assert_eq!(delta_content(&value).as_deref(), Some("hello"));
    update_completion_from_event(&mut completion, &value);
    assert_eq!(completion.prompt_tokens, 4);
    assert_eq!(completion.completion_tokens, 2);
    assert_eq!(completion.finish_reason, "");
}

#[test]
fn finish_reason_of_first_choice_counts() {
    let mut completion = VllmCompletion::default();
    let value = JsonValue::parse_text(
        "{\"choices\": [{\"finish_reason\": \"stop\"}, {\"finish_reason\": \"other\"}]}",
    )
    .unwrap();
    update_completion_from_event(&mut completion, &value);
    assert_eq!(completion.finish_reason, "stop");
    let empty = JsonValue::parse_text("{\"choices\": [{\"finish_reason\": \"\"}]}").unwrap();
    update_completion_from_event(&mut completion, &empty);
    assert_eq!(completion.finish_reason, "stop");
    assert!(delta_content(&empty).is_none());
    assert!(delta_content(&JsonValue::parse_text("[]").unwrap()).is_none());
}

#[test]
fn vllm_model_dir_prefers_manifest_config_parent() {
    let root = PathBuf::from("/store/models/qwen");
    let manifest = manifest(
        "Qwen/Qwen3-4B",
        Some("files/snapshots/main/config.json"),
        Some("files/model.safetensors"),
    );
    let config = root.join("files/snapshots/main/config.json");
    let mut known = ModelDirAnswers { root: Some(true), named: None, files: None, in_root: None };
    match resolve_vllm_model_dir(&manifest, &root, Some(&config), &known) {
        ModelDirStep::CheckNamed(path) => assert_eq!(path, config),
        _ => panic!("the file that the manifest names is checked first"),
    }
    known.named = Some(true);
    match resolve_vllm_model_dir(&manifest, &root, Some(&config), &known) {
        ModelDirStep::Done(dir) => assert_eq!(dir, root.join("files/snapshots/main")),
        _ => panic!("the directory of the named file is found"),
    }
    match resolve_vllm_model_dir(&manifest, &root, None, &known) {
        ModelDirStep::AskFile(name) => assert_eq!(name, "files/snapshots/main/config.json"),
        _ => panic!("the path of the named file is asked for"),
    }
}

#[test]
fn vllm_model_dir_falls_back_to_files_dir_with_config() {
    let root = PathBuf::from("/store/models/qwen");
    let manifest = manifest("Qwen/Qwen3-4B", None, Some("files/model.safetensors"));
    let mut known = ModelDirAnswers { root: Some(true), named: None, files: None, in_root: None };
    match resolve_vllm_model_dir(&manifest, &root, None, &known) {
        ModelDirStep::CheckFiles(path) => assert_eq!(path, root.join("files").join("config.json")),
        _ => panic!("the files directory is checked"),
    }
    known.files = Some(true);
    match resolve_vllm_model_dir(&manifest, &root, None, &known) {
        ModelDirStep::Done(dir) => assert_eq!(dir, root.join("files")),
        _ => panic!("the files directory is found"),
    }
}

#[test]
fn vllm_model_dir_uses_root_only_when_root_contains_config() {
    let root = PathBuf::from("/store/models/qwen");
    let manifest = manifest("Qwen/Qwen3-4B", None, None);
    let mut known =
        ModelDirAnswers { root: Some(true), named: None, files: Some(false), in_root: None };
    match resolve_vllm_model_dir(&manifest, &root, None, &known) {
        ModelDirStep::CheckInRoot(path) => assert_eq!(path, root.join("config.json")),
        _ => panic!("the root is checked last"),
    }
    known.in_root = Some(true);
    match resolve_vllm_model_dir(&manifest, &root, None, &known) {
        ModelDirStep::Done(dir) => assert_eq!(dir, root),
        _ => panic!("the root is found"),
    }
}

#[test]
fn vllm_model_dir_rejects_store_root_without_config() {
    let root = PathBuf::from("/store/models/qwen");
    let manifest = manifest("Qwen/Qwen3-4B", None, Some("files/model.safetensors"));
    let known =
        ModelDirAnswers { root: Some(true), named: None, files: Some(false), in_root: Some(false) };
    match resolve_vllm_model_dir(&manifest, &root, None, &known) {
        ModelDirStep::Fail(failure) => {
            assert!(failure.message.contains("config.json"));
            assert!(failure.message.contains("Qwen/Qwen3-4B"));
            assert_eq!(
                failure.message,
                "vLLM requires a Hugging Face model directory containing config.json for 'Qwen/Qwen3-4B'; tried manifest config_path <none>, files directory /store/models/qwen/files, and model root /store/models/qwen"
            );
        }
        _ => panic!("nothing is found"),
    }
}

#[test]
fn vllm_model_dir_needs_root_and_parent() {
    let root = PathBuf::from("/store/models/qwen");
    let bare = manifest("q", Some("config.json"), None);
    let mut known = ModelDirAnswers { root: None, named: None, files: None, in_root: None };
    match resolve_vllm_model_dir(&bare, &root, None, &known) {
        ModelDirStep::CheckRoot(dir) => assert_eq!(dir, root),
        _ => panic!("the root is checked first"),
    }
    known.root = Some(false);
    match resolve_vllm_model_dir(&bare, &root, None, &known) {
        ModelDirStep::Fail(failure) => assert_eq!(
            failure.message,
            "model directory for 'q' does not exist: /store/models/qwen"
        ),
        _ => panic!("a missing root fails"),
    }
    known.root = Some(true);
    match resolve_vllm_model_dir(&bare, &root, Some(&PathBuf::from("/")), &known) {
        ModelDirStep::Fail(failure) => assert_eq!(
            failure.message,
            "manifest config_path 'config.json' has no parent directory"
        ),
        _ => panic!("a root has no parent"),
    }
}

#[test]
fn vllm_args_keep_logical_served_model_name() {
    let model_dir = PathBuf::from("/tmp/werk-model/files");
    let args = vllm_server_args(
        &VllmCommand::Python(PathBuf::from("/usr/bin/python3")),
        &model_dir,
        "Qwen/Qwen3-4B",
        12345,
        None,
    );
    let model_arg = args
        .windows(2)
        .find(|pair| pair[0] == "--model")
        .map(|pair| pair[1].as_str());
    let served_name = args
        .windows(2)
        .find(|pair| pair[0] == "--served-model-name")
        .map(|pair| pair[1].as_str());
    assert_eq!(model_arg, Some("/tmp/werk-model/files"));
    assert_eq!(served_name, Some("Qwen/Qwen3-4B"));
}

#[test]
fn vllm_args_of_executable_take_extra_arguments() {
    let args = vllm_server_args(
        &VllmCommand::Executable(PathBuf::from("/usr/bin/vllm")),
        &PathBuf::from("/m"),
        "name",
        8001,
        Some("--dtype 'half precision'  --seed=1"),
    );
    assert_eq!(
        args,
        vec![
            "serve",
            "/m",
            "--host",
            "127.0.0.1",
            "--port",
            "8001",
            "--served-model-name",
            "name",
            "--dtype",
            "half precision",
            "--seed=1"
        ]
    );
    let remote_args = vllm_server_args(&remote(), &PathBuf::from("/m"), "n", 1, None);
    assert_eq!(remote_args.len(), 6);
}

#[test]
fn linux_release_detection_identifies_wsl() {
    assert!(linux_release_looks_like_wsl(
        "5.15.167.4-microsoft-standard-WSL2"
    ));
    assert!(linux_release_looks_like_wsl("Linux version 6.6.0 WSL2"));
    assert!(!linux_release_looks_like_wsl("6.8.0-63-generic"));
}

#[test]
fn wsl_environment_shows_in_one_of_four_signs() {
    assert!(is_wsl_environment(true, false, None, None));
    assert!(is_wsl_environment(false, true, None, None));
    assert!(is_wsl_environment(false, false, Some("x-Microsoft"), None));
    assert!(is_wsl_environment(false, false, Some("plain"), Some("wsl")));
    assert!(!is_wsl_environment(false, false, Some("plain"), None));
    assert_eq!(current_vllm_platform(HostSystem::Linux, true), VllmPlatform::Wsl);
    assert_eq!(current_vllm_platform(HostSystem::Linux, false), VllmPlatform::NativeLinux);
    assert_eq!(current_vllm_platform(HostSystem::Windows, false), VllmPlatform::NativeWindows);
    assert_eq!(current_vllm_platform(HostSystem::Macos, false), VllmPlatform::Macos);
    assert_eq!(current_vllm_platform(HostSystem::Other, false), VllmPlatform::Unsupported);
}

#[test]
fn local_vllm_policy_rejects_wsl_with_fallback_message() {
    let reason = local_vllm_platform_rejection(VllmPlatform::Wsl).unwrap();
    assert!(reason.contains("vLLM is a Linux-native runtime"));
    assert!(reason.contains("Werk will fall back to Candle CUDA"));
    assert!(reason.contains("remote vLLM server"));
    assert!(local_vllm_platform_rejection(VllmPlatform::NativeLinux).is_none());
}

#[test]
fn managed_vllm_install_policy_allows_linux_and_wsl_only() {
    assert!(managed_vllm_install_rejection(VllmPlatform::NativeLinux).is_none());
    assert!(managed_vllm_install_rejection(VllmPlatform::Wsl).is_none());

    let windows = managed_vllm_install_rejection(VllmPlatform::NativeWindows).unwrap();
    assert!(windows.contains("Native Windows local vLLM is not eligible"));

    let macos = managed_vllm_install_rejection(VllmPlatform::Macos).unwrap();
    assert!(macos.contains("not eligible on macOS"));
}

#[test]
fn vllm_health_marks_wsl_local_as_best_effort_but_remote_healthy() {
    let local = VllmDiscovery {
        command: Some(VllmCommand::Python(PathBuf::from("/tmp/python"))),
        source: "test".to_string(),
        attempts: Vec::new(),
    };
    let health = vllm_health_for_platform(&local, VllmPlatform::Wsl, None);
    assert_eq!(health.installed_label, "yes");
    assert_eq!(health.health_label, "best-effort on WSL");
    assert!(!health.healthy);

    let remote = VllmDiscovery {
        command: Some(VllmCommand::Remote {
            host: "127.0.0.1".to_string(),
            port: 8000,
        }),
        source: "test".to_string(),
        attempts: Vec::new(),
    };
    let health = vllm_health_for_platform(&remote, VllmPlatform::Wsl, None);
    assert_eq!(health.installed_label, "remote");
    assert_eq!(health.health_label, "healthy");
    assert!(health.healthy);
}

#[test]
fn vllm_health_marks_wsl_missing_local_as_best_effort() {
    let discovery = VllmDiscovery {
        command: None,
        source: "missing".to_string(),
        attempts: Vec::new(),
    };
    let health = vllm_health_for_platform(&discovery, VllmPlatform::Wsl, None);
    assert_eq!(health.installed_label, "no");
    assert_eq!(health.health_label, "best-effort on WSL");
    assert!(!health.healthy);
    assert!(health.detail.contains("Werk will fall back to Candle CUDA"));
}

#[test]
fn vllm_health_tells_version_and_missing_reason() {
    let local = discovery(Some(VllmCommand::Executable(PathBuf::from("/usr/bin/vllm"))));
    assert!(health_asks_version(&local, VllmPlatform::NativeLinux));
    assert!(!health_asks_version(&local, VllmPlatform::Macos));
    assert!(!health_asks_version(&discovery(Some(remote())), VllmPlatform::NativeLinux));
    let health = vllm_health_for_platform(&local, VllmPlatform::NativeLinux, Some("0.9.1"));
    assert_eq!((health.health_label, health.detail.as_str()), ("eligible", "0.9.1"));
    let unknown = vllm_health_for_platform(&local, VllmPlatform::NativeLinux, None);
    assert_eq!(unknown.detail, "version unknown");
    let on_mac = vllm_health_for_platform(&local, VllmPlatform::Macos, None);
    assert_eq!(on_mac.health_label, "unsupported");
    let missing = vllm_health_for_platform(&discovery(None), VllmPlatform::NativeLinux, None);
    assert_eq!(missing.health_label, "missing");
    assert_eq!(missing.detail, "No vLLM runtime found; run: werk backend install vllm");
}

#[test]
fn wsl_sensitive_vllm_failure_markers_are_detected() {
    assert!(is_wsl_sensitive_vllm_failure("UVA is not available"));
    assert!(is_wsl_sensitive_vllm_failure("pin_memory failed"));
    assert!(is_wsl_sensitive_vllm_failure("CUDA IPC handle failed"));
    assert!(is_wsl_sensitive_vllm_failure("engine-core failed to start"));
    assert!(is_wsl_sensitive_vllm_failure(
        "multiprocessing spawn failed during startup"
    ));
    assert!(!is_wsl_sensitive_vllm_failure("model file not found"));
}

#[test]
fn wsl_failures_are_explained_on_wsl_only() {
    let message =
        wsl_vllm_health_failure_message(VllmPlatform::Wsl, "UVA  is\nnot available").unwrap();
    assert!(message.starts_with(wsl_vllm_message()));
    assert!(message.ends_with("\n\nvLLM health probe failed: UVA is not available"));
    assert!(wsl_vllm_health_failure_message(VllmPlatform::NativeLinux, "UVA").is_none());
    assert!(wsl_vllm_health_failure_message(VllmPlatform::Wsl, "multiprocessing").is_none());
    assert_eq!(compact_error("  a \t b\n\nc "), "a b c");
    assert_eq!(compact_error(&compact_error("  a \t b\n\nc ")), "a b c");
    assert_eq!(compact_error(""), "");
}

#[test]
fn vllm_rocm_capability_accepts_python_with_hip_stack() {
    let python = PathBuf::from("/tmp/rocm-ok/python");
    let facts = RocmFacts {
        python: PythonCheck::Ran(finished(true, "6.3.0\n", "")),
        accelerator: None,
        rocm: None,
    };
    let detail = vllm_rocm_capability(&VllmCommand::Python(python), &facts).unwrap();
    assert!(detail.contains("PyTorch ROCm/HIP runtime detected"));
    assert!(detail.contains("6.3.0"));
    assert_eq!(detail, "PyTorch ROCm/HIP runtime detected (6.3.0)");
}

#[test]
fn vllm_rocm_capability_rejects_python_without_hip_stack() {
    let python = PathBuf::from("/tmp/rocm-missing/python");
    let facts = RocmFacts {
        python: PythonCheck::Ran(finished(false, "", "torch.version.hip is not set\n")),
        accelerator: None,
        rocm: None,
    };
    let failure = vllm_rocm_capability(&VllmCommand::Python(python), &facts).unwrap_err();
    assert!(failure.message.contains("not ROCm-capable"));
    assert!(failure.message.contains("ROCm/HIP PyTorch"));
    assert!(failure.message.contains("stack: torch.version.hip is not set."));
}

#[test]
fn vllm_rocm_capability_rejects_plain_executable_discovery() {
    let err = vllm_rocm_capability(
        &VllmCommand::Executable(PathBuf::from("/usr/bin/vllm")),
        &no_facts(),
    )
    .unwrap_err();
    let message = err.message;
    assert!(message.contains("ROCm capability cannot be verified"));
    assert!(message.contains("WERK_VLLM_PYTHON"));
}

#[test]
fn vllm_rocm_capability_of_remote_needs_confirmation() {
    let failure = vllm_rocm_capability(&remote(), &no_facts()).unwrap_err();
    assert!(failure.message.starts_with(
        "remote vLLM endpoint is reachable at http://127.0.0.1:8000, but ROCm capability"
    ));
    let facts = RocmFacts { python: PythonCheck::Missing, accelerator: None, rocm: Some("1".to_string()) };
    assert_eq!(
        vllm_rocm_capability(&remote(), &facts).unwrap(),
        "remote vLLM endpoint at http://127.0.0.1:8000 marked ROCm-capable by environment"
    );
    assert!(remote_rocm_explicitly_confirmed(Some("HIP"), None));
    assert!(remote_rocm_explicitly_confirmed(Some("ROCm"), None));
    assert!(remote_rocm_explicitly_confirmed(None, Some("YES")));
    assert!(remote_rocm_explicitly_confirmed(Some("cuda"), Some("1")));
    assert!(!remote_rocm_explicitly_confirmed(Some("cuda"), Some("0")));
    assert!(!remote_rocm_explicitly_confirmed(None, None));
}

#[test]
fn python_statuses_tell_what_went_wrong() {
    assert_eq!(
        python_vllm_status(&PythonCheck::Missing),
        (false, "Python path does not exist".to_string())
    );
    assert_eq!(
        python_vllm_status(&PythonCheck::Ran(CommandOutcome::Failed("denied".to_string()))),
        (false, "failed to run Python: denied".to_string())
    );
    assert_eq!(
        python_vllm_status(&PythonCheck::Ran(finished(false, "out", " "))),
        (false, "Python cannot import vLLM OpenAI server: out".to_string())
    );
    assert_eq!(
        python_vllm_status(&PythonCheck::Ran(finished(false, "", ""))),
        (false, "Python cannot import vLLM OpenAI server: exit status: 1".to_string())
    );
    assert_eq!(
        python_vllm_status(&PythonCheck::Ran(finished(true, "", ""))),
        (true, "vLLM OpenAI server import ok".to_string())
    );
    assert!(!python_rocm_status(&PythonCheck::Missing).0);
}

#[test]
fn versions_come_from_output_or_status() {
    let python = VllmCommand::Python(PathBuf::from("/p"));
    let executable = VllmCommand::Executable(PathBuf::from("/v"));
    let ran = VersionAnswer::Ran(finished(true, " 0.9.1 \nmore\n", ""));
    assert_eq!(vllm_version(&python, &ran).as_deref(), Some("0.9.1 \nmore"));
    assert_eq!(vllm_version(&executable, &ran).as_deref(), Some("0.9.1"));
    let empty = VersionAnswer::Ran(finished(true, "", ""));
    assert_eq!(vllm_version(&executable, &empty).as_deref(), Some("unknown"));
    let failed = VersionAnswer::Ran(finished(false, "x", ""));
    assert_eq!(vllm_version(&python, &failed), None);
    assert_eq!(
        vllm_version(&remote(), &VersionAnswer::Status(Some(200))).as_deref(),
        Some("remote server reachable")
    );
    assert_eq!(vllm_version(&remote(), &VersionAnswer::Status(Some(500))), None);
    assert_eq!(vllm_version_found(&None, Some(&ran)), None);
    assert_eq!(vllm_version_found(&Some(remote()), None), None);
    assert_eq!(
        vllm_version_found(&Some(VllmCommand::Executable(PathBuf::from("/v"))), Some(&ran)),
        Some("0.9.1".to_string())
    );
    assert!(version_command(&remote()).is_none());
    let (program, args) = version_command(&executable).unwrap();
    assert_eq!((program, args), (PathBuf::from("/v"), vec!["--version".to_string()]));
    assert_eq!(version_command(&python).unwrap().1[0], "-c");
}

#[test]
fn validation_fails_in_three_ways() {
    let python = PathBuf::from("/venv/python");
    let good = PythonCheck::Ran(finished(true, "", ""));
    match validate_vllm_python(&python, &PythonCheck::Missing, None) {
        ValidationStep::Fail(failure) => assert_eq!(
            failure.message,
            "vLLM installation validation failed for /venv/python: Python path does not exist"
        ),
        _ => panic!("a missing Python fails"),
    }
    assert!(matches!(validate_vllm_python(&python, &good, None), ValidationStep::RunHelp));
    match validate_vllm_python(&python, &good, Some(&CommandOutcome::Failed("no".to_string()))) {
        ValidationStep::Fail(failure) => {
            assert_eq!(
                failure.message,
                "failed to validate vLLM OpenAI server entrypoint with /venv/python"
            );
            assert_eq!(failure.causes, vec!["no"]);
        }
        _ => panic!("a program that does not run fails"),
    }
    match validate_vllm_python(&python, &good, Some(&finished(false, "", "boom\n"))) {
        ValidationStep::Fail(failure) => assert_eq!(
            failure.message,
            "vLLM OpenAI server entrypoint validation failed for /venv/python: server module did not start: boom"
        ),
        _ => panic!("a module that does not start fails"),
    }
    assert!(matches!(
        validate_vllm_python(&python, &good, Some(&finished(true, "", ""))),
        ValidationStep::Done
    ));
}

#[test]
fn discovery_asks_remote_before_anything_else() {
    let mut set = settings();
    set.host = Some("10.0.0.2".to_string());
    set.port = Some("8000".to_string());
    let mut asked = nothing_asked();
    match discover_vllm(&set, &asked) {
        VllmSearch::Ask(VllmQuestion::GetModels(url)) => assert_eq!(url, "http://10.0.0.2:8000"),
        _ => panic!("the models are asked for first"),
    }
    asked.models_status = Some(Some(404));
    match discover_vllm(&set, &asked) {
        VllmSearch::Ask(VllmQuestion::GetHealth(url)) => assert_eq!(url, "http://10.0.0.2:8000"),
        _ => panic!("the health is asked for next"),
    }
    asked.health_status = Some(Some(200));
    match discover_vllm(&set, &asked) {
        VllmSearch::Done(found) => {
            assert_eq!(found.source, "env WERK_VLLM_HOST/WERK_VLLM_PORT");
            assert!(matches!(
                found.command,
                Some(VllmCommand::Remote { ref host, port: 8000 }) if host == "10.0.0.2"
            ));
            assert_eq!(found.attempts.len(), 1);
            assert_eq!(
                found.attempts[0].detail,
                "remote vLLM server reachable at http://10.0.0.2:8000"
            );
        }
        _ => panic!("the remote server is found"),
    }
}

#[test]
fn discovery_walks_through_every_stage() {
    let mut set = settings();
    set.host = Some("h".to_string());
    set.port = Some("70000".to_string());
    set.python = Some(PathBuf::from("/set/python"));
    let mut asked = nothing_asked();
    assert!(matches!(
        discover_vllm(&set, &asked),
        VllmSearch::Ask(VllmQuestion::CheckSetPython(_))
    ));
    asked.set_python = Some(PythonCheck::Missing);
    assert!(matches!(
        discover_vllm(&set, &asked),
        VllmSearch::Ask(VllmQuestion::CheckManagedPython(_))
    ));
    asked.managed_python = Some(PythonCheck::Ran(finished(false, "", "no module")));
    match discover_vllm(&set, &asked) {
        VllmSearch::Ask(VllmQuestion::FindExecutable(name)) => assert_eq!(name, "vllm"),
        _ => panic!("the program is looked for"),
    }
    asked.executable = Some(Some(PathBuf::from("/bin/vllm")));
    assert!(matches!(
        discover_vllm(&set, &asked),
        VllmSearch::Ask(VllmQuestion::RunExecutableHelp(_))
    ));
    asked.executable_help = Some(finished(false, "", ""));
    assert!(matches!(discover_vllm(&set, &asked), VllmSearch::Ask(VllmQuestion::FindPython3)));
    asked.python3 = Some(Some(PathBuf::from("/bin/python3")));
    assert!(matches!(
        discover_vllm(&set, &asked),
        VllmSearch::Ask(VllmQuestion::CheckPython3(_))
    ));
    asked.python3_check = Some(PythonCheck::Ran(finished(false, "", "bad")));
    assert!(matches!(discover_vllm(&set, &asked), VllmSearch::Ask(VllmQuestion::FindPython)));
    asked.python = Some(None);
    match discover_vllm(&set, &asked) {
        VllmSearch::Done(found) => {
            assert!(found.command.is_none());
            assert_eq!(found.source, "missing");
            let labels: Vec<&str> =
                found.attempts.iter().map(|attempt| attempt.label.as_str()).collect();
            assert_eq!(
                labels,
                vec![
                    "WERK_VLLM_PORT",
                    "WERK_VLLM_PYTHON",
                    "managed venv",
                    "PATH: vllm",
                    "PATH: python3"
                ]
            );
            assert_eq!(
                found.attempts[0].detail,
                "invalid port: number too large to fit in target type"
            );
            assert_eq!(found.attempts[3].detail, "vLLM executable did not run");
            assert!(found.attempts.iter().all(|attempt| !attempt.usable));
            assert_eq!(
                concise_vllm_unavailable_reason(&found),
                "WERK_VLLM_PORT: invalid port: number too large to fit in target type"
            );
            let message = missing_vllm_message(&found);
            assert!(message.starts_with("No vLLM runtime found.\n\nTried:\n- WERK_VLLM_PORT (exists, not usable): invalid port"));
            assert!(message.contains("\n- WERK_VLLM_PYTHON: /set/python (missing, not usable): Python path does not exist"));
            assert!(message.ends_with("\n- or use: werk --backend candle ..."));
        }
        _ => panic!("nothing is found"),
    }
    asked.python = Some(Some(PathBuf::from("/bin/python")));
    asked.python_check = Some(PythonCheck::Ran(finished(true, "", "")));
    match discover_vllm(&set, &asked) {
        VllmSearch::Done(found) => {
            assert_eq!(found.source, "PATH python");
            assert!(matches!(found.command, Some(VllmCommand::Python(_))));
            assert!(found.attempts.last().unwrap().usable);
        }
        _ => panic!("python is found"),
    }
}

#[test]
fn discovery_takes_managed_python_before_path() {
    let mut asked = nothing_asked();
    asked.managed_python = Some(PythonCheck::Ran(finished(true, "", "")));
    match discover_vllm(&settings(), &asked) {
        VllmSearch::Done(found) => {
            assert_eq!(found.source, "managed venv");
            assert!(found.attempts[0].exists);
        }
        _ => panic!("the managed Python is found"),
    }
    asked.managed_python = Some(PythonCheck::Missing);
    asked.executable = Some(None);
    asked.python3 = Some(None);
    asked.python = Some(None);
    match discover_vllm(&settings(), &asked) {
        VllmSearch::Done(found) => {
            assert_eq!(found.attempts[1].detail, "not found");
            assert_eq!(
                concise_vllm_unavailable_reason(&found),
                "managed venv (/home/werk/backends/vllm/venv/bin/python): Python path does not exist"
            );
        }
        _ => panic!("nothing is found"),
    }
}

#[test]
fn managed_paths_are_below_home() {
    let store = ModelStore { home: PathBuf::from("/home/werk") };
    assert_eq!(managed_vllm_dir(&store), PathBuf::from("/home/werk/backends/vllm"));
    assert_eq!(
        managed_vllm_python(&store, false),
        PathBuf::from("/home/werk/backends/vllm/venv/bin/python")
    );
    assert_eq!(
        managed_vllm_python(&store, true),
        PathBuf::from("/home/werk/backends/vllm/venv/Scripts/python.exe")
    );
    assert_eq!(VllmBackend::new(store.clone()).store.home, store.home);
    let settings = VllmSettings::new(&store, Some("h".to_string()), None, None, true);
    assert_eq!(settings.managed_python, managed_vllm_python(&store, true));
    assert_eq!((settings.host.as_deref(), settings.port, settings.python), (Some("h"), None, None));
    assert!(settings.windows);
    let set = Some(PathBuf::from("/p"));
    let plan = InstallPlan::new(&store, VllmPlatform::NativeLinux, set.clone(), false);
    assert_eq!(plan.root, managed_vllm_dir(&store));
    assert_eq!(plan.venv, PathBuf::from("/home/werk/backends/vllm/venv"));
    assert_eq!(plan.venv_python, managed_vllm_python(&store, false));
    assert_eq!(plan.set_python, set);
}

#[test]
fn backend_speaks_of_what_was_found() {
    let linux = VllmPlatform::NativeLinux;
    let local = discovery(Some(VllmCommand::Python(PathBuf::from("/p"))));
    assert_eq!(
        VllmBackend::probe(&local, linux, Some(&VersionAnswer::Ran(finished(true, "1.0\n", ""))))
            .unwrap(),
        "vLLM /p -m vllm.entrypoints.openai.api_server (1.0)"
    );
    assert_eq!(
        VllmBackend::probe(&local, linux, None).unwrap(),
        "vLLM /p -m vllm.entrypoints.openai.api_server (version unknown)"
    );
    assert_eq!(
        VllmBackend::probe(&discovery(Some(remote())), VllmPlatform::Macos, None).unwrap(),
        "vLLM OpenAI server at http://127.0.0.1:8000"
    );
    assert!(VllmBackend::probe(&local, VllmPlatform::Wsl, None)
        .unwrap_err()
        .message
        .contains("appears to be WSL"));
    assert!(VllmBackend::probe(&discovery(None), linux, None)
        .unwrap_err()
        .message
        .starts_with("No vLLM runtime found."));
    assert!(VllmBackend::probe_rocm(&discovery(None), linux, &no_facts()).is_err());
    assert!(VllmBackend::probe_rocm(&local, VllmPlatform::Macos, &no_facts()).is_err());
    let facts = RocmFacts {
        python: PythonCheck::Ran(finished(true, "6.1", "")),
        accelerator: None,
        rocm: None,
    };
    assert_eq!(
        VllmBackend::probe_rocm(&local, linux, &facts).unwrap(),
        "vLLM ROCm (PyTorch ROCm/HIP runtime detected (6.1))"
    );
    assert_eq!(
        VllmBackend::rocm_unavailable_reason(&local, linux, &facts),
        "vLLM ROCm runtime is unavailable"
    );
    assert!(VllmBackend::rocm_unavailable_reason(&local, linux, &no_facts())
        .contains("not ROCm-capable: Python path does not exist."));
    assert!(VllmBackend::rocm_unavailable_reason(&discovery(None), linux, &no_facts())
        .starts_with("No vLLM runtime found;"));
    assert!(VllmBackend::missing_message(&local, VllmPlatform::Macos).contains("macOS"));
    assert!(VllmBackend::missing_message(&local, linux).starts_with("No vLLM runtime found."));
    assert!(VllmBackend::unavailable_reason(&local, VllmPlatform::Unsupported)
        .contains("not eligible on this platform"));
    assert!(VllmBackend::unavailable_reason(&local, linux).starts_with("No vLLM runtime found;"));
    let tried_remote = VllmDiscovery {
        command: Some(VllmCommand::Python(PathBuf::from("/p"))),
        source: "s".to_string(),
        attempts: vec![VllmDiscoveryAttempt {
            label: "WERK_VLLM_HOST/WERK_VLLM_PORT".to_string(),
            path: None,
            exists: false,
            usable: false,
            detail: "d".to_string(),
        }],
    };
    assert_eq!(
        VllmBackend::unavailable_reason(&tried_remote, VllmPlatform::Macos),
        compact_error(local_vllm_platform_rejection(VllmPlatform::Macos).unwrap())
    );
    assert!(require_vllm(discovery(None)).is_err());
    assert!(require_vllm(local).is_ok());
}

#[test]
fn servers_are_asked_in_fixed_words() {
    assert_eq!(models_path(), "/v1/models");
    assert_eq!(health_path(), "/health");
    assert_eq!(completions_path(), "/v1/chat/completions");
    assert_eq!(serve_help_args(), vec!["serve", "--help"]);
    assert_eq!(
        server_help_args(),
        vec!["-m", "vllm.entrypoints.openai.api_server", "--help"]
    );
    assert_eq!(
        vllm_import_args(),
        vec!["-c", "import vllm; import vllm.entrypoints.openai.api_server"]
    );
    assert_eq!(rocm_import_args()[0], "-c");
    assert!(rocm_import_args()[1].starts_with("import torch; hip = getattr(torch.version, 'hip'"));
    assert_eq!(rocm_import_args().len(), 2);
    assert_eq!(doctor_program(), "nvidia-smi");
    assert_eq!(help_args(), vec!["--help"]);
    assert_eq!(MlxBackend::probe_args(), vec!["-c", "import mlx_lm"]);
    assert_eq!(LlamaCppBackend::failed_message(), "llama.cpp generation failed");
    assert_eq!(BurnMode::Cuda.using_note(), "Using Burn CUDA backend");
    assert_eq!(OnnxRuntimeMode::Rocm.using_note(), "Using ONNX Runtime ROCm backend");
}

#[test]
fn doctor_lists_six_checks() {
    let found = VllmDiscovery {
        command: Some(VllmCommand::Executable(PathBuf::from("/bin/vllm"))),
        source: "PATH".to_string(),
        attempts: Vec::new(),
    };
    let answer = VersionAnswer::Ran(finished(true, "0.9\nmore\n", ""));
    let checks = vllm_doctor_checks(
        &PathBuf::from("/managed"),
        &found,
        VllmPlatform::NativeLinux,
        Some(&answer),
        &finished(true, "GPU 0\nGPU 1\n", ""),
    );
    let names: Vec<&str> = checks.iter().map(|check| check.name.as_str()).collect();
    assert_eq!(
        names,
        vec![
            "vLLM discovery",
            "vLLM Python path",
            "vLLM installed",
            "vLLM health",
            "nvidia-smi",
            "vLLM version"
        ]
    );
    let details: Vec<&str> = checks.iter().map(|check| check.detail.as_str()).collect();
    assert_eq!(
        details,
        vec!["PATH", "using executable /bin/vllm", "0.9", "eligible: 0.9", "GPU 0", "0.9"]
    );
    assert!(!checks[1].ok);
    let none = discovery(None);
    let checks = vllm_doctor_checks(
        &PathBuf::from("/managed"),
        &none,
        VllmPlatform::NativeLinux,
        None,
        &CommandOutcome::Failed("not found".to_string()),
    );
    assert_eq!(checks[1].detail, "managed path /managed");
    assert_eq!(checks[2].detail, "not installed");
    assert_eq!(checks[4].detail, "required to verify CUDA visibility for vLLM; not found");
    assert_eq!(checks[5].detail, "unknown");
    assert!(checks[3].detail.starts_with("missing: No vLLM runtime found;"));
    let silent = VersionAnswer::Ran(finished(false, "0.9", ""));
    let checks = vllm_doctor_checks(
        &PathBuf::from("/managed"),
        &found,
        VllmPlatform::NativeLinux,
        Some(&silent),
        &finished(true, "", ""),
    );
    assert_eq!(checks[2].detail, "not installed");
    assert_eq!(checks[3].detail, "eligible: version unknown");
    let checks = vllm_doctor_checks(
        &PathBuf::from("/managed"),
        &found,
        VllmPlatform::Macos,
        Some(&answer),
        &finished(true, "", ""),
    );
    assert!(!checks[3].ok);
    assert!(checks[3].detail.starts_with("unsupported: "));
    assert_eq!(checks[5].detail, "0.9");
    let health = VllmBackend::health(&found, VllmPlatform::NativeLinux, Some(&answer));
    assert_eq!(health.detail, "0.9");
    let failed = command_check("tool", "needed", &finished(false, "", ""));
    assert_eq!(failed.detail, "needed; command exited with exit status: 1");
    assert_eq!(command_check("tool", "needed", &finished(true, "", "")).detail, "needed");
}

#[test]
fn completion_run_reads_a_stream() {
    let mut run = CompletionRun::new();
    let first = run.on_bytes(
        b"data: {\"choices\":[{\"delta\":{\"content\":\"Hel\"}}]}\n\ndata: {\"cho",
        5,
    );
    assert_eq!(first.pieces, vec!["Hel"]);
    assert!(first.failure.is_none());
    let second = run.on_bytes(
        b"ices\":[{\"delta\":{\"content\":\"lo\"},\"finish_reason\":\"stop\"}]}\n\ndata: [DONE]\n\n",
        9,
    );
    assert_eq!(second.pieces, vec!["lo"]);
    assert_eq!(run.completion.text, "Hello");
    assert_eq!(run.completion.finish_reason, "stop");
    assert_eq!(run.completion.first_token_nanos, 5);
    let bad = run.on_bytes(b"data: {\"choices\":[{\"delta\":{\"content\":\"!\"}}]}\ndata: oops\n\n", 10);
    assert_eq!(bad.pieces, vec!["!"]);
    let failure = bad.failure.unwrap();
    assert_eq!(failure.message, "invalid vLLM SSE event: oops");
    assert_eq!(failure.causes, vec!["expected value at line 1 column 1"]);
}

#[test]
fn completion_statistics_are_filled_in() {
    let mut run = CompletionRun::new();
    run.completion.text = "one two three".to_string();
    run.completion.first_token_nanos = 40;
    finalize_completion_stats(&mut run.completion, &request("a b"), 100);
    assert_eq!(run.completion.prompt_tokens, 2);
    assert_eq!(run.completion.completion_tokens, 3);
    assert_eq!(run.completion.prompt_nanos, 40);
    assert_eq!(run.completion.decode_nanos, 60);
    assert_eq!(run.completion.prompt_nanos + run.completion.decode_nanos, 100);
    assert_eq!(run.completion.finish_reason, "length");
    let mut empty = VllmCompletion::default();
    finalize_completion_stats(&mut empty, &request("  "), 100);
    assert_eq!(empty.prompt_tokens, 0);
    assert_eq!(empty.completion_tokens, 1);
    assert_eq!(empty.decode_nanos, 100);
    let response = run.completion.into_response(7, 200);
    assert_eq!(response.timings.load_nanos, 7);
    assert_eq!(response.timings.total_nanos, 200);
    assert_eq!(response.text, "one two three");
    let mut with_image = request("x");
    with_image.image_urls.push("u".to_string());
    assert_eq!(
        check_request(&with_image).unwrap_err().message,
        "vLLM text backend received image inputs; use a VLM-capable model/runtime"
    );
    assert!(check_request(&request("x")).is_ok());
}

#[test]
fn log_tail_keeps_the_last_eighty_lines() {
    let mut tail = LogTail::new();
    assert_eq!(tail.formatted(), "");
    for i in 0..100 {
        tail.push_line("stderr", &format!("{i}"));
    }
    assert_eq!(tail.lines.len(), 80);
    assert_eq!(tail.lines[0], "stderr: 20");
    assert_eq!(tail.lines[79], "stderr: 99");
    assert!(tail.formatted().starts_with("\n\nvLLM output tail:\nstderr: 20\nstderr: 21\n"));
}

#[test]
fn waiting_ends_ready_or_failed() {
    let tail = LogTail::new();
    let linux = VllmPlatform::NativeLinux;
    let url = "http://127.0.0.1:1";
    let mut seen = WaitAnswers { exit: None, health: None, models: None, waited_nanos: None };
    assert!(matches!(wait_until_ready(linux, url, &tail, &seen), WaitStep::CheckExit));
    seen.exit = Some(Ok(None));
    assert!(matches!(wait_until_ready(linux, url, &tail, &seen), WaitStep::GetHealth));
    seen.health = Some(None);
    assert!(matches!(wait_until_ready(linux, url, &tail, &seen), WaitStep::GetModels));
    seen.models = Some(Some(503));
    assert!(matches!(wait_until_ready(linux, url, &tail, &seen), WaitStep::CheckClock));
    seen.waited_nanos = Some(HEALTH_TIMEOUT_NANOS);
    assert!(matches!(wait_until_ready(linux, url, &tail, &seen), WaitStep::Sleep));
    seen.waited_nanos = Some(HEALTH_TIMEOUT_NANOS + 1);
    match wait_until_ready(linux, url, &tail, &seen) {
        WaitStep::Fail(failure) => assert_eq!(
            failure.message,
            "timed out waiting for vLLM server at http://127.0.0.1:1"
        ),
        _ => panic!("the wait ends"),
    }
    seen.models = Some(Some(200));
    assert!(matches!(wait_until_ready(linux, url, &tail, &seen), WaitStep::Ready));
    seen.exit = Some(Err("poisoned".to_string()));
    match wait_until_ready(linux, url, &tail, &seen) {
        WaitStep::Fail(failure) => assert_eq!(failure.message, "poisoned"),
        _ => panic!("an unknown end fails"),
    }
    let mut full = LogTail::new();
    full.push_line("stderr", "UVA missing");
    seen.exit = Some(Ok(Some("exit status: 3".to_string())));
    match wait_until_ready(linux, url, &full, &seen) {
        WaitStep::Fail(failure) => assert_eq!(
            failure.message,
            "vLLM server exited before becoming healthy (exit status: 3)\n\nvLLM output tail:\nstderr: UVA missing"
        ),
        _ => panic!("an ended server fails"),
    }
    match wait_until_ready(VllmPlatform::Wsl, url, &full, &seen) {
        WaitStep::Fail(failure) => assert!(failure.message.ends_with(
            "vLLM health probe failed: vLLM server exited before becoming healthy (exit status: 3) vLLM output tail: stderr: UVA missing"
        )),
        _ => panic!("an ended server fails on WSL too"),
    }
    assert_eq!(HEALTH_POLL_NANOS, 250_000_000);
    assert!(is_running(true, &Ok(None), None));
    assert!(!is_running(true, &Ok(Some("x".to_string())), Some(200)));
    assert!(!is_running(true, &Err("x".to_string()), None));
    assert!(is_running(false, &Ok(None), Some(200)));
    assert!(!is_running(false, &Ok(None), Some(404)));
}

#[test]
fn starting_goes_from_discovery_to_waiting() {
    let dir = PathBuf::from("/m");
    let mut known = StartAnswers { discovery: None, port: None, started: None };
    assert!(matches!(start("id", &dir, None, None, &known), StartStep::Discover));
    known.discovery = Some(discovery(None));
    assert!(matches!(start("id", &dir, None, None, &known), StartStep::Fail(_)));
    known.discovery = Some(discovery(Some(remote())));
    match start("id", &dir, None, None, &known) {
        StartStep::Await { note, server } => {
            assert_eq!(note.as_deref(), Some("Using vLLM CUDA backend"));
            assert_eq!(server.url, "http://127.0.0.1:8000");
            assert_eq!(server.pid, None);
        }
        _ => panic!("a remote server is awaited"),
    }
    known.discovery = Some(discovery(Some(VllmCommand::Python(PathBuf::from("/p")))));
    assert!(matches!(start("id", &dir, None, None, &known), StartStep::FindPort { .. }));
    known.port = Some(Ok(4000));
    match start("id", &dir, Some("--a"), Some("on"), &known) {
        StartStep::Start { program, args, own_output } => {
            assert_eq!(program, PathBuf::from("/p"));
            assert_eq!(args.last().map(String::as_str), Some("--a"));
            assert!(own_output);
        }
        _ => panic!("the program is started"),
    }
    known.started = Some(Err("denied".to_string()));
    match start("id", &dir, None, None, &known) {
        StartStep::Fail(failure) => {
            assert_eq!(failure.message, "failed to start vLLM server using /p");
            assert_eq!(failure.causes, vec!["denied"]);
        }
        _ => panic!("a program that does not start fails"),
    }
    known.started = Some(Ok(77));
    match start("id", &dir, None, None, &known) {
        StartStep::Await { note, server } => {
            assert!(note.is_none());
            assert_eq!(server.url, "http://127.0.0.1:4000");
            assert_eq!(server.pid, Some(77));
            assert_eq!(server.command_label, "/p -m vllm.entrypoints.openai.api_server");
        }
        _ => panic!("the server is awaited"),
    }
    known.port = Some(Err("no port".to_string()));
    assert!(matches!(start("id", &dir, None, None, &known), StartStep::Fail(_)));
    assert!(env_true(Some("yes")));
    assert!(!env_true(Some("YES")));
    assert!(!env_true(None));
}

#[test]
fn debug_lines_show_the_server() {
    let server = VllmServer {
        command_label: "label".to_string(),
        discovery_source: "PATH".to_string(),
        args: vec!["--model".to_string(), "/a b".to_string()],
        model_dir: PathBuf::from("/a b"),
        model_name: "n".to_string(),
        url: "http://h:1".to_string(),
        pid: Some(12),
    };
    assert!(server.debug_lines(false, true).is_empty());
    let lines = server.debug_lines(true, false);
    assert_eq!(lines.len(), 9);
    assert_eq!(lines[4], "full vLLM args: --model '/a b'");
    assert_eq!(lines[6], "server PID: 12");
    assert_eq!(lines[8], "reused existing server: false");
    let mut far = server.clone();
    far.args = Vec::new();
    far.pid = None;
    let lines = far.debug_lines(true, true);
    assert_eq!(lines[4], "full vLLM args: <remote server>");
    assert_eq!(lines[6], "server PID: external");
}

#[test]
fn servers_are_kept_under_their_keys() {
    assert_eq!(server_key("id", &PathBuf::from("/m"), Some("--x")), "id:/m:--x");
    assert_eq!(server_key("id", &PathBuf::from("/m"), None), "id:/m:");
    let mut cache: ServerCache<u32> = ServerCache::new();
    assert!(cache.find("a").is_none());
    cache.insert("a".to_string(), 1);
    cache.insert("b".to_string(), 2);
    cache.insert("a".to_string(), 3);
    assert_eq!(cache.find("a"), Some(&3));
    assert_eq!(cache.find("b"), Some(&2));
    assert_eq!(cache.entries.len(), 2);
    let model = manifest("id", None, None);
    assert!(matches!(cached_server(&model, None, None), CacheStep::LookUp));
    assert!(matches!(cached_server(&model, Some(false), None), CacheStep::Start));
    assert!(matches!(cached_server(&model, Some(true), None), CacheStep::AskRunning));
    assert!(matches!(cached_server(&model, Some(true), Some(true)), CacheStep::Reuse));
    assert!(matches!(cached_server(&model, Some(true), Some(false)), CacheStep::Start));
    let mut other = manifest("id", None, None);
    other.format = ModelFormat::Gguf;
    assert!(matches!(cached_server(&other, None, None), CacheStep::Fail(_)));
    assert!(has_chat_session(&model));
    assert!(!has_chat_session(&other));
}

fn plan(platform: VllmPlatform) -> InstallPlan {
    InstallPlan {
        platform,
        root: PathBuf::from("/r"),
        venv: PathBuf::from("/r/venv"),
        venv_python: PathBuf::from("/r/venv/bin/python"),
        set_python: None,
    }
}

fn nothing_installed() -> VllmInstallAnswers {
    VllmInstallAnswers {
        directory_made: None,
        bootstrap: BootstrapAnswers { set_is_file: None, python3: None, python: None },
        venv_is_there: None,
        venv_made: None,
        pip_upgraded: None,
        vllm_installed: None,
        import: None,
        help: None,
    }
}

#[test]
fn installation_runs_from_directory_to_validation() {
    let mut known = nothing_installed();
    let linux = plan(VllmPlatform::NativeLinux);
    assert!(matches!(
        install_managed_vllm(&plan(VllmPlatform::Macos), &known).action,
        VllmInstallAction::Fail(_)
    ));
    let on_wsl = install_managed_vllm(&plan(VllmPlatform::Wsl), &known);
    assert_eq!(on_wsl.notes, vec![wsl_vllm_message()]);
    let step = install_managed_vllm(&linux, &known);
    assert!(step.notes.is_empty());
    assert!(matches!(step.action, VllmInstallAction::MakeDirectory(_)));
    known.directory_made = Some(Err("denied".to_string()));
    match install_managed_vllm(&linux, &known).action {
        VllmInstallAction::Fail(failure) => {
            assert_eq!(failure.message, "failed to create vLLM backend cache /r")
        }
        _ => panic!("a directory that is not made fails"),
    }
    known.directory_made = Some(Ok(()));
    assert!(matches!(
        install_managed_vllm(&linux, &known).action,
        VllmInstallAction::FindPython(BootstrapStep::FindPython3)
    ));
    known.bootstrap.python3 = Some(None);
    assert!(matches!(
        install_managed_vllm(&linux, &known).action,
        VllmInstallAction::FindPython(BootstrapStep::FindPython)
    ));
    known.bootstrap.python = Some(None);
    match install_managed_vllm(&linux, &known).action {
        VllmInstallAction::Fail(failure) => assert_eq!(
            failure.message,
            "no Python interpreter found; install python3 or set WERK_VLLM_PYTHON"
        ),
        _ => panic!("no Python fails"),
    }
    known.bootstrap.python3 = Some(Some(PathBuf::from("/bin/python3")));
    assert!(matches!(
        install_managed_vllm(&linux, &known).action,
        VllmInstallAction::CheckVenv(_)
    ));
    known.venv_is_there = Some(false);
    let step = install_managed_vllm(&linux, &known);
    assert_eq!(step.notes, vec!["Creating vLLM virtualenv at /r/venv"]);
    assert!(matches!(
        step.action,
        VllmInstallAction::MakeVenv { ref program, ref args }
            if *program == PathBuf::from("/bin/python3") && args.len() == 3
    ));
    known.venv_made = Some(finished(false, "", ""));
    match install_managed_vllm(&linux, &known).action {
        VllmInstallAction::Fail(failure) => assert_eq!(
            failure.message,
            "failed to create vLLM virtualenv; command exited with exit status: 1"
        ),
        _ => panic!("a virtualenv that is not made fails"),
    }
    known.venv_made = Some(finished(true, "", ""));
    let step = install_managed_vllm(&linux, &known);
    assert_eq!(step.notes, vec!["Installing vLLM into /r/venv"]);
    assert!(matches!(step.action, VllmInstallAction::UpgradePip { .. }));
    known.pip_upgraded = Some(finished(true, "", ""));
    assert!(matches!(
        install_managed_vllm(&linux, &known).action,
        VllmInstallAction::InstallVllm { .. }
    ));
    known.vllm_installed = Some(finished(true, "", ""));
    assert!(matches!(
        install_managed_vllm(&linux, &known).action,
        VllmInstallAction::CheckImport(_)
    ));
    known.import = Some(PythonCheck::Ran(finished(true, "", "")));
    assert!(matches!(install_managed_vllm(&linux, &known).action, VllmInstallAction::RunHelp(_)));
    known.help = Some(finished(true, "", ""));
    assert!(matches!(install_managed_vllm(&linux, &known).action, VllmInstallAction::Done(_)));
    known.pip_upgraded = Some(CommandOutcome::Failed("x".to_string()));
    match install_managed_vllm(&linux, &known).action {
        VllmInstallAction::Fail(failure) => {
            assert_eq!(failure.message, "failed to upgrade pip in vLLM virtualenv");
            assert_eq!(failure.causes, vec!["x"]);
        }
        _ => panic!("pip that does not run fails"),
    }
}

#[test]
fn bootstrap_python_prefers_the_one_that_is_set() {
    let set = PathBuf::from("/set");
    let mut known = BootstrapAnswers { set_is_file: None, python3: None, python: None };
    assert!(matches!(find_bootstrap_python(Some(&set), &known), BootstrapStep::CheckSet(_)));
    known.set_is_file = Some(true);
    assert!(matches!(
        find_bootstrap_python(Some(&set), &known),
        BootstrapStep::Done(Some(ref path)) if *path == set
    ));
    known.set_is_file = Some(false);
    assert!(matches!(find_bootstrap_python(Some(&set), &known), BootstrapStep::FindPython3));
}
