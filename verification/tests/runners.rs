use std::path::PathBuf;
use werk1112::backend::burn::{self, BurnAnswers, BurnBackend, BurnMode, BurnSearch, BurnStep};
use werk1112::backend::generate::{
    CommandArg, GenerateRequest, GenerateStreamEvent, SamplingNumber, StreamGranularity, stream_end,
    stream_of,
};
use werk1112::backend::onnxruntime::{
    self, bundled_runner_candidates, find_bundled_runner, install_managed_onnx_runtime,
    missing_bundle_message, model_path, AvailabilityStep, EnsureAction, EnsureAnswers,
    InstallAnswers, InstallStep, LocateAnswers, LocateStep, OnnxAnswers, OnnxProvisionOptions,
    OnnxRuntimeAvailability, OnnxRuntimeBackend, OnnxRuntimeDiscovery, OnnxRuntimeMode,
    OnnxRuntimeSearch, OnnxStep,
};
use werk1112::backend::path_search::{find_in_path, program_places, PathSearch};
use werk1112::backend::runner::{RunnerCheck, TimedRun};
use werk1112::failure::Failure;
use werk1112::model::{
    ArtifactKind, ArtifactStatus, ModelArtifact, ModelFormat, ModelManifest, ModelMetadata,
    ModelStore, RepositoryLayout,
};
use werk1112::process::{CommandOutcome, CommandOutput};

fn finished(success: bool, stdout: &str, stderr: &str) -> CommandOutcome {
    CommandOutcome::Finished(CommandOutput {
        success,
        status: "exit status: 2".to_string(),
        stdout: stdout.as_bytes().to_vec(),
        stderr: stderr.as_bytes().to_vec(),
    })
}

fn works() -> RunnerCheck {
    RunnerCheck { exists: true, help: Some(finished(true, "", "")) }
}

fn absent() -> RunnerCheck {
    RunnerCheck { exists: false, help: None }
}

fn broken() -> RunnerCheck {
    RunnerCheck { exists: true, help: Some(finished(false, "", "")) }
}

fn store() -> ModelStore {
    ModelStore { home: PathBuf::from("/home/werk") }
}

fn manifest(format: ModelFormat) -> ModelManifest {
    ModelManifest {
        id: "m".to_string(),
        format,
        architecture: None,
        config_path: None,
        model_path: Some("files/model.onnx".to_string()),
        metadata: ModelMetadata {
            repository_layout: RepositoryLayout { name: "Plain".to_string() },
            family: None,
        },
    }
}

fn request() -> GenerateRequest {
    GenerateRequest {
        prompt: "say hi".to_string(),
        messages: Vec::new(),
        image_urls: Vec::new(),
        max_tokens: 16,
        temperature: Some(SamplingNumber {
            shown: "0.5".to_string(),
            fixed: "0.500000".to_string(),
            json: None,
        }),
        top_p: None,
        stop: Vec::new(),
        seed: Some(3),
        stream_granularity: StreamGranularity::Token,
        verbose: true,
        debug: true,
    }
}

fn shown(args: &[CommandArg]) -> Vec<String> {
    args.iter()
        .map(|arg| match arg {
            CommandArg::Text(text) => text.clone(),
            CommandArg::File(path) => format!("<{}>", path.display()),
        })
        .collect()
}

fn onnx_found() -> OnnxRuntimeDiscovery {
    let candidates = OnnxRuntimeBackend::candidates(
        &store(),
        OnnxRuntimeMode::Cpu,
        Some(PathBuf::from("/r")),
        None,
        None,
        false,
    );
    match OnnxRuntimeBackend::discover(&candidates, &[works()]) {
        OnnxRuntimeSearch::Done(discovery) => discovery,
        OnnxRuntimeSearch::Check(_) => panic!("the search is over"),
    }
}

fn onnx_missing() -> OnnxRuntimeDiscovery {
    let candidates =
        OnnxRuntimeBackend::candidates(&store(), OnnxRuntimeMode::Cpu, None, None, None, false);
    match OnnxRuntimeBackend::discover(&candidates, &[absent()]) {
        OnnxRuntimeSearch::Done(discovery) => discovery,
        OnnxRuntimeSearch::Check(_) => panic!("the search is over"),
    }
}

#[test]
fn modes_have_names() {
    assert_eq!(BurnMode::Cuda.label(), "burn-cuda");
    assert_eq!(BurnMode::Cpu.display(), "Burn CPU");
    assert_eq!(BurnMode::Cuda.backend_arg(), "cuda");
    assert_eq!(BurnMode::Cpu.runner_variable(), "WERK_BURN_RUNNER_CPU");
    assert_eq!(OnnxRuntimeMode::Rocm.label(), "onnxruntime-rocm");
    assert_eq!(OnnxRuntimeMode::Cuda.display(), "ONNX Runtime CUDA");
    assert_eq!(OnnxRuntimeMode::Cpu.bundle_env(), "WERK_ONNX_RUNTIME_BUNDLE_CPU");
    assert_eq!(OnnxRuntimeMode::Rocm.runner_variable(), "WERK_ONNX_RUNTIME_ROCM");
    assert_eq!(OnnxRuntimeMode::Rocm.backend_arg(), "rocm");
    assert_eq!(
        burn::managed_runner_path(&store(), BurnMode::Cuda, false),
        PathBuf::from("/home/werk/backends/burn-cuda/werk-burn-runner")
    );
    assert_eq!(
        onnxruntime::managed_runner_path(&store(), OnnxRuntimeMode::Cpu, true),
        PathBuf::from("/home/werk/backends/onnxruntime-cpu/werk-onnx-runner.exe")
    );
    assert_eq!(BurnBackend::new(store(), BurnMode::Cpu).mode, BurnMode::Cpu);
    assert_eq!(
        OnnxRuntimeBackend::new(store(), OnnxRuntimeMode::Cpu).mode,
        OnnxRuntimeMode::Cpu
    );
    assert!(!OnnxProvisionOptions::default().install_missing_runtime);
    assert!(!OnnxProvisionOptions::default().verbose);
}

#[test]
fn modes_have_runners_of_their_own() {
    for home in ["/home/werk", "//srv/werk", "werk/", "\\\\srv\\share\\werk"] {
        let store = ModelStore { home: PathBuf::from(home) };
        let base = if home.ends_with('/') { home.to_string() } else { format!("{home}/") };
        let path = burn::managed_runner_path(&store, BurnMode::Cpu, false);
        assert_eq!(path.to_str(), Some(format!("{base}backends/burn-cpu/werk-burn-runner").as_str()));
        assert_ne!(path, burn::managed_runner_path(&store, BurnMode::Cuda, false));
        let modes = [OnnxRuntimeMode::Cpu, OnnxRuntimeMode::Cuda, OnnxRuntimeMode::Rocm];
        for first in modes {
            for second in modes {
                let same = onnxruntime::managed_runner_path(&store, first, true)
                    == onnxruntime::managed_runner_path(&store, second, true);
                assert_eq!(same, first == second);
            }
        }
    }
}

#[test]
fn programs_are_found_in_the_search_path() {
    let dirs = vec![PathBuf::from("/a"), PathBuf::from("/b")];
    let places = program_places("tool", &dirs, false);
    assert_eq!(places, vec![PathBuf::from("/a/tool"), PathBuf::from("/b/tool")]);
    let places = program_places("tool", &dirs, true);
    assert_eq!(places.len(), 4);
    assert_eq!(places[3], PathBuf::from("/b/tool.exe"));
    assert!(matches!(
        find_in_path(&places, &[false]),
        PathSearch::Check(ref path) if *path == PathBuf::from("/a/tool.exe")
    ));
    assert!(matches!(
        find_in_path(&places, &[false, true]),
        PathSearch::Done(Some(ref path)) if *path == PathBuf::from("/a/tool.exe")
    ));
    assert!(matches!(find_in_path(&places, &[false; 4]), PathSearch::Done(None)));
}

#[test]
fn burn_takes_the_first_runner_that_works() {
    let candidates = BurnBackend::candidates(
        &store(),
        BurnMode::Cuda,
        None,
        Some(PathBuf::from("/set/runner")),
        Some(PathBuf::from("/usr/bin/werk-burn-runner")),
        false,
    );
    assert!(matches!(
        BurnBackend::discover(&candidates, &[]),
        BurnSearch::Check(ref path) if *path == PathBuf::from("/set/runner")
    ));
    assert!(matches!(
        BurnBackend::discover(&candidates, &[broken()]),
        BurnSearch::Check(ref path)
            if *path == PathBuf::from("/home/werk/backends/burn-cuda/werk-burn-runner")
    ));
    let found = match BurnBackend::discover(&candidates, &[broken(), absent(), works()]) {
        BurnSearch::Done(found) => found,
        BurnSearch::Check(_) => panic!("the search is over"),
    };
    assert_eq!(found.source, "PATH: werk-burn-runner");
    let usable: Vec<bool> = found.attempts.iter().map(|attempt| attempt.usable).collect();
    assert_eq!(usable, vec![false, false, false, true]);
    assert_eq!(found.attempts[0].detail, "not set");
    assert_eq!(found.attempts[1].detail, "runner missing or --help failed");
    assert_eq!(found.attempts[3].detail, "runner --help ok");
    assert_eq!(
        BurnBackend::probe(BurnMode::Cuda, &found).unwrap(),
        "Burn CUDA runner /usr/bin/werk-burn-runner"
    );
    assert_eq!(
        BurnBackend::unavailable_reason(&found),
        "Burn runner validation failed"
    );
    let gone = RunnerCheck { exists: false, help: Some(finished(true, "", "")) };
    assert!(matches!(BurnBackend::discover(&candidates, &[gone]), BurnSearch::Check(_)));
    let none = match BurnBackend::discover(&candidates, &[absent(), absent(), absent()]) {
        BurnSearch::Done(none) => none,
        BurnSearch::Check(_) => panic!("the search is over"),
    };
    assert_eq!(none.path, None);
    assert_eq!(none.source, "missing");
    assert_eq!(BurnBackend::unavailable_reason(&none), "Burn runner not installed");
    let expected = "Burn CUDA requested but no runner is installed.\n\nTried:\n- WERK_BURN_RUNNER_CUDA (missing, not usable): not set\n- WERK_BURN_RUNNER: /set/runner (missing, not usable): runner missing or --help failed\n- managed cache: /home/werk/backends/burn-cuda/werk-burn-runner (missing, not usable): runner missing or --help failed\n- PATH: werk-burn-runner: /usr/bin/werk-burn-runner (missing, not usable): runner missing or --help failed\n\nFix:\n- install a Werk release artifact that includes the Burn runner\n- or set WERK_BURN_RUNNER=/path/to/werk-burn-runner\n- or set WERK_BURN_RUNNER_CUDA=/path/to/werk-burn-runner";
    assert_eq!(BurnBackend::missing_message(BurnMode::Cuda, &none), expected);
    assert_eq!(BurnBackend::probe(BurnMode::Cuda, &none).unwrap_err().message, expected);
}

#[test]
fn burn_generation_goes_step_by_step() {
    let backend = BurnBackend::new(store(), BurnMode::Cpu);
    let dir = PathBuf::from("/models/m");
    let mut answers = BurnAnswers { discovery: None, directory: None, run: None };
    let model = manifest(ModelFormat::SafeTensors);
    match backend.generate_inner(&manifest(ModelFormat::Gguf), &request(), &dir, &answers) {
        BurnStep::Fail(failure) => assert_eq!(
            failure.message,
            "Burn backend supports HF safetensors model directories only"
        ),
        _ => panic!("another format fails"),
    }
    let mut with_image = request();
    with_image.image_urls.push("u".to_string());
    match backend.generate_inner(&model, &with_image, &dir, &answers) {
        BurnStep::Fail(failure) => assert_eq!(
            failure.message,
            "Burn text backend received image inputs; use a VLM-capable model/runtime"
        ),
        _ => panic!("an image fails"),
    }
    assert!(matches!(
        backend.generate_inner(&model, &request(), &dir, &answers),
        BurnStep::FindRunner
    ));
    let candidates = BurnBackend::candidates(
        &store(),
        BurnMode::Cpu,
        Some(PathBuf::from("/runner")),
        None,
        None,
        false,
    );
    answers.discovery = match BurnBackend::discover(&candidates, &[works()]) {
        BurnSearch::Done(found) => Some(found),
        BurnSearch::Check(_) => None,
    };
    assert!(matches!(
        backend.generate_inner(&model, &request(), &dir, &answers),
        BurnStep::CheckDirectory(_)
    ));
    answers.directory = Some(false);
    match backend.generate_inner(&model, &request(), &dir, &answers) {
        BurnStep::Fail(failure) => assert_eq!(
            failure.message,
            "model directory for 'm' does not exist: /models/m"
        ),
        _ => panic!("a missing directory fails"),
    }
    answers.directory = Some(true);
    match backend.generate_inner(&model, &request(), &dir, &answers) {
        BurnStep::Run { notes, program, args } => {
            assert_eq!(
                notes,
                vec![
                    "selected backend: burn-cpu",
                    "Burn runner: /runner",
                    "model path: /models/m"
                ]
            );
            assert_eq!(program, PathBuf::from("/runner"));
            assert_eq!(
                shown(&args),
                vec![
                    "--model",
                    "</models/m>",
                    "--prompt",
                    "say hi",
                    "--max-tokens",
                    "16",
                    "--backend",
                    "cpu",
                    "--json",
                    "--temperature",
                    "0.5",
                    "--seed",
                    "3"
                ]
            );
        }
        _ => panic!("the runner runs"),
    }
    let mut run = |outcome: CommandOutcome| {
        answers.run = Some(TimedRun { outcome, decode_nanos: 5, total_nanos: 9 });
        backend.generate_inner(&model, &request(), &dir, &answers)
    };
    match run(finished(
        true,
        "{\"text\": \"hello there\", \"prompt_tokens\": 7, \"finish_reason\": \"length\"}",
        "",
    )) {
        BurnStep::Done(response) => {
            assert_eq!(response.text, "hello there");
            assert_eq!(response.prompt_tokens, 7);
            assert_eq!(response.completion_tokens, 2);
            assert_eq!(response.finish_reason, "length");
            assert_eq!(response.timings.decode_nanos, 5);
            assert_eq!(response.timings.total_nanos, 9);
        }
        _ => panic!("a response comes"),
    }
    match run(finished(true, "{\"text\": \"\"}", "")) {
        BurnStep::Done(response) => {
            assert_eq!((response.prompt_tokens, response.completion_tokens), (2, 1));
            assert_eq!(response.finish_reason, "stop");
        }
        _ => panic!("an empty response comes"),
    }
    match run(finished(true, "{}", "")) {
        BurnStep::Fail(failure) => {
            assert_eq!(failure.message, "Burn runner JSON missing string field 'text'")
        }
        _ => panic!("a reply without text fails"),
    }
    match run(finished(true, "nope", "")) {
        BurnStep::Fail(failure) => {
            assert_eq!(failure.message, "Burn runner returned invalid JSON: nope");
            assert_eq!(failure.causes, vec!["expected ident at line 1 column 2"]);
        }
        _ => panic!("a reply that is no JSON fails"),
    }
    match run(finished(false, "out", " err \n")) {
        BurnStep::Fail(failure) => assert_eq!(failure.message, "Burn runner failed: err"),
        _ => panic!("a runner that fails fails"),
    }
    match run(CommandOutcome::Failed("denied".to_string())) {
        BurnStep::Fail(failure) => {
            assert_eq!(failure.message, "failed to run Burn runner /runner");
            assert_eq!(failure.causes, vec!["denied"]);
        }
        _ => panic!("a runner that does not run fails"),
    }
}

#[test]
fn onnx_availability_looks_at_bundles_last() {
    let bundled = vec![PathBuf::from("/x"), PathBuf::from("/y")];
    assert!(matches!(
        OnnxRuntimeBackend::availability(&onnx_found(), &bundled, &[]),
        AvailabilityStep::Known(OnnxRuntimeAvailability::Ready)
    ));
    assert!(matches!(
        OnnxRuntimeBackend::availability(&onnx_missing(), &bundled, &[broken()]),
        AvailabilityStep::Check(ref path) if *path == PathBuf::from("/y")
    ));
    assert!(matches!(
        OnnxRuntimeBackend::availability(&onnx_missing(), &bundled, &[broken(), works()]),
        AvailabilityStep::Known(OnnxRuntimeAvailability::Installable)
    ));
    assert!(matches!(
        OnnxRuntimeBackend::availability(&onnx_missing(), &bundled, &[broken(), absent()]),
        AvailabilityStep::Known(OnnxRuntimeAvailability::Unavailable)
    ));
    assert!(matches!(
        find_bundled_runner(&bundled, &[works()]),
        PathSearch::Done(Some(ref path)) if *path == PathBuf::from("/x")
    ));
    assert_eq!(
        OnnxRuntimeBackend::unavailable_reason(&onnx_missing()),
        "runner not installed or bundled"
    );
    assert!(OnnxRuntimeBackend::missing_message(OnnxRuntimeMode::Cpu, &onnx_missing())
        .starts_with("No ONNX Runtime CPU runner found.\n\nTried:\n- WERK_ONNX_RUNTIME_CPU (missing, not usable): not set\n- WERK_ONNX_RUNTIME (missing, not usable): not set\n- managed cache: /home/werk/backends/onnxruntime-cpu/werk-onnx-runner (missing"));
    assert_eq!(
        OnnxRuntimeBackend::probe(OnnxRuntimeMode::Cpu, &onnx_found()).unwrap(),
        "ONNX Runtime CPU runner /r"
    );
    assert!(OnnxRuntimeBackend::probe(OnnxRuntimeMode::Cpu, &onnx_missing()).is_err());
}

#[test]
fn onnx_bundles_are_looked_for_in_order() {
    let places = bundled_runner_candidates(
        OnnxRuntimeMode::Rocm,
        Some(PathBuf::from("/mode")),
        Some(PathBuf::from("/all")),
        Some(PathBuf::from("/opt/werk")),
        Some(PathBuf::from("/src")),
        false,
    );
    let expected: Vec<PathBuf> = [
        "/mode",
        "/all",
        "/opt/backends/onnxruntime-rocm/werk-onnx-runner",
        "/opt/onnxruntime-rocm/werk-onnx-runner",
        "/src/backends/onnxruntime-rocm/werk-onnx-runner",
        "/src/dist/backends/onnxruntime-rocm/werk-onnx-runner",
    ]
    .iter()
    .map(PathBuf::from)
    .collect();
    assert_eq!(places, expected);
    assert!(bundled_runner_candidates(OnnxRuntimeMode::Cpu, None, None, None, None, true).is_empty());
    let rootless = bundled_runner_candidates(
        OnnxRuntimeMode::Cpu,
        None,
        None,
        Some(PathBuf::from("/")),
        None,
        false,
    );
    assert!(rootless.is_empty());
    assert_eq!(
        missing_bundle_message(OnnxRuntimeMode::Cuda, &[PathBuf::from("/p")], true),
        "No bundled ONNX Runtime CUDA runner found for provisioning.\n\nTried:\n- /p\n\nFix:\n- set WERK_ONNX_RUNTIME_BUNDLE_CUDA=/path/to/werk-onnx-runner.exe\n- or ship the runner under backends/<runtime>/ next to the werk binary\n- or set WERK_ONNX_RUNTIME=/path/to/werk-onnx-runner"
    );
}

#[test]
fn onnx_installation_copies_a_bundle() {
    let bundled = vec![PathBuf::from("/bundle")];
    let dest = PathBuf::from("/home/werk/backends/onnxruntime-cpu/werk-onnx-runner");
    let mode = OnnxRuntimeMode::Cpu;
    let mut answers = InstallAnswers {
        checks: Vec::new(),
        directory_made: None,
        copied: None,
        made_executable: None,
        installed_check: None,
    };
    let step = |answers: &InstallAnswers| {
        install_managed_onnx_runtime(mode, &bundled, &dest, false, answers)
    };
    assert!(matches!(step(&answers), InstallStep::Check(_)));
    answers.checks = vec![absent()];
    assert!(matches!(
        step(&answers),
        InstallStep::Fail(failure) if failure.message.starts_with("No bundled ONNX Runtime CPU")
    ));
    answers.checks = vec![works()];
    assert!(matches!(
        step(&answers),
        InstallStep::MakeDirectory(ref dir) if *dir == PathBuf::from("/home/werk/backends/onnxruntime-cpu")
    ));
    answers.directory_made = Some(Ok(()));
    assert!(matches!(step(&answers), InstallStep::Copy { .. }));
    answers.copied = Some(Err("full".to_string()));
    match step(&answers) {
        InstallStep::Fail(failure) => {
            assert_eq!(
                failure.message,
                "failed to copy ONNX Runtime runner from /bundle to /home/werk/backends/onnxruntime-cpu/werk-onnx-runner"
            );
            assert_eq!(failure.causes, vec!["full"]);
        }
        _ => panic!("a copy that fails fails"),
    }
    answers.copied = Some(Ok(()));
    assert!(matches!(step(&answers), InstallStep::MakeExecutable(_)));
    answers.made_executable = Some(Ok(()));
    assert!(matches!(step(&answers), InstallStep::CheckInstalled(_)));
    answers.installed_check = Some(broken());
    assert!(matches!(
        step(&answers),
        InstallStep::Fail(failure)
            if failure.message.starts_with("installed ONNX Runtime runner did not pass --help validation: ")
    ));
    answers.installed_check = Some(works());
    assert!(matches!(step(&answers), InstallStep::Done(ref path) if *path == dest));
    let in_place = install_managed_onnx_runtime(
        mode,
        &[PathBuf::from("/home/werk/backends/onnxruntime-cpu//werk-onnx-runner")],
        &dest,
        false,
        &InstallAnswers {
            checks: vec![works()],
            directory_made: Some(Ok(())),
            copied: None,
            made_executable: None,
            installed_check: None,
        },
    );
    assert!(matches!(in_place, InstallStep::MakeExecutable(_)));
    let nowhere =
        install_managed_onnx_runtime(mode, &bundled, &PathBuf::from("/"), false, &answers);
    assert!(matches!(
        nowhere,
        InstallStep::Fail(failure) if failure.message == "invalid managed ONNX Runtime path /"
    ));
}

fn nothing_ensured() -> EnsureAnswers {
    EnsureAnswers {
        discovery: None,
        installed: None,
        discovery_after: None,
        artifact_ready: None,
        built: None,
    }
}

#[test]
fn onnx_runtime_is_made_available() {
    let mode = OnnxRuntimeMode::Cpu;
    let loud = OnnxProvisionOptions { install_missing_runtime: true, verbose: true };
    let tensors = manifest(ModelFormat::SafeTensors);
    let step = |model: &ModelManifest, answers: &EnsureAnswers| {
        OnnxRuntimeBackend::ensure_available_for_model_with_options(model, mode, loud, answers)
    };
    let mut answers = nothing_ensured();
    assert!(matches!(
        step(&manifest(ModelFormat::Gguf), &answers).action,
        EnsureAction::Fail(failure) if failure.message
            == "ONNX Runtime route requires a safetensors source model or direct ONNX model"
    ));
    assert!(matches!(step(&tensors, &answers).action, EnsureAction::Discover));
    answers.discovery = Some(onnx_missing());
    assert!(matches!(step(&tensors, &answers).action, EnsureAction::Install));
    assert!(matches!(
        OnnxRuntimeBackend::ensure_available_for_model(&tensors, mode, &answers).action,
        EnsureAction::Fail(failure) if failure.message.starts_with("No ONNX Runtime CPU runner found.")
    ));
    answers.installed = Some(Err(Failure::because("a".to_string(), "b".to_string())));
    assert!(matches!(
        step(&tensors, &answers).action,
        EnsureAction::Fail(failure) if failure.message == "a" && failure.causes == vec!["b"]
    ));
    answers.installed = Some(Ok(()));
    assert!(matches!(step(&tensors, &answers).action, EnsureAction::DiscoverAgain));
    answers.discovery_after = Some(onnx_found());
    let ready = step(&tensors, &answers);
    assert!(matches!(ready.action, EnsureAction::AskArtifact));
    assert_eq!(ready.notes, vec!["Selected runtime: ONNX Runtime CPU", "Runtime status: ready"]);
    let direct = step(&manifest(ModelFormat::Onnx), &answers);
    assert!(matches!(direct.action, EnsureAction::Done));
    assert_eq!(direct.notes.len(), 4);
    assert_eq!(direct.notes[2], "Artifact: direct ONNX model");
    answers.artifact_ready = Some(true);
    assert_eq!(step(&tensors, &answers).notes, vec!["Artifact: ready", "Result: runtime ready"]);
    answers.artifact_ready = Some(false);
    let building = step(&tensors, &answers);
    assert!(matches!(building.action, EnsureAction::BuildArtifact));
    assert_eq!(building.notes, vec!["Artifact: building ONNX export"]);
    answers.built = Some(Err(Failure::new("export failed".to_string())));
    let failed = step(&tensors, &answers);
    assert_eq!(
        failed.notes,
        vec!["Result: artifact build failed: ONNX artifact generation failed"]
    );
    assert!(matches!(
        failed.action,
        EnsureAction::Fail(failure) if failure.message == "ONNX artifact generation failed"
            && failure.causes == vec!["export failed"]
    ));
    answers.built = Some(Ok(()));
    let done = step(&tensors, &answers);
    assert!(matches!(done.action, EnsureAction::Done));
    assert_eq!(done.notes, vec!["Result: runtime ready"]);
    answers.discovery = Some(onnx_found());
    let quiet = OnnxRuntimeBackend::ensure_available_for_model(&tensors, mode, &answers);
    assert!(quiet.notes.is_empty());
    assert!(matches!(quiet.action, EnsureAction::Done));
}

fn artifact(status: ArtifactStatus) -> ModelArtifact {
    ModelArtifact {
        kind: ArtifactKind::Onnx,
        status,
        path: "artifacts/onnx/model.onnx".to_string(),
    }
}

#[test]
fn onnx_models_are_located() {
    let dir = PathBuf::from("/models/m");
    let mut answers =
        LocateAnswers { model_file: None, ready_artifact: None, built_artifact: None };
    let direct = manifest(ModelFormat::Onnx);
    assert!(matches!(
        model_path(&direct, &dir, &answers),
        LocateStep::AskFile(ref file) if file == "files/model.onnx"
    ));
    answers.model_file = Some(PathBuf::from("/f"));
    assert!(matches!(model_path(&direct, &dir, &answers), LocateStep::Done(_)));
    let mut nameless = manifest(ModelFormat::Onnx);
    nameless.model_path = None;
    assert!(matches!(
        model_path(&nameless, &dir, &answers),
        LocateStep::Fail(failure) if failure.message == "ONNX manifest has no model_path"
    ));
    assert!(matches!(
        model_path(&manifest(ModelFormat::Mlx), &dir, &answers),
        LocateStep::Fail(_)
    ));
    let tensors = manifest(ModelFormat::SafeTensors);
    assert!(matches!(model_path(&tensors, &dir, &answers), LocateStep::AskArtifact));
    answers.ready_artifact = Some(Some(artifact(ArtifactStatus::Ready)));
    assert!(matches!(
        model_path(&tensors, &dir, &answers),
        LocateStep::Done(ref path) if *path == PathBuf::from("/models/m/artifacts/onnx/model.onnx")
    ));
    for (path, found) in [
        ("/abs/model.onnx", "/abs/model.onnx"),
        ("a//b/./model.onnx", "/models/m/a/b/model.onnx"),
        ("../n/model.onnx", "/models/m/../n/model.onnx"),
        ("/", "/"),
        ("", "/models/m"),
    ] {
        let mut odd = artifact(ArtifactStatus::Ready);
        odd.path = path.to_string();
        answers.ready_artifact = Some(Some(odd));
        assert!(matches!(
            model_path(&tensors, &dir, &answers),
            LocateStep::Done(ref located) if *located == PathBuf::from(found)
        ));
    }
    answers.ready_artifact = Some(Some(artifact(ArtifactStatus::NotReady)));
    assert!(matches!(
        model_path(&tensors, &dir, &answers),
        LocateStep::Fail(failure) if failure.message == "ONNX artifact for 'm' is not ready"
    ));
    answers.ready_artifact = Some(None);
    assert!(matches!(model_path(&tensors, &dir, &answers), LocateStep::BuildArtifact));
    answers.built_artifact = Some(Err(Failure::new("x".to_string())));
    assert!(matches!(
        model_path(&tensors, &dir, &answers),
        LocateStep::Fail(failure) if failure.message == "x"
    ));
    answers.built_artifact = Some(Ok(artifact(ArtifactStatus::Ready)));
    assert!(matches!(model_path(&tensors, &dir, &answers), LocateStep::Done(_)));
}

#[test]
fn onnx_generation_goes_step_by_step() {
    let backend = OnnxRuntimeBackend::new(store(), OnnxRuntimeMode::Cpu);
    let dir = PathBuf::from("/models/m");
    let direct = manifest(ModelFormat::Onnx);
    let mut answers = OnnxAnswers {
        discovery: None,
        locate: LocateAnswers { model_file: None, ready_artifact: None, built_artifact: None },
        run: None,
    };
    let mut with_image = request();
    with_image.image_urls.push("u".to_string());
    assert!(matches!(
        backend.generate_inner(&direct, &with_image, &dir, &answers),
        OnnxStep::Fail(_)
    ));
    assert!(matches!(
        backend.generate_inner(&direct, &request(), &dir, &answers),
        OnnxStep::FindRunner
    ));
    answers.discovery = Some(onnx_missing());
    assert!(matches!(
        backend.generate_inner(&direct, &request(), &dir, &answers),
        OnnxStep::Fail(_)
    ));
    answers.discovery = Some(onnx_found());
    assert!(matches!(
        backend.generate_inner(&direct, &request(), &dir, &answers),
        OnnxStep::Locate(LocateStep::AskFile(_))
    ));
    answers.locate.model_file = Some(PathBuf::from("/f.onnx"));
    match backend.generate_inner(&direct, &request(), &dir, &answers) {
        OnnxStep::Run { notes, program, args } => {
            assert_eq!(
                notes,
                vec![
                    "Starting generation...",
                    "selected backend: onnxruntime-cpu",
                    "ONNX Runtime runner: /r",
                    "ONNX model: /f.onnx"
                ]
            );
            assert_eq!(program, PathBuf::from("/r"));
            assert_eq!(
                shown(&args),
                vec![
                    "--model",
                    "</f.onnx>",
                    "--prompt",
                    "say hi",
                    "--max-tokens",
                    "16",
                    "--backend",
                    "cpu",
                    "--json"
                ]
            );
        }
        _ => panic!("the runner runs"),
    }
    answers.run = Some(TimedRun {
        outcome: finished(true, "{\"text\":\"ok\",\"completion_tokens\":5}", ""),
        decode_nanos: 1,
        total_nanos: 2,
    });
    match backend.generate_inner(&direct, &request(), &dir, &answers) {
        OnnxStep::Done(response) => {
            assert_eq!(response.completion_tokens, 5);
            let end = stream_end(Ok(response.clone())).unwrap();
            assert!(matches!(end, GenerateStreamEvent::Done { completion_tokens: 5, .. }));
            let items = stream_of(Ok(response));
            assert_eq!(items.len(), 2);
            assert!(matches!(items[0], Ok(GenerateStreamEvent::TextChunk(ref text)) if text == "ok"));
        }
        _ => panic!("a response comes"),
    }
    answers.run = Some(TimedRun {
        outcome: finished(false, "", ""),
        decode_nanos: 1,
        total_nanos: 2,
    });
    match backend.generate_inner(&direct, &request(), &dir, &answers) {
        OnnxStep::Fail(failure) => {
            assert_eq!(failure.message, "ONNX Runtime runner failed: exit status: 2")
        }
        _ => panic!("a runner that fails fails"),
    }
    let chained = Failure::because("outer".to_string(), "inner".to_string());
    let items = stream_of(Err(chained.copied()));
    assert!(matches!(items[0], Err(ref message) if message == "outer"));
    assert!(matches!(stream_end(Err(chained)), Err(message) if message == "outer: inner"));
}
