use std::path::PathBuf;
use werk1112::backend::external::{
    backend_program, default_llama_cli, default_python, estimate_tokens, format_float,
    receiver_closed, truncate_at_stop, CommandStep, LlamaCppBackend, MlxBackend, ProgramStep,
    StreamingEvent, StreamingRun, StreamingStep,
};
use werk1112::backend::generate::{
    CommandArg, GenerateRequest, GenerateStreamEvent, SamplingNumber, StreamGranularity,
};
use werk1112::model::{ModelFormat, ModelManifest, ModelMetadata, ModelStore, RepositoryLayout};
use werk1112::process::{CommandOutcome, CommandOutput};

fn finished(success: bool, stdout: &[u8], stderr: &str) -> CommandOutcome {
    CommandOutcome::Finished(CommandOutput {
        success,
        status: "exit status: 1".to_string(),
        stdout: stdout.to_vec(),
        stderr: stderr.as_bytes().to_vec(),
    })
}

fn sampling(value: f64) -> SamplingNumber {
    SamplingNumber {
        shown: format!("{value}"),
        fixed: format!("{value:.6}"),
        json: serde_json::Number::from_f64(value),
    }
}

fn request() -> GenerateRequest {
    GenerateRequest {
        prompt: "one two".to_string(),
        messages: Vec::new(),
        image_urls: vec!["i.png".to_string()],
        max_tokens: 8,
        temperature: Some(sampling(0.7)),
        top_p: Some(sampling(1.0)),
        stop: vec![String::new(), "END".to_string(), "x".to_string()],
        seed: Some(1),
        stream_granularity: StreamGranularity::Token,
        verbose: false,
        debug: false,
    }
}

fn manifest(format: ModelFormat, model_path: Option<&str>) -> ModelManifest {
    ModelManifest {
        id: "m".to_string(),
        format,
        architecture: None,
        config_path: None,
        model_path: model_path.map(str::to_string),
        metadata: ModelMetadata {
            repository_layout: RepositoryLayout { name: "Plain".to_string() },
            family: None,
        },
    }
}

fn store() -> ModelStore {
    ModelStore { home: PathBuf::from("/home/werk") }
}

fn shown(args: &[CommandArg]) -> Vec<String> {
    args.iter()
        .map(|arg| match arg {
            CommandArg::Text(text) => text.clone(),
            CommandArg::File(path) => format!("<{}>", path.display()),
        })
        .collect()
}

#[test]
fn text_is_cut_at_the_first_stop_of_the_list() {
    let stops = vec!["".to_string(), "zz".to_string(), "b".to_string(), "a".to_string()];
    let mut text = "xxaxbx".to_string();
    assert_eq!(truncate_at_stop(&mut text, &stops), "stop");
    assert_eq!(text, "xxax");
    let mut plain = "né".to_string();
    assert_eq!(truncate_at_stop(&mut plain, &stops), "length");
    assert_eq!(plain, "né");
    let mut multibyte = "ééstop".to_string();
    assert_eq!(truncate_at_stop(&mut multibyte, &["és".to_string()]), "stop");
    assert_eq!(multibyte, "é");
    assert_eq!(estimate_tokens(" a b  c "), 3);
    assert_eq!(estimate_tokens(""), 0);
}

#[test]
fn numbers_are_shortened() {
    for (value, expected) in [
        (0.7, "0.7"),
        (1.0, "1"),
        (10.0, "10"),
        (0.0, "0"),
        (0.123456789, "0.123457"),
        (100.5, "100.5"),
    ] {
        assert_eq!(format_float(&format!("{value:.6}")), expected);
    }
    assert_eq!(format_float("NaN"), "NaN");
    assert_eq!(format_float("100"), "100");
    assert_eq!(format_float(""), "");
}

#[test]
fn programs_come_from_settings_siblings_or_names() {
    let exe = PathBuf::from("/opt/werk/werk");
    assert!(matches!(
        backend_program("llama-cli", Some(" /x y "), Some(&exe), None),
        ProgramStep::Use(ref path) if *path == PathBuf::from(" /x y ")
    ));
    assert!(matches!(
        backend_program("llama-cli", Some("  "), Some(&exe), None),
        ProgramStep::CheckFile(ref path) if *path == PathBuf::from("/opt/werk/llama-cli")
    ));
    assert!(matches!(
        backend_program("llama-cli", None, Some(&exe), Some(true)),
        ProgramStep::Use(ref path) if *path == PathBuf::from("/opt/werk/llama-cli")
    ));
    assert!(matches!(
        backend_program("llama-cli", None, Some(&exe), Some(false)),
        ProgramStep::Use(ref path) if *path == PathBuf::from("llama-cli")
    ));
    assert!(matches!(
        backend_program("llama-cli", None, None, None),
        ProgramStep::Use(ref path) if *path == PathBuf::from("llama-cli")
    ));
    assert_eq!(default_llama_cli(true), "llama-cli.exe");
    assert_eq!(default_llama_cli(false), "llama-cli");
    assert_eq!(default_python(true), "python.exe");
    assert_eq!(default_python(false), "python3");
}

#[test]
fn llama_commands_are_made() {
    let backend = LlamaCppBackend::new_vulkan(store(), PathBuf::from("/bin/llama"));
    assert!(matches!(
        backend.command_for(&manifest(ModelFormat::Onnx, None), &request(), None),
        CommandStep::Fail(failure) if failure.message
            == "vulkan backend uses llama.cpp and currently supports GGUF models only"
    ));
    assert!(matches!(
        backend.command_for(&manifest(ModelFormat::Gguf, None), &request(), None),
        CommandStep::Fail(failure) if failure.message == "GGUF manifest has no model_path"
    ));
    let model = manifest(ModelFormat::Gguf, Some("m.gguf"));
    assert!(matches!(
        backend.command_for(&model, &request(), None),
        CommandStep::AskFile(ref file) if file == "m.gguf"
    ));
    match backend.command_for(&model, &request(), Some(&PathBuf::from("/s/m.gguf"))) {
        CommandStep::Run { program, args } => {
            assert_eq!(program, PathBuf::from("/bin/llama"));
            assert_eq!(
                shown(&args),
                vec![
                    "-m",
                    "</s/m.gguf>",
                    "-p",
                    "one two",
                    "-n",
                    "8",
                    "-ngl",
                    "999",
                    "--no-display-prompt",
                    "--temp",
                    "0.7",
                    "--top-p",
                    "1",
                    "--seed",
                    "1",
                    "--image",
                    "i.png"
                ]
            );
        }
        _ => panic!("the command is made"),
    }
}

#[test]
fn mlx_commands_are_made() {
    let backend = MlxBackend::new(store(), PathBuf::from("/bin/python3"), None);
    assert_eq!(backend.module, "mlx_lm.generate");
    let named = MlxBackend::new(store(), PathBuf::from("/bin/python3"), Some("my.mod".to_string()));
    let files = MlxBackend::files_dir(&PathBuf::from("/models/m"));
    assert_eq!(files, PathBuf::from("/models/m/files"));
    assert!(matches!(
        backend.command_for(&manifest(ModelFormat::Gguf, None), &request(), &files, None),
        CommandStep::Fail(_)
    ));
    let model = manifest(ModelFormat::Mlx, None);
    assert!(matches!(
        backend.command_for(&model, &request(), &files, None),
        CommandStep::CheckDirectory(_)
    ));
    assert!(matches!(
        backend.command_for(&model, &request(), &files, Some(false)),
        CommandStep::Fail(failure) if failure.message
            == "model files directory does not exist: /models/m/files"
    ));
    match named.command_for(&model, &request(), &files, Some(true)) {
        CommandStep::Run { program, args } => {
            assert_eq!(program, PathBuf::from("/bin/python3"));
            assert_eq!(
                shown(&args),
                vec![
                    "-m",
                    "my.mod",
                    "--model",
                    "</models/m/files>",
                    "--prompt",
                    "one two",
                    "--max-tokens",
                    "8",
                    "--temp",
                    "0.7",
                    "--image",
                    "i.png"
                ]
            );
        }
        _ => panic!("the command is made"),
    }
}

#[test]
fn outputs_become_responses() {
    let llama = LlamaCppBackend::new_vulkan(store(), PathBuf::from("/bin/llama"));
    let response =
        llama.generate(&request(), &finished(true, b" hello world END more", ""), 12).unwrap();
    assert_eq!(response.text, "hello world");
    assert_eq!(response.finish_reason, "stop");
    assert_eq!((response.prompt_tokens, response.completion_tokens), (2, 2));
    assert_eq!(response.timings.decode_nanos, 12);
    assert_eq!(response.timings.total_nanos, 12);
    assert_eq!(
        llama.generate(&request(), &finished(false, b"", " bad "), 1).unwrap_err().message,
        "llama.cpp generation failed: bad"
    );
    let failure = llama
        .generate(&request(), &CommandOutcome::Failed("gone".to_string()), 1)
        .unwrap_err();
    assert_eq!(failure.message, "failed to execute /bin/llama");
    assert_eq!(failure.causes, vec!["gone"]);
    let mlx = MlxBackend::new(store(), PathBuf::from("/py"), None);
    assert_eq!(
        mlx.generate(&request(), &finished(false, b"", "bad"), 1).unwrap_err().message,
        "mlx generation failed: bad"
    );
    let lossy = mlx.generate(&request(), &finished(true, b"a\xff", ""), 1).unwrap();
    assert_eq!(lossy.text, "a\u{fffd}");
    assert_eq!(lossy.finish_reason, "length");
}

#[test]
fn probes_tell_what_works() {
    let llama = PathBuf::from("/bin/llama");
    assert_eq!(
        LlamaCppBackend::probe_vulkan(&llama, &finished(true, b"", "")).unwrap(),
        "llama.cpp CLI at /bin/llama"
    );
    assert_eq!(
        LlamaCppBackend::probe_vulkan(&llama, &finished(false, b"", "x\n")).unwrap_err().message,
        "/bin/llama --help failed: x"
    );
    assert_eq!(
        LlamaCppBackend::probe_vulkan(&llama, &CommandOutcome::Failed("n".to_string()))
            .unwrap_err()
            .message,
        "failed to execute /bin/llama; set WERK_LLAMA_CLI to a llama.cpp Vulkan llama-cli binary"
    );
    let python = PathBuf::from("/py");
    assert_eq!(MlxBackend::probe(&python, &finished(true, b"", "")).unwrap(), "mlx-lm via /py");
    assert_eq!(
        MlxBackend::probe(&python, &finished(false, b"", "x")).unwrap_err().message,
        "mlx-lm is not importable with /py: x"
    );
    assert_eq!(
        MlxBackend::probe(&python, &CommandOutcome::Failed("n".to_string())).unwrap_err().message,
        "failed to execute /py; set WERK_MLX_PYTHON to a Python with mlx-lm installed"
    );
}

#[test]
fn streams_send_text_and_an_end() {
    let mut run = StreamingRun::new();
    let mut sent = String::new();
    for bytes in [b"hello ".to_vec(), b"wor".to_vec(), b"ldEND!".to_vec()] {
        match run.run_streaming_command(&request(), "failed", StreamingEvent::Output(bytes)) {
            StreamingStep::Send(GenerateStreamEvent::TextChunk(text)) => sent.push_str(&text),
            _ => panic!("output is sent"),
        }
    }
    assert_eq!(sent, "hello worldEND!");
    assert_eq!(run.text, sent);
    assert!(matches!(
        run.run_streaming_command(&request(), "failed", StreamingEvent::Output(Vec::new())),
        StreamingStep::AwaitEnd
    ));
    match run.run_streaming_command(
        &request(),
        "failed",
        StreamingEvent::Ended { success: true, stderr: String::new(), elapsed_nanos: 3 },
    ) {
        StreamingStep::Finish(GenerateStreamEvent::Done {
            finish_reason,
            prompt_tokens,
            completion_tokens,
            timings,
            ..
        }) => {
            assert_eq!(finish_reason, "stop");
            assert_eq!((prompt_tokens, completion_tokens), (2, 2));
            assert_eq!(timings.total_nanos, 3);
        }
        _ => panic!("the stream ends"),
    }
    let message = |event: StreamingEvent| {
        let mut run = StreamingRun::new();
        match run.run_streaming_command(&request(), "failed", event) {
            StreamingStep::Fail(failure) => failure.format_chain(),
            _ => panic!("a failure is told"),
        }
    };
    assert_eq!(
        message(StreamingEvent::NotStarted("a".to_string())),
        "failed to spawn external backend process: a"
    );
    assert_eq!(message(StreamingEvent::NoOutput), "failed to capture external backend stdout");
    assert_eq!(
        message(StreamingEvent::NotRead("b".to_string())),
        "failed to read external backend stdout: b"
    );
    assert_eq!(
        message(StreamingEvent::NotWaitedFor("c".to_string())),
        "failed to wait for external backend: c"
    );
    assert_eq!(
        message(StreamingEvent::Ended {
            success: false,
            stderr: " boom ".to_string(),
            elapsed_nanos: 1
        }),
        "failed: boom"
    );
    assert_eq!(receiver_closed("channel closed").message, "stream receiver closed: channel closed");
}
