use werk1112::inference::planner::{
    plan_execution, runtime_accelerator_matches, scores_fit, ExecutionDegradation, InferenceRuntimeCandidate,
    PlanCandidateStatus, RuntimeAccelerator,
};
use werk1112::inference::types::{
    EffectiveInferenceRequest, FitAssessment, InferenceTask, OutputModality, ParameterPolicy,
    ParameterSupportStatus, ParameterValue, WorkloadEstimate,
};
use werk1112::model::{ModelFormat, ModelManifest, ModelMetadata, RepositoryLayout};

fn task() -> InferenceTask {
    InferenceTask { name: "image-generation".to_string(), modality: OutputModality::Image }
}

fn manifest() -> ModelManifest {
    ModelManifest {
        id: "media".to_string(),
        format: ModelFormat::SafeTensors,
        architecture: Some("FluxPipeline".to_string()),
        config_path: None,
        model_path: None,
        metadata: ModelMetadata {
            repository_layout: RepositoryLayout { name: "Diffusers".to_string() },
            family: Some("flux".to_string()),
        },
    }
}

fn request(parameters: Vec<(&str, ParameterValue)>) -> EffectiveInferenceRequest {
    EffectiveInferenceRequest {
        task: task(),
        parameters: parameters.into_iter().map(|(path, value)| (path.to_string(), value)).collect(),
        explicit_parameters: Vec::new(),
        parameter_policy: ParameterPolicy::Strict,
    }
}

fn text(value: &str) -> ParameterValue {
    ParameterValue::Text(value.to_string())
}

fn candidate(id: &str, backend: &str, accelerator: RuntimeAccelerator) -> InferenceRuntimeCandidate {
    InferenceRuntimeCandidate {
        id: id.to_string(),
        backend: backend.to_string(),
        accelerator,
        available: true,
        availability_reason: None,
        supported_tasks: vec![task()],
        supported_layouts: Vec::new(),
        supported_formats: Vec::new(),
        supported_families: Vec::new(),
        supported_architectures: Vec::new(),
        parameter_support: Vec::new(),
        supports_offloading: true,
        supports_compile: false,
        supports_batching: false,
        priority: 100,
    }
}

fn fits() -> WorkloadEstimate {
    WorkloadEstimate { fit: FitAssessment::Fits }
}

fn likely_oom() -> WorkloadEstimate {
    WorkloadEstimate { fit: FitAssessment::LikelyOom }
}

#[test]
fn best_score_is_selected_and_order_does_not_matter() {
    let mut candidates = vec![
        candidate("c-cpu", "torch", RuntimeAccelerator::Cpu),
        candidate("b-cuda", "torch", RuntimeAccelerator::Cuda),
        candidate("a-cuda", "onnx", RuntimeAccelerator::Cuda),
    ];
    let plan = plan_execution(&manifest(), &request(Vec::new()), &fits(), &candidates);
    let order: Vec<&str> = plan.candidates.iter().map(|d| d.runtime_id.as_str()).collect();
    assert_eq!(order, vec!["a-cuda", "b-cuda", "c-cpu"]);
    assert_eq!(plan.selected_runtime.as_deref(), Some("a-cuda"));
    assert_eq!(plan.selected_backend.as_deref(), Some("onnx"));
    assert_eq!(plan.score, Some(100));
    assert_eq!(plan.candidates[2].score, Some(-20));
    assert!(!plan.backend_fallback);
    assert!(plan.degradations.is_empty());
    assert!(plan.model_or_quality_downgrades.is_empty());
    assert_eq!(plan.task.name, "image-generation");
    candidates.reverse();
    let again = plan_execution(&manifest(), &request(Vec::new()), &fits(), &candidates);
    let reversed: Vec<&str> = again.candidates.iter().map(|d| d.runtime_id.as_str()).collect();
    assert_eq!(reversed, order);
}

#[test]
fn requested_backend_is_preferred_or_demanded() {
    let candidates = vec![
        candidate("a", "torch", RuntimeAccelerator::Cuda),
        candidate("b", "ONNX", RuntimeAccelerator::Cpu),
    ];
    let preferred =
        plan_execution(&manifest(), &request(vec![("routing.backend", text("onnx"))]), &fits(), &candidates);
    assert_eq!(preferred.selected_runtime.as_deref(), Some("b"));
    assert_eq!(preferred.score, Some(480));
    assert!(!preferred.backend_fallback);
    let fallback =
        plan_execution(&manifest(), &request(vec![("routing.backend", text("mlx"))]), &fits(), &candidates);
    assert_eq!(fallback.selected_runtime.as_deref(), Some("a"));
    assert!(fallback.backend_fallback);
    let demanded = plan_execution(
        &manifest(),
        &request(vec![("routing.backend", text("mlx")), ("routing.fallback_policy", text("none"))]),
        &fits(),
        &candidates,
    );
    assert_eq!(demanded.selected_runtime, None);
    assert_eq!(demanded.score, None);
    assert_eq!(demanded.candidates[0].reasons, vec!["explicit backend 'mlx' was requested"]);
    let open =
        plan_execution(&manifest(), &request(vec![("routing.backend", text("auto"))]), &fits(), &candidates);
    assert_eq!(open.selected_runtime.as_deref(), Some("a"));
    assert!(!open.backend_fallback);
}

#[test]
fn every_reason_is_told_in_order() {
    let mut poor = candidate("x", "torch", RuntimeAccelerator::Cpu);
    poor.available = false;
    poor.supported_tasks = Vec::new();
    poor.supported_layouts = vec![RepositoryLayout { name: "Gguf".to_string() }];
    poor.supported_formats = vec![ModelFormat::Gguf];
    poor.supported_families = vec!["sdxl".to_string()];
    poor.supported_architectures = vec!["Other".to_string()];
    poor.parameter_support = vec![
        ("image.steps".to_string(), ParameterSupportStatus::Unsupported),
        ("image.guidance".to_string(), ParameterSupportStatus::Ignored),
        ("image.width".to_string(), ParameterSupportStatus::Native),
    ];
    let mut request = request(vec![
        ("routing.backend", text("onnx")),
        ("routing.fallback_policy", text("none")),
        ("routing.accelerator", text("cuda")),
    ]);
    request.explicit_parameters =
        vec!["image.guidance".to_string(), "image.steps".to_string(), "image.width".to_string(), "other".to_string()];
    let plan = plan_execution(&manifest(), &request, &likely_oom(), &[poor.clone()]);
    assert_eq!(
        plan.candidates[0].reasons,
        vec![
            "runtime is unavailable",
            "runtime does not support task image-generation",
            "runtime does not support Diffusers repository layout",
            "runtime does not support SafeTensors model format",
            "runtime does not support model family 'flux'",
            "runtime does not support architecture 'FluxPipeline'",
            "explicit backend 'onnx' was requested",
            "accelerator 'cuda' was requested",
            "explicit parameter 'image.guidance' is unsupported",
            "explicit parameter 'image.steps' is unsupported",
            "workload is likely out of memory",
        ]
    );
    assert_eq!(plan.candidates[0].status, PlanCandidateStatus::Rejected);
    assert_eq!(plan.candidates[0].score, None);
    assert_eq!(
        plan.model_or_quality_downgrades,
        vec!["consider a smaller model or stronger quantization", "consider a lower image resolution"]
    );
    request.parameter_policy = ParameterPolicy::Lenient;
    poor.availability_reason = Some("driver missing".to_string());
    let lenient = plan_execution(&manifest(), &request, &fits(), &[poor]);
    assert_eq!(lenient.candidates[0].reasons[0], "driver missing");
    assert_eq!(lenient.candidates[0].reasons.len(), 8);
}

#[test]
fn lists_match_without_letter_case() {
    let mut good = candidate("x", "torch", RuntimeAccelerator::Rocm);
    good.supported_layouts = vec![RepositoryLayout { name: "Diffusers".to_string() }];
    good.supported_formats = vec![ModelFormat::SafeTensors];
    good.supported_families = vec!["FLUX".to_string()];
    good.supported_architectures = vec!["fluxpipeline".to_string()];
    let wanted = request(vec![("routing.accelerator", text("HIP"))]);
    let plan = plan_execution(&manifest(), &wanted, &fits(), &[good]);
    assert_eq!(plan.selected_runtime.as_deref(), Some("x"));
}

#[test]
fn degradations_need_policy_permission_and_offloading() {
    let cuda = candidate("a", "torch", RuntimeAccelerator::Cuda);
    let permitted = vec![
        ("routing.fallback_policy", text("degrade")),
        ("routing.allow_cpu_offload", ParameterValue::Bool(true)),
        ("routing.allow_sequential_offload", ParameterValue::Bool(true)),
        ("routing.allow_component_offload", ParameterValue::Bool(false)),
        ("image.vae_tiling", ParameterValue::Bool(true)),
        ("video.window_size", ParameterValue::Unsigned(8)),
    ];
    let plan = plan_execution(&manifest(), &request(permitted.clone()), &likely_oom(), &[cuda.clone()]);
    assert_eq!(
        plan.degradations,
        vec![
            ExecutionDegradation::CpuOffload,
            ExecutionDegradation::SequentialOffload,
            ExecutionDegradation::VaeTiling,
        ]
    );
    assert_eq!(plan.score, Some(100 - 3 * 35));
    let relaxed = plan_execution(&manifest(), &request(permitted.clone()), &fits(), &[cuda.clone()]);
    assert!(relaxed.degradations.is_empty());
    let mut video = request(permitted.clone());
    video.task = InferenceTask { name: "video-generation".to_string(), modality: OutputModality::Video };
    let mut runtime = candidate("v", "torch", RuntimeAccelerator::Mps);
    runtime.supported_tasks = vec![video.task.clone()];
    let plan = plan_execution(&manifest(), &video, &likely_oom(), &[runtime]);
    assert_eq!(plan.degradations, vec![ExecutionDegradation::TemporalWindowing]);
    assert_eq!(
        plan.model_or_quality_downgrades[1],
        "consider fewer frames or a lower video resolution"
    );
    let none = plan_execution(
        &manifest(),
        &request(vec![("routing.fallback_policy", text("degrade"))]),
        &likely_oom(),
        &[cuda.clone()],
    );
    assert_eq!(
        none.candidates[0].reasons,
        vec!["workload is likely out of memory and no permitted degradation is enabled"]
    );
    let mut fixed = cuda;
    fixed.supports_offloading = false;
    let plan = plan_execution(&manifest(), &request(permitted), &likely_oom(), &[fixed]);
    assert_eq!(plan.candidates[0].reasons, vec!["workload is likely out of memory"]);
    assert!(plan.candidates[0].degradations.is_empty());
}

#[test]
fn downgrades_fit_the_modality() {
    for (modality, advice) in [
        (OutputModality::Audio, "consider a shorter duration"),
        (OutputModality::Text, "consider a shorter context"),
        (OutputModality::Embedding, "consider a shorter context"),
    ] {
        let mut wanted = request(Vec::new());
        wanted.task.modality = modality;
        let plan = plan_execution(&manifest(), &wanted, &likely_oom(), &[]);
        assert_eq!(plan.model_or_quality_downgrades[1], advice);
        assert!(plan.candidates.is_empty());
    }
}

#[test]
fn accepted_candidates_stand_before_rejected_ones() {
    let mut broken = candidate("a", "torch", RuntimeAccelerator::Cuda);
    broken.available = false;
    broken.priority = 10_000;
    let mut late = candidate("0", "torch", RuntimeAccelerator::Cuda);
    late.available = false;
    let good = candidate("z", "torch", RuntimeAccelerator::Cpu);
    let plan = plan_execution(&manifest(), &request(Vec::new()), &fits(), &[broken, late, good]);
    let order: Vec<&str> = plan.candidates.iter().map(|d| d.runtime_id.as_str()).collect();
    assert_eq!(order, vec!["z", "0", "a"]);
}

#[test]
fn accelerators_go_by_their_names() {
    assert!(runtime_accelerator_matches(RuntimeAccelerator::Cuda, "CUDA"));
    assert!(runtime_accelerator_matches(RuntimeAccelerator::Rocm, "hip"));
    assert!(runtime_accelerator_matches(RuntimeAccelerator::Mps, "metal"));
    assert!(runtime_accelerator_matches(RuntimeAccelerator::Mlx, "metal"));
    assert!(runtime_accelerator_matches(RuntimeAccelerator::Cpu, "cpu"));
    assert!(!runtime_accelerator_matches(RuntimeAccelerator::Other, "other"));
    assert!(!runtime_accelerator_matches(RuntimeAccelerator::Cuda, "rocm"));
}

#[test]
fn scores_must_fit_in_32_bits() {
    let mut high = candidate("a", "torch", RuntimeAccelerator::Cuda);
    high.priority = i32::MAX;
    assert!(scores_fit(&request(Vec::new()), &fits(), &[high.clone()]));
    let plan = plan_execution(&manifest(), &request(Vec::new()), &fits(), &[high.clone()]);
    assert_eq!(plan.score, Some(i32::MAX));
    let asked = request(vec![("routing.backend", text("torch"))]);
    assert!(!scores_fit(&asked, &fits(), &[high]));
    let mut low = candidate("b", "torch", RuntimeAccelerator::Cpu);
    low.priority = i32::MIN + 120;
    assert!(scores_fit(&request(Vec::new()), &fits(), &[low.clone()]));
    low.priority -= 1;
    assert!(!scores_fit(&request(Vec::new()), &fits(), &[low.clone()]));
    assert!(scores_fit(&asked, &fits(), &[low]));
    assert!(scores_fit(&asked, &fits(), &[]));
}
