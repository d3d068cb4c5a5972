//! The choice of a runtime for a request.

use super::types::{
    find_value, lookup, EffectiveInferenceRequest, FitAssessment, InferenceTask, OutputModality,
    ParameterPolicy, ParameterSupportStatus, WorkloadEstimate,
};
use crate::model::{ModelFormat, ModelManifest, RepositoryLayout};
use crate::text::ascii::{lower, same_ignoring_case, to_lower};
use crate::text::chars::same_text;
use crate::text::order::{is_at_or_before, lemma_text_le_total, lemma_text_le_transitive, text_le};
use crate::text::space::{optional_text, views};
use vstd::prelude::*;

verus! {

/// What a runtime computes on.
#[derive(Debug, Clone, Copy, PartialEq, Eq, Structural)]
pub enum RuntimeAccelerator {
    Cpu,
    Cuda,
    Rocm,
    Mps,
    Mlx,
    Other,
}

/// A runtime that may serve a request.
#[derive(Debug, Clone)]
pub struct InferenceRuntimeCandidate {
    pub id: String,
    pub backend: String,
    pub accelerator: RuntimeAccelerator,
    pub available: bool,
    pub availability_reason: Option<String>,
    pub supported_tasks: Vec<InferenceTask>,
    /// The layouts that the runtime takes; any layout where the list is empty.
    pub supported_layouts: Vec<RepositoryLayout>,
    /// The formats that the runtime takes; any format where the list is empty.
    pub supported_formats: Vec<ModelFormat>,
    /// The model families that the runtime takes; any family where the list is empty.
    pub supported_families: Vec<String>,
    /// The architectures that the runtime takes; any architecture where the list is empty.
    pub supported_architectures: Vec<String>,
    /// What the runtime makes of parameters. Where a path occurs more than once, its first entry
    /// counts.
    pub parameter_support: Vec<(String, ParameterSupportStatus)>,
    pub supports_offloading: bool,
    pub supports_compile: bool,
    pub supports_batching: bool,
    pub priority: i32,
}

/// Whether a candidate can serve the request.
#[derive(Debug, Clone, Copy, PartialEq, Eq, Structural)]
pub enum PlanCandidateStatus {
    Accepted,
    Rejected,
}

/// A way to run at less speed in less memory.
#[derive(Debug, Clone, PartialEq, Eq)]
pub enum ExecutionDegradation {
    CpuOffload,
    SequentialOffload,
    ComponentOffload,
    VaeTiling,
    TemporalWindowing,
    SlowerAttention { backend: String },
}

/// The decision on one candidate.
#[derive(Debug, Clone)]
pub struct PlanCandidateDecision {
    pub runtime_id: String,
    pub backend: String,
    pub status: PlanCandidateStatus,
    pub score: Option<i32>,
    pub reasons: Vec<String>,
    pub degradations: Vec<ExecutionDegradation>,
}

/// The plan for a request.
#[derive(Debug, Clone)]
pub struct ExecutionPlan {
    pub task: InferenceTask,
    pub selected_runtime: Option<String>,
    pub selected_backend: Option<String>,
    pub score: Option<i32>,
    pub candidates: Vec<PlanCandidateDecision>,
    pub backend_fallback: bool,
    pub degradations: Vec<ExecutionDegradation>,
    pub model_or_quality_downgrades: Vec<String>,
}

/// The mathematical model of a [`PlanCandidateDecision`].
#[verifier::ext_equal]
pub struct Decision {
    pub runtime_id: Seq<char>,
    pub backend: Seq<char>,
    pub status: PlanCandidateStatus,
    pub score: Option<i32>,
    pub reasons: Seq<Seq<char>>,
    pub degradations: Seq<ExecutionDegradation>,
}

impl View for PlanCandidateDecision {
    type V = Decision;

    open spec fn view(&self) -> Decision {
        Decision {
            runtime_id: self.runtime_id@,
            backend: self.backend@,
            status: self.status,
            score: self.score,
            reasons: views(self.reasons@),
            degradations: self.degradations@,
        }
    }
}

/// The models of a list of decisions.
pub open spec fn decisions_of(candidates: Seq<PlanCandidateDecision>) -> Seq<Decision> {
    candidates.map_values(|decision: PlanCandidateDecision| decision@)
}

/// A list of one reason where it applies.
pub open spec fn reason_if(applies: bool, reason: Seq<char>) -> Seq<Seq<char>> {
    if applies {
        seq![reason]
    } else {
        Seq::empty()
    }
}

/// A list of one degradation where it applies.
pub open spec fn degradation_if(
    applies: bool,
    degradation: ExecutionDegradation,
) -> Seq<ExecutionDegradation> {
    if applies {
        seq![degradation]
    } else {
        Seq::empty()
    }
}

/// The text under a path, unless it leaves the choice open.
pub open spec fn requested(
    request: EffectiveInferenceRequest,
    path: Seq<char>,
) -> Option<Seq<char>> {
    match request.text_at(path) {
        Some(text) => if text != "auto"@ {
            Some(text)
        } else {
            None
        },
        None => None,
    }
}

/// The backend that the caller asks for.
pub open spec fn requested_backend(request: EffectiveInferenceRequest) -> Option<Seq<char>> {
    requested(request, "routing.backend"@)
}

/// The accelerator that the caller asks for.
pub open spec fn requested_accelerator(request: EffectiveInferenceRequest) -> Option<Seq<char>> {
    requested(request, "routing.accelerator"@)
}

/// How far the plan may depart from what the caller asks for.
pub open spec fn fallback_policy(request: EffectiveInferenceRequest) -> Seq<char> {
    match request.text_at("routing.fallback_policy"@) {
        Some(policy) => policy,
        None => "backend"@,
    }
}

/// Whether an accelerator goes by a name; the case of letters does not matter.
pub open spec fn accelerator_goes_by(accelerator: RuntimeAccelerator, name: Seq<char>) -> bool {
    match accelerator {
        RuntimeAccelerator::Cpu => lower(name) == "cpu"@,
        RuntimeAccelerator::Cuda => lower(name) == "cuda"@,
        RuntimeAccelerator::Rocm => lower(name) == "rocm"@ || lower(name) == "hip"@,
        RuntimeAccelerator::Mps => lower(name) == "mps"@ || lower(name) == "metal"@,
        RuntimeAccelerator::Mlx => lower(name) == "mlx"@ || lower(name) == "metal"@,
        RuntimeAccelerator::Other => false,
    }
}

/// Whether a task is in the list.
pub open spec fn lists_task(tasks: Seq<InferenceTask>, task: InferenceTask) -> bool {
    exists|i: int|
        0 <= i < tasks.len() && (#[trigger] tasks[i]).name@ == task.name@ && tasks[i].modality
            == task.modality
}

/// Whether a layout is in the list.
pub open spec fn lists_layout(layouts: Seq<RepositoryLayout>, layout: RepositoryLayout) -> bool {
    exists|i: int| 0 <= i < layouts.len() && (#[trigger] layouts[i]).name@ == layout.name@
}

/// Whether a name is in the list; the case of letters does not matter.
pub open spec fn lists_name(names: Seq<String>, name: Seq<char>) -> bool {
    exists|i: int| 0 <= i < names.len() && lower((#[trigger] names[i])@) == lower(name)
}

/// Whether an explicit parameter speaks against a candidate.
pub open spec fn refuses_parameter(
    request: EffectiveInferenceRequest,
    candidate: InferenceRuntimeCandidate,
    path: Seq<char>,
) -> bool {
    &&& request.parameter_policy == ParameterPolicy::Strict
    &&& match lookup(candidate.parameter_support@, path) {
        Some(status) => status == ParameterSupportStatus::Ignored || status
            == ParameterSupportStatus::Unsupported,
        None => false,
    }
}

/// The reasons against a candidate that a list of explicit parameters gives.
pub open spec fn parameter_reasons(
    request: EffectiveInferenceRequest,
    candidate: InferenceRuntimeCandidate,
    paths: Seq<String>,
) -> Seq<Seq<char>>
    decreases paths.len(),
{
    if paths.len() == 0 {
        Seq::empty()
    } else {
        parameter_reasons(request, candidate, paths.drop_last()) + reason_if(
            refuses_parameter(request, candidate, paths.last()@),
            "explicit parameter '"@ + paths.last()@ + "' is unsupported"@,
        )
    }
}

/// The reason against a candidate that is not available.
pub open spec fn availability_reason(candidate: InferenceRuntimeCandidate) -> Seq<Seq<char>> {
    reason_if(
        !candidate.available,
        match candidate.availability_reason {
            Some(reason) => reason@,
            None => "runtime is unavailable"@,
        },
    )
}

/// The reason against a candidate without the task.
pub open spec fn task_reason(
    request: EffectiveInferenceRequest,
    candidate: InferenceRuntimeCandidate,
) -> Seq<Seq<char>> {
    reason_if(
        !lists_task(candidate.supported_tasks@, request.task),
        "runtime does not support task "@ + request.task.name@,
    )
}

/// The reason against a candidate without the repository layout.
pub open spec fn layout_reason(
    manifest: ModelManifest,
    candidate: InferenceRuntimeCandidate,
) -> Seq<Seq<char>> {
    let layout = manifest.metadata.repository_layout;
    reason_if(
        candidate.supported_layouts@.len() > 0 && !lists_layout(
            candidate.supported_layouts@,
            layout,
        ),
        "runtime does not support "@ + layout.name@ + " repository layout"@,
    )
}

/// The reason against a candidate without the model format.
pub open spec fn format_reason(
    manifest: ModelManifest,
    candidate: InferenceRuntimeCandidate,
) -> Seq<Seq<char>> {
    reason_if(
        candidate.supported_formats@.len() > 0 && !candidate.supported_formats@.contains(
            manifest.format,
        ),
        "runtime does not support "@ + manifest.format.name_text() + " model format"@,
    )
}

/// The reason against a candidate without the model family.
pub open spec fn family_reason(
    manifest: ModelManifest,
    candidate: InferenceRuntimeCandidate,
) -> Seq<Seq<char>> {
    match manifest.metadata.family {
        Some(family) => reason_if(
            candidate.supported_families@.len() > 0 && !lists_name(
                candidate.supported_families@,
                family@,
            ),
            "runtime does not support model family '"@ + family@ + "'"@,
        ),
        None => Seq::empty(),
    }
}

/// The reason against a candidate without the architecture.
pub open spec fn architecture_reason(
    manifest: ModelManifest,
    candidate: InferenceRuntimeCandidate,
) -> Seq<Seq<char>> {
    match manifest.architecture {
        Some(architecture) => reason_if(
            candidate.supported_architectures@.len() > 0 && !lists_name(
                candidate.supported_architectures@,
                architecture@,
            ),
            "runtime does not support architecture '"@ + architecture@ + "'"@,
        ),
        None => Seq::empty(),
    }
}

/// The reason against a candidate of another backend than the only one that will do.
pub open spec fn backend_reason(
    request: EffectiveInferenceRequest,
    candidate: InferenceRuntimeCandidate,
) -> Seq<Seq<char>> {
    match requested_backend(request) {
        Some(backend) => reason_if(
            fallback_policy(request) == "none"@ && lower(candidate.backend@) != lower(backend),
            "explicit backend '"@ + backend + "' was requested"@,
        ),
        None => Seq::empty(),
    }
}

/// The reason against a candidate on another accelerator than the requested one.
pub open spec fn accelerator_reason(
    request: EffectiveInferenceRequest,
    candidate: InferenceRuntimeCandidate,
) -> Seq<Seq<char>> {
    match requested_accelerator(request) {
        Some(accelerator) => reason_if(
            !accelerator_goes_by(candidate.accelerator, accelerator),
            "accelerator '"@ + accelerator + "' was requested"@,
        ),
        None => Seq::empty(),
    }
}

/// Whether a candidate may be degraded to fit the memory at hand.
pub open spec fn may_degrade(
    request: EffectiveInferenceRequest,
    estimate: WorkloadEstimate,
    candidate: InferenceRuntimeCandidate,
) -> bool {
    &&& estimate.fit == FitAssessment::LikelyOom
    &&& fallback_policy(request) == "degrade"@
    &&& candidate.supports_offloading
}

/// The degradations that the request permits on a candidate.
pub open spec fn degradations(
    request: EffectiveInferenceRequest,
    estimate: WorkloadEstimate,
    candidate: InferenceRuntimeCandidate,
) -> Seq<ExecutionDegradation> {
    let offloads = candidate.accelerator == RuntimeAccelerator::Cuda || candidate.accelerator
        == RuntimeAccelerator::Rocm;
    let modality = request.task.modality;
    if may_degrade(request, estimate, candidate) {
        degradation_if(
            offloads && request.bool_at("routing.allow_cpu_offload"@) == Some(true),
            ExecutionDegradation::CpuOffload,
        ) + degradation_if(
            offloads && request.bool_at("routing.allow_sequential_offload"@) == Some(true),
            ExecutionDegradation::SequentialOffload,
        ) + degradation_if(
            offloads && request.bool_at("routing.allow_component_offload"@) == Some(true),
            ExecutionDegradation::ComponentOffload,
        ) + degradation_if(
            modality == OutputModality::Image && request.bool_at("image.vae_tiling"@) == Some(true),
            ExecutionDegradation::VaeTiling,
        ) + degradation_if(
            modality == OutputModality::Video && (request.bool_at("video.temporal_vae_tiling"@)
                == Some(true) || request.unsigned_at("video.window_size"@) is Some),
            ExecutionDegradation::TemporalWindowing,
        )
    } else {
        Seq::empty()
    }
}

/// The reasons against a candidate that the memory at hand gives.
pub open spec fn memory_reasons(
    request: EffectiveInferenceRequest,
    estimate: WorkloadEstimate,
    candidate: InferenceRuntimeCandidate,
) -> Seq<Seq<char>> {
    if estimate.fit != FitAssessment::LikelyOom {
        Seq::empty()
    } else if !may_degrade(request, estimate, candidate) {
        seq!["workload is likely out of memory"@]
    } else {
        reason_if(
            degradations(request, estimate, candidate).len() == 0,
            "workload is likely out of memory and no permitted degradation is enabled"@,
        )
    }
}

/// All reasons against a candidate.
pub open spec fn rejection_reasons(
    manifest: ModelManifest,
    request: EffectiveInferenceRequest,
    estimate: WorkloadEstimate,
    candidate: InferenceRuntimeCandidate,
) -> Seq<Seq<char>> {
    availability_reason(candidate) + task_reason(request, candidate) + layout_reason(
        manifest,
        candidate,
    ) + format_reason(manifest, candidate) + family_reason(manifest, candidate)
        + architecture_reason(manifest, candidate) + backend_reason(request, candidate)
        + accelerator_reason(request, candidate) + parameter_reasons(
        request,
        candidate,
        request.explicit_parameters@,
    ) + memory_reasons(request, estimate, candidate)
}

/// Whether a candidate has the backend that the caller asks for.
pub open spec fn has_requested_backend(
    request: EffectiveInferenceRequest,
    candidate: InferenceRuntimeCandidate,
) -> bool {
    match requested_backend(request) {
        Some(backend) => lower(candidate.backend@) == lower(backend),
        None => false,
    }
}

/// A candidate's priority, with what the requested backend adds to it.
pub open spec fn raised_priority(
    request: EffectiveInferenceRequest,
    candidate: InferenceRuntimeCandidate,
) -> int {
    candidate.priority + if has_requested_backend(request, candidate) {
        500int
    } else {
        0
    }
}

/// A candidate's score.
pub open spec fn candidate_score(
    request: EffectiveInferenceRequest,
    estimate: WorkloadEstimate,
    candidate: InferenceRuntimeCandidate,
) -> int {
    raised_priority(request, candidate) - degradations(request, estimate, candidate).len() * 35
        - if candidate.accelerator == RuntimeAccelerator::Cpu {
        120int
    } else {
        0
    }
}

/// Whether a candidate's score can be computed in 32 bits.
pub open spec fn score_fits(
    request: EffectiveInferenceRequest,
    estimate: WorkloadEstimate,
    candidate: InferenceRuntimeCandidate,
) -> bool {
    &&& raised_priority(request, candidate) <= i32::MAX
    &&& i32::MIN <= candidate_score(request, estimate, candidate)
}

/// The decision on a candidate.
pub open spec fn decision_on(
    manifest: ModelManifest,
    request: EffectiveInferenceRequest,
    estimate: WorkloadEstimate,
    candidate: InferenceRuntimeCandidate,
) -> Decision {
    let reasons = rejection_reasons(manifest, request, estimate, candidate);
    Decision {
        runtime_id: candidate.id@,
        backend: candidate.backend@,
        status: if reasons.len() == 0 {
            PlanCandidateStatus::Accepted
        } else {
            PlanCandidateStatus::Rejected
        },
        score: if reasons.len() == 0 {
            Some(candidate_score(request, estimate, candidate) as i32)
        } else {
            None
        },
        reasons,
        degradations: degradations(request, estimate, candidate),
    }
}

/// The decisions on all candidates, in the order of the candidates.
pub open spec fn all_decisions(
    manifest: ModelManifest,
    request: EffectiveInferenceRequest,
    estimate: WorkloadEstimate,
    candidates: Seq<InferenceRuntimeCandidate>,
) -> Seq<Decision> {
    candidates.map_values(
        |candidate: InferenceRuntimeCandidate| decision_on(manifest, request, estimate, candidate),
    )
}

/// Whether a decision may stand before another in a plan: the higher score first, any score
/// before none, and equal scores in the order of the runtimes' ids.
pub open spec fn may_precede(first: Decision, second: Decision) -> bool {
    match (first.score, second.score) {
        (Some(a), Some(b)) => a > b || (a == b && text_le(first.runtime_id, second.runtime_id)),
        (Some(_), None) => true,
        (None, Some(_)) => false,
        (None, None) => text_le(first.runtime_id, second.runtime_id),
    }
}

/// Whether `order` lists each index below `len` once.
pub open spec fn is_permutation(order: Seq<int>, len: nat) -> bool {
    &&& order.len() == len
    &&& forall|i: int| 0 <= i < order.len() ==> 0 <= #[trigger] order[i] < len
    &&& forall|i: int, j: int| 0 <= i < j < order.len() ==> order[i] != order[j]
}

/// Whether `sorted` is `given` put in order, where `order` says which one went where. Decisions
/// that may stand either way round keep the order that they had.
pub open spec fn is_sorted_by(given: Seq<Decision>, sorted: Seq<Decision>, order: Seq<int>) -> bool {
    &&& is_permutation(order, given.len())
    &&& sorted.len() == given.len()
    &&& forall|i: int| 0 <= i < sorted.len() ==> #[trigger] sorted[i] == given[order[i]]
    &&& forall|i: int, j: int|
        0 <= i < j < sorted.len() ==> may_precede(#[trigger] sorted[i], #[trigger] sorted[j])
    &&& forall|i: int, j: int|
        #![trigger order[i], order[j]]
        0 <= i < j < sorted.len() && may_precede(sorted[j], sorted[i]) ==> order[i] < order[j]
}

/// Whether `sorted` is `given` put in order.
pub open spec fn is_sorting_of(given: Seq<Decision>, sorted: Seq<Decision>) -> bool {
    exists|order: Seq<int>| is_sorted_by(given, sorted, order)
}

/// The first accepted decision of a list.
pub open spec fn first_accepted(decisions: Seq<Decision>) -> Option<Decision>
    decreases decisions.len(),
{
    if decisions.len() == 0 {
        None
    } else if decisions[0].status == PlanCandidateStatus::Accepted {
        Some(decisions[0])
    } else {
        first_accepted(decisions.drop_first())
    }
}

/// The advice on what to ask less of, where the memory at hand is not enough.
pub open spec fn downgrades(
    request: EffectiveInferenceRequest,
    estimate: WorkloadEstimate,
) -> Seq<Seq<char>> {
    if estimate.fit == FitAssessment::LikelyOom {
        seq![
            "consider a smaller model or stronger quantization"@,
            match request.task.modality {
                OutputModality::Image => "consider a lower image resolution"@,
                OutputModality::Video => "consider fewer frames or a lower video resolution"@,
                OutputModality::Audio => "consider a shorter duration"@,
                OutputModality::Text => "consider a shorter context"@,
                OutputModality::Embedding => "consider a shorter context"@,
            },
        ]
    } else {
        Seq::empty()
    }
}

/// The mathematical model of an [`ExecutionPlan`].
#[verifier::ext_equal]
pub struct Plan {
    pub task_name: Seq<char>,
    pub task_modality: OutputModality,
    pub selected_runtime: Option<Seq<char>>,
    pub selected_backend: Option<Seq<char>>,
    pub score: Option<i32>,
    pub candidates: Seq<Decision>,
    pub backend_fallback: bool,
    pub degradations: Seq<ExecutionDegradation>,
    pub model_or_quality_downgrades: Seq<Seq<char>>,
}

impl View for ExecutionPlan {
    type V = Plan;

    open spec fn view(&self) -> Plan {
        Plan {
            task_name: self.task.name@,
            task_modality: self.task.modality,
            selected_runtime: optional_text(self.selected_runtime),
            selected_backend: optional_text(self.selected_backend),
            score: self.score,
            candidates: decisions_of(self.candidates@),
            backend_fallback: self.backend_fallback,
            degradations: self.degradations@,
            model_or_quality_downgrades: views(self.model_or_quality_downgrades@),
        }
    }
}

/// The plan that follows from decisions in their final order.
pub open spec fn plan_from(
    request: EffectiveInferenceRequest,
    estimate: WorkloadEstimate,
    decisions: Seq<Decision>,
) -> Plan {
    let selected = first_accepted(decisions);
    Plan {
        task_name: request.task.name@,
        task_modality: request.task.modality,
        selected_runtime: match selected {
            Some(decision) => Some(decision.runtime_id),
            None => None,
        },
        selected_backend: match selected {
            Some(decision) => Some(decision.backend),
            None => None,
        },
        score: match selected {
            Some(decision) => decision.score,
            None => None,
        },
        candidates: decisions,
        backend_fallback: match (requested_backend(request), selected) {
            (Some(backend), Some(decision)) => lower(backend) != lower(decision.backend),
            _ => false,
        },
        degradations: match selected {
            Some(decision) => decision.degradations,
            None => Seq::empty(),
        },
        model_or_quality_downgrades: downgrades(request, estimate),
    }
}

/// Whether a plan is the one for a request.
pub open spec fn is_plan_for(
    manifest: ModelManifest,
    request: EffectiveInferenceRequest,
    estimate: WorkloadEstimate,
    candidates: Seq<InferenceRuntimeCandidate>,
    plan: Plan,
) -> bool {
    &&& plan == plan_from(request, estimate, plan.candidates)
    &&& is_sorting_of(
        all_decisions(manifest, request, estimate, candidates),
        plan.candidates,
    )
}

fn add_reason(reasons: &mut Vec<String>, applies: bool, reason: String)
    ensures
        views(final(reasons)@) == views(old(reasons)@) + reason_if(applies, reason@),
{
    if applies {
        reasons.push(reason);
    }
    proof {
        assert(views(reasons@) =~= views(old(reasons)@) + reason_if(applies, reason@));
    }
}

fn add_degradation(
    list: &mut Vec<ExecutionDegradation>,
    applies: bool,
    degradation: ExecutionDegradation,
)
    ensures
        final(list)@ == old(list)@ + degradation_if(applies, degradation),
{
    if applies {
        list.push(degradation);
    }
    proof {
        assert(list@ =~= old(list)@ + degradation_if(applies, degradation));
    }
}

fn has_task(tasks: &Vec<InferenceTask>, task: &InferenceTask) -> (r: bool)
    ensures
        r == lists_task(tasks@, *task),
{
    for i in 0..tasks.len()
        invariant
            forall|k: int|
                0 <= k < i ==> !((#[trigger] tasks@[k]).name@ == task.name@ && tasks@[k].modality
                    == task.modality),
    {
        if same_text(tasks[i].name.as_str(), task.name.as_str()) && tasks[i].modality
            == task.modality {
            return true;
        }
    }
    false
}

fn has_layout(layouts: &Vec<RepositoryLayout>, layout: &RepositoryLayout) -> (r: bool)
    ensures
        r == lists_layout(layouts@, *layout),
{
    for i in 0..layouts.len()
        invariant
            forall|k: int| 0 <= k < i ==> (#[trigger] layouts@[k]).name@ != layout.name@,
    {
        if same_text(layouts[i].name.as_str(), layout.name.as_str()) {
            return true;
        }
    }
    false
}

fn has_format(formats: &Vec<ModelFormat>, format: ModelFormat) -> (r: bool)
    ensures
        r == formats@.contains(format),
{
    for i in 0..formats.len()
        invariant
            forall|k: int| 0 <= k < i ==> #[trigger] formats@[k] != format,
    {
        if formats[i] == format {
            return true;
        }
    }
    false
}

fn has_name(names: &Vec<String>, name: &str) -> (r: bool)
    ensures
        r == lists_name(names@, name@),
{
    for i in 0..names.len()
        invariant
            forall|k: int| 0 <= k < i ==> lower((#[trigger] names@[k])@) != lower(name@),
    {
        if same_ignoring_case(names[i].as_str(), name) {
            return true;
        }
    }
    false
}

/// Whether an accelerator goes by a name; the case of letters does not matter.
pub fn runtime_accelerator_matches(accelerator: RuntimeAccelerator, requested: &str) -> (r: bool)
    ensures
        r == accelerator_goes_by(accelerator, requested@),
{
    let name = to_lower(requested);
    let name = name.as_str();
    match accelerator {
        RuntimeAccelerator::Cpu => same_text(name, "cpu"),
        RuntimeAccelerator::Cuda => same_text(name, "cuda"),
        RuntimeAccelerator::Rocm => same_text(name, "rocm") || same_text(name, "hip"),
        RuntimeAccelerator::Mps => same_text(name, "mps") || same_text(name, "metal"),
        RuntimeAccelerator::Mlx => same_text(name, "mlx") || same_text(name, "metal"),
        RuntimeAccelerator::Other => false,
    }
}

fn requested_text<'a>(request: &'a EffectiveInferenceRequest, path: &str) -> (text: Option<&'a str>)
    ensures
        match text {
            Some(text) => requested(*request, path@) == Some(text@),
            None => requested(*request, path@) is None,
        },
{
    match request.string_parameter(path) {
        Some(text) => {
            if same_text(text, "auto") {
                None
            } else {
                Some(text)
            }
        },
        None => None,
    }
}

fn policy_text<'a>(request: &'a EffectiveInferenceRequest) -> (policy: &'a str)
    ensures
        policy@ == fallback_policy(*request),
{
    match request.string_parameter("routing.fallback_policy") {
        Some(policy) => policy,
        None => "backend",
    }
}

fn add_capability_reasons(
    reasons: &mut Vec<String>,
    manifest: &ModelManifest,
    request: &EffectiveInferenceRequest,
    candidate: &InferenceRuntimeCandidate,
)
    ensures
        views(final(reasons)@) == views(old(reasons)@) + availability_reason(*candidate)
            + task_reason(*request, *candidate) + layout_reason(*manifest, *candidate)
            + format_reason(*manifest, *candidate) + family_reason(*manifest, *candidate)
            + architecture_reason(*manifest, *candidate),
{
    let unavailable = match &candidate.availability_reason {
        Some(reason) => reason.clone(),
        None => "runtime is unavailable".to_string(),
    };
    add_reason(reasons, !candidate.available, unavailable);
    add_reason(
        reasons,
        !has_task(&candidate.supported_tasks, &request.task),
        "runtime does not support task ".to_string().concat(request.task.name.as_str()),
    );
    let layout = &manifest.metadata.repository_layout;
    add_reason(
        reasons,
        candidate.supported_layouts.len() > 0 && !has_layout(&candidate.supported_layouts, layout),
        "runtime does not support ".to_string().concat(layout.name.as_str()).concat(
            " repository layout",
        ),
    );
    add_reason(
        reasons,
        candidate.supported_formats.len() > 0 && !has_format(
            &candidate.supported_formats,
            manifest.format,
        ),
        "runtime does not support ".to_string().concat(manifest.format.name()).concat(
            " model format",
        ),
    );
    let ghost before = views(reasons@);
    match &manifest.metadata.family {
        Some(family) => add_reason(
            reasons,
            candidate.supported_families.len() > 0 && !has_name(
                &candidate.supported_families,
                family.as_str(),
            ),
            "runtime does not support model family '".to_string().concat(family.as_str()).concat(
                "'",
            ),
        ),
        None => {
            proof {
                assert(before + family_reason(*manifest, *candidate) =~= before);
            }
        },
    }
    let ghost before = views(reasons@);
    match &manifest.architecture {
        Some(architecture) => add_reason(
            reasons,
            candidate.supported_architectures.len() > 0 && !has_name(
                &candidate.supported_architectures,
                architecture.as_str(),
            ),
            "runtime does not support architecture '".to_string().concat(
                architecture.as_str(),
            ).concat("'"),
        ),
        None => {
            proof {
                assert(before + architecture_reason(*manifest, *candidate) =~= before);
            }
        },
    }
}

fn add_parameter_reasons(
    reasons: &mut Vec<String>,
    request: &EffectiveInferenceRequest,
    candidate: &InferenceRuntimeCandidate,
)
    ensures
        views(final(reasons)@) == views(old(reasons)@) + parameter_reasons(
            *request,
            *candidate,
            request.explicit_parameters@,
        ),
{
    let ghost before = views(reasons@);
    let ghost paths = request.explicit_parameters@;
    proof {
        assert(before + parameter_reasons(*request, *candidate, paths.take(0)) =~= before);
    }
    for i in 0..request.explicit_parameters.len()
        invariant
            paths == request.explicit_parameters@,
            views(reasons@) == before + parameter_reasons(
                *request,
                *candidate,
                paths.take(i as int),
            ),
    {
        let path = request.explicit_parameters[i].as_str();
        let refused = match find_value(&candidate.parameter_support, path) {
            Some(status) => *status == ParameterSupportStatus::Ignored || *status
                == ParameterSupportStatus::Unsupported,
            None => false,
        };
        let ghost so_far = parameter_reasons(*request, *candidate, paths.take(i as int));
        add_reason(
            reasons,
            refused && request.parameter_policy == ParameterPolicy::Strict,
            "explicit parameter '".to_string().concat(path).concat("' is unsupported"),
        );
        proof {
            assert(paths.take(i + 1).drop_last() =~= paths.take(i as int));
            assert(views(reasons@) =~= before + parameter_reasons(
                *request,
                *candidate,
                paths.take(i + 1),
            ));
        }
    }
    proof {
        assert(paths.take(paths.len() as int) =~= paths);
    }
}

fn add_routing_reasons(
    reasons: &mut Vec<String>,
    request: &EffectiveInferenceRequest,
    candidate: &InferenceRuntimeCandidate,
)
    ensures
        views(final(reasons)@) == views(old(reasons)@) + backend_reason(*request, *candidate)
            + accelerator_reason(*request, *candidate) + parameter_reasons(
            *request,
            *candidate,
            request.explicit_parameters@,
        ),
{
    let ghost before = views(reasons@);
    match requested_text(request, "routing.backend") {
        Some(backend) => add_reason(
            reasons,
            same_text(policy_text(request), "none") && !same_ignoring_case(
                candidate.backend.as_str(),
                backend,
            ),
            "explicit backend '".to_string().concat(backend).concat("' was requested"),
        ),
        None => {
            proof {
                assert(before + backend_reason(*request, *candidate) =~= before);
            }
        },
    }
    let ghost before = views(reasons@);
    match requested_text(request, "routing.accelerator") {
        Some(accelerator) => add_reason(
            reasons,
            !runtime_accelerator_matches(candidate.accelerator, accelerator),
            "accelerator '".to_string().concat(accelerator).concat("' was requested"),
        ),
        None => {
            proof {
                assert(before + accelerator_reason(*request, *candidate) =~= before);
            }
        },
    }
    add_parameter_reasons(reasons, request, candidate);
}

fn can_degrade(
    request: &EffectiveInferenceRequest,
    estimate: &WorkloadEstimate,
    candidate: &InferenceRuntimeCandidate,
) -> (r: bool)
    ensures
        r == may_degrade(*request, *estimate, *candidate),
{
    estimate.fit == FitAssessment::LikelyOom && same_text(policy_text(request), "degrade")
        && candidate.supports_offloading
}

fn permitted_degradations(
    request: &EffectiveInferenceRequest,
    estimate: &WorkloadEstimate,
    candidate: &InferenceRuntimeCandidate,
) -> (list: Vec<ExecutionDegradation>)
    ensures
        list@ == degradations(*request, *estimate, *candidate),
        list@.len() <= 5,
{
    let mut list: Vec<ExecutionDegradation> = Vec::new();
    if can_degrade(request, estimate, candidate) {
        let offloads = candidate.accelerator == RuntimeAccelerator::Cuda || candidate.accelerator
            == RuntimeAccelerator::Rocm;
        let modality = request.task.modality;
        let cpu = request.bool_parameter("routing.allow_cpu_offload");
        let sequential = request.bool_parameter("routing.allow_sequential_offload");
        let component = request.bool_parameter("routing.allow_component_offload");
        let tiling = request.bool_parameter("image.vae_tiling");
        let temporal = request.bool_parameter("video.temporal_vae_tiling");
        let window = request.u64_parameter("video.window_size");
        add_degradation(
            &mut list,
            offloads && is_set(cpu),
            ExecutionDegradation::CpuOffload,
        );
        proof {
            assert(list@ =~= degradation_if(
                offloads && cpu == Some(true),
                ExecutionDegradation::CpuOffload,
            ));
        }
        add_degradation(
            &mut list,
            offloads && is_set(sequential),
            ExecutionDegradation::SequentialOffload,
        );
        add_degradation(
            &mut list,
            offloads && is_set(component),
            ExecutionDegradation::ComponentOffload,
        );
        add_degradation(
            &mut list,
            modality == OutputModality::Image && is_set(tiling),
            ExecutionDegradation::VaeTiling,
        );
        add_degradation(
            &mut list,
            modality == OutputModality::Video && (is_set(temporal) || window.is_some()),
            ExecutionDegradation::TemporalWindowing,
        );
    }
    list
}

fn is_set(flag: Option<bool>) -> (r: bool)
    ensures
        r == (flag == Some(true)),
{
    match flag {
        Some(flag) => flag,
        None => false,
    }
}

fn add_memory_reasons(
    reasons: &mut Vec<String>,
    request: &EffectiveInferenceRequest,
    estimate: &WorkloadEstimate,
    candidate: &InferenceRuntimeCandidate,
    permitted: &Vec<ExecutionDegradation>,
)
    requires
        permitted@ == degradations(*request, *estimate, *candidate),
    ensures
        views(final(reasons)@) == views(old(reasons)@) + memory_reasons(
            *request,
            *estimate,
            *candidate,
        ),
{
    let ghost before = views(reasons@);
    if estimate.fit == FitAssessment::LikelyOom {
        if can_degrade(request, estimate, candidate) {
            add_reason(
                reasons,
                permitted.len() == 0,
                "workload is likely out of memory and no permitted degradation is enabled".to_string(),
            );
        } else {
            add_reason(reasons, true, "workload is likely out of memory".to_string());
        }
    } else {
        proof {
            assert(before + memory_reasons(*request, *estimate, *candidate) =~= before);
        }
    }
}

/// The decision on one candidate.
pub fn decide_on(
    manifest: &ModelManifest,
    request: &EffectiveInferenceRequest,
    estimate: &WorkloadEstimate,
    candidate: &InferenceRuntimeCandidate,
) -> (decision: PlanCandidateDecision)
    requires
        score_fits(*request, *estimate, *candidate),
    ensures
        decision@ == decision_on(*manifest, *request, *estimate, *candidate),
{
    let permitted = permitted_degradations(request, estimate, candidate);
    let mut reasons: Vec<String> = Vec::new();
    proof {
        assert(views(reasons@) + availability_reason(*candidate) =~= availability_reason(
            *candidate,
        ));
    }
    add_capability_reasons(&mut reasons, manifest, request, candidate);
    add_routing_reasons(&mut reasons, request, candidate);
    add_memory_reasons(&mut reasons, request, estimate, candidate, &permitted);
    let accepted = reasons.len() == 0;
    proof {
        assert(views(reasons@).len() == reasons@.len());
    }
    let mut score: i32 = candidate.priority;
    match requested_text(request, "routing.backend") {
        Some(backend) => {
            if same_ignoring_case(candidate.backend.as_str(), backend) {
                score = score + 500;
            }
        },
        None => {},
    }
    score = score - (permitted.len() as i32) * 35;
    if candidate.accelerator == RuntimeAccelerator::Cpu {
        score = score - 120;
    }
    PlanCandidateDecision {
        runtime_id: candidate.id.clone(),
        backend: candidate.backend.clone(),
        status: if accepted {
            PlanCandidateStatus::Accepted
        } else {
            PlanCandidateStatus::Rejected
        },
        score: if accepted {
            Some(score)
        } else {
            None
        },
        reasons,
        degradations: permitted,
    }
}

/// Of two decisions one may precede the other.
pub proof fn lemma_may_precede_total(first: Decision, second: Decision)
    ensures
        may_precede(first, second) || may_precede(second, first),
{
    lemma_text_le_total(first.runtime_id, second.runtime_id);
}

/// What may precede a decision may precede all that the decision may precede.
pub proof fn lemma_may_precede_transitive(first: Decision, second: Decision, third: Decision)
    requires
        may_precede(first, second),
        may_precede(second, third),
    ensures
        may_precede(first, third),
{
    if text_le(first.runtime_id, second.runtime_id) && text_le(
        second.runtime_id,
        third.runtime_id,
    ) {
        lemma_text_le_transitive(first.runtime_id, second.runtime_id, third.runtime_id);
    }
}

fn precedes(first: &PlanCandidateDecision, second: &PlanCandidateDecision) -> (r: bool)
    ensures
        r == may_precede(first@, second@),
{
    match (first.score, second.score) {
        (Some(a), Some(b)) => a > b || (a == b && is_at_or_before(
            first.runtime_id.as_str(),
            second.runtime_id.as_str(),
        )),
        (Some(_), None) => true,
        (None, Some(_)) => false,
        (None, None) => is_at_or_before(first.runtime_id.as_str(), second.runtime_id.as_str()),
    }
}

proof fn lemma_insert_keeps_order(
    given: Seq<Decision>,
    sorted: Seq<Decision>,
    order: Seq<int>,
    decision: Decision,
    at: int,
)
    requires
        is_sorted_by(given, sorted, order),
        0 <= at <= sorted.len(),
        forall|i: int| 0 <= i < at ==> may_precede(#[trigger] sorted[i], decision),
        at < sorted.len() ==> !may_precede(sorted[at], decision),
    ensures
        is_sorted_by(
            given.push(decision),
            sorted.insert(at, decision),
            order.insert(at, given.len() as int),
        ),
{
    let n = given.len() as int;
    let out = sorted.insert(at, decision);
    let out_order = order.insert(at, n);
    let source = |k: int|
        if k < at {
            k
        } else {
            k - 1
        };
    assert forall|k: int| at <= k < sorted.len() implies !may_precede(#[trigger] sorted[k], decision)
        && may_precede(decision, sorted[k]) by {
        lemma_may_precede_total(sorted[at], decision);
        if k > at {
            lemma_may_precede_transitive(decision, sorted[at], sorted[k]);
            if may_precede(sorted[k], decision) {
                lemma_may_precede_transitive(sorted[at], sorted[k], decision);
            }
        }
    }
    assert forall|i: int| 0 <= i < out.len() implies #[trigger] out[i] == given.push(
        decision,
    )[out_order[i]] by {
        if i != at {
            assert(sorted[source(i)] == given[order[source(i)]]);
        }
    }
    assert forall|i: int| 0 <= i < out_order.len() implies 0 <= #[trigger] out_order[i] < n + 1 by {
        if i != at {
            assert(0 <= order[source(i)] < n);
        }
    }
    assert forall|i: int, j: int| 0 <= i < j < out_order.len() implies out_order[i]
        != out_order[j] by {
        if i != at && j != at {
            assert(order[source(i)] != order[source(j)]);
        } else if i == at {
            assert(0 <= order[source(j)] < n);
        } else {
            assert(0 <= order[source(i)] < n);
        }
    }
    assert forall|i: int, j: int| 0 <= i < j < out.len() implies may_precede(
        #[trigger] out[i],
        #[trigger] out[j],
    ) by {
        if i != at && j != at {
            assert(may_precede(sorted[source(i)], sorted[source(j)]));
        } else if i == at {
            assert(out[j] == sorted[source(j)]);
        } else {
            assert(out[i] == sorted[source(i)]);
        }
    }
    assert forall|i: int, j: int|
        #![trigger out_order[i], out_order[j]]
        0 <= i < j < out.len() && may_precede(out[j], out[i]) implies out_order[i]
        < out_order[j] by {
        if i != at && j != at {
            assert(order[source(i)] < order[source(j)]);
        } else if i == at {
            assert(out[j] == sorted[source(j)]);
        } else {
            assert(0 <= order[source(i)] < n);
        }
    }
}

fn insert_decision(
    sorted: &mut Vec<PlanCandidateDecision>,
    decision: PlanCandidateDecision,
    Ghost(given): Ghost<Seq<Decision>>,
)
    requires
        is_sorting_of(given, decisions_of(old(sorted)@)),
    ensures
        is_sorting_of(given.push(decision@), decisions_of(final(sorted)@)),
{
    let ghost before = decisions_of(sorted@);
    let ghost order = choose|order: Seq<int>| is_sorted_by(given, before, order);
    let mut at: usize = 0;
    while at < sorted.len() && precedes(&sorted[at], &decision)
        invariant
            before == decisions_of(sorted@),
            at <= sorted.len(),
            forall|i: int| 0 <= i < at ==> may_precede(#[trigger] before[i], decision@),
        decreases sorted.len() - at,
    {
        at = at + 1;
    }
    proof {
        if at < sorted.len() {
            assert(before[at as int] == sorted@[at as int]@);
        }
        lemma_insert_keeps_order(given, before, order, decision@, at as int);
    }
    sorted.insert(at, decision);
    proof {
        assert(decisions_of(sorted@) =~= before.insert(at as int, decision@));
        assert(is_sorted_by(
            given.push(decision@),
            decisions_of(sorted@),
            order.insert(at as int, given.len() as int),
        ));
    }
}

fn ordered_decisions(
    manifest: &ModelManifest,
    request: &EffectiveInferenceRequest,
    estimate: &WorkloadEstimate,
    candidates: &[InferenceRuntimeCandidate],
) -> (sorted: Vec<PlanCandidateDecision>)
    requires
        forall|i: int|
            0 <= i < candidates@.len() ==> score_fits(*request, *estimate, #[trigger] candidates@[i]),
    ensures
        is_sorting_of(
            all_decisions(*manifest, *request, *estimate, candidates@),
            decisions_of(sorted@),
        ),
{
    let mut sorted: Vec<PlanCandidateDecision> = Vec::new();
    let ghost all = all_decisions(*manifest, *request, *estimate, candidates@);
    proof {
        assert(is_sorted_by(all.take(0), decisions_of(sorted@), Seq::empty()));
        assert(is_sorting_of(all.take(0), decisions_of(sorted@)));
    }
    for i in 0..candidates.len()
        invariant
            forall|k: int|
                0 <= k < candidates@.len() ==> score_fits(
                    *request,
                    *estimate,
                    #[trigger] candidates@[k],
                ),
            all == all_decisions(*manifest, *request, *estimate, candidates@),
            is_sorting_of(all.take(i as int), decisions_of(sorted@)),
    {
        let decision = decide_on(manifest, request, estimate, &candidates[i]);
        proof {
            assert(all.take(i + 1) =~= all.take(i as int).push(decision@));
        }
        insert_decision(&mut sorted, decision, Ghost(all.take(i as int)));
    }
    proof {
        assert(all.take(candidates@.len() as int) =~= all);
    }
    sorted
}

fn copy_of(degradation: &ExecutionDegradation) -> (copy: ExecutionDegradation)
    ensures
        copy == *degradation,
{
    match degradation {
        ExecutionDegradation::CpuOffload => ExecutionDegradation::CpuOffload,
        ExecutionDegradation::SequentialOffload => ExecutionDegradation::SequentialOffload,
        ExecutionDegradation::ComponentOffload => ExecutionDegradation::ComponentOffload,
        ExecutionDegradation::VaeTiling => ExecutionDegradation::VaeTiling,
        ExecutionDegradation::TemporalWindowing => ExecutionDegradation::TemporalWindowing,
        ExecutionDegradation::SlowerAttention { backend } => ExecutionDegradation::SlowerAttention {
            backend: backend.clone(),
        },
    }
}

fn copies_of(list: &Vec<ExecutionDegradation>) -> (copies: Vec<ExecutionDegradation>)
    ensures
        copies@ == list@,
{
    let mut copies: Vec<ExecutionDegradation> = Vec::new();
    for i in 0..list.len()
        invariant
            copies@ == list@.take(i as int),
    {
        copies.push(copy_of(&list[i]));
        proof {
            assert(list@.take(i + 1) =~= list@.take(i as int).push(list@[i as int]));
        }
    }
    proof {
        assert(list@.take(list.len() as int) =~= list@);
    }
    copies
}

fn index_of_accepted(decisions: &Vec<PlanCandidateDecision>) -> (found: Option<usize>)
    ensures
        match found {
            Some(at) => at < decisions@.len() && first_accepted(decisions_of(decisions@)) == Some(
                decisions@[at as int]@,
            ),
            None => first_accepted(decisions_of(decisions@)) is None,
        },
{
    let ghost all = decisions_of(decisions@);
    let mut at: usize = 0;
    proof {
        assert(all.skip(0) =~= all);
    }
    while at < decisions.len()
        invariant
            all == decisions_of(decisions@),
            at <= decisions.len(),
            first_accepted(all) == first_accepted(all.skip(at as int)),
        decreases decisions.len() - at,
    {
        proof {
            assert(all.skip(at as int)[0] == decisions@[at as int]@);
            assert(all.skip(at as int).drop_first() =~= all.skip(at + 1));
        }
        if decisions[at].status == PlanCandidateStatus::Accepted {
            return Some(at);
        }
        at = at + 1;
    }
    None
}

fn downgrade_advice(
    request: &EffectiveInferenceRequest,
    estimate: &WorkloadEstimate,
) -> (advice: Vec<String>)
    ensures
        views(advice@) == downgrades(*request, *estimate),
{
    let mut advice: Vec<String> = Vec::new();
    if estimate.fit == FitAssessment::LikelyOom {
        advice.push("consider a smaller model or stronger quantization".to_string());
        let less = match request.task.modality {
            OutputModality::Image => "consider a lower image resolution",
            OutputModality::Video => "consider fewer frames or a lower video resolution",
            OutputModality::Audio => "consider a shorter duration",
            OutputModality::Text => "consider a shorter context",
            OutputModality::Embedding => "consider a shorter context",
        };
        advice.push(less.to_string());
    }
    proof {
        assert(views(advice@) =~= downgrades(*request, *estimate));
    }
    advice
}

/// Whether the score of every candidate can be computed in 32 bits, which is what a plan asks of
/// its candidates.
pub fn scores_fit(
    request: &EffectiveInferenceRequest,
    estimate: &WorkloadEstimate,
    candidates: &[InferenceRuntimeCandidate],
) -> (r: bool)
    ensures
        r == (forall|i: int|
            0 <= i < candidates@.len() ==> score_fits(*request, *estimate, #[trigger] candidates@[i])),
{
    for i in 0..candidates.len()
        invariant
            forall|j: int|
                0 <= j < i ==> score_fits(*request, *estimate, #[trigger] candidates@[j]),
    {
        let candidate = &candidates[i];
        let mut score: i64 = candidate.priority as i64;
        match requested_text(request, "routing.backend") {
            Some(backend) => {
                if same_ignoring_case(candidate.backend.as_str(), backend) {
                    score = score + 500;
                }
            },
            None => {},
        }
        let raised: i64 = score;
        let permitted = permitted_degradations(request, estimate, candidate);
        score = score - (permitted.len() as i64) * 35;
        if candidate.accelerator == RuntimeAccelerator::Cpu {
            score = score - 120;
        }
        if raised > i32::MAX as i64 || score < i32::MIN as i64 {
            proof {
                assert(!score_fits(*request, *estimate, candidates@[i as int]));
            }
            return false;
        }
    }
    true
}

/// The plan for a request: every candidate with the decision on it, the best first, and what the
/// best accepted one brings with it.
pub fn plan_execution(
    manifest: &ModelManifest,
    request: &EffectiveInferenceRequest,
    estimate: &WorkloadEstimate,
    candidates: &[InferenceRuntimeCandidate],
) -> (plan: ExecutionPlan)
    requires
        forall|i: int|
            0 <= i < candidates@.len() ==> score_fits(*request, *estimate, #[trigger] candidates@[i]),
    ensures
        is_plan_for(*manifest, *request, *estimate, candidates@, plan@),
{
    let decisions = ordered_decisions(manifest, request, estimate, candidates);
    let ghost all = decisions_of(decisions@);
    let advice = downgrade_advice(request, estimate);
    let task = InferenceTask {
        name: request.task.name.clone(),
        modality: request.task.modality,
    };
    let plan = match index_of_accepted(&decisions) {
        Some(at) => {
            let runtime = decisions[at].runtime_id.clone();
            let backend = decisions[at].backend.clone();
            let score = decisions[at].score;
            let degradations = copies_of(&decisions[at].degradations);
            let fallback = match requested_text(request, "routing.backend") {
                Some(wanted) => !same_ignoring_case(wanted, backend.as_str()),
                None => false,
            };
            ExecutionPlan {
                task,
                selected_runtime: Some(runtime),
                selected_backend: Some(backend),
                score,
                candidates: decisions,
                backend_fallback: fallback,
                degradations,
                model_or_quality_downgrades: advice,
            }
        },
        None => ExecutionPlan {
            task,
            selected_runtime: None,
            selected_backend: None,
            score: None,
            candidates: decisions,
            backend_fallback: false,
            degradations: Vec::new(),
            model_or_quality_downgrades: advice,
        },
    };
    proof {
        assert(plan@ =~= plan_from(*request, *estimate, all));
    }
    plan
}

} // verus!
