//! What holds of every plan.

use super::planner::{
    accelerator_goes_by, accelerator_reason, all_decisions, architecture_reason,
    availability_reason, backend_reason, candidate_score, decision_on, degradation_if,
    degradations, downgrades, fallback_policy, family_reason, first_accepted, format_reason, is_permutation, is_plan_for,
    is_sorted_by, is_sorting_of, layout_reason, may_degrade, may_precede, memory_reasons,
    parameter_reasons, refuses_parameter, rejection_reasons, requested_backend, score_fits,
    task_reason, Decision, ExecutionDegradation, InferenceRuntimeCandidate, Plan,
    PlanCandidateStatus, RuntimeAccelerator,
};
use super::types::{
    lookup, EffectiveInferenceRequest, FitAssessment, OutputModality, ParameterPolicy,
    ParameterSupportStatus, ParameterValue, WorkloadEstimate,
};
use crate::inference_service::resources::law_accelerators_match_their_names;
use crate::model::ModelManifest;
use crate::text::ascii::lower;
use crate::text::order::{lemma_text_le_antisymmetric, text_le};
use vstd::prelude::*;
use vstd::set_lib::{lemma_int_range, lemma_subset_equality, set_int_range};

verus! {

proof fn lemma_first_accepted(decisions: Seq<Decision>)
    ensures
        match first_accepted(decisions) {
            Some(decision) => exists|i: int|
                {
                    &&& 0 <= i < decisions.len()
                    &&& #[trigger] decisions[i] == decision
                    &&& decision.status == PlanCandidateStatus::Accepted
                    &&& forall|j: int|
                        0 <= j < i ==> (#[trigger] decisions[j]).status
                            != PlanCandidateStatus::Accepted
                },
            None => forall|i: int|
                0 <= i < decisions.len() ==> (#[trigger] decisions[i]).status
                    != PlanCandidateStatus::Accepted,
        },
    decreases decisions.len(),
{
    if decisions.len() > 0 {
        if decisions[0].status == PlanCandidateStatus::Accepted {
            assert(decisions[0] == first_accepted(decisions)->0);
        } else {
            let rest = decisions.drop_first();
            lemma_first_accepted(rest);
            if first_accepted(rest) is Some {
                let decision = first_accepted(rest)->0;
                let i = choose|i: int|
                    {
                        &&& 0 <= i < rest.len()
                        &&& #[trigger] rest[i] == decision
                        &&& decision.status == PlanCandidateStatus::Accepted
                        &&& forall|j: int|
                            0 <= j < i ==> (#[trigger] rest[j]).status
                                != PlanCandidateStatus::Accepted
                    };
                assert(decisions[i + 1] == decision);
                assert forall|j: int| 0 <= j < i + 1 implies (#[trigger] decisions[j]).status
                    != PlanCandidateStatus::Accepted by {
                    if j > 0 {
                        assert(rest[j - 1] == decisions[j]);
                    }
                }
            } else {
                assert forall|j: int| 0 <= j < decisions.len() implies (
                #[trigger] decisions[j]).status != PlanCandidateStatus::Accepted by {
                    if j > 0 {
                        assert(rest[j - 1] == decisions[j]);
                    }
                }
            }
        }
    }
}

proof fn lemma_order_covers(order: Seq<int>, len: nat, wanted: int) -> (place: int)
    requires
        is_permutation(order, len),
        0 <= wanted < len,
    ensures
        0 <= place < order.len(),
        order[place] == wanted,
{
    let range = set_int_range(0, len as int);
    lemma_int_range(0, len as int);
    assert(order.no_duplicates());
    order.unique_seq_to_set();
    assert forall|x: int| order.to_set().contains(x) implies range.contains(x) by {
        let i = choose|i: int| 0 <= i < order.len() && order[i] == x;
        assert(0 <= order[i] < len);
    }
    lemma_subset_equality(order.to_set(), range);
    assert(range.contains(wanted));
    assert(order.to_set().contains(wanted));
    choose|i: int| 0 <= i < order.len() && order[i] == wanted
}

/// Every candidate has its decision in the plan, and every decision in the plan is one of a
/// candidate.
pub proof fn law_one_decision_per_candidate(
    manifest: ModelManifest,
    request: EffectiveInferenceRequest,
    estimate: WorkloadEstimate,
    candidates: Seq<InferenceRuntimeCandidate>,
    plan: Plan,
)
    requires
        is_plan_for(manifest, request, estimate, candidates, plan),
    ensures
        plan.candidates.len() == candidates.len(),
        forall|k: int|
            0 <= k < candidates.len() ==> plan.candidates.contains(
                decision_on(manifest, request, estimate, #[trigger] candidates[k]),
            ),
        forall|i: int|
            0 <= i < plan.candidates.len() ==> all_decisions(
                manifest,
                request,
                estimate,
                candidates,
            ).contains(#[trigger] plan.candidates[i]),
{
    let given = all_decisions(manifest, request, estimate, candidates);
    let order = choose|order: Seq<int>| is_sorted_by(given, plan.candidates, order);
    assert forall|k: int| 0 <= k < candidates.len() implies plan.candidates.contains(
        decision_on(manifest, request, estimate, #[trigger] candidates[k]),
    ) by {
        let place = lemma_order_covers(order, given.len(), k);
        assert(plan.candidates[place] == given[order[place]]);
        assert(given[k] == decision_on(manifest, request, estimate, candidates[k]));
    }
    assert forall|i: int| 0 <= i < plan.candidates.len() implies given.contains(
        #[trigger] plan.candidates[i],
    ) by {
        assert(plan.candidates[i] == given[order[i]]);
        assert(0 <= order[i] < given.len());
    }
}

/// A candidate is accepted just where nothing speaks against it, and just then it has a score.
pub proof fn law_accepted_without_reasons(
    manifest: ModelManifest,
    request: EffectiveInferenceRequest,
    estimate: WorkloadEstimate,
    candidates: Seq<InferenceRuntimeCandidate>,
    plan: Plan,
)
    requires
        is_plan_for(manifest, request, estimate, candidates, plan),
    ensures
        forall|i: int|
            #![trigger plan.candidates[i]]
            0 <= i < plan.candidates.len() ==> {
                let decision = plan.candidates[i];
                &&& (decision.status == PlanCandidateStatus::Accepted) == (decision.reasons.len()
                    == 0)
                &&& (decision.status == PlanCandidateStatus::Accepted) == (decision.score is Some)
            },
{
    law_one_decision_per_candidate(manifest, request, estimate, candidates, plan);
    let given = all_decisions(manifest, request, estimate, candidates);
    assert forall|i: int|
        #![trigger plan.candidates[i]]
        0 <= i < plan.candidates.len() implies {
        let decision = plan.candidates[i];
        &&& (decision.status == PlanCandidateStatus::Accepted) == (decision.reasons.len() == 0)
        &&& (decision.status == PlanCandidateStatus::Accepted) == (decision.score is Some)
    } by {
        assert(given.contains(plan.candidates[i]));
        let k = choose|k: int| 0 <= k < given.len() && given[k] == plan.candidates[i];
        assert(given[k] == decision_on(manifest, request, estimate, candidates[k]));
    }
}

/// In a plan the accepted candidates stand before the rejected ones.
pub proof fn law_accepted_stand_first(
    manifest: ModelManifest,
    request: EffectiveInferenceRequest,
    estimate: WorkloadEstimate,
    candidates: Seq<InferenceRuntimeCandidate>,
    plan: Plan,
    i: int,
    j: int,
)
    requires
        is_plan_for(manifest, request, estimate, candidates, plan),
        0 <= i < j < plan.candidates.len(),
        plan.candidates[j].status == PlanCandidateStatus::Accepted,
    ensures
        plan.candidates[i].status == PlanCandidateStatus::Accepted,
{
    law_accepted_without_reasons(manifest, request, estimate, candidates, plan);
    let given = all_decisions(manifest, request, estimate, candidates);
    let order = choose|order: Seq<int>| is_sorted_by(given, plan.candidates, order);
    assert(may_precede(plan.candidates[i], plan.candidates[j]));
}

/// Where a candidate is accepted, the plan selects one, and none that is accepted goes before
/// it: no score is higher, and of equal scores it has the first id.
#[verifier::rlimit(60)]
pub proof fn law_selected_is_best(
    manifest: ModelManifest,
    request: EffectiveInferenceRequest,
    estimate: WorkloadEstimate,
    candidates: Seq<InferenceRuntimeCandidate>,
    plan: Plan,
    k: int,
)
    requires
        is_plan_for(manifest, request, estimate, candidates, plan),
        0 <= k < candidates.len(),
        rejection_reasons(manifest, request, estimate, candidates[k]).len() == 0,
    ensures
        first_accepted(plan.candidates) is Some,
        plan.selected_runtime == Some(first_accepted(plan.candidates)->0.runtime_id),
        plan.selected_backend == Some(first_accepted(plan.candidates)->0.backend),
        plan.score is Some,
        plan.score->0 >= decision_on(manifest, request, estimate, candidates[k]).score->0,
        first_accepted(plan.candidates)->0 == decision_on(manifest, request, estimate, candidates[k])
            || may_precede(
            first_accepted(plan.candidates)->0,
            decision_on(manifest, request, estimate, candidates[k]),
        ),
{
    law_one_decision_per_candidate(manifest, request, estimate, candidates, plan);
    law_accepted_without_reasons(manifest, request, estimate, candidates, plan);
    lemma_first_accepted(plan.candidates);
    let given = all_decisions(manifest, request, estimate, candidates);
    let order = choose|order: Seq<int>| is_sorted_by(given, plan.candidates, order);
    let decision = decision_on(manifest, request, estimate, candidates[k]);
    assert(plan.candidates.contains(decision));
    let j = choose|j: int| 0 <= j < plan.candidates.len() && plan.candidates[j] == decision;
    assert(plan.candidates[j].status == PlanCandidateStatus::Accepted);
    let best = first_accepted(plan.candidates)->0;
    let i = choose|i: int|
        {
            &&& 0 <= i < plan.candidates.len()
            &&& #[trigger] plan.candidates[i] == best
            &&& best.status == PlanCandidateStatus::Accepted
            &&& forall|j: int|
                0 <= j < i ==> (#[trigger] plan.candidates[j]).status
                    != PlanCandidateStatus::Accepted
        };
    assert(i <= j);
    if i < j {
        assert(may_precede(plan.candidates[i], plan.candidates[j]));
    }
}

/// A plan selects a runtime just where some candidate has nothing against it.
pub proof fn law_selects_where_one_will_do(
    manifest: ModelManifest,
    request: EffectiveInferenceRequest,
    estimate: WorkloadEstimate,
    candidates: Seq<InferenceRuntimeCandidate>,
    plan: Plan,
)
    requires
        is_plan_for(manifest, request, estimate, candidates, plan),
    ensures
        plan.selected_runtime is Some <==> exists|k: int|
            0 <= k < candidates.len() && rejection_reasons(
                manifest,
                request,
                estimate,
                #[trigger] candidates[k],
            ).len() == 0,
{
    let given = all_decisions(manifest, request, estimate, candidates);
    law_one_decision_per_candidate(manifest, request, estimate, candidates, plan);
    lemma_first_accepted(plan.candidates);
    if plan.selected_runtime is Some {
        let best = first_accepted(plan.candidates)->0;
        let i = choose|i: int| 0 <= i < plan.candidates.len() && #[trigger] plan.candidates[i] == best;
        assert(given.contains(plan.candidates[i]));
        let k = choose|k: int| 0 <= k < given.len() && given[k] == best;
        assert(given[k] == decision_on(manifest, request, estimate, candidates[k]));
        assert(rejection_reasons(manifest, request, estimate, candidates[k]).len() == 0);
    }
    if exists|k: int|
        0 <= k < candidates.len() && rejection_reasons(
            manifest,
            request,
            estimate,
            #[trigger] candidates[k],
        ).len() == 0 {
        let k = choose|k: int|
            0 <= k < candidates.len() && rejection_reasons(
                manifest,
                request,
                estimate,
                #[trigger] candidates[k],
            ).len() == 0;
        law_selected_is_best(manifest, request, estimate, candidates, plan, k);
    }
}

/// Where the caller asks for a backend and permits no fallback, no other backend is selected.
pub proof fn law_no_fallback_without_permission(
    manifest: ModelManifest,
    request: EffectiveInferenceRequest,
    estimate: WorkloadEstimate,
    candidates: Seq<InferenceRuntimeCandidate>,
    plan: Plan,
)
    requires
        is_plan_for(manifest, request, estimate, candidates, plan),
        fallback_policy(request) == "none"@,
    ensures
        !plan.backend_fallback,
        requested_backend(request) is Some && plan.selected_backend is Some ==> lower(
            plan.selected_backend->0,
        ) == lower(requested_backend(request)->0),
{
    let given = all_decisions(manifest, request, estimate, candidates);
    law_one_decision_per_candidate(manifest, request, estimate, candidates, plan);
    lemma_first_accepted(plan.candidates);
    if plan.selected_backend is Some && requested_backend(request) is Some {
        let best = first_accepted(plan.candidates)->0;
        let i = choose|i: int| 0 <= i < plan.candidates.len() && #[trigger] plan.candidates[i] == best;
        assert(given.contains(plan.candidates[i]));
        let k = choose|k: int| 0 <= k < given.len() && given[k] == best;
        assert(given[k] == decision_on(manifest, request, estimate, candidates[k]));
        assert(rejection_reasons(manifest, request, estimate, candidates[k]).len() == 0);
        assert(backend_reason(request, candidates[k]).len() == 0);
    }
}

/// Nothing is degraded, and nothing less is advised, unless memory is likely to run out.
pub proof fn law_degrades_only_out_of_memory(
    manifest: ModelManifest,
    request: EffectiveInferenceRequest,
    estimate: WorkloadEstimate,
    candidates: Seq<InferenceRuntimeCandidate>,
    plan: Plan,
)
    requires
        is_plan_for(manifest, request, estimate, candidates, plan),
        estimate.fit != FitAssessment::LikelyOom,
    ensures
        plan.degradations.len() == 0,
        plan.model_or_quality_downgrades.len() == 0,
        forall|i: int|
            0 <= i < plan.candidates.len() ==> (#[trigger] plan.candidates[i]).degradations.len()
                == 0,
{
    let given = all_decisions(manifest, request, estimate, candidates);
    law_one_decision_per_candidate(manifest, request, estimate, candidates, plan);
    lemma_first_accepted(plan.candidates);
    assert forall|i: int| 0 <= i < plan.candidates.len() implies (
    #[trigger] plan.candidates[i]).degradations.len() == 0 by {
        assert(given.contains(plan.candidates[i]));
        let k = choose|k: int| 0 <= k < given.len() && given[k] == plan.candidates[i];
        assert(given[k] == decision_on(manifest, request, estimate, candidates[k]));
    }
}

/// Where memory is likely to run out, a selected runtime comes with a degradation, and only
/// where the policy is to degrade.
pub proof fn law_out_of_memory_needs_degradation(
    manifest: ModelManifest,
    request: EffectiveInferenceRequest,
    estimate: WorkloadEstimate,
    candidates: Seq<InferenceRuntimeCandidate>,
    plan: Plan,
)
    requires
        is_plan_for(manifest, request, estimate, candidates, plan),
        estimate.fit == FitAssessment::LikelyOom,
        plan.selected_runtime is Some,
    ensures
        plan.degradations.len() > 0,
        fallback_policy(request) == "degrade"@,
{
    let given = all_decisions(manifest, request, estimate, candidates);
    law_one_decision_per_candidate(manifest, request, estimate, candidates, plan);
    lemma_first_accepted(plan.candidates);
    let best = first_accepted(plan.candidates)->0;
    let i = choose|i: int| 0 <= i < plan.candidates.len() && #[trigger] plan.candidates[i] == best;
    assert(given.contains(plan.candidates[i]));
    let k = choose|k: int| 0 <= k < given.len() && given[k] == best;
    assert(given[k] == decision_on(manifest, request, estimate, candidates[k]));
    assert(rejection_reasons(manifest, request, estimate, candidates[k]).len() == 0);
    assert(may_degrade(request, estimate, candidates[k]));
    assert(degradations(request, estimate, candidates[k]).len() > 0);
}

proof fn lemma_orders_agree(
    given: Seq<Decision>,
    first: Seq<Decision>,
    second: Seq<Decision>,
    first_order: Seq<int>,
    second_order: Seq<int>,
    count: int,
)
    requires
        is_sorted_by(given, first, first_order),
        is_sorted_by(given, second, second_order),
        0 <= count <= given.len(),
    ensures
        forall|i: int| 0 <= i < count ==> #[trigger] first_order[i] == second_order[i],
    decreases count,
{
    if count > 0 {
        let i = count - 1;
        lemma_orders_agree(given, first, second, first_order, second_order, i);
        let a = first_order[i];
        let b = second_order[i];
        if a != b {
            assert(0 <= a < given.len());
            assert(0 <= b < given.len());
            let j = lemma_order_covers(first_order, given.len(), b);
            let k = lemma_order_covers(second_order, given.len(), a);
            if j < i {
                assert(first_order[j] == second_order[j]);
                assert(second_order[j] != second_order[i]);
            }
            if k < i {
                assert(first_order[k] == second_order[k]);
                assert(first_order[k] != first_order[i]);
            }
            assert(first[i] == given[a]);
            assert(first[j] == given[b]);
            assert(second[i] == given[b]);
            assert(second[k] == given[a]);
            assert(may_precede(first[i], first[j]));
            assert(may_precede(second[i], second[k]));
            assert(first_order[i] < first_order[j]);
            assert(second_order[i] < second_order[k]);
        }
    }
}

/// Decisions have one order only.
proof fn lemma_sorting_is_unique(given: Seq<Decision>, first: Seq<Decision>, second: Seq<Decision>)
    requires
        is_sorting_of(given, first),
        is_sorting_of(given, second),
    ensures
        first == second,
{
    let first_order = choose|order: Seq<int>| is_sorted_by(given, first, order);
    let second_order = choose|order: Seq<int>| is_sorted_by(given, second, order);
    lemma_orders_agree(given, first, second, first_order, second_order, given.len() as int);
    assert forall|i: int| 0 <= i < first.len() implies first[i] == second[i] by {
        assert(first[i] == given[first_order[i]]);
        assert(second[i] == given[second_order[i]]);
    }
    assert(first =~= second);
}

/// A request has one plan only.
pub proof fn law_plan_is_unique(
    manifest: ModelManifest,
    request: EffectiveInferenceRequest,
    estimate: WorkloadEstimate,
    candidates: Seq<InferenceRuntimeCandidate>,
    first: Plan,
    second: Plan,
)
    requires
        is_plan_for(manifest, request, estimate, candidates, first),
        is_plan_for(manifest, request, estimate, candidates, second),
    ensures
        first == second,
{
    lemma_sorting_is_unique(
        all_decisions(manifest, request, estimate, candidates),
        first.candidates,
        second.candidates,
    );
}

/// Where the ids differ, an order of shuffled decisions is an order of the decisions themselves.
#[verifier::rlimit(60)]
proof fn lemma_sorting_of_shuffled(
    given: Seq<Decision>,
    shuffled: Seq<Decision>,
    shuffle: Seq<int>,
    sorted: Seq<Decision>,
)
    requires
        forall|i: int, j: int|
            0 <= i < j < given.len() ==> (#[trigger] given[i]).runtime_id != (
            #[trigger] given[j]).runtime_id,
        is_permutation(shuffle, given.len()),
        shuffled.len() == given.len(),
        forall|i: int| 0 <= i < shuffled.len() ==> #[trigger] shuffled[i] == given[shuffle[i]],
        is_sorting_of(shuffled, sorted),
    ensures
        is_sorting_of(given, sorted),
{
    let order = choose|order: Seq<int>| is_sorted_by(shuffled, sorted, order);
    let whole = Seq::new(order.len(), |i: int| shuffle[order[i]]);
    assert forall|i: int| 0 <= i < whole.len() implies 0 <= #[trigger] whole[i] < given.len()
        && sorted[i] == given[whole[i]] by {
        assert(0 <= order[i] < shuffled.len());
        assert(sorted[i] == shuffled[order[i]]);
    }
    assert forall|i: int, j: int| 0 <= i < j < whole.len() implies whole[i] != whole[j] by {
        assert(0 <= order[i] < shuffled.len());
        assert(0 <= order[j] < shuffled.len());
        assert(order[i] != order[j]);
        if order[i] < order[j] {
            assert(shuffle[order[i]] != shuffle[order[j]]);
        } else {
            assert(shuffle[order[j]] != shuffle[order[i]]);
        }
    }
    assert forall|i: int, j: int|
        #![trigger whole[i], whole[j]]
        0 <= i < j < sorted.len() && may_precede(sorted[j], sorted[i]) implies whole[i]
        < whole[j] by {
        assert(may_precede(sorted[i], sorted[j]));
        lemma_text_le_antisymmetric(sorted[i].runtime_id, sorted[j].runtime_id);
        assert(given[whole[i]].runtime_id == given[whole[j]].runtime_id);
        assert(whole[i] != whole[j]);
    }
    assert(is_sorted_by(given, sorted, whole));
}

/// Where the runtimes' ids differ, the order in which the candidates are listed does not matter.
pub proof fn law_listing_order_does_not_matter(
    manifest: ModelManifest,
    request: EffectiveInferenceRequest,
    estimate: WorkloadEstimate,
    candidates: Seq<InferenceRuntimeCandidate>,
    shuffled: Seq<InferenceRuntimeCandidate>,
    shuffle: Seq<int>,
    first: Plan,
    second: Plan,
)
    requires
        forall|i: int, j: int|
            0 <= i < j < candidates.len() ==> (#[trigger] candidates[i]).id@ != (
            #[trigger] candidates[j]).id@,
        is_permutation(shuffle, candidates.len()),
        shuffled.len() == candidates.len(),
        forall|i: int| 0 <= i < shuffled.len() ==> #[trigger] shuffled[i] == candidates[shuffle[i]],
        is_plan_for(manifest, request, estimate, candidates, first),
        is_plan_for(manifest, request, estimate, shuffled, second),
    ensures
        first == second,
{
    let given = all_decisions(manifest, request, estimate, candidates);
    let other = all_decisions(manifest, request, estimate, shuffled);
    assert forall|i: int, j: int| 0 <= i < j < given.len() implies (#[trigger] given[i]).runtime_id
        != (#[trigger] given[j]).runtime_id by {
        assert(given[i].runtime_id == candidates[i].id@);
        assert(given[j].runtime_id == candidates[j].id@);
    }
    assert forall|i: int| 0 <= i < other.len() implies #[trigger] other[i] == given[shuffle[i]] by {
        assert(shuffled[i] == candidates[shuffle[i]]);
        assert(0 <= shuffle[i] < candidates.len());
    }
    lemma_sorting_of_shuffled(given, other, shuffle, second.candidates);
    lemma_sorting_is_unique(given, first.candidates, second.candidates);
}

/// The value under a path is that of the first entry with the path; where no entry has it, there
/// is none.
pub proof fn law_first_entry_counts<V>(entries: Seq<(String, V)>, path: Seq<char>)
    ensures
        forall|at: int|
            #![trigger entries[at]]
            0 <= at < entries.len() && entries[at].0@ == path && (forall|j: int|
                0 <= j < at ==> (#[trigger] entries[j]).0@ != path) ==> lookup(entries, path)
                == Some(entries[at].1),
        lookup(entries, path) is None <==> forall|j: int|
            0 <= j < entries.len() ==> (#[trigger] entries[j]).0@ != path,
    decreases entries.len(),
{
    if entries.len() > 0 && entries[0].0@ != path {
        let rest = entries.drop_first();
        law_first_entry_counts(rest, path);
        assert forall|at: int|
            #![trigger entries[at]]
            0 <= at < entries.len() && entries[at].0@ == path && (forall|j: int|
                0 <= j < at ==> (#[trigger] entries[j]).0@ != path) implies lookup(entries, path)
            == Some(entries[at].1) by {
            assert(rest[at - 1] == entries[at]);
            assert forall|j: int| 0 <= j < at - 1 implies (#[trigger] rest[j]).0@ != path by {
                assert(rest[j] == entries[j + 1]);
            }
        }
        if lookup(rest, path) is None {
            assert forall|j: int| 0 <= j < entries.len() implies (#[trigger] entries[j]).0@
                != path by {
                if j > 0 {
                    assert(rest[j - 1] == entries[j]);
                }
            }
        }
        if forall|j: int| 0 <= j < entries.len() ==> (#[trigger] entries[j]).0@ != path {
            assert forall|j: int| 0 <= j < rest.len() implies (#[trigger] rest[j]).0@ != path by {
                assert(rest[j] == entries[j + 1]);
            }
        }
    }
}

/// A parameter is read by its kind: a text as a text, a flag as a flag, a number as a number, and
/// none as another.
pub proof fn law_parameters_are_read_by_kind(request: EffectiveInferenceRequest, path: Seq<char>)
    ensures
        match lookup(request.parameters@, path) {
            Some(ParameterValue::Text(text)) => request.text_at(path) == Some(text@),
            _ => request.text_at(path) is None,
        },
        match lookup(request.parameters@, path) {
            Some(ParameterValue::Bool(flag)) => request.bool_at(path) == Some(flag),
            _ => request.bool_at(path) is None,
        },
        match lookup(request.parameters@, path) {
            Some(ParameterValue::Unsigned(number)) => request.unsigned_at(path) == Some(number),
            _ => request.unsigned_at(path) is None,
        },
{
}

proof fn lemma_parameter_reasons(
    request: EffectiveInferenceRequest,
    candidate: InferenceRuntimeCandidate,
    paths: Seq<String>,
)
    ensures
        parameter_reasons(request, candidate, paths).len() == 0 <==> forall|i: int|
            0 <= i < paths.len() ==> !refuses_parameter(request, candidate, (#[trigger] paths[i])@),
    decreases paths.len(),
{
    if paths.len() > 0 {
        let rest = paths.drop_last();
        lemma_parameter_reasons(request, candidate, rest);
        if parameter_reasons(request, candidate, rest).len() == 0 && !refuses_parameter(
            request,
            candidate,
            paths.last()@,
        ) {
            assert forall|i: int| 0 <= i < paths.len() implies !refuses_parameter(
                request,
                candidate,
                (#[trigger] paths[i])@,
            ) by {
                if i < rest.len() {
                    assert(rest[i] == paths[i]);
                }
            }
        }
        if forall|i: int|
            0 <= i < paths.len() ==> !refuses_parameter(request, candidate, (#[trigger] paths[i])@) {
            assert(!refuses_parameter(request, candidate, paths[paths.len() - 1]@));
            assert forall|i: int| 0 <= i < rest.len() implies !refuses_parameter(
                request,
                candidate,
                (#[trigger] rest[i])@,
            ) by {
                assert(rest[i] == paths[i]);
            }
        }
    }
}

/// Whether the caller asks for something under a path: a text that does not leave the choice open.
pub open spec fn asks_for(
    request: EffectiveInferenceRequest,
    path: Seq<char>,
    text: Seq<char>,
) -> bool {
    request.text_at(path) == Some(text) && text != "auto"@
}

/// Whether a candidate can do what the model and the task need.
pub open spec fn can_do(
    manifest: ModelManifest,
    request: EffectiveInferenceRequest,
    candidate: InferenceRuntimeCandidate,
) -> bool {
    &&& candidate.available
    &&& exists|i: int|
        0 <= i < candidate.supported_tasks@.len() && (
        #[trigger] candidate.supported_tasks@[i]).name@ == request.task.name@
            && candidate.supported_tasks@[i].modality == request.task.modality
    &&& candidate.supported_layouts@.len() == 0 || exists|i: int|
        0 <= i < candidate.supported_layouts@.len() && (
        #[trigger] candidate.supported_layouts@[i]).name@
            == manifest.metadata.repository_layout.name@
    &&& candidate.supported_formats@.len() == 0 || exists|i: int|
        0 <= i < candidate.supported_formats@.len() && #[trigger] candidate.supported_formats@[i]
            == manifest.format
    &&& manifest.metadata.family is None || candidate.supported_families@.len() == 0 || exists|
        i: int,
    |
        0 <= i < candidate.supported_families@.len() && lower(
            (#[trigger] candidate.supported_families@[i])@,
        ) == lower(manifest.metadata.family->0@)
    &&& manifest.architecture is None || candidate.supported_architectures@.len() == 0 || exists|
        i: int,
    |
        0 <= i < candidate.supported_architectures@.len() && lower(
            (#[trigger] candidate.supported_architectures@[i])@,
        ) == lower(manifest.architecture->0@)
}

/// Whether a candidate is where the caller wants the request served, and takes what the caller has
/// set.
pub open spec fn suits_caller(
    request: EffectiveInferenceRequest,
    candidate: InferenceRuntimeCandidate,
) -> bool {
    &&& request.text_at("routing.fallback_policy"@) == Some("none"@) ==> forall|backend: Seq<char>|
        #[trigger] asks_for(request, "routing.backend"@, backend) ==> lower(candidate.backend@)
            == lower(backend)
    &&& forall|name: Seq<char>| #[trigger]
        asks_for(request, "routing.accelerator"@, name) ==> accelerator_goes_by(
            candidate.accelerator,
            name,
        )
    &&& request.parameter_policy == ParameterPolicy::Strict ==> forall|i: int|
        0 <= i < request.explicit_parameters@.len() ==> {
            let status = lookup(
                candidate.parameter_support@,
                (#[trigger] request.explicit_parameters@[i])@,
            );
            status != Some(ParameterSupportStatus::Ignored) && status != Some(
                ParameterSupportStatus::Unsupported,
            )
        }
}

/// A candidate is accepted just where it can do what the model and the task need, suits the
/// caller, and has the memory: either the workload may fit, or degrading is the policy, the
/// candidate can offload, and some degradation is permitted.
#[verifier::rlimit(60)]
pub proof fn law_accepts_what_meets_every_demand(
    manifest: ModelManifest,
    request: EffectiveInferenceRequest,
    estimate: WorkloadEstimate,
    candidate: InferenceRuntimeCandidate,
)
    ensures
        ({
            let decision = decision_on(manifest, request, estimate, candidate);
            &&& decision.status == PlanCandidateStatus::Accepted <==> {
                &&& can_do(manifest, request, candidate)
                &&& suits_caller(request, candidate)
                &&& estimate.fit == FitAssessment::LikelyOom ==> {
                    &&& request.text_at("routing.fallback_policy"@) == Some("degrade"@)
                    &&& candidate.supports_offloading
                    &&& decision.degradations.len() > 0
                }
            }
            &&& decision.runtime_id == candidate.id@
            &&& decision.backend == candidate.backend@
        }),
{
    lemma_policies_differ();
    lemma_capability_reasons(manifest, request, candidate);
    lemma_caller_reasons(request, candidate);
    let reasons = rejection_reasons(manifest, request, estimate, candidate);
    assert(reasons.len() == availability_reason(candidate).len() + task_reason(
        request,
        candidate,
    ).len() + layout_reason(manifest, candidate).len() + format_reason(manifest, candidate).len()
        + family_reason(manifest, candidate).len() + architecture_reason(manifest, candidate).len()
        + backend_reason(request, candidate).len() + accelerator_reason(request, candidate).len()
        + parameter_reasons(request, candidate, request.explicit_parameters@).len()
        + memory_reasons(request, estimate, candidate).len());
}

proof fn lemma_policies_differ()
    ensures
        "none"@ != "backend"@,
        "none"@ != "degrade"@,
        "backend"@ != "degrade"@,
{
    reveal_strlit("none");
    reveal_strlit("backend");
    reveal_strlit("degrade");
    assert("backend"@[0] != "degrade"@[0]);
}

proof fn lemma_capability_reasons(
    manifest: ModelManifest,
    request: EffectiveInferenceRequest,
    candidate: InferenceRuntimeCandidate,
)
    ensures
        can_do(manifest, request, candidate) <==> availability_reason(candidate).len() == 0
            && task_reason(request, candidate).len() == 0 && layout_reason(
            manifest,
            candidate,
        ).len() == 0 && format_reason(manifest, candidate).len() == 0 && family_reason(
            manifest,
            candidate,
        ).len() == 0 && architecture_reason(manifest, candidate).len() == 0,
{
    if candidate.supported_formats@.contains(manifest.format) {
        let i = choose|i: int|
            0 <= i < candidate.supported_formats@.len() && candidate.supported_formats@[i]
                == manifest.format;
        assert(candidate.supported_formats@[i] == manifest.format);
    }
}

proof fn lemma_caller_reasons(
    request: EffectiveInferenceRequest,
    candidate: InferenceRuntimeCandidate,
)
    ensures
        suits_caller(request, candidate) <==> backend_reason(request, candidate).len() == 0
            && accelerator_reason(request, candidate).len() == 0 && parameter_reasons(
            request,
            candidate,
            request.explicit_parameters@,
        ).len() == 0,
{
    lemma_policies_differ();
    lemma_parameter_reasons(request, candidate, request.explicit_parameters@);
    let paths = request.explicit_parameters@;
    if request.text_at("routing.backend"@) is Some {
        let backend = request.text_at("routing.backend"@)->0;
        assert(asks_for(request, "routing.backend"@, backend) <==> backend != "auto"@);
    }
    if request.text_at("routing.accelerator"@) is Some {
        let name = request.text_at("routing.accelerator"@)->0;
        assert(asks_for(request, "routing.accelerator"@, name) <==> name != "auto"@);
    }
    if request.parameter_policy == ParameterPolicy::Strict && parameter_reasons(
        request,
        candidate,
        paths,
    ).len() > 0 {
        let i = choose|i: int|
            0 <= i < paths.len() && refuses_parameter(request, candidate, (#[trigger] paths[i])@);
        assert(refuses_parameter(request, candidate, paths[i]@));
    }
}

/// No candidate is rejected for its accelerator where the caller asks for that accelerator by its
/// own name, in any letter case, and every candidate on another one is.
pub proof fn law_asking_for_an_accelerator_by_name(
    request: EffectiveInferenceRequest,
    candidate: InferenceRuntimeCandidate,
    name: Seq<char>,
)
    requires
        asks_for(request, "routing.accelerator"@, name),
    ensures
        lower(name) == "cpu"@ ==> (accelerator_reason(request, candidate).len() == 0
            <==> candidate.accelerator == RuntimeAccelerator::Cpu),
        lower(name) == "cuda"@ ==> (accelerator_reason(request, candidate).len() == 0
            <==> candidate.accelerator == RuntimeAccelerator::Cuda),
        lower(name) == "rocm"@ || lower(name) == "hip"@ ==> (accelerator_reason(
            request,
            candidate,
        ).len() == 0 <==> candidate.accelerator == RuntimeAccelerator::Rocm),
        lower(name) == "mps"@ ==> (accelerator_reason(request, candidate).len() == 0
            <==> candidate.accelerator == RuntimeAccelerator::Mps),
        lower(name) == "mlx"@ ==> (accelerator_reason(request, candidate).len() == 0
            <==> candidate.accelerator == RuntimeAccelerator::Mlx),
{
    law_accelerators_match_their_names(candidate.accelerator, name);
}

/// An accepted candidate's score is its priority, with 500 more for the backend that the caller
/// asks for, 120 less on the CPU, and 35 less for each degradation.
pub proof fn law_score_is_made_of(
    manifest: ModelManifest,
    request: EffectiveInferenceRequest,
    estimate: WorkloadEstimate,
    candidate: InferenceRuntimeCandidate,
)
    requires
        score_fits(request, estimate, candidate),
        decision_on(manifest, request, estimate, candidate).status == PlanCandidateStatus::Accepted,
    ensures
        ({
            let decision = decision_on(manifest, request, estimate, candidate);
            let wanted = exists|backend: Seq<char>| #[trigger]
                asks_for(request, "routing.backend"@, backend) && lower(candidate.backend@)
                    == lower(backend);
            let base = candidate.priority - 35 * decision.degradations.len();
            let on_cpu = candidate.accelerator == RuntimeAccelerator::Cpu;
            &&& decision.score is Some
            &&& !wanted && !on_cpu ==> decision.score->0 == base
            &&& !wanted && on_cpu ==> decision.score->0 == base - 120
            &&& wanted && !on_cpu ==> decision.score->0 == base + 500
            &&& wanted && on_cpu ==> decision.score->0 == base + 380
        }),
{
    let backend = request.text_at("routing.backend"@);
    if backend is Some {
        assert(asks_for(request, "routing.backend"@, backend->0) <==> backend->0 != "auto"@);
    }
    assert(candidate_score(request, estimate, candidate) <= i32::MAX);
}

/// Degradations are named only where memory is likely to run out, degrading is the policy and the
/// candidate can offload. There each one is named just where it is permitted: an offload on the
/// accelerators that have one, tiling for images, and windows for videos.
pub proof fn law_degradations_are_those_permitted(
    manifest: ModelManifest,
    request: EffectiveInferenceRequest,
    estimate: WorkloadEstimate,
    candidate: InferenceRuntimeCandidate,
)
    ensures
        ({
            let named = decision_on(manifest, request, estimate, candidate).degradations;
            let degrades = estimate.fit == FitAssessment::LikelyOom && request.text_at(
                "routing.fallback_policy"@,
            ) == Some("degrade"@) && candidate.supports_offloading;
            let offloads = candidate.accelerator == RuntimeAccelerator::Cuda
                || candidate.accelerator == RuntimeAccelerator::Rocm;
            &&& named.no_duplicates()
            &&& named.contains(ExecutionDegradation::CpuOffload) <==> degrades && offloads
                && request.bool_at("routing.allow_cpu_offload"@) == Some(true)
            &&& named.contains(ExecutionDegradation::SequentialOffload) <==> degrades && offloads
                && request.bool_at("routing.allow_sequential_offload"@) == Some(true)
            &&& named.contains(ExecutionDegradation::ComponentOffload) <==> degrades && offloads
                && request.bool_at("routing.allow_component_offload"@) == Some(true)
            &&& named.contains(ExecutionDegradation::VaeTiling) <==> degrades
                && request.task.modality == OutputModality::Image && request.bool_at(
                "image.vae_tiling"@,
            ) == Some(true)
            &&& named.contains(ExecutionDegradation::TemporalWindowing) <==> degrades
                && request.task.modality == OutputModality::Video && (request.bool_at(
                "video.temporal_vae_tiling"@,
            ) == Some(true) || request.unsigned_at("video.window_size"@) is Some)
            &&& forall|i: int|
                0 <= i < named.len() ==> !(#[trigger] named[i] is SlowerAttention)
        }),
{
    lemma_policies_differ();
    let offloads = candidate.accelerator == RuntimeAccelerator::Cuda || candidate.accelerator
        == RuntimeAccelerator::Rocm;
    let modality = request.task.modality;
    let named = degradations(request, estimate, candidate);
    if may_degrade(request, estimate, candidate) {
        let cpu = offloads && request.bool_at("routing.allow_cpu_offload"@) == Some(true);
        let sequential = offloads && request.bool_at("routing.allow_sequential_offload"@) == Some(
            true,
        );
        let component = offloads && request.bool_at("routing.allow_component_offload"@) == Some(
            true,
        );
        let tiling = modality == OutputModality::Image && request.bool_at("image.vae_tiling"@)
            == Some(true);
        let windows = modality == OutputModality::Video && (request.bool_at(
            "video.temporal_vae_tiling"@,
        ) == Some(true) || request.unsigned_at("video.window_size"@) is Some);
        let none = Seq::<ExecutionDegradation>::empty();
        let first = degradation_if(cpu, ExecutionDegradation::CpuOffload);
        let second = first + degradation_if(sequential, ExecutionDegradation::SequentialOffload);
        let third = second + degradation_if(component, ExecutionDegradation::ComponentOffload);
        let fourth = third + degradation_if(tiling, ExecutionDegradation::VaeTiling);
        assert(none + first =~= first);
        lemma_one_more(none, cpu, ExecutionDegradation::CpuOffload);
        lemma_one_more(first, sequential, ExecutionDegradation::SequentialOffload);
        lemma_one_more(second, component, ExecutionDegradation::ComponentOffload);
        lemma_one_more(third, tiling, ExecutionDegradation::VaeTiling);
        lemma_one_more(fourth, windows, ExecutionDegradation::TemporalWindowing);
        assert(named == fourth + degradation_if(windows, ExecutionDegradation::TemporalWindowing));
        assert forall|i: int| 0 <= i < named.len() implies !(
        #[trigger] named[i] is SlowerAttention) by {
            assert(named.contains(named[i]));
        }
    }
}

proof fn lemma_one_more(
    list: Seq<ExecutionDegradation>,
    applies: bool,
    degradation: ExecutionDegradation,
)
    requires
        list.no_duplicates(),
        !list.contains(degradation),
    ensures
        (list + degradation_if(applies, degradation)).no_duplicates(),
        forall|other: ExecutionDegradation|
            (#[trigger] (list + degradation_if(applies, degradation)).contains(other)) <==> (
            list.contains(other) || (applies && other == degradation)),
{
    let all = list + degradation_if(applies, degradation);
    assert forall|other: ExecutionDegradation| #[trigger] all.contains(other) <==> (list.contains(
        other,
    ) || (applies && other == degradation)) by {
        if all.contains(other) {
            let i = choose|i: int| 0 <= i < all.len() && all[i] == other;
            if i < list.len() {
                assert(list[i] == other);
            }
        }
        if list.contains(other) {
            let i = choose|i: int| 0 <= i < list.len() && list[i] == other;
            assert(all[i] == other);
        }
        if applies && other == degradation {
            assert(all[list.len() as int] == degradation);
        }
    }
    assert forall|i: int, j: int| 0 <= i < j < all.len() implies all[i] != all[j] by {
        if j >= list.len() {
            assert(list.contains(list[i]));
        }
    }
}

/// What to ask less of is advised just where memory is likely to run out.
pub proof fn law_advice_comes_with_lack_of_memory(
    request: EffectiveInferenceRequest,
    estimate: WorkloadEstimate,
)
    ensures
        downgrades(request, estimate).len() == if estimate.fit == FitAssessment::LikelyOom {
            2int
        } else {
            0
        },
{
}

/// What the plan selects is the decision on one of the candidates, and the plan takes its id, its
/// backend, its score and its degradations from there. It falls back just where the caller asks
/// for another backend than the selected one.
pub proof fn law_plan_takes_over_the_selected_decision(
    manifest: ModelManifest,
    request: EffectiveInferenceRequest,
    estimate: WorkloadEstimate,
    candidates: Seq<InferenceRuntimeCandidate>,
    plan: Plan,
)
    requires
        is_plan_for(manifest, request, estimate, candidates, plan),
    ensures
        plan.task_name == request.task.name@,
        plan.task_modality == request.task.modality,
        plan.selected_runtime is Some ==> exists|k: int|
            {
                &&& 0 <= k < candidates.len()
                &&& plan.selected_runtime == Some((#[trigger] candidates[k]).id@)
                &&& plan.selected_backend == Some(candidates[k].backend@)
                &&& plan.score == decision_on(manifest, request, estimate, candidates[k]).score
                &&& plan.degradations == decision_on(
                    manifest,
                    request,
                    estimate,
                    candidates[k],
                ).degradations
                &&& decision_on(manifest, request, estimate, candidates[k]).status
                    == PlanCandidateStatus::Accepted
            },
        plan.selected_runtime is None ==> plan.selected_backend is None && plan.score is None
            && plan.degradations.len() == 0 && !plan.backend_fallback,
        plan.backend_fallback <==> plan.selected_backend is Some && exists|backend: Seq<char>|
            #[trigger] asks_for(request, "routing.backend"@, backend) && lower(backend) != lower(
                plan.selected_backend->0,
            ),
{
    law_one_decision_per_candidate(manifest, request, estimate, candidates, plan);
    lemma_first_accepted(plan.candidates);
    let given = all_decisions(manifest, request, estimate, candidates);
    if plan.selected_runtime is Some {
        let best = first_accepted(plan.candidates)->0;
        let i = choose|i: int| 0 <= i < plan.candidates.len() && #[trigger] plan.candidates[i] == best;
        assert(given.contains(plan.candidates[i]));
        let k = choose|k: int| 0 <= k < given.len() && given[k] == best;
        assert(given[k] == decision_on(manifest, request, estimate, candidates[k]));
        assert(plan.selected_runtime == Some(candidates[k].id@));
    }
    let backend = request.text_at("routing.backend"@);
    if backend is Some {
        assert(asks_for(request, "routing.backend"@, backend->0) <==> backend->0 != "auto"@);
    }
}

/// In a plan a higher score stands before a lower one, any score before none, and equal ones in the
/// order of the runtimes' ids.
pub proof fn law_plan_is_ordered_by_score(
    manifest: ModelManifest,
    request: EffectiveInferenceRequest,
    estimate: WorkloadEstimate,
    candidates: Seq<InferenceRuntimeCandidate>,
    plan: Plan,
    i: int,
    j: int,
)
    requires
        is_plan_for(manifest, request, estimate, candidates, plan),
        0 <= i < j < plan.candidates.len(),
    ensures
        ({
            let first = plan.candidates[i];
            let second = plan.candidates[j];
            &&& second.score is Some ==> first.score is Some && first.score->0 >= second.score->0
            &&& first.score == second.score ==> text_le(first.runtime_id, second.runtime_id)
        }),
{
    let given = all_decisions(manifest, request, estimate, candidates);
    let order = choose|order: Seq<int>| is_sorted_by(given, plan.candidates, order);
    assert(may_precede(plan.candidates[i], plan.candidates[j]));
}

} // verus!
