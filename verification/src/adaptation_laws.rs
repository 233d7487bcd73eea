//! What adaptations to drift do, said of their inputs and results alone.

use crate::adaptation;
use crate::adaptation::{
    AdaptationAction, AdaptationFacts, AdaptationIds, AdaptationStage, DecidedCanary,
    DriftAdaptationFinishReason, DriftAdaptationFinishedPayload, DriftAdaptationStartedPayload,
};
use crate::error::ExecuteError;
use crate::forge;
use crate::protocol::{CanaryStage, CanaryTransitionKind, CanaryTransitionRecord, JobTerminal};
use crate::registry::Registry;
use crate::state::{ControlState, RecordedEvent};
use crate::transitions::CanaryRequest;
use vstd::prelude::*;

verus! {

/// An adaptation adapts the Champion that it started with, and nothing but the child of its own
/// proposal takes that Champion's place: the child is what is evaluated in the Champion's shadow,
/// what goes into the canary, and what each stage of the canary is evaluated with.
pub proof fn canaries_carry_the_proposed_child(
    state: ControlState,
    drift_id: &str,
    facts: AdaptationFacts,
    own: AdaptationIds,
    stage: AdaptationStage,
    result: Result<AdaptationAction, ExecuteError>,
)
    requires
        state.wf(),
        call_ensures(
            adaptation::advance_one_drift_adaptation,
            (&state, drift_id, &facts, &own, stage),
            result,
        ),
        facts.started is Some,
    ensures
        result matches Ok(AdaptationAction::Canary { canary_id, request }) ==> {
            &&& canary_id@ == own.canary_id@
            &&& facts.proposed_child matches Some(Some(child)) && (request matches CanaryRequest::Start {
                world_id,
                candidate_genome_id,
                assessment_id,
            } ==> candidate_genome_id@ == child@ && world_id@ == facts.started->0.world_id@
                && assessment_id@ == own.assessment_id@)
            &&& request matches CanaryRequest::Advance { evidence_evaluation_id }
                ==> evidence_evaluation_id@ == own.stage_evaluation_id@
            &&& request is Start <==> facts.canary is None
            &&& !(request is LiveCheck)
            &&& facts.assessed && facts.shadow_checked
        },
        result matches Ok(AdaptationAction::Evaluate {
            evaluation_id,
            parent_genome_id,
            candidate_genome_id,
        }) ==> {
            ||| {
                &&& evaluation_id@ == own.diagnostic_evaluation_id@
                &&& facts.drift matches Some(drift) && parent_genome_id@
                    == drift.payload.shifted_genome_id@
                &&& candidate_genome_id@ == facts.started->0.champion_genome_id@
            }
            ||| {
                &&& evaluation_id@ == own.shadow_evaluation_id@ || evaluation_id@
                    == own.stage_evaluation_id@
                &&& parent_genome_id@ == facts.started->0.champion_genome_id@
                &&& facts.proposed_child matches Some(Some(child)) && candidate_genome_id@ == child@
            }
        },
        result matches Ok(AdaptationAction::Propose {
            proposal_id,
            selection_event_id,
            parent_genome_id,
            ..
        }) ==> {
            &&& facts.proposed_child is None
            &&& parent_genome_id@ == facts.started->0.champion_genome_id@
            &&& proposal_id@ == facts.started->0.proposal_id@
            &&& facts.diagnostic_selection matches Some(selection) && selection@
                == selection_event_id@
        },
        result matches Ok(AdaptationAction::Assess {
            assessment_id,
            proposal_id,
            selection_event_id,
        }) ==> {
            &&& assessment_id@ == own.assessment_id@
            &&& proposal_id@ == facts.started->0.proposal_id@
            &&& facts.shadow_selection matches Some(selection) && selection@ == selection_event_id@
            &&& facts.shadow_checked
        },
        result matches Ok(AdaptationAction::CheckInvariants { evaluation_id }) ==> evaluation_id@
            == own.shadow_evaluation_id@,
        result matches Ok(AdaptationAction::Ask { champion_genome_id, world_id })
            ==> champion_genome_id@ == facts.started->0.champion_genome_id@ && world_id@
            == facts.started->0.world_id@,
{
}

/// The Genome that an adaptation starts its canary with is the candidate that it had evaluated in
/// the Champion's shadow, and so differs from that Champion wherever the two were different.
pub proof fn canaries_start_with_the_shadowed_candidate(
    before: ControlState,
    after: ControlState,
    drift_id: &str,
    facts: AdaptationFacts,
    later: AdaptationFacts,
    own: AdaptationIds,
    shadow: Result<AdaptationAction, ExecuteError>,
    canary: Result<AdaptationAction, ExecuteError>,
)
    requires
        before.wf(),
        after.wf(),
        own.shadow_evaluation_id@ != own.diagnostic_evaluation_id@,
        later.started == facts.started,
        later.proposed_child == facts.proposed_child,
        facts.started is Some,
        call_ensures(
            adaptation::advance_one_drift_adaptation,
            (&before, drift_id, &facts, &own, AdaptationStage::Asked { mutation: true }),
            shadow,
        ),
        call_ensures(
            adaptation::advance_one_drift_adaptation,
            (&after, drift_id, &later, &own, AdaptationStage::Asked { mutation: true }),
            canary,
        ),
        shadow matches Ok(AdaptationAction::Evaluate { evaluation_id, .. }) && evaluation_id@
            == own.shadow_evaluation_id@,
        canary matches Ok(AdaptationAction::Canary { request, .. }) && request is Start,
    ensures
        shadow matches Ok(AdaptationAction::Evaluate {
            parent_genome_id,
            candidate_genome_id: shadowed,
            ..
        }) && (canary matches Ok(AdaptationAction::Canary {
            request: CanaryRequest::Start { candidate_genome_id, .. },
            ..
        }) && candidate_genome_id@ == shadowed@ && (shadowed@ != parent_genome_id@
            ==> candidate_genome_id@ != parent_genome_id@)),
{
}

/// An adaptation takes its steps in order: it selects over an evaluation only once that has
/// succeeded, proposes only over a selected diagnosis, assesses only a checked shadow, and starts
/// a canary only of an assessed child. It ends as promoted exactly where its canary completed, as
/// aborted where its canary was, and as without a candidate where there was no mutation.
pub proof fn adaptations_take_their_steps_in_order(
    state: ControlState,
    drift_id: &str,
    facts: AdaptationFacts,
    own: AdaptationIds,
    stage: AdaptationStage,
    result: Result<AdaptationAction, ExecuteError>,
)
    requires
        state.wf(),
        call_ensures(
            adaptation::advance_one_drift_adaptation,
            (&state, drift_id, &facts, &own, stage),
            result,
        ),
    ensures
        result matches Ok(AdaptationAction::Select { evaluation_id })
            ==> state@.arena_jobs.contains_key(evaluation_id@)
            && state@.arena_jobs[evaluation_id@].terminal == Some(JobTerminal::Succeeded),
        result matches Ok(AdaptationAction::Evaluate { evaluation_id, .. }) ==> (
        state@.arena_jobs.contains_key(evaluation_id@)
            ==> state@.arena_jobs[evaluation_id@].terminal is None),
        result matches Ok(AdaptationAction::Start(payload)) ==> {
            &&& facts.started is None
            &&& payload.drift_id@ == drift_id@
            &&& facts.champion matches Some(champion) && payload.champion_genome_id@ == champion@
            &&& facts.drift matches Some(drift) && payload.world_id@ == drift.payload.world_id@
                && payload.drift_event_id@ == drift.event.event_id@ && payload.drift_event_hash@
                == drift.event.event_hash@
            &&& payload.proposal_id@ == own.proposal_id@
        },
        facts.started is None && facts.drift is Some && facts.champion is Some ==> (
        result matches Ok(AdaptationAction::Start(_))),
        facts.drift is None ==> result is Err,
        facts.drift is Some && facts.started is Some && facts.finished ==> (
        result matches Ok(AdaptationAction::Rest)),
        result matches Ok(AdaptationAction::Rest) ==> facts.finished,
        result matches Ok(AdaptationAction::Finish { reason, canary }) ==> {
            &&& reason == DriftAdaptationFinishReason::Promoted ==> facts.canary == Some(
                CanaryStage::Completed,
            ) && (canary matches Some(id) && id@ == own.canary_id@)
            &&& reason == DriftAdaptationFinishReason::CanaryAborted ==> facts.canary == Some(
                CanaryStage::Aborted,
            ) && (canary matches Some(id) && id@ == own.canary_id@)
            &&& reason == DriftAdaptationFinishReason::NoCandidateMutation ==> stage == (
            AdaptationStage::Asked { mutation: false }) && canary is None
            &&& reason != DriftAdaptationFinishReason::Interrupted
        },
        result matches Ok(AdaptationAction::Propose { .. }) ==> facts.diagnostic_selection is Some
            && state@.arena_jobs.contains_key(own.diagnostic_evaluation_id@)
            && state@.arena_jobs[own.diagnostic_evaluation_id@].terminal == Some(
            JobTerminal::Succeeded,
        ),
        result matches Ok(AdaptationAction::Assess { .. }) ==> facts.shadow_selection is Some
            && state@.arena_jobs.contains_key(own.shadow_evaluation_id@)
            && state@.arena_jobs[own.shadow_evaluation_id@].terminal == Some(
            JobTerminal::Succeeded,
        ),
        result matches Ok(AdaptationAction::Canary { request: CanaryRequest::Advance { .. }, .. })
            ==> facts.stage_selected && state@.arena_jobs.contains_key(own.stage_evaluation_id@)
            && state@.arena_jobs[own.stage_evaluation_id@].terminal == Some(
            JobTerminal::Succeeded,
        ),
{
}

/// An event stands at a place of a history exactly where the history has it.
proof fn places_are_found(history: Seq<RecordedEvent>, event_id: Seq<char>)
    ensures
        forge::place_of_event(history, event_id) is Some <==> exists|at: int|
            0 <= at < history.len() && (#[trigger] history[at]).event.event_id@ == event_id,
    decreases history.len(),
{
    if forge::place_of_event(history, event_id) is Some {
        forge::place_holds(history, event_id);
        let at = forge::place_of_event(history, event_id)->0;
        assert(history[at].event.event_id@ == event_id);
    }
    if history.len() > 0 {
        let earlier = history.drop_last();
        places_are_found(earlier, event_id);
        if exists|at: int|
            0 <= at < history.len() && (#[trigger] history[at]).event.event_id@ == event_id {
            let at = choose|at: int|
                0 <= at < history.len() && (#[trigger] history[at]).event.event_id@ == event_id;
            if at < earlier.len() {
                assert(earlier[at].event.event_id@ == event_id);
            }
        }
    }
}

/// Whether a history has an event under an identity.
pub open spec fn has_event(history: Seq<RecordedEvent>, event_id: Seq<char>) -> bool {
    exists|at: int|
        0 <= at < history.len() && (#[trigger] history[at]).event.event_id@ == event_id
}

/// The record of an adaptation's end names its proposal, its shadow evaluation and its assessment
/// exactly where the history has the events that record them, its canary exactly where one
/// decided, and a promotion exactly where it ended as promoted by one.
pub proof fn ends_name_what_was_produced(
    history: Vec<RecordedEvent>,
    drift_id: &str,
    started: Option<&DriftAdaptationStartedPayload>,
    reason: DriftAdaptationFinishReason,
    canary: Option<&DecidedCanary>,
    own: AdaptationIds,
    result: Result<DriftAdaptationFinishedPayload, ExecuteError>,
)
    requires
        call_ensures(
            adaptation::finish_drift_adaptation,
            (&history, drift_id, started, reason, canary, &own),
            result,
        ),
    ensures
        result matches Ok(payload) ==> {
            &&& started is Some
            &&& payload.drift_id@ == drift_id@
            &&& payload.world_id@ == started->0.world_id@
            &&& payload.reason == reason
            &&& payload.proposal_id is Some <==> has_event(
                history@,
                "forge:"@ + started->0.proposal_id@ + ":proposed"@,
            )
            &&& payload.proposal_id matches Some(id) ==> id@ == started->0.proposal_id@
            &&& payload.child_genome_id is Some ==> payload.proposal_id is Some
            &&& payload.shadow_evaluation_id is Some <==> has_event(
                history@,
                "arena-job:"@ + own.shadow_evaluation_id@ + ":admitted"@,
            )
            &&& payload.shadow_evaluation_id matches Some(id) ==> id@ == own.shadow_evaluation_id@
            &&& payload.assessment_id is Some <==> has_event(
                history@,
                "forge-assessment:"@ + own.assessment_id@ + ":recorded"@,
            )
            &&& payload.assessment_id matches Some(id) ==> id@ == own.assessment_id@
            &&& payload.canary_id is Some <==> canary is Some
            &&& payload.final_canary_stage is Some <==> canary is Some
            &&& canary matches Some(decided) ==> payload.canary_id->0@ == decided.canary_id@
                && payload.final_canary_stage == decided.stage
            &&& payload.promotion_transition_id is Some <==> canary is Some && reason
                == DriftAdaptationFinishReason::Promoted
            &&& payload.promotion_transition_id matches Some(id) ==> id@
                == canary->0.promotion_transition_id@
        },
        started is None ==> result is Err,
        started is Some && canary is None ==> result is Ok,
{
    if started is Some {
        places_are_found(history@, "forge:"@ + started->0.proposal_id@ + ":proposed"@);
    }
    places_are_found(history@, "arena-job:"@ + own.shadow_evaluation_id@ + ":admitted"@);
    places_are_found(history@, "forge-assessment:"@ + own.assessment_id@ + ":recorded"@);
}

/// A drift is adapted to only where its World starts canaries by itself and no adaptation to it
/// has finished.
pub proof fn adapted_drifts_ask_for_it(
    history: Vec<RecordedEvent>,
    registry: Registry,
    result: Option<String>,
)
    requires
        registry.wf(),
        call_ensures(adaptation::next_drift_needing_adaptation, (&history, &registry), result),
        result is Some,
    ensures
        exists|at: int|
            {
                let drift = (#[trigger] history@[at]).payload->Drift_0;
                &&& 0 <= at < history@.len()
                &&& history@[at].payload is Drift
                &&& drift.drift_id@ == result->0@
                &&& registry.worlds@.contains_key(drift.world_id@)
                &&& registry.worlds@[drift.world_id@].auto_canary_on_drift
                &&& forall|end: int|
                    0 <= end < history@.len() && (#[trigger] history@[end]).payload
                        is AdaptationFinished
                        ==> history@[end].payload->AdaptationFinished_0@ != drift.drift_id@
            },
{
    let at = choose|at: int|
        0 <= at < history@.len() && adaptation::needs_adaptation(
            history@,
            registry,
            #[trigger] history@[at],
        ) && adaptation::drift_of(history@[at]) == result->0@;
    let drift = history@[at].payload->Drift_0;
    assert(!adaptation::finished(history@, drift.drift_id@));
    assert forall|end: int|
        0 <= end < history@.len() && (#[trigger] history@[end]).payload
            is AdaptationFinished implies history@[end].payload->AdaptationFinished_0@
        != drift.drift_id@ by {
        if history@[end].payload->AdaptationFinished_0@ == drift.drift_id@ {
            assert(adaptation::finished(history@, drift.drift_id@));
        }
    }
}

/// The next stage of a canary counts its advances and its abort, and nothing else.
pub proof fn stages_count_advances(transitions: Seq<CanaryTransitionRecord>)
    ensures
        adaptation::stages_taken(transitions) == transitions.filter(
            |transition: CanaryTransitionRecord|
                transition.payload.kind == CanaryTransitionKind::Advanced || transition.payload.kind
                    == CanaryTransitionKind::Aborted,
        ).len(),
    decreases transitions.len(),
{
    reveal(Seq::filter);
    if transitions.len() > 0 {
        stages_count_advances(transitions.drop_last());
    }
}

/// A busy or frozen daemon adapts to nothing, and a free one to the drift that is due.
pub proof fn adaptations_wait_for_a_free_daemon(
    working: bool,
    frozen: bool,
    drift_id: Option<String>,
    result: Option<String>,
)
    requires
        call_ensures(adaptation::advance_drift_adaptations, (working, frozen, drift_id), result),
    ensures
        result is Some ==> !working && !frozen && result == drift_id,
        !working && !frozen ==> result == drift_id,
{
}

/// A failed step interrupts an adaptation, a busy daemon does not, and a step that succeeded goes
/// on.
pub proof fn failed_steps_interrupt_adaptations(
    outcome: Result<(), ExecuteError>,
    result: Option<DriftAdaptationFinishReason>,
)
    requires
        call_ensures(adaptation::settle_adaptation, (&outcome,), result),
    ensures
        outcome is Ok ==> result is None,
        outcome == Err::<(), ExecuteError>(ExecuteError::Busy) ==> result is None,
        outcome is Err && !(outcome->Err_0 is Busy) ==> result == Some(
            DriftAdaptationFinishReason::Interrupted,
        ),
{
}

/// The answer to the question whether there is a mutation is carried on as it was given, once.
pub proof fn answers_are_taken_once(
    stage: AdaptationStage,
    mutation: bool,
    result: Result<AdaptationStage, ExecuteError>,
    again: bool,
    twice: Result<AdaptationStage, ExecuteError>,
)
    requires
        call_ensures(adaptation::take_reply, (stage, mutation), result),
        result is Ok,
        call_ensures(adaptation::take_reply, (result->Ok_0, again), twice),
    ensures
        result == Ok::<AdaptationStage, ExecuteError>(AdaptationStage::Asked { mutation }),
        twice is Err,
{
}

} // verus!
