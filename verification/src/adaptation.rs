//! Automatic adaptation to recorded drift.

use crate::error::{rejected, ExecuteError, Refusal};
use crate::forge;
use crate::generation;
use crate::ids;
use crate::json;
use crate::ordered::OrderedMap;
use crate::protocol::{
    CanaryRecord, CanaryStage, CanaryTransitionKind, CanaryTransitionRecord, DriftKind, DriftRecord,
    JobTerminal,
};
use crate::registry::Registry;
use crate::state::{ControlState, EventPayload, Projected, RecordedEvent};
use crate::transitions::CanaryRequest;
use vstd::prelude::*;
use vstd::string::*;

verus! {

/// Why an adaptation finished.
#[derive(Clone, Copy, Debug, PartialEq, Eq, Structural)]
pub enum DriftAdaptationFinishReason {
    /// Its canary completed and promoted the child.
    Promoted,
    /// Its canary was aborted.
    CanaryAborted,
    /// There was no mutation to propose.
    NoCandidateMutation,
    /// A step failed.
    Interrupted,
}

/// What the start of an adaptation records.
#[derive(Debug, PartialEq, Eq)]
pub struct DriftAdaptationStartedPayload {
    /// Payload schema.
    pub schema_version: u16,
    /// The drift.
    pub drift_id: String,
    /// Its World.
    pub world_id: String,
    /// Event that recorded the drift.
    pub drift_event_id: String,
    /// Hash of that event.
    pub drift_event_hash: String,
    /// Champion that is adapted.
    pub champion_genome_id: String,
    /// Identity of the proposal.
    pub proposal_id: String,
}

/// What the end of an adaptation records.
#[derive(Debug, PartialEq, Eq)]
pub struct DriftAdaptationFinishedPayload {
    /// Payload schema.
    pub schema_version: u16,
    /// The drift.
    pub drift_id: String,
    /// Its World.
    pub world_id: String,
    /// Why the adaptation finished.
    pub reason: DriftAdaptationFinishReason,
    /// The proposal, if it was recorded.
    pub proposal_id: Option<String>,
    /// Its child, if it was recorded.
    pub child_genome_id: Option<String>,
    /// The shadow evaluation, if it was admitted.
    pub shadow_evaluation_id: Option<String>,
    /// The assessment, if it was recorded.
    pub assessment_id: Option<String>,
    /// The canary, if it decided.
    pub canary_id: Option<String>,
    /// Where the canary ended.
    pub final_canary_stage: Option<CanaryStage>,
    /// The promotion, if there was one.
    pub promotion_transition_id: Option<String>,
}

/// The identities that an adaptation derives from its drift.
pub struct AdaptationIds {
    /// The proposal.
    pub proposal_id: String,
    /// The diagnostic evaluation.
    pub diagnostic_evaluation_id: String,
    /// The shadow evaluation.
    pub shadow_evaluation_id: String,
    /// The assessment.
    pub assessment_id: String,
    /// The canary.
    pub canary_id: String,
    /// The evaluation of the canary's next stage.
    pub stage_evaluation_id: String,
}

/// Whether an adaptation to a drift has finished.
pub open spec fn finished(history: Seq<RecordedEvent>, drift_id: Seq<char>) -> bool {
    exists|at: int|
        0 <= at < history.len() && match (#[trigger] history[at]).payload {
            EventPayload::AdaptationFinished(id) => id@ == drift_id,
            _ => false,
        }
}

/// Whether an event records a drift that needs an adaptation: none has finished, and its
/// World starts canaries by itself.
pub open spec fn needs_adaptation(history: Seq<RecordedEvent>, registry: Registry, recorded: RecordedEvent) -> bool {
    match recorded.payload {
        EventPayload::Drift(drift) => !finished(history, drift.drift_id@)
            && registry.worlds@.contains_key(drift.world_id@)
            && registry.worlds@[drift.world_id@].auto_canary_on_drift,
        _ => false,
    }
}

/// The drift that an event records.
pub open spec fn drift_of(recorded: RecordedEvent) -> Seq<char> {
    match recorded.payload {
        EventPayload::Drift(drift) => drift.drift_id@,
        _ => Seq::empty(),
    }
}

/// Finds the oldest drift that needs an adaptation.
pub fn next_drift_needing_adaptation(history: &Vec<RecordedEvent>, registry: &Registry) -> (result: Option<
    String,
>)
    requires
        registry.wf(),
    ensures
        match result {
            Some(drift_id) => exists|at: int|
                0 <= at < history@.len() && needs_adaptation(
                    history@,
                    *registry,
                    #[trigger] history@[at],
                ) && drift_of(history@[at]) == drift_id@ && forall|earlier: int|
                    0 <= earlier < at ==> !needs_adaptation(
                        history@,
                        *registry,
                        #[trigger] history@[earlier],
                    ),
            None => forall|at: int|
                0 <= at < history@.len() ==> !needs_adaptation(
                    history@,
                    *registry,
                    #[trigger] history@[at],
                ),
        },
{
    let mut done: OrderedMap<()> = OrderedMap::new();
    for at in 0..history.len()
        invariant
            done.wf(),
            forall|id: Seq<char>| #[trigger]
                done@.contains_key(id) <==> finished(history@.take(at as int), id),
    {
        let ghost before = done@;
        if let EventPayload::AdaptationFinished(drift_id) = &history[at].payload {
            done.insert(drift_id.clone(), ());
        }
        proof {
            assert forall|id: Seq<char>| #[trigger]
                done@.contains_key(id) <==> finished(history@.take(at + 1), id) by {
                let shorter = history@.take(at as int);
                let longer = history@.take(at + 1);
                if finished(shorter, id) {
                    let k = choose|k: int|
                        0 <= k < shorter.len() && match (#[trigger] shorter[k]).payload {
                            EventPayload::AdaptationFinished(done_id) => done_id@ == id,
                            _ => false,
                        };
                    assert(longer[k] == shorter[k]);
                }
                if finished(longer, id) {
                    let k = choose|k: int|
                        0 <= k < longer.len() && match (#[trigger] longer[k]).payload {
                            EventPayload::AdaptationFinished(done_id) => done_id@ == id,
                            _ => false,
                        };
                    if k < at {
                        assert(shorter[k] == longer[k]);
                    }
                }
                assert(longer[at as int] == history@[at as int]);
            }
        }
    }
    proof {
        assert(history@.take(history@.len() as int) == history@);
    }
    for at in 0..history.len()
        invariant
            registry.wf(),
            done.wf(),
            forall|id: Seq<char>| #[trigger] done@.contains_key(id) <==> finished(history@, id),
            forall|earlier: int|
                0 <= earlier < at ==> !needs_adaptation(
                    history@,
                    *registry,
                    #[trigger] history@[earlier],
                ),
    {
        if let EventPayload::Drift(drift) = &history[at].payload {
            if !done.contains_key(drift.drift_id.as_str()) {
                if let Some(world) = registry.worlds.get(drift.world_id.as_str()) {
                    if world.auto_canary_on_drift {
                        assert(needs_adaptation(history@, *registry, history@[at as int]));
                        return Some(drift.drift_id.clone());
                    }
                }
            }
        }
    }
    None
}

/// Decides whether one tick of the daemon advances an adaptation. A freeze halts it without
/// giving it up.
pub fn advance_drift_adaptations(working: bool, frozen: bool, drift_id: Option<String>) -> (result: Option<
    String,
>)
    ensures
        result == (if working || frozen {
            None
        } else {
            drift_id
        }),
{
    if working || frozen {
        None
    } else {
        drift_id
    }
}

/// Decides what the outcome of an adaptation step means: a failure other than a busy daemon
/// interrupts the adaptation.
pub fn settle_adaptation(outcome: &Result<(), ExecuteError>) -> (result: Option<
    DriftAdaptationFinishReason,
>)
    ensures
        result == (match *outcome {
            Ok(()) => None,
            Err(ExecuteError::Busy) => None,
            Err(_) => Some(DriftAdaptationFinishReason::Interrupted),
        }),
{
    match outcome {
        Ok(()) => None,
        Err(ExecuteError::Busy) => None,
        Err(_) => Some(DriftAdaptationFinishReason::Interrupted),
    }
}

/// The name of a kind of drift.
pub open spec fn drift_label(kind: DriftKind) -> &'static str {
    match kind {
        DriftKind::Latency => "Latency",
        DriftKind::Cost => "Cost",
        DriftKind::Correctness => "Correctness",
        DriftKind::Workload => "Workload",
    }
}

/// Names a kind of drift.
pub fn label_drift(kind: DriftKind) -> (result: &'static str)
    ensures
        result == drift_label(kind),
{
    match kind {
        DriftKind::Latency => "Latency",
        DriftKind::Cost => "Cost",
        DriftKind::Correctness => "Correctness",
        DriftKind::Workload => "Workload",
    }
}

/// The hypothesis of an adaptation.
pub open spec fn adaptation_hypothesis(drift_id: Seq<char>, kind: DriftKind, champion: Seq<char>) -> Seq<char> {
    "Drift adaptation for drift "@ + drift_id + " ("@ + drift_label(kind)@
        + "): flip the reference operation of Champion "@ + champion
        + " to address the recorded drift."@
}

/// Writes the hypothesis of an adaptation.
pub fn write_adaptation_hypothesis(drift_id: &str, kind: DriftKind, champion: &str) -> (result: String)
    ensures
        result@ == adaptation_hypothesis(drift_id@, kind, champion@),
{
    let mut result: String = ids::wrap("Drift adaptation for drift ", drift_id, " (");
    result.append(label_drift(kind));
    result.append("): flip the reference operation of Champion ");
    result.append(champion);
    result.append(" to address the recorded drift.");
    result
}

/// Whether a canary transition took a stage.
pub open spec fn takes_stage(transition: CanaryTransitionRecord) -> bool {
    transition.payload.kind == CanaryTransitionKind::Advanced || transition.payload.kind
        == CanaryTransitionKind::Aborted
}

/// How many transitions of a canary took a stage.
pub open spec fn stages_taken(transitions: Seq<CanaryTransitionRecord>) -> nat
    decreases transitions.len(),
{
    if transitions.len() == 0 {
        0
    } else {
        stages_taken(transitions.drop_last()) + if takes_stage(transitions.last()) {
            1nat
        } else {
            0nat
        }
    }
}

/// Counts the transitions of a canary that took a stage.
pub fn stage_index(canary: &CanaryRecord) -> (result: Result<u32, ExecuteError>)
    ensures
        result == (if stages_taken(canary.transitions@) <= u32::MAX {
            Ok(stages_taken(canary.transitions@) as u32)
        } else {
            Err(ExecuteError::Internal)
        }),
{
    let mut count: u64 = 0;
    for i in 0..canary.transitions.len()
        invariant
            count <= i,
            count == stages_taken(canary.transitions@.take(i as int)),
    {
        proof {
            assert(canary.transitions@.take(i + 1).drop_last() == canary.transitions@.take(
                i as int,
            ));
        }
        let kind: CanaryTransitionKind = canary.transitions[i].payload.kind;
        if kind == CanaryTransitionKind::Advanced || kind == CanaryTransitionKind::Aborted {
            count = count + 1;
        }
    }
    proof {
        assert(canary.transitions@.take(canary.transitions@.len() as int) == canary.transitions@);
    }
    if count <= u32::MAX as u64 {
        Ok(count as u32)
    } else {
        Err(ExecuteError::Internal)
    }
}

/// What verified history says of a drift and its adaptation.
pub struct AdaptationFacts {
    /// The drift, where it is recorded.
    pub drift: Option<DriftRecord>,
    /// The start of its adaptation, where it is recorded.
    pub started: Option<DriftAdaptationStartedPayload>,
    /// Whether the adaptation has finished.
    pub finished: bool,
    /// The Champion of the drift's World, if it has one.
    pub champion: Option<String>,
    /// Selection over the diagnostic evaluation, where it is recorded.
    pub diagnostic_selection: Option<String>,
    /// The child of the adaptation's proposal: nothing where none is recorded; within that,
    /// nothing where it does not decode.
    pub proposed_child: Option<Option<String>>,
    /// Selection over the shadow evaluation, where it is recorded.
    pub shadow_selection: Option<String>,
    /// Whether the invariants of the shadow evaluation are recorded.
    pub shadow_checked: bool,
    /// Whether the adaptation's assessment is recorded.
    pub assessed: bool,
    /// Where the adaptation's canary stands, if it was started.
    pub canary: Option<CanaryStage>,
    /// Whether the selection over the evaluation of the canary's next stage is recorded.
    pub stage_selected: bool,
}

/// How far an adaptation got within one step.
#[derive(Debug, PartialEq, Eq)]
pub enum AdaptationStage {
    /// Nothing was done yet.
    Begun,
    /// It was asked whether there is a mutation to propose.
    Asked {
        /// Whether there is.
        mutation: bool,
    },
}

/// What an adaptation does next.
pub enum AdaptationAction {
    /// Record the start and end the step.
    Start(DriftAdaptationStartedPayload),
    /// End the step.
    Rest,
    /// Ask whether there is a mutation to propose.
    Ask {
        /// The Champion.
        champion_genome_id: String,
        /// Its World.
        world_id: String,
    },
    /// Record the end of the adaptation and end the step.
    Finish {
        /// Why.
        reason: DriftAdaptationFinishReason,
        /// The canary, if it decided.
        canary: Option<String>,
    },
    /// Submit a paired evaluation and end the step.
    Evaluate {
        /// Identity of the evaluation.
        evaluation_id: String,
        /// The parent.
        parent_genome_id: String,
        /// The candidate.
        candidate_genome_id: String,
    },
    /// Record the selection over an evaluation and end the step.
    Select {
        /// The evaluation.
        evaluation_id: String,
    },
    /// Record a proposed child of the Champion and end the step.
    Propose {
        /// Identity of the proposal.
        proposal_id: String,
        /// Selection of the diagnostic evaluation.
        selection_event_id: String,
        /// The Champion.
        parent_genome_id: String,
        /// The hypothesis.
        hypothesis: String,
    },
    /// Record the invariants of an evaluation and end the step.
    CheckInvariants {
        /// The evaluation.
        evaluation_id: String,
    },
    /// Record the assessment of the child and end the step.
    Assess {
        /// Identity of the assessment.
        assessment_id: String,
        /// The proposal.
        proposal_id: String,
        /// Selection of the shadow evaluation.
        selection_event_id: String,
    },
    /// Record a canary transition and end the step.
    Canary {
        /// The canary.
        canary_id: String,
        /// The transition.
        request: CanaryRequest,
    },
}

/// Whether an action records an event or submits a paired evaluation.
pub open spec fn durable(action: AdaptationAction) -> bool {
    !(action is Rest || action is Ask)
}

/// Whether an action ends the step that it is part of.
pub open spec fn ends_step(action: AdaptationAction) -> bool {
    action !is Ask
}

/// Tells whether an action ends the step that it is part of.
pub fn is_last_of_step(action: &AdaptationAction) -> (result: bool)
    ensures
        result == ends_step(*action),
{
    match action {
        AdaptationAction::Ask { .. } => false,
        _ => true,
    }
}

/// Whether an outcome evaluates a pair, selects over its evaluation, or refuses, as the end of
/// the evaluation asks for.
pub open spec fn evaluates(
    outcome: Result<AdaptationAction, ExecuteError>,
    projected: Projected,
    evaluation: Seq<char>,
    parent: Seq<char>,
    candidate: Seq<char>,
    failure: Seq<char>,
) -> bool {
    match generation::ended(projected, evaluation) {
        None => outcome matches Ok(AdaptationAction::Evaluate {
            evaluation_id,
            parent_genome_id,
            candidate_genome_id,
        }) && evaluation_id@ == evaluation && parent_genome_id@ == parent && candidate_genome_id@
            == candidate,
        Some(JobTerminal::Succeeded) => outcome matches Ok(AdaptationAction::Select {
            evaluation_id,
        }) && evaluation_id@ == evaluation,
        Some(_) => outcome matches Err(error) && error@ == Refusal::Rejected(failure),
    }
}

/// Whether a payload records the start of an adaptation.
pub open spec fn records_start(
    payload: DriftAdaptationStartedPayload,
    drift_id: Seq<char>,
    drift: DriftRecord,
    champion: Seq<char>,
    proposal_id: Seq<char>,
) -> bool {
    &&& payload.schema_version == 1
    &&& payload.drift_id@ == drift_id
    &&& payload.world_id@ == drift.payload.world_id@
    &&& payload.drift_event_id@ == drift.event.event_id@
    &&& payload.drift_event_hash@ == drift.event.event_hash@
    &&& payload.champion_genome_id@ == champion
    &&& payload.proposal_id@ == proposal_id
}

/// Whether an outcome is what an adaptation does next at a stage.
pub open spec fn does_next(
    outcome: Result<AdaptationAction, ExecuteError>,
    projected: Projected,
    drift_id: Seq<char>,
    facts: AdaptationFacts,
    own: AdaptationIds,
    stage: AdaptationStage,
) -> bool {
    if facts.drift is None {
        outcome == Err::<AdaptationAction, ExecuteError>(ExecuteError::Internal)
    } else if facts.started is None {
        match facts.champion {
            None => outcome == Err::<AdaptationAction, ExecuteError>(ExecuteError::Internal),
            Some(champion) => outcome matches Ok(AdaptationAction::Start(payload)) && records_start(
                payload,
                drift_id,
                facts.drift->0,
                champion@,
                own.proposal_id@,
            ),
        }
    } else if facts.finished {
        outcome == Ok::<AdaptationAction, ExecuteError>(AdaptationAction::Rest)
    } else {
        let drift = facts.drift->0;
        let started = facts.started->0;
        let champion = started.champion_genome_id@;
        match stage {
            AdaptationStage::Begun => outcome matches Ok(AdaptationAction::Ask {
                champion_genome_id,
                world_id,
            }) && champion_genome_id == started.champion_genome_id && world_id == started.world_id,
            AdaptationStage::Asked { mutation } => if !mutation {
                outcome == Ok::<AdaptationAction, ExecuteError>(
                    AdaptationAction::Finish {
                        reason: DriftAdaptationFinishReason::NoCandidateMutation,
                        canary: None,
                    },
                )
            } else if !succeeded(projected, own.diagnostic_evaluation_id@)
                || facts.diagnostic_selection is None {
                evaluates(
                    outcome,
                    projected,
                    own.diagnostic_evaluation_id@,
                    drift.payload.shifted_genome_id@,
                    champion,
                    "diagnostic evaluation did not succeed"@,
                )
            } else {
                match facts.proposed_child {
                    Some(None) => outcome == Err::<AdaptationAction, ExecuteError>(
                        ExecuteError::Internal,
                    ),
                    None => outcome matches Ok(AdaptationAction::Propose {
                        proposal_id,
                        selection_event_id,
                        parent_genome_id,
                        hypothesis,
                    }) && proposal_id == started.proposal_id && Some(selection_event_id)
                        == facts.diagnostic_selection && parent_genome_id@ == champion
                        && hypothesis@ == adaptation_hypothesis(
                        drift_id,
                        drift.payload.kind,
                        champion,
                    ),
                    Some(Some(child)) => shadows_next(outcome, projected, facts, own, child@),
                }
            },
        }
    }
}

/// Whether a paired evaluation succeeded.
pub open spec fn succeeded(projected: Projected, evaluation_id: Seq<char>) -> bool {
    generation::ended(projected, evaluation_id) == Some(JobTerminal::Succeeded)
}

/// Whether an outcome is what an adaptation does next once it has proposed a child: evaluate
/// it in the shadow of the Champion, select and check, assess, and lead it through a canary.
pub open spec fn shadows_next(
    outcome: Result<AdaptationAction, ExecuteError>,
    projected: Projected,
    facts: AdaptationFacts,
    own: AdaptationIds,
    child: Seq<char>,
) -> bool {
    let started = facts.started->0;
    let champion = started.champion_genome_id@;
    if !succeeded(projected, own.shadow_evaluation_id@) || facts.shadow_selection is None {
        evaluates(
            outcome,
            projected,
            own.shadow_evaluation_id@,
            champion,
            child,
            "shadow evaluation did not succeed"@,
        )
    } else if !facts.shadow_checked {
        outcome matches Ok(AdaptationAction::CheckInvariants { evaluation_id }) && evaluation_id
            == own.shadow_evaluation_id
    } else if !facts.assessed {
        outcome matches Ok(AdaptationAction::Assess {
            assessment_id,
            proposal_id,
            selection_event_id,
        }) && assessment_id == own.assessment_id && proposal_id == started.proposal_id && Some(
            selection_event_id,
        ) == facts.shadow_selection
    } else {
        match facts.canary {
            None => outcome matches Ok(AdaptationAction::Canary { canary_id, request })
                && canary_id == own.canary_id && (request matches CanaryRequest::Start {
                world_id,
                candidate_genome_id,
                assessment_id,
            } && world_id == started.world_id && candidate_genome_id@ == child && assessment_id
                == own.assessment_id),
            Some(CanaryStage::Aborted) => outcome == Ok::<AdaptationAction, ExecuteError>(
                AdaptationAction::Finish {
                    reason: DriftAdaptationFinishReason::CanaryAborted,
                    canary: Some(own.canary_id),
                },
            ),
            Some(CanaryStage::Completed) => outcome == Ok::<AdaptationAction, ExecuteError>(
                AdaptationAction::Finish {
                    reason: DriftAdaptationFinishReason::Promoted,
                    canary: Some(own.canary_id),
                },
            ),
            Some(_) => if !succeeded(projected, own.stage_evaluation_id@) || !facts.stage_selected {
                evaluates(
                    outcome,
                    projected,
                    own.stage_evaluation_id@,
                    champion,
                    child,
                    "stage evaluation did not succeed"@,
                )
            } else {
                outcome matches Ok(AdaptationAction::Canary { canary_id, request }) && canary_id
                    == own.canary_id && (request matches CanaryRequest::Advance {
                    evidence_evaluation_id,
                } && evidence_evaluation_id == own.stage_evaluation_id)
            },
        }
    }
}

/// Evaluates a pair, selects over its evaluation, or refuses, as the end of the evaluation
/// asks for.
fn evaluate_pair(
    state: &ControlState,
    evaluation_id: &str,
    parent: &str,
    candidate: &str,
    failure: &str,
) -> (result: Result<AdaptationAction, ExecuteError>)
    requires
        state.wf(),
    ensures
        evaluates(result, state@, evaluation_id@, parent@, candidate@, failure@),
{
    match generation::evaluation_end(state, evaluation_id) {
        None => Ok(
            AdaptationAction::Evaluate {
                evaluation_id: evaluation_id.to_owned(),
                parent_genome_id: parent.to_owned(),
                candidate_genome_id: candidate.to_owned(),
            },
        ),
        Some(JobTerminal::Succeeded) => Ok(
            AdaptationAction::Select { evaluation_id: evaluation_id.to_owned() },
        ),
        Some(_) => Err(rejected(failure)),
    }
}

/// Decides what an adaptation does next.
pub fn advance_one_drift_adaptation(
    state: &ControlState,
    drift_id: &str,
    facts: &AdaptationFacts,
    own: &AdaptationIds,
    stage: AdaptationStage,
) -> (result: Result<AdaptationAction, ExecuteError>)
    requires
        state.wf(),
    ensures
        does_next(result, state@, drift_id@, *facts, *own, stage),
{
    let drift: &DriftRecord = match &facts.drift {
        Some(drift) => drift,
        None => {
            return Err(ExecuteError::Internal);
        },
    };
    let started: &DriftAdaptationStartedPayload = match &facts.started {
        Some(started) => started,
        None => {
            return match &facts.champion {
                None => Err(ExecuteError::Internal),
                Some(champion) => Ok(
                    AdaptationAction::Start(
                        DriftAdaptationStartedPayload {
                            schema_version: 1,
                            drift_id: drift_id.to_owned(),
                            world_id: drift.payload.world_id.clone(),
                            drift_event_id: drift.event.event_id.clone(),
                            drift_event_hash: drift.event.event_hash.clone(),
                            champion_genome_id: champion.clone(),
                            proposal_id: own.proposal_id.clone(),
                        },
                    ),
                ),
            };
        },
    };
    if facts.finished {
        return Ok(AdaptationAction::Rest);
    }
    let champion: &str = started.champion_genome_id.as_str();
    match stage {
        AdaptationStage::Begun => Ok(
            AdaptationAction::Ask {
                champion_genome_id: started.champion_genome_id.clone(),
                world_id: started.world_id.clone(),
            },
        ),
        AdaptationStage::Asked { mutation } => {
            if !mutation {
                return Ok(
                    AdaptationAction::Finish {
                        reason: DriftAdaptationFinishReason::NoCandidateMutation,
                        canary: None,
                    },
                );
            }
            let selection_event_id: &String = match (
                is_success(state, own.diagnostic_evaluation_id.as_str()),
                &facts.diagnostic_selection,
            ) {
                (true, Some(selection)) => selection,
                _ => {
                    return evaluate_pair(
                        state,
                        own.diagnostic_evaluation_id.as_str(),
                        drift.payload.shifted_genome_id.as_str(),
                        champion,
                        "diagnostic evaluation did not succeed",
                    );
                },
            };
            match &facts.proposed_child {
                Some(None) => Err(ExecuteError::Internal),
                Some(Some(child)) => advance_shadow(state, facts, started, own, child),
                None => Ok(
                    AdaptationAction::Propose {
                        proposal_id: started.proposal_id.clone(),
                        selection_event_id: selection_event_id.clone(),
                        parent_genome_id: started.champion_genome_id.clone(),
                        hypothesis: write_adaptation_hypothesis(
                            drift_id,
                            drift.payload.kind,
                            champion,
                        ),
                    },
                ),
            }
        },
    }
}

/// Tells whether a paired evaluation succeeded.
fn is_success(state: &ControlState, evaluation_id: &str) -> (result: bool)
    requires
        state.wf(),
    ensures
        result == succeeded(state@, evaluation_id@),
{
    match generation::evaluation_end(state, evaluation_id) {
        Some(JobTerminal::Succeeded) => true,
        _ => false,
    }
}

/// Decides what an adaptation does next once it has proposed a child.
fn advance_shadow(
    state: &ControlState,
    facts: &AdaptationFacts,
    started: &DriftAdaptationStartedPayload,
    own: &AdaptationIds,
    child: &String,
) -> (result: Result<AdaptationAction, ExecuteError>)
    requires
        state.wf(),
        facts.started == Some(*started),
    ensures
        shadows_next(result, state@, *facts, *own, child@),
{
    let champion: &str = started.champion_genome_id.as_str();
    let selection_event_id: &String = match (
        is_success(state, own.shadow_evaluation_id.as_str()),
        &facts.shadow_selection,
    ) {
        (true, Some(selection)) => selection,
        _ => {
            return evaluate_pair(
                state,
                own.shadow_evaluation_id.as_str(),
                champion,
                child.as_str(),
                "shadow evaluation did not succeed",
            );
        },
    };
    if !facts.shadow_checked {
        return Ok(
            AdaptationAction::CheckInvariants { evaluation_id: own.shadow_evaluation_id.clone() },
        );
    }
    if !facts.assessed {
        return Ok(
            AdaptationAction::Assess {
                assessment_id: own.assessment_id.clone(),
                proposal_id: started.proposal_id.clone(),
                selection_event_id: selection_event_id.clone(),
            },
        );
    }
    match facts.canary {
        None => Ok(
            AdaptationAction::Canary {
                canary_id: own.canary_id.clone(),
                request: CanaryRequest::Start {
                    world_id: started.world_id.clone(),
                    candidate_genome_id: child.clone(),
                    assessment_id: own.assessment_id.clone(),
                },
            },
        ),
        Some(CanaryStage::Aborted) => Ok(
            AdaptationAction::Finish {
                reason: DriftAdaptationFinishReason::CanaryAborted,
                canary: Some(own.canary_id.clone()),
            },
        ),
        Some(CanaryStage::Completed) => Ok(
            AdaptationAction::Finish {
                reason: DriftAdaptationFinishReason::Promoted,
                canary: Some(own.canary_id.clone()),
            },
        ),
        Some(_) => {
            if !is_success(state, own.stage_evaluation_id.as_str()) || !facts.stage_selected {
                return evaluate_pair(
                    state,
                    own.stage_evaluation_id.as_str(),
                    champion,
                    child.as_str(),
                    "stage evaluation did not succeed",
                );
            }
            Ok(
                AdaptationAction::Canary {
                    canary_id: own.canary_id.clone(),
                    request: CanaryRequest::Advance {
                        evidence_evaluation_id: own.stage_evaluation_id.clone(),
                    },
                },
            )
        },
    }
}

/// A step of an adaptation takes at most one durable action, whatever the question whether
/// there is a mutation is answered with: what it begins with is either the question, which is
/// not durable, or ends the step; and what follows the answer ends it.
pub proof fn steps_are_durable_once(
    projected: Projected,
    drift_id: Seq<char>,
    facts: AdaptationFacts,
    own: AdaptationIds,
    action: AdaptationAction,
    stage: AdaptationStage,
)
    requires
        does_next(Ok(action), projected, drift_id, facts, own, stage),
    ensures
        durable(action) ==> ends_step(action),
        !ends_step(action) ==> stage is Begun && !durable(action),
        stage is Asked ==> ends_step(action),
{
}

/// Takes the answer to the question whether there is a mutation to propose in. It is asked
/// once in a step; another answer is a fault of the daemon.
pub fn take_reply(stage: AdaptationStage, mutation: bool) -> (result: Result<
    AdaptationStage,
    ExecuteError,
>)
    ensures
        result == (match stage {
            AdaptationStage::Begun => Ok(AdaptationStage::Asked { mutation }),
            AdaptationStage::Asked { .. } => Err(ExecuteError::Internal),
        }),
{
    match stage {
        AdaptationStage::Begun => Ok(AdaptationStage::Asked { mutation }),
        AdaptationStage::Asked { .. } => Err(ExecuteError::Internal),
    }
}

/// The child of a proposal, where it is recorded and decodes.
pub open spec fn recorded_child(history: Seq<RecordedEvent>, proposal_id: Seq<char>) -> Option<Option<Seq<char>>> {
    match forge::place_of_event(history, "forge:"@ + proposal_id + ":proposed"@) {
        None => None,
        Some(at) => match forge::decoded_proposal(history[at]) {
            Ok(proposal) => Some(Some(proposal.child.genome_id@)),
            Err(_) => Some(None),
        },
    }
}

/// Finds the child of a proposal.
pub fn find_child(history: &Vec<RecordedEvent>, proposal_id: &str) -> (result: Option<Option<String>>)
    ensures
        (match result {
            None => None,
            Some(child) => Some(json::held(child)),
        }) == recorded_child(history@, proposal_id@),
{
    let event_id: String = ids::forge_event_id(proposal_id);
    match forge::find_event(history, event_id.as_str()) {
        None => None,
        Some(at) => match forge::decode_forge_proposal(&history[at]) {
            Ok(proposal) => Some(Some(proposal.child.genome_id.clone())),
            Err(_) => Some(None),
        },
    }
}

/// A canary that decided an adaptation.
pub struct DecidedCanary {
    /// Its identity.
    pub canary_id: String,
    /// Where it stands, if it is recorded.
    pub stage: Option<CanaryStage>,
    /// Identity of the promotion that its completion records.
    pub promotion_transition_id: String,
}

/// Whether a history holds an event.
pub open spec fn holds_event(history: Seq<RecordedEvent>, event_id: Seq<char>) -> bool {
    forge::place_of_event(history, event_id) is Some
}

/// An identity, where the event that stands for it is recorded.
pub open spec fn recorded_id(history: Seq<RecordedEvent>, id: Seq<char>, event_id: Seq<char>) -> Option<
    Seq<char>,
> {
    if holds_event(history, event_id) {
        Some(id)
    } else {
        None
    }
}

/// Gives an identity where the event that stands for it is recorded.
fn find_recorded(history: &Vec<RecordedEvent>, id: &String, event_id: &str) -> (result: Option<String>)
    ensures
        json::held(result) == recorded_id(history@, id@, event_id@),
{
    match forge::find_event(history, event_id) {
        Some(_) => Some(id.clone()),
        None => None,
    }
}

/// Whether a payload records the end of an adaptation. It refers to what the adaptation has
/// produced by then: to its proposal, its shadow evaluation and its assessment where the
/// events that record them are there.
pub open spec fn records_finish(
    payload: DriftAdaptationFinishedPayload,
    history: Seq<RecordedEvent>,
    drift_id: Seq<char>,
    started: DriftAdaptationStartedPayload,
    reason: DriftAdaptationFinishReason,
    canary: Option<DecidedCanary>,
    own: AdaptationIds,
) -> bool {
    &&& payload.schema_version == 1
    &&& payload.drift_id@ == drift_id
    &&& payload.world_id@ == started.world_id@
    &&& payload.reason == reason
    &&& json::held(payload.proposal_id) == recorded_id(
        history,
        started.proposal_id@,
        "forge:"@ + started.proposal_id@ + ":proposed"@,
    )
    &&& json::held(payload.child_genome_id) == (match recorded_child(
        history,
        started.proposal_id@,
    ) {
        Some(child) => child,
        None => None,
    })
    &&& json::held(payload.shadow_evaluation_id) == recorded_id(
        history,
        own.shadow_evaluation_id@,
        "arena-job:"@ + own.shadow_evaluation_id@ + ":admitted"@,
    )
    &&& json::held(payload.assessment_id) == recorded_id(
        history,
        own.assessment_id@,
        "forge-assessment:"@ + own.assessment_id@ + ":recorded"@,
    )
    &&& match canary {
        None => payload.canary_id is None && payload.final_canary_stage is None
            && payload.promotion_transition_id is None,
        Some(canary) => {
            &&& json::held(payload.canary_id) == Some(canary.canary_id@)
            &&& payload.final_canary_stage == canary.stage
            &&& json::held(payload.promotion_transition_id) == (if reason
                == DriftAdaptationFinishReason::Promoted {
                Some(canary.promotion_transition_id@)
            } else {
                None
            })
        },
    }
}

/// Decides what finishing an adaptation records.
pub fn finish_drift_adaptation(
    history: &Vec<RecordedEvent>,
    drift_id: &str,
    started: Option<&DriftAdaptationStartedPayload>,
    reason: DriftAdaptationFinishReason,
    canary: Option<&DecidedCanary>,
    own: &AdaptationIds,
) -> (result: Result<DriftAdaptationFinishedPayload, ExecuteError>)
    ensures
        if started is None || (canary is Some && canary->0.stage is None) {
            result == Err::<DriftAdaptationFinishedPayload, ExecuteError>(ExecuteError::Internal)
        } else {
            result matches Ok(payload) && records_finish(
                payload,
                history@,
                drift_id@,
                *started->0,
                reason,
                match canary {
                    Some(canary) => Some(*canary),
                    None => None,
                },
                *own,
            )
        },
{
    let started: &DriftAdaptationStartedPayload = match started {
        Some(started) => started,
        None => {
            return Err(ExecuteError::Internal);
        },
    };
    let mut canary_id: Option<String> = None;
    let mut final_canary_stage: Option<CanaryStage> = None;
    let mut promotion_transition_id: Option<String> = None;
    if let Some(canary) = canary {
        if canary.stage.is_none() {
            return Err(ExecuteError::Internal);
        }
        canary_id = Some(canary.canary_id.clone());
        final_canary_stage = canary.stage;
        if reason == DriftAdaptationFinishReason::Promoted {
            promotion_transition_id = Some(canary.promotion_transition_id.clone());
        }
    }
    let proposal_event: String = ids::forge_event_id(started.proposal_id.as_str());
    let proposal_id: Option<String> = find_recorded(
        history,
        &started.proposal_id,
        proposal_event.as_str(),
    );
    let child_genome_id: Option<String> = match find_child(history, started.proposal_id.as_str()) {
        Some(child) => child,
        None => None,
    };
    let shadow_event: String = ids::wrap(
        "arena-job:",
        own.shadow_evaluation_id.as_str(),
        ":admitted",
    );
    let shadow_evaluation_id: Option<String> = find_recorded(
        history,
        &own.shadow_evaluation_id,
        shadow_event.as_str(),
    );
    let assessment_event: String = ids::forge_assessment_event_id(own.assessment_id.as_str());
    let assessment_id: Option<String> = find_recorded(
        history,
        &own.assessment_id,
        assessment_event.as_str(),
    );
    Ok(
        DriftAdaptationFinishedPayload {
            schema_version: 1,
            drift_id: drift_id.to_owned(),
            world_id: started.world_id.clone(),
            reason,
            proposal_id,
            child_genome_id,
            shadow_evaluation_id,
            assessment_id,
            canary_id,
            final_canary_stage,
            promotion_transition_id,
        },
    )
}

/// Finishing an adaptation takes its drift off the list of those that need one, and no other
/// drift onto it.
pub proof fn finished_adaptations_are_not_resumed(
    history: Seq<RecordedEvent>,
    registry: Registry,
    end: RecordedEvent,
    drift_id: Seq<char>,
    recorded: RecordedEvent,
)
    requires
        end.payload matches EventPayload::AdaptationFinished(id) && id@ == drift_id,
    ensures
        drift_of(recorded) == drift_id ==> !needs_adaptation(history.push(end), registry, recorded),
        drift_of(recorded) != drift_id ==> needs_adaptation(history.push(end), registry, recorded)
            == needs_adaptation(history, registry, recorded),
{
    let longer = history.push(end);
    assert(longer[history.len() as int] == end);
    assert(finished(longer, drift_id));
    let other = drift_of(recorded);
    if other != drift_id {
        if finished(history, other) {
            let at = choose|at: int|
                0 <= at < history.len() && match (#[trigger] history[at]).payload {
                    EventPayload::AdaptationFinished(id) => id@ == other,
                    _ => false,
                };
            assert(longer[at] == history[at]);
        }
        if finished(longer, other) {
            let at = choose|at: int|
                0 <= at < longer.len() && match (#[trigger] longer[at]).payload {
                    EventPayload::AdaptationFinished(id) => id@ == other,
                    _ => false,
                };
            assert(at < history.len());
            assert(longer[at] == history[at]);
        }
    }
}

} // verus!
