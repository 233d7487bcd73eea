//! One generation of an evolution run, step by step.

use crate::error::{rejected, ExecuteError, Refusal};
use crate::evolution;
use crate::forge::HypothesisSource;
use crate::genes;
use crate::ids;
use crate::json;
use crate::protocol::{
    EvolutionFinishReason, EvolutionGenerationPayload, EvolutionRunRecord, EvolverStrategyConfig,
    ForgeAssessmentOutcome, GeneSelectionPolicy, JobTerminal, MutationPrioritization,
};
use crate::records::{FailureCluster, SuggestedMutation};
use crate::state::{ControlState, Projected, RecordedEvent};
use crate::text;
use crate::transitions::ChampionRequest;
use vstd::prelude::*;
use vstd::string::*;

verus! {

/// How a paired evaluation ended, if it did.
pub open spec fn ended(projected: Projected, evaluation_id: Seq<char>) -> Option<JobTerminal> {
    if projected.arena_jobs.contains_key(evaluation_id) {
        projected.arena_jobs[evaluation_id].terminal
    } else {
        None
    }
}

/// Finds how a paired evaluation ended, if it did.
pub fn evaluation_end(state: &ControlState, evaluation_id: &str) -> (result: Option<JobTerminal>)
    requires
        state.wf(),
    ensures
        result == ended(state@, evaluation_id@),
{
    match state.arena_jobs.get(evaluation_id) {
        Some(job) => job.terminal,
        None => None,
    }
}

/// How far a generation got within one step.
#[derive(Clone, Debug, PartialEq, Eq)]
pub enum GenerationStage {
    /// Nothing was done yet.
    Begun,
    /// The diagnostic evaluation of the Champion was selected over.
    Diagnosed {
        /// That selection.
        selection_event_id: String,
    },
    /// A hypothesis was chosen, or none could be.
    Sourced {
        /// Selection of the diagnostic evaluation.
        selection_event_id: String,
        /// Where the hypothesis comes from.
        source: Option<HypothesisSource>,
    },
    /// A child was proposed.
    Proposed {
        /// The child.
        child_genome_id: String,
    },
    /// The evaluation of the child was selected over.
    Selected {
        /// The child.
        child_genome_id: String,
        /// That selection.
        selection_event_id: String,
    },
    /// The invariants of that evaluation were checked.
    Checked {
        /// The child.
        child_genome_id: String,
        /// Selection of the child's evaluation.
        selection_event_id: String,
    },
    /// The child was assessed.
    Assessed {
        /// The child.
        child_genome_id: String,
        /// How.
        outcome: ForgeAssessmentOutcome,
    },
    /// Promotion of the child was tried.
    Tried {
        /// The child.
        child_genome_id: String,
        /// Whether it was promoted.
        promoted: bool,
    },
}

/// What a generation does next.
pub enum GenerationAction {
    /// Submit a paired evaluation and end the step.
    Evaluate {
        /// Identity of the evaluation.
        evaluation_id: String,
        /// The parent.
        parent_genome_id: String,
        /// The candidate.
        candidate_genome_id: String,
    },
    /// Select over an evaluation.
    Select {
        /// The evaluation.
        evaluation_id: String,
    },
    /// Choose where the hypothesis comes from.
    ChooseSource {
        /// The diagnostic evaluation.
        evaluation_id: String,
        /// The Champion.
        champion_genome_id: String,
    },
    /// Propose a child of the Champion.
    Propose {
        /// Identity of the proposal.
        proposal_id: String,
        /// Selection of the diagnostic evaluation.
        selection_event_id: String,
        /// The Champion.
        parent_genome_id: String,
        /// Where the hypothesis comes from.
        source: HypothesisSource,
    },
    /// Finish the run and end the step.
    Finish(EvolutionFinishReason),
    /// Check the invariants of an evaluation.
    CheckInvariants {
        /// The evaluation.
        evaluation_id: String,
    },
    /// Assess the child.
    Assess {
        /// Identity of the assessment.
        assessment_id: String,
        /// The proposal.
        proposal_id: String,
        /// Selection of the child's evaluation.
        selection_event_id: String,
    },
    /// Try to promote the child.
    Promote {
        /// Identity of the transition.
        transition_id: String,
        /// The transition.
        request: ChampionRequest,
    },
    /// Record the generation and end the step.
    Record(EvolutionGenerationPayload),
}

/// The identity that a generation derives for one of its parts.
pub open spec fn part(run: EvolutionRunRecord, index: u32, tag: Seq<char>) -> Seq<char> {
    ids::generation_id(run.run_id@, index as nat, tag)
}

/// Whether a payload is the record of a generation with a child.
pub open spec fn records_generation(
    payload: EvolutionGenerationPayload,
    run: EvolutionRunRecord,
    index: u32,
    child_genome_id: Seq<char>,
    promoted: bool,
) -> bool {
    &&& payload.schema_version == 1
    &&& payload.run_id@ == run.run_id@
    &&& payload.generation_index == index
    &&& payload.champion_before@ == evolution::champion_of(run)
    &&& payload.diagnostic_evaluation_id@ == part(run, index, "-d"@)
    &&& payload.proposal_id@ == part(run, index, "-p"@)
    &&& payload.child_genome_id@ == child_genome_id
    &&& payload.child_evaluation_id@ == part(run, index, "-c"@)
    &&& payload.assessment_id@ == part(run, index, "-a"@)
    &&& payload.promoted == promoted
    &&& payload.champion_after@ == (if promoted {
        child_genome_id
    } else {
        evolution::champion_of(run)
    })
}

/// Whether an outcome is what a generation does next at a stage.
pub open spec fn does_next(
    outcome: Result<GenerationAction, ExecuteError>,
    projected: Projected,
    run: EvolutionRunRecord,
    index: u32,
    stage: GenerationStage,
) -> bool {
    let champion = evolution::champion_of(run);
    match stage {
        GenerationStage::Begun => match ended(projected, part(run, index, "-d"@)) {
            None => outcome matches Ok(GenerationAction::Evaluate {
                evaluation_id,
                parent_genome_id,
                candidate_genome_id,
            }) && evaluation_id@ == part(run, index, "-d"@) && parent_genome_id@
                == run.baseline_genome_id@ && candidate_genome_id@ == champion,
            Some(JobTerminal::Succeeded) => outcome matches Ok(GenerationAction::Select {
                evaluation_id,
            }) && evaluation_id@ == part(run, index, "-d"@),
            Some(_) => outcome matches Err(error) && error@ == Refusal::Rejected(
                "diagnostic evaluation did not succeed"@,
            ),
        },
        GenerationStage::Diagnosed { .. } => outcome matches Ok(GenerationAction::ChooseSource {
            evaluation_id,
            champion_genome_id,
        }) && evaluation_id@ == part(run, index, "-d"@) && champion_genome_id@ == champion,
        GenerationStage::Sourced { selection_event_id, source } => match source {
            None => outcome matches Ok(GenerationAction::Finish(reason)) && reason
                == EvolutionFinishReason::NoCandidateMutation,
            Some(source) => outcome matches Ok(GenerationAction::Propose {
                proposal_id,
                selection_event_id: selection,
                parent_genome_id,
                source: chosen,
            }) && proposal_id@ == part(run, index, "-p"@) && selection == selection_event_id
                && parent_genome_id@ == champion && chosen == source,
        },
        GenerationStage::Proposed { child_genome_id } => match ended(
            projected,
            part(run, index, "-c"@),
        ) {
            None => outcome matches Ok(GenerationAction::Evaluate {
                evaluation_id,
                parent_genome_id,
                candidate_genome_id,
            }) && evaluation_id@ == part(run, index, "-c"@) && parent_genome_id@ == champion
                && candidate_genome_id == child_genome_id,
            Some(JobTerminal::Succeeded) => outcome matches Ok(GenerationAction::Select {
                evaluation_id,
            }) && evaluation_id@ == part(run, index, "-c"@),
            Some(_) => outcome matches Err(error) && error@ == Refusal::Rejected(
                "child evaluation did not succeed"@,
            ),
        },
        GenerationStage::Selected { .. } => outcome matches Ok(GenerationAction::CheckInvariants {
            evaluation_id,
        }) && evaluation_id@ == part(run, index, "-c"@),
        GenerationStage::Checked { selection_event_id, .. } => outcome matches Ok(
            GenerationAction::Assess { assessment_id, proposal_id, selection_event_id: selection },
        ) && assessment_id@ == part(run, index, "-a"@) && proposal_id@ == part(run, index, "-p"@)
            && selection == selection_event_id,
        GenerationStage::Assessed { child_genome_id, outcome: assessed } => match assessed {
            ForgeAssessmentOutcome::MetricsPassed => outcome matches Ok(GenerationAction::Promote {
                transition_id,
                request,
            }) && transition_id@ == part(run, index, "-x"@) && (request matches ChampionRequest::Promote {
                assessment_id,
            } && assessment_id@ == part(run, index, "-a"@)),
            ForgeAssessmentOutcome::MetricsRejected => outcome matches Ok(GenerationAction::Record(
                payload,
            )) && records_generation(payload, run, index, child_genome_id@, false),
        },
        GenerationStage::Tried { child_genome_id, promoted } => outcome matches Ok(
            GenerationAction::Record(payload),
        ) && records_generation(payload, run, index, child_genome_id@, promoted),
    }
}

/// Puts the record of a generation together.
fn generation_payload(run: &EvolutionRunRecord, index: u32, child_genome_id: String, promoted: bool) -> (result: EvolutionGenerationPayload)
    ensures
        records_generation(result, *run, index, child_genome_id@, promoted),
{
    let champion_before: String = evolution::champion_after(run);
    let champion_after: String = if promoted {
        child_genome_id.clone()
    } else {
        champion_before.clone()
    };
    EvolutionGenerationPayload {
        schema_version: 1,
        run_id: run.run_id.clone(),
        generation_index: index,
        champion_before,
        diagnostic_evaluation_id: ids::evolution_diagnostic_evaluation_id(
            run.run_id.as_str(),
            index,
        ),
        proposal_id: ids::evolution_proposal_id(run.run_id.as_str(), index),
        child_genome_id,
        child_evaluation_id: ids::evolution_child_evaluation_id(run.run_id.as_str(), index),
        assessment_id: ids::evolution_assessment_id(run.run_id.as_str(), index),
        promoted,
        champion_after,
    }
}

/// Decides what a generation does next.
pub fn advance_evolution_generation(
    state: &ControlState,
    run: &EvolutionRunRecord,
    index: u32,
    stage: GenerationStage,
) -> (result: Result<GenerationAction, ExecuteError>)
    requires
        state.wf(),
    ensures
        does_next(result, state@, *run, index, stage),
{
    let run_id: &str = run.run_id.as_str();
    match stage {
        GenerationStage::Begun => {
            let evaluation_id: String = ids::evolution_diagnostic_evaluation_id(run_id, index);
            match evaluation_end(state, evaluation_id.as_str()) {
                None => Ok(
                    GenerationAction::Evaluate {
                        evaluation_id,
                        parent_genome_id: run.baseline_genome_id.clone(),
                        candidate_genome_id: evolution::champion_after(run),
                    },
                ),
                Some(JobTerminal::Succeeded) => Ok(GenerationAction::Select { evaluation_id }),
                Some(_) => Err(rejected("diagnostic evaluation did not succeed")),
            }
        },
        GenerationStage::Diagnosed { .. } => Ok(
            GenerationAction::ChooseSource {
                evaluation_id: ids::evolution_diagnostic_evaluation_id(run_id, index),
                champion_genome_id: evolution::champion_after(run),
            },
        ),
        GenerationStage::Sourced { selection_event_id, source } => match source {
            None => Ok(GenerationAction::Finish(EvolutionFinishReason::NoCandidateMutation)),
            Some(source) => Ok(
                GenerationAction::Propose {
                    proposal_id: ids::evolution_proposal_id(run_id, index),
                    selection_event_id,
                    parent_genome_id: evolution::champion_after(run),
                    source,
                },
            ),
        },
        GenerationStage::Proposed { child_genome_id } => {
            let evaluation_id: String = ids::evolution_child_evaluation_id(run_id, index);
            match evaluation_end(state, evaluation_id.as_str()) {
                None => Ok(
                    GenerationAction::Evaluate {
                        evaluation_id,
                        parent_genome_id: evolution::champion_after(run),
                        candidate_genome_id: child_genome_id,
                    },
                ),
                Some(JobTerminal::Succeeded) => Ok(GenerationAction::Select { evaluation_id }),
                Some(_) => Err(rejected("child evaluation did not succeed")),
            }
        },
        GenerationStage::Selected { .. } => Ok(
            GenerationAction::CheckInvariants {
                evaluation_id: ids::evolution_child_evaluation_id(run_id, index),
            },
        ),
        GenerationStage::Checked { selection_event_id, .. } => Ok(
            GenerationAction::Assess {
                assessment_id: ids::evolution_assessment_id(run_id, index),
                proposal_id: ids::evolution_proposal_id(run_id, index),
                selection_event_id,
            },
        ),
        GenerationStage::Assessed { child_genome_id, outcome } => match outcome {
            ForgeAssessmentOutcome::MetricsPassed => Ok(
                GenerationAction::Promote {
                    transition_id: ids::evolution_promotion_transition_id(run_id, index),
                    request: ChampionRequest::Promote {
                        assessment_id: ids::evolution_assessment_id(run_id, index),
                    },
                },
            ),
            ForgeAssessmentOutcome::MetricsRejected => Ok(
                GenerationAction::Record(generation_payload(run, index, child_genome_id, false)),
            ),
        },
        GenerationStage::Tried { child_genome_id, promoted } => Ok(
            GenerationAction::Record(generation_payload(run, index, child_genome_id, promoted)),
        ),
    }
}

/// What carrying out an action of a generation gave.
pub enum GenerationReply {
    /// A selection, by its event.
    Selection(String),
    /// A choice of where the hypothesis comes from.
    Source(Option<HypothesisSource>),
    /// A proposal, by its child.
    Child(String),
    /// The invariants were checked.
    Invariants,
    /// An assessment.
    Assessment(ForgeAssessmentOutcome),
    /// Whether the promotion was recorded.
    Promotion(bool),
}

/// Takes the reply to a generation's action in. A reply of another kind is a fault of the
/// daemon.
pub fn take_reply(stage: GenerationStage, reply: GenerationReply) -> (result: Result<
    GenerationStage,
    ExecuteError,
>)
    ensures
        result == (match (stage, reply) {
            (GenerationStage::Begun, GenerationReply::Selection(selection_event_id)) => Ok(
                GenerationStage::Diagnosed { selection_event_id },
            ),
            (GenerationStage::Diagnosed { selection_event_id }, GenerationReply::Source(source)) => Ok(
                GenerationStage::Sourced { selection_event_id, source },
            ),
            (GenerationStage::Sourced { .. }, GenerationReply::Child(child_genome_id)) => Ok(
                GenerationStage::Proposed { child_genome_id },
            ),
            (
                GenerationStage::Proposed { child_genome_id },
                GenerationReply::Selection(selection_event_id),
            ) => Ok(GenerationStage::Selected { child_genome_id, selection_event_id }),
            (
                GenerationStage::Selected { child_genome_id, selection_event_id },
                GenerationReply::Invariants,
            ) => Ok(GenerationStage::Checked { child_genome_id, selection_event_id }),
            (GenerationStage::Checked { child_genome_id, .. }, GenerationReply::Assessment(outcome)) => Ok(
                GenerationStage::Assessed { child_genome_id, outcome },
            ),
            (GenerationStage::Assessed { child_genome_id, .. }, GenerationReply::Promotion(promoted)) => Ok(
                GenerationStage::Tried { child_genome_id, promoted },
            ),
            _ => Err(ExecuteError::Internal),
        }),
{
    match (stage, reply) {
        (GenerationStage::Begun, GenerationReply::Selection(selection_event_id)) => Ok(
            GenerationStage::Diagnosed { selection_event_id },
        ),
        (GenerationStage::Diagnosed { selection_event_id }, GenerationReply::Source(source)) => Ok(
            GenerationStage::Sourced { selection_event_id, source },
        ),
        (GenerationStage::Sourced { .. }, GenerationReply::Child(child_genome_id)) => Ok(
            GenerationStage::Proposed { child_genome_id },
        ),
        (
            GenerationStage::Proposed { child_genome_id },
            GenerationReply::Selection(selection_event_id),
        ) => Ok(GenerationStage::Selected { child_genome_id, selection_event_id }),
        (
            GenerationStage::Selected { child_genome_id, selection_event_id },
            GenerationReply::Invariants,
        ) => Ok(GenerationStage::Checked { child_genome_id, selection_event_id }),
        (GenerationStage::Checked { child_genome_id, .. }, GenerationReply::Assessment(outcome)) => Ok(
            GenerationStage::Assessed { child_genome_id, outcome },
        ),
        (GenerationStage::Assessed { child_genome_id, .. }, GenerationReply::Promotion(promoted)) => Ok(
            GenerationStage::Tried { child_genome_id, promoted },
        ),
        _ => Err(ExecuteError::Internal),
    }
}

/// A generation changes the Champion only by promoting its child, and promotes only a child
/// that passed its assessment.
pub proof fn champions_change_only_by_promotion(
    outcome: Result<GenerationAction, ExecuteError>,
    projected: Projected,
    run: EvolutionRunRecord,
    index: u32,
    stage: GenerationStage,
)
    requires
        does_next(outcome, projected, run, index, stage),
    ensures
        outcome matches Ok(GenerationAction::Record(payload)) ==> {
            &&& !payload.promoted ==> payload.champion_after@ == payload.champion_before@
            &&& payload.promoted ==> payload.champion_after@ == payload.child_genome_id@
            &&& payload.champion_before@ == evolution::champion_of(run)
            &&& payload.promoted ==> (stage matches GenerationStage::Tried { promoted, .. }
                && promoted)
        },
        outcome matches Ok(GenerationAction::Promote { .. }) ==> (stage matches GenerationStage::Assessed {
            outcome: assessed,
            ..
        } && assessed == ForgeAssessmentOutcome::MetricsPassed),
{
}

/// The hypothesis of a generation that no analysis supports.
pub open spec fn default_hypothesis(run_id: Seq<char>, index: u32, champion: Seq<char>) -> Seq<char> {
    "Evolve run "@ + run_id + " generation "@ + text::decimal(index as nat)
        + ": flip the reference operation of Champion "@ + champion
        + " to explore the paired instruction space."@
}

/// Writes the hypothesis of a generation that no analysis supports.
pub fn write_default_hypothesis(run_id: &str, index: u32, champion: &str) -> (result: String)
    ensures
        result@ == default_hypothesis(run_id@, index, champion@),
{
    let number: String = text::decimal_text(index as u64);
    let mut result: String = ids::wrap("Evolve run ", run_id, " generation ");
    result.append(number.as_str());
    result.append(": flip the reference operation of Champion ");
    result.append(champion);
    result.append(" to explore the paired instruction space.");
    result
}

/// The operation that a cluster suggests to change to.
pub open spec fn suggestion(cluster: FailureCluster) -> Option<Seq<char>> {
    match cluster.suggested_mutation {
        Some(SuggestedMutation::ReferenceOperation { operation_after }) => Some(operation_after@),
        _ => None,
    }
}

/// Whether the cluster at `a` comes before the one at `b`: in their own order, or, weighted
/// by cost, the larger first, then the one with the lesser signature.
pub open spec fn comes_before(clusters: Seq<FailureCluster>, weighted: bool, a: int, b: int) -> bool {
    if weighted {
        clusters[a].total_count > clusters[b].total_count || (clusters[a].total_count
            == clusters[b].total_count && (text::precedes(
            clusters[a].signature@,
            clusters[b].signature@,
        ) || (clusters[a].signature@ == clusters[b].signature@ && a < b)))
    } else {
        a < b
    }
}

/// Whether a cluster can be chosen: it suggests an operation, the wanted one where one is.
pub open spec fn choosable(clusters: Seq<FailureCluster>, wanted: Option<Seq<char>>, at: int) -> bool {
    &&& 0 <= at < clusters.len()
    &&& at <= u32::MAX
    &&& suggestion(clusters[at]) is Some
    &&& wanted is Some ==> suggestion(clusters[at]) == wanted
}

/// Whether no cluster can be chosen.
pub open spec fn nothing_choosable(clusters: Seq<FailureCluster>, wanted: Option<Seq<char>>) -> bool {
    forall|at: int| !#[trigger] choosable(clusters, wanted, at)
}

/// Whether a cluster is the first that can be chosen.
pub open spec fn first_choice(
    clusters: Seq<FailureCluster>,
    weighted: bool,
    wanted: Option<Seq<char>>,
    at: int,
) -> bool {
    &&& choosable(clusters, wanted, at)
    &&& forall|other: int| #[trigger]
        choosable(clusters, wanted, other) && other != at ==> comes_before(
            clusters,
            weighted,
            at,
            other,
        )
}

/// There is at most one first choice.
pub proof fn first_choice_is_unique(
    clusters: Seq<FailureCluster>,
    weighted: bool,
    wanted: Option<Seq<char>>,
    a: int,
    b: int,
)
    requires
        first_choice(clusters, weighted, wanted, a),
        first_choice(clusters, weighted, wanted, b),
    ensures
        a == b,
{
    if a != b {
        assert(comes_before(clusters, weighted, a, b) && comes_before(clusters, weighted, b, a));
        let one = clusters[a].signature@;
        let two = clusters[b].signature@;
        text::precedes_irreflexive(one);
        if text::precedes(one, two) && text::precedes(two, one) {
            text::precedes_transitive(one, two, one);
        }
    }
}

/// Finds the first cluster that can be chosen.
pub fn first_cluster(clusters: &Vec<FailureCluster>, weighted: bool, wanted: Option<&str>) -> (result: Option<
    u32,
>)
    ensures
        match result {
            Some(at) => first_choice(clusters@, weighted, json::said(wanted), at as int),
            None => nothing_choosable(clusters@, json::said(wanted)),
        },
{
    let ghost operation: Option<Seq<char>> = json::said(wanted);
    let mut best: Option<usize> = None;
    for at in 0..clusters.len()
        invariant
            operation == json::said(wanted),
            match best {
                Some(chosen) => chosen < at && choosable(clusters@, operation, chosen as int)
                    && forall|other: int|
                    0 <= other < at && other != chosen && #[trigger] choosable(
                        clusters@,
                        operation,
                        other,
                    ) ==> comes_before(clusters@, weighted, chosen as int, other),
                None => forall|other: int|
                    0 <= other < at ==> !#[trigger] choosable(clusters@, operation, other),
            },
    {
        let suggests: bool = match &clusters[at].suggested_mutation {
            Some(SuggestedMutation::ReferenceOperation { operation_after }) => match wanted {
                Some(wanted) => text::text_eq(operation_after.as_str(), wanted),
                None => true,
            },
            _ => false,
        };
        if suggests && at as u64 <= u32::MAX as u64 {
            assert(choosable(clusters@, operation, at as int));
            match best {
                None => {
                    best = Some(at);
                },
                Some(chosen) => {
                    let better: bool = weighted && (clusters[at].total_count
                        > clusters[chosen].total_count || (clusters[at].total_count
                        == clusters[chosen].total_count && text::text_less(
                        clusters[at].signature.as_str(),
                        clusters[chosen].signature.as_str(),
                    )));
                    proof {
                        orders_transitively(
                            clusters@,
                            weighted,
                            operation,
                            chosen as int,
                            at as int,
                            better,
                        );
                    }
                    if better {
                        best = Some(at);
                    }
                },
            }
        } else {
            assert(!choosable(clusters@, operation, at as int));
        }
    }
    match best {
        Some(chosen) => Some(chosen as u32),
        None => None,
    }
}

/// The leader among the clusters before `at` still comes before all of them, or the cluster
/// at `at` comes before them all.
proof fn orders_transitively(
    clusters: Seq<FailureCluster>,
    weighted: bool,
    wanted: Option<Seq<char>>,
    chosen: int,
    at: int,
    better: bool,
)
    requires
        chosen < at,
        forall|other: int|
            0 <= other < at && other != chosen && #[trigger] choosable(clusters, wanted, other)
                ==> comes_before(clusters, weighted, chosen, other),
        better == (weighted && (clusters[at].total_count > clusters[chosen].total_count || (
        clusters[at].total_count == clusters[chosen].total_count && text::precedes(
            clusters[at].signature@,
            clusters[chosen].signature@,
        )))),
    ensures
        better ==> forall|other: int|
            0 <= other < at && #[trigger] choosable(clusters, wanted, other) ==> comes_before(
                clusters,
                weighted,
                at,
                other,
            ),
        !better ==> comes_before(clusters, weighted, chosen, at),
{
    let one = clusters[at].signature@;
    let leader = clusters[chosen].signature@;
    text::precedes_total(one, leader);
    if better {
        assert forall|other: int|
            0 <= other < at && #[trigger] choosable(clusters, wanted, other) implies comes_before(
            clusters,
            weighted,
            at,
            other,
        ) by {
            if other != chosen {
                let third = clusters[other].signature@;
                if text::precedes(one, leader) && text::precedes(leader, third) {
                    text::precedes_transitive(one, leader, third);
                }
            }
        }
    }
}

/// Whether an operation is one of the two casing operations.
pub open spec fn casing(operation: Option<Seq<char>>) -> bool {
    operation == Some("identity"@) || operation == Some("ascii_uppercase"@)
}

/// The operation that a strategy has its Genes prefer.
pub open spec fn gene_preference(
    history: Seq<RecordedEvent>,
    strategy: EvolverStrategyConfig,
    champion_operation: Option<Seq<char>>,
) -> Option<Seq<char>> {
    if strategy.gene_selection == GeneSelectionPolicy::HighestTransferEffect
        && champion_operation is Some {
        gene_operation(history, champion_operation->0)
    } else {
        None
    }
}

/// Whether `at` is the cluster that a strategy chooses: one that suggests what the best Gene
/// changes the Champion's operation to, where the strategy asks for that and there is one;
/// else the first that suggests anything.
pub open spec fn strategy_choice(
    history: Seq<RecordedEvent>,
    strategy: EvolverStrategyConfig,
    clusters: Seq<FailureCluster>,
    champion_operation: Option<Seq<char>>,
    at: Option<int>,
) -> bool {
    let weighted = strategy.mutation_prioritization == MutationPrioritization::CostWeighted;
    let gene = gene_preference(history, strategy, champion_operation);
    let by_gene = gene is Some && exists|i: int| #[trigger] choosable(clusters, gene, i);
    match at {
        Some(at) => if by_gene {
            first_choice(clusters, weighted, gene, at)
        } else {
            first_choice(clusters, weighted, None, at)
        },
        None => !by_gene && forall|i: int| !#[trigger] choosable(clusters, None, i),
    }
}

/// The operation that the best Gene for an operation changes to.
pub open spec fn gene_operation(history: Seq<RecordedEvent>, operation: Seq<char>) -> Option<Seq<char>> {
    if exists|at: int| genes::is_best(history, operation, at) {
        let at = choose|at: int| genes::is_best(history, operation, at);
        Some(genes::gene_of(history[at])->0.operation_after@)
    } else {
        None
    }
}

/// Chooses where the hypothesis of a generation comes from. Without a strategy it is always
/// the default; with one it is the chosen cluster, else the default where the Champion runs a
/// casing operation, else there is none.
pub fn choose_evolution_hypothesis_source(
    history: &Vec<RecordedEvent>,
    run: &EvolutionRunRecord,
    index: u32,
    champion_before: &str,
    strategy: Option<&EvolverStrategyConfig>,
    clusters: &Vec<FailureCluster>,
    champion_operation: Option<&str>,
) -> (result: Option<HypothesisSource>)
    ensures
        match strategy {
            None => result matches Some(HypothesisSource::Operator(hypothesis)) && hypothesis@
                == default_hypothesis(run.run_id@, index, champion_before@),
            Some(strategy) => {
                let operation = json::said(champion_operation);
                match result {
                    Some(HypothesisSource::Analysis { analysis_id, cluster_index }) => analysis_id@
                        == part(*run, index, "-analysis"@) && strategy_choice(
                        history@,
                        *strategy,
                        clusters@,
                        operation,
                        Some(cluster_index as int),
                    ),
                    Some(HypothesisSource::Operator(hypothesis)) => strategy_choice(
                        history@,
                        *strategy,
                        clusters@,
                        operation,
                        None,
                    ) && casing(operation) && hypothesis@ == default_hypothesis(
                        run.run_id@,
                        index,
                        champion_before@,
                    ),
                    None => strategy_choice(history@, *strategy, clusters@, operation, None)
                        && !casing(operation),
                }
            },
        },
{
    let run_id: &str = run.run_id.as_str();
    let strategy: &EvolverStrategyConfig = match strategy {
        None => {
            return Some(
                HypothesisSource::Operator(write_default_hypothesis(run_id, index, champion_before)),
            );
        },
        Some(strategy) => strategy,
    };
    let ghost operation: Option<Seq<char>> = json::said(champion_operation);
    let weighted: bool = strategy.mutation_prioritization == MutationPrioritization::CostWeighted;
    let mut preferred: Option<String> = None;
    if strategy.gene_selection == GeneSelectionPolicy::HighestTransferEffect {
        if let Some(current) = champion_operation {
            preferred = genes::best_gene_target_operation(history, current);
            proof {
                if preferred is Some {
                    let at = choose|at: int| #[trigger]
                        genes::is_best(history@, current@, at) && preferred->0@ == genes::gene_of(
                            history@[at],
                        )->0.operation_after@;
                    let chosen = choose|at: int| genes::is_best(history@, current@, at);
                    genes::best_is_unique(history@, current@, at, chosen);
                } else if exists|at: int| genes::is_best(history@, current@, at) {
                    let at = choose|at: int| genes::is_best(history@, current@, at);
                    assert(genes::eligible(history@, current@, at));
                }
                assert(json::held(preferred) == gene_operation(history@, current@));
            }
        }
    }
    let ghost gene = gene_preference(history@, *strategy, operation);
    assert(json::held(preferred) == gene);
    let by_gene: Option<u32> = match &preferred {
        Some(wanted) => first_cluster(clusters, weighted, Some(wanted.as_str())),
        None => None,
    };
    proof {
        if by_gene is Some {
            assert(choosable(clusters@, json::held(preferred), by_gene->0 as int));
        }
    }
    let chosen: Option<u32> = match by_gene {
        Some(at) => Some(at),
        None => first_cluster(clusters, weighted, None),
    };
    if let Some(cluster_index) = chosen {
        return Some(
            HypothesisSource::Analysis {
                analysis_id: ids::evolution_analysis_id(run_id, index),
                cluster_index,
            },
        );
    }
    let flips: bool = match champion_operation {
        Some(current) => text::text_eq(current, "identity") || text::text_eq(
            current,
            "ascii_uppercase",
        ),
        None => false,
    };
    if flips {
        Some(HypothesisSource::Operator(write_default_hypothesis(run_id, index, champion_before)))
    } else {
        None
    }
}

} // verus!
