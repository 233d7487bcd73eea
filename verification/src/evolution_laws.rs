//! What evolution runs, their generations and Genes do, said of their inputs and results alone.

use crate::error::ExecuteError;
use crate::evolution;
use crate::evolution::{
    EvolutionCancellation, EvolutionFacts, EvolutionOpening, EvolutionTick,
};
use crate::forge::HypothesisSource;
use crate::generation;
use crate::generation::{GenerationAction, GenerationReply, GenerationStage};
use crate::genes;
use crate::ids;
use crate::json;
use crate::protocol::{
    Command, EvolutionFinishReason, EvolutionFinishedPayload, EvolutionGenerationRecord,
    EvolutionRunRecord, EvolutionRunState, EvolverStrategyConfig, ForgeAssessmentOutcome,
    GeneSelectionPolicy, GeneTransferOutcome, JobTerminal, MutationPrioritization,
};
use crate::records::{FailureCluster, SuggestedMutation};
use crate::registry::Registry;
use crate::state::{ControlState, EventPayload, RecordedEvent};
use crate::text;
use crate::transitions::ChampionRequest;
use vstd::prelude::*;

verus! {

/// Whatever its stage, a generation works on the Champion that its run has reached: the one that
/// the last recorded generation left, or the one that the run started from before any was
/// recorded. It is diagnosed against the baseline, it is the parent that a child is proposed of
/// and evaluated against, and it is what the record says there was before.
pub proof fn generations_work_on_the_champion_reached(
    state: ControlState,
    run: EvolutionRunRecord,
    index: u32,
    stage: GenerationStage,
    result: Result<GenerationAction, ExecuteError>,
    champion: Seq<char>,
)
    requires
        state.wf(),
        call_ensures(
            generation::advance_evolution_generation,
            (&state, &run, index, stage),
            result,
        ),
        run.generations@.len() == 0 ==> champion == run.from_genome_id@,
        run.generations@.len() > 0 ==> champion
            == run.generations@[run.generations@.len() - 1].payload.champion_after@,
    ensures
        result matches Ok(GenerationAction::Evaluate {
            parent_genome_id,
            candidate_genome_id,
            ..
        }) ==> {
            ||| stage is Begun && parent_genome_id@ == run.baseline_genome_id@
                && candidate_genome_id@ == champion
            ||| stage matches GenerationStage::Proposed { child_genome_id } && parent_genome_id@
                == champion && candidate_genome_id@ == child_genome_id@
        },
        result matches Ok(GenerationAction::ChooseSource { champion_genome_id, .. })
            ==> champion_genome_id@ == champion,
        result matches Ok(GenerationAction::Propose {
            parent_genome_id,
            selection_event_id,
            source,
            ..
        }) ==> parent_genome_id@ == champion && (stage matches GenerationStage::Sourced {
            selection_event_id: selected,
            source: chosen,
        } && selection_event_id@ == selected@ && chosen == Some(source)),
        result matches Ok(GenerationAction::Record(payload)) ==> payload.champion_before@
            == champion && payload.run_id@ == run.run_id@ && payload.generation_index == index,
{
}

/// The Genome that a generation's child is proposed of is the one that it diagnosed, and the one
/// that the child is then evaluated against; only the child itself is evaluated against it.
pub proof fn children_are_proposed_of_the_diagnosed_champion(
    first: ControlState,
    second: ControlState,
    third: ControlState,
    run: EvolutionRunRecord,
    index: u32,
    selection: String,
    source: HypothesisSource,
    child: String,
    diagnosis: Result<GenerationAction, ExecuteError>,
    proposal: Result<GenerationAction, ExecuteError>,
    evaluation: Result<GenerationAction, ExecuteError>,
)
    requires
        first.wf(),
        second.wf(),
        third.wf(),
        call_ensures(
            generation::advance_evolution_generation,
            (&first, &run, index, GenerationStage::Begun),
            diagnosis,
        ),
        call_ensures(
            generation::advance_evolution_generation,
            (
                &second,
                &run,
                index,
                GenerationStage::Sourced { selection_event_id: selection, source: Some(source) },
            ),
            proposal,
        ),
        call_ensures(
            generation::advance_evolution_generation,
            (&third, &run, index, GenerationStage::Proposed { child_genome_id: child }),
            evaluation,
        ),
        diagnosis matches Ok(GenerationAction::Evaluate { .. }),
        evaluation matches Ok(GenerationAction::Evaluate { .. }),
    ensures
        proposal matches Ok(GenerationAction::Propose {
            parent_genome_id,
            selection_event_id,
            ..
        }) && (diagnosis matches Ok(GenerationAction::Evaluate {
            candidate_genome_id: diagnosed,
            evaluation_id: diagnostic_id,
            ..
        }) && (evaluation matches Ok(GenerationAction::Evaluate {
            parent_genome_id: opponent,
            candidate_genome_id: candidate,
            evaluation_id: child_id,
        }) && parent_genome_id@ == diagnosed@ && parent_genome_id@ == opponent@ && candidate@
            == child@ && selection_event_id@ == selection@ && diagnostic_id@ != child_id@)),
{
    reveal_strlit("-d");
    reveal_strlit("-c");
    let a = generation::part(run, index, "-d"@);
    let b = generation::part(run, index, "-c"@);
    assert(a.last() == 'd' && b.last() == 'c');
}

/// What one generation leaves, the next begins with: after a generation that promoted its child
/// is recorded, the next one diagnoses that child; after one that did not, the same Champion.
pub proof fn generations_go_on_from_what_was_promoted(
    state: ControlState,
    next_state: ControlState,
    run: EvolutionRunRecord,
    index: u32,
    child: String,
    promoted: bool,
    recorded: Result<GenerationAction, ExecuteError>,
    record: EvolutionGenerationRecord,
    next: EvolutionRunRecord,
    next_index: u32,
    stage: GenerationStage,
    result: Result<GenerationAction, ExecuteError>,
    before: Result<GenerationAction, ExecuteError>,
)
    requires
        state.wf(),
        next_state.wf(),
        call_ensures(
            generation::advance_evolution_generation,
            (
                &state,
                &run,
                index,
                GenerationStage::Tried { child_genome_id: child, promoted },
            ),
            recorded,
        ),
        recorded == Ok::<GenerationAction, ExecuteError>(GenerationAction::Record(record.payload)),
        next.generations@ == run.generations@.push(record),
        call_ensures(
            generation::advance_evolution_generation,
            (&next_state, &next, next_index, stage),
            result,
        ),
        call_ensures(
            generation::advance_evolution_generation,
            (&next_state, &run, index, stage),
            before,
        ),
    ensures
        result matches Ok(GenerationAction::Propose { parent_genome_id, .. }) ==> {
            &&& promoted ==> parent_genome_id@ == child@
            &&& !promoted ==> (before matches Ok(GenerationAction::Propose {
                parent_genome_id: earlier,
                ..
            }) && parent_genome_id@ == earlier@)
        },
        result matches Ok(GenerationAction::ChooseSource { champion_genome_id, .. }) ==> {
            &&& promoted ==> champion_genome_id@ == child@
            &&& !promoted ==> (before matches Ok(GenerationAction::ChooseSource {
                champion_genome_id: earlier,
                ..
            }) && champion_genome_id@ == earlier@)
        },
        record.payload.promoted == promoted,
        record.payload.child_genome_id@ == child@,
{
    let count = run.generations@.len();
    assert(next.generations@[count as int] == record);
}

/// A generation that goes all the way asks for its evaluations, its proposal and its assessment
/// under one set of identities, selects over what it evaluated, assesses what it proposed by the
/// selection over the child, promotes by that assessment, and records its child.
pub proof fn generations_carry_their_child_through(
    state: ControlState,
    run: EvolutionRunRecord,
    index: u32,
    first_selection: String,
    source: HypothesisSource,
    child: String,
    second_selection: String,
    outcome: ForgeAssessmentOutcome,
    promoted: bool,
    stages: Seq<Result<GenerationStage, ExecuteError>>,
    proposing: Result<GenerationAction, ExecuteError>,
    checking: Result<GenerationAction, ExecuteError>,
    assessing: Result<GenerationAction, ExecuteError>,
    trying: Result<GenerationAction, ExecuteError>,
    recording: Result<GenerationAction, ExecuteError>,
)
    requires
        state.wf(),
        stages.len() == 7,
        call_ensures(
            generation::take_reply,
            (GenerationStage::Begun, GenerationReply::Selection(first_selection)),
            stages[0],
        ),
        stages[0] is Ok,
        call_ensures(
            generation::take_reply,
            (stages[0]->Ok_0, GenerationReply::Source(Some(source))),
            stages[1],
        ),
        stages[1] is Ok,
        call_ensures(
            generation::take_reply,
            (stages[1]->Ok_0, GenerationReply::Child(child)),
            stages[2],
        ),
        stages[2] is Ok,
        call_ensures(
            generation::take_reply,
            (stages[2]->Ok_0, GenerationReply::Selection(second_selection)),
            stages[3],
        ),
        stages[3] is Ok,
        call_ensures(
            generation::take_reply,
            (stages[3]->Ok_0, GenerationReply::Invariants),
            stages[4],
        ),
        stages[4] is Ok,
        call_ensures(
            generation::take_reply,
            (stages[4]->Ok_0, GenerationReply::Assessment(outcome)),
            stages[5],
        ),
        stages[5] is Ok,
        call_ensures(
            generation::take_reply,
            (stages[5]->Ok_0, GenerationReply::Promotion(promoted)),
            stages[6],
        ),
        stages[6] is Ok,
        call_ensures(
            generation::advance_evolution_generation,
            (&state, &run, index, stages[1]->Ok_0),
            proposing,
        ),
        call_ensures(
            generation::advance_evolution_generation,
            (&state, &run, index, stages[3]->Ok_0),
            checking,
        ),
        call_ensures(
            generation::advance_evolution_generation,
            (&state, &run, index, stages[4]->Ok_0),
            assessing,
        ),
        call_ensures(
            generation::advance_evolution_generation,
            (&state, &run, index, stages[5]->Ok_0),
            trying,
        ),
        call_ensures(
            generation::advance_evolution_generation,
            (&state, &run, index, stages[6]->Ok_0),
            recording,
        ),
    ensures
        proposing matches Ok(GenerationAction::Propose {
            proposal_id,
            selection_event_id,
            source: proposed,
            ..
        }) && (checking matches Ok(GenerationAction::CheckInvariants { evaluation_id }) && (
        assessing matches Ok(GenerationAction::Assess {
            assessment_id,
            proposal_id: assessed,
            selection_event_id: by,
        }) && (recording matches Ok(GenerationAction::Record(payload)) && {
            &&& selection_event_id@ == first_selection@
            &&& proposed == source
            &&& assessed@ == proposal_id@
            &&& by@ == second_selection@
            &&& payload.proposal_id@ == proposal_id@
            &&& payload.child_evaluation_id@ == evaluation_id@
            &&& payload.assessment_id@ == assessment_id@
            &&& payload.child_genome_id@ == child@
            &&& payload.promoted == promoted
            &&& promoted ==> payload.champion_after@ == child@
            &&& !promoted ==> payload.champion_after@ == payload.champion_before@
            &&& outcome == ForgeAssessmentOutcome::MetricsPassed ==> (
            trying matches Ok(GenerationAction::Promote {
                request: ChampionRequest::Promote { assessment_id: by_assessment },
                ..
            }) && by_assessment@ == assessment_id@)
            &&& outcome == ForgeAssessmentOutcome::MetricsRejected ==> (
            trying matches Ok(GenerationAction::Record(rejected)) && !rejected.promoted
                && rejected.champion_after@ == rejected.champion_before@
                && rejected.child_genome_id@ == child@)
        }))),
{
}

/// A generation selects over an evaluation only once it has succeeded, asks for one only while
/// none has ended under its identity, and fails where one ended otherwise.
pub proof fn generations_wait_for_their_evaluations(
    state: ControlState,
    run: EvolutionRunRecord,
    index: u32,
    stage: GenerationStage,
    result: Result<GenerationAction, ExecuteError>,
)
    requires
        state.wf(),
        call_ensures(
            generation::advance_evolution_generation,
            (&state, &run, index, stage),
            result,
        ),
    ensures
        result matches Ok(GenerationAction::Select { evaluation_id })
            ==> state@.arena_jobs.contains_key(evaluation_id@)
            && state@.arena_jobs[evaluation_id@].terminal == Some(JobTerminal::Succeeded),
        result matches Ok(GenerationAction::Evaluate { evaluation_id, .. }) ==> (
        state@.arena_jobs.contains_key(evaluation_id@)
            ==> state@.arena_jobs[evaluation_id@].terminal is None),
        result is Err ==> stage is Begun || stage is Proposed,
        stage matches GenerationStage::Sourced { source: None, .. } ==> result == Ok::<
            GenerationAction,
            ExecuteError,
        >(GenerationAction::Finish(EvolutionFinishReason::NoCandidateMutation)),
        result matches Ok(GenerationAction::Finish(_)) ==> stage matches GenerationStage::Sourced {
            source: None,
            ..
        },
{
}

/// A generation's hypothesis comes from a cluster only under a strategy, and then from one that
/// suggests an operation: without Genes, the first such cluster, or, where the strategy weighs
/// costs, one that no such cluster outweighs. It comes from nowhere only where none suggests any.
pub proof fn hypotheses_come_from_suggesting_clusters(
    history: Vec<RecordedEvent>,
    run: EvolutionRunRecord,
    index: u32,
    champion: &str,
    strategy: Option<&EvolverStrategyConfig>,
    clusters: Vec<FailureCluster>,
    operation: Option<&str>,
    result: Option<HypothesisSource>,
    other: int,
)
    requires
        call_ensures(
            generation::choose_evolution_hypothesis_source,
            (&history, &run, index, champion, strategy, &clusters, operation),
            result,
        ),
        0 <= other < clusters@.len() <= u32::MAX,
    ensures
        strategy is None ==> (result matches Some(HypothesisSource::Operator(_))),
        result matches Some(HypothesisSource::Analysis { cluster_index, .. }) ==> {
            let chosen = clusters@[cluster_index as int];
            let rival = clusters@[other];
            &&& strategy is Some
            &&& cluster_index < clusters@.len()
            &&& chosen.suggested_mutation matches Some(SuggestedMutation::ReferenceOperation { .. })
            &&& strategy->0.gene_selection == GeneSelectionPolicy::Disabled && (
            rival.suggested_mutation matches Some(SuggestedMutation::ReferenceOperation { .. })) ==> {
                &&& strategy->0.mutation_prioritization == MutationPrioritization::Fifo
                    ==> cluster_index <= other
                &&& strategy->0.mutation_prioritization == MutationPrioritization::CostWeighted
                    ==> chosen.total_count >= rival.total_count
            }
        },
        strategy is Some && !(result matches Some(HypothesisSource::Analysis { .. })) ==> !(
        clusters@[other].suggested_mutation matches Some(
            SuggestedMutation::ReferenceOperation { .. },
        )),
        strategy is Some && (result matches Some(HypothesisSource::Operator(_))) ==> (
        operation matches Some(known) && (known@ == "identity"@ || known@ == "ascii_uppercase"@)),
        result is None ==> !(operation matches Some(known) && (known@ == "identity"@ || known@
            == "ascii_uppercase"@)),
{
    assert(generation::choosable(clusters@, None, other) <==> (
    clusters@[other].suggested_mutation matches Some(SuggestedMutation::ReferenceOperation { .. })));
}

/// Where a strategy has its Genes prefer an operation and some cluster suggests that operation,
/// the hypothesis comes from such a cluster.
pub proof fn hypotheses_follow_the_best_gene(
    history: Vec<RecordedEvent>,
    run: EvolutionRunRecord,
    index: u32,
    champion: &str,
    strategy: EvolverStrategyConfig,
    clusters: Vec<FailureCluster>,
    operation: &str,
    best: Option<String>,
    result: Option<HypothesisSource>,
    at: int,
)
    requires
        strategy.gene_selection == GeneSelectionPolicy::HighestTransferEffect,
        call_ensures(genes::best_gene_target_operation, (&history, operation), best),
        call_ensures(
            generation::choose_evolution_hypothesis_source,
            (&history, &run, index, champion, Some(&strategy), &clusters, Some(operation)),
            result,
        ),
        0 <= at < clusters@.len() <= u32::MAX,
        best is Some,
        clusters@[at].suggested_mutation matches Some(
            SuggestedMutation::ReferenceOperation { operation_after },
        ) && operation_after@ == best->0@,
    ensures
        result matches Some(HypothesisSource::Analysis { cluster_index, .. })
            && cluster_index < clusters@.len()
            && (clusters@[cluster_index as int].suggested_mutation matches Some(
            SuggestedMutation::ReferenceOperation { operation_after },
        ) && operation_after@ == best->0@),
{
    let found = choose|found: int| #[trigger]
        genes::is_best(history@, operation@, found) && best->0@ == genes::gene_of(
            history@[found],
        )->0.operation_after@;
    let chosen = choose|found: int| genes::is_best(history@, operation@, found);
    genes::best_is_unique(history@, operation@, found, chosen);
    assert(generation::gene_operation(history@, operation@) == Some(best->0@));
    assert(generation::choosable(clusters@, Some(best->0@), at));
}

/// A measured transfer counts towards its own Gene, with its own effect, exactly where it was
/// positive; nothing else does.
pub proof fn only_positive_transfers_count(
    history: Seq<RecordedEvent>,
    event: RecordedEvent,
    gene_id: Seq<char>,
)
    ensures
        genes::positive_count(Seq::empty(), gene_id) == 0,
        genes::positive_total(Seq::empty(), gene_id) == 0,
        (event.payload matches EventPayload::GeneTransferRecorded(transfer) && transfer.gene_id@
            == gene_id && transfer.outcome == GeneTransferOutcome::Positive) ==> {
            &&& genes::positive_count(history.push(event), gene_id) == genes::positive_count(
                history,
                gene_id,
            ) + 1
            &&& genes::positive_total(history.push(event), gene_id) == genes::positive_total(
                history,
                gene_id,
            ) + event.payload->GeneTransferRecorded_0.estimate_bps
        },
        !(event.payload matches EventPayload::GeneTransferRecorded(transfer) && transfer.gene_id@
            == gene_id && transfer.outcome == GeneTransferOutcome::Positive) ==> {
            &&& genes::positive_count(history.push(event), gene_id) == genes::positive_count(
                history,
                gene_id,
            )
            &&& genes::positive_total(history.push(event), gene_id) == genes::positive_total(
                history,
                gene_id,
            )
        },
{
    assert(history.push(event).drop_last() == history);
    assert(history.push(event).last() == event);
}

/// The operation that a Gene prefers is what some extracted Gene changes the current operation
/// to, one that has helped, and whose mean effect no other such Gene exceeds; of Genes with the
/// same mean effect it is the one with the lesser identity.
pub proof fn preferred_operations_come_from_the_best_gene(
    history: Vec<RecordedEvent>,
    operation: &str,
    result: Option<String>,
    rival: int,
)
    requires
        call_ensures(genes::best_gene_target_operation, (&history, operation), result),
    ensures
        result matches Some(target) ==> exists|at: int|
            {
                let gene = (#[trigger] history@[at]).payload->GeneExtracted_0;
                let other = history@[rival].payload->GeneExtracted_0;
                &&& 0 <= at < history@.len()
                &&& history@[at].payload is GeneExtracted
                &&& gene.operation_before@ == operation@
                &&& gene.operation_after@ == target@
                &&& genes::positive_count(history@, gene.gene_id@) > 0
                &&& 0 <= rival < history@.len() && history@[rival].payload is GeneExtracted
                    && other.operation_before@ == operation@ && genes::positive_count(
                    history@,
                    other.gene_id@,
                ) > 0 ==> genes::positive_total(history@, gene.gene_id@) * genes::positive_count(
                    history@,
                    other.gene_id@,
                ) >= genes::positive_total(history@, other.gene_id@) * genes::positive_count(
                    history@,
                    gene.gene_id@,
                )
                &&& 0 <= rival < history@.len() && history@[rival].payload is GeneExtracted
                    && other.operation_before@ == operation@ && genes::positive_count(
                    history@,
                    other.gene_id@,
                ) > 0 && genes::positive_total(history@, gene.gene_id@) * genes::positive_count(
                    history@,
                    other.gene_id@,
                ) == genes::positive_total(history@, other.gene_id@) * genes::positive_count(
                    history@,
                    gene.gene_id@,
                ) ==> !text::precedes(other.gene_id@, gene.gene_id@)
            },
        result is None && 0 <= rival < history@.len() && history@[rival].payload is GeneExtracted
            ==> !(history@[rival].payload->GeneExtracted_0.operation_before@ == operation@
            && genes::positive_count(
            history@,
            history@[rival].payload->GeneExtracted_0.gene_id@,
        ) > 0),
{
    if let Some(target) = result {
        let at = choose|at: int| #[trigger]
            genes::is_best(history@, operation@, at) && target@ == genes::gene_of(
                history@[at],
            )->0.operation_after@;
        assert(genes::eligible(history@, operation@, at));
        if genes::eligible(history@, operation@, rival) && rival != at {
            assert(genes::preferred(history@, at, rival));
            let a = genes::gene_of(history@[at])->0.gene_id@;
            let b = genes::gene_of(history@[rival])->0.gene_id@;
            let ta = genes::positive_total(history@, a);
            let ca = genes::positive_count(history@, a) as int;
            let tb = genes::positive_total(history@, b);
            let cb = genes::positive_count(history@, b) as int;
            assert(ta * cb >= tb * ca);
            if text::precedes(a, b) && text::precedes(b, a) {
                text::precedes_transitive(a, b, a);
            }
        }
        text::precedes_irreflexive(genes::gene_of(history@[at])->0.gene_id@);
        assert(history@[at].payload is GeneExtracted);
    }
    if result is None {
        assert(genes::no_gene_helps(history@, operation@));
        assert(!genes::eligible(history@, operation@, rival));
    }
}

/// A started evolution run is the one that was asked for, over a registered World and a Genome of
/// that World, with another Genome of that World as its baseline; it seeds a Champion exactly
/// where the World has none, with the Genome that it starts from, and it goes against no standing
/// Champion.
pub proof fn runs_start_as_asked(
    facts: EvolutionFacts,
    registry: Registry,
    command: Command,
    result: Result<EvolutionOpening, ExecuteError>,
)
    requires
        registry.wf(),
        call_ensures(evolution::evolve_start, (facts, &registry, command), result),
        result matches Ok(EvolutionOpening::Start { .. }),
    ensures
        command matches Command::EvolveStart {
            run_id,
            world_id,
            from_genome_id,
            generations,
            budget,
            strategy_id,
        } && (result matches Ok(EvolutionOpening::Start { seed, payload }) && {
            &&& !facts.working
            &&& facts.existing is None
            &&& facts.active_run matches Some(active) ==> active@ == run_id@
            &&& strategy_id is Some ==> facts.strategy_registered
            &&& registry.worlds@.contains_key(world_id@)
            &&& registry.genomes@.contains_key(from_genome_id@)
            &&& registry.genomes@[from_genome_id@].record.world_id@ == world_id@
            &&& payload.run_id@ == run_id@
            &&& payload.world_id@ == world_id@
            &&& payload.from_genome_id@ == from_genome_id@
            &&& payload.max_generations == generations
            &&& payload.max_paired_trials == budget
            &&& payload.strategy_id == strategy_id
            &&& payload.baseline_genome_id@ != from_genome_id@
            &&& exists|key: Seq<char>| #[trigger]
                registry.genomes@.contains_key(key) && registry.genomes@[key].record.world_id@
                    == world_id@ && registry.genomes@[key].record.genome_id@
                    == payload.baseline_genome_id@
            &&& forall|key: Seq<char>| #[trigger]
                registry.genomes@.contains_key(key) && registry.genomes@[key].record.world_id@
                    == world_id@ && registry.genomes@[key].record.genome_id@ != from_genome_id@
                    ==> !text::precedes(
                    registry.genomes@[key].record.genome_id@,
                    payload.baseline_genome_id@,
                )
            &&& seed is None <==> facts.champion is Some
            &&& facts.champion matches Some(champion) ==> champion@ == from_genome_id@
            &&& seed matches Some((_, request)) ==> (request matches ChampionRequest::Seed {
                world_id: world,
                genome_id,
                ..
            } && world@ == world_id@ && genome_id@ == from_genome_id@)
        }),
{
    let payload = result->Ok_0->payload;
    let world_id = payload.world_id@;
    let from = payload.from_genome_id@;
    assert(evolution::is_baseline(registry, world_id, from, payload.baseline_genome_id@));
    let key = choose|key: Seq<char>| #[trigger]
        registry.genomes@.contains_key(key) && evolution::is_peer(
            registry.genomes@[key],
            world_id,
            from,
        ) && registry.genomes@[key].record.genome_id@ == payload.baseline_genome_id@;
    assert(registry.genomes@.contains_key(key));
    assert forall|key: Seq<char>| #[trigger]
        registry.genomes@.contains_key(key) && registry.genomes@[key].record.world_id@ == world_id
            && registry.genomes@[key].record.genome_id@ != from implies !text::precedes(
        registry.genomes@[key].record.genome_id@,
        payload.baseline_genome_id@,
    ) by {
        assert(evolution::is_peer(registry.genomes@[key], world_id, from));
    }
}

/// Asking for a recorded run again gives that run, and only where it was started the same way.
pub proof fn recorded_runs_are_answered(
    facts: EvolutionFacts,
    registry: Registry,
    command: Command,
    result: Result<EvolutionOpening, ExecuteError>,
)
    requires
        registry.wf(),
        call_ensures(evolution::evolve_start, (facts, &registry, command), result),
        facts.existing is Some,
    ensures
        !(result matches Ok(EvolutionOpening::Start { .. })),
        result matches Ok(EvolutionOpening::Existing(run)) ==> facts.existing == Some(run) && (
        command matches Command::EvolveStart {
            world_id,
            from_genome_id,
            generations,
            budget,
            strategy_id,
            ..
        } && run.world_id@ == world_id@ && run.from_genome_id@ == from_genome_id@
            && run.max_generations == generations && run.max_paired_trials == budget && (
        run.strategy_id is Some == strategy_id is Some) && (run.strategy_id matches Some(held)
            ==> held@ == strategy_id->0@)),
{
}

/// A tick begins a generation only of a running run on a free and unfrozen daemon, and only while
/// fewer generations than allowed are recorded and the budget holds two more trials; a requested
/// cancellation is served before either limit is looked at.
pub proof fn ticks_keep_the_limits_of_a_run(
    working: bool,
    frozen: bool,
    run: EvolutionRunRecord,
    result: EvolutionTick,
)
    requires
        call_ensures(evolution::advance_evolution, (working, frozen, Some(&run)), result),
    ensures
        working || frozen || run.state == EvolutionRunState::Finished ==> result
            == EvolutionTick::Idle,
        !working && !frozen && run.state == EvolutionRunState::Running && run.cancel_requested
            ==> result == EvolutionTick::Finish(EvolutionFinishReason::Cancelled),
        result matches EvolutionTick::Generation(index) ==> {
            &&& index == run.generations@.len()
            &&& run.generations@.len() < run.max_generations
            &&& !run.cancel_requested
            &&& run.max_paired_trials < u64::MAX ==> run.trials_consumed + 2
                <= run.max_paired_trials
        },
        result == EvolutionTick::Finish(EvolutionFinishReason::GenerationsExhausted)
            ==> run.generations@.len() >= run.max_generations,
        result == EvolutionTick::Finish(EvolutionFinishReason::BudgetExhausted)
            ==> run.trials_consumed + 2 > run.max_paired_trials && run.generations@.len()
            < run.max_generations,
        result == EvolutionTick::Finish(EvolutionFinishReason::Cancelled) ==> run.cancel_requested,
        !(result == EvolutionTick::Finish(EvolutionFinishReason::Interrupted)),
        !(result == EvolutionTick::Finish(EvolutionFinishReason::NoCandidateMutation)),
        !working && !frozen && run.state == EvolutionRunState::Running && run.generations@.len()
            <= u32::MAX ==> !(result is Idle),
{
}

/// Without an active run a tick does nothing.
pub proof fn ticks_need_a_run(working: bool, frozen: bool, result: EvolutionTick)
    requires
        call_ensures(evolution::advance_evolution, (working, frozen, None), result),
    ensures
        result == EvolutionTick::Idle,
{
}

/// A failed step of a generation interrupts its run, a busy daemon does not, and a step that
/// succeeded goes on.
pub proof fn failed_generations_interrupt(
    outcome: Result<(), ExecuteError>,
    result: Option<EvolutionFinishReason>,
)
    requires
        call_ensures(evolution::settle_generation, (&outcome,), result),
    ensures
        outcome is Ok ==> result is None,
        outcome == Err::<(), ExecuteError>(ExecuteError::Busy) ==> result is None,
        outcome is Err && !(outcome->Err_0 is Busy) ==> result == Some(
            EvolutionFinishReason::Interrupted,
        ),
{
}

/// Finishing a run records what it has done, once.
pub proof fn finishing_records_what_was_done(
    run: EvolutionRunRecord,
    reason: EvolutionFinishReason,
    result: Result<Option<EvolutionFinishedPayload>, ExecuteError>,
)
    requires
        call_ensures(evolution::finish_evolution_run, (&run, reason), result),
    ensures
        result matches Ok(Some(payload)) ==> run.state == EvolutionRunState::Running
            && payload.run_id@ == run.run_id@ && payload.generations_completed
            == run.generations@.len() && payload.trials_consumed == run.trials_consumed
            && payload.reason == reason,
        run.state == EvolutionRunState::Finished ==> result == Ok::<
            Option<EvolutionFinishedPayload>,
            ExecuteError,
        >(None),
        run.state == EvolutionRunState::Running && run.generations@.len() <= u32::MAX ==> (
        result matches Ok(Some(_))),
{
}

/// A cancellation is recorded once, for the run that was named, and never of a finished one.
pub proof fn cancellations_are_recorded_once(
    run: Option<EvolutionRunRecord>,
    result: Result<EvolutionCancellation, ExecuteError>,
)
    requires
        call_ensures(evolution::evolve_cancel, (run,), result),
    ensures
        run is None ==> result is Err,
        run matches Some(run) ==> {
            &&& result is Ok
            &&& (result matches Ok(EvolutionCancellation::Cancel(payload)) ==> payload.run_id
                == run.run_id)
            &&& (result matches Ok(EvolutionCancellation::Cancel(_))) <==> (run.state
                == EvolutionRunState::Running && !run.cancel_requested)
            &&& result matches Ok(EvolutionCancellation::Settled(settled)) ==> settled == run
        },
{
}

/// The cluster that is chosen suggests an operation, the wanted one where one is wanted. No
/// other such cluster counts more failures where the choice is weighted, and none stands before
/// it where it is not; of clusters that count equally many the one with the lesser signature is
/// chosen. One is chosen wherever one can be.
pub proof fn clusters_are_chosen_by_weight(
    clusters: Vec<FailureCluster>,
    weighted: bool,
    wanted: Option<&str>,
    result: Option<u32>,
    other: int,
)
    requires
        call_ensures(generation::first_cluster, (&clusters, weighted, wanted), result),
    ensures
        result matches Some(at) ==> at < clusters@.len() && (
        clusters@[at as int].suggested_mutation matches Some(
            SuggestedMutation::ReferenceOperation { operation_after },
        ) && (wanted matches Some(operation) ==> operation_after@ == operation@)),
        0 <= other < clusters@.len() && other <= u32::MAX && (
        clusters@[other].suggested_mutation matches Some(
            SuggestedMutation::ReferenceOperation { operation_after },
        ) && (wanted matches Some(operation) ==> operation_after@ == operation@)) ==> result
            is Some && (weighted ==> clusters@[result->0 as int].total_count
            >= clusters@[other].total_count) && (weighted && clusters@[result->0 as int].total_count
            == clusters@[other].total_count ==> !text::precedes(
            clusters@[other].signature@,
            clusters@[result->0 as int].signature@,
        )) && (!weighted ==> result->0 <= other),
{
    let asked = json::said(wanted);
    if 0 <= other < clusters@.len() && other <= u32::MAX && generation::suggestion(clusters@[other])
        is Some && (asked is Some ==> generation::suggestion(clusters@[other]) == asked) {
        assert(generation::choosable(clusters@, asked, other));
        text::precedes_irreflexive(clusters@[other].signature@);
        if result is Some && result->0 != other {
            let chosen = clusters@[result->0 as int].signature@;
            if text::precedes(chosen, clusters@[other].signature@) && text::precedes(
                clusters@[other].signature@,
                chosen,
            ) {
                text::precedes_transitive(chosen, clusters@[other].signature@, chosen);
                text::precedes_irreflexive(chosen);
            }
            assert(generation::first_choice(clusters@, weighted, asked, result->0 as int));
            assert(generation::comes_before(clusters@, weighted, result->0 as int, other));
        }
    }
}

/// Every part of a generation goes under the identity that the run and the generation give it:
/// its diagnosis, its proposal, the evaluation and the assessment of its child and its
/// promotion; the record names the same parts.
pub proof fn generations_name_their_own_parts(
    state: ControlState,
    run: EvolutionRunRecord,
    run_id: &str,
    index: u32,
    stage: GenerationStage,
    result: Result<GenerationAction, ExecuteError>,
    diagnostic: String,
    child: String,
    proposal: String,
    assessment: String,
    promotion: String,
)
    requires
        state.wf(),
        run_id@ == run.run_id@,
        call_ensures(
            generation::advance_evolution_generation,
            (&state, &run, index, stage),
            result,
        ),
        call_ensures(ids::evolution_diagnostic_evaluation_id, (run_id, index), diagnostic),
        call_ensures(ids::evolution_child_evaluation_id, (run_id, index), child),
        call_ensures(ids::evolution_proposal_id, (run_id, index), proposal),
        call_ensures(ids::evolution_assessment_id, (run_id, index), assessment),
        call_ensures(ids::evolution_promotion_transition_id, (run_id, index), promotion),
    ensures
        result matches Ok(GenerationAction::Record(payload)) ==> payload.schema_version == 1
            && payload.diagnostic_evaluation_id@ == diagnostic@ && payload.proposal_id@
            == proposal@ && payload.child_evaluation_id@ == child@ && payload.assessment_id@
            == assessment@,
        result matches Ok(GenerationAction::Evaluate { evaluation_id, .. }) ==> evaluation_id@
            == (if stage is Begun {
            diagnostic@
        } else {
            child@
        }),
        result matches Ok(GenerationAction::Select { evaluation_id }) ==> evaluation_id@
            == (if stage is Begun {
            diagnostic@
        } else {
            child@
        }),
        result matches Ok(GenerationAction::ChooseSource { evaluation_id, .. }) ==> evaluation_id@
            == diagnostic@,
        result matches Ok(GenerationAction::Propose { proposal_id, .. }) ==> proposal_id@
            == proposal@,
        result matches Ok(GenerationAction::CheckInvariants { evaluation_id }) ==> evaluation_id@
            == child@,
        result matches Ok(GenerationAction::Assess { assessment_id, proposal_id, .. })
            ==> assessment_id@ == assessment@ && proposal_id@ == proposal@,
        result matches Ok(GenerationAction::Promote { transition_id, request }) ==> transition_id@
            == promotion@ && (request matches ChampionRequest::Promote { assessment_id }
            && assessment_id@ == assessment@),
{
}

} // verus!
