//! What runs, their answers and their registrations hold, said of inputs and results alone.

use crate::arena_submit;
use crate::arena_submit::{PairBinding, PairBudgets, PairOpening};
use crate::digest;
use crate::error::ExecuteError;
use crate::hex;
use crate::ids;
use crate::job_submit;
use crate::protocol::{
    ArenaJobPhase, ForgeAnalysisRecord, InvariantRecord, JobRecord, JobState, RemoteCompletion, ResponseData,
    SelectionEventRecord, SelectionRecord,
};
use crate::records::{
    ArenaJobRecord, EventEnvelope, GenomeRecord, RunBudgetReceipt, RunCompletionReason,
    SelectionReceipt, WorldRecord,
};
use crate::registry::{GenomeEntry, Registry, WorldEntry};
use crate::runs;
use crate::runs::{
    ArenaFault, EvaluationRequest, OperatorEvaluation, ReferenceExecution, Registration, RunContext,
    RunIdentity,
};
use crate::state::{ControlState, EventPayload, RecordedEvent};
use crate::text;
use vstd::prelude::*;
use vstd::utf8::*;

verus! {

/// A reference run is one of the named Genome, in that Genome's World, and it spends nothing
/// unless an external provider runs it, and then no more than its World allows.
pub proof fn reference_runs_are_of_their_genome(
    state: ControlState,
    genome_id: &str,
    context: RunContext,
)
    requires
        state.wf(),
        call_ensures(
            runs::run_reference,
            (&state, genome_id),
            Ok::<RunContext, ExecuteError>(context),
        ),
    ensures
        !state@.frozen,
        state.registered.genomes@.contains_key(genome_id@),
        ({
            let genome = state.registered.genomes@[genome_id@];
            let external = text::texts(state.registered.providers@).contains(
                genome.model_provider@,
            );
            &&& context.genome_id == genome.record.genome_id
            &&& context.world_id == genome.record.world_id
            &&& context.seed == 0 && context.task_id@ == "repository-inventory-v1"@
            &&& context.wall_millis == 10_000 && context.maximum_output_bytes == 1_048_576
            &&& !external ==> context.maximum_cost_microusd == 0
            &&& external ==> context.maximum_cost_microusd
                == state.registered.worlds@[genome.record.world_id@].maximum_cost_microusd
        }),
{
}

/// An evaluation run is one of the named Genome, in that Genome's World, with the task, the
/// input, the seed and the limits that were asked for, and it may not spend more than its World
/// allows.
pub proof fn evaluation_runs_are_as_requested(
    state: ControlState,
    genome_id: &str,
    request: EvaluationRequest,
    result: Result<RunContext, ExecuteError>,
)
    requires
        state.wf(),
        call_ensures(runs::run_evaluation, (&state, genome_id, request), result),
    ensures
        result is Ok <==> {
            let genome = state.registered.genomes@[genome_id@];
            &&& !state@.frozen && state.registered.genomes@.contains_key(genome_id@)
            &&& state.registered.worlds@.contains_key(genome.record.world_id@)
            &&& request.maximum_cost_microusd
                <= state.registered.worlds@[genome.record.world_id@].maximum_cost_microusd
        },
        result matches Ok(context) ==> {
            let genome = state.registered.genomes@[genome_id@];
            &&& context.genome_id == genome.record.genome_id
            &&& context.world_id == genome.record.world_id
            &&& context.task_id == request.task_id && context.prompt == request.input
            &&& context.seed == request.seed && context.wall_millis == request.wall_millis
            &&& context.maximum_output_bytes == request.maximum_output_bytes
            &&& context.maximum_cost_microusd == request.maximum_cost_microusd
        },
{
}

/// A Genome runs with the provider that it names, and with none where it names none of the
/// external ones.
pub proof fn genomes_run_with_their_provider(
    registry: Registry,
    genome_id: &str,
    result: Result<Option<usize>, ExecuteError>,
)
    requires
        registry.wf(),
        call_ensures(runs::selected_run_provider, (&registry, genome_id), result),
    ensures
        result is Ok <==> registry.genomes@.contains_key(genome_id@),
        result matches Ok(Some(place)) ==> place < registry.providers@.len()
            && registry.providers@[place as int]@ == registry.genomes@[genome_id@].model_provider@,
        result is Ok && result->Ok_0 is None ==> !text::texts(registry.providers@).contains(
            registry.genomes@[genome_id@].model_provider@,
        ),
{
}

/// A remote worker's output becomes that of the run, which succeeded if and only if the worker
/// says so and which cost nothing.
pub proof fn remote_outputs_are_kept(
    completion: RemoteCompletion,
    latency_millis: u64,
    output: Vec<u8>,
    result: ReferenceExecution,
)
    requires
        call_ensures(runs::remote_execution, (completion, latency_millis, output), result),
    ensures
        result.stdout == output && result.latency_millis == latency_millis,
        result.completion_reason == RunCompletionReason::Success <==> completion
            == RemoteCompletion::Success,
        result.completion_reason == RunCompletionReason::ProviderFailure <==> completion
            == RemoteCompletion::ProviderFailure,
        result.stderr@.len() == 0 && result.trace_artifact_ids@.len() == 0,
        result.actual_cost_microusd == 0,
{
}

/// The answer of a run is that run's: of its Genome and World, with the reason, the time, the
/// cost and the traces of its execution, and with its output and its diagnostics each under its
/// own address.
pub proof fn answers_tell_their_own_run(
    run_id: &str,
    genome: GenomeRecord,
    source_revision: &str,
    output: ReferenceExecution,
    stdout_artifact_id: String,
    stderr_artifact_id: String,
    response: ResponseData,
)
    requires
        call_ensures(
            runs::persist_reference_output,
            (run_id, &genome, source_revision, output, stdout_artifact_id, stderr_artifact_id),
            response,
        ),
    ensures
        response is Run,
        response->Run_run_id@ == run_id@,
        response->Run_genome_id == genome.genome_id && response->Run_world_id == genome.world_id,
        response->Run_source_revision@ == source_revision@,
        response->Run_completion_reason == output.completion_reason,
        response->Run_latency_millis == output.latency_millis,
        response->actual_cost_microusd == output.actual_cost_microusd,
        response->Run_stdout_artifact_id == stdout_artifact_id,
        response->Run_stderr_artifact_id == stderr_artifact_id,
        response->Run_trace_artifact_ids == output.trace_artifact_ids,
{
}

/// A run is answered only where it executed, its sandbox was removed and its worker stayed the
/// pinned one.
pub proof fn runs_settle_after_cleanup(
    cleaned: Result<(), ExecuteError>,
    execution: Result<ResponseData, ExecuteError>,
    worker: Result<(), ExecuteError>,
    result: Result<ResponseData, ExecuteError>,
)
    requires
        call_ensures(runs::settle_run, (cleaned, execution, worker), result),
    ensures
        result is Ok <==> cleaned is Ok && execution is Ok && worker is Ok,
        result is Ok ==> result == execution,
{
}

/// A result is recorded only of the very run that was carried out.
pub proof fn results_are_of_their_run(
    identity: RunIdentity<'_>,
    response: ResponseData,
    result: Result<(), ExecuteError>,
)
    requires
        call_ensures(runs::append_run_result, (&identity, &response), result),
    ensures
        result is Ok <==> response is Run && response->Run_run_id@ == identity.run_id@
            && response->Run_genome_id@ == identity.genome_id@ && response->Run_world_id@
            == identity.world_id@ && response->Run_source_revision@ == identity.source_revision@,
{
}

/// Whether an event of a history records a trace of a run.
pub open spec fn traces_run(recorded: RecordedEvent, run_id: Seq<char>) -> bool {
    &&& recorded.event.event_type@ == "trace.recorded"@
    &&& recorded.payload matches EventPayload::Trace(receipt, _) && receipt.run_id@ == run_id
}

/// The traces of a run are those that the history records of it.
proof fn traces_stand_in_history(
    history: Seq<RecordedEvent>,
    run_id: Seq<char>,
    artifact_id: Seq<char>,
)
    ensures
        runs::traces_of(history, run_id) matches Some(found) ==> (found.contains(artifact_id)
            <==> exists|at: int|
            0 <= at < history.len() && #[trigger] traces_run(history[at], run_id) && (
            history[at].payload->Trace_0).artifact_id@ == artifact_id),
    decreases history.len(),
{
    if history.len() > 0 {
        let earlier = history.drop_last();
        traces_stand_in_history(earlier, run_id, artifact_id);
        if runs::traces_of(history, run_id) is Some {
            let found = runs::traces_of(history, run_id)->0;
            let before = runs::traces_of(earlier, run_id)->0;
            let end = history.len() - 1;
            if found.contains(artifact_id) {
                let at = choose|at: int| 0 <= at < found.len() && found[at] == artifact_id;
                if traces_run(history[end], run_id) && at == before.len() {
                    assert(traces_run(history[end], run_id));
                } else {
                    assert(before[at] == artifact_id);
                    let place = choose|place: int|
                        0 <= place < earlier.len() && #[trigger] traces_run(earlier[place], run_id)
                            && (earlier[place].payload->Trace_0).artifact_id@ == artifact_id;
                    assert(traces_run(history[place], run_id));
                }
            }
            if exists|at: int|
                0 <= at < history.len() && #[trigger] traces_run(history[at], run_id) && (
                history[at].payload->Trace_0).artifact_id@ == artifact_id {
                let at = choose|at: int|
                    0 <= at < history.len() && #[trigger] traces_run(history[at], run_id) && (
                    history[at].payload->Trace_0).artifact_id@ == artifact_id;
                if at < end {
                    assert(traces_run(earlier[at], run_id));
                    let place = choose|place: int|
                        0 <= place < before.len() && before[place] == artifact_id;
                    assert(found[place] == artifact_id);
                } else {
                    assert(found[before.len() as int] == artifact_id);
                }
            }
        }
    }
}

/// The traces that are listed for a run are those that history records of that run, all of them
/// and no other's.
pub proof fn traces_are_of_their_run(
    history: Vec<RecordedEvent>,
    run_id: &str,
    found: Vec<String>,
    artifact_id: Seq<char>,
)
    requires
        call_ensures(
            runs::trace_artifacts_for_run,
            (&history, run_id),
            Ok::<Vec<String>, ExecuteError>(found),
        ),
    ensures
        text::texts(found@).contains(artifact_id) <==> exists|at: int|
            0 <= at < history@.len() && #[trigger] traces_run(history@[at], run_id@) && (
            history@[at].payload->Trace_0).artifact_id@ == artifact_id,
{
    traces_stand_in_history(history@, run_id@, artifact_id);
}

/// A selection is shown with the receipt and the event that selecting gave, in the World of the
/// evaluation that was selected over, which has to be registered.
pub proof fn selections_show_what_was_selected(
    registry: Registry,
    evaluation_id: &str,
    operator: Result<OperatorEvaluation, ArenaFault>,
    selected: Option<Result<(SelectionReceipt, SelectionEventRecord), ArenaFault>>,
    record: SelectionRecord,
)
    requires
        registry.wf(),
        call_ensures(
            runs::select_arena_evaluation,
            (&registry, evaluation_id, operator, selected),
            Ok::<SelectionRecord, ExecuteError>(record),
        ),
    ensures
        operator is Ok && registry.worlds@.contains_key(operator->Ok_0.world_id@),
        record.world_id@ == operator->Ok_0.world_id@,
        selected == Some(
            Ok::<(SelectionReceipt, SelectionEventRecord), ArenaFault>(
                (record.receipt, record.event),
            ),
        ),
        record.evaluation_id == record.receipt.evaluation_id,
{
}

/// Invariants are checked once: a check that is on record is shown, and one is made only where
/// none is.
pub proof fn invariants_are_checked_once(
    registry: Registry,
    evaluation_id: &str,
    operator: Result<OperatorEvaluation, ArenaFault>,
    loaded: Result<InvariantRecord, ArenaFault>,
    checked: Option<Result<InvariantRecord, ArenaFault>>,
    record: InvariantRecord,
)
    requires
        registry.wf(),
        call_ensures(
            runs::check_arena_invariants,
            (&registry, evaluation_id, operator, loaded, checked),
            Ok::<InvariantRecord, ExecuteError>(record),
        ),
    ensures
        operator is Ok && registry.worlds@.contains_key(operator->Ok_0.world_id@),
        loaded is Ok ==> loaded == Ok::<InvariantRecord, ArenaFault>(record),
        loaded is Err ==> loaded->Err_0 is UnknownInvariantCheck && checked == Some(
            Ok::<InvariantRecord, ArenaFault>(record),
        ),
{
}

/// Clusters are analysed once: an analysis that is on record is shown, and one is made only
/// where none is.
pub proof fn clusters_are_analysed_once(
    registry: Registry,
    analysis_id: &str,
    evaluation_id: &str,
    operator: Result<OperatorEvaluation, ArenaFault>,
    loaded: Result<ForgeAnalysisRecord, ArenaFault>,
    checked: Option<Result<ForgeAnalysisRecord, ArenaFault>>,
    record: ForgeAnalysisRecord,
)
    requires
        registry.wf(),
        call_ensures(
            runs::analyze_forge_clusters,
            (&registry, analysis_id, evaluation_id, operator, loaded, checked),
            Ok::<ForgeAnalysisRecord, ExecuteError>(record),
        ),
    ensures
        operator is Ok && registry.worlds@.contains_key(operator->Ok_0.world_id@),
        loaded is Ok ==> loaded == Ok::<ForgeAnalysisRecord, ArenaFault>(record),
        loaded is Err ==> loaded->Err_0 is UnknownClusterAnalysis && checked == Some(
            Ok::<ForgeAnalysisRecord, ArenaFault>(record),
        ),
{
}

/// What is unknown is not found, whichever reading meets it.
pub proof fn unknown_evaluations_are_not_found(
    selecting: ExecuteError,
    checking: ExecuteError,
    clustering: ExecuteError,
)
    requires
        call_ensures(runs::map_selection_error, (&ArenaFault::UnknownEvaluation,), selecting),
        call_ensures(runs::map_invariant_error, (ArenaFault::UnknownEvaluation,), checking),
        call_ensures(runs::map_cluster_error, (ArenaFault::UnknownEvaluation,), clustering),
    ensures
        selecting == ExecuteError::NotFound && checking == ExecuteError::NotFound && clustering
            == ExecuteError::NotFound,
{
}

/// A World is registered once, and only where its verifier, if it names one, is this daemon's
/// own key.
pub proof fn worlds_are_registered_once(
    registry: Registry,
    world_id: &str,
    verifier: Option<Option<&[u8]>>,
    public_key: [u8; 32],
    result: Result<Registration<WorldRecord>, ExecuteError>,
)
    requires
        registry.wf(),
        call_ensures(runs::register_world, (&registry, world_id, verifier, &public_key), result),
    ensures
        result is Ok && result->Ok_0 is Register <==> !registry.worlds@.contains_key(world_id@)
            && (verifier matches Some(named) ==> named is Some && named->0@ == public_key@),
        result matches Ok(Registration::Existing(record)) ==> registry.worlds@.contains_key(
            world_id@,
        ) && record == registry.worlds@[world_id@].record,
        registry.worlds@.contains_key(world_id@) ==> result is Ok,
{
}

/// A Genome is registered once, in one World.
pub proof fn genomes_are_registered_once(
    registry: Registry,
    genome_id: &str,
    world_id: &str,
    result: Result<Registration<GenomeRecord>, ExecuteError>,
)
    requires
        registry.wf(),
        call_ensures(runs::register_genome, (&registry, genome_id, world_id), result),
    ensures
        result is Ok && result->Ok_0 is Register <==> !registry.genomes@.contains_key(genome_id@),
        result matches Ok(Registration::Existing(record)) ==> registry.genomes@.contains_key(
            genome_id@,
        ) && record@ == registry.genomes@[genome_id@].record@
            && registry.genomes@[genome_id@].record.world_id@ == world_id@,
        result is Err <==> registry.genomes@.contains_key(genome_id@)
            && registry.genomes@[genome_id@].record.world_id@ != world_id@,
{
}

/// Registrations are recorded under what they register.
pub proof fn registrations_stand_under_their_identity(
    id: &str,
    world: EventEnvelope,
    genome: EventEnvelope,
)
    requires
        call_ensures(runs::world_envelope, (id,), world),
        call_ensures(runs::genome_envelope, (id,), genome),
    ensures
        world.aggregate_id@ == id@ && genome.aggregate_id@ == id@,
        world.event_type@ == "world.registered"@ && genome.event_type@ == "genome.registered"@,
        world.event_id@ == "world:"@ + id@ + ":registered"@,
        genome.event_id@ == "genome:"@ + id@ + ":registered"@,
        world.actor@ == genome.actor@,
{
}

/// The prompt of a Genome is the text of its own stored bytes.
pub proof fn prompts_are_shown_as_stored(
    genome_id: &str,
    bytes: Option<Vec<u8>>,
    response: ResponseData,
)
    requires
        call_ensures(
            runs::genome_prompt,
            (genome_id, bytes),
            Ok::<ResponseData, ExecuteError>(response),
        ),
    ensures
        response is GenomePrompt && response->GenomePrompt_genome_id@ == genome_id@,
        bytes is Some && encode_utf8(response->GenomePrompt_prompt@) == bytes->0@,
        bytes->0@.len() <= 1_048_576,
{
    decode_utf8_encode_utf8(bytes->0@);
}

/// The verifier that is shown is the daemon's own key under its address.
pub proof fn verifiers_show_their_key(
    artifact_id: String,
    public_key: [u8; 32],
    response: ResponseData,
)
    requires
        call_ensures(runs::verifier_show, (artifact_id, &public_key), response),
    ensures
        response is Verifier && response->Verifier_artifact_id == artifact_id,
        response->public_key_hex@ == hex::hex(public_key@),
{
}

/// No Genome runs while evolution is frozen, and the one that runs is the one that was named.
pub proof fn runnable_genomes_are_the_named_ones(
    state: ControlState,
    genome_id: &str,
    result: Result<&GenomeEntry, ExecuteError>,
)
    requires
        state.wf(),
        call_ensures(arena_submit::runnable_genome, (&state, genome_id), result),
    ensures
        result is Ok <==> !state@.frozen && state.registered.genomes@.contains_key(genome_id@),
        result matches Ok(genome) ==> *genome == state.registered.genomes@[genome_id@],
{
}

/// Two Genomes are paired in the one World that both are registered in. A pair is begun once;
/// its identity stays with its parent and its candidate, in that order.
pub proof fn pairs_are_of_two_genomes_of_one_world(
    state: ControlState,
    occupied: bool,
    evaluation_id: &str,
    parent_genome_id: &str,
    candidate_genome_id: &str,
    result: Result<PairOpening, ExecuteError>,
)
    requires
        state.wf(),
        call_ensures(
            arena_submit::open_pair,
            (&state, occupied, evaluation_id, parent_genome_id, candidate_genome_id),
            result,
        ),
    ensures
        result matches Ok(PairOpening::Fresh(world_id)) ==> {
            let genomes = state.registered.genomes@;
            &&& !occupied && !state@.frozen && !state@.arena_jobs.contains_key(evaluation_id@)
            &&& parent_genome_id@ != candidate_genome_id@
            &&& genomes.contains_key(parent_genome_id@) && genomes.contains_key(
                candidate_genome_id@,
            )
            &&& genomes[parent_genome_id@].record.world_id@ == world_id@
            &&& genomes[candidate_genome_id@].record.world_id@ == world_id@
        },
        result matches Ok(PairOpening::Existing(response)) ==> {
            let job = state@.arena_jobs[evaluation_id@];
            &&& state@.arena_jobs.contains_key(evaluation_id@)
            &&& job.parent_genome_id@ == parent_genome_id@
            &&& job.candidate_genome_id@ == candidate_genome_id@
            &&& response is ArenaJob
        },
{
}

/// The tasks of a pair run once for each of its sides, each trial for ten seconds at most, and
/// all of them together for no longer than their trials may take and one trial more. A requested
/// limit can only lower that. Where nothing is spent, nothing may be spent.
pub proof fn budgets_cover_every_trial(
    world: WorldEntry,
    spends: bool,
    task_count: usize,
    requested_wall: Option<&str>,
    budgets: PairBudgets,
)
    requires
        call_ensures(
            arena_submit::pair_budgets,
            (&world, spends, task_count, requested_wall),
            Ok::<PairBudgets, ExecuteError>(budgets),
        ),
    ensures
        1 <= task_count <= 1000,
        budgets.total_trials == 2 * task_count,
        budgets.trial.wall_millis == 10_000,
        budgets.trial.maximum_output_bytes == 1_048_576,
        budgets.overall.maximum_output_bytes == budgets.total_trials
            * budgets.trial.maximum_output_bytes,
        budgets.overall.maximum_cost_microusd == budgets.total_trials
            * budgets.trial.maximum_cost_microusd,
        requested_wall is None ==> budgets.overall.wall_millis == 10_000 * (2 * task_count + 1),
        requested_wall is Some ==> 0 < budgets.overall.wall_millis <= 10_000 * (2 * task_count + 1),
        spends ==> budgets.trial.maximum_cost_microusd == world.maximum_cost_microusd,
        !spends ==> budgets.trial.maximum_cost_microusd == 0,
{
    let cost = arena_submit::trial_cost(world, spends);
    let total = 2 * task_count;
    assert(0 <= cost * total <= 1_000_000_000 * 2000) by (nonlinear_arith)
        requires
            0 <= cost <= 1_000_000_000,
            0 <= total <= 2000,
    ;
    assert(cost * total == total * cost) by (nonlinear_arith);
}

/// A candidate runs in an environment of its own only where it differs from the parent's and
/// the World permits that.
pub proof fn mixed_environments_need_permission(
    parent_environment_id: &str,
    candidate_environment_id: &str,
    allow_mixed_environments: bool,
    result: Result<Option<String>, ExecuteError>,
)
    requires
        call_ensures(
            arena_submit::pair_environments,
            (parent_environment_id, candidate_environment_id, allow_mixed_environments),
            result,
        ),
    ensures
        result is Err <==> parent_environment_id@ != candidate_environment_id@
            && !allow_mixed_environments,
        result matches Ok(Some(own)) ==> own@ == candidate_environment_id@ && own@
            != parent_environment_id@ && allow_mixed_environments,
        result is Ok && result->Ok_0 is None ==> parent_environment_id@
            == candidate_environment_id@,
{
}

/// A budget is accepted as it is asked for, within the largest that a run may have.
pub proof fn budgets_are_bounded(
    wall_millis: u64,
    maximum_output_bytes: u64,
    maximum_cost_microusd: u64,
    result: Result<RunBudgetReceipt, ExecuteError>,
)
    requires
        call_ensures(
            arena_submit::validated_evaluation_budget,
            (wall_millis, maximum_output_bytes, maximum_cost_microusd),
            result,
        ),
    ensures
        result is Ok <==> 1 <= wall_millis <= 86_400_000 && 1 <= maximum_output_bytes
            <= 67_108_864 && maximum_cost_microusd <= 1_000_000_000,
        result matches Ok(budget) ==> budget.wall_millis == wall_millis
            && budget.maximum_output_bytes == maximum_output_bytes && budget.maximum_cost_microusd
            == maximum_cost_microusd,
{
}

/// The visible tasks of a World are its visible manifest, the sealed ones its sealed manifest,
/// and its evaluator is the declared one.
pub proof fn pairs_use_the_declared_manifests(
    world: WorldEntry,
    visible: String,
    sealed: String,
    evaluator: String,
)
    requires
        call_ensures(
            arena_submit::pair_manifests,
            (&world,),
            Ok::<(String, String), ExecuteError>((visible, sealed)),
        ),
        call_ensures(
            arena_submit::pair_evaluator,
            (&world,),
            Ok::<String, ExecuteError>(evaluator),
        ),
    ensures
        world.visible_manifest == Some(visible),
        world.sealed_manifest == Some(sealed),
        world.evaluator == Some(evaluator),
{
}

/// A pair is admitted as it was bound, with none of its trials complete; its trials are as many
/// as its budgets count, and the first half of them is the parent's.
pub proof fn pairs_are_admitted_as_bound(binding: PairBinding, record: ArenaJobRecord)
    requires
        0 < binding.budgets.total_trials <= 2000,
        binding.budgets.total_trials % 2 == 0,
        call_ensures(
            arena_submit::admitted_record,
            (binding,),
            Ok::<ArenaJobRecord, ExecuteError>(record),
        ),
    ensures
        record.evaluation_id == binding.evaluation_id && record.job_id@ == binding.evaluation_id@,
        record.parent_genome_id == binding.parent_genome_id,
        record.candidate_genome_id == binding.candidate_genome_id,
        record.world_id == binding.world_id,
        record.visible_manifest_id == binding.visible_manifest_id,
        record.sealed_manifest_id == binding.sealed_manifest_id,
        record.evaluator_id == binding.evaluator_id,
        record.source_revision == binding.source_revision,
        record.environment_id == binding.environment_id,
        record.candidate_environment_id == binding.candidate_environment_id,
        record.trial_budget == binding.budgets.trial && record.overall_budget
            == binding.budgets.overall,
        record.total_trials == binding.budgets.total_trials,
        2 * record.parent_trial_count == record.total_trials,
        record.ordered_trial_run_ids@.len() == record.total_trials,
        record.completed_trials == 0 && record.state == JobState::Admitted && record.phase
            == ArenaJobPhase::Preparing,
        record.terminal is None && record.evaluation is None,
        record.receipt_timestamp_millis == binding.receipt_timestamp_millis,
        record.remote == binding.remote && record.worker_digest == binding.worker_digest,
{
}

/// A submitted job runs the very task that a direct reference run runs: the same task over the
/// same input, in the same World, within the same limits.
pub proof fn jobs_run_the_reference_task(
    state: ControlState,
    job_id: &str,
    genome_id: &str,
    source_revision: &str,
    environment_id: &str,
    cost_ceiling: u64,
    context: RunContext,
    record: JobRecord,
)
    requires
        state.wf(),
        call_ensures(
            runs::run_reference,
            (&state, genome_id),
            Ok::<RunContext, ExecuteError>(context),
        ),
        call_ensures(
            job_submit::admitted_job,
            (
                job_id,
                &state.registered.genomes@[genome_id@],
                source_revision,
                environment_id,
                cost_ceiling,
            ),
            Ok::<JobRecord, ExecuteError>(record),
        ),
    ensures
        record.genome_id == context.genome_id && record.world_id == context.world_id,
        record.task_id@ == context.task_id@ && record.seed == context.seed,
        record.input_commitment@ == hex::hex(digest::blake3_hash(encode_utf8(context.prompt@))),
        record.budget.wall_millis == context.wall_millis && record.budget.maximum_output_bytes
            == context.maximum_output_bytes,
        record.run_id@ == ids::job_run(job_id@),
{
}

/// A requested wall-clock limit is taken as it is written where it is positive and no higher
/// than the bound, and refused otherwise; without one the bound itself is taken.
pub proof fn requested_walls_only_lower_the_bound(
    maximum: u64,
    requested: &str,
    wall: u64,
    written: String,
    result: Result<u64, ()>,
    unasked: Result<u64, ()>,
)
    requires
        call_ensures(text::decimal_text, (wall,), written),
        requested@ == written@,
        call_ensures(arena_submit::test_overall_wall, (maximum, Some(requested)), result),
        call_ensures(arena_submit::test_overall_wall, (maximum, None), unasked),
    ensures
        result is Ok <==> 1 <= wall <= maximum,
        result matches Ok(taken) ==> taken == wall,
        unasked == Ok::<u64, ()>(maximum),
{
    text::written_numbers_parse(wall);
}

} // verus!
