//! Admission of a paired Arena evaluation.

use crate::arena_jobs;
use crate::commands;
use crate::error;
use crate::error::{rejected, ExecuteError, Refusal};
use crate::ids;
use crate::jobs;
use crate::json;
use crate::protocol::{ArenaJobPhase, ArenaJobProgress, JobState, JobTerminal, ResponseData};
use crate::records::{ArenaJobRecord, RunBudgetReceipt};
use crate::registry::{GenomeEntry, Registry, WorldEntry};
use crate::state::{ControlState, Projected};
use crate::text;
use vstd::prelude::*;
use vstd::string::*;

verus! {

/// Wall-clock ceiling of one trial, and of the scoring after all trials, in milliseconds.
pub const PAIRED_EVALUATION_WALL_MILLIS: u64 = 10_000;

/// Output ceiling of one trial in bytes.
pub const PAIRED_EVALUATION_OUTPUT_BYTES: u64 = 1_048_576;

/// Ceiling on the wall-clock time of any run in milliseconds.
pub const MAX_EVALUATION_WALL_MILLIS: u64 = 86_400_000;

/// Ceiling on the output of any run in bytes.
pub const MAX_EVALUATION_OUTPUT_BYTES: u64 = 67_108_864;

/// Ceiling on the cost of any run in micro-US dollars.
pub const MAX_EVALUATION_COST_MICROUSD: u64 = 1_000_000_000;

/// Most tasks that one paired evaluation runs.
pub const MAX_PAIRED_TASKS: usize = 1000;

/// Whether a budget stays within the ceilings of every run.
pub open spec fn admissible_budget(wall_millis: u64, output_bytes: u64, cost_microusd: u64) -> bool {
    &&& 0 < wall_millis <= MAX_EVALUATION_WALL_MILLIS
    &&& 0 < output_bytes <= MAX_EVALUATION_OUTPUT_BYTES
    &&& cost_microusd <= MAX_EVALUATION_COST_MICROUSD
}

/// Accepts a budget within the ceilings of every run.
pub fn validated_evaluation_budget(
    wall_millis: u64,
    maximum_output_bytes: u64,
    maximum_cost_microusd: u64,
) -> (result: Result<RunBudgetReceipt, ExecuteError>)
    ensures
        result == (if admissible_budget(wall_millis, maximum_output_bytes, maximum_cost_microusd) {
            Ok(RunBudgetReceipt { wall_millis, maximum_output_bytes, maximum_cost_microusd })
        } else {
            Err(ExecuteError::Invalid("evaluation budget is invalid"))
        }),
{
    if wall_millis == 0 || wall_millis > MAX_EVALUATION_WALL_MILLIS || maximum_output_bytes == 0
        || maximum_output_bytes > MAX_EVALUATION_OUTPUT_BYTES || maximum_cost_microusd
        > MAX_EVALUATION_COST_MICROUSD {
        return Err(ExecuteError::Invalid("evaluation budget is invalid"));
    }
    Ok(RunBudgetReceipt { wall_millis, maximum_output_bytes, maximum_cost_microusd })
}

/// Lowers a wall-clock bound to a requested one, which may not raise it.
pub fn test_overall_wall(maximum: u64, requested: Option<&str>) -> (result: Result<u64, ()>)
    ensures
        result == (match requested {
            None => Ok(maximum),
            Some(numeral) => match text::parsed_u64(numeral@) {
                Some(wall) => if 0 < wall <= maximum {
                    Ok(wall)
                } else {
                    Err(())
                },
                None => Err(()),
            },
        }),
{
    let numeral: &str = match requested {
        None => {
            return Ok(maximum);
        },
        Some(numeral) => numeral,
    };
    match text::parse_u64(numeral) {
        Some(wall) => if wall == 0 || wall > maximum {
            Err(())
        } else {
            Ok(wall)
        },
        None => Err(()),
    }
}

/// Whether a Genome may run, and which: evolution may not be frozen, and the Genome has to be
/// registered.
pub open spec fn runnable(projected: Projected, registry: Registry, genome_id: Seq<char>) -> Result<
    GenomeEntry,
    Refusal,
> {
    if projected.frozen {
        Err(Refusal::Invalid("evolution is frozen"@))
    } else if registry.genomes@.contains_key(genome_id) {
        Ok(registry.genomes@[genome_id])
    } else {
        Err(Refusal::NotFound)
    }
}

/// Hands out a Genome that may run.
pub fn runnable_genome<'a>(state: &'a ControlState, genome_id: &str) -> (result: Result<
    &'a GenomeEntry,
    ExecuteError,
>)
    requires
        state.wf(),
    ensures
        match runnable(state@, state.registered, genome_id@) {
            Ok(genome) => result matches Ok(found) && *found == genome,
            Err(refusal) => result matches Err(error) && error@ == refusal,
        },
{
    if state.frozen {
        return Err(ExecuteError::Invalid("evolution is frozen"));
    }
    match state.registered.genomes.get(genome_id) {
        Some(genome) => Ok(genome),
        None => Err(ExecuteError::NotFound),
    }
}

/// What callers see of a paired evaluation.
pub open spec fn progress(record: ArenaJobRecord) -> ArenaJobProgress {
    ArenaJobProgress {
        evaluation_id: record.evaluation_id,
        parent_genome_id: record.parent_genome_id,
        candidate_genome_id: record.candidate_genome_id,
        state: record.state,
        phase: record.phase,
        completed_trials: record.completed_trials,
        total_trials: record.total_trials,
        evaluation: record.evaluation,
    }
}

/// Answers with what callers see of a paired evaluation.
pub fn arena_job_response(record: &ArenaJobRecord) -> (result: ResponseData)
    ensures
        result == (ResponseData::ArenaJob { job: progress(*record) }),
{
    let evaluation = match &record.evaluation {
        Some(evaluation) => Some(evaluation.clone()),
        None => None,
    };
    ResponseData::ArenaJob {
        job: ArenaJobProgress {
            evaluation_id: record.evaluation_id.clone(),
            parent_genome_id: record.parent_genome_id.clone(),
            candidate_genome_id: record.candidate_genome_id.clone(),
            state: record.state,
            phase: record.phase,
            completed_trials: record.completed_trials,
            total_trials: record.total_trials,
            evaluation,
        },
    }
}

/// Whether some recorded job or paired evaluation has not ended.
pub open spec fn unfinished_work(projected: Projected) -> bool {
    ||| exists|id: Seq<char>| #[trigger]
        projected.jobs.contains_key(id) && jobs::active(projected.jobs[id].state)
    ||| exists|id: Seq<char>| #[trigger]
        projected.arena_jobs.contains_key(id) && jobs::active(projected.arena_jobs[id].state)
}

/// Tests whether some recorded job or paired evaluation has not ended.
pub fn has_unfinished_work(state: &ControlState) -> (result: bool)
    requires
        state.wf(),
    ensures
        result == unfinished_work(state@),
{
    let count: usize = state.jobs.len();
    for i in 0..count
        invariant
            state.wf(),
            count == state.jobs.keys().len(),
            forall|j: int| 0 <= j < i ==> !jobs::active(#[trigger] state.jobs.values()[j].state),
    {
        let job = state.jobs.value_at(i);
        if jobs::is_active(job.state) {
            return true;
        }
    }
    let pairs: usize = state.arena_jobs.len();
    for i in 0..pairs
        invariant
            state.wf(),
            pairs == state.arena_jobs.keys().len(),
            forall|j: int| 0 <= j < i ==> !jobs::active(#[trigger] state.arena_jobs.values()[j].state),
    {
        let job = state.arena_jobs.value_at(i);
        if jobs::is_active(job.state) {
            return true;
        }
    }
    proof {
        assert forall|id: Seq<char>| #[trigger] state@.jobs.contains_key(id) implies !jobs::active(
            state@.jobs[id].state,
        ) by {
            state.jobs.lemma_place(id);
        }
        assert forall|id: Seq<char>| #[trigger] state@.arena_jobs.contains_key(id) implies !jobs::active(
            state@.arena_jobs[id].state,
        ) by {
            state.arena_jobs.lemma_place(id);
        }
    }
    false
}

/// How a submitted pair begins.
pub enum PairOpening {
    /// The evaluation is already recorded for this pair; its progress is the answer.
    Existing(ResponseData),
    /// The evaluation is new and its pair may run in this World.
    Fresh(String),
}

/// How a submitted pair begins, or why it is refused.
pub open spec fn pair_opening(
    projected: Projected,
    registry: Registry,
    occupied: bool,
    evaluation_id: Seq<char>,
    parent_genome_id: Seq<char>,
    candidate_genome_id: Seq<char>,
) -> Result<Option<Seq<char>>, Refusal> {
    let parent = runnable(projected, registry, parent_genome_id);
    let candidate = runnable(projected, registry, candidate_genome_id);
    if !commands::job_identity(evaluation_id) {
        Err(Refusal::Invalid("job_id is invalid"@))
    } else if projected.arena_jobs.contains_key(evaluation_id) {
        if projected.arena_jobs[evaluation_id].parent_genome_id@ == parent_genome_id
            && projected.arena_jobs[evaluation_id].candidate_genome_id@ == candidate_genome_id {
            Ok(None)
        } else {
            Err(Refusal::Rejected("evaluation id is already bound to another Genome pair"@))
        }
    } else if occupied || unfinished_work(projected) {
        Err(Refusal::Busy)
    } else if parent_genome_id == candidate_genome_id {
        Err(Refusal::Invalid("parent and candidate Genomes must differ"@))
    } else if parent is Err {
        Err(parent->Err_0)
    } else if candidate is Err {
        Err(candidate->Err_0)
    } else if parent->Ok_0.record.world_id@ != candidate->Ok_0.record.world_id@ {
        Err(Refusal::Invalid("paired Genomes must share one registered World"@))
    } else {
        Ok(Some(parent->Ok_0.record.world_id@))
    }
}

/// Opens a submitted pair. A repeated submission of a recorded evaluation is answered with
/// its progress; a new one needs a free daemon and two different runnable Genomes of one
/// World. `occupied` says whether a job or a paired evaluation is running.
pub fn open_pair(
    state: &ControlState,
    occupied: bool,
    evaluation_id: &str,
    parent_genome_id: &str,
    candidate_genome_id: &str,
) -> (result: Result<PairOpening, ExecuteError>)
    requires
        state.wf(),
    ensures
        match pair_opening(
            state@,
            state.registered,
            occupied,
            evaluation_id@,
            parent_genome_id@,
            candidate_genome_id@,
        ) {
            Ok(None) => result == Ok::<PairOpening, ExecuteError>(
                PairOpening::Existing(
                    ResponseData::ArenaJob { job: progress(state@.arena_jobs[evaluation_id@]) },
                ),
            ),
            Ok(Some(world_id)) => result matches Ok(PairOpening::Fresh(world)) && world@ == world_id,
            Err(refusal) => result matches Err(error) && error@ == refusal,
        },
{
    if let Err(error) = commands::validate_job_id(evaluation_id) {
        return Err(error);
    }
    if let Some(existing) = state.arena_jobs.get(evaluation_id) {
        if !text::text_eq(existing.parent_genome_id.as_str(), parent_genome_id) || !text::text_eq(
            existing.candidate_genome_id.as_str(),
            candidate_genome_id,
        ) {
            return Err(rejected("evaluation id is already bound to another Genome pair"));
        }
        return Ok(PairOpening::Existing(arena_job_response(existing)));
    }
    if occupied || has_unfinished_work(state) {
        return Err(ExecuteError::Busy);
    }
    if text::text_eq(parent_genome_id, candidate_genome_id) {
        return Err(ExecuteError::Invalid("parent and candidate Genomes must differ"));
    }
    let parent = match runnable_genome(state, parent_genome_id) {
        Ok(parent) => parent,
        Err(error) => {
            return Err(error);
        },
    };
    let candidate = match runnable_genome(state, candidate_genome_id) {
        Ok(candidate) => candidate,
        Err(error) => {
            return Err(error);
        },
    };
    if parent.record.world_id != candidate.record.world_id {
        return Err(ExecuteError::Invalid("paired Genomes must share one registered World"));
    }
    Ok(PairOpening::Fresh(parent.record.world_id.clone()))
}

/// The manifests that a World declares for paired evaluation.
pub fn pair_manifests(world: &WorldEntry) -> (result: Result<(String, String), ExecuteError>)
    ensures
        match (world.visible_manifest, world.sealed_manifest) {
            (Some(visible), Some(sealed)) => result == Ok::<(String, String), ExecuteError>(
                (visible, sealed),
            ),
            (None, _) => error::outcome(result) == Err::<(String, String), Refusal>(
                Refusal::Rejected("World does not declare arena.visible_manifest"@),
            ),
            (Some(_), None) => error::outcome(result) == Err::<(String, String), Refusal>(
                Refusal::Rejected("World does not declare arena.sealed_manifest"@),
            ),
        },
{
    let visible: String = match &world.visible_manifest {
        Some(visible) => visible.clone(),
        None => {
            return Err(rejected("World does not declare arena.visible_manifest"));
        },
    };
    match &world.sealed_manifest {
        Some(sealed) => Ok((visible, sealed.clone())),
        None => Err(rejected("World does not declare arena.sealed_manifest")),
    }
}

/// The evaluator that a World declares for paired evaluation.
pub fn pair_evaluator(world: &WorldEntry) -> (result: Result<String, ExecuteError>)
    ensures
        match world.evaluator {
            Some(evaluator) => result == Ok::<String, ExecuteError>(evaluator),
            None => error::outcome(result) == Err::<String, Refusal>(
                Refusal::Rejected("World does not declare arena.evaluator"@),
            ),
        },
{
    match &world.evaluator {
        Some(evaluator) => Ok(evaluator.clone()),
        None => Err(rejected("World does not declare arena.evaluator")),
    }
}

/// The budgets of a paired evaluation.
#[derive(Clone, Copy, Debug, PartialEq, Eq, Structural)]
pub struct PairBudgets {
    /// Budget of each trial.
    pub trial: RunBudgetReceipt,
    /// Budget of the whole evaluation.
    pub overall: RunBudgetReceipt,
    /// How many trials there are: each task once for the parent, once for the candidate.
    pub total_trials: u32,
}

/// The cost ceiling of one trial. Only an external provider spends.
pub open spec fn trial_cost(world: WorldEntry, spends: bool) -> u64 {
    if spends {
        world.maximum_cost_microusd
    } else {
        0
    }
}

/// The budgets of a paired evaluation before its wall-clock bound is lowered.
pub open spec fn full_budgets(cost: u64, task_count: int) -> PairBudgets {
    let total = 2 * task_count;
    PairBudgets {
        trial: RunBudgetReceipt {
            wall_millis: PAIRED_EVALUATION_WALL_MILLIS,
            maximum_output_bytes: PAIRED_EVALUATION_OUTPUT_BYTES,
            maximum_cost_microusd: cost,
        },
        overall: RunBudgetReceipt {
            wall_millis: (PAIRED_EVALUATION_WALL_MILLIS * total + PAIRED_EVALUATION_WALL_MILLIS) as u64,
            maximum_output_bytes: (PAIRED_EVALUATION_OUTPUT_BYTES * total) as u64,
            maximum_cost_microusd: (cost * total) as u64,
        },
        total_trials: total as u32,
    }
}

/// The budgets of a paired evaluation, or why it gets none.
pub open spec fn budgeted(
    world: WorldEntry,
    spends: bool,
    task_count: int,
    requested_wall: Option<Seq<char>>,
) -> Result<PairBudgets, ExecuteError> {
    let cost = trial_cost(world, spends);
    let full = full_budgets(cost, task_count);
    if cost > MAX_EVALUATION_COST_MICROUSD {
        Err(ExecuteError::Invalid("evaluation budget is invalid"))
    } else if task_count == 0 || task_count > MAX_PAIRED_TASKS {
        Err(ExecuteError::Invalid("paired task count is outside the bounded range"))
    } else {
        match requested_wall {
            None => Ok(full),
            Some(numeral) => match text::parsed_u64(numeral) {
                Some(wall) => if 0 < wall <= full.overall.wall_millis {
                    Ok(
                        PairBudgets {
                            overall: RunBudgetReceipt { wall_millis: wall, ..full.overall },
                            ..full
                        },
                    )
                } else {
                    Err(ExecuteError::Invalid("test Arena wall budget must only lower the bound"))
                },
                None => Err(
                    ExecuteError::Invalid("test Arena wall budget must only lower the bound"),
                ),
            },
        }
    }
}

/// Budgets a paired evaluation of `task_count` tasks. `spends` says whether the parent or the
/// candidate runs under an external provider; `requested_wall` may lower the overall bound.
pub fn pair_budgets(
    world: &WorldEntry,
    spends: bool,
    task_count: usize,
    requested_wall: Option<&str>,
) -> (result: Result<PairBudgets, ExecuteError>)
    ensures
        result == budgeted(*world, spends, task_count as int, json::said(requested_wall)),
{
    let cost: u64 = if spends {
        world.maximum_cost_microusd
    } else {
        0
    };
    let trial: RunBudgetReceipt = match validated_evaluation_budget(
        PAIRED_EVALUATION_WALL_MILLIS,
        PAIRED_EVALUATION_OUTPUT_BYTES,
        cost,
    ) {
        Ok(trial) => trial,
        Err(error) => {
            return Err(error);
        },
    };
    if task_count == 0 || task_count > MAX_PAIRED_TASKS {
        return Err(ExecuteError::Invalid("paired task count is outside the bounded range"));
    }
    let total: u64 = 2 * task_count as u64;
    assert(cost * total <= 1_000_000_000 * 2000) by (nonlinear_arith)
        requires
            cost <= 1_000_000_000,
            total <= 2000,
    ;
    let maximum_wall: u64 = PAIRED_EVALUATION_WALL_MILLIS * total + PAIRED_EVALUATION_WALL_MILLIS;
    let wall: u64 = match test_overall_wall(maximum_wall, requested_wall) {
        Ok(wall) => wall,
        Err(_) => {
            return Err(
                ExecuteError::Invalid("test Arena wall budget must only lower the bound"),
            );
        },
    };
    let overall = RunBudgetReceipt {
        wall_millis: wall,
        maximum_output_bytes: PAIRED_EVALUATION_OUTPUT_BYTES * total,
        maximum_cost_microusd: cost * total,
    };
    Ok(PairBudgets { trial, overall, total_trials: total as u32 })
}

/// The overall budget covers every trial at its own ceiling.
pub proof fn overall_budget_covers_trials(cost: u64, task_count: int)
    requires
        cost <= MAX_EVALUATION_COST_MICROUSD,
        0 < task_count <= MAX_PAIRED_TASKS,
    ensures
        ({
            let budgets = full_budgets(cost, task_count);
            &&& budgets.total_trials == 2 * task_count
            &&& budgets.overall.wall_millis >= budgets.total_trials * budgets.trial.wall_millis
            &&& budgets.overall.maximum_output_bytes == budgets.total_trials
                * budgets.trial.maximum_output_bytes
            &&& budgets.overall.maximum_cost_microusd == budgets.total_trials
                * budgets.trial.maximum_cost_microusd
        }),
{
    assert(cost * (2 * task_count) <= 1_000_000_000 * 2000) by (nonlinear_arith)
        requires
            cost <= 1_000_000_000,
            0 < task_count <= 1000,
    ;
    assert(cost * (2 * task_count) >= 0) by (nonlinear_arith)
        requires
            0 < task_count,
    ;
    assert(cost * (2 * task_count) == (2 * task_count) * cost) by (nonlinear_arith);
}

/// The environment that a candidate is recorded with: its own where it differs from the
/// parent's, which the World has to permit.
pub fn pair_environments(
    parent_environment_id: &str,
    candidate_environment_id: &str,
    allow_mixed_environments: bool,
) -> (result: Result<Option<String>, ExecuteError>)
    ensures
        match result {
            Ok(None) => parent_environment_id@ == candidate_environment_id@,
            Ok(Some(own)) => parent_environment_id@ != candidate_environment_id@
                && allow_mixed_environments && own@ == candidate_environment_id@,
            Err(refusal) => parent_environment_id@ != candidate_environment_id@
                && !allow_mixed_environments && refusal@ == Refusal::Rejected(
                "World does not permit a parent and candidate to run in distinct execution environments"@,
            ),
        },
{
    if text::text_eq(parent_environment_id, candidate_environment_id) {
        return Ok(None);
    }
    if !allow_mixed_environments {
        return Err(
            rejected(
                "World does not permit a parent and candidate to run in distinct execution environments",
            ),
        );
    }
    Ok(Some(candidate_environment_id.to_owned()))
}

/// Everything that an admitted pair is bound to.
pub struct PairBinding {
    /// Evaluation identity.
    pub evaluation_id: String,
    /// Parent Genome.
    pub parent_genome_id: String,
    /// Candidate Genome.
    pub candidate_genome_id: String,
    /// World of both.
    pub world_id: String,
    /// Manifest of the visible tasks.
    pub visible_manifest_id: String,
    /// Manifest of the sealed tasks.
    pub sealed_manifest_id: String,
    /// Evaluator.
    pub evaluator_id: String,
    /// Source revision that every trial sees.
    pub source_revision: String,
    /// Digest of the pinned worker.
    pub worker_digest: String,
    /// Environment of the parent.
    pub environment_id: String,
    /// Environment of the candidate, where it differs.
    pub candidate_environment_id: Option<String>,
    /// Budgets.
    pub budgets: PairBudgets,
    /// When the receipt is dated.
    pub receipt_timestamp_millis: i64,
    /// Whether reference trials are leased to remote workers.
    pub remote: bool,
}

/// The run identities of a plan: the parent's trials, then the candidate's.
pub fn planned_run_ids(evaluation_id: &str, task_count: usize) -> (result: Vec<String>)
    requires
        task_count <= MAX_PAIRED_TASKS,
    ensures
        result@.len() == 2 * task_count,
        forall|i: int|
            0 <= i < result@.len() ==> (#[trigger] result@[i])@ == ids::trial_run(
                evaluation_id@,
                task_count as int,
                i,
            ),
{
    let mut runs: Vec<String> = Vec::new();
    for i in 0..2 * task_count
        invariant
            task_count <= MAX_PAIRED_TASKS,
            runs@.len() == i,
            forall|j: int|
                0 <= j < runs@.len() ==> (#[trigger] runs@[j])@ == ids::trial_run(
                    evaluation_id@,
                    task_count as int,
                    j,
                ),
    {
        runs.push(ids::trial_run_id(evaluation_id, task_count, i));
    }
    runs
}

/// Whether `record` is the first record of an evaluation admitted under `binding`.
pub open spec fn admits(binding: PairBinding, record: ArenaJobRecord) -> bool {
    &&& record.job_id@ == binding.evaluation_id@
    &&& record.evaluation_id == binding.evaluation_id
    &&& record.parent_genome_id == binding.parent_genome_id
    &&& record.candidate_genome_id == binding.candidate_genome_id
    &&& record.world_id == binding.world_id
    &&& record.visible_manifest_id == binding.visible_manifest_id
    &&& record.sealed_manifest_id == binding.sealed_manifest_id
    &&& record.evaluator_id == binding.evaluator_id
    &&& record.source_revision == binding.source_revision
    &&& record.worker_digest == binding.worker_digest
    &&& record.environment_id == binding.environment_id
    &&& record.candidate_environment_id == binding.candidate_environment_id
    &&& record.seed == arena_jobs::PAIRED_EVALUATION_SEED
    &&& record.trial_budget == binding.budgets.trial
    &&& record.overall_budget == binding.budgets.overall
    &&& record.total_trials == binding.budgets.total_trials
    &&& record.parent_trial_count == binding.budgets.total_trials / 2
    &&& record.ordered_trial_run_ids@.len() == binding.budgets.total_trials
    &&& arena_jobs::trial_order(record)
    &&& arena_jobs::plan_bytes(record) matches Some(plan) && record.plan_commitment@
        == arena_jobs::commitment(plan)
    &&& arena_jobs::digest_text(record.plan_commitment@)
    &&& record.caller_id@ == arena_jobs::ARENA_CALLER@
    &&& record.receipt_timestamp_millis == binding.receipt_timestamp_millis
    &&& record.completed_trials == 0
    &&& record.phase == ArenaJobPhase::Preparing
    &&& record.state == JobState::Admitted
    &&& record.terminal is None
    &&& record.evaluation is None
    &&& record.remote == binding.remote
}

/// Builds the first record of an admitted evaluation. Only the JSON form of the plan can
/// fail.
pub fn admitted_record(binding: PairBinding) -> (result: Result<ArenaJobRecord, ExecuteError>)
    requires
        0 < binding.budgets.total_trials <= 2 * MAX_PAIRED_TASKS,
        binding.budgets.total_trials % 2 == 0,
    ensures
        match result {
            Ok(record) => admits(binding, record),
            Err(error) => error == ExecuteError::Internal && forall|record: ArenaJobRecord|
                !admits(binding, record),
        },
{
    let ghost whole = binding;
    let task_count: usize = (binding.budgets.total_trials / 2) as usize;
    let runs: Vec<String> = planned_run_ids(binding.evaluation_id.as_str(), task_count);
    let mut record = ArenaJobRecord {
        job_id: binding.evaluation_id.clone(),
        evaluation_id: binding.evaluation_id,
        parent_genome_id: binding.parent_genome_id,
        candidate_genome_id: binding.candidate_genome_id,
        world_id: binding.world_id,
        visible_manifest_id: binding.visible_manifest_id,
        sealed_manifest_id: binding.sealed_manifest_id,
        evaluator_id: binding.evaluator_id,
        source_revision: binding.source_revision,
        worker_digest: binding.worker_digest,
        environment_id: binding.environment_id,
        candidate_environment_id: binding.candidate_environment_id,
        seed: arena_jobs::PAIRED_EVALUATION_SEED,
        trial_budget: binding.budgets.trial,
        overall_budget: binding.budgets.overall,
        ordered_trial_run_ids: runs,
        parent_trial_count: binding.budgets.total_trials / 2,
        total_trials: binding.budgets.total_trials,
        plan_commitment: String::new(),
        caller_id: arena_jobs::ARENA_CALLER.to_owned(),
        receipt_timestamp_millis: binding.receipt_timestamp_millis,
        completed_trials: 0,
        phase: ArenaJobPhase::Preparing,
        state: JobState::Admitted,
        terminal: None,
        evaluation: None,
        remote: binding.remote,
    };
    match arena_jobs::plan_commitment(&record) {
        Some(commitment) => {
            record.plan_commitment = commitment;
            Ok(record)
        },
        None => {
            proof {
                assert forall|other: ArenaJobRecord| !admits(whole, other) by {
                    if admits(whole, other) {
                        assert(text::texts(other.ordered_trial_run_ids@) =~= text::texts(
                            record.ordered_trial_run_ids@,
                        ));
                        assert(arena_jobs::plan_bytes(other) == arena_jobs::plan_bytes(record));
                    }
                }
            }
            Err(ExecuteError::Internal)
        },
    }
}

/// Starts the trials of an admitted evaluation.
pub fn start_trials(record: &mut ArenaJobRecord)
    ensures
        *final(record) == (ArenaJobRecord {
            phase: ArenaJobPhase::ParentTrials,
            state: JobState::Running,
            ..*old(record)
        }),
{
    record.phase = ArenaJobPhase::ParentTrials;
    record.state = JobState::Running;
}

/// Ends an evaluation whose trials could not be launched.
pub fn abandon_launch(record: &mut ArenaJobRecord)
    ensures
        *final(record) == (ArenaJobRecord {
            phase: ArenaJobPhase::Terminal,
            state: JobState::Interrupted,
            terminal: Some(JobTerminal::Interrupted),
            ..*old(record)
        }),
{
    record.state = JobState::Interrupted;
    record.phase = ArenaJobPhase::Terminal;
    record.terminal = Some(JobTerminal::Interrupted);
}

/// What admission hands to the ledger, replay accepts: the record has a consistent plan, and
/// the steps from admission through launch or its failure are valid transitions.
pub proof fn admitted_evaluations_replay(binding: PairBinding, record: ArenaJobRecord)
    requires
        admits(binding, record),
        2 <= binding.budgets.total_trials,
        binding.budgets.total_trials % 2 == 0,
        binding.budgets.trial.wall_millis != 0,
        binding.budgets.overall.wall_millis != 0,
        binding.parent_genome_id@ != binding.candidate_genome_id@,
        arena_jobs::revision(binding.source_revision@),
        arena_jobs::digest_text(binding.worker_digest@),
    ensures
        arena_jobs::plan_shape(record),
        arena_jobs::trial_order(record),
        arena_jobs::plan_bytes(record) matches Some(plan) && arena_jobs::commitment(plan)
            == record.plan_commitment@,
        arena_jobs::arena_transition("arena.job.admitted"@, None, record, false),
        ({
            let running = ArenaJobRecord {
                phase: ArenaJobPhase::ParentTrials,
                state: JobState::Running,
                ..record
            };
            let abandoned = ArenaJobRecord {
                phase: ArenaJobPhase::Terminal,
                state: JobState::Interrupted,
                terminal: Some(JobTerminal::Interrupted),
                ..running
            };
            &&& arena_jobs::arena_transition("arena.job.running"@, Some(record), running, false)
            &&& arena_jobs::arena_transition("arena.job.terminal"@, Some(running), abandoned, false)
        }),
{
    reveal_strlit("arena.job.admitted");
    reveal_strlit("arena.job.running");
    reveal_strlit("arena.job.cancellation_requested");
    reveal_strlit("arena.job.scoring");
    reveal_strlit("arena.job.committing");
    reveal_strlit("arena.job.terminal");
    assert("arena.job.admitted"@[10] == 'a');
    assert("arena.job.running"@[10] == 'r');
    assert("arena.job.cancellation_requested"@[10] == 'c');
    assert("arena.job.scoring"@[10] == 's');
    assert("arena.job.committing"@[10] == 'c');
    assert("arena.job.terminal"@[10] == 't');
}

} // verus!
