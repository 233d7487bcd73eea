//! Which step refuses a submitted job, paired evaluation or direct run first, and what is
//! started where none does.
//!
//! What has to be found out before admission comes in as facts. A caller finds them out in
//! the order of their fields and stops where one fails: the decision does not depend on
//! those after it.

use crate::arena_jobs;
use crate::arena_submit;
use crate::arena_submit::{PairBinding, PairBudgets, PairOpening};
use crate::commands;
use crate::environment;
use crate::environment::Platform;
use crate::error;
use crate::error::{rejected, ExecuteError, Refusal};
use crate::ids;
use crate::job_submit;
use crate::job_submit::JobOpening;
use crate::jobs;
use crate::json;
use crate::protocol::{ArenaJobPhase, JobRecord, JobState, JobTerminal, ResponseData};
use crate::records::{ArenaJobRecord, RunBudgetReceipt};
use crate::registry;
use crate::registry::{GenomeEntry, Registry, WorldEntry};
use crate::runs;
use crate::runs::RunContext;
use crate::state::{ControlState, Projected};
use crate::text;
use vstd::prelude::*;
use vstd::string::*;
use vstd::utf8::*;

verus! {

/// What the prompt of a Genome reads as.
pub struct PromptReading {
    /// Its bytes, where they could be read.
    pub bytes: Option<Vec<u8>>,
    /// The operation that they parse to, where they do.
    pub operation: Option<String>,
}

/// Why the instruction of a Genome is refused.
pub open spec fn instruction_refusal(genome: GenomeEntry, reading: PromptReading) -> Option<Refusal> {
    if genome.prompt_artifact_id is None {
        None
    } else if reading.bytes is None {
        Some(Refusal::Internal)
    } else if !valid_utf8(reading.bytes->0@) || reading.operation is None {
        Some(Refusal::Rejected("registered reference instruction is invalid"@))
    } else {
        None
    }
}

/// The instruction of a Genome, where it has a prompt.
pub open spec fn instruction_of(genome: GenomeEntry, reading: PromptReading) -> Option<String> {
    if genome.prompt_artifact_id is None {
        None
    } else {
        reading.operation
    }
}

/// Reads the instruction of a Genome.
fn read_instruction(genome: &GenomeEntry, reading: &PromptReading) -> (result: Result<
    Option<String>,
    ExecuteError,
>)
    ensures
        match instruction_refusal(*genome, *reading) {
            Some(refusal) => result matches Err(error) && error@ == refusal,
            None => result == Ok::<Option<String>, ExecuteError>(
                instruction_of(*genome, *reading),
            ),
        },
{
    if genome.prompt_artifact_id.is_none() {
        return Ok(None);
    }
    match runs::reference_instruction(reading.bytes.as_ref(), reading.operation.as_ref()) {
        Ok(operation) => Ok(Some(operation)),
        Err(error) => Err(error),
    }
}

/// What a fallible step refuses with.
pub open spec fn refused<T>(result: Result<T, ExecuteError>) -> Option<Refusal> {
    match result {
        Ok(_) => None,
        Err(error) => Some(error@),
    }
}

/// The environment that a Genome runs in: of its provider's executable, where its digest is
/// known, or of the pinned reference worker.
pub open spec fn job_environment(
    registry: Registry,
    genome: GenomeEntry,
    platform: Platform,
    worker_digest: Seq<char>,
    executable_digest: Option<String>,
) -> Option<Seq<char>> {
    if !registry::external_provider(registry, genome.model_provider@) {
        Some(environment::reference_environment(platform, worker_digest))
    } else {
        match executable_digest {
            None => None,
            Some(digest) => Some(
                environment::provider_job_environment_of(
                    genome.model_provider@ + "-cli"@,
                    platform,
                    digest@,
                ),
            ),
        }
    }
}

/// Names the environment that a Genome runs in.
fn name_job_environment(
    registry: &Registry,
    genome: &GenomeEntry,
    platform: &Platform,
    worker_digest: &str,
    executable_digest: Option<&String>,
) -> (result: Option<String>)
    ensures
        match job_environment(
            *registry,
            *genome,
            *platform,
            worker_digest@,
            (match executable_digest {
                Some(digest) => Some(*digest),
                None => None,
            }),
        ) {
            None => result is None,
            Some(id) => result is Some && result->0@ == id,
        },
{
    if !registry.is_external_provider(genome.model_provider.as_str()) {
        return Some(environment::reference_execution_environment(platform, worker_digest));
    }
    match executable_digest {
        None => None,
        Some(digest) => {
            let mut name: String = genome.model_provider.clone();
            name.append("-cli");
            Some(environment::provider_job_environment(name.as_str(), platform, digest.as_str()))
        },
    }
}

/// What a run may do.
#[derive(Clone, Copy, Debug, PartialEq, Eq, Structural)]
pub enum Authority {
    /// What its Genome was compiled to be allowed.
    Own,
    /// Nothing.
    Nothing,
}

/// The authority that a Genome runs with: its own under an external provider, and none under
/// the reference worker.
pub open spec fn authority_of(registry: Registry, genome: GenomeEntry) -> Authority {
    if registry::external_provider(registry, genome.model_provider@) {
        Authority::Own
    } else {
        Authority::Nothing
    }
}

/// What a run is to be specified with.
pub struct RunOrder {
    /// Run identity.
    pub run_id: String,
    /// Genome that runs.
    pub genome_id: String,
    /// World that governs the run.
    pub world_id: String,
    /// Task identity.
    pub task_id: String,
    /// Task input.
    pub input: String,
    /// Random seed.
    pub seed: u64,
    /// Its environment.
    pub environment_id: String,
    /// Its budget.
    pub budget: RunBudgetReceipt,
    /// What it may do.
    pub authority: Authority,
    /// Place of its external provider, where it runs under one.
    pub provider: Option<usize>,
    /// Its instruction, where the reference worker runs it.
    pub instruction: Option<String>,
}

/// One task of a paired evaluation.
pub struct PairTask {
    /// Task identity.
    pub task_id: String,
    /// Task input.
    pub input: String,
}

/// What a paired evaluation is submitted with.
pub struct PairRequest {
    /// Evaluation identity.
    pub evaluation_id: String,
    /// Parent Genome.
    pub parent_genome_id: String,
    /// Candidate Genome.
    pub candidate_genome_id: String,
    /// Whether reference trials are leased to remote workers.
    pub remote: bool,
}

/// What has to be found out before the runs of a paired evaluation are ordered.
pub struct PairGround {
    /// The parent's prompt.
    pub parent_prompt: PromptReading,
    /// The candidate's prompt.
    pub candidate_prompt: PromptReading,
    /// Tasks of the visible manifest, where it could be read.
    pub visible_tasks: Option<Vec<PairTask>>,
    /// Tasks of the sealed manifest, where it could be read.
    pub sealed_tasks: Option<Vec<PairTask>>,
    /// A lower bound on the overall time that is asked for.
    pub requested_wall: Option<String>,
    /// Whether the evaluator could be opened.
    pub evaluator_opens: bool,
    /// Digest of the pinned reference worker.
    pub worker: Result<String, ExecuteError>,
    /// Platform of the daemon.
    pub platform: Platform,
    /// Digest of the executable of the parent's provider.
    pub parent_executable: Option<String>,
    /// Digest of the executable of the candidate's provider.
    pub candidate_executable: Option<String>,
    /// Source revision.
    pub revision: Result<String, ExecuteError>,
    /// The time.
    pub timestamp_millis: Option<i64>,
}

/// What has to be found out before a paired evaluation is admitted, and what specifying it
/// came to.
pub struct PairFacts {
    /// What has to be found out.
    pub ground: PairGround,
    /// Whether the binding, the ordered runs and the plans are accepted.
    pub specified: bool,
}

/// How many tasks there are.
pub open spec fn task_count(facts: PairGround) -> int {
    (facts.visible_tasks->0@.len() + facts.sealed_tasks->0@.len()) as int
}

/// Whether the parent or the candidate runs under an external provider.
pub open spec fn pair_spends(registry: Registry, parent: GenomeEntry, candidate: GenomeEntry) -> bool {
    registry::external_provider(registry, parent.model_provider@) || registry::external_provider(
        registry,
        candidate.model_provider@,
    )
}

/// The budgets of a pair, or why it gets none.
pub open spec fn budgets_of(
    registry: Registry,
    parent: GenomeEntry,
    candidate: GenomeEntry,
    facts: PairGround,
) -> Result<PairBudgets, ExecuteError> {
    arena_submit::budgeted(
        registry.worlds@[parent.record.world_id@],
        pair_spends(registry, parent, candidate),
        task_count(facts),
        json::held(facts.requested_wall),
    )
}

/// Why a pair is refused before anything is launched for it.
pub open spec fn preparation_refusal(
    registry: Registry,
    parent: GenomeEntry,
    candidate: GenomeEntry,
    facts: PairGround,
) -> Option<Refusal> {
    let world_id = parent.record.world_id@;
    let world = registry.worlds@[world_id];
    error::first(
        instruction_refusal(parent, facts.parent_prompt),
        error::first(
            instruction_refusal(candidate, facts.candidate_prompt),
            error::first(
                error::need(registry.worlds@.contains_key(world_id), Refusal::Internal),
                error::first(
                    error::need(
                        world.visible_manifest is Some,
                        Refusal::Rejected("World does not declare arena.visible_manifest"@),
                    ),
                    error::first(
                        error::need(
                            world.sealed_manifest is Some,
                            Refusal::Rejected("World does not declare arena.sealed_manifest"@),
                        ),
                        error::first(
                            error::need(
                                facts.visible_tasks is Some && facts.sealed_tasks is Some,
                                Refusal::Internal,
                            ),
                            error::need(
                                world.evaluator is Some,
                                Refusal::Rejected("World does not declare arena.evaluator"@),
                            ),
                        ),
                    ),
                ),
            ),
        ),
    )
}

/// Why a prepared pair is refused.
pub open spec fn launch_refusal(
    registry: Registry,
    world: WorldEntry,
    parent: GenomeEntry,
    candidate: GenomeEntry,
    facts: PairGround,
) -> Option<Refusal> {
    let digest = facts.worker->Ok_0@;
    let own = job_environment(registry, parent, facts.platform, digest, facts.parent_executable);
    let other = job_environment(
        registry,
        candidate,
        facts.platform,
        digest,
        facts.candidate_executable,
    );
    error::first(
        error::need(facts.evaluator_opens, Refusal::Internal),
        error::first(
            refused(facts.worker),
            error::first(
                error::need(own is Some && other is Some, Refusal::Internal),
                error::first(
                    error::need(
                        own == other || world.allow_mixed_environments,
                        Refusal::Rejected(
                            "World does not permit a parent and candidate to run in distinct execution environments"@,
                        ),
                    ),
                    error::first(
                        refused(facts.revision),
                        error::need(
                            facts.timestamp_millis is Some,
                            Refusal::Internal,
                        ),
                    ),
                ),
            ),
        ),
    )
}

/// Whether a pair is bound as its request, its World and the facts determine.
pub open spec fn binds_pair(
    binding: PairBinding,
    registry: Registry,
    request: PairRequest,
    world: WorldEntry,
    parent: GenomeEntry,
    candidate: GenomeEntry,
    facts: PairGround,
    budgets: PairBudgets,
) -> bool {
    let digest = facts.worker->Ok_0@;
    let own = job_environment(registry, parent, facts.platform, digest, facts.parent_executable);
    let other = job_environment(
        registry,
        candidate,
        facts.platform,
        digest,
        facts.candidate_executable,
    );
    &&& binding.evaluation_id == request.evaluation_id
    &&& binding.parent_genome_id == request.parent_genome_id
    &&& binding.candidate_genome_id == request.candidate_genome_id
    &&& binding.world_id == parent.record.world_id
    &&& Some(binding.visible_manifest_id) == world.visible_manifest
    &&& Some(binding.sealed_manifest_id) == world.sealed_manifest
    &&& Some(binding.evaluator_id) == world.evaluator
    &&& binding.source_revision == facts.revision->Ok_0
    &&& binding.worker_digest == facts.worker->Ok_0
    &&& Some(binding.environment_id@) == own
    &&& match binding.candidate_environment_id {
        None => own == other,
        Some(id) => own != other && Some(id@) == other,
    }
    &&& binding.budgets == budgets
    &&& Some(binding.receipt_timestamp_millis) == facts.timestamp_millis
    &&& binding.remote == request.remote
}

/// How one side of a pair runs.
pub struct SideTerms {
    /// Place of its external provider, where it runs under one.
    pub provider: Option<usize>,
    /// Its instruction, where the reference worker runs it.
    pub instruction: Option<String>,
    /// Its environment.
    pub environment_id: String,
}

/// Whether one side of a pair runs as its Genome determines: under its provider, or by the
/// reference worker on its instruction, which is the identity where it has no prompt.
pub open spec fn is_side(
    terms: SideTerms,
    registry: Registry,
    genome: GenomeEntry,
    reading: PromptReading,
    environment_id: Option<Seq<char>>,
) -> bool {
    &&& Some(terms.environment_id@) == environment_id
    &&& match terms.provider {
        Some(place) => {
            &&& place < registry.providers@.len()
            &&& registry.providers@[place as int]@ == genome.model_provider@
            &&& terms.instruction is None
        },
        None => {
            &&& !registry::external_provider(registry, genome.model_provider@)
            &&& terms.instruction is Some
            &&& match instruction_of(genome, reading) {
                Some(operation) => terms.instruction->0@ == operation@,
                None => terms.instruction->0@ == "identity"@,
            }
        },
    }
}

/// One trial of a paired evaluation.
pub struct PairTrial {
    /// Run identity.
    pub run_id: String,
    /// Identity of the event that will record its result.
    pub event_id: String,
    /// Whether the candidate runs it.
    pub candidate: bool,
    /// Place of its task.
    pub task: usize,
}

/// Whether a trial is the one at a place of the plan: the parent runs every task in order,
/// then the candidate does.
pub open spec fn is_trial(trial: PairTrial, evaluation_id: Seq<char>, count: int, place: int) -> bool {
    &&& trial.run_id@ == ids::trial_run(evaluation_id, count, place)
    &&& trial.event_id@ == "result:"@ + trial.run_id@
    &&& trial.candidate == (place >= count)
    &&& trial.task == (if place < count {
        place
    } else {
        place - count
    })
}

/// Plans the trials of a paired evaluation.
pub fn plan_trials(evaluation_id: &str, count: usize) -> (result: Vec<PairTrial>)
    requires
        count <= arena_submit::MAX_PAIRED_TASKS,
    ensures
        result@.len() == 2 * count,
        forall|i: int|
            0 <= i < result@.len() ==> is_trial(
                #[trigger] result@[i],
                evaluation_id@,
                count as int,
                i,
            ),
{
    let mut trials: Vec<PairTrial> = Vec::new();
    for i in 0..2 * count
        invariant
            count <= arena_submit::MAX_PAIRED_TASKS,
            trials@.len() == i,
            forall|j: int|
                0 <= j < i ==> is_trial(#[trigger] trials@[j], evaluation_id@, count as int, j),
    {
        let run_id: String = ids::trial_run_id(evaluation_id, count, i);
        let mut event_id: String = "result:".to_owned();
        event_id.append(run_id.as_str());
        let task: usize = if i < count {
            i
        } else {
            i - count
        };
        trials.push(PairTrial { run_id, event_id, candidate: i >= count, task });
    }
    trials
}

/// What a submitted paired evaluation comes to.
pub enum PairAdmission {
    /// The evaluation is already recorded for this pair; its progress is the answer.
    Existing(ResponseData),
    /// The evaluation is admitted.
    Fresh {
        /// Its first record.
        record: ArenaJobRecord,
        /// How the parent runs.
        parent: SideTerms,
        /// How the candidate runs.
        candidate: SideTerms,
        /// Its tasks: the visible ones, then the sealed ones.
        tasks: Vec<PairTask>,
        /// Its trials.
        trials: Vec<PairTrial>,
        /// What the run of each trial is to be specified with.
        orders: Vec<RunOrder>,
    },
}

/// Whether a run is ordered as a trial, its task and how its side runs determine.
pub open spec fn orders_trial(
    order: RunOrder,
    registry: Registry,
    genome: GenomeEntry,
    terms: SideTerms,
    budget: RunBudgetReceipt,
    task: PairTask,
    trial: PairTrial,
) -> bool {
    &&& order.run_id == trial.run_id
    &&& order.genome_id == genome.record.genome_id
    &&& order.world_id == genome.record.world_id
    &&& order.task_id == task.task_id
    &&& order.input == task.input
    &&& order.seed == arena_jobs::PAIRED_EVALUATION_SEED
    &&& order.environment_id == terms.environment_id
    &&& order.budget == budget
    &&& order.authority == authority_of(registry, genome)
    &&& order.provider == terms.provider
    &&& order.instruction == terms.instruction
}

/// Whether the run of each trial is ordered as its side and its task determine.
pub open spec fn orders_trials(
    orders: Seq<RunOrder>,
    registry: Registry,
    own: GenomeEntry,
    other: GenomeEntry,
    parent: SideTerms,
    candidate: SideTerms,
    budget: RunBudgetReceipt,
    tasks: Seq<PairTask>,
    trials: Seq<PairTrial>,
) -> bool {
    &&& orders.len() == trials.len()
    &&& forall|i: int|
        0 <= i < orders.len() ==> orders_trial(
            #[trigger] orders[i],
            registry,
            if trials[i].candidate {
                other
            } else {
                own
            },
            if trials[i].candidate {
                candidate
            } else {
                parent
            },
            budget,
            tasks[trials[i].task as int],
            trials[i],
        )
}

/// Orders the runs of the trials of a paired evaluation.
fn order_trials(
    registry: &Registry,
    own: &GenomeEntry,
    other: &GenomeEntry,
    parent: &SideTerms,
    candidate: &SideTerms,
    budget: RunBudgetReceipt,
    tasks: &Vec<PairTask>,
    trials: &Vec<PairTrial>,
) -> (result: Vec<RunOrder>)
    requires
        forall|i: int| 0 <= i < trials@.len() ==> (#[trigger] trials@[i]).task < tasks@.len(),
        parent.provider is Some <==> registry::external_provider(*registry, own.model_provider@),
        candidate.provider is Some <==> registry::external_provider(
            *registry,
            other.model_provider@,
        ),
    ensures
        orders_trials(
            result@,
            *registry,
            *own,
            *other,
            *parent,
            *candidate,
            budget,
            tasks@,
            trials@,
        ),
{
    let mut orders: Vec<RunOrder> = Vec::new();
    for i in 0..trials.len()
        invariant
            orders@.len() == i,
            forall|j: int| 0 <= j < trials@.len() ==> (#[trigger] trials@[j]).task < tasks@.len(),
            parent.provider is Some <==> registry::external_provider(
                *registry,
                own.model_provider@,
            ),
            candidate.provider is Some <==> registry::external_provider(
                *registry,
                other.model_provider@,
            ),
            forall|j: int|
                0 <= j < i ==> orders_trial(
                    #[trigger] orders@[j],
                    *registry,
                    if trials@[j].candidate {
                        *other
                    } else {
                        *own
                    },
                    if trials@[j].candidate {
                        *candidate
                    } else {
                        *parent
                    },
                    budget,
                    tasks@[trials@[j].task as int],
                    trials@[j],
                ),
    {
        let trial: &PairTrial = &trials[i];
        let (genome, terms): (&GenomeEntry, &SideTerms) = if trial.candidate {
            (other, candidate)
        } else {
            (own, parent)
        };
        let task: &PairTask = &tasks[trial.task];
        orders.push(
            RunOrder {
                run_id: trial.run_id.clone(),
                genome_id: genome.record.genome_id.clone(),
                world_id: genome.record.world_id.clone(),
                task_id: task.task_id.clone(),
                input: task.input.clone(),
                seed: arena_jobs::PAIRED_EVALUATION_SEED,
                environment_id: terms.environment_id.clone(),
                budget,
                authority: if terms.provider.is_some() {
                    Authority::Own
                } else {
                    Authority::Nothing
                },
                provider: terms.provider,
                instruction: terms.instruction.clone(),
            },
        );
    }
    orders
}

/// Whether a new pair is admitted as its request and the facts determine.
pub open spec fn admits_pair(
    admission: PairAdmission,
    registry: Registry,
    request: PairRequest,
    facts: PairGround,
    binding: PairBinding,
) -> bool {
    let own = registry.genomes@[request.parent_genome_id@];
    let other = registry.genomes@[request.candidate_genome_id@];
    let digest = facts.worker->Ok_0@;
    admission matches PairAdmission::Fresh { record, parent, candidate, tasks, trials, orders } && {
        &&& arena_submit::admits(binding, record)
        &&& is_side(
            parent,
            registry,
            own,
            facts.parent_prompt,
            job_environment(registry, own, facts.platform, digest, facts.parent_executable),
        )
        &&& is_side(
            candidate,
            registry,
            other,
            facts.candidate_prompt,
            job_environment(registry, other, facts.platform, digest, facts.candidate_executable),
        )
        &&& tasks@ == facts.visible_tasks->0@ + facts.sealed_tasks->0@
        &&& trials@.len() == 2 * task_count(facts)
        &&& forall|i: int|
            0 <= i < trials@.len() ==> is_trial(
                #[trigger] trials@[i],
                request.evaluation_id@,
                task_count(facts),
                i,
            )
        &&& orders_trials(
            orders@,
            registry,
            own,
            other,
            parent,
            candidate,
            binding.budgets.trial,
            tasks@,
            trials@,
        )
    }
}

/// What a new pair comes to: why it is refused, or what it is bound to and admitted as.
/// `specified` says whether the ordered runs were accepted.
pub open spec fn fresh_outcome(
    registry: Registry,
    request: PairRequest,
    facts: PairGround,
    specified: bool,
    result: Result<PairAdmission, ExecuteError>,
) -> bool {
    let parent = registry.genomes@[request.parent_genome_id@];
    let candidate = registry.genomes@[request.candidate_genome_id@];
    let world = registry.worlds@[parent.record.world_id@];
    let prepared = preparation_refusal(registry, parent, candidate, facts);
    let budgets = budgets_of(registry, parent, candidate, facts);
    let launched = launch_refusal(registry, world, parent, candidate, facts);
    if prepared is Some {
        result matches Err(error) && Some(error@) == prepared
    } else if budgets is Err {
        result matches Err(error) && error == budgets->Err_0
    } else if launched is Some {
        result matches Err(error) && Some(error@) == launched
    } else if !specified {
        result matches Err(error) && error == ExecuteError::Internal
    } else {
        exists|binding: PairBinding| #[trigger]
            binds_pair(
                binding,
                registry,
                request,
                world,
                parent,
                candidate,
                facts,
                budgets->Ok_0,
            ) && match result {
                Ok(admission) => admits_pair(admission, registry, request, facts, binding),
                Err(error) => error == ExecuteError::Internal && forall|record: ArenaJobRecord|
                    !#[trigger] arena_submit::admits(binding, record),
            }
    }
}

/// Tells how one side of a pair runs.
fn side_terms(
    registry: &Registry,
    genome: &GenomeEntry,
    Ghost(reading): Ghost<PromptReading>,
    instruction: Option<String>,
    environment_id: String,
) -> (result: SideTerms)
    requires
        instruction == instruction_of(*genome, reading),
    ensures
        is_side(result, *registry, *genome, reading, Some(environment_id@)),
{
    match registry.provider_index(genome.model_provider.as_str()) {
        Some(place) => SideTerms { provider: Some(place), instruction: None, environment_id },
        None => {
            let operation: String = match instruction {
                Some(operation) => operation,
                None => "identity".to_owned(),
            };
            SideTerms { provider: None, instruction: Some(operation), environment_id }
        },
    }
}

/// Decides what a new pair of registered Genomes comes to. The first step that fails refuses
/// it; where none does, it is bound to its World, its environments, its budgets and its
/// revision, its trials are planned, and what their runs are to be specified with is ordered.
/// Only the JSON form of the plan can fail after that.
pub fn plan_pair(registry: &Registry, request: PairRequest, facts: PairGround) -> (result: Result<
    PairAdmission,
    ExecuteError,
>)
    requires
        registry.wf(),
        registry.genomes@.contains_key(request.parent_genome_id@),
        registry.genomes@.contains_key(request.candidate_genome_id@),
    ensures
        fresh_outcome(*registry, request, facts, true, result),
{
    let ghost whole = facts;
    let ghost asked = request;
    let parent: &GenomeEntry = match registry.genomes.get(request.parent_genome_id.as_str()) {
        Some(parent) => parent,
        None => {
            return Err(ExecuteError::NotFound);
        },
    };
    let candidate: &GenomeEntry = match registry.genomes.get(request.candidate_genome_id.as_str()) {
        Some(candidate) => candidate,
        None => {
            return Err(ExecuteError::NotFound);
        },
    };
    let parent_instruction: Option<String> = match read_instruction(parent, &facts.parent_prompt) {
        Ok(instruction) => instruction,
        Err(error) => {
            return Err(error);
        },
    };
    let candidate_instruction: Option<String> = match read_instruction(
        candidate,
        &facts.candidate_prompt,
    ) {
        Ok(instruction) => instruction,
        Err(error) => {
            return Err(error);
        },
    };
    let world: &WorldEntry = match registry.worlds.get(parent.record.world_id.as_str()) {
        Some(world) => world,
        None => {
            return Err(ExecuteError::Internal);
        },
    };
    let (visible_manifest_id, sealed_manifest_id): (String, String) =
        match arena_submit::pair_manifests(world) {
        Ok(manifests) => manifests,
        Err(error) => {
            return Err(error);
        },
    };
    let mut tasks: Vec<PairTask> = match facts.visible_tasks {
        Some(tasks) => tasks,
        None => {
            return Err(ExecuteError::Internal);
        },
    };
    let mut sealed: Vec<PairTask> = match facts.sealed_tasks {
        Some(sealed) => sealed,
        None => {
            return Err(ExecuteError::Internal);
        },
    };
    let evaluator_id: String = match arena_submit::pair_evaluator(world) {
        Ok(evaluator_id) => evaluator_id,
        Err(error) => {
            return Err(error);
        },
    };
    tasks.append(&mut sealed);
    let spends: bool = registry.is_external_provider(parent.model_provider.as_str())
        || registry.is_external_provider(candidate.model_provider.as_str());
    let requested_wall: Option<&str> = match &facts.requested_wall {
        Some(wall) => Some(wall.as_str()),
        None => None,
    };
    let count: usize = tasks.len();
    let budgets: PairBudgets = match arena_submit::pair_budgets(
        world,
        spends,
        count,
        requested_wall,
    ) {
        Ok(budgets) => budgets,
        Err(error) => {
            return Err(error);
        },
    };
    if !facts.evaluator_opens {
        return Err(ExecuteError::Internal);
    }
    let worker_digest: String = match facts.worker {
        Ok(digest) => digest,
        Err(error) => {
            return Err(error);
        },
    };
    let parent_environment_id: String = match name_job_environment(
        registry,
        parent,
        &facts.platform,
        worker_digest.as_str(),
        facts.parent_executable.as_ref(),
    ) {
        Some(id) => id,
        None => {
            return Err(ExecuteError::Internal);
        },
    };
    let candidate_environment_id: String = match name_job_environment(
        registry,
        candidate,
        &facts.platform,
        worker_digest.as_str(),
        facts.candidate_executable.as_ref(),
    ) {
        Some(id) => id,
        None => {
            return Err(ExecuteError::Internal);
        },
    };
    let own_candidate_environment: Option<String> = match arena_submit::pair_environments(
        parent_environment_id.as_str(),
        candidate_environment_id.as_str(),
        world.allow_mixed_environments,
    ) {
        Ok(own) => own,
        Err(error) => {
            return Err(error);
        },
    };
    let source_revision: String = match facts.revision {
        Ok(revision) => revision,
        Err(error) => {
            return Err(error);
        },
    };
    let receipt_timestamp_millis: i64 = match facts.timestamp_millis {
        Some(millis) => millis,
        None => {
            return Err(ExecuteError::Internal);
        },
    };
    let trials: Vec<PairTrial> = plan_trials(request.evaluation_id.as_str(), count);
    let binding = PairBinding {
        evaluation_id: request.evaluation_id,
        parent_genome_id: request.parent_genome_id,
        candidate_genome_id: request.candidate_genome_id,
        world_id: parent.record.world_id.clone(),
        visible_manifest_id,
        sealed_manifest_id,
        evaluator_id,
        source_revision,
        worker_digest,
        environment_id: parent_environment_id.clone(),
        candidate_environment_id: own_candidate_environment,
        budgets,
        receipt_timestamp_millis,
        remote: request.remote,
    };
    proof {
        assert(binds_pair(
            binding,
            *registry,
            asked,
            *world,
            *parent,
            *candidate,
            whole,
            budgets,
        ));
    }
    match arena_submit::admitted_record(binding) {
        Err(error) => Err(error),
        Ok(record) => {
            let parent_terms: SideTerms = side_terms(
                registry,
                parent,
                Ghost(whole.parent_prompt),
                parent_instruction,
                parent_environment_id,
            );
            let candidate_terms: SideTerms = side_terms(
                registry,
                candidate,
                Ghost(whole.candidate_prompt),
                candidate_instruction,
                candidate_environment_id,
            );
            proof {
                assert(text::texts(registry.providers@).len() == registry.providers@.len());
                if parent_terms.provider is Some {
                    assert(text::texts(registry.providers@)[parent_terms.provider->0 as int]
                        == parent.model_provider@);
                }
                if candidate_terms.provider is Some {
                    assert(text::texts(registry.providers@)[candidate_terms.provider->0 as int]
                        == candidate.model_provider@);
                }
            }
            let orders: Vec<RunOrder> = order_trials(
                registry,
                parent,
                candidate,
                &parent_terms,
                &candidate_terms,
                budgets.trial,
                &tasks,
                &trials,
            );
            let admission = PairAdmission::Fresh {
                record,
                parent: parent_terms,
                candidate: candidate_terms,
                tasks,
                trials,
                orders,
            };
            assert(admits_pair(admission, *registry, asked, whole, binding));
            Ok(admission)
        },
    }
}

/// Decides what a submitted paired evaluation comes to. `occupied` says whether a job or a
/// paired evaluation is running.
pub fn submit_arena_job(
    state: &ControlState,
    occupied: bool,
    request: PairRequest,
    facts: PairFacts,
) -> (result: Result<PairAdmission, ExecuteError>)
    requires
        state.wf(),
    ensures
        match arena_submit::pair_opening(
            state@,
            state.registered,
            occupied,
            request.evaluation_id@,
            request.parent_genome_id@,
            request.candidate_genome_id@,
        ) {
            Err(refusal) => result matches Err(error) && error@ == refusal,
            Ok(None) => result == Ok::<PairAdmission, ExecuteError>(
                PairAdmission::Existing(
                    ResponseData::ArenaJob {
                        job: arena_submit::progress(state@.arena_jobs[request.evaluation_id@]),
                    },
                ),
            ),
            Ok(Some(_)) => fresh_outcome(
                state.registered,
                request,
                facts.ground,
                facts.specified,
                result,
            ),
        },
{
    match arena_submit::open_pair(
        state,
        occupied,
        request.evaluation_id.as_str(),
        request.parent_genome_id.as_str(),
        request.candidate_genome_id.as_str(),
    ) {
        Err(error) => Err(error),
        Ok(PairOpening::Existing(response)) => Ok(PairAdmission::Existing(response)),
        Ok(PairOpening::Fresh(_)) => match plan_pair(&state.registered, request, facts.ground) {
            Err(error) => Err(error),
            Ok(admission) => if facts.specified {
                Ok(admission)
            } else {
                Err(ExecuteError::Internal)
            },
        },
    }
}

/// What submission admits, replay accepts: an admitted pair agrees with the registered World
/// and Genomes, its plan is consistent, and its steps from admission through launch or its
/// failure are valid transitions.
pub proof fn submitted_pairs_replay(
    projected: Projected,
    registry: Registry,
    occupied: bool,
    request: PairRequest,
    facts: PairGround,
    admission: PairAdmission,
)
    requires
        arena_submit::pair_opening(
            projected,
            registry,
            occupied,
            request.evaluation_id@,
            request.parent_genome_id@,
            request.candidate_genome_id@,
        ) matches Ok(Some(_)),
        fresh_outcome(registry, request, facts, true, Ok(admission)),
        ({
            let world_id = registry.genomes@[request.parent_genome_id@].record.world_id@;
            registry.worlds@[world_id].compiled_id@ == world_id
        }),
        arena_jobs::revision(facts.revision->Ok_0@),
        arena_jobs::digest_text(facts.worker->Ok_0@),
    ensures
        admission matches PairAdmission::Fresh { record, .. } && {
            let running = ArenaJobRecord {
                phase: ArenaJobPhase::ParentTrials,
                state: JobState::Running,
                ..record
            };
            let abandoned = ArenaJobRecord {
                phase: ArenaJobPhase::Terminal,
                state: JobState::Interrupted,
                terminal: Some(JobTerminal::Interrupted),
                ..running
            };
            &&& commands::job_identity(record.evaluation_id@)
            &&& arena_jobs::arena_registration_fault(registry, record) is None
            &&& arena_jobs::plan_shape(record)
            &&& arena_jobs::trial_order(record)
            &&& arena_jobs::plan_bytes(record) matches Some(plan) && arena_jobs::commitment(plan)
                == record.plan_commitment@
            &&& arena_jobs::arena_transition("arena.job.admitted"@, None, record, false)
            &&& arena_jobs::arena_transition("arena.job.running"@, Some(record), running, false)
            &&& arena_jobs::arena_transition("arena.job.terminal"@, Some(running), abandoned, false)
        },
{
    let parent = registry.genomes@[request.parent_genome_id@];
    let candidate = registry.genomes@[request.candidate_genome_id@];
    let world = registry.worlds@[parent.record.world_id@];
    let budgets = budgets_of(registry, parent, candidate, facts)->Ok_0;
    let binding = choose|binding: PairBinding| #[trigger]
        binds_pair(binding, registry, request, world, parent, candidate, facts, budgets)
            && admits_pair(admission, registry, request, facts, binding);
    let record = admission->Fresh_record;
    assert(arena_submit::admits(binding, record));
    arena_submit::admitted_evaluations_replay(binding, record);
    let digest = facts.worker->Ok_0@;
    side_environment_tells_provider(
        registry,
        parent,
        facts.platform,
        digest,
        facts.parent_executable,
    );
    side_environment_tells_provider(
        registry,
        candidate,
        facts.platform,
        digest,
        facts.candidate_executable,
    );
}

/// The environment of a Genome tells whether it runs under an external provider.
pub proof fn side_environment_tells_provider(
    registry: Registry,
    genome: GenomeEntry,
    platform: Platform,
    worker_digest: Seq<char>,
    executable_digest: Option<String>,
)
    requires
        job_environment(registry, genome, platform, worker_digest, executable_digest) is Some,
    ensures
        text::begins_with(
            job_environment(registry, genome, platform, worker_digest, executable_digest)->0,
            jobs::PROVIDER_ENVIRONMENT@,
        ) == registry::external_provider(registry, genome.model_provider@),
{
    reveal_strlit("reference-v1.");
    reveal_strlit("provider-v1.");
    let id = job_environment(registry, genome, platform, worker_digest, executable_digest)->0;
    if registry::external_provider(registry, genome.model_provider@) {
        assert(id.take(12) =~= "provider-v1."@);
    } else {
        assert(id[0] == 'r');
        assert(id.take(12)[0] == 'r');
    }
}

/// What specifying a run comes to.
pub enum SpecReply {
    /// The task context is not usable.
    ContextInvalid,
    /// The run specification is not usable.
    SpecificationInvalid,
    /// The task input is too large for an instruction.
    InputOversized,
    /// The run is specified over a source revision.
    Accepted {
        /// Source revision.
        source_revision: String,
    },
}

/// Why a run is not specified.
pub open spec fn spec_refusal(reply: SpecReply) -> Option<Refusal> {
    match reply {
        SpecReply::ContextInvalid => Some(Refusal::Invalid("evaluation context is invalid"@)),
        SpecReply::SpecificationInvalid => Some(Refusal::Invalid("run specification is invalid"@)),
        SpecReply::InputOversized => Some(Refusal::Invalid("reference task input is oversized"@)),
        SpecReply::Accepted { .. } => None,
    }
}

/// Takes the source revision of a specified run.
fn specified_revision(reply: SpecReply) -> (result: Result<String, ExecuteError>)
    ensures
        match spec_refusal(reply) {
            Some(refusal) => result matches Err(error) && error@ == refusal,
            None => result == Ok::<String, ExecuteError>(reply->source_revision),
        },
{
    match reply {
        SpecReply::ContextInvalid => Err(ExecuteError::Invalid("evaluation context is invalid")),
        SpecReply::SpecificationInvalid => Err(
            ExecuteError::Invalid("run specification is invalid"),
        ),
        SpecReply::InputOversized => Err(
            ExecuteError::Invalid("reference task input is oversized"),
        ),
        SpecReply::Accepted { source_revision } => Ok(source_revision),
    }
}

/// What has to be found out before the run of a job is ordered.
pub struct JobGround {
    /// Digest of the pinned reference worker.
    pub worker: Result<String, ExecuteError>,
    /// The Genome's prompt.
    pub prompt: PromptReading,
    /// Whether the pinned worker is what it was.
    pub worker_intact: Result<(), ExecuteError>,
    /// Digest of the executable of the Genome's provider.
    pub executable: Option<String>,
    /// Platform of the daemon.
    pub platform: Platform,
}

/// What has to be found out before a job is admitted, and what specifying its run came to.
pub struct JobFacts {
    /// What has to be found out.
    pub ground: JobGround,
    /// What specifying the ordered run came to.
    pub specification: SpecReply,
}

/// Why the run of a new job of a Genome is not ordered. The reference worker needs an instruction; an
/// external provider needs a cost ceiling that its World sets.
pub open spec fn job_order_refusal(registry: Registry, genome: GenomeEntry, facts: JobGround) -> Option<
    Refusal,
> {
    let world_id = genome.record.world_id@;
    if registry::external_provider(registry, genome.model_provider@) {
        error::first(
            error::need(facts.executable is Some, Refusal::Internal),
            error::first(
                error::need(registry.worlds@.contains_key(world_id), Refusal::Internal),
                error::need(
                    registry.worlds@[world_id].maximum_cost_microusd
                        <= arena_submit::MAX_EVALUATION_COST_MICROUSD,
                    Refusal::Invalid("evaluation budget is invalid"@),
                ),
            ),
        )
    } else {
        error::first(
            refused(facts.worker),
            error::first(
                instruction_refusal(genome, facts.prompt),
                error::first(
                    error::need(
                        instruction_of(genome, facts.prompt) is Some,
                        Refusal::Rejected(
                            "async reference jobs require a supported reference instruction"@,
                        ),
                    ),
                    refused(facts.worker_intact),
                ),
            ),
        )
    }
}

/// Why a new job of a Genome is refused: because its run is not ordered, or not specified.
pub open spec fn job_refusal(registry: Registry, genome: GenomeEntry, facts: JobFacts) -> Option<
    Refusal,
> {
    error::first(
        job_order_refusal(registry, genome, facts.ground),
        spec_refusal(facts.specification),
    )
}

/// The cost ceiling of a job of a Genome: its World's under an external provider, and nothing
/// otherwise.
pub open spec fn job_cost(registry: Registry, genome: GenomeEntry) -> u64 {
    if registry::external_provider(registry, genome.model_provider@) {
        registry.worlds@[genome.record.world_id@].maximum_cost_microusd
    } else {
        0
    }
}

/// What a submitted job comes to.
pub enum JobAdmission {
    /// The job is already recorded for this Genome; its progress is the answer.
    Existing(ResponseData),
    /// The job is admitted.
    Fresh {
        /// Its first record.
        record: JobRecord,
        /// Place of its external provider, where it runs under one.
        provider: Option<usize>,
        /// Its instruction, where the reference worker runs it.
        instruction: Option<String>,
    },
}

/// Whether a new job is admitted as its Genome and the facts determine.
pub open spec fn admits_fresh_job(
    admission: JobAdmission,
    registry: Registry,
    job_id: Seq<char>,
    genome: GenomeEntry,
    facts: JobFacts,
) -> bool {
    let environment_id = job_environment(
        registry,
        genome,
        facts.ground.platform,
        facts.ground.worker->Ok_0@,
        facts.ground.executable,
    );
    admission matches JobAdmission::Fresh { record, provider, instruction } && {
        &&& environment_id is Some
        &&& job_submit::admits_job(
            record,
            job_id,
            genome,
            facts.specification->source_revision@,
            environment_id->0,
            job_cost(registry, genome),
        )
        &&& match provider {
            Some(place) => {
                &&& place < registry.providers@.len()
                &&& registry.providers@[place as int]@ == genome.model_provider@
                &&& instruction is None
            },
            None => {
                &&& !registry::external_provider(registry, genome.model_provider@)
                &&& instruction == instruction_of(genome, facts.ground.prompt)
                &&& instruction is Some
            },
        }
    }
}

/// Whether the run of a job is ordered as its Genome and the facts determine: the one reference
/// task, in the environment and under the budget and authority that go with how it runs.
pub open spec fn orders_job(
    order: RunOrder,
    registry: Registry,
    job_id: Seq<char>,
    genome: GenomeEntry,
    facts: JobGround,
) -> bool {
    &&& order.run_id@ == ids::job_run(job_id)
    &&& order.genome_id == genome.record.genome_id
    &&& order.world_id == genome.record.world_id
    &&& order.task_id@ == jobs::REFERENCE_TASK@
    &&& order.input@ == jobs::REFERENCE_PROMPT@
    &&& order.seed == 0
    &&& Some(order.environment_id@) == job_environment(
        registry,
        genome,
        facts.platform,
        facts.worker->Ok_0@,
        facts.executable,
    )
    &&& order.budget == (RunBudgetReceipt {
        wall_millis: jobs::REFERENCE_WALL_MILLIS,
        maximum_output_bytes: jobs::REFERENCE_OUTPUT_BYTES,
        maximum_cost_microusd: job_cost(registry, genome),
    })
    &&& order.authority == authority_of(registry, genome)
    &&& match order.provider {
        Some(place) => {
            &&& place < registry.providers@.len()
            &&& registry.providers@[place as int]@ == genome.model_provider@
            &&& order.instruction is None
        },
        None => {
            &&& !registry::external_provider(registry, genome.model_provider@)
            &&& order.instruction == instruction_of(genome, facts.prompt)
            &&& order.instruction is Some
        },
    }
}

/// Puts an order for the one reference task together.
fn reference_order(
    job_id: &str,
    genome: &GenomeEntry,
    environment_id: String,
    cost: u64,
    provider: Option<usize>,
    instruction: Option<String>,
) -> (result: RunOrder)
    ensures
        result.run_id@ == ids::job_run(job_id@),
        result.genome_id == genome.record.genome_id,
        result.world_id == genome.record.world_id,
        result.task_id@ == jobs::REFERENCE_TASK@,
        result.input@ == jobs::REFERENCE_PROMPT@,
        result.seed == 0,
        result.environment_id == environment_id,
        result.budget == (RunBudgetReceipt {
            wall_millis: jobs::REFERENCE_WALL_MILLIS,
            maximum_output_bytes: jobs::REFERENCE_OUTPUT_BYTES,
            maximum_cost_microusd: cost,
        }),
        result.authority == (if provider is Some {
            Authority::Own
        } else {
            Authority::Nothing
        }),
        result.provider == provider,
        result.instruction == instruction,
{
    RunOrder {
        run_id: ids::job_run_id(job_id),
        genome_id: genome.record.genome_id.clone(),
        world_id: genome.record.world_id.clone(),
        task_id: jobs::REFERENCE_TASK.to_owned(),
        input: jobs::REFERENCE_PROMPT.to_owned(),
        seed: 0,
        environment_id,
        budget: RunBudgetReceipt {
            wall_millis: jobs::REFERENCE_WALL_MILLIS,
            maximum_output_bytes: jobs::REFERENCE_OUTPUT_BYTES,
            maximum_cost_microusd: cost,
        },
        authority: if provider.is_some() {
            Authority::Own
        } else {
            Authority::Nothing
        },
        provider,
        instruction,
    }
}

/// Orders the run of a job of a Genome, before anything specifies it.
pub fn order_job(registry: &Registry, job_id: &str, genome: &GenomeEntry, facts: JobGround) -> (result: Result<
    RunOrder,
    ExecuteError,
>)
    requires
        registry.wf(),
    ensures
        match job_order_refusal(*registry, *genome, facts) {
            Some(refusal) => result matches Err(error) && error@ == refusal,
            None => result matches Ok(order) && orders_job(
                order,
                *registry,
                job_id@,
                *genome,
                facts,
            ),
        },
{
    if let Some(place) = registry.provider_index(genome.model_provider.as_str()) {
        assert(text::texts(registry.providers@)[place as int] == genome.model_provider@);
        let environment_id: String = match name_job_environment(
            registry,
            genome,
            &facts.platform,
            "",
            facts.executable.as_ref(),
        ) {
            Some(id) => id,
            None => {
                return Err(ExecuteError::Internal);
            },
        };
        let cost: u64 = match registry.worlds.get(genome.record.world_id.as_str()) {
            Some(world) => world.maximum_cost_microusd,
            None => {
                return Err(ExecuteError::Internal);
            },
        };
        if cost > arena_submit::MAX_EVALUATION_COST_MICROUSD {
            return Err(ExecuteError::Invalid("evaluation budget is invalid"));
        }
        return Ok(reference_order(job_id, genome, environment_id, cost, Some(place), None));
    }
    let worker_digest: String = match facts.worker {
        Ok(digest) => digest,
        Err(error) => {
            return Err(error);
        },
    };
    let instruction: Option<String> = match read_instruction(genome, &facts.prompt) {
        Ok(instruction) => instruction,
        Err(error) => {
            return Err(error);
        },
    };
    if instruction.is_none() {
        return Err(
            rejected("async reference jobs require a supported reference instruction"),
        );
    }
    if let Err(error) = facts.worker_intact {
        return Err(error);
    }
    let environment_id: String = environment::reference_execution_environment(
        &facts.platform,
        worker_digest.as_str(),
    );
    Ok(reference_order(job_id, genome, environment_id, 0, None, instruction))
}

/// Admits a job whose run was ordered, by what specifying the run came to.
pub fn admit_job(job_id: &str, genome: &GenomeEntry, order: RunOrder, reply: SpecReply) -> (result: Result<
    JobAdmission,
    ExecuteError,
>)
    ensures
        match spec_refusal(reply) {
            Some(refusal) => result matches Err(error) && error@ == refusal,
            None => if order.budget.maximum_cost_microusd
                > arena_submit::MAX_EVALUATION_COST_MICROUSD {
                result == Err::<JobAdmission, ExecuteError>(
                    ExecuteError::Invalid("evaluation budget is invalid"),
                )
            } else {
                result matches Ok(JobAdmission::Fresh { record, provider, instruction }) && {
                    &&& job_submit::admits_job(
                        record,
                        job_id@,
                        *genome,
                        reply->source_revision@,
                        order.environment_id@,
                        order.budget.maximum_cost_microusd,
                    )
                    &&& provider == order.provider
                    &&& instruction == order.instruction
                }
            },
        },
{
    let source_revision: String = match specified_revision(reply) {
        Ok(revision) => revision,
        Err(error) => {
            return Err(error);
        },
    };
    match job_submit::admitted_job(
        job_id,
        genome,
        source_revision.as_str(),
        order.environment_id.as_str(),
        order.budget.maximum_cost_microusd,
    ) {
        Err(error) => Err(error),
        Ok(record) => Ok(
            JobAdmission::Fresh { record, provider: order.provider, instruction: order.instruction },
        ),
    }
}

/// Decides what a submitted job comes to. `arena_active` says whether a paired evaluation is
/// running.
pub fn submit_job(
    state: &ControlState,
    arena_active: bool,
    job_id: &str,
    genome_id: &str,
    facts: JobFacts,
) -> (result: Result<JobAdmission, ExecuteError>)
    requires
        state.wf(),
    ensures
        match job_submit::job_opening(state@, state.registered, arena_active, job_id@, genome_id@) {
            Err(refusal) => result matches Err(error) && error@ == refusal,
            Ok(false) => result matches Ok(JobAdmission::Existing(response))
                && job_submit::shows_job(response, state@.jobs[job_id@], state@),
            Ok(true) => {
                let genome = state.registered.genomes@[genome_id@];
                match job_refusal(state.registered, genome, facts) {
                    Some(refusal) => result matches Err(error) && error@ == refusal,
                    None => result matches Ok(admission) && admits_fresh_job(
                        admission,
                        state.registered,
                        job_id@,
                        genome,
                        facts,
                    ),
                }
            },
        },
{
    match job_submit::open_job(state, arena_active, job_id, genome_id) {
        Err(error) => Err(error),
        Ok(JobOpening::Existing(response)) => Ok(JobAdmission::Existing(response)),
        Ok(JobOpening::Fresh) => match state.registered.genomes.get(genome_id) {
            None => Err(ExecuteError::NotFound),
            Some(genome) => {
                match order_job(&state.registered, job_id, genome, facts.ground) {
                    Err(error) => Err(error),
                    Ok(order) => admit_job(job_id, genome, order, facts.specification),
                }
            },
        },
    }
}

/// What submission admits, replay accepts: an admitted job is bound as its Genome and the
/// reference task determine, its environment tells how it runs, and its steps from admission
/// through launch or its failure are valid transitions.
pub proof fn submitted_jobs_replay(
    registry: Registry,
    job_id: Seq<char>,
    genome_id: Seq<char>,
    facts: JobFacts,
    admission: JobAdmission,
)
    requires
        registry.genomes@.contains_key(genome_id),
        registry.genomes@[genome_id].record.genome_id@ == genome_id,
        admits_fresh_job(admission, registry, job_id, registry.genomes@[genome_id], facts),
    ensures
        admission matches JobAdmission::Fresh { record, .. } && {
            let genome = registry.genomes@[genome_id];
            let running = JobRecord { state: JobState::Running, ..record };
            let abandoned = JobRecord {
                state: JobState::Interrupted,
                terminal: Some(JobTerminal::Interrupted),
                ..running
            };
            &&& jobs::job_binding(registry, record, job_cost(registry, genome))
            &&& text::begins_with(record.environment_id@, jobs::PROVIDER_ENVIRONMENT@)
                == registry::external_provider(registry, genome.model_provider@)
            &&& jobs::job_transition("job.admitted"@, None, record, None, false)
            &&& jobs::job_transition("job.running"@, Some(record), running, None, false)
            &&& jobs::job_transition("job.terminal"@, Some(running), abandoned, None, false)
        },
{
    let genome = registry.genomes@[genome_id];
    let record = admission->Fresh_record;
    side_environment_tells_provider(
        registry,
        genome,
        facts.ground.platform,
        facts.ground.worker->Ok_0@,
        facts.ground.executable,
    );
    job_submit::admitted_jobs_replay(
        registry,
        record,
        job_id,
        genome,
        facts.specification->source_revision@,
        record.environment_id@,
        job_cost(registry, genome),
    );
}

/// What has to be found out before a direct run is ordered.
pub struct RunGround {
    /// The Genome's prompt.
    pub prompt: PromptReading,
    /// Digest of the pinned reference worker.
    pub worker: Result<String, ExecuteError>,
    /// Platform of the daemon.
    pub platform: Platform,
}

/// What has to be found out before an ordered direct run starts.
pub struct RunStart {
    /// What specifying the ordered run came to.
    pub specification: SpecReply,
    /// Whether the pinned worker is what it was.
    pub worker_intact: Result<(), ExecuteError>,
    /// Whether the runtime could be opened.
    pub runtime_opens: bool,
    /// Whether the sandbox could be created.
    pub sandbox_opens: bool,
}

/// What has to be found out before a direct run starts.
pub struct RunFacts {
    /// What has to be found out before it is ordered.
    pub ground: RunGround,
    /// What has to be found out once it is ordered.
    pub start: RunStart,
}

/// Whether the reference worker carries out a direct run of a Genome.
pub open spec fn runs_on_worker(registry: Registry, genome: GenomeEntry, facts: RunGround) -> bool {
    !registry::external_provider(registry, genome.model_provider@) && instruction_of(
        genome,
        facts.prompt,
    ) is Some
}

/// Why a direct run is not ordered.
pub open spec fn run_order_refusal(registry: Registry, context: RunContext, facts: RunGround) -> Option<
    Refusal,
> {
    let genome = registry.genomes@[context.genome_id@];
    error::first(
        error::need(
            arena_submit::admissible_budget(
                context.wall_millis,
                context.maximum_output_bytes,
                context.maximum_cost_microusd,
            ),
            Refusal::Invalid("evaluation budget is invalid"@),
        ),
        error::first(
            error::need(registry.genomes@.contains_key(context.genome_id@), Refusal::NotFound),
            error::first(
                if registry::external_provider(registry, genome.model_provider@) {
                    None
                } else {
                    instruction_refusal(genome, facts.prompt)
                },
                if runs_on_worker(registry, genome, facts) {
                    refused(facts.worker)
                } else {
                    None
                },
            ),
        ),
    )
}

/// Why an ordered direct run does not start.
pub open spec fn run_start_refusal(order: RunOrder, facts: RunStart) -> Option<Refusal> {
    error::first(
        spec_refusal(facts.specification),
        error::first(
            if order.instruction is Some {
                refused(facts.worker_intact)
            } else {
                None
            },
            error::need(facts.runtime_opens && facts.sandbox_opens, Refusal::Internal),
        ),
    )
}

/// Whether a direct run is ordered as its context and the facts determine.
pub open spec fn orders_run(
    order: RunOrder,
    registry: Registry,
    run_id: Seq<char>,
    context: RunContext,
    facts: RunGround,
) -> bool {
    let genome = registry.genomes@[context.genome_id@];
    &&& order.run_id@ == run_id
    &&& order.genome_id == context.genome_id
    &&& order.world_id == context.world_id
    &&& order.task_id == context.task_id
    &&& order.input == context.prompt
    &&& order.seed == context.seed
    &&& order.budget == (RunBudgetReceipt {
        wall_millis: context.wall_millis,
        maximum_output_bytes: context.maximum_output_bytes,
        maximum_cost_microusd: context.maximum_cost_microusd,
    })
    &&& order.authority == authority_of(registry, genome)
    &&& match order.provider {
        Some(place) => {
            &&& place < registry.providers@.len()
            &&& registry.providers@[place as int]@ == genome.model_provider@
            &&& order.instruction is None
            &&& order.environment_id@ == environment::runtime_identity(
                genome.model_provider@ + "-cli"@,
                facts.platform,
            )
        },
        None => {
            &&& !registry::external_provider(registry, genome.model_provider@)
            &&& order.instruction == instruction_of(genome, facts.prompt)
            &&& order.environment_id@ == (if order.instruction is Some {
                environment::reference_environment(facts.platform, facts.worker->Ok_0@)
            } else {
                environment::runtime_identity("deterministic"@, facts.platform)
            })
        },
    }
}

/// Orders a direct run, before anything specifies it: under its Genome's provider, by the
/// reference worker on the Genome's instruction, or by the deterministic runtime where the
/// Genome has none.
pub fn order_run(registry: &Registry, run_id: &str, context: &RunContext, facts: RunGround) -> (result: Result<
    RunOrder,
    ExecuteError,
>)
    requires
        registry.wf(),
    ensures
        match run_order_refusal(*registry, *context, facts) {
            Some(refusal) => result matches Err(error) && error@ == refusal,
            None => result matches Ok(order) && orders_run(
                order,
                *registry,
                run_id@,
                *context,
                facts,
            ),
        },
{
    let budget: RunBudgetReceipt = match arena_submit::validated_evaluation_budget(
        context.wall_millis,
        context.maximum_output_bytes,
        context.maximum_cost_microusd,
    ) {
        Ok(budget) => budget,
        Err(error) => {
            return Err(error);
        },
    };
    let genome: &GenomeEntry = match registry.genomes.get(context.genome_id.as_str()) {
        Some(genome) => genome,
        None => {
            return Err(ExecuteError::NotFound);
        },
    };
    let provider: Option<usize> = registry.provider_index(genome.model_provider.as_str());
    proof {
        if provider is Some {
            assert(text::texts(registry.providers@)[provider->0 as int] == genome.model_provider@);
        }
    }
    let mut instruction: Option<String> = None;
    if provider.is_none() {
        match read_instruction(genome, &facts.prompt) {
            Ok(read) => {
                instruction = read;
            },
            Err(error) => {
                return Err(error);
            },
        }
    }
    let environment_id: String = if provider.is_some() {
        let mut name: String = genome.model_provider.clone();
        name.append("-cli");
        environment::provider_execution_environment(name.as_str(), &facts.platform)
    } else if instruction.is_some() {
        match facts.worker {
            Ok(digest) => environment::reference_execution_environment(
                &facts.platform,
                digest.as_str(),
            ),
            Err(error) => {
                return Err(error);
            },
        }
    } else {
        environment::reference_environment_id(&facts.platform)
    };
    Ok(
        RunOrder {
            run_id: run_id.to_owned(),
            genome_id: context.genome_id.clone(),
            world_id: context.world_id.clone(),
            task_id: context.task_id.clone(),
            input: context.prompt.clone(),
            seed: context.seed,
            environment_id,
            budget,
            authority: if provider.is_some() {
                Authority::Own
            } else {
                Authority::Nothing
            },
            provider,
            instruction,
        },
    )
}

/// How a direct run is carried out.
pub struct DirectRun {
    /// What it was specified with.
    pub order: RunOrder,
    /// Source revision it sees.
    pub source_revision: String,
}

/// Starts an ordered direct run, by what specifying it and opening its runtime came to.
pub fn start_run(order: RunOrder, facts: RunStart) -> (result: Result<DirectRun, ExecuteError>)
    ensures
        match run_start_refusal(order, facts) {
            Some(refusal) => result matches Err(error) && error@ == refusal,
            None => result == Ok::<DirectRun, ExecuteError>(
                DirectRun { order, source_revision: facts.specification->source_revision },
            ),
        },
{
    let source_revision: String = match specified_revision(facts.specification) {
        Ok(revision) => revision,
        Err(error) => {
            return Err(error);
        },
    };
    if order.instruction.is_some() {
        if let Err(error) = facts.worker_intact {
            return Err(error);
        }
    }
    if !facts.runtime_opens || !facts.sandbox_opens {
        return Err(ExecuteError::Internal);
    }
    Ok(DirectRun { order, source_revision })
}

/// Decides how a direct run is carried out: it is ordered, and starts where specifying it and
/// opening its runtime succeeded.
pub fn run_with_context(registry: &Registry, run_id: &str, context: &RunContext, facts: RunFacts) -> (result: Result<
    DirectRun,
    ExecuteError,
>)
    requires
        registry.wf(),
    ensures
        match run_order_refusal(*registry, *context, facts.ground) {
            Some(refusal) => result matches Err(error) && error@ == refusal,
            None => exists|order: RunOrder| #[trigger]
                orders_run(order, *registry, run_id@, *context, facts.ground) && match run_start_refusal(
                    order,
                    facts.start,
                ) {
                    Some(refusal) => result matches Err(error) && error@ == refusal,
                    None => result == Ok::<DirectRun, ExecuteError>(
                        DirectRun {
                            order,
                            source_revision: facts.start.specification->source_revision,
                        },
                    ),
                },
        },
{
    match order_run(registry, run_id, context, facts.ground) {
        Err(error) => Err(error),
        Ok(order) => start_run(order, facts.start),
    }
}

} // verus!
