//! What a submitted paired evaluation, job or direct run comes to, said of its inputs and its
//! result alone.

use crate::admission;
use crate::admission::{
    Authority, DirectRun, JobAdmission, JobFacts, JobGround, PairAdmission, PairFacts, PairGround,
    PairRequest, RunFacts, RunOrder, RunStart, SpecReply,
};
use crate::arena_submit;
use crate::arena_submit::PairBinding;
use crate::error::ExecuteError;
use crate::ids;
use crate::job_submit;
use crate::job_submit::JobOpening;
use crate::jobs;
use crate::protocol::{ArenaJobPhase, JobState, ResponseData};
use crate::registry;
use crate::registry::{GenomeEntry, Registry};
use crate::runs::RunContext;
use crate::state::ControlState;
use crate::text;
use vstd::prelude::*;

verus! {

/// What an admitted pair is bound to.
proof fn admitted_binding(
    registry: Registry,
    request: PairRequest,
    facts: PairGround,
    admission: PairAdmission,
) -> (binding: PairBinding)
    requires
        admission::fresh_outcome(registry, request, facts, true, Ok(admission)),
    ensures
        ({
            let own = registry.genomes@[request.parent_genome_id@];
            let other = registry.genomes@[request.candidate_genome_id@];
            let world = registry.worlds@[own.record.world_id@];
            &&& admission::preparation_refusal(registry, own, other, facts) is None
            &&& admission::launch_refusal(registry, world, own, other, facts) is None
            &&& admission::budgets_of(registry, own, other, facts) is Ok
            &&& admission::binds_pair(
                binding,
                registry,
                request,
                world,
                own,
                other,
                facts,
                admission::budgets_of(registry, own, other, facts)->Ok_0,
            )
            &&& admission::admits_pair(admission, registry, request, facts, binding)
        }),
{
    let own = registry.genomes@[request.parent_genome_id@];
    let other = registry.genomes@[request.candidate_genome_id@];
    let world = registry.worlds@[own.record.world_id@];
    let budgets = admission::budgets_of(registry, own, other, facts)->Ok_0;
    choose|binding: PairBinding| #[trigger]
        admission::binds_pair(binding, registry, request, world, own, other, facts, budgets)
            && admission::admits_pair(admission, registry, request, facts, binding)
}

/// A Genome at whose provider's place a registry names it runs under an external provider.
proof fn sides_name_their_provider(registry: Registry, genome: GenomeEntry, provider: Option<usize>)
    requires
        provider matches Some(place) ==> place < registry.providers@.len()
            && registry.providers@[place as int]@ == genome.model_provider@,
    ensures
        provider is Some ==> registry::external_provider(registry, genome.model_provider@),
{
    if let Some(place) = provider {
        assert(text::texts(registry.providers@)[place as int] == genome.model_provider@);
    }
}

/// A paired evaluation runs each task once with the parent and once with the candidate, each on
/// the instruction that its own prompt parses to, which is the identity where it has no prompt;
/// under an external provider a Genome runs without an instruction and with its own authority.
pub proof fn trials_run_their_own_genomes(
    registry: Registry,
    request: PairRequest,
    facts: PairGround,
    result: Result<PairAdmission, ExecuteError>,
    i: int,
)
    requires
        registry.wf(),
        registry.genomes@.contains_key(request.parent_genome_id@),
        registry.genomes@.contains_key(request.candidate_genome_id@),
        call_ensures(admission::plan_pair, (&registry, request, facts), result),
        result is Ok,
        0 <= i < 2 * (facts.visible_tasks->0@.len() + facts.sealed_tasks->0@.len()),
    ensures
        result matches Ok(PairAdmission::Fresh { record, tasks, trials, orders, .. }) && ({
            let visible = facts.visible_tasks->0@;
            let sealed = facts.sealed_tasks->0@;
            let count = visible.len() + sealed.len();
            let second = i >= count;
            let place = if second {
                i - count
            } else {
                i
            };
            let genome = if second {
                registry.genomes@[request.candidate_genome_id@]
            } else {
                registry.genomes@[request.parent_genome_id@]
            };
            let reading = if second {
                facts.candidate_prompt
            } else {
                facts.parent_prompt
            };
            let order = orders@[i];
            &&& facts.visible_tasks is Some && facts.sealed_tasks is Some
            &&& orders@.len() == 2 * count
            &&& trials@.len() == 2 * count
            &&& trials@[i].candidate == second
            &&& trials@[i].task == place
            &&& trials@[i].run_id == order.run_id
            &&& order.genome_id@ == genome.record.genome_id@
            &&& order.world_id@ == genome.record.world_id@
            &&& order.task_id@ == (if place < visible.len() {
                visible[place].task_id@
            } else {
                sealed[place - visible.len()].task_id@
            })
            &&& order.input@ == (if place < visible.len() {
                visible[place].input@
            } else {
                sealed[place - visible.len()].input@
            })
            &&& order.seed == record.seed
            &&& order.budget == record.trial_budget
            &&& registry::external_provider(registry, genome.model_provider@) ==> {
                &&& order.authority == Authority::Own
                &&& order.instruction is None
                &&& order.provider matches Some(at) && at < registry.providers@.len()
                    && registry.providers@[at as int]@ == genome.model_provider@
            }
            &&& !registry::external_provider(registry, genome.model_provider@) ==> {
                &&& order.authority == Authority::Nothing
                &&& order.provider is None
                &&& order.instruction is Some
                &&& genome.prompt_artifact_id is None ==> order.instruction->0@ == "identity"@
                &&& genome.prompt_artifact_id is Some ==> reading.operation is Some
                    && order.instruction->0@ == reading.operation->0@
            }
        }),
{
    let own = registry.genomes@[request.parent_genome_id@];
    let other = registry.genomes@[request.candidate_genome_id@];
    let admission = result->Ok_0;
    let binding = admitted_binding(registry, request, facts, admission);
    let orders = admission->orders@;
    let trials = admission->trials@;
    assert(admission::is_trial(
        trials[i],
        request.evaluation_id@,
        admission::task_count(facts),
        i,
    ));
    sides_name_their_provider(registry, own, admission->parent.provider);
    sides_name_their_provider(registry, other, admission->candidate.provider);
    assert(admission::orders_trial(
        orders[i],
        registry,
        if trials[i].candidate {
            other
        } else {
            own
        },
        if trials[i].candidate {
            admission->candidate
        } else {
            admission->parent
        },
        binding.budgets.trial,
        admission->tasks@[trials[i].task as int],
        trials[i],
    ));
}

/// An admitted paired evaluation is recorded for the Genomes, the World and the manifests that it
/// was asked for, with every planned trial still to come; its trials spend what the World allows
/// where an external provider takes part and nothing otherwise, and the whole evaluation may take
/// what all of its trials may.
pub proof fn admitted_pairs_are_recorded_as_asked(
    registry: Registry,
    request: PairRequest,
    facts: PairGround,
    result: Result<PairAdmission, ExecuteError>,
)
    requires
        registry.wf(),
        registry.genomes@.contains_key(request.parent_genome_id@),
        registry.genomes@.contains_key(request.candidate_genome_id@),
        call_ensures(admission::plan_pair, (&registry, request, facts), result),
        result is Ok,
    ensures
        result matches Ok(PairAdmission::Fresh { record, orders, .. }) && ({
            let own = registry.genomes@[request.parent_genome_id@];
            let other = registry.genomes@[request.candidate_genome_id@];
            let world = registry.worlds@[own.record.world_id@];
            let count = facts.visible_tasks->0@.len() + facts.sealed_tasks->0@.len();
            let spends = registry::external_provider(registry, own.model_provider@)
                || registry::external_provider(registry, other.model_provider@);
            &&& registry.worlds@.contains_key(own.record.world_id@)
            &&& record.evaluation_id@ == request.evaluation_id@
            &&& record.job_id@ == request.evaluation_id@
            &&& record.parent_genome_id@ == request.parent_genome_id@
            &&& record.candidate_genome_id@ == request.candidate_genome_id@
            &&& record.world_id@ == own.record.world_id@
            &&& Some(record.visible_manifest_id) == world.visible_manifest
            &&& Some(record.sealed_manifest_id) == world.sealed_manifest
            &&& Some(record.evaluator_id) == world.evaluator
            &&& facts.revision matches Ok(revision) && record.source_revision == revision
            &&& facts.worker matches Ok(digest) && record.worker_digest == digest
            &&& facts.timestamp_millis == Some(record.receipt_timestamp_millis)
            &&& record.remote == request.remote
            &&& facts.evaluator_opens
            &&& 1 <= count <= 1000
            &&& record.total_trials == 2 * count
            &&& record.parent_trial_count == count
            &&& record.completed_trials == 0
            &&& record.state == JobState::Admitted
            &&& record.phase == ArenaJobPhase::Preparing
            &&& record.terminal is None
            &&& record.evaluation is None
            &&& record.ordered_trial_run_ids@.len() == orders@.len()
            &&& forall|i: int|
                0 <= i < orders@.len() ==> #[trigger] record.ordered_trial_run_ids@[i]@
                    == orders@[i].run_id@
            &&& record.trial_budget.maximum_cost_microusd == (if spends {
                world.maximum_cost_microusd
            } else {
                0
            })
            &&& record.trial_budget.wall_millis == 10_000
            &&& record.trial_budget.maximum_output_bytes == 1_048_576
            &&& record.overall_budget.maximum_cost_microusd == record.total_trials
                * record.trial_budget.maximum_cost_microusd
            &&& record.overall_budget.maximum_output_bytes == record.total_trials
                * record.trial_budget.maximum_output_bytes
            &&& 0 < record.overall_budget.wall_millis <= (record.total_trials + 1)
                * record.trial_budget.wall_millis
            &&& facts.requested_wall is None ==> record.overall_budget.wall_millis == (
            record.total_trials + 1) * record.trial_budget.wall_millis
        }),
{
    let own = registry.genomes@[request.parent_genome_id@];
    let other = registry.genomes@[request.candidate_genome_id@];
    let world = registry.worlds@[own.record.world_id@];
    let admission = result->Ok_0;
    let binding = admitted_binding(registry, request, facts, admission);
    let spends = admission::pair_spends(registry, own, other);
    let cost = arena_submit::trial_cost(world, spends);
    let count = admission::task_count(facts);
    arena_submit::overall_budget_covers_trials(cost, count);
    let record = admission->record;
    let orders = admission->orders@;
    let trials = admission->trials@;
    assert forall|i: int| 0 <= i < orders.len() implies #[trigger] record.ordered_trial_run_ids@[i]@
        == orders[i].run_id@ by {
        assert(admission::is_trial(trials[i], request.evaluation_id@, count, i));
        assert(orders[i].run_id == trials[i].run_id);
    }
}

/// Each side of a paired evaluation runs in the environment that the evaluation records for it:
/// two Genomes on the reference worker share one, and a Genome under an external provider never
/// shares one with a Genome on the worker.
pub proof fn trials_run_in_recorded_environments(
    registry: Registry,
    request: PairRequest,
    facts: PairGround,
    result: Result<PairAdmission, ExecuteError>,
    i: int,
)
    requires
        registry.wf(),
        registry.genomes@.contains_key(request.parent_genome_id@),
        registry.genomes@.contains_key(request.candidate_genome_id@),
        call_ensures(admission::plan_pair, (&registry, request, facts), result),
        result is Ok,
    ensures
        result matches Ok(PairAdmission::Fresh { record, orders, parent, candidate, .. }) && ({
            let own = registry.genomes@[request.parent_genome_id@];
            let other = registry.genomes@[request.candidate_genome_id@];
            let world = registry.worlds@[own.record.world_id@];
            let first = registry::external_provider(registry, own.model_provider@);
            let second = registry::external_provider(registry, other.model_provider@);
            &&& 0 <= i < record.parent_trial_count ==> orders@[i].environment_id@
                == record.environment_id@
            &&& record.parent_trial_count <= i < orders@.len() ==> orders@[i].environment_id@ == (
            match record.candidate_environment_id {
                Some(id) => id@,
                None => record.environment_id@,
            })
            &&& record.candidate_environment_id matches Some(id) ==> world.allow_mixed_environments
                && id@ != record.environment_id@
            &&& !first && !second ==> record.candidate_environment_id is None
            &&& first != second ==> record.candidate_environment_id is Some
            &&& text::begins_with(record.environment_id@, "provider-v1."@) == first
            &&& record.candidate_environment_id matches Some(id) ==> text::begins_with(
                id@,
                "provider-v1."@,
            ) == second
        }),
{
    let own = registry.genomes@[request.parent_genome_id@];
    let other = registry.genomes@[request.candidate_genome_id@];
    let admission = result->Ok_0;
    let binding = admitted_binding(registry, request, facts, admission);
    let digest = facts.worker->Ok_0@;
    admission::side_environment_tells_provider(
        registry,
        own,
        facts.platform,
        digest,
        facts.parent_executable,
    );
    admission::side_environment_tells_provider(
        registry,
        other,
        facts.platform,
        digest,
        facts.candidate_executable,
    );
    let orders = admission->orders@;
    let trials = admission->trials@;
    if 0 <= i < orders.len() {
        assert(admission::is_trial(
            trials[i],
            request.evaluation_id@,
            admission::task_count(facts),
            i,
        ));
        assert(orders[i].run_id == trials[i].run_id);
    }
}

/// Submitting a pair the other way round orders the same runs with its halves exchanged: what
/// the first Genome was ordered as the parent, it is ordered as the candidate.
pub proof fn exchanged_pairs_exchange_their_runs(
    registry: Registry,
    request: PairRequest,
    facts: PairGround,
    result: Result<PairAdmission, ExecuteError>,
    back_request: PairRequest,
    back_facts: PairGround,
    back: Result<PairAdmission, ExecuteError>,
    i: int,
)
    requires
        registry.wf(),
        registry.genomes@.contains_key(request.parent_genome_id@),
        registry.genomes@.contains_key(request.candidate_genome_id@),
        registry.genomes@[request.parent_genome_id@].record.world_id
            == registry.genomes@[request.candidate_genome_id@].record.world_id,
        back_request.parent_genome_id == request.candidate_genome_id,
        back_request.candidate_genome_id == request.parent_genome_id,
        back_facts == (PairGround {
            parent_prompt: facts.candidate_prompt,
            candidate_prompt: facts.parent_prompt,
            parent_executable: facts.candidate_executable,
            candidate_executable: facts.parent_executable,
            ..facts
        }),
        call_ensures(admission::plan_pair, (&registry, request, facts), result),
        call_ensures(admission::plan_pair, (&registry, back_request, back_facts), back),
        result is Ok,
        back is Ok,
        0 <= i < facts.visible_tasks->0@.len() + facts.sealed_tasks->0@.len(),
    ensures
        ({
            let count = facts.visible_tasks->0@.len() + facts.sealed_tasks->0@.len();
            let there = result->Ok_0->orders@;
            let here = back->Ok_0->orders@;
            &&& same_run(there[i], here[i + count])
            &&& same_run(there[i + count], here[i])
        }),
{
    let count = (facts.visible_tasks->0@.len() + facts.sealed_tasks->0@.len()) as int;
    let first = admitted_binding(registry, request, facts, result->Ok_0);
    let second = admitted_binding(registry, back_request, back_facts, back->Ok_0);
    trials_run_their_own_genomes(registry, request, facts, result, i);
    trials_run_their_own_genomes(registry, request, facts, result, i + count);
    trials_run_their_own_genomes(registry, back_request, back_facts, back, i);
    trials_run_their_own_genomes(registry, back_request, back_facts, back, i + count);
    let there = result->Ok_0->orders@;
    let here = back->Ok_0->orders@;
    assert(there[i] == there[i] && there[i + count] == there[i + count]);
    assert(here[i] == here[i] && here[i + count] == here[i + count]);
}

/// Whether two orders run the same Genome on the same task in the same way.
pub open spec fn same_run(a: RunOrder, b: RunOrder) -> bool {
    &&& a.genome_id@ == b.genome_id@
    &&& a.world_id@ == b.world_id@
    &&& a.task_id@ == b.task_id@
    &&& a.input@ == b.input@
    &&& a.seed == b.seed
    &&& a.environment_id@ == b.environment_id@
    &&& a.budget == b.budget
    &&& a.authority == b.authority
    &&& a.provider is Some == b.provider is Some
    &&& match (a.instruction, b.instruction) {
        (Some(first), Some(second)) => first@ == second@,
        (None, None) => true,
        _ => false,
    }
}

/// A submitted paired evaluation begins only on a free and unfrozen daemon, for two different
/// registered Genomes of one World, and under a new identity; what it begins is what planning the
/// pair gives.
pub proof fn pairs_begin_only_on_a_free_daemon(
    state: ControlState,
    occupied: bool,
    request: PairRequest,
    facts: PairFacts,
    result: Result<PairAdmission, ExecuteError>,
    id: Seq<char>,
)
    requires
        state.wf(),
        call_ensures(admission::submit_arena_job, (&state, occupied, request, facts), result),
    ensures
        result matches Ok(PairAdmission::Fresh { .. }) ==> {
            let genomes = state.registered.genomes@;
            &&& !occupied
            &&& !state.frozen
            &&& facts.specified
            &&& request.parent_genome_id@ != request.candidate_genome_id@
            &&& genomes.contains_key(request.parent_genome_id@)
            &&& genomes.contains_key(request.candidate_genome_id@)
            &&& genomes[request.parent_genome_id@].record.world_id@
                == genomes[request.candidate_genome_id@].record.world_id@
            &&& !state@.arena_jobs.contains_key(request.evaluation_id@)
            &&& state@.jobs.contains_key(id) ==> state@.jobs[id].state != JobState::Admitted
                && state@.jobs[id].state != JobState::Running && state@.jobs[id].state
                != JobState::CancellationRequested
            &&& state@.arena_jobs.contains_key(id) ==> state@.arena_jobs[id].state
                != JobState::Admitted && state@.arena_jobs[id].state != JobState::Running
                && state@.arena_jobs[id].state != JobState::CancellationRequested
            &&& admission::fresh_outcome(state.registered, request, facts.ground, true, result)
        },
        result matches Ok(PairAdmission::Existing(response)) ==> {
            &&& state@.arena_jobs.contains_key(request.evaluation_id@)
            &&& ({
                let known = state@.arena_jobs[request.evaluation_id@];
                &&& known.parent_genome_id@ == request.parent_genome_id@
                &&& known.candidate_genome_id@ == request.candidate_genome_id@
                &&& response matches ResponseData::ArenaJob { job } && job.evaluation_id
                    == known.evaluation_id && job.state == known.state && job.phase == known.phase
                    && job.completed_trials == known.completed_trials && job.total_trials
                    == known.total_trials && job.evaluation == known.evaluation
            })
        },
        state@.arena_jobs.contains_key(request.evaluation_id@)
            && state@.arena_jobs[request.evaluation_id@].parent_genome_id@
            != request.parent_genome_id@ ==> result is Err,
        state@.arena_jobs.contains_key(request.evaluation_id@)
            && state@.arena_jobs[request.evaluation_id@].candidate_genome_id@
            != request.candidate_genome_id@ ==> result is Err,
{
    assert(jobs::active(JobState::Admitted) && jobs::active(JobState::Running) && jobs::active(
        JobState::CancellationRequested,
    ));
}

/// The runs of a submitted paired evaluation are those of the pair that was asked for, each on
/// its own Genome's instruction.
pub proof fn submitted_pairs_run_their_own_genomes(
    state: ControlState,
    occupied: bool,
    request: PairRequest,
    facts: PairFacts,
    result: Result<PairAdmission, ExecuteError>,
    i: int,
)
    requires
        state.wf(),
        call_ensures(admission::submit_arena_job, (&state, occupied, request, facts), result),
        result matches Ok(PairAdmission::Fresh { .. }),
        0 <= i < result->Ok_0->orders@.len(),
    ensures
        ({
            let count = facts.ground.visible_tasks->0@.len() + facts.ground.sealed_tasks->0@.len();
            let order = result->Ok_0->orders@[i];
            let genome = state.registered.genomes@[if i < count {
                request.parent_genome_id@
            } else {
                request.candidate_genome_id@
            }];
            let reading = if i < count {
                facts.ground.parent_prompt
            } else {
                facts.ground.candidate_prompt
            };
            &&& result->Ok_0->orders@.len() == 2 * count
            &&& order.genome_id@ == genome.record.genome_id@
            &&& order.instruction matches Some(operation) ==> operation@ == (
            if genome.prompt_artifact_id is None {
                "identity"@
            } else {
                reading.operation->0@
            })
            &&& order.instruction is None <==> registry::external_provider(
                state.registered,
                genome.model_provider@,
            )
        }),
{
    let own = state.registered.genomes@[request.parent_genome_id@];
    let other = state.registered.genomes@[request.candidate_genome_id@];
    let admission = result->Ok_0;
    let binding = admitted_binding(state.registered, request, facts.ground, admission);
    let trials = admission->trials@;
    assert(admission::is_trial(
        trials[i],
        request.evaluation_id@,
        admission::task_count(facts.ground),
        i,
    ));
    sides_name_their_provider(state.registered, own, admission->parent.provider);
    sides_name_their_provider(state.registered, other, admission->candidate.provider);
    assert(admission->orders@[i].run_id == trials[i].run_id);
}

/// A job runs its own Genome on the one reference task: on the instruction of that Genome's
/// prompt under the worker, and under its provider with its World's cost ceiling otherwise. It
/// begins only on a free and unfrozen daemon and under a new identity.
pub proof fn jobs_run_their_own_genome(
    state: ControlState,
    arena_active: bool,
    job_id: &str,
    genome_id: &str,
    facts: JobFacts,
    result: Result<JobAdmission, ExecuteError>,
    id: Seq<char>,
)
    requires
        state.wf(),
        call_ensures(
            admission::submit_job,
            (&state, arena_active, job_id, genome_id, facts),
            result,
        ),
        result matches Ok(JobAdmission::Fresh { .. }),
    ensures
        result matches Ok(JobAdmission::Fresh { record, provider, instruction }) && ({
            let registry = state.registered;
            let genome = registry.genomes@[genome_id@];
            &&& !arena_active
            &&& !state.frozen
            &&& registry.genomes@.contains_key(genome_id@)
            &&& !state@.jobs.contains_key(job_id@)
            &&& state@.jobs.contains_key(id) ==> state@.jobs[id].state != JobState::Admitted
                && state@.jobs[id].state != JobState::Running && state@.jobs[id].state
                != JobState::CancellationRequested
            &&& record.job_id@ == job_id@
            &&& record.genome_id@ == genome.record.genome_id@
            &&& record.world_id@ == genome.record.world_id@
            &&& record.run_id@ == ids::job_run(job_id@)
            &&& facts.specification matches SpecReply::Accepted { source_revision }
                && record.source_revision@ == source_revision@
            &&& record.seed == 0
            &&& record.state == JobState::Admitted
            &&& record.terminal is None
            &&& provider is Some <==> registry::external_provider(registry, genome.model_provider@)
            &&& provider matches Some(at) ==> at < registry.providers@.len()
                && registry.providers@[at as int]@ == genome.model_provider@ && instruction is None
                && record.budget.maximum_cost_microusd
                == registry.worlds@[genome.record.world_id@].maximum_cost_microusd
            &&& provider is None ==> genome.prompt_artifact_id is Some && instruction
                == facts.ground.prompt.operation && instruction is Some
                && record.budget.maximum_cost_microusd == 0
            &&& record.budget.wall_millis == 10_000
            &&& record.budget.maximum_output_bytes == 1_048_576
        }),
{
    assert(jobs::active(JobState::Admitted) && jobs::active(JobState::Running) && jobs::active(
        JobState::CancellationRequested,
    ));
    let genome = state.registered.genomes@[genome_id@];
    sides_name_their_provider(state.registered, genome, result->Ok_0->provider);
}

/// A job is recorded as its run was ordered: with the same run, Genome, World, task, seed,
/// environment, budget, provider and instruction.
pub proof fn jobs_are_recorded_as_ordered(
    registry: Registry,
    job_id: &str,
    genome: GenomeEntry,
    facts: JobGround,
    order: RunOrder,
    reply: SpecReply,
    result: Result<JobAdmission, ExecuteError>,
)
    requires
        registry.wf(),
        call_ensures(admission::order_job, (&registry, job_id, &genome, facts), Ok(order)),
        call_ensures(admission::admit_job, (job_id, &genome, order, reply), result),
        result is Ok,
    ensures
        result matches Ok(JobAdmission::Fresh { record, provider, instruction }) && {
            &&& record.run_id@ == order.run_id@
            &&& record.genome_id@ == order.genome_id@
            &&& record.world_id@ == order.world_id@
            &&& record.task_id@ == order.task_id@
            &&& record.seed == order.seed
            &&& record.environment_id@ == order.environment_id@
            &&& record.budget == order.budget
            &&& provider == order.provider
            &&& instruction == order.instruction
            &&& order.genome_id@ == genome.record.genome_id@
            &&& (order.authority == Authority::Own) == (order.provider is Some)
            &&& (order.instruction is None) == (order.provider is Some)
            &&& order.instruction is Some ==> order.instruction == facts.prompt.operation
            &&& order.provider is Some <==> registry::external_provider(
                registry,
                genome.model_provider@,
            )
        },
{
    sides_name_their_provider(registry, genome, order.provider);
}

/// A direct run is carried out as it was asked for, by its own Genome: under its provider, or by
/// the worker on the instruction of its prompt, or by the deterministic runtime where it has none.
pub proof fn direct_runs_are_carried_out_as_asked(
    registry: Registry,
    run_id: &str,
    context: RunContext,
    facts: RunFacts,
    result: Result<DirectRun, ExecuteError>,
)
    requires
        registry.wf(),
        call_ensures(admission::run_with_context, (&registry, run_id, &context, facts), result),
        result is Ok,
    ensures
        result matches Ok(run) && ({
            let genome = registry.genomes@[context.genome_id@];
            let external = registry::external_provider(registry, genome.model_provider@);
            &&& registry.genomes@.contains_key(context.genome_id@)
            &&& run.order.run_id@ == run_id@
            &&& run.order.genome_id@ == context.genome_id@
            &&& run.order.world_id@ == context.world_id@
            &&& run.order.task_id@ == context.task_id@
            &&& run.order.input@ == context.prompt@
            &&& run.order.seed == context.seed
            &&& run.order.budget.wall_millis == context.wall_millis
            &&& run.order.budget.maximum_output_bytes == context.maximum_output_bytes
            &&& run.order.budget.maximum_cost_microusd == context.maximum_cost_microusd
            &&& 0 < context.wall_millis <= 86_400_000
            &&& 0 < context.maximum_output_bytes <= 67_108_864
            &&& context.maximum_cost_microusd <= 1_000_000_000
            &&& run.order.provider is Some <==> external
            &&& (run.order.authority == Authority::Own) == external
            &&& external ==> run.order.instruction is None
            &&& !external && genome.prompt_artifact_id is Some ==> run.order.instruction
                == facts.ground.prompt.operation && run.order.instruction is Some
            &&& !external && genome.prompt_artifact_id is None ==> run.order.instruction is None
            &&& facts.start.specification matches SpecReply::Accepted { source_revision }
                && run.source_revision == source_revision
            &&& facts.start.runtime_opens && facts.start.sandbox_opens
            &&& run.order.instruction is Some ==> facts.start.worker_intact is Ok
        }),
{
    let order = choose|order: RunOrder| #[trigger]
        admission::orders_run(order, registry, run_id@, context, facts.ground)
            && result == Ok::<DirectRun, ExecuteError>(
            DirectRun { order, source_revision: facts.start.specification->source_revision },
        );
    let genome = registry.genomes@[context.genome_id@];
    sides_name_their_provider(registry, genome, result->Ok_0.order.provider);
}

/// A repeated submission of a recorded job is answered with that job, and one under the same
/// identity for another Genome is refused.
pub proof fn recorded_jobs_are_answered(
    state: ControlState,
    arena_active: bool,
    job_id: &str,
    genome_id: &str,
    result: Result<JobOpening, ExecuteError>,
)
    requires
        state.wf(),
        call_ensures(
            job_submit::open_job,
            (&state, arena_active, job_id, genome_id),
            result,
        ),
        state@.jobs.contains_key(job_id@),
    ensures
        !(result matches Ok(JobOpening::Fresh)),
        state@.jobs[job_id@].genome_id@ != genome_id@ ==> result is Err,
        result matches Ok(JobOpening::Existing(ResponseData::Job { job, .. })) ==> job
            == state@.jobs[job_id@],
        result matches Ok(JobOpening::Existing(response)) ==> response is Job,
{
}

/// A direct run starts as it was ordered, over the revision that it was specified with, and only
/// where the worker that it needs is still the pinned one and its runtime and sandbox open.
pub proof fn direct_runs_start_as_ordered(
    order: RunOrder,
    facts: RunStart,
    run: DirectRun,
)
    requires
        call_ensures(
            admission::start_run,
            (order, facts),
            Ok::<DirectRun, ExecuteError>(run),
        ),
    ensures
        run.order == order,
        facts.specification is Accepted && run.source_revision
            == facts.specification->source_revision,
        facts.runtime_opens && facts.sandbox_opens,
        order.instruction is Some ==> facts.worker_intact is Ok,
{
}

} // verus!
