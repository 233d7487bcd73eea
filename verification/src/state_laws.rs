//! What holds of the projection, whatever the ledger brings.

use crate::arena_jobs;
use crate::arena_submit;
use crate::commands;
use crate::error::Refusal;
use crate::ids;
use crate::job_submit;
use crate::jobs;
use crate::ordered;
use crate::protocol::JobState;
use crate::records::StoredEvent;
use crate::registry::Registry;
use crate::state;
use crate::state::{EventPayload, Projected, RecordedEvent};
use crate::text;
use vstd::prelude::*;

verus! {

/// What every reachable projection keeps: records stand under their own identity, plans
/// are consistent, and no more trials are counted than a plan has.
pub open spec fn consistent(projected: Projected) -> bool {
    &&& forall|id: Seq<char>| #[trigger]
        projected.jobs.contains_key(id) ==> projected.jobs[id].job_id@ == id
            && projected.jobs[id].run_id@ == ids::job_run(id)
    &&& forall|id: Seq<char>| #[trigger]
        projected.arena_jobs.contains_key(id) ==> projected.arena_jobs[id].evaluation_id@ == id
            && arena_jobs::plan_shape(projected.arena_jobs[id]) && arena_jobs::trial_order(
            projected.arena_jobs[id],
        )
    &&& forall|id: Seq<char>| #[trigger]
        projected.run_results.contains_key(id) ==> projected.run_results[id].run_id@ == id
    &&& forall|id: Seq<char>| #[trigger]
        projected.worker_credentials.contains_key(id)
            ==> projected.worker_credentials[id].credential_id@ == id
    &&& forall|id: Seq<char>| #[trigger]
        projected.remote_jobs.contains_key(id) ==> projected.remote_jobs[id].job_id@ == id
}

/// The empty projection is consistent.
pub proof fn genesis_is_consistent()
    ensures
        consistent(state::genesis()),
{
}

/// The paired evaluation that a trial belongs to is in the projection.
proof fn trial_owner_is_recorded(projected: Projected, run_id: Seq<char>)
    requires
        state::trial_owner(projected.arena_jobs, run_id) is Some,
    ensures
        ({
            let owner = state::trial_owner(projected.arena_jobs, run_id)->0;
            &&& projected.arena_jobs.contains_key(owner)
            &&& arena_jobs::trial_place(projected.arena_jobs[owner], run_id) is Some
        }),
{
    let owner = choose|key: Seq<char>|
        ordered::is_least(projected.arena_jobs, state::has_trial(run_id), key);
    assert(ordered::is_least(projected.arena_jobs, state::has_trial(run_id), owner));
}

/// Every applied event keeps the projection consistent.
pub proof fn step_keeps_consistent(
    before: Projected,
    registry: Registry,
    event: StoredEvent,
    payload: EventPayload,
    operator_proof: bool,
)
    requires
        consistent(before),
        state::step(before, registry, event, payload, operator_proof) is Ok,
    ensures
        consistent(state::step(before, registry, event, payload, operator_proof)->Ok_0),
{
    match payload {
        EventPayload::RunResult(receipt) => {
            if state::trial_owner(before.arena_jobs, receipt.run_id@) is Some {
                trial_owner_is_recorded(before, receipt.run_id@);
                let owner = state::trial_owner(before.arena_jobs, receipt.run_id@)->0;
                let job = before.arena_jobs[owner];
                let runs = text::texts(job.ordered_trial_run_ids@);
                runs.index_of_first_ensures(receipt.run_id@);
                assert(before.arena_jobs.contains_key(owner));
            }
        },
        _ => {},
    }
}

/// Every history that replays gives a consistent projection.
pub proof fn replay_is_consistent(registry: Registry, history: Seq<RecordedEvent>, operator_proof: bool)
    requires
        state::replayed(registry, history, operator_proof) is Ok,
    ensures
        consistent(state::replayed(registry, history, operator_proof)->Ok_0),
    decreases history.len(),
{
    if history.len() > 0 {
        replay_is_consistent(registry, history.drop_last(), operator_proof);
        step_keeps_consistent(
            state::replayed(registry, history.drop_last(), operator_proof)->Ok_0,
            registry,
            history.last().event,
            history.last().payload,
            operator_proof,
        );
    }
}

/// A job that has ended keeps its record for good, and a job that has not keeps the
/// binding it was admitted under.
pub proof fn jobs_end_for_good(
    before: Projected,
    registry: Registry,
    event: StoredEvent,
    payload: EventPayload,
    operator_proof: bool,
    job_id: Seq<char>,
)
    requires
        before.jobs.contains_key(job_id),
        state::step(before, registry, event, payload, operator_proof) is Ok,
    ensures
        ({
            let after = state::step(before, registry, event, payload, operator_proof)->Ok_0;
            &&& after.jobs.contains_key(job_id)
            &&& jobs::same_binding(before.jobs[job_id], after.jobs[job_id])
            &&& !jobs::active(before.jobs[job_id].state) ==> after.jobs[job_id] == before.jobs[job_id]
        }),
{
}

/// A paired evaluation that has ended keeps its record for good, and one that has not
/// keeps its plan.
pub proof fn arena_jobs_end_for_good(
    before: Projected,
    registry: Registry,
    event: StoredEvent,
    payload: EventPayload,
    operator_proof: bool,
    evaluation_id: Seq<char>,
)
    requires
        before.arena_jobs.contains_key(evaluation_id),
        state::step(before, registry, event, payload, operator_proof) is Ok,
    ensures
        ({
            let after = state::step(before, registry, event, payload, operator_proof)->Ok_0;
            &&& after.arena_jobs.contains_key(evaluation_id)
            &&& arena_jobs::same_plan(before.arena_jobs[evaluation_id], after.arena_jobs[evaluation_id])
            &&& !jobs::active(before.arena_jobs[evaluation_id].state)
                ==> after.arena_jobs[evaluation_id] == before.arena_jobs[evaluation_id]
        }),
{
}

/// Trials are counted one at a time, each by the signed result of the next admitted trial.
pub proof fn trials_are_counted_in_order(
    before: Projected,
    registry: Registry,
    event: StoredEvent,
    payload: EventPayload,
    operator_proof: bool,
    evaluation_id: Seq<char>,
)
    requires
        consistent(before),
        before.arena_jobs.contains_key(evaluation_id),
        state::step(before, registry, event, payload, operator_proof) is Ok,
    ensures
        ({
            let old_job = before.arena_jobs[evaluation_id];
            let new_job = state::step(before, registry, event, payload, operator_proof)->Ok_0.arena_jobs[evaluation_id];
            ||| new_job.completed_trials == old_job.completed_trials
            ||| {
                &&& new_job.completed_trials == old_job.completed_trials + 1
                &&& old_job.completed_trials < old_job.total_trials
                &&& event.event_type@ == "run.result_recorded"@
                &&& payload matches EventPayload::RunResult(receipt) && receipt.run_id@
                    == ids::trial_run(
                    evaluation_id,
                    old_job.parent_trial_count as int,
                    old_job.completed_trials as int,
                )
            }
        }),
{
    match payload {
        EventPayload::RunResult(receipt) => {
            if state::trial_owner(before.arena_jobs, receipt.run_id@) is Some {
                trial_owner_is_recorded(before, receipt.run_id@);
                let owner = state::trial_owner(before.arena_jobs, receipt.run_id@)->0;
                let job = before.arena_jobs[owner];
                let runs = text::texts(job.ordered_trial_run_ids@);
                runs.index_of_first_ensures(receipt.run_id@);
                assert(before.arena_jobs.contains_key(owner));
                let place = arena_jobs::trial_place(job, receipt.run_id@)->0;
                assert(job.ordered_trial_run_ids@[place]@ == receipt.run_id@);
            }
        },
        _ => {},
    }
}

/// A job succeeds only over evidence: a matching signed result that reports success and a
/// completed lifecycle.
pub proof fn success_is_proven(
    before: Projected,
    registry: Registry,
    event: StoredEvent,
    payload: EventPayload,
    operator_proof: bool,
    job_id: Seq<char>,
)
    requires
        state::step(before, registry, event, payload, operator_proof) is Ok,
        state::step(before, registry, event, payload, operator_proof)->Ok_0.jobs.contains_key(job_id),
        state::step(before, registry, event, payload, operator_proof)->Ok_0.jobs[job_id].state
            == JobState::Succeeded,
        !before.jobs.contains_key(job_id) || before.jobs[job_id].state != JobState::Succeeded,
    ensures
        ({
            let job = state::step(before, registry, event, payload, operator_proof)->Ok_0.jobs[job_id];
            jobs::proves_success(
                ordered::bound(before.run_results, job.run_id@),
                before.completed_runs.contains(job.run_id@),
                job,
            )
        }),
{
}

/// A paired evaluation succeeds only after all its trials and with its receipt recorded.
pub proof fn arena_success_is_proven(
    before: Projected,
    registry: Registry,
    event: StoredEvent,
    payload: EventPayload,
    operator_proof: bool,
    evaluation_id: Seq<char>,
)
    requires
        state::step(before, registry, event, payload, operator_proof) is Ok,
        state::step(before, registry, event, payload, operator_proof)->Ok_0.arena_jobs.contains_key(
            evaluation_id,
        ),
        state::step(
            before,
            registry,
            event,
            payload,
            operator_proof,
        )->Ok_0.arena_jobs[evaluation_id].state == JobState::Succeeded,
        !before.arena_jobs.contains_key(evaluation_id) || before.arena_jobs[evaluation_id].state
            != JobState::Succeeded,
        consistent(before),
    ensures
        ({
            let job = state::step(before, registry, event, payload, operator_proof)->Ok_0.arena_jobs[evaluation_id];
            &&& before.evaluation_events.contains_key(evaluation_id)
            &&& job.completed_trials == job.total_trials
            &&& arena_jobs::carries_own_evaluation(job)
        }),
{
}

/// A revoked credential stays revoked, and no credential changes its worker or expiry.
pub proof fn revocation_is_final(
    before: Projected,
    registry: Registry,
    event: StoredEvent,
    payload: EventPayload,
    operator_proof: bool,
    credential_id: Seq<char>,
)
    requires
        before.worker_credentials.contains_key(credential_id),
        state::step(before, registry, event, payload, operator_proof) is Ok,
    ensures
        ({
            let old_credential = before.worker_credentials[credential_id];
            let after = state::step(before, registry, event, payload, operator_proof)->Ok_0;
            let new_credential = after.worker_credentials[credential_id];
            &&& after.worker_credentials.contains_key(credential_id)
            &&& old_credential.revoked ==> new_credential.revoked
            &&& new_credential.worker_id == old_credential.worker_id
            &&& new_credential.expires_at_millis == old_credential.expires_at_millis
            &&& new_credential.scope == old_credential.scope
        }),
{
}

/// Only an unfreeze that the operator's proof backs clears a freeze.
pub proof fn only_operator_proof_unfreezes(
    before: Projected,
    registry: Registry,
    event: StoredEvent,
    payload: EventPayload,
    operator_proof: bool,
)
    requires
        before.frozen,
        state::step(before, registry, event, payload, operator_proof) is Ok,
        !state::step(before, registry, event, payload, operator_proof)->Ok_0.frozen,
    ensures
        operator_proof,
        event.event_type@ == "control.unfreeze"@,
        event.actor@ == state::OPERATOR_ACTOR@,
        event.aggregate_id@ == state::CONTROL_AGGREGATE@,
{
    reveal_strlit("control.unfreeze");
    reveal_strlit("control.");
    assert("control.unfreeze"@.take("control."@.len() as int) =~= "control."@);
}

/// Without an accepted proof no history leaves the freeze.
pub proof fn unproven_history_stays_frozen(registry: Registry, history: Seq<RecordedEvent>)
    requires
        state::replayed(registry, history, false) is Ok,
    ensures
        state::replayed(registry, history, false)->Ok_0.frozen,
    decreases history.len(),
{
    if history.len() > 0 {
        unproven_history_stays_frozen(registry, history.drop_last());
        let before = state::replayed(registry, history.drop_last(), false)->Ok_0;
        if !state::replayed(registry, history, false)->Ok_0.frozen {
            only_operator_proof_unfreezes(
                before,
                registry,
                history.last().event,
                history.last().payload,
                false,
            );
        }
    }
}

/// Replaying a history is replaying its beginning and going on event by event.
pub proof fn replay_goes_on(
    registry: Registry,
    history: Seq<RecordedEvent>,
    next: RecordedEvent,
    operator_proof: bool,
)
    requires
        state::replayed(registry, history, operator_proof) is Ok,
    ensures
        state::replayed(registry, history.push(next), operator_proof) == state::step(
            state::replayed(registry, history, operator_proof)->Ok_0,
            registry,
            next.event,
            next.payload,
            operator_proof,
        ),
{
    assert(history.push(next).drop_last() == history);
}

/// An evaluation receipt is recorded at most once and keeps its place in the ledger.
pub proof fn evaluation_receipts_are_unique(
    before: Projected,
    registry: Registry,
    event: StoredEvent,
    payload: EventPayload,
    operator_proof: bool,
    evaluation_id: Seq<char>,
)
    requires
        before.evaluation_events.contains_key(evaluation_id),
        state::step(before, registry, event, payload, operator_proof) is Ok,
    ensures
        ({
            let after = state::step(before, registry, event, payload, operator_proof)->Ok_0;
            &&& after.evaluation_events.contains_key(evaluation_id)
            &&& after.evaluation_events[evaluation_id] == before.evaluation_events[evaluation_id]
        }),
{
}

/// What a history records of a job, every longer history that replays records too: the job
/// keeps its binding, and once it ended its whole record.
pub proof fn histories_keep_jobs(
    registry: Registry,
    history: Seq<RecordedEvent>,
    length: int,
    operator_proof: bool,
    job_id: Seq<char>,
)
    requires
        0 <= length <= history.len(),
        state::replayed(registry, history, operator_proof) is Ok,
        state::replayed(registry, history.take(length), operator_proof) is Ok,
        state::replayed(registry, history.take(length), operator_proof)->Ok_0.jobs.contains_key(
            job_id,
        ),
    ensures
        ({
            let early = state::replayed(registry, history.take(length), operator_proof)->Ok_0;
            let late = state::replayed(registry, history, operator_proof)->Ok_0;
            &&& late.jobs.contains_key(job_id)
            &&& jobs::same_binding(early.jobs[job_id], late.jobs[job_id])
            &&& !jobs::active(early.jobs[job_id].state) ==> late.jobs[job_id]
                == early.jobs[job_id]
        }),
    decreases history.len(),
{
    if length == history.len() {
        assert(history.take(length) == history);
    } else {
        let shorter = history.drop_last();
        assert(shorter.take(length) == history.take(length));
        histories_keep_jobs(registry, shorter, length, operator_proof, job_id);
        jobs_end_for_good(
            state::replayed(registry, shorter, operator_proof)->Ok_0,
            registry,
            history.last().event,
            history.last().payload,
            operator_proof,
            job_id,
        );
    }
}

/// What a history records of a paired evaluation, every longer history that replays records
/// too: the evaluation keeps its plan, and once it ended its whole record.
pub proof fn histories_keep_pairs(
    registry: Registry,
    history: Seq<RecordedEvent>,
    length: int,
    operator_proof: bool,
    evaluation_id: Seq<char>,
)
    requires
        0 <= length <= history.len(),
        state::replayed(registry, history, operator_proof) is Ok,
        state::replayed(registry, history.take(length), operator_proof) is Ok,
        state::replayed(
            registry,
            history.take(length),
            operator_proof,
        )->Ok_0.arena_jobs.contains_key(evaluation_id),
    ensures
        ({
            let early = state::replayed(registry, history.take(length), operator_proof)->Ok_0;
            let late = state::replayed(registry, history, operator_proof)->Ok_0;
            &&& late.arena_jobs.contains_key(evaluation_id)
            &&& arena_jobs::same_plan(
                early.arena_jobs[evaluation_id],
                late.arena_jobs[evaluation_id],
            )
            &&& !jobs::active(early.arena_jobs[evaluation_id].state)
                ==> late.arena_jobs[evaluation_id] == early.arena_jobs[evaluation_id]
        }),
    decreases history.len(),
{
    if length == history.len() {
        assert(history.take(length) == history);
    } else {
        let shorter = history.drop_last();
        assert(shorter.take(length) == history.take(length));
        histories_keep_pairs(registry, shorter, length, operator_proof, evaluation_id);
        arena_jobs_end_for_good(
            state::replayed(registry, shorter, operator_proof)->Ok_0,
            registry,
            history.last().event,
            history.last().payload,
            operator_proof,
            evaluation_id,
        );
    }
}

/// A job that a history records is never admitted again, however the history goes on: asking
/// for it with its Genome is answered with its progress, and with another Genome refused.
pub proof fn jobs_are_admitted_once(
    registry: Registry,
    history: Seq<RecordedEvent>,
    length: int,
    operator_proof: bool,
    arena_active: bool,
    job_id: Seq<char>,
    genome_id: Seq<char>,
)
    requires
        0 <= length <= history.len(),
        state::replayed(registry, history, operator_proof) is Ok,
        state::replayed(registry, history.take(length), operator_proof) is Ok,
        state::replayed(registry, history.take(length), operator_proof)->Ok_0.jobs.contains_key(
            job_id,
        ),
        commands::job_identity(job_id),
    ensures
        ({
            let early = state::replayed(registry, history.take(length), operator_proof)->Ok_0;
            let late = state::replayed(registry, history, operator_proof)->Ok_0;
            job_submit::job_opening(late, registry, arena_active, job_id, genome_id) == (
            if genome_id == early.jobs[job_id].genome_id@ {
                Ok(false)
            } else {
                Err(Refusal::Rejected("job id is already bound to another Genome"@))
            })
        }),
{
    histories_keep_jobs(registry, history, length, operator_proof, job_id);
}

/// A paired evaluation that a history records is never admitted again, however the history
/// goes on: asking for it with its pair is answered with its progress, and with another pair
/// refused.
pub proof fn pairs_are_admitted_once(
    registry: Registry,
    history: Seq<RecordedEvent>,
    length: int,
    operator_proof: bool,
    occupied: bool,
    evaluation_id: Seq<char>,
    parent_genome_id: Seq<char>,
    candidate_genome_id: Seq<char>,
)
    requires
        0 <= length <= history.len(),
        state::replayed(registry, history, operator_proof) is Ok,
        state::replayed(registry, history.take(length), operator_proof) is Ok,
        state::replayed(
            registry,
            history.take(length),
            operator_proof,
        )->Ok_0.arena_jobs.contains_key(evaluation_id),
        commands::job_identity(evaluation_id),
    ensures
        ({
            let early = state::replayed(registry, history.take(length), operator_proof)->Ok_0;
            let late = state::replayed(registry, history, operator_proof)->Ok_0;
            let pair = early.arena_jobs[evaluation_id];
            arena_submit::pair_opening(
                late,
                registry,
                occupied,
                evaluation_id,
                parent_genome_id,
                candidate_genome_id,
            ) == (if parent_genome_id == pair.parent_genome_id@ && candidate_genome_id
                == pair.candidate_genome_id@ {
                Ok(None::<Seq<char>>)
            } else {
                Err(
                    Refusal::Rejected("evaluation id is already bound to another Genome pair"@),
                )
            })
        }),
{
    histories_keep_pairs(registry, history, length, operator_proof, evaluation_id);
}

/// While evolution is frozen no new work is admitted: neither a job, nor a paired evaluation,
/// nor a remote job.
pub proof fn frozen_daemons_admit_nothing(
    projected: Projected,
    registry: Registry,
    occupied: bool,
    job_id: Seq<char>,
    genome_id: Seq<char>,
    candidate_genome_id: Seq<char>,
)
    requires
        projected.frozen,
    ensures
        !(job_submit::job_opening(projected, registry, occupied, job_id, genome_id) matches Ok(true)),
        !(arena_submit::pair_opening(
            projected,
            registry,
            occupied,
            job_id,
            genome_id,
            candidate_genome_id,
        ) matches Ok(Some(_))),
        arena_submit::runnable(projected, registry, genome_id) is Err,
{
}

} // verus!
