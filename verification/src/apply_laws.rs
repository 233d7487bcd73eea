//! What recorded events change in the state that is projected from them, said of the state
//! before and after alone.

use crate::arena_jobs;
use crate::commands;
use crate::error::ControlError;
use crate::job_submit;
use crate::ordered;
use crate::protocol::{ArenaJobPhase, Command, JobRecord, JobState};
use crate::records::{ArenaJobRecord, RunResultReceipt, StoredEvent, TraceKind};
use crate::registry::Registry;
use crate::state;
use crate::state::{ControlState, EventPayload, RecordedEvent};
use crate::text;
use vstd::prelude::*;

verus! {

/// Evolution is frozen at first. A recorded freeze freezes it, a recorded unfreeze frees it and
/// takes the operator's proof, and no other event changes that; an event of the one type does
/// not record the command of the other.
pub proof fn only_operators_unfreeze(
    state: &mut ControlState,
    event: StoredEvent,
    payload: EventPayload,
    operator_proof: bool,
)
    requires
        old(state).wf(),
        call_ensures(
            ControlState::apply,
            (state, &event, payload, operator_proof),
            Ok::<(), ControlError>(()),
        ),
    ensures
        event.event_type@ == "control.freeze"@ ==> final(state).frozen,
        event.event_type@ == "control.unfreeze"@ ==> !final(state).frozen && operator_proof,
        event.event_type@ != "control.freeze"@ && event.event_type@ != "control.unfreeze"@
            ==> final(state).frozen == old(state).frozen,
        old(state).frozen && !final(state).frozen ==> operator_proof && (
        payload matches EventPayload::Command(recorded) && recorded.command is Unfreeze),
        !old(state).frozen && final(state).frozen ==> (
        payload matches EventPayload::Command(recorded) && recorded.command is Freeze),
        payload matches EventPayload::Command(recorded) && recorded.command is Freeze
            && event.event_type@ != "control.request_rejected"@ && text::begins_with(
            event.event_type@,
            "control."@,
        ) ==> final(state).frozen,
{
    reveal_strlit("control.freeze");
    reveal_strlit("control.unfreeze");
    reveal_strlit("control.request_rejected");
    reveal_strlit("control.");
    assert("control.freeze"@.len() == 14 && "control.unfreeze"@.len() == 16
        && "control.request_rejected"@.len() == 24);
    assert("control.freeze"@.take(8) =~= "control."@);
    assert("control.unfreeze"@.take(8) =~= "control."@);
    if let EventPayload::Command(recorded) = payload {
        audited_freezes(recorded.command);
    }
}

/// The audit types of freezing and unfreezing are of these two commands alone.
proof fn audited_freezes(command: Command)
    ensures
        commands::audit_type(command)@ == "control.freeze"@ <==> command is Freeze,
        commands::audit_type(command)@ == "control.unfreeze"@ <==> command is Unfreeze,
{
    reveal_strlit("control.freeze");
    reveal_strlit("control.status");
    assert("control.status"@[8] != "control.freeze"@[8]);
    reveal_strlit("control.unfreeze");
    assert("control.unfreeze"@.len() != "control.freeze"@.len());
    reveal_strlit("control.kill_all");
    assert("control.kill_all"@.len() != "control.freeze"@.len());
    reveal_strlit("control.genome_show");
    assert("control.genome_show"@.len() != "control.freeze"@.len());
    reveal_strlit("control.genome_prompt");
    assert("control.genome_prompt"@.len() != "control.freeze"@.len());
    reveal_strlit("control.genome_list");
    assert("control.genome_list"@.len() != "control.freeze"@.len());
    reveal_strlit("control.genome_register");
    assert("control.genome_register"@.len() != "control.freeze"@.len());
    reveal_strlit("control.genome_propose");
    assert("control.genome_propose"@.len() != "control.freeze"@.len());
    reveal_strlit("control.genome_assess");
    assert("control.genome_assess"@.len() != "control.freeze"@.len());
    reveal_strlit("control.forge_analyze");
    assert("control.forge_analyze"@.len() != "control.freeze"@.len());
    reveal_strlit("control.world_show");
    assert("control.world_show"@.len() != "control.freeze"@.len());
    reveal_strlit("control.world_list");
    assert("control.world_list"@.len() != "control.freeze"@.len());
    reveal_strlit("control.world_register");
    assert("control.world_register"@.len() != "control.freeze"@.len());
    reveal_strlit("control.manifest_put");
    assert("control.manifest_put"@.len() != "control.freeze"@.len());
    reveal_strlit("control.artifact_put");
    assert("control.artifact_put"@.len() != "control.freeze"@.len());
    reveal_strlit("control.verifier_show");
    assert("control.verifier_show"@.len() != "control.freeze"@.len());
    reveal_strlit("control.run_submit");
    assert("control.run_submit"@.len() != "control.freeze"@.len());
    reveal_strlit("control.job_status");
    assert("control.job_status"@.len() != "control.freeze"@.len());
    reveal_strlit("control.job_kill");
    assert("control.job_kill"@.len() != "control.freeze"@.len());
    reveal_strlit("control.run_reference");
    assert("control.run_reference"@.len() != "control.freeze"@.len());
    reveal_strlit("control.run_evaluation");
    assert("control.run_evaluation"@.len() != "control.freeze"@.len());
    reveal_strlit("control.evaluate_pair");
    assert("control.evaluate_pair"@.len() != "control.freeze"@.len());
    reveal_strlit("control.arena_select");
    assert("control.arena_select"@.len() != "control.freeze"@.len());
    reveal_strlit("control.arena_invariants");
    assert("control.arena_invariants"@.len() != "control.freeze"@.len());
    reveal_strlit("control.champion_seed");
    assert("control.champion_seed"@.len() != "control.freeze"@.len());
    reveal_strlit("control.champion_promote");
    assert("control.champion_promote"@.len() != "control.freeze"@.len());
    reveal_strlit("control.champion_rollback");
    assert("control.champion_rollback"@.len() != "control.freeze"@.len());
    reveal_strlit("control.champion_show");
    assert("control.champion_show"@.len() != "control.freeze"@.len());
    reveal_strlit("control.drift_record");
    assert("control.drift_record"@.len() != "control.freeze"@.len());
    reveal_strlit("control.drift_show");
    assert("control.drift_show"@.len() != "control.freeze"@.len());
    reveal_strlit("control.drift_list");
    assert("control.drift_list"@.len() != "control.freeze"@.len());
    reveal_strlit("control.canary_start");
    assert("control.canary_start"@.len() != "control.freeze"@.len());
    reveal_strlit("control.canary_advance");
    assert("control.canary_advance"@.len() != "control.freeze"@.len());
    reveal_strlit("control.canary_live_check");
    assert("control.canary_live_check"@.len() != "control.freeze"@.len());
    reveal_strlit("control.canary_show");
    assert("control.canary_show"@.len() != "control.freeze"@.len());
    reveal_strlit("control.canary_list");
    assert("control.canary_list"@.len() != "control.freeze"@.len());
    reveal_strlit("control.gene_extract");
    assert("control.gene_extract"@.len() != "control.freeze"@.len());
    reveal_strlit("control.gene_transfer");
    assert("control.gene_transfer"@.len() != "control.freeze"@.len());
    reveal_strlit("control.gene_record");
    assert("control.gene_record"@.len() != "control.freeze"@.len());
    reveal_strlit("control.gene_show");
    assert("control.gene_show"@.len() != "control.freeze"@.len());
    reveal_strlit("control.gene_list");
    assert("control.gene_list"@.len() != "control.freeze"@.len());
    reveal_strlit("control.gene_speciate");
    assert("control.gene_speciate"@.len() != "control.freeze"@.len());
    reveal_strlit("control.evolve_start");
    assert("control.evolve_start"@.len() != "control.freeze"@.len());
    reveal_strlit("control.evolve_status");
    assert("control.evolve_status"@.len() != "control.freeze"@.len());
    reveal_strlit("control.evolve_cancel");
    assert("control.evolve_cancel"@.len() != "control.freeze"@.len());
    reveal_strlit("control.meta_strategy_register");
    assert("control.meta_strategy_register"@.len() != "control.freeze"@.len());
    reveal_strlit("control.meta_strategy_show");
    assert("control.meta_strategy_show"@.len() != "control.freeze"@.len());
    reveal_strlit("control.meta_strategy_list");
    assert("control.meta_strategy_list"@.len() != "control.freeze"@.len());
    reveal_strlit("control.meta_evaluate");
    assert("control.meta_evaluate"@.len() != "control.freeze"@.len());
    reveal_strlit("control.meta_show");
    assert("control.meta_show"@.len() != "control.freeze"@.len());
    reveal_strlit("control.meta_list");
    assert("control.meta_list"@.len() != "control.freeze"@.len());
    reveal_strlit("control.replay");
    assert("control.replay"@[8] != "control.freeze"@[8]);
    reveal_strlit("control.run_list");
    assert("control.run_list"@.len() != "control.freeze"@.len());
    reveal_strlit("control.evaluation_list");
    assert("control.evaluation_list"@.len() != "control.freeze"@.len());
    reveal_strlit("control.denial_list");
    assert("control.denial_list"@.len() != "control.freeze"@.len());
    reveal_strlit("control.daemon_stop");
    assert("control.daemon_stop"@.len() != "control.freeze"@.len());
    reveal_strlit("mcp.call");
    assert("mcp.call"@.len() != "control.freeze"@.len());
    reveal_strlit("control.worker_credential_mint");
    assert("control.worker_credential_mint"@.len() != "control.freeze"@.len());
    reveal_strlit("control.worker_credential_revoke");
    assert("control.worker_credential_revoke"@.len() != "control.freeze"@.len());
    reveal_strlit("control.remote_run_submit");
    assert("control.remote_run_submit"@.len() != "control.freeze"@.len());
    reveal_strlit("control.remote_job_status");
    assert("control.remote_job_status"@.len() != "control.freeze"@.len());
    assert("control.status"@.len() != "control.unfreeze"@.len());
    assert("control.freeze"@.len() != "control.unfreeze"@.len());
    assert("control.kill_all"@[8] != "control.unfreeze"@[8]);
    assert("control.genome_show"@.len() != "control.unfreeze"@.len());
    assert("control.genome_prompt"@.len() != "control.unfreeze"@.len());
    assert("control.genome_list"@.len() != "control.unfreeze"@.len());
    assert("control.genome_register"@.len() != "control.unfreeze"@.len());
    assert("control.genome_propose"@.len() != "control.unfreeze"@.len());
    assert("control.genome_assess"@.len() != "control.unfreeze"@.len());
    assert("control.forge_analyze"@.len() != "control.unfreeze"@.len());
    assert("control.world_show"@.len() != "control.unfreeze"@.len());
    assert("control.world_list"@.len() != "control.unfreeze"@.len());
    assert("control.world_register"@.len() != "control.unfreeze"@.len());
    assert("control.manifest_put"@.len() != "control.unfreeze"@.len());
    assert("control.artifact_put"@.len() != "control.unfreeze"@.len());
    assert("control.verifier_show"@.len() != "control.unfreeze"@.len());
    assert("control.run_submit"@.len() != "control.unfreeze"@.len());
    assert("control.job_status"@.len() != "control.unfreeze"@.len());
    assert("control.job_kill"@[8] != "control.unfreeze"@[8]);
    assert("control.run_reference"@.len() != "control.unfreeze"@.len());
    assert("control.run_evaluation"@.len() != "control.unfreeze"@.len());
    assert("control.evaluate_pair"@.len() != "control.unfreeze"@.len());
    assert("control.arena_select"@.len() != "control.unfreeze"@.len());
    assert("control.arena_invariants"@.len() != "control.unfreeze"@.len());
    assert("control.champion_seed"@.len() != "control.unfreeze"@.len());
    assert("control.champion_promote"@.len() != "control.unfreeze"@.len());
    assert("control.champion_rollback"@.len() != "control.unfreeze"@.len());
    assert("control.champion_show"@.len() != "control.unfreeze"@.len());
    assert("control.drift_record"@.len() != "control.unfreeze"@.len());
    assert("control.drift_show"@.len() != "control.unfreeze"@.len());
    assert("control.drift_list"@.len() != "control.unfreeze"@.len());
    assert("control.canary_start"@.len() != "control.unfreeze"@.len());
    assert("control.canary_advance"@.len() != "control.unfreeze"@.len());
    assert("control.canary_live_check"@.len() != "control.unfreeze"@.len());
    assert("control.canary_show"@.len() != "control.unfreeze"@.len());
    assert("control.canary_list"@.len() != "control.unfreeze"@.len());
    assert("control.gene_extract"@.len() != "control.unfreeze"@.len());
    assert("control.gene_transfer"@.len() != "control.unfreeze"@.len());
    assert("control.gene_record"@.len() != "control.unfreeze"@.len());
    assert("control.gene_show"@.len() != "control.unfreeze"@.len());
    assert("control.gene_list"@.len() != "control.unfreeze"@.len());
    assert("control.gene_speciate"@.len() != "control.unfreeze"@.len());
    assert("control.evolve_start"@.len() != "control.unfreeze"@.len());
    assert("control.evolve_status"@.len() != "control.unfreeze"@.len());
    assert("control.evolve_cancel"@.len() != "control.unfreeze"@.len());
    assert("control.meta_strategy_register"@.len() != "control.unfreeze"@.len());
    assert("control.meta_strategy_show"@.len() != "control.unfreeze"@.len());
    assert("control.meta_strategy_list"@.len() != "control.unfreeze"@.len());
    assert("control.meta_evaluate"@.len() != "control.unfreeze"@.len());
    assert("control.meta_show"@.len() != "control.unfreeze"@.len());
    assert("control.meta_list"@.len() != "control.unfreeze"@.len());
    assert("control.replay"@.len() != "control.unfreeze"@.len());
    assert("control.run_list"@[8] != "control.unfreeze"@[8]);
    assert("control.evaluation_list"@.len() != "control.unfreeze"@.len());
    assert("control.denial_list"@.len() != "control.unfreeze"@.len());
    assert("control.daemon_stop"@.len() != "control.unfreeze"@.len());
    assert("mcp.call"@.len() != "control.unfreeze"@.len());
    assert("control.worker_credential_mint"@.len() != "control.unfreeze"@.len());
    assert("control.worker_credential_revoke"@.len() != "control.unfreeze"@.len());
    assert("control.remote_run_submit"@.len() != "control.unfreeze"@.len());
    assert("control.remote_job_status"@.len() != "control.unfreeze"@.len());
}

/// The ledger is projected up to the event that was applied last.
pub proof fn states_count_their_events(
    state: &mut ControlState,
    event: StoredEvent,
    payload: EventPayload,
    operator_proof: bool,
    result: Result<(), ControlError>,
)
    requires
        old(state).wf(),
        call_ensures(ControlState::apply, (state, &event, payload, operator_proof), result),
    ensures
        result is Ok ==> final(state).event_count == event.sequence,
        result is Err ==> final(state).event_count == old(state).event_count,
        final(state).registered == old(state).registered,
{
}

/// The record of a job changes only by an event that holds its new record, as a transition that
/// is valid for it; no other job changes with it.
pub proof fn jobs_change_by_their_own_records(
    state: &mut ControlState,
    event: StoredEvent,
    payload: EventPayload,
    operator_proof: bool,
    id: Seq<char>,
)
    requires
        old(state).wf(),
        call_ensures(
            ControlState::apply,
            (state, &event, payload, operator_proof),
            Ok::<(), ControlError>(()),
        ),
    ensures
        ({
            let before = ordered::bound(old(state).jobs@, id);
            let after = ordered::bound(final(state).jobs@, id);
            before != after ==> {
                &&& payload is Job && after == Some(payload->Job_0) && id == payload->Job_0.job_id@
                &&& before matches Some(record) ==> record.run_id@ == after->0.run_id@
                    && record.genome_id@ == after->0.genome_id@ && (record.state
                    == JobState::Admitted || record.state == JobState::Running || record.state
                    == JobState::CancellationRequested)
                &&& before is None <==> after->0.state == JobState::Admitted
                &&& after->0.state == JobState::Succeeded ==> old(state).completed_runs@.contains_key(
                    after->0.run_id@,
                ) && old(state).run_results@.contains_key(after->0.run_id@)
            }
        }),
        (event.event_type@ == "job.admitted"@ || event.event_type@ == "job.running"@
            || event.event_type@ == "job.terminal"@) && payload is Job
            ==> final(state).jobs@.contains_key(payload->Job_0.job_id@)
            && final(state).jobs@[payload->Job_0.job_id@] == payload->Job_0,
{
    job_submit::job_event_types_differ();
    if event.event_type@ == "job.admitted"@ || event.event_type@ == "job.running"@
        || event.event_type@ == "job.terminal"@ {
        job_types_stand_apart(event.event_type@);
    }
}

/// The event types of jobs are no others that are projected.
proof fn job_types_stand_apart(kind: Seq<char>)
    requires
        kind == "job.admitted"@ || kind == "job.running"@ || kind == "job.terminal"@,
    ensures
        kind != "control.freeze"@ && kind != "control.unfreeze"@,
        kind != "run.started"@ && kind != "run.completed"@ && kind != "trace.recorded"@,
        kind != "run.result_recorded"@,
{
    reveal_strlit("job.admitted");
    reveal_strlit("job.running");
    reveal_strlit("job.terminal");
    reveal_strlit("control.freeze");
    reveal_strlit("control.unfreeze");
    reveal_strlit("run.started");
    reveal_strlit("run.completed");
    reveal_strlit("trace.recorded");
    reveal_strlit("run.result_recorded");
    assert("job.admitted"@[0] == 'j' && "job.running"@[0] == 'j' && "job.terminal"@[0] == 'j');
    assert("control.freeze"@[0] == 'c' && "control.unfreeze"@[0] == 'c');
    assert("run.started"@[0] == 'r' && "run.completed"@[0] == 'r' && "run.result_recorded"@[0]
        == 'r' && "trace.recorded"@[0] == 't');
}

/// The record of a pair changes only by an event that holds its new record, or by the signed
/// result of its next trial, which completes one trial more and leaves its plan as it is.
pub proof fn pairs_change_by_their_own_records(
    state: &mut ControlState,
    event: StoredEvent,
    payload: EventPayload,
    operator_proof: bool,
    id: Seq<char>,
)
    requires
        old(state).wf(),
        call_ensures(
            ControlState::apply,
            (state, &event, payload, operator_proof),
            Ok::<(), ControlError>(()),
        ),
    ensures
        ({
            let before = ordered::bound(old(state).arena_jobs@, id);
            let after = ordered::bound(final(state).arena_jobs@, id);
            before != after ==> {
                ||| {
                    &&& payload is ArenaJob && after == Some(payload->ArenaJob_0)
                    &&& id == payload->ArenaJob_0.evaluation_id@
                    &&& before is Some ==> before->0.completed_trials == after->0.completed_trials
                }
                ||| {
                    &&& payload is RunResult && before is Some && after is Some
                    &&& after->0.completed_trials == before->0.completed_trials + 1
                    &&& after->0.completed_trials == before->0.parent_trial_count
                        ==> after->0.phase == ArenaJobPhase::CandidateTrials
                    &&& after->0.completed_trials != before->0.parent_trial_count
                        ==> after->0.phase == before->0.phase
                    &&& after->0.state == before->0.state && after->0.parent_genome_id
                        == before->0.parent_genome_id && after->0.candidate_genome_id
                        == before->0.candidate_genome_id && after->0.plan_commitment
                        == before->0.plan_commitment && after->0.total_trials
                        == before->0.total_trials
                    &&& (payload->RunResult_0).genome_id@ == (if before->0.completed_trials
                        < before->0.parent_trial_count {
                        before->0.parent_genome_id@
                    } else {
                        before->0.candidate_genome_id@
                    })
                    &&& (payload->RunResult_0).world_id@ == before->0.world_id@
                    &&& (payload->RunResult_0).budget == before->0.trial_budget
                }
            }
        }),
{
}

/// A run has a result only by an event that holds it, and the result kept is that one.
pub proof fn results_are_kept_as_recorded(
    state: &mut ControlState,
    event: StoredEvent,
    payload: EventPayload,
    operator_proof: bool,
    run_id: Seq<char>,
)
    requires
        old(state).wf(),
        call_ensures(
            ControlState::apply,
            (state, &event, payload, operator_proof),
            Ok::<(), ControlError>(()),
        ),
    ensures
        ordered::bound(old(state).run_results@, run_id) != ordered::bound(
            final(state).run_results@,
            run_id,
        ) ==> payload is RunResult && (payload->RunResult_0).run_id@ == run_id
            && final(state).run_results@.contains_key(run_id)
            && final(state).run_results@[run_id] == payload->RunResult_0,
{
}

/// A run is completed only by a trace that says so, and stays completed.
pub proof fn runs_complete_by_their_trace(
    state: &mut ControlState,
    event: StoredEvent,
    payload: EventPayload,
    operator_proof: bool,
    run_id: Seq<char>,
)
    requires
        old(state).wf(),
        call_ensures(
            ControlState::apply,
            (state, &event, payload, operator_proof),
            Ok::<(), ControlError>(()),
        ),
    ensures
        old(state)@.completed_runs.contains(run_id) ==> final(state)@.completed_runs.contains(
            run_id,
        ),
        !old(state)@.completed_runs.contains(run_id) && final(state)@.completed_runs.contains(
            run_id,
        ) ==> payload is Trace && (payload->Trace_0).run_id@ == run_id && (payload->Trace_0).kind
            == TraceKind::LifecycleCompleted && !final(state)@.active_runs.contains(run_id),
{
}

/// A run becomes active by its start, by the trace of its start or by its running job, and
/// ceases to be by its completion or by the end of its job.
pub proof fn runs_are_active_between_start_and_end(
    state: &mut ControlState,
    event: StoredEvent,
    payload: EventPayload,
    operator_proof: bool,
    run_id: Seq<char>,
)
    requires
        old(state).wf(),
        call_ensures(
            ControlState::apply,
            (state, &event, payload, operator_proof),
            Ok::<(), ControlError>(()),
        ),
    ensures
        !old(state)@.active_runs.contains(run_id) && final(state)@.active_runs.contains(run_id)
            ==> {
            ||| event.event_type@ == "run.started"@ && payload is Run && payload->Run_0@ == run_id
            ||| payload is Trace && (payload->Trace_0).run_id@ == run_id && ((
            payload->Trace_0).kind == TraceKind::LifecycleStarted || (payload->Trace_0).kind
                == TraceKind::LifecycleResumed)
            ||| payload is Job && (payload->Job_0).run_id@ == run_id && (payload->Job_0).state
                == JobState::Running
        },
        old(state)@.active_runs.contains(run_id) && !final(state)@.active_runs.contains(run_id)
            ==> {
            ||| event.event_type@ == "run.completed"@ && payload is Run && payload->Run_0@
                == run_id
            ||| payload is Trace && (payload->Trace_0).run_id@ == run_id && (payload->Trace_0).kind
                == TraceKind::LifecycleCompleted
            ||| payload is Job && (payload->Job_0).run_id@ == run_id && (payload->Job_0).terminal
                is Some
        },
{
    state::literals_differ();
    job_submit::job_event_types_differ();
}

/// A credential is minted once, unrevoked; afterwards it can only be revoked, and it never
/// comes back.
pub proof fn revoked_credentials_stay_revoked(
    state: &mut ControlState,
    event: StoredEvent,
    payload: EventPayload,
    operator_proof: bool,
    id: Seq<char>,
)
    requires
        old(state).wf(),
        call_ensures(
            ControlState::apply,
            (state, &event, payload, operator_proof),
            Ok::<(), ControlError>(()),
        ),
    ensures
        old(state).worker_credentials@.contains_key(id) ==> {
            let before = old(state).worker_credentials@[id];
            let after = final(state).worker_credentials@[id];
            &&& final(state).worker_credentials@.contains_key(id)
            &&& after.worker_id == before.worker_id && after.expires_at_millis
                == before.expires_at_millis && after.scope == before.scope
            &&& before.revoked ==> after.revoked
            &&& !before.revoked && after.revoked ==> event.event_type@
                == "worker.credential_revoked"@
        },
        !old(state).worker_credentials@.contains_key(id) && final(state).worker_credentials@.contains_key(id) ==> payload is Credential
            && final(state).worker_credentials@[id] == payload->Credential_0 && !(
        payload->Credential_0).revoked && (payload->Credential_0).credential_id@ == id,
{
}

/// Revoking a credential revokes the named one, and only that.
pub proof fn revocations_revoke_the_named_credential(
    state: &mut ControlState,
    named: Option<Option<String>>,
    result: Result<(), ControlError>,
    id: Seq<char>,
)
    requires
        old(state).wf(),
        call_ensures(ControlState::apply_named_revocation, (state, named), result),
    ensures
        result is Ok <==> named is Some && named->0 is Some && old(state).worker_credentials@.contains_key(named->0->0@),
        result is Ok ==> final(state).worker_credentials@[named->0->0@].revoked,
        id != named->0->0@ ==> ordered::bound(final(state).worker_credentials@, id)
            == ordered::bound(old(state).worker_credentials@, id),
{
}

/// A remote job is admitted once, with the record that its event holds, and stays as it was
/// admitted.
pub proof fn remote_jobs_stay_as_admitted(
    state: &mut ControlState,
    event: StoredEvent,
    payload: EventPayload,
    operator_proof: bool,
    id: Seq<char>,
)
    requires
        old(state).wf(),
        call_ensures(
            ControlState::apply,
            (state, &event, payload, operator_proof),
            Ok::<(), ControlError>(()),
        ),
    ensures
        old(state).remote_jobs@.contains_key(id) ==> final(state).remote_jobs@.contains_key(id)
            && final(state).remote_jobs@[id] == old(state).remote_jobs@[id],
        !old(state).remote_jobs@.contains_key(id) && final(state).remote_jobs@.contains_key(id)
            ==> payload is RemoteJob && (payload->RemoteJob_0).job_id@ == id
            && final(state).remote_jobs@[id] == payload->RemoteJob_0,
{
}

/// The receipt of an evaluation is recorded once, at the place of its event.
pub proof fn receipts_are_recorded_once(
    state: &mut ControlState,
    named: Option<Option<String>>,
    sequence: u64,
    result: Result<(), ControlError>,
)
    requires
        old(state).wf(),
        call_ensures(ControlState::apply_named_evaluation, (state, named, sequence), result),
    ensures
        result is Ok <==> named is Some && named->0 is Some && !old(state).evaluation_events@.contains_key(named->0->0@),
        result is Ok ==> final(state).evaluation_events@.contains_key(named->0->0@)
            && final(state).evaluation_events@[named->0->0@] == sequence,
        final(state).jobs@ == old(state).jobs@ && final(state).arena_jobs@ == old(state).arena_jobs@,
{
}

/// The signed result of a trial counts only in its turn, while its pair has not ended, and only
/// where it is of the side whose turn it is: of that side's Genome and environment, over the
/// pair's own revision, with its seed and its budget.
pub proof fn trials_count_in_their_turn(
    record: ArenaJobRecord,
    index: usize,
    receipt: RunResultReceipt,
)
    requires
        call_ensures(
            arena_jobs::require_next_trial,
            (&record, index, &receipt),
            Ok::<(), ControlError>(()),
        ),
    ensures
        index == record.completed_trials,
        record.state == JobState::Running || record.state == JobState::CancellationRequested,
        receipt.world_id@ == record.world_id@,
        receipt.source_revision@ == record.source_revision@,
        receipt.seed == record.seed && receipt.budget == record.trial_budget,
        index < record.parent_trial_count ==> receipt.genome_id@ == record.parent_genome_id@
            && receipt.environment_id@ == record.environment_id@,
        index >= record.parent_trial_count ==> receipt.genome_id@ == record.candidate_genome_id@,
        index >= record.parent_trial_count && record.candidate_environment_id is Some
            ==> receipt.environment_id@ == record.candidate_environment_id->0@,
        index >= record.parent_trial_count && record.candidate_environment_id is None
            ==> receipt.environment_id@ == record.environment_id@,
{
}

/// A committed job is on record as it was committed; its run is active while it runs and not
/// after it ended, and its progress starts anew only where it is admitted.
pub proof fn committed_jobs_are_on_record(state: &mut ControlState, record: JobRecord)
    requires
        old(state).wf(),
        call_ensures(ControlState::commit_job_record, (state, record), ()),
    ensures
        final(state).jobs@.contains_key(record.job_id@) && final(state).jobs@[record.job_id@]
            == record,
        record.state == JobState::Running ==> final(state)@.active_runs.contains(record.run_id@),
        record.state == JobState::Succeeded || record.state == JobState::Failed || record.state
            == JobState::Interrupted ==> !final(state)@.active_runs.contains(record.run_id@),
        record.state != JobState::Admitted ==> final(state).job_progress@ == old(state).job_progress@,
        final(state).frozen == old(state).frozen && final(state).arena_jobs@ == old(state).arena_jobs@ && final(state).run_results@ == old(state).run_results@,
{
}

/// An empty ledger leaves evolution frozen, with nothing on record.
pub proof fn ledgers_start_frozen(registered: Registry, state: ControlState)
    requires
        registered.wf(),
        call_ensures(ControlState::new, (registered,), state),
    ensures
        state.frozen && state.event_count == 0,
        state.jobs@.dom() == Set::<Seq<char>>::empty() && state.arena_jobs@.dom() == Set::<
            Seq<char>,
        >::empty(),
        state.run_results@.dom() == Set::<Seq<char>>::empty() && state.worker_credentials@.dom()
            == Set::<Seq<char>>::empty(),
        state.registered == registered,
{
}

/// Replaying a ledger and then applying the next event gives what replaying the longer ledger
/// gives.
pub proof fn replays_go_on_event_by_event(
    history: Vec<RecordedEvent>,
    longer: Vec<RecordedEvent>,
    registered: Registry,
    operator_proof: bool,
    replayed: ControlState,
    state: &mut ControlState,
    result: Result<(), ControlError>,
    whole: Result<ControlState, ControlError>,
)
    requires
        registered.wf(),
        longer@.len() == history@.len() + 1,
        longer@.drop_last() == history@,
        call_ensures(
            ControlState::from_events,
            (history, registered, operator_proof),
            Ok::<ControlState, ControlError>(replayed),
        ),
        call_ensures(ControlState::from_events, (longer, registered, operator_proof), whole),
        old(state).wf(),
        old(state)@ == replayed@,
        old(state).registered == registered,
        call_ensures(
            ControlState::apply,
            (state, &longer@.last().event, longer@.last().payload, operator_proof),
            result,
        ),
    ensures
        whole is Ok <==> result is Ok,
        whole matches Ok(reached) ==> reached@ == final(state)@,
{
}

/// A job's progress changes only by a trace of its own run, which is counted and becomes the
/// latest, or starts anew where the job is admitted.
pub proof fn progress_counts_a_jobs_own_traces(
    state: &mut ControlState,
    event: StoredEvent,
    payload: EventPayload,
    operator_proof: bool,
    id: Seq<char>,
)
    requires
        old(state).wf(),
        call_ensures(
            ControlState::apply,
            (state, &event, payload, operator_proof),
            Ok::<(), ControlError>(()),
        ),
    ensures
        ({
            let before = ordered::bound(old(state).job_progress@, id);
            let after = ordered::bound(final(state).job_progress@, id);
            before != after ==> {
                ||| {
                    &&& payload is Job && (payload->Job_0).job_id@ == id && (payload->Job_0).state
                        == JobState::Admitted
                    &&& after is Some && after->0.trace_events == 0 && after->0.last_event_sequence
                        is None && after->0.last_kind is None
                }
                ||| {
                    &&& payload is Trace && old(state).jobs@.contains_key(id) && old(state).jobs@[id].run_id@ == (payload->Trace_0).run_id@
                    &&& after is Some && after->0.trace_events == (if before is Some {
                        before->0.trace_events + 1
                    } else {
                        1
                    })
                    &&& after->0.last_event_sequence == Some(event.sequence) && after->0.last_kind
                        == Some((payload->Trace_0).kind)
                }
            }
        }),
{
    if payload is Trace {
        let owner = state::owner_of(old(state).jobs@, (payload->Trace_0).run_id@);
        if owner is Some {
            assert(ordered::is_least(
                old(state).jobs@,
                state::has_run((payload->Trace_0).run_id@),
                owner->0,
            ));
        }
    }
}

/// An applied event takes effect: what it records is on record from then on.
pub proof fn recorded_events_take_effect(
    state: &mut ControlState,
    event: StoredEvent,
    payload: EventPayload,
    operator_proof: bool,
)
    requires
        old(state).wf(),
        call_ensures(
            ControlState::apply,
            (state, &event, payload, operator_proof),
            Ok::<(), ControlError>(()),
        ),
    ensures
        event.event_type@ == "run.started"@ ==> payload is Run
            && final(state)@.active_runs.contains(payload->Run_0@),
        event.event_type@ == "run.completed"@ ==> payload is Run
            && !final(state)@.active_runs.contains(payload->Run_0@),
        event.event_type@ == "trace.recorded"@ ==> payload is Trace && ({
            let trace = payload->Trace_0;
            &&& trace.kind == TraceKind::LifecycleStarted || trace.kind
                == TraceKind::LifecycleResumed ==> final(state)@.active_runs.contains(trace.run_id@)
            &&& trace.kind == TraceKind::LifecycleCompleted
                ==> final(state)@.completed_runs.contains(trace.run_id@)
                && !final(state)@.active_runs.contains(trace.run_id@)
        }),
        event.event_type@ == "run.result_recorded"@ ==> payload is RunResult
            && final(state).run_results@.contains_key((payload->RunResult_0).run_id@)
            && final(state).run_results@[(payload->RunResult_0).run_id@] == payload->RunResult_0,
        event.event_type@ == "job.cancellation_requested"@ ==> payload is Job
            && final(state).jobs@.contains_key((payload->Job_0).job_id@)
            && final(state).jobs@[(payload->Job_0).job_id@] == payload->Job_0,
        event.event_type@ == "arena.job.admitted"@ || event.event_type@ == "arena.job.running"@
            || event.event_type@ == "arena.job.cancellation_requested"@ || event.event_type@
            == "arena.job.scoring"@ || event.event_type@ == "arena.job.committing"@
            || event.event_type@ == "arena.job.terminal"@ ==> payload is ArenaJob
            && final(state).arena_jobs@.contains_key((payload->ArenaJob_0).evaluation_id@)
            && final(state).arena_jobs@[(payload->ArenaJob_0).evaluation_id@]
            == payload->ArenaJob_0,
        event.event_type@ == "worker.credential_minted"@ ==> payload is Credential
            && final(state).worker_credentials@.contains_key(
            (payload->Credential_0).credential_id@,
        ),
        event.event_type@ == "remote_worker.job_admitted"@ ==> payload is RemoteJob
            && final(state).remote_jobs@.contains_key((payload->RemoteJob_0).job_id@),
{
    reveal_strlit("control.freeze");
    reveal_strlit("control.unfreeze");
    reveal_strlit("run.started");
    reveal_strlit("run.completed");
    reveal_strlit("trace.recorded");
    reveal_strlit("run.result_recorded");
    reveal_strlit("job.admitted");
    reveal_strlit("job.running");
    reveal_strlit("job.cancellation_requested");
    reveal_strlit("job.terminal");
    reveal_strlit("arena.job.admitted");
    reveal_strlit("arena.job.running");
    reveal_strlit("arena.job.cancellation_requested");
    reveal_strlit("arena.job.scoring");
    reveal_strlit("arena.job.committing");
    reveal_strlit("arena.job.terminal");
    reveal_strlit("evaluation.recorded");
    reveal_strlit("worker.credential_minted");
    reveal_strlit("worker.credential_revoked");
    reveal_strlit("remote_worker.job_admitted");
    let mark = |text: Seq<char>| (text.len(), text[0], text[text.len() - 1], text[text.len() - 4]);
    assert(mark("control.freeze"@) == (14nat, 'c', 'e', 'e'));
    assert(mark("control.unfreeze"@) == (16nat, 'c', 'e', 'e'));
    assert(mark("run.started"@) == (11nat, 'r', 'd', 'r'));
    assert(mark("run.completed"@) == (13nat, 'r', 'd', 'e'));
    assert(mark("trace.recorded"@) == (14nat, 't', 'd', 'r'));
    assert(mark("run.result_recorded"@) == (19nat, 'r', 'd', 'r'));
    assert(mark("job.admitted"@) == (12nat, 'j', 'd', 't'));
    assert(mark("job.running"@) == (11nat, 'j', 'g', 'n'));
    assert(mark("job.cancellation_requested"@) == (26nat, 'j', 'd', 's'));
    assert(mark("job.terminal"@) == (12nat, 'j', 'l', 'i'));
    assert(mark("arena.job.admitted"@) == (18nat, 'a', 'd', 't'));
    assert(mark("arena.job.running"@) == (17nat, 'a', 'g', 'n'));
    assert(mark("arena.job.cancellation_requested"@) == (32nat, 'a', 'd', 's'));
    assert(mark("arena.job.scoring"@) == (17nat, 'a', 'g', 'r'));
    assert(mark("arena.job.committing"@) == (20nat, 'a', 'g', 't'));
    assert(mark("arena.job.terminal"@) == (18nat, 'a', 'l', 'i'));
    assert(mark("evaluation.recorded"@) == (19nat, 'e', 'd', 'r'));
    assert(mark("worker.credential_minted"@) == (24nat, 'w', 'd', 'n'));
    assert(mark("worker.credential_revoked"@) == (25nat, 'w', 'd', 'o'));
    assert(mark("remote_worker.job_admitted"@) == (26nat, 'r', 'd', 't'));
}

} // verus!
