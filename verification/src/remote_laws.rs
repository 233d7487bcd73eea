//! What remote workers are given and what is taken from them, said of inputs and results alone.

use crate::environment::Platform;
use crate::error::ExecuteError;
use crate::hex;
use crate::list_laws;
use crate::ordered;
use crate::protocol::{
    RemoteCompletion, RemoteJobState, ResponseData, WorkerReply, WorkerRequest, WorkerScope,
};
use crate::records::{
    EventEnvelope, GenomeRecord, RemoteJobRecord, RunCompletionReason, RunResultReceipt,
    WorkerCredentialRecord,
};
use crate::remote;
use crate::remote::{
    Arrival, RemoteArenaLeaseQueue, RemoteArenaTrialOutcome, RemoteEvidence, RemoteLeases,
    RemoteResultStep, RemoteSubmitStep, RevokeStep, WaitPoll, WorkerStep,
};
use crate::state::ControlState;
use crate::text;
use vstd::prelude::*;

verus! {

/// A minted credential is the named worker's, expires exactly its lifetime from now, is not
/// revoked, and its token is the secret that its identity was derived from.
pub proof fn credentials_are_minted_for_their_worker(
    secret: [u8; 32],
    worker_id: &str,
    ttl_seconds: u64,
    now: i64,
    record: WorkerCredentialRecord,
    response: ResponseData,
)
    requires
        call_ensures(
            remote::worker_credential_mint,
            (&secret, worker_id, ttl_seconds, now),
            Ok::<(WorkerCredentialRecord, ResponseData), ExecuteError>((record, response)),
        ),
    ensures
        record.worker_id@ == worker_id@ && !record.revoked && record.schema_version == 1,
        record.expires_at_millis == now + 1000 * ttl_seconds,
        record.scope == WorkerScope::RemoteReferenceRun,
        response is WorkerCredential && response->token@ == hex::hex(secret@),
        response->WorkerCredential_credential_id == record.credential_id,
        response->WorkerCredential_worker_id@ == worker_id@,
        response->expires_at_millis == record.expires_at_millis,
{
}

/// A worker is let in only by a credential that is its own, not revoked and not expired, and
/// only where the time is known.
pub proof fn workers_need_their_own_credential(
    state: ControlState,
    id: &str,
    worker_id: &str,
    now: Option<i64>,
    result: Result<(), &'static str>,
)
    requires
        state.wf(),
        call_ensures(remote::check_credential, (&state, id, worker_id, now), result),
    ensures
        result is Ok <==> {
            &&& state@.worker_credentials.contains_key(id@)
            &&& !state@.worker_credentials[id@].revoked
            &&& state@.worker_credentials[id@].worker_id@ == worker_id@
            &&& now matches Some(time) && time < state@.worker_credentials[id@].expires_at_millis
        },
{
}

/// Revoking an unknown credential fails, a revoked one is revoked already, and every other one
/// is recorded as revoked, under its own identity.
pub proof fn revocations_are_of_the_named_credential(
    state: ControlState,
    credential_id: &str,
    result: Result<RevokeStep, ExecuteError>,
)
    requires
        state.wf(),
        call_ensures(remote::worker_credential_revoke, (&state, credential_id), result),
    ensures
        result is Ok <==> state@.worker_credentials.contains_key(credential_id@),
        result is Ok && result->Ok_0 is Record <==> state@.worker_credentials.contains_key(
            credential_id@,
        ) && !state@.worker_credentials[credential_id@].revoked,
        result is Ok && result->Ok_0 is Record ==> result->Ok_0->Record_0.aggregate_id@
            == "worker-credential:"@ + credential_id@ && result->Ok_0->Record_0.event_type@
            == "worker.credential_revoked"@,
        result is Ok && result->Ok_0 is Acknowledged ==> result->Ok_0->Acknowledged_0
            == (ResponseData::Acknowledged { frozen: state@.frozen, killed_runs: 0 }),
{
}

/// A worker without a valid credential gets nothing but a refusal. One with a valid credential
/// gets what it asked for: work, or its result taken under the job that it named.
pub proof fn requests_are_served_as_asked(
    state: ControlState,
    request: WorkerRequest,
    now: Option<i64>,
    verdict: Result<(), &'static str>,
    worker_id: &str,
    token: &str,
    result: WorkerStep,
)
    requires
        state.wf(),
        call_ensures(remote::handle_worker_request, (&state, request, now), result),
        call_ensures(remote::verify_worker_credential, (&state, worker_id, token, now), verdict),
        match request {
            WorkerRequest::Lease { worker_id: worker, token: shown } => worker@ == worker_id@
                && shown@ == token@,
            WorkerRequest::SubmitResult { worker_id: worker, token: shown, .. } => worker@
                == worker_id@ && shown@ == token@,
        },
    ensures
        result is Refuse <==> verdict is Err,
        verdict matches Err(why) ==> (result matches WorkerStep::Refuse(WorkerReply::Error {
            reason,
        }) && reason@ == why@),
        verdict is Ok ==> (result is Lease <==> request is Lease),
        verdict is Ok && request is SubmitResult ==> result == (WorkerStep::Result {
            job_id: request->job_id,
            output_hex: request->output_hex,
            completion: request->completion,
        }),
{
}

/// A remote job is shown as pending until its run has a result; then it succeeded if and only
/// if that result reports success, and the reason, the time and the output are the result's.
pub proof fn remote_jobs_show_their_result(
    state: ControlState,
    job_id: &str,
    response: ResponseData,
)
    requires
        state.wf(),
        call_ensures(
            remote::remote_job_status,
            (&state, job_id),
            Ok::<ResponseData, ExecuteError>(response),
        ),
    ensures
        state@.remote_jobs.contains_key(job_id@),
        response is RemoteJob,
        ({
            let record = state@.remote_jobs[job_id@];
            let receipt = state@.run_results[record.run_id@];
            let done = state@.run_results.contains_key(record.run_id@);
            &&& response->RemoteJob_job_id == record.job_id
            &&& response->RemoteJob_genome_id == record.genome_id
            &&& response->RemoteJob_state == RemoteJobState::Pending <==> !done
            &&& response->RemoteJob_state == RemoteJobState::Succeeded <==> done
                && receipt.completion_reason == RunCompletionReason::Success
            &&& response->RemoteJob_state == RemoteJobState::Failed <==> done
                && receipt.completion_reason != RunCompletionReason::Success
            &&& done ==> response->RemoteJob_completion_reason == Some(receipt.completion_reason)
                && response->RemoteJob_latency_millis == Some(receipt.latency_millis)
                && response->RemoteJob_stdout_artifact_id == Some(receipt.stdout_artifact_id)
            &&& !done ==> response->RemoteJob_completion_reason is None
                && response->RemoteJob_latency_millis is None
                && response->RemoteJob_stdout_artifact_id is None
        }),
{
}

/// A remote job is submitted once: again, it is answered as recorded, and its identity stays
/// with its Genome.
pub proof fn remote_jobs_are_submitted_once(
    state: ControlState,
    job_id: &str,
    genome_id: &str,
    result: Result<RemoteSubmitStep, ExecuteError>,
)
    requires
        state.wf(),
        call_ensures(remote::open_remote_job, (&state, job_id, genome_id), result),
    ensures
        result is Ok && result->Ok_0 is Fresh ==> !state@.remote_jobs.contains_key(job_id@)
            && state.registered.genomes@.contains_key(genome_id@),
        result is Ok && result->Ok_0 is Existing ==> state@.remote_jobs.contains_key(job_id@)
            && state@.remote_jobs[job_id@].genome_id@ == genome_id@
            && result->Ok_0->Existing_0 is RemoteJob && result->Ok_0->Existing_0->RemoteJob_genome_id@
            == genome_id@,
        state@.remote_jobs.contains_key(job_id@) ==> (result is Ok
            <==> state@.remote_jobs[job_id@].genome_id@ == genome_id@),
{
}

/// A remote job is admitted for the Genome that was submitted, under its own identity.
pub proof fn remote_jobs_are_admitted_as_submitted(
    job_id: &str,
    genome_id: &str,
    has_instruction: bool,
    result: Result<(RemoteJobRecord, EventEnvelope), ExecuteError>,
)
    requires
        call_ensures(remote::remote_run_submit, (job_id, genome_id, has_instruction), result),
    ensures
        result is Ok <==> has_instruction,
        result is Ok ==> {
            &&& result->Ok_0.0.schema_version == 1
            &&& result->Ok_0.0.job_id@ == job_id@
            &&& result->Ok_0.0.genome_id@ == genome_id@
            &&& result->Ok_0.1.aggregate_id@ == "remote-job:"@ + job_id@
            &&& result->Ok_0.1.event_type@ == "remote_worker.job_admitted"@
        },
{
}

/// The first free trial stands in the order, is not held, and all before it are held.
proof fn free_trials_are_first(order: Seq<Seq<char>>, held: Map<Seq<char>, u64>, place: int)
    requires
        0 <= place < order.len(),
    ensures
        remote::first_free(order, held) is None ==> held.contains_key(order[place]),
        remote::first_free(order, held) matches Some(id) ==> order.contains(id)
            && !held.contains_key(id) && (order[place] == id || held.contains_key(order[place])
            || exists|earlier: int| 0 <= earlier < place && #[trigger] order[earlier] == id),
    decreases order.len(),
{
    if held.contains_key(order.first()) {
        let rest = order.drop_first();
        if rest.len() == 0 {
            assert(remote::first_free(rest, held) is None);
        } else {
            let spot = if place > 0 {
                place - 1
            } else {
                0
            };
            free_trials_are_first(rest, held, spot);
            if remote::first_free(order, held) is Some {
                let id = remote::first_free(order, held)->0;
                let at = choose|at: int| 0 <= at < rest.len() && rest[at] == id;
                assert(order[at + 1] == id);
                if place > 0 {
                    assert(order[place] == rest[place - 1]);
                    if exists|earlier: int| 0 <= earlier < spot && #[trigger] rest[earlier] == id {
                        let earlier = choose|earlier: int|
                            0 <= earlier < spot && #[trigger] rest[earlier] == id;
                        assert(order[earlier + 1] == id);
                    }
                }
            }
        }
    } else {
        assert(order[0] == order.first());
    }
}

/// A worker is leased a pending trial that no other holds: its lease is new, or is a minute old
/// at least. The trial comes with its own Genome and frame, and goes out in the order of the
/// queue: all that stand before it are held. Where a trial is free, one is leased.
pub proof fn leases_go_out_in_order(
    queue: &mut RemoteArenaLeaseQueue,
    now: u64,
    result: Option<(String, String, Vec<u8>)>,
    place: int,
)
    requires
        old(queue).wf(),
        0 <= place < old(queue).order().len(),
        call_ensures(RemoteArenaLeaseQueue::lease, (queue, now), result),
    ensures
        result is None ==> ({
            let id = old(queue).order()[place];
            old(queue).leased().contains_key(id) && now - old(queue).leased()[id] < 60_000
        }),
        result matches Some((job_id, genome_id, frame)) ==> {
            &&& old(queue).pending().contains_key(job_id@)
            &&& genome_id == old(queue).pending()[job_id@].genome_id
            &&& frame@ == old(queue).pending()[job_id@].frame@
            &&& old(queue).leased().contains_key(job_id@) ==> now - old(queue).leased()[job_id@]
                >= 60_000
            &&& final(queue).leased().contains_key(job_id@) && final(queue).leased()[job_id@]
                == now
            &&& old(queue).order().contains(job_id@)
            &&& (exists|at: int| 0 <= at <= place && #[trigger] old(queue).order()[at] == job_id@)
                || ({
                let id = old(queue).order()[place];
                old(queue).leased().contains_key(id) && now - old(queue).leased()[id] < 60_000
            })
        },
        final(queue).pending() == old(queue).pending() && final(queue).order() == old(queue).order(),
{
    free_trials_are_first(
        old(queue).order(),
        remote::holding(old(queue).leased(), now),
        place,
    );
}

/// An offered trial is pending with its own Genome and frame, and goes to the end of the queue;
/// the others keep what they hold and how they stand.
pub proof fn offers_go_last(
    queue: &mut RemoteArenaLeaseQueue,
    job_id: &str,
    genome_id: &str,
    frame: Vec<u8>,
)
    requires
        old(queue).wf(),
        call_ensures(RemoteArenaLeaseQueue::offer, (queue, job_id, genome_id, frame), ()),
    ensures
        final(queue).pending().contains_key(job_id@),
        final(queue).pending()[job_id@].genome_id@ == genome_id@,
        final(queue).pending()[job_id@].frame == frame,
        final(queue).order().last() == job_id@,
        !old(queue).order().contains(job_id@) ==> final(queue).order() == old(queue).order().push(
            job_id@,
        ),
        final(queue).leased() == old(queue).leased(),
{
}

/// What a worker reports of a trial is delivered once, as it was reported, and the time taken is
/// counted from the lease.
pub proof fn outcomes_are_delivered_once(
    queue: &mut RemoteArenaLeaseQueue,
    job_id: &str,
    output: Vec<u8>,
    completion: RemoteCompletion,
    now: u64,
    result: Result<Option<RemoteArenaTrialOutcome>, &'static str>,
)
    requires
        old(queue).wf(),
        call_ensures(
            RemoteArenaLeaseQueue::submit_result,
            (queue, job_id, output, completion, now),
            result,
        ),
    ensures
        result is Err <==> !old(queue).pending().contains_key(job_id@) && !old(queue).completed().contains(job_id@),
        result is Ok ==> final(queue).completed().contains(job_id@),
        result is Ok ==> (result->Ok_0 is None <==> old(queue).completed().contains(job_id@)),
        result matches Ok(Some(outcome)) ==> {
            &&& outcome.output == output && outcome.completion == completion
            &&& old(queue).leased().contains_key(job_id@) && old(queue).leased()[job_id@] <= now
                ==> outcome.latency_millis == now - old(queue).leased()[job_id@]
        },
        final(queue).pending() == old(queue).pending() && final(queue).order()
            == old(queue).order() && final(queue).leased() == old(queue).leased(),
{
}

/// A wait ends with what arrived, unless the evaluation was cancelled or its time ran out
/// first, and goes on for as long as nothing arrives.
pub proof fn waits_end_with_what_arrived(
    cancelled: bool,
    now: u64,
    deadline: u64,
    arrival: Arrival,
    result: WaitPoll,
)
    requires
        call_ensures(remote::observe_wait, (cancelled, now, deadline, arrival), result),
    ensures
        result is Cancelled <==> cancelled,
        result is Expired <==> !cancelled && deadline <= now,
        result is Idle <==> !cancelled && now < deadline && arrival is Nothing,
        result is Dropped <==> !cancelled && now < deadline && arrival is Dropped,
        result matches WaitPoll::Received(outcome) ==> arrival == Arrival::Outcome(outcome),
{
}

/// A wait that ended takes its trial out of the queue, and only what was received counts as an
/// outcome.
pub proof fn ended_waits_withdraw_their_trial(
    queue: &mut RemoteArenaLeaseQueue,
    job_id: &str,
    poll: WaitPoll,
    result: Option<Result<RemoteArenaTrialOutcome, &'static str>>,
)
    requires
        old(queue).wf(),
        call_ensures(RemoteArenaLeaseQueue::submit_and_wait, (queue, job_id, poll), result),
    ensures
        result is None <==> poll is Idle,
        result is Some ==> (result->0 is Ok <==> poll is Received),
        result matches Some(Ok(outcome)) ==> poll == WaitPoll::Received(outcome),
        result is Some ==> !final(queue).pending().contains_key(job_id@) && !final(queue).leased().contains_key(job_id@),
        result is None ==> final(queue).pending() == old(queue).pending() && final(queue).leased()
            == old(queue).leased() && final(queue).order() == old(queue).order(),
{
}

/// A direct job goes to a worker only where it has no result yet and no other worker holds it:
/// its lease is new, or a minute old at least. It goes with its own Genome, and where a job is
/// free, one goes out.
pub proof fn direct_jobs_go_to_one_worker(
    leases: &mut RemoteLeases,
    state: ControlState,
    now: u64,
    result: Option<(String, String)>,
    id: Seq<char>,
)
    requires
        old(leases).wf(),
        state.wf(),
        call_ensures(RemoteLeases::next_direct_job, (leases, &state, now), result),
    ensures
        result matches Some((job_id, genome_id)) ==> {
            &&& state@.remote_jobs.contains_key(job_id@)
            &&& genome_id == state@.remote_jobs[job_id@].genome_id
            &&& !state@.run_results.contains_key(state@.remote_jobs[job_id@].run_id@)
            &&& old(leases)@.contains_key(job_id@) ==> now - old(leases)@[job_id@] >= 60_000
        },
        result is None && state@.remote_jobs.contains_key(id) ==> state@.run_results.contains_key(
            state@.remote_jobs[id].run_id@,
        ) || (old(leases)@.contains_key(id) && now - old(leases)@[id] < 60_000),
{
    let free = remote::unclaimed(state@, remote::holding(old(leases)@, now));
    if result is Some {
        let leased = result->0;
        let job_id = leased.0@;
        assert(ordered::is_least(free, remote::any_remote_job(), job_id));
        assert(free.contains_key(job_id));
    } else if free.contains_key(id) {
        state.remote_jobs.lemma_finite();
        assert(free.dom().subset_of(state@.remote_jobs.dom()));
        vstd::set_lib::lemma_len_subset(free.dom(), state@.remote_jobs.dom());
        assert(free.dom().contains(id));
        if free.dom().len() == 0 {
            assert(free.dom() =~= Set::<Seq<char>>::empty());
        }
        list_laws::some_text_is_least(free.dom());
        let least = choose|least: Seq<char>| #[trigger]
            free.dom().contains(least) && forall|other: Seq<char>| #[trigger]
                free.dom().contains(other) ==> !text::precedes(other, least);
        assert(ordered::is_least(free, remote::any_remote_job(), least));
    }
}

/// A leased job is handed out with its own identity, Genome and frame, and is held from now.
pub proof fn leased_jobs_are_held(
    leases: &mut RemoteLeases,
    job_id: String,
    genome_id: String,
    frame: Option<Vec<u8>>,
    now: u64,
    result: WorkerReply,
)
    requires
        old(leases).wf(),
        frame matches Some(bytes) ==> 2 * bytes@.len() <= usize::MAX,
        call_ensures(
            RemoteLeases::lease_remote_job,
            (leases, job_id, genome_id, frame, now),
            result,
        ),
    ensures
        frame is None ==> result is NoWork && final(leases)@ == old(leases)@,
        frame is Some ==> result is Leased && result->Leased_job_id == job_id
            && result->Leased_genome_id == genome_id && result->frame_hex@ == hex::hex(frame->0@)
            && final(leases)@.contains_key(job_id@) && final(leases)@[job_id@] == now,
{
}

/// A leased trial is handed out with its own identity, Genome and frame.
pub proof fn leased_trials_are_handed_out(
    leased: Option<(String, String, Vec<u8>)>,
    result: WorkerReply,
)
    requires
        leased matches Some((_, _, frame)) ==> 2 * frame@.len() <= usize::MAX,
        call_ensures(remote::lease_arena_trial, (leased,), result),
    ensures
        result is NoWork <==> leased is None,
        leased matches Some((job, genome, frame)) ==> result is Leased && result->Leased_job_id
            == job && result->Leased_genome_id == genome && result->frame_hex@ == hex::hex(
            frame@,
        ),
{
}

/// What a worker reports is taken of a known job or trial only, in the form that the job has: a
/// direct job without a result is signed with the decoded output, a trial is delivered with it,
/// and what is known already changes nothing.
pub proof fn results_are_taken_of_known_work(
    state: ControlState,
    leases: &mut RemoteLeases,
    queue: &mut RemoteArenaLeaseQueue,
    job_id: &str,
    output_hex: &str,
    completion: RemoteCompletion,
    now: u64,
    decoded: Result<Vec<u8>, &'static str>,
    result: Result<RemoteResultStep, &'static str>,
)
    requires
        state.wf(),
        old(leases).wf(),
        old(queue).wf(),
        call_ensures(
            remote::record_remote_job_result,
            (&state, leases, queue, job_id, output_hex, completion, now),
            result,
        ),
        call_ensures(remote::decode_remote_output, (output_hex,), decoded),
    ensures
        result is Ok ==> state@.remote_jobs.contains_key(job_id@) || old(queue).pending().contains_key(job_id@) || old(queue).completed().contains(job_id@),
        result is Ok && result->Ok_0 is Sign ==> {
            &&& state@.remote_jobs.contains_key(job_id@)
            &&& !state@.run_results.contains_key(state@.remote_jobs[job_id@].run_id@)
            &&& state.registered.genomes@.contains_key(state@.remote_jobs[job_id@].genome_id@)
            &&& decoded is Ok && result->Ok_0->output@ == decoded->Ok_0@
            &&& old(leases)@.contains_key(job_id@) && old(leases)@[job_id@] <= now
                ==> result->Ok_0->Sign_latency_millis == now - old(leases)@[job_id@]
            &&& final(leases)@ == old(leases)@
        },
        result is Ok && result->Ok_0 is Deliver ==> {
            &&& !state@.remote_jobs.contains_key(job_id@)
            &&& !old(queue).completed().contains(job_id@)
            &&& final(queue).completed().contains(job_id@)
            &&& decoded is Ok && result->Ok_0->Deliver_0.output@ == decoded->Ok_0@
            &&& result->Ok_0->Deliver_0.completion == completion
            &&& old(queue).leased().contains_key(job_id@) && old(queue).leased()[job_id@] <= now
                ==> result->Ok_0->Deliver_0.latency_millis == now - old(queue).leased()[job_id@]
        },
        result is Ok && result->Ok_0 is AlreadyKnown ==> if state@.remote_jobs.contains_key(
            job_id@,
        ) {
            state@.run_results.contains_key(state@.remote_jobs[job_id@].run_id@)
                && !final(leases)@.contains_key(job_id@)
        } else {
            old(queue).completed().contains(job_id@)
        },
        !(result is Ok && result->Ok_0 is Deliver) ==> final(queue).completed() =~= old(queue).completed(),
        final(queue).pending() == old(queue).pending() && final(queue).order() == old(queue).order(),
{
}

/// The output of a worker is what its hexadecimal text stands for, within a mebibyte.
pub proof fn outputs_are_decoded(output_hex: &str, output: Vec<u8>, decoded: Vec<u8>)
    requires
        output_hex@ == hex::hex(output@),
        call_ensures(
            remote::decode_remote_output,
            (output_hex,),
            Ok::<Vec<u8>, &'static str>(decoded),
        ),
    ensures
        decoded@.len() <= 1_048_576,
        decoded@ == output@,
{
    hex::encoded_bytes_decode(output@);
}

/// The signed result of a remote job is of that job's run and Genome, reports what the worker
/// reported, costs nothing, and refers to what was stored.
pub proof fn remote_results_claim_what_was_reported(
    record: RemoteJobRecord,
    genome: GenomeRecord,
    evidence: RemoteEvidence,
    completion: RemoteCompletion,
    platform: Platform,
    receipt: RunResultReceipt,
)
    requires
        call_ensures(
            remote::remote_result_claims,
            (&record, &genome, evidence, completion, &platform),
            receipt,
        ),
    ensures
        receipt.run_id == record.run_id,
        receipt.genome_id == genome.genome_id && receipt.world_id == genome.world_id,
        receipt.source_revision == evidence.source_revision,
        receipt.input_commitment == evidence.input_commitment,
        receipt.stdout_artifact_id == evidence.stdout_artifact_id,
        receipt.stderr_artifact_id == evidence.stderr_artifact_id,
        receipt.latency_millis == evidence.latency_millis,
        receipt.completion_reason == RunCompletionReason::Success <==> completion
            == RemoteCompletion::Success,
        receipt.completion_reason == RunCompletionReason::ProviderFailure <==> completion
            == RemoteCompletion::ProviderFailure,
        receipt.actual_cost_microusd == 0 && receipt.budget.maximum_cost_microusd == 0,
{
}

} // verus!
