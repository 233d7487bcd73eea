use hephaestus_control::environment::Platform;
use hephaestus_control::error::ExecuteError;
use hephaestus_control::protocol::{
    RemoteCompletion, RemoteJobState, ResponseData, WorkerReply, WorkerRequest,
};
use hephaestus_control::records::{
    GenomeRecord, RemoteJobRecord, RunBudgetReceipt, RunCompletionReason, RunResultReceipt,
};
use hephaestus_control::registry::{GenomeEntry, Registry};
use hephaestus_control::remote::{
    check_credential, handle_worker_request, credential_id, decode_remote_output, lease_arena_trial, mint_envelope,
    open_remote_job, record_remote_job_result, remote_job_status, remote_result_claims,
    remote_run_submit, verify_worker_credential, worker_credential_mint, worker_credential_revoke,
    observe_wait, Arrival, RemoteArenaTrialOutcome, RemoteArenaLeaseQueue, RemoteEvidence, RemoteLeases, RemoteResultStep, RemoteSubmitStep,
    RevokeStep, WaitPoll, WorkerStep, MAX_REMOTE_OUTPUT_BYTES, REMOTE_LEASE_TIMEOUT_MILLIS,
};
use hephaestus_control::state::ControlState;

fn text(value: &str) -> String {
    value.to_owned()
}

fn genome() -> GenomeRecord {
    GenomeRecord {
        genome_id: text("genome"),
        name: text("g"),
        world_id: text("world"),
        artifact_id: text("a"),
        parent_ids: Vec::new(),
    }
}

fn state() -> ControlState {
    let mut registry = Registry::new("second".to_owned());
    registry.genomes.insert(
        text("genome"),
        GenomeEntry {
            record: genome(),
            model_provider: text("reference"),
            prompt_artifact_id: None,
            registration_sequence: 1,
            compiled_parents: Vec::new(),
            canonical_json: Vec::new(),
        },
    );
    let mut state = ControlState::new(registry);
    state.frozen = false;
    state
}

fn with_job(state: &mut ControlState, job_id: &str, genome_id: &str) {
    let (record, envelope) = remote_run_submit(job_id, genome_id, true).expect("a record");
    assert_eq!(envelope.event_type, "remote_worker.job_admitted");
    state.remote_jobs.insert(text(job_id), record);
}

fn result(run_id: &str, completion_reason: RunCompletionReason) -> RunResultReceipt {
    RunResultReceipt {
        run_id: text(run_id),
        genome_id: text("genome"),
        world_id: text("world"),
        source_revision: text("r"),
        task_id: text("t"),
        input_commitment: text("i"),
        seed: 0,
        environment_id: text("e"),
        budget: RunBudgetReceipt {
            wall_millis: 1,
            maximum_output_bytes: 1,
            maximum_cost_microusd: 0,
        },
        completion_reason,
        latency_millis: 12,
        actual_cost_microusd: 0,
        stdout_artifact_id: text("out"),
        stderr_artifact_id: text("err"),
        trace_artifact_ids: Vec::new(),
    }
}

#[test]
fn a_minted_credential_is_good_for_its_worker_until_it_expires() {
    let secret = [7u8; 32];
    let mut state = state();
    let (record, response) =
        worker_credential_mint(&secret, "worker", 60, 1_000).expect("a credential");
    let id = blake3::hash(&secret).to_hex()[..32].to_owned();
    assert_eq!(credential_id(&secret), id);
    assert_eq!(record.credential_id, id);
    assert_eq!(record.expires_at_millis, 61_000);
    let ResponseData::WorkerCredential { token, .. } = response else {
        panic!("a credential");
    };
    assert_eq!(token, "07".repeat(32));
    assert_eq!(mint_envelope(&id).event_id, format!("worker-credential:{id}"));
    assert_eq!(
        verify_worker_credential(&state, "worker", &token, Some(2_000)),
        Err("credential is not recognized")
    );
    state.worker_credentials.insert(id.clone(), record);
    let verify = |worker: &str, token: &str, now| {
        verify_worker_credential(&state, worker, token, now)
    };
    assert_eq!(verify("worker", &token, Some(60_999)), Ok(()));
    assert_eq!(verify("worker", &token, Some(61_000)), Err("credential has expired"));
    assert_eq!(verify("worker", &token, None), Err("clock error"));
    assert_eq!(
        verify("other", &token, Some(2_000)),
        Err("credential does not match worker_id")
    );
    assert_eq!(verify("worker", "zz", Some(2_000)), Err("credential token is malformed"));
    assert_eq!(
        verify("worker", &"08".repeat(32), Some(2_000)),
        Err("credential is not recognized")
    );
    let request = |token: &str| WorkerRequest::Lease { worker_id: text("worker"), token: text(token) };
    assert!(matches!(
        handle_worker_request(&state, request(&token), Some(2_000)),
        WorkerStep::Lease
    ));
    assert!(matches!(
        handle_worker_request(&state, request("zz"), Some(2_000)),
        WorkerStep::Refuse(WorkerReply::Error { .. })
    ));
}

#[test]
fn a_credential_is_revoked_once() {
    let secret = [7u8; 32];
    let id = credential_id(&secret);
    let mut state = state();
    assert!(matches!(worker_credential_revoke(&state, &id), Err(ExecuteError::NotFound)));
    let (mut record, _) = worker_credential_mint(&secret, "worker", 60, 0).expect("a credential");
    record.revoked = true;
    state.worker_credentials.insert(id.clone(), record);
    assert!(matches!(worker_credential_revoke(&state, &id), Ok(RevokeStep::Acknowledged(_))));
    assert_eq!(
        verify_worker_credential(&state, "worker", &"07".repeat(32), Some(1)),
        Err("credential has been revoked")
    );
    let (record, _) = worker_credential_mint(&secret, "worker", 60, 0).expect("a credential");
    state.worker_credentials.insert(id.clone(), record);
    match worker_credential_revoke(&state, &id) {
        Ok(RevokeStep::Record(envelope)) => {
            assert_eq!(envelope.event_id, format!("worker-credential-revoke:{id}"));
        }
        _ => panic!("the revocation is recorded"),
    }
    assert!(worker_credential_mint(&secret, "worker", u64::MAX, 0).is_err());
    assert!(worker_credential_mint(&secret, "worker", 60, i64::MAX).is_err());
}

#[test]
fn a_credential_stands_by_its_identity() {
    let (record, _) = worker_credential_mint(&[7u8; 32], "worker", 60, 0).expect("a credential");
    let expires_at_millis = record.expires_at_millis;
    let mut state = state();
    state.worker_credentials.insert(text("id"), record);
    let check = |id: &str, worker: &str, now: Option<i64>| check_credential(&state, id, worker, now);
    assert_eq!(check("id", "worker", Some(1)), Ok(()));
    assert_eq!(check("id", "worker", Some(expires_at_millis - 1)), Ok(()));
    assert_eq!(
        check("id", "worker", Some(expires_at_millis)),
        Err("credential has expired")
    );
    assert_eq!(check("id", "worker", None), Err("clock error"));
    assert_eq!(check("id", "other", Some(1)), Err("credential does not match worker_id"));
    assert_eq!(check("di", "worker", Some(1)), Err("credential is not recognized"));
}

#[test]
fn a_named_credential_is_revoked() {
    let (record, _) = worker_credential_mint(&[7u8; 32], "worker", 60, 0).expect("a credential");
    let mut state = state();
    state.worker_credentials.insert(text("id"), record);
    assert!(state.apply_named_revocation(None).is_err());
    assert!(state.apply_named_revocation(Some(None)).is_err());
    assert!(state.apply_named_revocation(Some(Some(text("di")))).is_err());
    assert_eq!(check_credential(&state, "id", "worker", Some(1)), Ok(()));
    assert_eq!(state.apply_named_revocation(Some(Some(text("id")))), Ok(()));
    assert_eq!(
        check_credential(&state, "id", "worker", Some(1)),
        Err("credential has been revoked")
    );
}

#[test]
fn a_named_evaluation_is_recorded_once() {
    let mut state = state();
    assert!(state.apply_named_evaluation(None, 3).is_err());
    assert!(state.apply_named_evaluation(Some(None), 3).is_err());
    assert_eq!(state.apply_named_evaluation(Some(Some(text("e"))), 3), Ok(()));
    assert_eq!(state.evaluation_events.get("e"), Some(&3));
    assert!(state.apply_named_evaluation(Some(Some(text("e"))), 4).is_err());
}

#[test]
fn one_worker_holds_a_trial_at_a_time() {
    let mut queue = RemoteArenaLeaseQueue::new();
    assert!(queue.lease(0).is_none());
    queue.offer("b", "genome", vec![2]);
    queue.offer("a", "genome", vec![1]);
    assert_eq!(queue.lease(100), Some((text("b"), text("genome"), vec![2])));
    assert_eq!(queue.lease(100), Some((text("a"), text("genome"), vec![1])));
    assert_eq!(queue.lease(100), None);
    let later = 100 + REMOTE_LEASE_TIMEOUT_MILLIS;
    assert_eq!(queue.lease(later - 1), None);
    assert_eq!(queue.lease(later), Some((text("b"), text("genome"), vec![2])));
}

#[test]
fn a_result_is_taken_once() {
    let mut queue = RemoteArenaLeaseQueue::new();
    queue.offer("a", "genome", vec![1]);
    queue.lease(100);
    let outcome = queue
        .submit_result("a", vec![9], RemoteCompletion::Success, 130)
        .expect("a result")
        .expect("the first result");
    assert_eq!(outcome.latency_millis, 30);
    assert_eq!(outcome.output, vec![9]);
    assert_eq!(queue.submit_result("a", vec![8], RemoteCompletion::Success, 140), Ok(None));
    assert_eq!(
        queue.submit_result("b", vec![8], RemoteCompletion::Success, 140),
        Err("job_id is not recognized")
    );
    assert!(queue.owns("a"));
    assert!(!queue.owns("b"));
    assert!(queue.submit_and_wait("a", WaitPoll::Idle).is_none());
    assert!(matches!(queue.submit_and_wait("a", WaitPoll::Received(outcome)), Some(Ok(_))));
    assert_eq!(queue.lease(10_000_000), None);
}

#[test]
fn a_wait_ends_with_a_reason() {
    let mut queue = RemoteArenaLeaseQueue::new();
    queue.offer("a", "genome", vec![1]);
    assert_eq!(
        queue.submit_and_wait("a", WaitPoll::Cancelled),
        Some(Err("paired evaluation was cancelled"))
    );
    assert!(!queue.owns("a"));
    assert_eq!(
        queue.submit_and_wait("a", WaitPoll::Expired),
        Some(Err("remote Arena trial lease deadline expired"))
    );
    assert_eq!(
        queue.submit_and_wait("a", WaitPoll::Dropped),
        Some(Err("remote Arena trial lease queue was dropped"))
    );
}

#[test]
fn leased_trials_are_framed_in_hexadecimal() {
    assert!(matches!(lease_arena_trial(None), WorkerReply::NoWork));
    match lease_arena_trial(Some((text("a"), text("genome"), vec![0xab, 1]))) {
        WorkerReply::Leased { job_id, frame_hex, .. } => {
            assert_eq!((job_id.as_str(), frame_hex.as_str()), ("a", "ab01"));
        }
        _ => panic!("a lease"),
    }
}

#[test]
fn remote_jobs_are_leased_in_order_until_they_have_a_result() {
    let mut state = state();
    with_job(&mut state, "b", "genome");
    with_job(&mut state, "a", "genome");
    let mut leases = RemoteLeases::new();
    assert_eq!(leases.next_direct_job(&state, 0), Some((text("a"), text("genome"))));
    assert!(matches!(
        leases.lease_remote_job(text("a"), text("genome"), None, 0),
        WorkerReply::NoWork
    ));
    assert!(matches!(
        leases.lease_remote_job(text("a"), text("genome"), Some(vec![1]), 5),
        WorkerReply::Leased { .. }
    ));
    assert_eq!(leases.next_direct_job(&state, 6), Some((text("b"), text("genome"))));
    assert_eq!(leases.age("a", 9), 4);
    leases.release("a");
    assert_eq!(leases.next_direct_job(&state, 6), Some((text("a"), text("genome"))));
    let run_id = state.remote_jobs.get("a").map(|job| job.run_id.clone()).expect("a job");
    state.run_results.insert(run_id.clone(), result(&run_id, RunCompletionReason::Success));
    assert_eq!(leases.next_direct_job(&state, 6), Some((text("b"), text("genome"))));
}

#[test]
fn remote_results_are_checked_before_they_are_signed() {
    let mut state = state();
    with_job(&mut state, "a", "genome");
    with_job(&mut state, "x", "nobody");
    let mut leases = RemoteLeases::new();
    let mut queue = RemoteArenaLeaseQueue::new();
    queue.offer("trial", "genome", vec![1]);
    let mut take = |state: &ControlState, job_id: &str, output: &str| {
        record_remote_job_result(
            state, &mut leases, &mut queue, job_id, output, RemoteCompletion::Success, 10,
        )
    };
    assert!(matches!(take(&state, "nothing", "00"), Err("job_id is not recognized")));
    assert!(matches!(take(&state, "a", "0"), Err("output is not valid hex")));
    assert!(matches!(take(&state, "x", "00"), Err("Genome is no longer registered")));
    match take(&state, "a", "00ff") {
        Ok(RemoteResultStep::Sign { output, latency_millis: 0 }) => assert_eq!(output, vec![0, 255]),
        _ => panic!("the result is signed"),
    }
    assert!(matches!(take(&state, "trial", "00"), Ok(RemoteResultStep::Deliver(_))));
    assert!(matches!(take(&state, "trial", "00"), Ok(RemoteResultStep::AlreadyKnown)));
    let run_id = state.remote_jobs.get("a").map(|job| job.run_id.clone()).expect("a job");
    state.run_results.insert(run_id.clone(), result(&run_id, RunCompletionReason::Success));
    assert!(matches!(take(&state, "a", "0"), Ok(RemoteResultStep::AlreadyKnown)));
}

#[test]
fn remote_output_is_bounded() {
    assert_eq!(decode_remote_output("0aFf"), Ok(vec![0x0a, 0xff]));
    assert_eq!(
        decode_remote_output(&"00".repeat(MAX_REMOTE_OUTPUT_BYTES + 1)),
        Err("output exceeds the byte limit")
    );
}

#[test]
fn remote_jobs_show_their_result() {
    let mut state = state();
    assert_eq!(remote_job_status(&state, "a"), Err(ExecuteError::NotFound));
    assert!(matches!(open_remote_job(&state, "a", "genome"), Ok(RemoteSubmitStep::Fresh)));
    assert!(matches!(open_remote_job(&state, "a", "nobody"), Err(ExecuteError::NotFound)));
    with_job(&mut state, "a", "genome");
    assert!(matches!(
        remote_job_status(&state, "a"),
        Ok(ResponseData::RemoteJob { state: RemoteJobState::Pending, .. })
    ));
    assert!(matches!(open_remote_job(&state, "a", "genome"), Ok(RemoteSubmitStep::Existing(_))));
    match open_remote_job(&state, "a", "other") {
        Err(error) => assert_eq!(
            error,
            ExecuteError::Rejected(text("job id is already bound to another Genome"))
        ),
        Ok(_) => panic!("a refusal"),
    }
    let run_id = state.remote_jobs.get("a").map(|job| job.run_id.clone()).expect("a job");
    state.run_results.insert(run_id.clone(), result(&run_id, RunCompletionReason::ProviderFailure));
    assert!(matches!(
        remote_job_status(&state, "a"),
        Ok(ResponseData::RemoteJob { state: RemoteJobState::Failed, latency_millis: Some(12), .. })
    ));
    assert_eq!(
        remote_run_submit("a", "genome", false),
        Err(ExecuteError::Rejected(text("Genome has no reference instruction")))
    );
}

#[test]
fn remote_results_claim_no_cost() {
    let record = RemoteJobRecord {
        schema_version: 1,
        job_id: text("a"),
        genome_id: text("genome"),
        run_id: text("remote-1"),
    };
    let evidence = RemoteEvidence {
        source_revision: text("revision"),
        input_commitment: text("input"),
        latency_millis: 4,
        stdout_artifact_id: text("out"),
        stderr_artifact_id: text("err"),
    };
    let platform = Platform {
        version: text("0.1.0"),
        receipt_schema: 2,
        os: text("linux"),
        arch: text("x86_64"),
    };
    let claims =
        remote_result_claims(&record, &genome(), evidence, RemoteCompletion::Success, &platform);
    assert_eq!(claims.actual_cost_microusd, 0);
    assert_eq!(claims.task_id, "remote-reference-v1");
    assert_eq!(
        claims.environment_id,
        "deterministic-v1.runtime-0.1.0.receipt-schema-2.linux.x86_64.isolation-private-worktree-v1.backend-git-remote-worker"
    );
}

#[test]
fn a_trial_that_is_offered_anew_waits_behind_the_others() {
    let mut queue = RemoteArenaLeaseQueue::new();
    queue.offer("b", "genome", vec![2]);
    queue.offer("a", "genome", vec![1]);
    queue.offer("c", "genome", vec![3]);
    queue.offer("b", "genome", vec![4]);
    assert!(queue.submit_and_wait("a", WaitPoll::Cancelled).is_some());
    assert_eq!(queue.lease(0), Some((text("c"), text("genome"), vec![3])));
    assert_eq!(queue.lease(0), Some((text("b"), text("genome"), vec![4])));
    assert_eq!(queue.lease(0), None);
}

#[test]
fn a_wait_ends_by_cancellation_before_its_deadline_before_a_result() {
    let outcome = || {
        Arrival::Outcome(RemoteArenaTrialOutcome {
            output: vec![1],
            completion: RemoteCompletion::Success,
            latency_millis: 0,
        })
    };
    assert!(matches!(observe_wait(true, 10, 5, outcome()), WaitPoll::Cancelled));
    assert!(matches!(observe_wait(false, 5, 5, outcome()), WaitPoll::Expired));
    assert!(matches!(observe_wait(false, 4, 5, outcome()), WaitPoll::Received(_)));
    assert!(matches!(observe_wait(false, 4, 5, Arrival::Dropped), WaitPoll::Dropped));
    assert!(matches!(observe_wait(false, 4, 5, Arrival::Nothing), WaitPoll::Idle));
}
