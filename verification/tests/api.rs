use hephaestus_control::api::{
    answer, answer_rejection, audit_envelope, connection_reply, genome_list, genome_show, handle,
    reject_busy, status, worker_connection_reply, world_list, world_show, Intake, Intaken,
    Reception, RequestReader, ResponseWriter, WorkerIntake, WorkerQueueing, WriteStep, Written,
    MAX_REQUEST_BYTES,
    MAX_SOCKET_HANDLERS, MAX_WORKER_MESSAGE_BYTES,
};
use hephaestus_control::error::ExecuteError;
use hephaestus_control::protocol::{
    ApiErrorCode, ApiRequest, ApiResponse, Command, ResponseData, WorkerReply, API_VERSION,
};
use hephaestus_control::registry::Registry;
use hephaestus_control::state::ControlState;

fn request(version: u16, token: &str, request_id: &str) -> ApiRequest {
    ApiRequest {
        version,
        request_id: request_id.to_owned(),
        token: token.to_owned(),
        command: Command::Status,
    }
}

fn code(response: &ApiResponse) -> (ApiErrorCode, &str) {
    let error = response.error.as_ref().expect("a failure");
    assert!(response.data.is_none());
    (error.code, error.message.as_str())
}

#[test]
fn the_version_is_checked_before_the_token_and_the_token_before_the_identifier() {
    let Reception::Refuse(response) = handle("secret", request(API_VERSION + 1, "wrong", "")) else {
        panic!("the version is refused");
    };
    assert_eq!(code(&response), (ApiErrorCode::UnsupportedVersion, "unsupported API version"));
    let Reception::Refuse(response) = handle("secret", request(API_VERSION, "wrong", "r")) else {
        panic!("the token is refused");
    };
    assert_eq!(code(&response), (ApiErrorCode::Unauthorized, "authentication failed"));
    assert_eq!(response.request_id, "r");
    assert!(matches!(
        handle("secret", request(API_VERSION, "secret", " ")),
        Reception::Reject { command: Command::Status, .. }
    ));
    assert!(matches!(
        handle("secret", request(API_VERSION, "secret", "r")),
        Reception::Execute { command: Command::Status, .. }
    ));
}

#[test]
fn refusals_are_answered_with_their_code() {
    let cases = [
        (ExecuteError::Invalid("no"), ApiErrorCode::InvalidRequest, "no"),
        (ExecuteError::Rejected("never".to_owned()), ApiErrorCode::InvalidRequest, "never"),
        (ExecuteError::NotFound, ApiErrorCode::NotFound, "canonical record not found"),
        (ExecuteError::Internal, ApiErrorCode::Internal, "canonical operation failed"),
        (ExecuteError::Busy, ApiErrorCode::Busy, "another bounded job is active"),
    ];
    for (error, expected, message) in cases {
        let response = answer("r".to_owned(), Err(error));
        assert_eq!(code(&response), (expected, message));
        assert_eq!(response.version, API_VERSION);
    }
    let done = ResponseData::Acknowledged { frozen: true, killed_runs: 0 };
    let response = answer("r".to_owned(), Ok(done));
    assert!(response.error.is_none());
    assert!(matches!(
        response.data,
        Some(ResponseData::Acknowledged { frozen: true, killed_runs: 0 })
    ));
    assert_eq!(
        code(&answer_rejection(true)),
        (ApiErrorCode::InvalidRequest, "request_id is required")
    );
    assert_eq!(
        code(&answer_rejection(false)),
        (ApiErrorCode::Internal, "canonical operation failed")
    );
}

#[test]
fn connections_are_closed_with_a_reason() {
    let cases = [
        (Intake::TooLarge, ApiErrorCode::InvalidRequest, "request exceeds limit"),
        (Intake::Unreadable, ApiErrorCode::InvalidRequest, "request could not be read"),
        (
            Intake::Malformed,
            ApiErrorCode::InvalidRequest,
            "request does not match the declared schema",
        ),
        (Intake::Queued(None), ApiErrorCode::Internal, "canonical operation failed"),
        (Intake::QueueFull, ApiErrorCode::Busy, "daemon request queue is full"),
        (Intake::Stopping, ApiErrorCode::Internal, "daemon is stopping"),
    ];
    for (intake, expected, message) in cases {
        assert_eq!(code(&connection_reply(intake)), (expected, message));
    }
    let queued = answer_rejection(true);
    assert_eq!(connection_reply(Intake::Queued(Some(queued))), answer_rejection(true));
}

#[test]
fn worker_connections_are_closed_with_a_reason() {
    let read = |length, request| worker_connection_reply(WorkerIntake::Read { length, request });
    let reason = |reply| match reply {
        WorkerReply::Error { reason } => reason,
        other => panic!("{other:?}"),
    };
    assert_eq!(
        reason(worker_connection_reply(WorkerIntake::Unreadable)),
        "request could not be read"
    );
    assert_eq!(
        reason(read(MAX_WORKER_MESSAGE_BYTES + 1, Some(WorkerQueueing::QueueFull))),
        "request exceeds limit"
    );
    assert_eq!(reason(read(3, None)), "request does not match the declared schema");
    assert_eq!(
        reason(read(3, Some(WorkerQueueing::Queued(None)))),
        "canonical operation failed"
    );
    assert_eq!(reason(read(3, Some(WorkerQueueing::QueueFull))), "daemon worker queue is full");
    assert_eq!(reason(read(3, Some(WorkerQueueing::Stopping))), "daemon is stopping");
    assert!(matches!(
        read(3, Some(WorkerQueueing::Queued(Some(WorkerReply::NoWork)))),
        WorkerReply::NoWork
    ));
}

#[test]
fn connections_are_limited() {
    assert!(reject_busy(MAX_SOCKET_HANDLERS - 1).is_none());
    let refusal = reject_busy(MAX_SOCKET_HANDLERS).expect("a refusal");
    assert_eq!(code(&refusal), (ApiErrorCode::Busy, "daemon connection limit reached"));
}

#[test]
fn requests_are_read_whole_up_to_the_limit() {
    let mut reader = RequestReader::new();
    assert!(!reader.take_chunk(b"{\"a\":"));
    assert!(!reader.take_chunk(b"1}"));
    match reader.finish(false) {
        Intaken::Whole(bytes) => assert_eq!(bytes, b"{\"a\":1}"),
        _ => panic!("the request is whole"),
    }
    let mut cut = RequestReader::new();
    cut.take_chunk(b"{");
    assert!(matches!(cut.finish(true), Intaken::Unreadable));
}

#[test]
fn a_request_beyond_the_limit_is_dropped() {
    let chunk = vec![b' '; MAX_REQUEST_BYTES];
    let mut reader = RequestReader::new();
    assert!(!reader.take_chunk(&chunk));
    assert!(!reader.too_large);
    assert!(!reader.take_chunk(b" "));
    assert!(reader.too_large);
    assert!(reader.bytes.is_empty());
    assert!(reader.take_chunk(&chunk));
    assert!(matches!(reader.finish(true), Intaken::TooLarge));
}

#[test]
fn an_empty_daemon_shows_nothing() {
    let state = ControlState::new(Registry::new("second".to_owned()));
    assert!(matches!(
        status(&state),
        ResponseData::Status { frozen: true, active_runs: 0, event_count: 0, genome_count: 0 }
    ));
    assert_eq!(genome_show(&state.registered, "genome:g"), Err(ExecuteError::NotFound));
    assert_eq!(world_show(&state.registered, "world:w"), Err(ExecuteError::NotFound));
    assert!(genome_list(&state.registered).is_empty());
    assert!(world_list(&state.registered).is_empty());
    let envelope = audit_envelope(&state, "request-9", "control.status");
    assert_eq!(envelope.event_id, "control:1:request-9");
    assert_eq!(envelope.event_type, "control.status");
}

#[test]
fn a_response_is_written_until_its_end() {
    let mut writer = ResponseWriter::new(10);
    assert_eq!(writer.write_bounded_response(Written::Bytes(4), false), WriteStep::Again);
    assert_eq!(writer.write_bounded_response(Written::Blocked, false), WriteStep::Wait);
    assert_eq!(writer.write_bounded_response(Written::Blocked, true), WriteStep::Failed);
    assert_eq!(writer.write_bounded_response(Written::Bytes(0), false), WriteStep::Stalled);
    assert_eq!(writer.write_bounded_response(Written::Failed, false), WriteStep::Failed);
    assert_eq!(writer.offset, 4);
    assert_eq!(writer.write_bounded_response(Written::Bytes(6), true), WriteStep::Done);
}
