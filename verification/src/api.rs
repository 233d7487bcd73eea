//! Reception, admission and dispatch of operator requests.

use crate::arena_submit;
use crate::error::{ExecuteError, Refusal};
use crate::hex;
use crate::ids;
use crate::job_submit;
use crate::ordered;
use crate::ordered::OrderedMap;
use crate::protocol::{
    ApiErrorCode, ApiRequest, ApiResponse, Command, McpDecision, ResponseData, WorkerReply,
    API_VERSION,
};
use crate::records::{EventEnvelope, GenomeRecord, WorldRecord};
use crate::registry::{GenomeEntry, Registry, WorldEntry};
use crate::remote;
use crate::state;
use crate::state::ControlState;
use crate::text;
use vstd::prelude::*;
use vstd::string::*;
use vstd::utf8::*;

verus! {

/// Ceiling on the bytes of one operator request.
pub const MAX_REQUEST_BYTES: usize = 7_340_032;

/// Ceiling on the bytes of one worker request.
pub const MAX_WORKER_MESSAGE_BYTES: usize = 2_097_152;

/// Ceiling on the connections that are served at one time.
pub const MAX_SOCKET_HANDLERS: usize = 16;

/// Whether a response refuses a request with a code and a message.
pub open spec fn fails(
    response: ApiResponse,
    request_id: Seq<char>,
    code: ApiErrorCode,
    message: Seq<char>,
) -> bool {
    &&& response.version == API_VERSION
    &&& response.request_id@ == request_id
    &&& response.data is None
    &&& response.error matches Some(error) && error.code == code && error.message@ == message
}

/// The code and the message that a refusal is answered with.
pub open spec fn answer_of(refusal: Refusal) -> (ApiErrorCode, Seq<char>) {
    match refusal {
        Refusal::Invalid(message) => (ApiErrorCode::InvalidRequest, message),
        Refusal::Rejected(message) => (ApiErrorCode::InvalidRequest, message),
        Refusal::NotFound => (ApiErrorCode::NotFound, "canonical record not found"@),
        Refusal::Internal => (ApiErrorCode::Internal, "canonical operation failed"@),
        Refusal::Busy => (ApiErrorCode::Busy, "another bounded job is active"@),
    }
}

/// Answers an executed request.
pub fn answer(request_id: String, result: Result<ResponseData, ExecuteError>) -> (response: ApiResponse)
    ensures
        match result {
            Ok(data) => response == (ApiResponse {
                version: API_VERSION,
                request_id,
                data: Some(data),
                error: None,
            }),
            Err(error) => fails(response, request_id@, answer_of(error@).0, answer_of(error@).1),
        },
{
    match result {
        Ok(data) => ApiResponse::success(request_id, data),
        Err(ExecuteError::Invalid(message)) => ApiResponse::failure(
            request_id,
            ApiErrorCode::InvalidRequest,
            message.to_owned(),
        ),
        Err(ExecuteError::Rejected(message)) => ApiResponse::failure(
            request_id,
            ApiErrorCode::InvalidRequest,
            message,
        ),
        Err(ExecuteError::NotFound) => ApiResponse::failure(
            request_id,
            ApiErrorCode::NotFound,
            "canonical record not found".to_owned(),
        ),
        Err(ExecuteError::Internal) => ApiResponse::failure(
            request_id,
            ApiErrorCode::Internal,
            "canonical operation failed".to_owned(),
        ),
        Err(ExecuteError::Busy) => ApiResponse::failure(
            request_id,
            ApiErrorCode::Busy,
            "another bounded job is active".to_owned(),
        ),
    }
}

/// What a received request leads to.
pub enum Reception {
    /// It is answered at once, and nothing is recorded.
    Refuse(ApiResponse),
    /// It is recorded as rejected, and then answered.
    Reject {
        /// The unusable correlation identifier.
        request_id: String,
        /// The command.
        command: Command,
    },
    /// Its command is executed.
    Execute {
        /// Correlation identifier.
        request_id: String,
        /// The command.
        command: Command,
    },
}

/// Receives a request: its version first, then its token, then its identifier.
pub fn handle(token: &str, request: ApiRequest) -> (result: Reception)
    ensures
        if request.version != API_VERSION {
            result matches Reception::Refuse(response) && fails(
                response,
                request.request_id@,
                ApiErrorCode::UnsupportedVersion,
                "unsupported API version"@,
            )
        } else if request.token@ != token@ {
            result matches Reception::Refuse(response) && fails(
                response,
                request.request_id@,
                ApiErrorCode::Unauthorized,
                "authentication failed"@,
            )
        } else if text::blank(request.request_id@) {
            result == (Reception::Reject {
                request_id: request.request_id,
                command: request.command,
            })
        } else {
            result == (Reception::Execute {
                request_id: request.request_id,
                command: request.command,
            })
        },
{
    if request.version != API_VERSION {
        return Reception::Refuse(
            ApiResponse::failure(
                request.request_id,
                ApiErrorCode::UnsupportedVersion,
                "unsupported API version".to_owned(),
            ),
        );
    }
    proof {
        encode_utf8_decode_utf8(request.token@);
        encode_utf8_decode_utf8(token@);
    }
    if !hex::constant_time_equal(request.token.as_str().as_bytes(), token.as_bytes()) {
        return Reception::Refuse(
            ApiResponse::failure(
                request.request_id,
                ApiErrorCode::Unauthorized,
                "authentication failed".to_owned(),
            ),
        );
    }
    if text::is_blank(request.request_id.as_str()) {
        return Reception::Reject { request_id: request.request_id, command: request.command };
    }
    Reception::Execute { request_id: request.request_id, command: request.command }
}

/// Answers a request without a usable identifier, once it was recorded or could not be.
pub fn answer_rejection(recorded: bool) -> (response: ApiResponse)
    ensures
        recorded ==> fails(
            response,
            ""@,
            ApiErrorCode::InvalidRequest,
            "request_id is required"@,
        ),
        !recorded ==> fails(
            response,
            ""@,
            ApiErrorCode::Internal,
            "canonical operation failed"@,
        ),
{
    if recorded {
        ApiResponse::failure(
            "".to_owned(),
            ApiErrorCode::InvalidRequest,
            "request_id is required".to_owned(),
        )
    } else {
        ApiResponse::failure(
            "".to_owned(),
            ApiErrorCode::Internal,
            "canonical operation failed".to_owned(),
        )
    }
}

/// Names the audit event of a command: after the sequence it will have and its request.
pub fn audit_envelope(state: &ControlState, request_id: &str, event_type: &str) -> (result: EventEnvelope)
    requires
        state.event_count < u64::MAX,
    ensures
        result.event_id@ == "control:"@ + text::decimal((state@.event_count + 1) as nat) + ":"@
            + request_id@,
        result.aggregate_id@ == state::CONTROL_AGGREGATE@,
        result.event_type@ == event_type@,
        result.actor@ == state::OPERATOR_ACTOR@,
{
    let next: String = text::decimal_text(state.event_count + 1);
    let mut event_id: String = ids::wrap("control:", next.as_str(), ":");
    event_id.append(request_id);
    EventEnvelope {
        event_id,
        aggregate_id: state::CONTROL_AGGREGATE.to_owned(),
        event_type: event_type.to_owned(),
        actor: state::OPERATOR_ACTOR.to_owned(),
    }
}

/// Shows the state of the control plane.
pub fn status(state: &ControlState) -> (result: ResponseData)
    requires
        state.wf(),
    ensures
        result matches ResponseData::Status { frozen, active_runs, event_count, genome_count }
            && frozen == state@.frozen && active_runs == state@.active_runs.len() && event_count
            == state@.event_count && genome_count == state.registered.genomes@.dom().len(),
{
    proof {
        state.active_runs.lemma_len();
        state.registered.genomes.lemma_len();
    }
    ResponseData::Status {
        frozen: state.frozen,
        active_runs: state.active_runs.len(),
        event_count: state.event_count,
        genome_count: state.registered.genomes.len(),
    }
}

/// Shows a registered Genome.
pub fn genome_show(registry: &Registry, genome_id: &str) -> (result: Result<ResponseData, ExecuteError>)
    requires
        registry.wf(),
    ensures
        if registry.genomes@.contains_key(genome_id@) {
            result matches Ok(ResponseData::Genome { genome }) && genome@
                == registry.genomes@[genome_id@].record@
        } else {
            result == Err::<ResponseData, ExecuteError>(ExecuteError::NotFound)
        },
{
    match registry.genomes.get(genome_id) {
        Some(entry) => Ok(ResponseData::Genome { genome: entry.record.clone() }),
        None => Err(ExecuteError::NotFound),
    }
}

/// Shows a registered World.
pub fn world_show(registry: &Registry, world_id: &str) -> (result: Result<ResponseData, ExecuteError>)
    requires
        registry.wf(),
    ensures
        result == (if registry.worlds@.contains_key(world_id@) {
            Ok(ResponseData::World { world: registry.worlds@[world_id@].record })
        } else {
            Err(ExecuteError::NotFound)
        }),
{
    match registry.worlds.get(world_id) {
        Some(entry) => Ok(ResponseData::World { world: entry.record.clone() }),
        None => Err(ExecuteError::NotFound),
    }
}

/// Lists the registered Genomes in the order of their identities.
pub fn genome_list(registry: &Registry) -> (result: Vec<GenomeRecord>)
    requires
        registry.wf(),
    ensures
        result@.len() == ordered::ordered_keys(registry.genomes@).len(),
        forall|i: int|
            0 <= i < result@.len() ==> (#[trigger] result@[i])@
                == registry.genomes@[ordered::ordered_keys(registry.genomes@)[i]].record@,
{
    let genomes: &OrderedMap<GenomeEntry> = &registry.genomes;
    proof {
        genomes.lemma_keys_are_ordered();
    }
    let mut result: Vec<GenomeRecord> = Vec::new();
    let count: usize = genomes.len();
    for i in 0..count
        invariant
            count == genomes.keys().len(),
            genomes.wf(),
            result@.len() == i,
            forall|k: int|
                0 <= k < i ==> (#[trigger] result@[k])@ == genomes@[genomes.keys()[k]].record@,
    {
        result.push(genomes.value_at(i).record.clone());
    }
    result
}

/// Lists the registered Worlds in the order of their identities.
pub fn world_list(registry: &Registry) -> (result: Vec<WorldRecord>)
    requires
        registry.wf(),
    ensures
        result@.len() == ordered::ordered_keys(registry.worlds@).len(),
        forall|i: int|
            0 <= i < result@.len() ==> #[trigger] result@[i]
                == registry.worlds@[ordered::ordered_keys(registry.worlds@)[i]].record,
{
    let worlds: &OrderedMap<WorldEntry> = &registry.worlds;
    proof {
        worlds.lemma_keys_are_ordered();
    }
    let mut result: Vec<WorldRecord> = Vec::new();
    let count: usize = worlds.len();
    for i in 0..count
        invariant
            count == worlds.keys().len(),
            worlds.wf(),
            result@.len() == i,
            forall|k: int|
                0 <= k < i ==> #[trigger] result@[k] == worlds@[worlds.keys()[k]].record,
    {
        result.push(worlds.value_at(i).record.clone());
    }
    result
}

/// What executing an admitted and audited command takes.
pub enum Step {
    /// The answer follows from the projection.
    Answer(Result<ResponseData, ExecuteError>),
    /// All running work is cancelled; then this is the answer.
    CancelRunning(Result<ResponseData, ExecuteError>),
    /// The daemon stops serving; this is the answer.
    Stop(ResponseData),
    /// The command that a client was allowed is executed in turn.
    Nested(Command),
    /// A Genome runs under a fresh run identity.
    Run {
        /// The identity.
        run_id: String,
        /// The command.
        command: Command,
    },
    /// The command is carried out on storage.
    Perform(Command),
}

/// The acknowledgement of a freeze, a kill or a stop.
pub open spec fn acknowledged(frozen: bool) -> ResponseData {
    ResponseData::Acknowledged { frozen, killed_runs: 0 }
}

/// Whether a step is what an admitted and audited command takes.
pub open spec fn takes(step: Step, state: ControlState, working: bool, command: Command) -> bool {
    let registry = state.registered;
    match command {
        Command::Status => step matches Step::Answer(Ok(ResponseData::Status {
            frozen,
            active_runs,
            event_count,
            genome_count,
        })) && frozen == state@.frozen && active_runs == state@.active_runs.len() && event_count
            == state@.event_count && genome_count == registry.genomes@.dom().len(),
        Command::Freeze | Command::Unfreeze => step == Step::Answer(Ok(acknowledged(state@.frozen))),
        Command::KillAll => step == Step::CancelRunning(Ok(acknowledged(state@.frozen))),
        Command::GenomeShow { genome_id } => if registry.genomes@.contains_key(genome_id@) {
            step matches Step::Answer(Ok(ResponseData::Genome { genome })) && genome@
                == registry.genomes@[genome_id@].record@
        } else {
            step == Step::Answer(Err(ExecuteError::NotFound))
        },
        Command::GenomeList => step matches Step::Answer(Ok(ResponseData::Genomes { genomes }))
            && genomes@.len() == ordered::ordered_keys(registry.genomes@).len() && forall|i: int|
            0 <= i < genomes@.len() ==> (#[trigger] genomes@[i])@
                == registry.genomes@[ordered::ordered_keys(registry.genomes@)[i]].record@,
        Command::WorldShow { world_id } => step == Step::Answer(
            if registry.worlds@.contains_key(world_id@) {
                Ok(ResponseData::World { world: registry.worlds@[world_id@].record })
            } else {
                Err(ExecuteError::NotFound)
            },
        ),
        Command::WorldList => step matches Step::Answer(Ok(ResponseData::Worlds { worlds }))
            && worlds@.len() == ordered::ordered_keys(registry.worlds@).len() && forall|i: int|
            0 <= i < worlds@.len() ==> #[trigger] worlds@[i]
                == registry.worlds@[ordered::ordered_keys(registry.worlds@)[i]].record,
        Command::JobStatus { job_id } => if state@.arena_jobs.contains_key(job_id@) {
            step == Step::Answer(
                Ok(
                    ResponseData::ArenaJob {
                        job: arena_submit::progress(state@.arena_jobs[job_id@]),
                    },
                ),
            )
        } else if state@.jobs.contains_key(job_id@) {
            step matches Step::Answer(Ok(response)) && job_submit::shows_job(
                response,
                state@.jobs[job_id@],
                state@,
            )
        } else {
            step == Step::Answer(Err(ExecuteError::NotFound))
        },
        Command::RemoteJobStatus { job_id } => step == Step::Answer(
            if state@.remote_jobs.contains_key(job_id@) {
                Ok(remote::remote_status(state@, job_id@))
            } else {
                Err(ExecuteError::NotFound)
            },
        ),
        Command::RunReference { .. } => step matches Step::Run { run_id, command: admitted }
            && run_id@ == "reference-"@ + text::decimal(state@.event_count as nat) && admitted
            == command,
        Command::RunEvaluation { .. } => step matches Step::Run { run_id, command: admitted }
            && run_id@ == "evaluation-"@ + text::decimal(state@.event_count as nat) && admitted
            == command,
        Command::DaemonStop => if working {
            step == Step::CancelRunning(Err(ExecuteError::Busy))
        } else {
            step == Step::Stop(acknowledged(state@.frozen))
        },
        Command::McpCall { decision, .. } => match decision {
            McpDecision::Denied { reason } => step == Step::Answer(
                Ok(ResponseData::McpDenied { reason }),
            ),
            McpDecision::Allowed { command: allowed } => step == Step::Nested(*allowed),
        },
        _ => step == Step::Perform(command),
    }
}

/// Decides what an admitted and audited command takes. `working` tells whether a job or a
/// paired evaluation runs.
pub fn execute(state: &ControlState, working: bool, command: Command) -> (result: Step)
    requires
        state.wf(),
    ensures
        takes(result, *state, working, command),
{
    match command {
        Command::Status => Step::Answer(Ok(status(state))),
        Command::Freeze => Step::Answer(
            Ok(ResponseData::Acknowledged { frozen: state.frozen, killed_runs: 0 }),
        ),
        Command::Unfreeze => Step::Answer(
            Ok(ResponseData::Acknowledged { frozen: state.frozen, killed_runs: 0 }),
        ),
        Command::KillAll => Step::CancelRunning(
            Ok(ResponseData::Acknowledged { frozen: state.frozen, killed_runs: 0 }),
        ),
        Command::GenomeShow { genome_id } => Step::Answer(
            genome_show(&state.registered, genome_id.as_str()),
        ),
        Command::GenomeList => Step::Answer(
            Ok(ResponseData::Genomes { genomes: genome_list(&state.registered) }),
        ),
        Command::WorldShow { world_id } => Step::Answer(
            world_show(&state.registered, world_id.as_str()),
        ),
        Command::WorldList => Step::Answer(
            Ok(ResponseData::Worlds { worlds: world_list(&state.registered) }),
        ),
        Command::JobStatus { job_id } => Step::Answer(
            job_submit::job_status(state, job_id.as_str()),
        ),
        Command::RemoteJobStatus { job_id } => Step::Answer(
            remote::remote_job_status(state, job_id.as_str()),
        ),
        Command::RunReference { genome_id } => {
            let count: String = text::decimal_text(state.event_count);
            let run_id: String = ids::wrap("reference-", count.as_str(), "");
            proof {
                reveal_strlit("");
                assert(run_id@ == "reference-"@ + text::decimal(state@.event_count as nat));
            }
            Step::Run { run_id, command: Command::RunReference { genome_id } }
        },
        Command::RunEvaluation {
            genome_id,
            task_id,
            input,
            seed,
            wall_millis,
            maximum_output_bytes,
            maximum_cost_microusd,
        } => {
            let count: String = text::decimal_text(state.event_count);
            let run_id: String = ids::wrap("evaluation-", count.as_str(), "");
            proof {
                reveal_strlit("");
                assert(run_id@ == "evaluation-"@ + text::decimal(state@.event_count as nat));
            }
            Step::Run {
                run_id,
                command: Command::RunEvaluation {
                    genome_id,
                    task_id,
                    input,
                    seed,
                    wall_millis,
                    maximum_output_bytes,
                    maximum_cost_microusd,
                },
            }
        },
        Command::DaemonStop => if working {
            Step::CancelRunning(Err(ExecuteError::Busy))
        } else {
            Step::Stop(ResponseData::Acknowledged { frozen: state.frozen, killed_runs: 0 })
        },
        Command::McpCall { client_id, tool, tool_version, decision } => match decision {
            McpDecision::Denied { reason } => Step::Answer(Ok(ResponseData::McpDenied { reason })),
            McpDecision::Allowed { command: allowed } => Step::Nested(*allowed),
        },
        other => Step::Perform(other),
    }
}

/// What became of an operator connection.
pub enum Intake {
    /// More bytes arrived than a request may have.
    TooLarge,
    /// The bytes could not be read.
    Unreadable,
    /// The bytes are no request.
    Malformed,
    /// The request was handed over; the reply, if one came in time.
    Queued(Option<ApiResponse>),
    /// The queue was full.
    QueueFull,
    /// Nobody takes requests any more.
    Stopping,
}

/// The code and the message that an unanswered connection is closed with.
pub open spec fn intake_failure(intake: Intake) -> Option<(ApiErrorCode, Seq<char>)> {
    match intake {
        Intake::TooLarge => Some((ApiErrorCode::InvalidRequest, "request exceeds limit"@)),
        Intake::Unreadable => Some((ApiErrorCode::InvalidRequest, "request could not be read"@)),
        Intake::Malformed => Some(
            (ApiErrorCode::InvalidRequest, "request does not match the declared schema"@),
        ),
        Intake::Queued(Some(_)) => None,
        Intake::Queued(None) => Some((ApiErrorCode::Internal, "canonical operation failed"@)),
        Intake::QueueFull => Some((ApiErrorCode::Busy, "daemon request queue is full"@)),
        Intake::Stopping => Some((ApiErrorCode::Internal, "daemon is stopping"@)),
    }
}

/// Answers an operator connection.
pub fn connection_reply(intake: Intake) -> (response: ApiResponse)
    ensures
        match intake_failure(intake) {
            None => intake == Intake::Queued(Some(response)),
            Some((code, message)) => fails(response, ""@, code, message),
        },
{
    let (code, message): (ApiErrorCode, &'static str) = match intake {
        Intake::Queued(Some(response)) => {
            return response;
        },
        Intake::TooLarge => (ApiErrorCode::InvalidRequest, "request exceeds limit"),
        Intake::Unreadable => (ApiErrorCode::InvalidRequest, "request could not be read"),
        Intake::Malformed => (
            ApiErrorCode::InvalidRequest,
            "request does not match the declared schema",
        ),
        Intake::Queued(None) => (ApiErrorCode::Internal, "canonical operation failed"),
        Intake::QueueFull => (ApiErrorCode::Busy, "daemon request queue is full"),
        Intake::Stopping => (ApiErrorCode::Internal, "daemon is stopping"),
    };
    ApiResponse::failure("".to_owned(), code, message.to_owned())
}

/// What became of a worker connection.
pub enum WorkerIntake {
    /// The bytes could not be read.
    Unreadable,
    /// Bytes were read: how many, and whether they are a request.
    Read {
        /// How many bytes.
        length: usize,
        /// What became of the request, where the bytes are one.
        request: Option<WorkerQueueing>,
    },
}

/// What became of a worker request.
pub enum WorkerQueueing {
    /// It was handed over; the reply, if one came in time.
    Queued(Option<WorkerReply>),
    /// The queue was full.
    QueueFull,
    /// Nobody takes requests any more.
    Stopping,
}

/// The reason that an unanswered worker connection is closed with.
pub open spec fn worker_intake_failure(intake: WorkerIntake) -> Option<Seq<char>> {
    match intake {
        WorkerIntake::Unreadable => Some("request could not be read"@),
        WorkerIntake::Read { length, request } => if length > MAX_WORKER_MESSAGE_BYTES {
            Some("request exceeds limit"@)
        } else {
            match request {
                None => Some("request does not match the declared schema"@),
                Some(WorkerQueueing::Queued(Some(_))) => None,
                Some(WorkerQueueing::Queued(None)) => Some("canonical operation failed"@),
                Some(WorkerQueueing::QueueFull) => Some("daemon worker queue is full"@),
                Some(WorkerQueueing::Stopping) => Some("daemon is stopping"@),
            }
        },
    }
}

/// Answers a worker connection.
pub fn worker_connection_reply(intake: WorkerIntake) -> (reply: WorkerReply)
    ensures
        match worker_intake_failure(intake) {
            None => intake matches WorkerIntake::Read { request, .. } && request == Some(
                WorkerQueueing::Queued(Some(reply)),
            ),
            Some(message) => reply matches WorkerReply::Error { reason } && reason@ == message,
        },
{
    let message: &'static str = match intake {
        WorkerIntake::Unreadable => "request could not be read",
        WorkerIntake::Read { length, request } => if length > MAX_WORKER_MESSAGE_BYTES {
            "request exceeds limit"
        } else {
            match request {
                None => "request does not match the declared schema",
                Some(WorkerQueueing::Queued(Some(reply))) => {
                    return reply;
                },
                Some(WorkerQueueing::Queued(None)) => "canonical operation failed",
                Some(WorkerQueueing::QueueFull) => "daemon worker queue is full",
                Some(WorkerQueueing::Stopping) => "daemon is stopping",
            }
        },
    };
    WorkerReply::Error { reason: message.to_owned() }
}

/// Tells whether one more connection is served beside `current` others; where it is not,
/// this is the answer.
pub fn reject_busy(current: usize) -> (result: Option<ApiResponse>)
    ensures
        match result {
            None => current < MAX_SOCKET_HANDLERS,
            Some(response) => current >= MAX_SOCKET_HANDLERS && fails(
                response,
                ""@,
                ApiErrorCode::Busy,
                "daemon connection limit reached"@,
            ),
        },
{
    if current >= MAX_SOCKET_HANDLERS {
        Some(
            ApiResponse::failure(
                "".to_owned(),
                ApiErrorCode::Busy,
                "daemon connection limit reached".to_owned(),
            ),
        )
    } else {
        None
    }
}

/// A request as far as it was read.
pub struct RequestReader {
    /// The bytes, unless there were too many.
    pub bytes: Vec<u8>,
    /// How many bytes arrived.
    pub total_bytes: usize,
    /// Whether more bytes arrived than a request may have.
    pub too_large: bool,
}

/// What was read of a request.
pub struct Reading {
    pub bytes: Seq<u8>,
    pub total: nat,
    pub too_large: bool,
}

impl View for RequestReader {
    type V = Reading;

    open spec fn view(&self) -> Reading {
        Reading {
            bytes: self.bytes@,
            total: self.total_bytes as nat,
            too_large: self.too_large,
        }
    }
}

/// What was read of a request after one more chunk of it.
pub open spec fn after_chunk(before: Reading, chunk: Seq<u8>) -> Reading {
    let total = if before.total + chunk.len() > usize::MAX {
        usize::MAX as nat
    } else {
        before.total + chunk.len()
    };
    if total > MAX_REQUEST_BYTES {
        Reading { bytes: Seq::empty(), total, too_large: true }
    } else if before.too_large {
        Reading { total, ..before }
    } else {
        Reading { bytes: before.bytes + chunk, total, ..before }
    }
}

/// What was read of a request after all its chunks.
pub open spec fn after_chunks(chunks: Seq<Seq<u8>>) -> Reading
    decreases chunks.len(),
{
    if chunks.len() == 0 {
        Reading { bytes: Seq::empty(), total: 0, too_large: false }
    } else {
        after_chunk(after_chunks(chunks.drop_last()), chunks.last())
    }
}

impl RequestReader {
    /// A request of which nothing was read.
    pub fn new() -> (result: Self)
        ensures
            result@ == after_chunks(Seq::empty()),
    {
        let result = RequestReader { bytes: Vec::new(), total_bytes: 0, too_large: false };
        assert(result@.bytes == Seq::<u8>::empty());
        result
    }

    /// Takes the next chunk in, and tells whether reading ends with it: when twice the limit
    /// has arrived.
    pub fn take_chunk(&mut self, chunk: &[u8]) -> (result: bool)
        ensures
            final(self)@ == after_chunk(old(self)@, chunk@),
            result == (final(self)@.too_large && final(self)@.total >= 2 * MAX_REQUEST_BYTES),
    {
        let ghost before = self@;
        self.total_bytes = self.total_bytes.saturating_add(chunk.len());
        if self.total_bytes > MAX_REQUEST_BYTES {
            self.too_large = true;
            self.bytes = Vec::new();
            assert(self@.bytes == Seq::<u8>::empty());
        } else if !self.too_large {
            self.bytes.extend_from_slice(chunk);
            assert(self@.bytes == before.bytes + chunk@);
        }
        self.too_large && self.total_bytes >= 2 * MAX_REQUEST_BYTES
    }

    /// Ends the reading: by the end of the stream, or by a failure to read on. A request that
    /// is too large is told as such either way.
    pub fn finish(self, failed: bool) -> (result: Intaken)
        ensures
            result == (if self@.too_large {
                Intaken::TooLarge
            } else if failed {
                Intaken::Unreadable
            } else {
                Intaken::Whole(self.bytes)
            }),
    {
        if self.too_large {
            Intaken::TooLarge
        } else if failed {
            Intaken::Unreadable
        } else {
            Intaken::Whole(self.bytes)
        }
    }
}

/// How reading a request ended.
pub enum Intaken {
    /// More bytes arrived than a request may have.
    TooLarge,
    /// The bytes could not be read.
    Unreadable,
    /// All bytes of the request.
    Whole(Vec<u8>),
}

/// All bytes of some chunks.
pub open spec fn joined(chunks: Seq<Seq<u8>>) -> Seq<u8>
    decreases chunks.len(),
{
    if chunks.len() == 0 {
        Seq::empty()
    } else {
        joined(chunks.drop_last()) + chunks.last()
    }
}

/// A request within the limit is read whole, however it is cut into chunks; one beyond the
/// limit is told as too large, and none of it is kept.
pub proof fn requests_are_read_whole_or_refused(chunks: Seq<Seq<u8>>)
    ensures
        joined(chunks).len() <= MAX_REQUEST_BYTES ==> after_chunks(chunks) == (Reading {
            bytes: joined(chunks),
            total: joined(chunks).len(),
            too_large: false,
        }),
        joined(chunks).len() > MAX_REQUEST_BYTES ==> after_chunks(chunks).too_large
            && after_chunks(chunks).bytes == Seq::<u8>::empty() && after_chunks(chunks).total
            > MAX_REQUEST_BYTES,
    decreases chunks.len(),
{
    if chunks.len() > 0 {
        requests_are_read_whole_or_refused(chunks.drop_last());
    }
}

/// What one attempt to write a response came to.
#[derive(Clone, Copy, Debug, PartialEq, Eq, Structural)]
pub enum Written {
    /// So many bytes were taken.
    Bytes(usize),
    /// The connection takes none at the moment.
    Blocked,
    /// The connection failed.
    Failed,
}

/// What the writer of a response does next.
#[derive(Clone, Copy, Debug, PartialEq, Eq, Structural)]
pub enum WriteStep {
    /// Nothing: all of it is written.
    Done,
    /// Write on.
    Again,
    /// Wait, and write on.
    Wait,
    /// Give up on a connection that takes no bytes.
    Stalled,
    /// Give up on a connection that failed.
    Failed,
}

/// A response on its way to its connection.
#[derive(Debug, PartialEq, Eq)]
pub struct ResponseWriter {
    /// How many bytes it has.
    pub total: usize,
    /// How many of them are written.
    pub offset: usize,
}

impl ResponseWriter {
    /// No more is written than there is.
    pub open spec fn wf(self) -> bool {
        self.offset <= self.total
    }

    /// A response of which nothing is written.
    pub fn new(total: usize) -> (result: Self)
        ensures
            result.wf(),
            result == (ResponseWriter { total, offset: 0 }),
    {
        ResponseWriter { total, offset: 0 }
    }

    /// Takes an attempt to write the rest in. `due` says whether the time for the response is
    /// over: a connection that takes none is only waited for before.
    pub fn write_bounded_response(&mut self, written: Written, due: bool) -> (result: WriteStep)
        requires
            old(self).wf(),
            written matches Written::Bytes(count) ==> old(self).offset + count <= old(self).total,
        ensures
            final(self).wf(),
            match written {
                Written::Bytes(count) => if count == 0 {
                    result == WriteStep::Stalled && *final(self) == *old(self)
                } else {
                    *final(self) == (ResponseWriter {
                        total: old(self).total,
                        offset: (old(self).offset + count) as usize,
                    }) && result == (if old(self).offset + count == old(self).total {
                        WriteStep::Done
                    } else {
                        WriteStep::Again
                    })
                },
                Written::Blocked => *final(self) == *old(self) && result == (if due {
                    WriteStep::Failed
                } else {
                    WriteStep::Wait
                }),
                Written::Failed => *final(self) == *old(self) && result == WriteStep::Failed,
            },
    {
        match written {
            Written::Bytes(count) => {
                if count == 0 {
                    return WriteStep::Stalled;
                }
                self.offset = self.offset + count;
                if self.offset == self.total {
                    WriteStep::Done
                } else {
                    WriteStep::Again
                }
            },
            Written::Blocked => if due {
                WriteStep::Failed
            } else {
                WriteStep::Wait
            },
            Written::Failed => WriteStep::Failed,
        }
    }
}

} // verus!
