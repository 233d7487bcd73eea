//! Lifecycle of the bounded direct jobs.

use crate::digest;
use crate::error;
use crate::error::{projection, ControlError, Fault};
use crate::hex;
use crate::ids;
use crate::ordered;
use crate::protocol::{JobRecord, JobState, JobTerminal};
use crate::records::{RunBudgetReceipt, RunCompletionReason, RunResultReceipt, StoredEvent};
use crate::registry;
use crate::registry::Registry;
use crate::text;
use vstd::prelude::*;
use vstd::string::*;
use vstd::utf8::*;

verus! {

/// Who records job events.
pub const RUNTIME_ACTOR: &'static str = "daemon-runtime";

/// The one task that a direct job runs.
pub const REFERENCE_TASK: &'static str = "repository-inventory-v1";

/// The input of that task.
pub const REFERENCE_PROMPT: &'static str = "Inventory the isolated repository without modifying it or using the network.";

/// Wall-clock ceiling of a direct job in milliseconds.
pub const REFERENCE_WALL_MILLIS: u64 = 10_000;

/// Output ceiling of a direct job in bytes.
pub const REFERENCE_OUTPUT_BYTES: u64 = 1_048_576;

/// A text in canonical history that has to hold something.
pub open spec fn text_fault(value: Seq<char>, field: Seq<char>) -> Option<Fault> {
    error::need(
        !text::blank(value),
        Fault::Projection("canonical "@ + field + " is empty"@),
    )
}

/// Accepts a text of canonical history that is not blank.
pub fn require_projection_text(value: &str, field: &str) -> (result: Result<(), ControlError>)
    ensures
        error::verdict(result) == error::faulted(text_fault(value@, field@)),
{
    if text::is_blank(value) {
        let message: String = ids::wrap("canonical ", field, " is empty");
        return Err(ControlError::Projection(message));
    }
    Ok(())
}

/// What a content-derived identity of a namespace begins with.
pub open spec fn content_prefix(namespace: Seq<char>) -> Seq<char> {
    "hephaestus:"@ + namespace + ":"@
}

/// The fault of a content-derived identity. `address` says whether what follows the
/// namespace is a well-formed content address.
pub open spec fn content_fault(value: Seq<char>, namespace: Seq<char>, address: bool) -> Option<Fault> {
    error::first(
        error::need(
            text::begins_with(value, content_prefix(namespace)),
            Fault::Projection("canonical "@ + namespace + " identity is malformed"@),
        ),
        error::need(address, Fault::Artifact),
    )
}

/// What follows the namespace in a content-derived identity.
pub fn content_address(value: &str, namespace: &str) -> (result: Option<String>)
    ensures
        match result {
            Some(rest) => text::begins_with(value@, content_prefix(namespace@)) && value@
                == content_prefix(namespace@) + rest@,
            None => !text::begins_with(value@, content_prefix(namespace@)),
        },
{
    let prefix: String = ids::wrap("hephaestus:", namespace, ":");
    text::strip_prefix(value, prefix.as_str())
}

/// Accepts a content-derived identity of `namespace` and hands out the content address.
/// `address` says whether that address is well formed.
pub fn validate_content_id(value: &str, namespace: &str, address: bool) -> (result: Result<
    String,
    ControlError,
>)
    ensures
        match result {
            Ok(rest) => content_fault(value@, namespace@, address) is None && value@ == content_prefix(
                namespace@,
            ) + rest@,
            Err(fault) => content_fault(value@, namespace@, address) == Some(fault@),
        },
{
    match content_address(value, namespace) {
        None => Err(
            ControlError::Projection(ids::wrap("canonical ", namespace, " identity is malformed")),
        ),
        Some(rest) => if address {
            Ok(rest)
        } else {
            Err(ControlError::Artifact)
        },
    }
}

/// What an environment identity of the reference worker begins with.
pub const REFERENCE_ENVIRONMENT: &'static str = "reference-v1.";

/// What an environment identity of a provider begins with.
pub const PROVIDER_ENVIRONMENT: &'static str = "provider-v1.";

/// Whether an environment identity is a provider's.
pub open spec fn provider_environment(environment_id: Seq<char>) -> bool {
    !text::begins_with(environment_id, REFERENCE_ENVIRONMENT@) && text::begins_with(
        environment_id,
        PROVIDER_ENVIRONMENT@,
    )
}

/// The fault of an environment identity. `address` says whether what follows the version
/// is a well-formed content address.
pub open spec fn environment_fault(environment_id: Seq<char>, address: bool, message: Seq<char>) -> Option<
    Fault,
> {
    error::first(
        error::need(
            text::begins_with(environment_id, REFERENCE_ENVIRONMENT@) || text::begins_with(
                environment_id,
                PROVIDER_ENVIRONMENT@,
            ),
            Fault::Projection(message),
        ),
        error::need(address, Fault::Artifact),
    )
}

/// What follows the version in an environment identity.
pub fn environment_address(environment_id: &str) -> (result: Option<String>)
    ensures
        match result {
            Some(rest) => environment_id@ == REFERENCE_ENVIRONMENT@ + rest@ || environment_id@
                == PROVIDER_ENVIRONMENT@ + rest@,
            None => !text::begins_with(environment_id@, REFERENCE_ENVIRONMENT@)
                && !text::begins_with(environment_id@, PROVIDER_ENVIRONMENT@),
        },
{
    match text::strip_prefix(environment_id, REFERENCE_ENVIRONMENT) {
        Some(rest) => Some(rest),
        None => text::strip_prefix(environment_id, PROVIDER_ENVIRONMENT),
    }
}

/// Accepts a versioned environment identity and says whether it is a provider's.
pub fn validate_environment(environment_id: &str, address: bool, message: &str) -> (result: Result<
    bool,
    ControlError,
>)
    ensures
        match result {
            Ok(provider) => environment_fault(environment_id@, address, message@) is None && provider
                == provider_environment(environment_id@),
            Err(fault) => environment_fault(environment_id@, address, message@) == Some(fault@),
        },
{
    let reference: bool = text::starts_with(environment_id, REFERENCE_ENVIRONMENT);
    let provider: bool = text::starts_with(environment_id, PROVIDER_ENVIRONMENT);
    if !reference && !provider {
        return Err(projection(message));
    }
    if !address {
        return Err(ControlError::Artifact);
    }
    Ok(!reference)
}

/// Whether a signed result is the one that a job was admitted for.
pub open spec fn result_matches_job(receipt: RunResultReceipt, job: JobRecord) -> bool {
    &&& receipt.run_id@ == job.run_id@
    &&& receipt.genome_id@ == job.genome_id@
    &&& receipt.world_id@ == job.world_id@
    &&& receipt.source_revision@ == job.source_revision@
    &&& receipt.task_id@ == job.task_id@
    &&& receipt.input_commitment@ == job.input_commitment@
    &&& receipt.seed == job.seed
    &&& receipt.environment_id@ == job.environment_id@
    &&& receipt.budget == job.budget
}

/// Tests whether a signed result is the one that a job was admitted for.
pub fn receipt_matches_job(receipt: &RunResultReceipt, job: &JobRecord) -> (result: bool)
    ensures
        result == result_matches_job(*receipt, *job),
{
    receipt.run_id == job.run_id && receipt.genome_id == job.genome_id && receipt.world_id
        == job.world_id && receipt.source_revision == job.source_revision && receipt.task_id
        == job.task_id && receipt.input_commitment == job.input_commitment && receipt.seed == job.seed
        && receipt.environment_id == job.environment_id && receipt.budget == job.budget
}

/// Whether two records of a job were admitted under the same binding.
pub open spec fn same_binding(a: JobRecord, b: JobRecord) -> bool {
    &&& a.genome_id@ == b.genome_id@
    &&& a.run_id@ == b.run_id@
    &&& a.source_revision@ == b.source_revision@
    &&& a.world_id@ == b.world_id@
    &&& a.task_id@ == b.task_id@
    &&& a.input_commitment@ == b.input_commitment@
    &&& a.seed == b.seed
    &&& a.environment_id@ == b.environment_id@
    &&& a.budget == b.budget
}

/// Tests whether two records of a job were admitted under the same binding.
fn is_same_binding(a: &JobRecord, b: &JobRecord) -> (result: bool)
    ensures
        result == same_binding(*a, *b),
{
    a.genome_id == b.genome_id && a.run_id == b.run_id && a.source_revision == b.source_revision
        && a.world_id == b.world_id && a.task_id == b.task_id && a.input_commitment
        == b.input_commitment && a.seed == b.seed && a.environment_id == b.environment_id && a.budget
        == b.budget
}

/// A job that has not ended.
pub open spec fn active(state: JobState) -> bool {
    state == JobState::Admitted || state == JobState::Running || state
        == JobState::CancellationRequested
}

/// Whether a job has not ended.
pub fn is_active(state: JobState) -> (result: bool)
    ensures
        result == active(state),
{
    match state {
        JobState::Admitted | JobState::Running | JobState::CancellationRequested => true,
        JobState::Succeeded | JobState::Failed | JobState::Interrupted => false,
    }
}

/// The states that a terminal outcome goes with.
pub open spec fn terminal_state(state: JobState, terminal: Option<JobTerminal>) -> bool {
    match terminal {
        Some(JobTerminal::Succeeded) => state == JobState::Succeeded,
        Some(JobTerminal::Failed) => state == JobState::Failed,
        Some(JobTerminal::Cancelled) => state == JobState::Interrupted,
        Some(JobTerminal::Interrupted) => state == JobState::Interrupted,
        None => false,
    }
}

/// Whether `terminal` goes with `state`.
pub fn is_terminal_state(state: JobState, terminal: Option<JobTerminal>) -> (result: bool)
    ensures
        result == terminal_state(state, terminal),
{
    match terminal {
        Some(JobTerminal::Succeeded) => state == JobState::Succeeded,
        Some(JobTerminal::Failed) => state == JobState::Failed,
        Some(JobTerminal::Cancelled) => state == JobState::Interrupted,
        Some(JobTerminal::Interrupted) => state == JobState::Interrupted,
        None => false,
    }
}

/// The event type that records a job in each of its states.
pub open spec fn job_event(state: JobState) -> &'static str {
    match state {
        JobState::Admitted => "admitted",
        JobState::Running => "running",
        JobState::CancellationRequested => "cancellation_requested",
        JobState::Succeeded | JobState::Failed | JobState::Interrupted => "terminal",
    }
}

/// Names the last part of the event type that records a job in `state`.
pub fn job_event_suffix(state: JobState) -> (result: &'static str)
    ensures
        result == job_event(state),
{
    match state {
        JobState::Admitted => "admitted",
        JobState::Running => "running",
        JobState::CancellationRequested => "cancellation_requested",
        JobState::Succeeded | JobState::Failed | JobState::Interrupted => "terminal",
    }
}

/// Whether recorded evidence proves that a job succeeded.
pub open spec fn proves_success(
    result: Option<RunResultReceipt>,
    completed: bool,
    record: JobRecord,
) -> bool {
    &&& completed
    &&& result matches Some(receipt)
    &&& result_matches_job(receipt, record)
    &&& receipt.completion_reason == RunCompletionReason::Success
}

/// Whether recorded evidence leaves room for a job not to have succeeded: there is no
/// signed result, or a matching one that reports no success.
pub open spec fn admits_failure(result: Option<RunResultReceipt>, record: JobRecord) -> bool {
    match result {
        None => true,
        Some(receipt) => result_matches_job(receipt, record) && receipt.completion_reason
            != RunCompletionReason::Success,
    }
}

/// Whether a job may go from `previous` to `record` by an event of `event_type`, given the
/// evidence recorded for its run.
pub open spec fn job_transition(
    event_type: Seq<char>,
    previous: Option<JobRecord>,
    record: JobRecord,
    result: Option<RunResultReceipt>,
    completed: bool,
) -> bool {
    &&& match previous {
        None => true,
        Some(old) => same_binding(old, record),
    }
    &&& if event_type == "job.admitted"@ {
        previous is None && record.state == JobState::Admitted && record.terminal is None
    } else if event_type == "job.running"@ {
        &&& previous matches Some(old) && old.state == JobState::Admitted
        &&& record.state == JobState::Running
        &&& record.terminal is None
    } else if event_type == "job.cancellation_requested"@ {
        &&& previous matches Some(old) && (old.state == JobState::Running || old.state
            == JobState::Admitted)
        &&& record.state == JobState::CancellationRequested
        &&& record.terminal is None
    } else if event_type == "job.terminal"@ {
        &&& previous matches Some(old) && active(old.state)
        &&& terminal_state(record.state, record.terminal)
        &&& match record.terminal {
            Some(JobTerminal::Succeeded) => proves_success(result, completed, record),
            Some(JobTerminal::Failed) => admits_failure(result, record),
            Some(JobTerminal::Cancelled) => (previous matches Some(old) && old.state
                == JobState::CancellationRequested) && admits_failure(result, record),
            Some(JobTerminal::Interrupted) => admits_failure(result, record),
            None => false,
        }
    } else {
        false
    }
}

/// Tests whether a signed result proves that a job succeeded.
fn is_success_proven(result: Option<&RunResultReceipt>, completed: bool, record: &JobRecord) -> (proven:
    bool)
    ensures
        proven == proves_success(
            ordered::found(result),
            completed,
            *record,
        ),
{
    match result {
        Some(receipt) => completed && receipt_matches_job(receipt, record)
            && receipt.completion_reason == RunCompletionReason::Success,
        None => false,
    }
}

/// Tests whether recorded evidence leaves room for a job not to have succeeded.
fn is_failure_admitted(result: Option<&RunResultReceipt>, record: &JobRecord) -> (admitted: bool)
    ensures
        admitted == admits_failure(
            ordered::found(result),
            *record,
        ),
{
    match result {
        Some(receipt) => receipt_matches_job(receipt, record) && receipt.completion_reason
            != RunCompletionReason::Success,
        None => true,
    }
}

/// Tests whether a job may go from `previous` to `record`.
pub fn job_transition_is_valid(
    event_type: &str,
    previous: Option<&JobRecord>,
    record: &JobRecord,
    result: Option<&RunResultReceipt>,
    completed: bool,
) -> (valid: bool)
    ensures
        valid == job_transition(
            event_type@,
            ordered::found(previous),
            *record,
            ordered::found(result),
            completed,
        ),
{
    let bound: bool = match previous {
        None => true,
        Some(old) => is_same_binding(old, record),
    };
    if !bound {
        return false;
    }
    if text::text_eq(event_type, "job.admitted") {
        previous.is_none() && record.state == JobState::Admitted && record.terminal.is_none()
    } else if text::text_eq(event_type, "job.running") {
        match previous {
            Some(old) => old.state == JobState::Admitted && record.state == JobState::Running
                && record.terminal.is_none(),
            None => false,
        }
    } else if text::text_eq(event_type, "job.cancellation_requested") {
        match previous {
            Some(old) => (old.state == JobState::Running || old.state == JobState::Admitted)
                && record.state == JobState::CancellationRequested && record.terminal.is_none(),
            None => false,
        }
    } else if text::text_eq(event_type, "job.terminal") {
        match previous {
            Some(old) => {
                let proven: bool = match record.terminal {
                    Some(JobTerminal::Succeeded) => is_success_proven(result, completed, record),
                    Some(JobTerminal::Failed) => is_failure_admitted(result, record),
                    Some(JobTerminal::Cancelled) => old.state == JobState::CancellationRequested
                        && is_failure_admitted(result, record),
                    Some(JobTerminal::Interrupted) => is_failure_admitted(result, record),
                    None => false,
                };
                is_active(old.state) && is_terminal_state(record.state, record.terminal) && proven
            },
            None => false,
        }
    } else {
        false
    }
}

/// Which content addresses of a job record are well formed.
pub struct JobAddresses {
    /// The address in the Genome identity.
    pub genome: bool,
    /// The address in the World identity.
    pub world: bool,
    /// The address in the environment identity.
    pub environment: bool,
}

/// The cost ceiling that a job in a World is admitted under. Only a provider spends.
pub open spec fn job_cost(registry: Registry, record: JobRecord) -> Option<u64> {
    if provider_environment(record.environment_id@) {
        let world_id = registry.genomes@[record.genome_id@].record.world_id@;
        if registry.worlds@.contains_key(world_id) {
            Some(registry.worlds@[world_id].maximum_cost_microusd)
        } else {
            None
        }
    } else {
        Some(0)
    }
}

/// Whether a job record holds what its own identity, its Genome and the one reference
/// task determine.
pub open spec fn job_binding(registry: Registry, record: JobRecord, cost: u64) -> bool {
    &&& record.run_id@ == ids::job_run(record.job_id@)
    &&& record.world_id@ == registry.genomes@[record.genome_id@].record.world_id@
    &&& record.task_id@ == REFERENCE_TASK@
    &&& record.input_commitment@ == hex::hex(digest::blake3_hash(encode_utf8(REFERENCE_PROMPT@)))
    &&& record.seed == 0
    &&& record.budget == (RunBudgetReceipt {
        wall_millis: REFERENCE_WALL_MILLIS,
        maximum_output_bytes: REFERENCE_OUTPUT_BYTES,
        maximum_cost_microusd: cost,
    })
}

/// The last part of a job event's identity.
pub open spec fn job_event_tail(event_type: Seq<char>) -> Seq<char> {
    if text::begins_with(event_type, "job."@) {
        event_type.skip("job."@.len() as int)
    } else {
        "invalid"@
    }
}

/// Whether an event is the runtime's own event for a job record.
pub open spec fn job_boundary(event: StoredEvent, record: JobRecord) -> bool {
    &&& event.actor@ == RUNTIME_ACTOR@
    &&& event.aggregate_id@ == "job:"@ + record.job_id@
    &&& event.event_id@ == "job:"@ + record.job_id@ + ":"@ + job_event_tail(event.event_type@)
}

/// The first rule that the texts and identities of a recorded job break.
pub open spec fn job_identity_fault(record: JobRecord, addresses: JobAddresses) -> Option<Fault> {
    let texts = error::first(
        text_fault(record.job_id@, "job_id"@),
        error::first(
            text_fault(record.run_id@, "run_id"@),
            error::first(
                text_fault(record.task_id@, "task_id"@),
                error::first(
                    text_fault(record.environment_id@, "environment_id"@),
                    text_fault(record.source_revision@, "source_revision"@),
                ),
            ),
        ),
    );
    let identities = error::first(
        content_fault(record.genome_id@, "genome"@, addresses.genome),
        error::first(
            content_fault(record.world_id@, "world"@, addresses.world),
            environment_fault(
                record.environment_id@,
                addresses.environment,
                "job environment is invalid"@,
            ),
        ),
    );
    error::first(texts, identities)
}

/// The first rule that a recorded job breaks.
pub open spec fn job_fault(
    event: StoredEvent,
    record: JobRecord,
    addresses: JobAddresses,
    registry: Registry,
    result: Option<RunResultReceipt>,
    completed: bool,
) -> Option<Fault> {
    let registered = registry.genomes@.contains_key(record.genome_id@);
    let cost = job_cost(registry, record);
    error::first(
        job_identity_fault(record, addresses),
        error::first(
            error::need(registered, Fault::Projection("job Genome is unregistered"@)),
            error::first(
                error::need(
                    provider_environment(record.environment_id@) == registry::external_provider(
                        registry,
                        registry.genomes@[record.genome_id@].model_provider@,
                    ),
                    Fault::Projection(
                        "job environment does not match the Genome's provider configuration"@,
                    ),
                ),
                error::first(
                    error::need(cost is Some, Fault::Projection("job World is unregistered"@)),
                    error::first(
                        error::need(
                            job_binding(registry, record, cost->0),
                            Fault::Projection("job spec binding is invalid"@),
                        ),
                        error::first(
                            error::need(
                                job_boundary(event, record),
                                Fault::Projection("job event crossed its runtime boundary"@),
                            ),
                            error::need(
                                event.event_type@ == "job.terminal"@ && record.state
                                    == JobState::Succeeded ==> proves_success(
                                    result,
                                    completed,
                                    record,
                                ),
                                Fault::Projection(
                                    "successful job terminal lacks matching signed result and lifecycle completion"@,
                                ),
                            ),
                        ),
                    ),
                ),
            ),
        ),
    )
}

/// Accepts the texts and identities of a recorded job, and says whether its environment
/// is a provider's.
fn validate_job_identities(record: &JobRecord, addresses: &JobAddresses) -> (result: Result<
    bool,
    ControlError,
>)
    ensures
        match result {
            Ok(provider) => job_identity_fault(*record, *addresses) is None && provider
                == provider_environment(record.environment_id@),
            Err(fault) => job_identity_fault(*record, *addresses) == Some(fault@),
        },
{
    if let Err(fault) = require_projection_text(record.job_id.as_str(), "job_id") {
        return Err(fault);
    }
    if let Err(fault) = require_projection_text(record.run_id.as_str(), "run_id") {
        return Err(fault);
    }
    if let Err(fault) = require_projection_text(record.task_id.as_str(), "task_id") {
        return Err(fault);
    }
    if let Err(fault) = require_projection_text(record.environment_id.as_str(), "environment_id") {
        return Err(fault);
    }
    if let Err(fault) = require_projection_text(record.source_revision.as_str(), "source_revision") {
        return Err(fault);
    }
    if let Err(fault) = validate_content_id(record.genome_id.as_str(), "genome", addresses.genome) {
        return Err(fault);
    }
    if let Err(fault) = validate_content_id(record.world_id.as_str(), "world", addresses.world) {
        return Err(fault);
    }
    validate_environment(
        record.environment_id.as_str(),
        addresses.environment,
        "job environment is invalid",
    )
}

/// Commits to the input of the reference task.
pub fn reference_input_commitment() -> (result: String)
    ensures
        result@ == hex::hex(digest::blake3_hash(encode_utf8(REFERENCE_PROMPT@))),
{
    digest::blake3_hex(REFERENCE_PROMPT.as_bytes())
}

/// Tests whether an event is the runtime's own event for a job record.
fn is_job_boundary(event: &StoredEvent, record: &JobRecord) -> (result: bool)
    ensures
        result == job_boundary(*event, *record),
{
    let aggregate: String = ids::wrap("job:", record.job_id.as_str(), "");
    let tail: String = match text::strip_prefix(event.event_type.as_str(), "job.") {
        Some(rest) => rest,
        None => "invalid".to_owned(),
    };
    let mut event_id: String = ids::wrap("job:", record.job_id.as_str(), ":");
    event_id.append(tail.as_str());
    proof {
        reveal_strlit("");
        assert(aggregate@ == "job:"@ + record.job_id@);
    }
    text::text_eq(event.actor.as_str(), RUNTIME_ACTOR) && event.aggregate_id == aggregate
        && event.event_id == event_id
}

/// Accepts a recorded job that keeps every rule: its texts and identities, its binding to
/// its Genome and to the reference task, the boundary of its event, and the evidence that
/// a recorded success needs.
pub fn validate_job_record(
    event: &StoredEvent,
    record: &JobRecord,
    addresses: &JobAddresses,
    registry: &Registry,
    result: Option<&RunResultReceipt>,
    completed: bool,
) -> (verdict: Result<(), ControlError>)
    requires
        registry.wf(),
    ensures
        error::verdict(verdict) == error::faulted(
            job_fault(*event, *record, *addresses, *registry, ordered::found(result), completed),
        ),
{
    let provider: bool = match validate_job_identities(record, addresses) {
        Ok(provider) => provider,
        Err(fault) => {
            return Err(fault);
        },
    };
    let genome = match registry.genomes.get(record.genome_id.as_str()) {
        Some(genome) => genome,
        None => {
            return Err(projection("job Genome is unregistered"));
        },
    };
    if provider != registry.is_external_provider(genome.model_provider.as_str()) {
        return Err(
            projection("job environment does not match the Genome's provider configuration"),
        );
    }
    let cost: u64 = if provider {
        match registry.worlds.get(genome.record.world_id.as_str()) {
            Some(world) => world.maximum_cost_microusd,
            None => {
                return Err(projection("job World is unregistered"));
            },
        }
    } else {
        0
    };
    let run_id: String = ids::job_run_id(record.job_id.as_str());
    let commitment: String = reference_input_commitment();
    if record.run_id != run_id || record.world_id != genome.record.world_id || !text::text_eq(
        record.task_id.as_str(),
        REFERENCE_TASK,
    ) || record.input_commitment != commitment || record.seed != 0 || record.budget.wall_millis
        != REFERENCE_WALL_MILLIS || record.budget.maximum_output_bytes != REFERENCE_OUTPUT_BYTES
        || record.budget.maximum_cost_microusd != cost {
        return Err(projection("job spec binding is invalid"));
    }
    if !is_job_boundary(event, record) {
        return Err(projection("job event crossed its runtime boundary"));
    }
    if text::text_eq(event.event_type.as_str(), "job.terminal") && record.state
        == JobState::Succeeded && !is_success_proven(result, completed, record) {
        return Err(
            projection(
                "successful job terminal lacks matching signed result and lifecycle completion",
            ),
        );
    }
    Ok(())
}

} // verus!
