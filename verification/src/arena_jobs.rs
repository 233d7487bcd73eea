//! Lifecycle of the paired Arena evaluations.

use crate::commands;
use crate::digest;
use crate::error;
use crate::error::{projection, ControlError, Fault};
use crate::hex;
use crate::ids;
use crate::jobs;
use crate::json;
use crate::ordered;
use crate::protocol::{ArenaJobPhase, JobState};
use crate::records::{ArenaJobRecord, RunResultReceipt, StoredEvent};
use crate::registry;
use crate::registry::Registry;
use crate::text;
use vstd::prelude::*;
use vstd::string::*;

verus! {

/// Random seed of every paired evaluation.
pub const PAIRED_EVALUATION_SEED: u64 = 42;

/// Who admits paired evaluations.
pub const ARENA_CALLER: &'static str = "control-daemon";

/// The bytes that `serde_json::to_vec` gives for the tuple of the identities of a plan
/// and its run identities; nothing where it fails.
pub uninterp spec fn plan_json(
    evaluation_id: Seq<char>,
    parent_genome_id: Seq<char>,
    candidate_genome_id: Seq<char>,
    world_id: Seq<char>,
    visible_manifest_id: Seq<char>,
    sealed_manifest_id: Seq<char>,
    source_revision: Seq<char>,
    environment_id: Seq<char>,
    candidate_environment_id: Seq<char>,
    run_ids: Seq<Seq<char>>,
) -> Option<Seq<u8>>;

/// Calls `serde_json::to_vec` on the tuple of a plan's texts. What it writes depends on
/// those texts alone.
#[verifier::external_body]
fn plan_to_json(record: &ArenaJobRecord, candidate_environment_id: &str) -> (result: Option<Vec<u8>>)
    ensures
        (match result {
            Some(bytes) => Some(bytes@),
            None => None,
        }) == plan_json(
            record.evaluation_id@,
            record.parent_genome_id@,
            record.candidate_genome_id@,
            record.world_id@,
            record.visible_manifest_id@,
            record.sealed_manifest_id@,
            record.source_revision@,
            record.environment_id@,
            candidate_environment_id@,
            text::texts(record.ordered_trial_run_ids@),
        ),
{
    let ids = (&record.evaluation_id, &record.parent_genome_id, &record.candidate_genome_id,
        &record.world_id, &record.visible_manifest_id, &record.sealed_manifest_id,
        &record.source_revision, &record.environment_id, candidate_environment_id,
        &record.ordered_trial_run_ids);
    serde_json::to_vec(&ids).ok()
}

/// The environment that the candidate of a pair runs in.
pub open spec fn candidate_environment(record: ArenaJobRecord) -> Seq<char> {
    match record.candidate_environment_id {
        Some(own) => own@,
        None => record.environment_id@,
    }
}

impl ArenaJobRecord {
    /// The environment that the candidate runs in: its own, else the parent's.
    pub fn effective_candidate_environment_id(&self) -> (result: &str)
        ensures
            result@ == candidate_environment(*self),
    {
        match &self.candidate_environment_id {
            Some(own) => own.as_str(),
            None => self.environment_id.as_str(),
        }
    }
}

/// The JSON form of an admitted plan.
pub open spec fn plan_bytes(record: ArenaJobRecord) -> Option<Seq<u8>> {
    plan_json(
        record.evaluation_id@,
        record.parent_genome_id@,
        record.candidate_genome_id@,
        record.world_id@,
        record.visible_manifest_id@,
        record.sealed_manifest_id@,
        record.source_revision@,
        record.environment_id@,
        candidate_environment(record),
        text::texts(record.ordered_trial_run_ids@),
    )
}

/// The commitment to the JSON form of a plan.
pub open spec fn commitment(plan: Seq<u8>) -> Seq<char> {
    hex::hex(digest::blake3_hash(plan))
}

/// Commits to an admitted plan: the digest over its JSON form.
pub fn plan_commitment(record: &ArenaJobRecord) -> (result: Option<String>)
    ensures
        match result {
            Some(text) => (plan_bytes(*record) matches Some(plan) && text@ == commitment(plan))
                && digest_text(text@),
            None => plan_bytes(*record) is None,
        },
{
    match plan_to_json(record, record.effective_candidate_environment_id()) {
        Some(plan) => {
            proof {
                hex::hex_is_lower(digest::blake3_hash(plan@));
            }
            Some(digest::blake3_hex(plan.as_slice()))
        },
        None => None,
    }
}

/// The fault of a recorded commitment, given the one to the plan: nothing where the plan has
/// no JSON form.
pub open spec fn commitment_fault(expected: Option<Seq<char>>, recorded: Seq<char>) -> Option<Fault> {
    match expected {
        None => Some(Fault::Serialization),
        Some(expected) => error::need(
            expected == recorded,
            Fault::Projection("Arena plan commitment is invalid"@),
        ),
    }
}

/// Checks a recorded commitment against the one to the plan.
pub fn check_plan_commitment(expected: &Option<String>, recorded: &str) -> (result: Result<
    (),
    ControlError,
>)
    ensures
        error::verdict(result) == error::faulted(
            commitment_fault(json::held(*expected), recorded@),
        ),
{
    match expected {
        None => Err(ControlError::Serialization),
        Some(expected) => {
            if !text::text_eq(expected.as_str(), recorded) {
                return Err(projection("Arena plan commitment is invalid"));
            }
            Ok(())
        },
    }
}

/// Which content addresses of an Arena job record are well formed.
pub struct ArenaAddresses {
    /// The address in the parent's identity.
    pub parent: bool,
    /// The address in the candidate's identity.
    pub candidate: bool,
    /// The address in the World identity.
    pub world: bool,
    /// The visible manifest.
    pub visible_manifest: bool,
    /// The sealed manifest.
    pub sealed_manifest: bool,
    /// The evaluator.
    pub evaluator: bool,
    /// The address in the environment identity.
    pub environment: bool,
    /// The address in the candidate's own environment identity.
    pub candidate_environment: bool,
}

/// A Git commit identity: 40 or 64 hexadecimal digits.
pub open spec fn revision(value: Seq<char>) -> bool {
    (value.len() == 40 || value.len() == 64) && text::all_hex(value)
}

/// A 32-byte digest in hexadecimal.
pub open spec fn digest_text(value: Seq<char>) -> bool {
    value.len() == 64 && text::all_hex(value)
}

/// A text of hexadecimal digits takes one byte for each.
pub proof fn hex_bytes(value: Seq<char>)
    requires
        text::all_hex(value),
    ensures
        text::byte_len(value) == value.len(),
{
    assert forall|i: int| 0 <= i < value.len() implies commands::identity_char(#[trigger] value[i]) by {
        assert(text::ascii_hex_digit(value[i]));
    }
    commands::identity_bytes(value);
}

/// Tests whether `value` is a Git commit identity.
pub fn is_revision(value: &str) -> (result: bool)
    ensures
        result == revision(value@),
{
    if !text::is_all_hex(value) {
        return false;
    }
    proof {
        hex_bytes(value@);
    }
    let length: usize = text::byte_length(value);
    length == 40 || length == 64
}

/// Tests whether `value` is a 32-byte digest in hexadecimal.
pub fn is_digest_text(value: &str) -> (result: bool)
    ensures
        result == digest_text(value@),
{
    if !text::is_all_hex(value) {
        return false;
    }
    proof {
        hex_bytes(value@);
    }
    text::byte_length(value) == 64
}

/// The first rule that the identities of an Arena job record break.
pub open spec fn arena_identity_fault(record: ArenaJobRecord, addresses: ArenaAddresses) -> Option<Fault> {
    let texts = error::first(
        error::need(
            commands::job_identity(record.evaluation_id@),
            Fault::Projection("Arena job identity is invalid"@),
        ),
        error::first(
            jobs::text_fault(record.job_id@, "job_id"@),
            jobs::text_fault(record.environment_id@, "environment_id"@),
        ),
    );
    let identities = error::first(
        jobs::content_fault(record.parent_genome_id@, "genome"@, addresses.parent),
        error::first(
            jobs::content_fault(record.candidate_genome_id@, "genome"@, addresses.candidate),
            jobs::content_fault(record.world_id@, "world"@, addresses.world),
        ),
    );
    let artifacts = error::need(
        addresses.visible_manifest && addresses.sealed_manifest && addresses.evaluator,
        Fault::Artifact,
    );
    let environments = error::first(
        jobs::environment_fault(
            record.environment_id@,
            addresses.environment,
            "Arena environment is invalid"@,
        ),
        match record.candidate_environment_id {
            None => None,
            Some(own) => error::first(
                error::need(
                    own@ != record.environment_id@,
                    Fault::Projection("Arena candidate environment must differ from the parent's"@),
                ),
                jobs::environment_fault(
                    own@,
                    addresses.candidate_environment,
                    "Arena environment is invalid"@,
                ),
            ),
        },
    );
    error::first(texts, error::first(identities, error::first(artifacts, environments)))
}

/// Whether the numbers and digests of a plan are consistent.
pub open spec fn plan_shape(record: ArenaJobRecord) -> bool {
    &&& record.job_id@ == record.evaluation_id@
    &&& record.parent_genome_id@ != record.candidate_genome_id@
    &&& 0 < record.parent_trial_count < record.total_trials
    &&& record.ordered_trial_run_ids@.len() == record.total_trials
    &&& record.completed_trials <= record.total_trials
    &&& record.trial_budget.wall_millis != 0
    &&& record.overall_budget.wall_millis != 0
    &&& record.seed == PAIRED_EVALUATION_SEED
    &&& revision(record.source_revision@)
    &&& record.caller_id@ == ARENA_CALLER@
    &&& digest_text(record.plan_commitment@)
    &&& digest_text(record.worker_digest@)
}

/// Whether the run identities of a plan are those of its trials, in order.
pub open spec fn trial_order(record: ArenaJobRecord) -> bool {
    forall|i: int|
        0 <= i < record.ordered_trial_run_ids@.len() ==> (#[trigger] record.ordered_trial_run_ids@[i])@
            == ids::trial_run(record.evaluation_id@, record.parent_trial_count as int, i)
}

/// The last part of the event type that records a paired evaluation.
pub open spec fn arena_event(state: JobState, phase: ArenaJobPhase) -> &'static str {
    match state {
        JobState::Admitted => "admitted",
        JobState::Running => if phase == ArenaJobPhase::Scoring {
            "scoring"
        } else if phase == ArenaJobPhase::Committing {
            "committing"
        } else {
            "running"
        },
        JobState::CancellationRequested => "cancellation_requested",
        JobState::Succeeded | JobState::Failed | JobState::Interrupted => "terminal",
    }
}

/// Names the last part of the event type that records a paired evaluation.
pub fn arena_event_suffix(state: JobState, phase: ArenaJobPhase) -> (result: &'static str)
    ensures
        result == arena_event(state, phase),
{
    match state {
        JobState::Admitted => "admitted",
        JobState::Running => if phase == ArenaJobPhase::Scoring {
            "scoring"
        } else if phase == ArenaJobPhase::Committing {
            "committing"
        } else {
            "running"
        },
        JobState::CancellationRequested => "cancellation_requested",
        JobState::Succeeded | JobState::Failed | JobState::Interrupted => "terminal",
    }
}

/// Whether an event is the runtime's own event for an Arena job record whose canonical
/// bytes are `canonical`.
pub open spec fn arena_boundary(event: StoredEvent, record: ArenaJobRecord, canonical: Seq<u8>) -> bool {
    let suffix = arena_event(record.state, record.phase);
    &&& event.actor@ == jobs::RUNTIME_ACTOR@
    &&& event.event_type@ == "arena.job."@ + suffix@
    &&& event.event_id@ == "arena-job:"@ + record.evaluation_id@ + ":"@ + suffix@
    &&& event.aggregate_id@ == "arena-job:"@ + record.evaluation_id@
    &&& event.payload@ == canonical
}

/// The first rule that a recorded paired evaluation breaks.
pub open spec fn arena_fault(
    event: StoredEvent,
    record: ArenaJobRecord,
    addresses: ArenaAddresses,
    canonical: Seq<u8>,
) -> Option<Fault> {
    error::first(
        arena_identity_fault(record, addresses),
        error::first(
            error::need(plan_shape(record), Fault::Projection("Arena job plan is invalid"@)),
            error::first(
                error::need(trial_order(record), Fault::Projection("Arena trial order is invalid"@)),
                error::first(
                    error::need(plan_bytes(record) is Some, Fault::Serialization),
                    error::first(
                        error::need(
                            commitment(plan_bytes(record)->0) == record.plan_commitment@,
                            Fault::Projection("Arena plan commitment is invalid"@),
                        ),
                        error::need(
                            arena_boundary(event, record, canonical),
                            Fault::Projection("Arena job event crossed its canonical boundary"@),
                        ),
                    ),
                ),
            ),
        ),
    )
}

/// Accepts the identities of an Arena job record.
fn validate_arena_identities(record: &ArenaJobRecord, addresses: &ArenaAddresses) -> (result: Result<
    (),
    ControlError,
>)
    ensures
        error::verdict(result) == error::faulted(arena_identity_fault(*record, *addresses)),
{
    if !commands::is_job_identity(record.evaluation_id.as_str()) {
        return Err(projection("Arena job identity is invalid"));
    }
    if let Err(fault) = jobs::require_projection_text(record.job_id.as_str(), "job_id") {
        return Err(fault);
    }
    if let Err(fault) = jobs::require_projection_text(
        record.environment_id.as_str(),
        "environment_id",
    ) {
        return Err(fault);
    }
    if let Err(fault) = jobs::validate_content_id(
        record.parent_genome_id.as_str(),
        "genome",
        addresses.parent,
    ) {
        return Err(fault);
    }
    if let Err(fault) = jobs::validate_content_id(
        record.candidate_genome_id.as_str(),
        "genome",
        addresses.candidate,
    ) {
        return Err(fault);
    }
    if let Err(fault) = jobs::validate_content_id(record.world_id.as_str(), "world", addresses.world) {
        return Err(fault);
    }
    if !addresses.visible_manifest || !addresses.sealed_manifest || !addresses.evaluator {
        return Err(ControlError::Artifact);
    }
    if let Err(fault) = validate_arena_environment_id(
        record.environment_id.as_str(),
        addresses.environment,
    ) {
        return Err(fault);
    }
    if let Some(own) = &record.candidate_environment_id {
        if text::text_eq(own.as_str(), record.environment_id.as_str()) {
            return Err(projection("Arena candidate environment must differ from the parent's"));
        }
        if let Err(fault) = validate_arena_environment_id(
            own.as_str(),
            addresses.candidate_environment,
        ) {
            return Err(fault);
        }
    }
    Ok(())
}

/// Accepts a versioned environment identity of a worker or a provider.
pub fn validate_arena_environment_id(environment_id: &str, address: bool) -> (result: Result<
    (),
    ControlError,
>)
    ensures
        error::verdict(result) == error::faulted(
            jobs::environment_fault(environment_id@, address, "Arena environment is invalid"@),
        ),
{
    match jobs::validate_environment(environment_id, address, "Arena environment is invalid") {
        Ok(_) => Ok(()),
        Err(fault) => Err(fault),
    }
}

/// Tests whether the numbers and digests of a plan are consistent.
fn is_plan_shape(record: &ArenaJobRecord) -> (result: bool)
    ensures
        result == plan_shape(*record),
{
    record.job_id == record.evaluation_id && record.parent_genome_id != record.candidate_genome_id
        && record.total_trials != 0 && record.parent_trial_count != 0 && record.parent_trial_count
        < record.total_trials && record.ordered_trial_run_ids.len() as u64 == record.total_trials as u64
        && record.completed_trials <= record.total_trials && record.trial_budget.wall_millis != 0
        && record.overall_budget.wall_millis != 0 && record.seed == PAIRED_EVALUATION_SEED
        && is_revision(record.source_revision.as_str()) && text::text_eq(
        record.caller_id.as_str(),
        ARENA_CALLER,
    ) && is_digest_text(record.plan_commitment.as_str()) && is_digest_text(
        record.worker_digest.as_str(),
    )
}

/// Tests whether the run identities of a plan are those of its trials, in order.
fn is_trial_order(record: &ArenaJobRecord) -> (result: bool)
    ensures
        result == trial_order(*record),
{
    for i in 0..record.ordered_trial_run_ids.len()
        invariant
            forall|j: int|
                0 <= j < i ==> (#[trigger] record.ordered_trial_run_ids@[j])@ == ids::trial_run(
                    record.evaluation_id@,
                    record.parent_trial_count as int,
                    j,
                ),
    {
        let expected: String = ids::trial_run_id(
            record.evaluation_id.as_str(),
            record.parent_trial_count as usize,
            i,
        );
        if record.ordered_trial_run_ids[i] != expected {
            assert(record.ordered_trial_run_ids@[i as int]@ != ids::trial_run(
                record.evaluation_id@,
                record.parent_trial_count as int,
                i as int,
            ));
            return false;
        }
    }
    true
}

/// Tests whether two byte strings are equal.
pub fn bytes_equal(a: &Vec<u8>, b: &Vec<u8>) -> (result: bool)
    ensures
        result == (a@ == b@),
{
    hex::constant_time_equal(a.as_slice(), b.as_slice())
}

/// Tests whether an event is the runtime's own event for an Arena job record.
fn is_arena_boundary(event: &StoredEvent, record: &ArenaJobRecord, canonical: &Vec<u8>) -> (result: bool)
    ensures
        result == arena_boundary(*event, *record, canonical@),
{
    let suffix: &'static str = arena_event_suffix(record.state, record.phase);
    let event_type: String = ids::wrap("arena.job.", suffix, "");
    let aggregate: String = ids::wrap("arena-job:", record.evaluation_id.as_str(), "");
    let mut event_id: String = ids::wrap("arena-job:", record.evaluation_id.as_str(), ":");
    event_id.append(suffix);
    proof {
        reveal_strlit("");
        assert(event_type@ == "arena.job."@ + suffix@);
        assert(aggregate@ == "arena-job:"@ + record.evaluation_id@);
    }
    text::text_eq(event.actor.as_str(), jobs::RUNTIME_ACTOR) && event.event_type == event_type
        && event.event_id == event_id && event.aggregate_id == aggregate && bytes_equal(
        &event.payload,
        canonical,
    )
}

/// Accepts a recorded paired evaluation that keeps every rule. `canonical` holds the
/// canonical bytes of the record.
pub fn validate_arena_job_record(
    event: &StoredEvent,
    record: &ArenaJobRecord,
    addresses: &ArenaAddresses,
    canonical: &Vec<u8>,
) -> (result: Result<(), ControlError>)
    ensures
        error::verdict(result) == error::faulted(
            arena_fault(*event, *record, *addresses, canonical@),
        ),
{
    if let Err(fault) = validate_arena_identities(record, addresses) {
        return Err(fault);
    }
    if !is_plan_shape(record) {
        return Err(projection("Arena job plan is invalid"));
    }
    if !is_trial_order(record) {
        return Err(projection("Arena trial order is invalid"));
    }
    if let Err(error) = check_plan_commitment(
        &plan_commitment(record),
        record.plan_commitment.as_str(),
    ) {
        return Err(error);
    }
    if !is_arena_boundary(event, record, canonical) {
        return Err(projection("Arena job event crossed its canonical boundary"));
    }
    Ok(())
}

/// Whether an optional text is bound to `value`.
pub open spec fn binds(binding: Option<String>, value: Seq<char>) -> bool {
    binding matches Some(held) && held@ == value
}

/// Tests whether an optional text is bound to `value`.
fn is_bound(binding: &Option<String>, value: &str) -> (result: bool)
    ensures
        result == binds(*binding, value@),
{
    match binding {
        Some(held) => text::text_eq(held.as_str(), value),
        None => false,
    }
}

/// The first way in which a paired evaluation differs from the registered World and
/// Genomes it names.
pub open spec fn arena_registration_fault(registry: Registry, record: ArenaJobRecord) -> Option<Fault> {
    let world = registry.worlds@[record.world_id@];
    let parent = registry.genomes@[record.parent_genome_id@];
    let candidate = registry.genomes@[record.candidate_genome_id@];
    let registered = error::first(
        error::need(
            registry.worlds@.contains_key(record.world_id@),
            Fault::Projection("Arena job World is not registered"@),
        ),
        error::first(
            error::need(
                registry.genomes@.contains_key(record.parent_genome_id@),
                Fault::Projection("Arena parent Genome is not registered"@),
            ),
            error::need(
                registry.genomes@.contains_key(record.candidate_genome_id@),
                Fault::Projection("Arena candidate Genome is not registered"@),
            ),
        ),
    );
    let bindings = error::need(
        {
            &&& parent.record.world_id@ == record.world_id@
            &&& candidate.record.world_id@ == record.world_id@
            &&& world.compiled_id@ == record.world_id@
            &&& binds(world.visible_manifest, record.visible_manifest_id@)
            &&& binds(world.sealed_manifest, record.sealed_manifest_id@)
            &&& binds(world.evaluator, record.evaluator_id@)
        },
        Fault::Projection("Arena job differs from registered World and Genome bindings"@),
    );
    let providers = error::need(
        {
            &&& text::begins_with(record.environment_id@, jobs::PROVIDER_ENVIRONMENT@)
                == registry::external_provider(registry, parent.model_provider@)
            &&& text::begins_with(candidate_environment(record), jobs::PROVIDER_ENVIRONMENT@)
                == registry::external_provider(registry, candidate.model_provider@)
        },
        Fault::Projection("Arena job environment does not match a Genome's provider configuration"@),
    );
    let mixed = error::need(
        record.candidate_environment_id is Some ==> world.allow_mixed_environments,
        Fault::Projection("Arena job pairs distinct environments but the World does not permit it"@),
    );
    error::first(registered, error::first(bindings, error::first(providers, mixed)))
}

/// Accepts a paired evaluation that agrees with the registered World and Genomes.
pub fn require_arena_registration(registry: &Registry, record: &ArenaJobRecord) -> (result: Result<
    (),
    ControlError,
>)
    requires
        registry.wf(),
    ensures
        error::verdict(result) == error::faulted(arena_registration_fault(*registry, *record)),
{
    let world = match registry.worlds.get(record.world_id.as_str()) {
        Some(world) => world,
        None => {
            return Err(projection("Arena job World is not registered"));
        },
    };
    let parent = match registry.genomes.get(record.parent_genome_id.as_str()) {
        Some(parent) => parent,
        None => {
            return Err(projection("Arena parent Genome is not registered"));
        },
    };
    let candidate = match registry.genomes.get(record.candidate_genome_id.as_str()) {
        Some(candidate) => candidate,
        None => {
            return Err(projection("Arena candidate Genome is not registered"));
        },
    };
    if parent.record.world_id != record.world_id || candidate.record.world_id != record.world_id
        || world.compiled_id != record.world_id || !is_bound(
        &world.visible_manifest,
        record.visible_manifest_id.as_str(),
    ) || !is_bound(&world.sealed_manifest, record.sealed_manifest_id.as_str()) || !is_bound(
        &world.evaluator,
        record.evaluator_id.as_str(),
    ) {
        return Err(projection("Arena job differs from registered World and Genome bindings"));
    }
    let parent_provider: bool = text::starts_with(
        record.environment_id.as_str(),
        jobs::PROVIDER_ENVIRONMENT,
    );
    let candidate_provider: bool = text::starts_with(
        record.effective_candidate_environment_id(),
        jobs::PROVIDER_ENVIRONMENT,
    );
    if parent_provider != registry.is_external_provider(parent.model_provider.as_str())
        || candidate_provider != registry.is_external_provider(candidate.model_provider.as_str()) {
        return Err(
            projection("Arena job environment does not match a Genome's provider configuration"),
        );
    }
    if record.candidate_environment_id.is_some() && !world.allow_mixed_environments {
        return Err(
            projection("Arena job pairs distinct environments but the World does not permit it"),
        );
    }
    Ok(())
}

/// Whether two records belong to one admitted plan.
pub open spec fn same_plan(old: ArenaJobRecord, new: ArenaJobRecord) -> bool {
    &&& old.job_id@ == new.job_id@
    &&& old.evaluation_id@ == new.evaluation_id@
    &&& old.parent_genome_id@ == new.parent_genome_id@
    &&& old.candidate_genome_id@ == new.candidate_genome_id@
    &&& old.world_id@ == new.world_id@
    &&& old.visible_manifest_id@ == new.visible_manifest_id@
    &&& old.sealed_manifest_id@ == new.sealed_manifest_id@
    &&& old.evaluator_id@ == new.evaluator_id@
    &&& old.source_revision@ == new.source_revision@
    &&& old.worker_digest@ == new.worker_digest@
    &&& old.environment_id@ == new.environment_id@
    &&& match (old.candidate_environment_id, new.candidate_environment_id) {
        (Some(a), Some(b)) => a@ == b@,
        (None, None) => true,
        _ => false,
    }
    &&& old.seed == new.seed
    &&& old.trial_budget == new.trial_budget
    &&& old.overall_budget == new.overall_budget
    &&& text::texts(old.ordered_trial_run_ids@) == text::texts(new.ordered_trial_run_ids@)
    &&& old.parent_trial_count == new.parent_trial_count
    &&& old.total_trials == new.total_trials
    &&& old.plan_commitment@ == new.plan_commitment@
    &&& old.caller_id@ == new.caller_id@
    &&& old.receipt_timestamp_millis == new.receipt_timestamp_millis
}

/// Tests whether two records belong to one admitted plan.
pub fn arena_job_immutable_fields_match(old: &ArenaJobRecord, new: &ArenaJobRecord) -> (result: bool)
    ensures
        result == same_plan(*old, *new),
{
    let environments: bool = match (&old.candidate_environment_id, &new.candidate_environment_id) {
        (Some(a), Some(b)) => text::text_eq(a.as_str(), b.as_str()),
        (None, None) => true,
        _ => false,
    };
    environments && old.job_id == new.job_id && old.evaluation_id == new.evaluation_id
        && old.parent_genome_id == new.parent_genome_id && old.candidate_genome_id
        == new.candidate_genome_id && old.world_id == new.world_id && old.visible_manifest_id
        == new.visible_manifest_id && old.sealed_manifest_id == new.sealed_manifest_id
        && old.evaluator_id == new.evaluator_id && old.source_revision == new.source_revision
        && old.worker_digest == new.worker_digest && old.environment_id == new.environment_id
        && old.seed == new.seed && old.trial_budget == new.trial_budget && old.overall_budget
        == new.overall_budget && text::texts_eq(
        &old.ordered_trial_run_ids,
        &new.ordered_trial_run_ids,
    ) && old.parent_trial_count == new.parent_trial_count && old.total_trials == new.total_trials
        && old.plan_commitment == new.plan_commitment && old.caller_id == new.caller_id
        && old.receipt_timestamp_millis == new.receipt_timestamp_millis
}

/// Whether a record carries the evaluation of its own pair.
pub open spec fn carries_own_evaluation(record: ArenaJobRecord) -> bool {
    &&& record.evaluation matches Some(evaluation)
    &&& evaluation.evaluation_id@ == record.evaluation_id@
    &&& evaluation.world_id@ == record.world_id@
    &&& evaluation.parent_genome_id@ == record.parent_genome_id@
    &&& evaluation.candidate_genome_id@ == record.candidate_genome_id@
}

/// Tests whether a record carries the evaluation of its own pair.
fn is_own_evaluation_carried(record: &ArenaJobRecord) -> (result: bool)
    ensures
        result == carries_own_evaluation(*record),
{
    match &record.evaluation {
        Some(evaluation) => evaluation.evaluation_id == record.evaluation_id && evaluation.world_id
            == record.world_id && evaluation.parent_genome_id == record.parent_genome_id
            && evaluation.candidate_genome_id == record.candidate_genome_id,
        None => false,
    }
}

/// Whether a paired evaluation may end as `record` says. Success takes a committing
/// predecessor, a recorded evaluation receipt, and every trial.
pub open spec fn arena_end(old: ArenaJobRecord, record: ArenaJobRecord, evaluated: bool) -> bool {
    &&& jobs::active(old.state)
    &&& jobs::terminal_state(record.state, record.terminal)
    &&& if record.state == JobState::Succeeded {
        &&& old.state == JobState::Running
        &&& old.phase == ArenaJobPhase::Committing
        &&& evaluated
        &&& record.completed_trials == record.total_trials
        &&& carries_own_evaluation(record)
    } else {
        record.evaluation is None
    }
}

/// Whether a paired evaluation may go from `previous` to `record` by an event of
/// `event_type`. `evaluated` says whether its evaluation receipt is recorded.
pub open spec fn arena_transition(
    event_type: Seq<char>,
    previous: Option<ArenaJobRecord>,
    record: ArenaJobRecord,
    evaluated: bool,
) -> bool {
    &&& match previous {
        None => record.completed_trials == 0,
        Some(old) => same_plan(old, record) && old.completed_trials == record.completed_trials,
    }
    &&& if event_type == "arena.job.admitted"@ {
        &&& previous is None
        &&& record.state == JobState::Admitted
        &&& record.phase == ArenaJobPhase::Preparing
        &&& record.terminal is None
    } else if event_type == "arena.job.running"@ {
        &&& previous matches Some(old) && old.state == JobState::Admitted
        &&& record.state == JobState::Running
        &&& record.phase == ArenaJobPhase::ParentTrials
        &&& record.terminal is None
    } else if event_type == "arena.job.cancellation_requested"@ {
        &&& previous matches Some(old) && (old.state == JobState::Running || old.state
            == JobState::Admitted)
        &&& record.state == JobState::CancellationRequested
        &&& record.terminal is None
    } else if event_type == "arena.job.scoring"@ {
        &&& previous matches Some(old) && old.state == JobState::Running && old.completed_trials
            == old.total_trials
        &&& record.state == JobState::Running
        &&& record.phase == ArenaJobPhase::Scoring
        &&& record.terminal is None
    } else if event_type == "arena.job.committing"@ {
        &&& previous matches Some(old) && old.state == JobState::Running && old.phase
            == ArenaJobPhase::Scoring
        &&& record.state == JobState::Running
        &&& record.phase == ArenaJobPhase::Committing
        &&& record.terminal is None
    } else if event_type == "arena.job.terminal"@ {
        previous matches Some(old) && arena_end(old, record, evaluated)
    } else {
        false
    }
}

/// Tests whether a paired evaluation may end as `record` says.
fn is_arena_end(old: &ArenaJobRecord, record: &ArenaJobRecord, evaluated: bool) -> (result: bool)
    ensures
        result == arena_end(*old, *record, evaluated),
{
    let ends: bool = jobs::is_active(old.state) && jobs::is_terminal_state(
        record.state,
        record.terminal,
    );
    if record.state == JobState::Succeeded {
        ends && old.state == JobState::Running && old.phase == ArenaJobPhase::Committing && evaluated
            && record.completed_trials == record.total_trials && is_own_evaluation_carried(record)
    } else {
        ends && record.evaluation.is_none()
    }
}

/// Tests whether a paired evaluation may go from `previous` to `record`.
pub fn arena_job_transition_is_valid(
    event_type: &str,
    previous: Option<&ArenaJobRecord>,
    record: &ArenaJobRecord,
    evaluated: bool,
) -> (result: bool)
    ensures
        result == arena_transition(event_type@, ordered::found(previous), *record, evaluated),
{
    let continues: bool = match previous {
        None => record.completed_trials == 0,
        Some(old) => arena_job_immutable_fields_match(old, record) && old.completed_trials
            == record.completed_trials,
    };
    if !continues {
        return false;
    }
    let open: bool = record.terminal.is_none();
    if text::text_eq(event_type, "arena.job.admitted") {
        previous.is_none() && record.state == JobState::Admitted && record.phase
            == ArenaJobPhase::Preparing && open
    } else if text::text_eq(event_type, "arena.job.running") {
        match previous {
            Some(old) => old.state == JobState::Admitted && record.state == JobState::Running
                && record.phase == ArenaJobPhase::ParentTrials && open,
            None => false,
        }
    } else if text::text_eq(event_type, "arena.job.cancellation_requested") {
        match previous {
            Some(old) => (old.state == JobState::Running || old.state == JobState::Admitted)
                && record.state == JobState::CancellationRequested && open,
            None => false,
        }
    } else if text::text_eq(event_type, "arena.job.scoring") {
        match previous {
            Some(old) => old.state == JobState::Running && old.completed_trials == old.total_trials
                && record.state == JobState::Running && record.phase == ArenaJobPhase::Scoring && open,
            None => false,
        }
    } else if text::text_eq(event_type, "arena.job.committing") {
        match previous {
            Some(old) => old.state == JobState::Running && old.phase == ArenaJobPhase::Scoring
                && record.state == JobState::Running && record.phase == ArenaJobPhase::Committing && open,
            None => false,
        }
    } else if text::text_eq(event_type, "arena.job.terminal") {
        match previous {
            Some(old) => is_arena_end(old, record, evaluated),
            None => false,
        }
    } else {
        false
    }
}

/// The place of a run among the trials of a plan.
pub open spec fn trial_place(record: ArenaJobRecord, run_id: Seq<char>) -> Option<int> {
    text::texts(record.ordered_trial_run_ids@).index_of_first(run_id)
}

/// The place of a run among the trials of a plan.
pub fn trial_index(record: &ArenaJobRecord, run_id: &str) -> (result: Option<usize>)
    ensures
        match result {
            Some(i) => trial_place(*record, run_id@) == Some(i as int),
            None => trial_place(*record, run_id@) is None,
        },
{
    let ghost runs = text::texts(record.ordered_trial_run_ids@);
    for i in 0..record.ordered_trial_run_ids.len()
        invariant
            runs == text::texts(record.ordered_trial_run_ids@),
            forall|j: int| 0 <= j < i ==> runs[j] != run_id@,
    {
        if text::text_eq(record.ordered_trial_run_ids[i].as_str(), run_id) {
            proof {
                assert(runs[i as int] == run_id@);
                runs.index_of_first_ensures(run_id@);
            }
            return Some(i);
        }
    }
    proof {
        runs.index_of_first_ensures(run_id@);
    }
    None
}

/// The first way in which a signed trial result differs from the next trial of its plan.
pub open spec fn trial_fault(record: ArenaJobRecord, index: int, receipt: RunResultReceipt) -> Option<
    Fault,
> {
    let parents = index < record.parent_trial_count;
    error::first(
        error::need(
            index == record.completed_trials && (record.state == JobState::Running || record.state
                == JobState::CancellationRequested),
            Fault::Projection("Arena trial result is out of admitted order"@),
        ),
        error::first(
            error::need(
                {
                    &&& receipt.genome_id@ == (if parents {
                        record.parent_genome_id@
                    } else {
                        record.candidate_genome_id@
                    })
                    &&& receipt.world_id@ == record.world_id@
                    &&& receipt.source_revision@ == record.source_revision@
                    &&& receipt.seed == record.seed
                    &&& receipt.environment_id@ == (if parents {
                        record.environment_id@
                    } else {
                        candidate_environment(record)
                    })
                    &&& receipt.budget == record.trial_budget
                },
                Fault::Projection("Arena run receipt differs from its admitted source"@),
            ),
            error::need(
                record.completed_trials < u32::MAX,
                Fault::Projection("Arena trial count overflow"@),
            ),
        ),
    )
}

/// Accepts the signed result of the next trial of a plan.
pub fn require_next_trial(record: &ArenaJobRecord, index: usize, receipt: &RunResultReceipt) -> (result:
    Result<(), ControlError>)
    ensures
        error::verdict(result) == error::faulted(trial_fault(*record, index as int, *receipt)),
{
    let open: bool = match record.state {
        JobState::Running | JobState::CancellationRequested => true,
        _ => false,
    };
    if index as u64 != record.completed_trials as u64 || !open {
        return Err(projection("Arena trial result is out of admitted order"));
    }
    let parents: bool = (index as u64) < record.parent_trial_count as u64;
    let genome_id: &str = if parents {
        record.parent_genome_id.as_str()
    } else {
        record.candidate_genome_id.as_str()
    };
    let environment_id: &str = if parents {
        record.environment_id.as_str()
    } else {
        record.effective_candidate_environment_id()
    };
    if !text::text_eq(receipt.genome_id.as_str(), genome_id) || receipt.world_id != record.world_id
        || receipt.source_revision != record.source_revision || receipt.seed != record.seed
        || !text::text_eq(receipt.environment_id.as_str(), environment_id) || receipt.budget
        != record.trial_budget {
        return Err(projection("Arena run receipt differs from its admitted source"));
    }
    if record.completed_trials == u32::MAX {
        return Err(projection("Arena trial count overflow"));
    }
    Ok(())
}

/// A paired evaluation after one more trial: when the last parent trial is in, the
/// candidate's trials begin.
pub open spec fn with_trial(record: ArenaJobRecord) -> ArenaJobRecord {
    let completed = (record.completed_trials + 1) as u32;
    ArenaJobRecord {
        completed_trials: completed,
        phase: if completed == record.parent_trial_count {
            ArenaJobPhase::CandidateTrials
        } else {
            record.phase
        },
        ..record
    }
}

} // verus!
