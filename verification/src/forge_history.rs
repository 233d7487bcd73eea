//! Verification of recorded Forge proposals and assessments.

use crate::arena_jobs;
use crate::assess;
use crate::assess::AssessmentSites;
use crate::commands;
use crate::error;
use crate::error::{projection, ControlError, ExecuteError, Fault, Refusal};
use crate::evidence;
use crate::evidence::EvidenceCache;
use crate::forge;
use crate::ids;
use crate::json;
use crate::json::{EditFault, Parsed};
use crate::mutation;
use crate::ordered::OrderedMap;
use crate::protocol::{ForgeAssessmentPayload, ForgeProposalPayload, SelectionEventRecord};
use crate::records::{SelectionReceipt, StoredEvent};
use crate::registry::{GenomeEntry, Registry};
use crate::state;
use crate::state::{EventPayload, RecordedEvent};
use crate::text;
use vstd::prelude::*;
use vstd::string::*;
use vstd::utf8::*;

verus! {

/// What verifying a selection gave.
pub struct VerifiedSelection {
    /// What the selection measured.
    pub receipt: SelectionReceipt,
    /// Ledger metadata of the selection.
    pub event: SelectionEventRecord,
}

/// What is known of the two prompts of a proposal.
pub struct PromptEvidence {
    /// Bytes of the parent's prompt, where they could be read.
    pub before: Option<Vec<u8>>,
    /// Bytes of the child's prompt, where they could be read.
    pub after: Option<Vec<u8>>,
    /// Operation that the parent's prompt parses to, if it does.
    pub operation_before: Option<String>,
    /// Operation that the child's prompt parses to, if it does.
    pub operation_after: Option<String>,
    /// Kind of the catalog edge from the one operation to the other, if there is one.
    pub edge_kind: Option<String>,
    /// Version of the mutation catalog.
    pub catalog_version: u16,
}

/// What compiling the source of a child gave.
#[derive(Debug, PartialEq, Eq)]
pub struct CompiledChild {
    /// Identity that the compiler derived.
    pub genome_id: String,
    /// Canonical source.
    pub canonical_json: Vec<u8>,
}

/// What is known of a recorded proposal besides its event.
pub struct ForgeEvidence {
    /// The selection that it starts from, where it could be verified.
    pub selection: Option<VerifiedSelection>,
    /// Its two prompts.
    pub prompts: PromptEvidence,
    /// Its child, where its source compiles.
    pub child: Option<CompiledChild>,
}

/// The name of a child.
pub open spec fn child_name(parent_name: Seq<char>, proposal_id: Seq<char>) -> Seq<char> {
    parent_name + "-forge-"@ + proposal_id
}

/// The members of a child's source: those of its parent's, but for its own name, its one parent
/// and, among its artifacts, its prompt.
pub open spec fn child_members(
    parent: Map<Seq<char>, Seq<char>>,
    artifacts: Map<Seq<char>, Seq<char>>,
    name: Seq<char>,
    parent_genome_id: Seq<char>,
    prompt: Seq<char>,
) -> Map<Seq<char>, Seq<char>> {
    parent.insert("name"@, json::json_string(name)).insert(
        "parents"@,
        "["@ + json::json_string(parent_genome_id) + "]"@,
    ).insert(
        "artifacts"@,
        json::json_of_object(artifacts.insert("agent.prompt"@, json::json_string(prompt))),
    )
}

/// The artifacts among the members of a source, where it has them.
pub open spec fn artifacts_in(parent: Map<Seq<char>, Seq<char>>) -> Option<Map<Seq<char>, Seq<char>>> {
    if parent.contains_key("artifacts"@) {
        json::object_in(parent["artifacts"@])
    } else {
        None
    }
}

/// The members of a child's source, given those of its parent's.
pub open spec fn edited_members(
    parent: Map<Seq<char>, Seq<char>>,
    name: Seq<char>,
    parent_genome_id: Seq<char>,
    prompt: Seq<char>,
) -> Result<Map<Seq<char>, Seq<char>>, EditFault> {
    match artifacts_in(parent) {
        None => Err(EditFault::NoNested),
        Some(artifacts) => Ok(child_members(parent, artifacts, name, parent_genome_id, prompt)),
    }
}

/// The source of a child: its parent's, under its own name, with its one parent and its
/// prompt.
pub open spec fn child_source(
    parent: GenomeEntry,
    parent_genome_id: Seq<char>,
    proposal_id: Seq<char>,
    prompt: Seq<char>,
) -> Result<Seq<char>, EditFault> {
    match json::json_object(parent.canonical_json@) {
        None => Err(EditFault::NotJson),
        Some(None) => Err(EditFault::NotObject),
        Some(Some(members)) => match edited_members(
            members,
            child_name(parent.record.name@, proposal_id),
            parent_genome_id,
            prompt,
        ) {
            Err(fault) => Err(fault),
            Ok(edited) => Ok(json::json_of_object(edited)),
        },
    }
}

/// The members that tell a child from its parent have different names.
proof fn edited_names_differ()
    ensures
        "name"@ != "artifacts"@,
        "parents"@ != "artifacts"@,
        "name"@ != "parents"@,
{
    reveal_strlit("name");
    reveal_strlit("parents");
    reveal_strlit("artifacts");
    assert("name"@.len() == 4 && "parents"@.len() == 7 && "artifacts"@.len() == 9);
}

/// A child's source differs from its parent's in its name, its parents and its prompt alone:
/// it has no other member, every other member is its parent's, and so is every other artifact.
pub proof fn children_keep_the_rest(
    parent: Map<Seq<char>, Seq<char>>,
    name: Seq<char>,
    parent_genome_id: Seq<char>,
    prompt: Seq<char>,
    field: Seq<char>,
)
    requires
        artifacts_in(parent) is Some,
    ensures
        ({
            let artifacts = artifacts_in(parent)->0;
            let edited = edited_members(parent, name, parent_genome_id, prompt)->Ok_0;
            let kept = artifacts.insert("agent.prompt"@, json::json_string(prompt));
            &&& edited["name"@] == json::json_string(name)
            &&& edited["parents"@] == "["@ + json::json_string(parent_genome_id) + "]"@
            &&& edited["artifacts"@] == json::json_of_object(kept)
            &&& field != "agent.prompt"@ ==> kept.contains_key(field) == artifacts.contains_key(
                field,
            ) && kept[field] == artifacts[field]
            &&& field != "name"@ && field != "parents"@ && field != "artifacts"@
                ==> edited.contains_key(field) == parent.contains_key(field) && edited[field]
                == parent[field]
        }),
{
    edited_names_differ();
}

/// Turns the source of a parent into that of a child, or tells that it has no artifacts.
pub fn edit_source(
    object: serde_json::Map<String, serde_json::Value>,
    name: &str,
    parent_genome_id: &str,
    prompt: &str,
) -> (result: Result<serde_json::Map<String, serde_json::Value>, EditFault>)
    ensures
        (match result {
            Ok(edited) => Ok(json::members(edited)),
            Err(fault) => Err(fault),
        }) == edited_members(json::members(object), name@, parent_genome_id@, prompt@),
{
    proof {
        edited_names_differ();
    }
    let mut object = object;
    json::set_text(&mut object, "name", name);
    json::set_list(&mut object, "parents", parent_genome_id);
    match json::nested_object(&object, "artifacts") {
        None => Err(EditFault::NoNested),
        Some(nested) => {
            let mut artifacts = nested;
            json::set_text(&mut artifacts, "agent.prompt", prompt);
            json::set_object(&mut object, "artifacts", artifacts);
            Ok(object)
        },
    }
}

/// Writes the source of a child.
pub fn forge_child_source(parent: &GenomeEntry, parent_genome_id: &str, proposal_id: &str, prompt: &str) -> (result: Result<
    String,
    EditFault,
>)
    ensures
        written(result) == child_source(*parent, parent_genome_id@, proposal_id@, prompt@),
{
    let name: String = ids::wrap(parent.record.name.as_str(), "-forge-", proposal_id);
    match json::parse_object(parent.canonical_json.as_slice()) {
        Parsed::NotJson => Err(EditFault::NotJson),
        Parsed::NotObject => Err(EditFault::NotObject),
        Parsed::Object(object) => match edit_source(
            object,
            name.as_str(),
            parent_genome_id,
            prompt,
        ) {
            Ok(edited) => Ok(json::write_object(edited)),
            Err(fault) => Err(fault),
        },
    }
}

/// Writes the source of a proposed child, or refuses where the parent is unknown or its
/// source cannot be edited.
pub fn proposed_child_source(
    registry: &Registry,
    parent_genome_id: &str,
    proposal_id: &str,
    prompt: &str,
) -> (result: Result<String, ExecuteError>)
    requires
        registry.wf(),
    ensures
        if !registry.genomes@.contains_key(parent_genome_id@) {
            result == Err::<String, ExecuteError>(ExecuteError::NotFound)
        } else {
            match child_source(
                registry.genomes@[parent_genome_id@],
                parent_genome_id@,
                proposal_id@,
                prompt@,
            ) {
                Ok(source) => result matches Ok(found) && found@ == source,
                Err(_) => result == Err::<String, ExecuteError>(ExecuteError::Internal),
            }
        },
{
    match registry.genomes.get(parent_genome_id) {
        None => Err(ExecuteError::NotFound),
        Some(parent) => match forge_child_source(parent, parent_genome_id, proposal_id, prompt) {
            Ok(source) => Ok(source),
            Err(_) => Err(ExecuteError::Internal),
        },
    }
}

/// Refuses a child that the compiler rejected.
pub fn reject_child(reason: &str) -> (result: ExecuteError)
    ensures
        result@ == Refusal::Rejected("Forge child rejected: "@ + reason@),
{
    let message: String = ids::wrap("Forge child rejected: ", reason, "");
    proof {
        reveal_strlit("");
        assert(message@ == "Forge child rejected: "@ + reason@);
    }
    ExecuteError::Rejected(message)
}

/// Whether a proposal matches the registered lineage of its child.
pub open spec fn keeps_lineage(
    event: StoredEvent,
    payload: ForgeProposalPayload,
    parent: GenomeEntry,
    child: GenomeEntry,
) -> bool {
    &&& parent.registration_sequence < event.sequence
    &&& child.registration_sequence == event.sequence
    &&& child.record@ == payload.child@
    &&& child.record.world_id@ == payload.world_id@
    &&& text::texts(child.compiled_parents@) == seq![payload.parent_genome_id@]
    &&& parent.record.world_id@ == payload.world_id@
    &&& json::held(parent.prompt_artifact_id) == Some(payload.prompt_artifact_before@)
    &&& json::held(child.prompt_artifact_id) == Some(payload.prompt_artifact_after@)
    &&& payload.artifact_name@ == "agent.prompt"@
}

/// Tests whether an optional text is a given one.
fn holds(value: &Option<String>, wanted: &str) -> (result: bool)
    ensures
        result == (json::held(*value) == Some(wanted@)),
{
    match value {
        Some(value) => text::text_eq(value.as_str(), wanted),
        None => false,
    }
}

/// Tests whether a proposal matches the registered lineage of its child.
fn lineage_is_kept(
    event: &StoredEvent,
    payload: &ForgeProposalPayload,
    parent: &GenomeEntry,
    child: &GenomeEntry,
) -> (result: bool)
    ensures
        result == keeps_lineage(*event, *payload, *parent, *child),
{
    let only_parent: bool = child.compiled_parents.len() == 1 && text::text_eq(
        child.compiled_parents[0].as_str(),
        payload.parent_genome_id.as_str(),
    );
    proof {
        let parents = text::texts(child.compiled_parents@);
        if only_parent {
            assert(parents == seq![payload.parent_genome_id@]);
        } else if parents == seq![payload.parent_genome_id@] {
            assert(parents.len() == 1);
            assert(parents[0] == child.compiled_parents@[0]@);
        }
    }
    parent.registration_sequence < event.sequence && child.registration_sequence == event.sequence
        && forge::same_genome(&child.record, &payload.child) && text::text_eq(
        child.record.world_id.as_str(),
        payload.world_id.as_str(),
    ) && only_parent && text::text_eq(parent.record.world_id.as_str(), payload.world_id.as_str())
        && holds(&parent.prompt_artifact_id, payload.prompt_artifact_before.as_str()) && holds(
        &child.prompt_artifact_id,
        payload.prompt_artifact_after.as_str(),
    ) && text::text_eq(payload.artifact_name.as_str(), "agent.prompt")
}

/// Whether optional values agree where both are given.
pub open spec fn agrees<T>(recorded: Option<T>, actual: T) -> bool {
    match recorded {
        Some(recorded) => recorded == actual,
        None => true,
    }
}

/// The fault of the two prompts of a proposal.
pub open spec fn prompt_fault(payload: ForgeProposalPayload, prompts: PromptEvidence) -> Option<Fault> {
    if prompts.before is None || prompts.after is None {
        Some(Fault::Artifact)
    } else if !valid_utf8(prompts.before->0@) || !valid_utf8(prompts.after->0@) {
        Some(Fault::Protocol("Forge prompt is not UTF-8"@))
    } else if prompts.operation_before is None {
        Some(Fault::Protocol("Forge parent prompt is unsupported"@))
    } else if prompts.operation_after is None {
        Some(Fault::Protocol("Forge child prompt is unsupported"@))
    } else if prompts.edge_kind is None {
        Some(Fault::Protocol("Forge prompt mutation is not a representable catalog edge"@))
    } else {
        let before = prompts.operation_before->0@;
        let after = prompts.operation_after->0@;
        match mutation::mutated(decode_utf8(prompts.before->0@), before, after) {
            None => Some(Fault::Protocol("Forge prompt is outside mutation scope"@)),
            Some(expected) => error::need(
                {
                    &&& decode_utf8(prompts.after->0@) == expected
                    &&& payload.operation_before@ == before
                    &&& payload.operation_after@ == after
                    &&& agrees(payload.catalog_version, prompts.catalog_version)
                    &&& agrees(json::held(payload.mutation_kind), prompts.edge_kind->0@)
                },
                Fault::Projection(
                    "Forge prompt mutation is not a representable one-step catalog edge"@,
                ),
            ),
        }
    }
}

/// Checks the two prompts of a proposal.
pub fn verify_forge_prompt(payload: &ForgeProposalPayload, prompts: &PromptEvidence) -> (result: Result<
    (),
    ControlError,
>)
    ensures
        error::verdict(result) == error::faulted(prompt_fault(*payload, *prompts)),
{
    let (before_bytes, after_bytes): (&Vec<u8>, &Vec<u8>) = match (&prompts.before, &prompts.after) {
        (Some(before), Some(after)) => (before, after),
        _ => {
            return Err(ControlError::Artifact);
        },
    };
    let before_text: String = match text::read_text(before_bytes) {
        Some(text) => text,
        None => {
            return Err(ControlError::Protocol("Forge prompt is not UTF-8"));
        },
    };
    let after_text: String = match text::read_text(after_bytes) {
        Some(text) => text,
        None => {
            return Err(ControlError::Protocol("Forge prompt is not UTF-8"));
        },
    };
    let before: &String = match &prompts.operation_before {
        Some(operation) => operation,
        None => {
            return Err(ControlError::Protocol("Forge parent prompt is unsupported"));
        },
    };
    let after: &String = match &prompts.operation_after {
        Some(operation) => operation,
        None => {
            return Err(ControlError::Protocol("Forge child prompt is unsupported"));
        },
    };
    let edge_kind: &String = match &prompts.edge_kind {
        Some(kind) => kind,
        None => {
            return Err(
                ControlError::Protocol("Forge prompt mutation is not a representable catalog edge"),
            );
        },
    };
    let expected: String = match mutation::mutate_reference_instruction_document(
        before_text.as_str(),
        before.as_str(),
        after.as_str(),
    ) {
        Some(expected) => expected,
        None => {
            return Err(ControlError::Protocol("Forge prompt is outside mutation scope"));
        },
    };
    let version_agrees: bool = match payload.catalog_version {
        Some(version) => version == prompts.catalog_version,
        None => true,
    };
    let kind_agrees: bool = match &payload.mutation_kind {
        Some(kind) => text::text_eq(kind.as_str(), edge_kind.as_str()),
        None => true,
    };
    if !text::text_eq(after_text.as_str(), expected.as_str()) || !text::text_eq(
        payload.operation_before.as_str(),
        before.as_str(),
    ) || !text::text_eq(payload.operation_after.as_str(), after.as_str()) || !version_agrees
        || !kind_agrees {
        return Err(
            projection("Forge prompt mutation is not a representable one-step catalog edge"),
        );
    }
    Ok(())
}

/// The fault of a child's source and of what it compiles to.
pub open spec fn compile_fault(
    payload: ForgeProposalPayload,
    parent: GenomeEntry,
    child: GenomeEntry,
    compiled: Option<CompiledChild>,
) -> Option<Fault> {
    sourced_child_fault(
        child_source(
            parent,
            payload.parent_genome_id@,
            payload.proposal_id@,
            payload.prompt_artifact_after@,
        ),
        child,
        compiled,
    )
}

/// What an edit came to, by the text that it wrote.
pub open spec fn written(source: Result<String, EditFault>) -> Result<Seq<char>, EditFault> {
    match source {
        Ok(source) => Ok(source@),
        Err(fault) => Err(fault),
    }
}

/// The fault of a child whose source the edit of its parent's came to, and of what that
/// compiles to.
pub open spec fn sourced_child_fault(
    source: Result<Seq<char>, EditFault>,
    child: GenomeEntry,
    compiled: Option<CompiledChild>,
) -> Option<Fault> {
    match source {
        Err(EditFault::NotJson) => Some(Fault::Serialization),
        Err(EditFault::NotObject) => Some(Fault::Protocol("Forge parent Genome is invalid"@)),
        Err(EditFault::NoNested) => Some(Fault::Protocol("Forge parent artifacts are invalid"@)),
        Ok(_) => match compiled {
            None => Some(Fault::Projection("Forge child source no longer compiles"@)),
            Some(compiled) => error::need(
                compiled.genome_id@ == child.record.genome_id@ && compiled.canonical_json@
                    == child.canonical_json@,
                Fault::Projection(
                    "Forge child changes more than its single proposed prompt mutation"@,
                ),
            ),
        },
    }
}

/// Checks a child's source and what it compiles to.
pub fn verify_forge_child_compiles(
    payload: &ForgeProposalPayload,
    parent: &GenomeEntry,
    child: &GenomeEntry,
    compiled: &Option<CompiledChild>,
) -> (result: Result<(), ControlError>)
    ensures
        error::verdict(result) == error::faulted(compile_fault(*payload, *parent, *child, *compiled)),
{
    let source: Result<String, EditFault> = forge_child_source(
        parent,
        payload.parent_genome_id.as_str(),
        payload.proposal_id.as_str(),
        payload.prompt_artifact_after.as_str(),
    );
    verify_sourced_child(&source, child, compiled)
}

/// Checks a child by what the edit of its parent's source came to, and what that compiles to.
pub fn verify_sourced_child(
    source: &Result<String, EditFault>,
    child: &GenomeEntry,
    compiled: &Option<CompiledChild>,
) -> (result: Result<(), ControlError>)
    ensures
        error::verdict(result) == error::faulted(
            sourced_child_fault(written(*source), *child, *compiled),
        ),
{
    match source {
        Err(EditFault::NotJson) => {
            return Err(ControlError::Serialization);
        },
        Err(EditFault::NotObject) => {
            return Err(ControlError::Protocol("Forge parent Genome is invalid"));
        },
        Err(EditFault::NoNested) => {
            return Err(ControlError::Protocol("Forge parent artifacts are invalid"));
        },
        Ok(_) => {},
    }
    match compiled {
        None => Err(projection("Forge child source no longer compiles")),
        Some(compiled) => {
            if !text::text_eq(compiled.genome_id.as_str(), child.record.genome_id.as_str())
                || !arena_jobs::bytes_equal(&compiled.canonical_json, &child.canonical_json) {
                return Err(
                    projection("Forge child changes more than its single proposed prompt mutation"),
                );
            }
            Ok(())
        },
    }
}

/// The fault of a proposal's child.
pub open spec fn child_fault(
    registry: Registry,
    event: StoredEvent,
    payload: ForgeProposalPayload,
    evidence: ForgeEvidence,
) -> Option<Fault> {
    let parent = registry.genomes@[payload.parent_genome_id@];
    let child = registry.genomes@[payload.child.genome_id@];
    if !registry.genomes@.contains_key(payload.parent_genome_id@) {
        Some(Fault::Projection("Forge proposal parent is not registered"@))
    } else if !registry.genomes@.contains_key(payload.child.genome_id@) {
        Some(Fault::Projection("Forge proposal child is not registered"@))
    } else if !keeps_lineage(event, payload, parent, child) {
        Some(Fault::Projection("Forge proposal child differs from its registered lineage"@))
    } else {
        error::first(
            prompt_fault(payload, evidence.prompts),
            compile_fault(payload, parent, child, evidence.child),
        )
    }
}

/// Checks a proposal's child.
pub fn verify_forge_child(
    registry: &Registry,
    event: &StoredEvent,
    payload: &ForgeProposalPayload,
    evidence: &ForgeEvidence,
) -> (result: Result<(), ControlError>)
    requires
        registry.wf(),
    ensures
        error::verdict(result) == error::faulted(
            child_fault(*registry, *event, *payload, *evidence),
        ),
{
    let parent: &GenomeEntry = match registry.genomes.get(payload.parent_genome_id.as_str()) {
        Some(parent) => parent,
        None => {
            return Err(projection("Forge proposal parent is not registered"));
        },
    };
    let child: &GenomeEntry = match registry.genomes.get(payload.child.genome_id.as_str()) {
        Some(child) => child,
        None => {
            return Err(projection("Forge proposal child is not registered"));
        },
    };
    if !lineage_is_kept(event, payload, parent, child) {
        return Err(projection("Forge proposal child differs from its registered lineage"));
    }
    if let Err(error) = verify_forge_prompt(payload, &evidence.prompts) {
        return Err(error);
    }
    verify_forge_child_compiles(payload, parent, child, &evidence.child)
}

/// The events that record a proposal.
pub open spec fn proposals() -> spec_fn(RecordedEvent) -> bool {
    |recorded: RecordedEvent| recorded.event.event_type@ == "forge.proposed"@
}

/// Whether an earlier event records a proposal of the same identity.
pub open spec fn proposed_before(history: Seq<RecordedEvent>, at: int, proposal_id: Seq<char>) -> bool {
    exists|earlier: int|
        0 <= earlier < at && proposals()(#[trigger] history[earlier]) && forge::decoded_proposal(
            history[earlier],
        ) is Ok && forge::decoded_proposal(history[earlier])->Ok_0.proposal_id@ == proposal_id
}

/// The fault of a proposal that its event and the events before it show.
pub open spec fn early_proposal_fault(history: Seq<RecordedEvent>, at: int) -> Option<Fault> {
    match forge::decoded_proposal(history[at]) {
        Err(fault) => Some(fault),
        Ok(payload) => error::first(
            forge::proposal_fault(history[at].event, payload),
            error::need(
                !proposed_before(history, at, payload.proposal_id@),
                Fault::Projection("Forge proposal id was recorded more than once"@),
            ),
        ),
    }
}

/// The early check of proposals.
pub open spec fn early_proposal_check(history: Seq<RecordedEvent>) -> spec_fn(int) -> Option<Fault> {
    |at: int| early_proposal_fault(history, at)
}

/// Whether a proposal is bound to the candidate that its selection chose.
pub open spec fn bound_to_selection(payload: ForgeProposalPayload, selection: VerifiedSelection) -> bool {
    &&& payload.selection_event_hash@ == selection.event.event_hash@
    &&& payload.evaluation_id@ == selection.receipt.evaluation_id@
    &&& payload.world_id@ == selection.receipt.world_id@
    &&& payload.parent_genome_id@ == selection.receipt.candidate_genome_id@
}

/// The fault of a proposal that takes its evidence to show.
pub open spec fn late_proposal_fault(
    history: Seq<RecordedEvent>,
    registry: Registry,
    at: int,
    evidence: ForgeEvidence,
) -> Option<Fault> {
    match forge::decoded_proposal(history[at]) {
        Err(fault) => Some(fault),
        Ok(payload) => {
            let place = forge::place_of_event(history, payload.selection_event_id@);
            if place is None || history[place->0].event.sequence >= history[at].event.sequence {
                Some(
                    Fault::Projection("Forge proposal source selection is missing or out of order"@),
                )
            } else {
                match history[place->0].payload {
                    EventPayload::Reference(reference) => if !registry.worlds@.contains_key(
                        reference.world_id@,
                    ) {
                        Some(Fault::Projection("Forge source World is not registered"@))
                    } else {
                        match evidence.selection {
                            None => Some(
                                Fault::Projection("Forge source selection is unverified"@),
                            ),
                            Some(selection) => error::first(
                                error::need(
                                    bound_to_selection(payload, selection),
                                    Fault::Projection(
                                        "Forge proposal is not bound to its selected candidate"@,
                                    ),
                                ),
                                child_fault(registry, history[at].event, payload, evidence),
                            ),
                        }
                    },
                    _ => Some(Fault::Projection("Forge source selection is invalid"@)),
                }
            }
        },
    }
}

/// The late check of proposals.
pub open spec fn late_proposal_check(
    history: Seq<RecordedEvent>,
    registry: Registry,
    evidence: Seq<ForgeEvidence>,
) -> spec_fn(int) -> Option<Fault> {
    |at: int| late_proposal_fault(history, registry, at, evidence[at])
}

/// Checks one proposal against its evidence.
pub fn check_proposal(
    history: &Vec<RecordedEvent>,
    registry: &Registry,
    at: usize,
    evidence: &ForgeEvidence,
) -> (result: Result<(), ControlError>)
    requires
        registry.wf(),
        at < history@.len(),
    ensures
        error::verdict(result) == error::faulted(
            late_proposal_fault(history@, *registry, at as int, *evidence),
        ),
{
    let payload: &ForgeProposalPayload = match forge::decode_forge_proposal(&history[at]) {
        Ok(payload) => payload,
        Err(error) => {
            return Err(error);
        },
    };
    let place: usize = match forge::find_event(history, payload.selection_event_id.as_str()) {
        Some(place) => place,
        None => {
            return Err(
                projection("Forge proposal source selection is missing or out of order"),
            );
        },
    };
    if history[place].event.sequence >= history[at].event.sequence {
        return Err(projection("Forge proposal source selection is missing or out of order"));
    }
    match &history[place].payload {
        EventPayload::Reference(reference) => {
            if !registry.worlds.contains_key(reference.world_id.as_str()) {
                return Err(projection("Forge source World is not registered"));
            }
        },
        _ => {
            return Err(projection("Forge source selection is invalid"));
        },
    }
    match &evidence.selection {
        None => {
            return Err(projection("Forge source selection is unverified"));
        },
        Some(selection) => {
            if payload.selection_event_hash != selection.event.event_hash || payload.evaluation_id
                != selection.receipt.evaluation_id || payload.world_id != selection.receipt.world_id
                || payload.parent_genome_id != selection.receipt.candidate_genome_id {
                return Err(projection("Forge proposal is not bound to its selected candidate"));
            }
        },
    }
    verify_forge_child(registry, &history[at].event, payload, evidence)
}

/// Verifies every recorded proposal: its event always, its evidence where it is not
/// remembered.
pub fn verify_forge_history_with(
    history: &Vec<RecordedEvent>,
    registry: &Registry,
    evidence: &Vec<ForgeEvidence>,
    cache: &mut EvidenceCache,
) -> (result: Result<(), ControlError>)
    requires
        registry.wf(),
        old(cache).wf(),
        evidence@.len() == history@.len(),
    ensures
        final(cache).wf(),
        ({
            let pass = evidence::sweep(
                history@,
                history@.len() as int,
                "forge"@,
                proposals(),
                early_proposal_check(history@),
                late_proposal_check(history@, *registry, evidence@),
                old(cache)@,
            );
            error::verdict(result) == error::faulted(pass.fault) && final(cache)@ == pass.cache
        }),
{
    let ghost start = cache@;
    let ghost early = early_proposal_check(history@);
    let ghost late = late_proposal_check(history@, *registry, evidence@);
    let mut seen: OrderedMap<()> = OrderedMap::new();
    for at in 0..history.len()
        invariant
            registry.wf(),
            cache.wf(),
            seen.wf(),
            start == old(cache)@,
            evidence@.len() == history@.len(),
            early == early_proposal_check(history@),
            late == late_proposal_check(history@, *registry, evidence@),
            forall|id: Seq<char>| #[trigger]
                seen@.contains_key(id) <==> proposed_before(history@, at as int, id),
            ({
                let pass = evidence::sweep(
                    history@,
                    at as int,
                    "forge"@,
                    proposals(),
                    early,
                    late,
                    start,
                );
                pass.fault is None && cache@ == pass.cache
            }),
    {
        let recorded: &RecordedEvent = &history[at];
        let ghost before = seen@;
        let proposed: bool = text::text_eq(recorded.event.event_type.as_str(), "forge.proposed");
        if proposed {
            let mut fault: Option<ControlError> = None;
            match forge::decode_forge_proposal(recorded) {
                Err(error) => {
                    fault = Some(error);
                },
                Ok(payload) => {
                    if let Err(error) = forge::validate_forge_event(&recorded.event, payload) {
                        fault = Some(error);
                    } else if seen.contains_key(payload.proposal_id.as_str()) {
                        fault = Some(projection("Forge proposal id was recorded more than once"));
                    } else {
                        seen.insert(payload.proposal_id.clone(), ());
                    }
                },
            }
            if fault.is_none() && !cache.contains("forge", &recorded.event) {
                match check_proposal(history, registry, at, &evidence[at]) {
                    Ok(()) => {
                        cache.insert("forge", &recorded.event);
                    },
                    Err(error) => {
                        fault = Some(error);
                    },
                }
            }
            if let Some(error) = fault {
                proof {
                    evidence::sweep_stops(
                        history@,
                        at + 1,
                        history@.len() as int,
                        "forge"@,
                        proposals(),
                        early,
                        late,
                        start,
                    );
                }
                return Err(error);
            }
        }
        proof {
            assert forall|id: Seq<char>| #[trigger]
                seen@.contains_key(id) <==> proposed_before(history@, at + 1, id) by {
                if proposed_before(history@, at + 1, id) && !proposed_before(
                    history@,
                    at as int,
                    id,
                ) {
                    assert(proposals()(history@[at as int]));
                }
                if before.contains_key(id) {
                    let earlier = choose|earlier: int|
                        0 <= earlier < at && proposals()(#[trigger] history@[earlier])
                            && forge::decoded_proposal(history@[earlier]) is Ok
                            && forge::decoded_proposal(history@[earlier])->Ok_0.proposal_id@ == id;
                    assert(proposals()(history@[earlier]));
                } else if seen@.contains_key(id) {
                    assert(proposals()(history@[at as int]));
                }
            }
        }
    }
    Ok(())
}

/// The events that record an assessment.
pub open spec fn assessments() -> spec_fn(RecordedEvent) -> bool {
    |recorded: RecordedEvent| recorded.event.event_type@ == "forge.assessed"@
}

/// The first rule that an assessment event breaks by itself.
pub open spec fn assessment_event_fault(event: StoredEvent, payload: ForgeAssessmentPayload) -> Option<
    Fault,
> {
    error::first(
        error::need(
            {
                &&& payload.schema_version == 1
                &&& event.actor@ == state::OPERATOR_ACTOR@
                &&& event.event_id@ == "forge-assessment:"@ + payload.assessment_id@
                    + ":recorded"@
                &&& event.aggregate_id@ == "forge:"@ + payload.proposal_id@
            },
            Fault::Projection("Forge assessment event identity is invalid"@),
        ),
        error::first(
            error::need(
                commands::job_identity(payload.assessment_id@),
                Fault::Projection("Forge assessment id is invalid"@),
            ),
            error::need(
                commands::job_identity(payload.proposal_id@),
                Fault::Projection("Forge assessment proposal id is invalid"@),
            ),
        ),
    )
}

/// Accepts an assessment event that keeps every rule by itself.
pub fn validate_assessment_event(event: &StoredEvent, payload: &ForgeAssessmentPayload) -> (result: Result<
    (),
    ControlError,
>)
    ensures
        error::verdict(result) == error::faulted(assessment_event_fault(*event, *payload)),
{
    let event_id: String = ids::forge_assessment_event_id(payload.assessment_id.as_str());
    let aggregate_id: String = ids::forge_aggregate_id(payload.proposal_id.as_str());
    if payload.schema_version != 1 || !text::text_eq(event.actor.as_str(), state::OPERATOR_ACTOR)
        || !text::text_eq(event.event_id.as_str(), event_id.as_str()) || !text::text_eq(
        event.aggregate_id.as_str(),
        aggregate_id.as_str(),
    ) {
        return Err(projection("Forge assessment event identity is invalid"));
    }
    if commands::validate_job_id(payload.assessment_id.as_str()).is_err() {
        return Err(projection("Forge assessment id is invalid"));
    }
    if commands::validate_job_id(payload.proposal_id.as_str()).is_err() {
        return Err(projection("Forge assessment proposal id is invalid"));
    }
    Ok(())
}

/// The fault of an assessment, given the selection that it rests on.
pub open spec fn assessment_fault(
    history: Seq<RecordedEvent>,
    registry: Registry,
    at: int,
    selection: Option<VerifiedSelection>,
) -> Option<Fault> {
    match forge::decoded_assessment(history[at]) {
        Err(fault) => Some(fault),
        Ok(payload) => error::first(
            assessment_event_fault(history[at].event, payload),
            match assess::assessment_places(
                history,
                registry,
                payload.proposal_id@,
                payload.selection_event_id@,
            ) {
                Err(_) => Some(Fault::Projection("Forge assessment evidence is invalid"@)),
                Ok((proposal, place)) => if selection is None || assess::assessment_refusal(
                    history,
                    proposal,
                    place,
                    selection->0.receipt,
                    selection->0.event.sequence,
                ) is Some {
                    Some(Fault::Projection("Forge assessment evidence is invalid"@))
                } else {
                    error::need(
                        history[place].event.sequence < history[at].event.sequence
                            && assess::assesses(
                            payload,
                            payload.assessment_id@,
                            payload.proposal_id@,
                            history[proposal].event,
                            selection->0.receipt,
                            selection->0.event,
                        ),
                        Fault::Projection("Forge assessment differs from verified evidence"@),
                    )
                },
            },
        ),
    }
}

/// The late check of assessments.
pub open spec fn assessment_check(
    history: Seq<RecordedEvent>,
    registry: Registry,
    selections: Seq<Option<VerifiedSelection>>,
) -> spec_fn(int) -> Option<Fault> {
    |at: int| assessment_fault(history, registry, at, selections[at])
}

/// Checks one assessment.
pub fn check_assessment(
    history: &Vec<RecordedEvent>,
    registry: &Registry,
    at: usize,
    selection: &Option<VerifiedSelection>,
) -> (result: Result<(), ControlError>)
    requires
        registry.wf(),
        at < history@.len(),
    ensures
        error::verdict(result) == error::faulted(
            assessment_fault(history@, *registry, at as int, *selection),
        ),
{
    let payload: &ForgeAssessmentPayload = match forge::decode_forge_assessment(&history[at]) {
        Ok(payload) => payload,
        Err(error) => {
            return Err(error);
        },
    };
    if let Err(error) = validate_assessment_event(&history[at].event, payload) {
        return Err(error);
    }
    let sites: AssessmentSites = match assess::find_assessment_sites(
        history,
        registry,
        payload.proposal_id.as_str(),
        payload.selection_event_id.as_str(),
    ) {
        Ok(sites) => sites,
        Err(_) => {
            return Err(projection("Forge assessment evidence is invalid"));
        },
    };
    let verified: &VerifiedSelection = match selection {
        Some(verified) => verified,
        None => {
            return Err(projection("Forge assessment evidence is invalid"));
        },
    };
    let expected: ForgeAssessmentPayload = match assess::forge_assessment_payload(
        history,
        &sites,
        payload.assessment_id.as_str(),
        payload.proposal_id.as_str(),
        &verified.receipt,
        &verified.event,
    ) {
        Ok(expected) => expected,
        Err(_) => {
            return Err(projection("Forge assessment evidence is invalid"));
        },
    };
    if history[sites.selection].event.sequence >= history[at].event.sequence
        || !assess::assessments_match(payload, &expected) {
        return Err(projection("Forge assessment differs from verified evidence"));
    }
    Ok(())
}

/// Verifies every recorded assessment that is not remembered.
pub fn verify_forge_assessment_history_with(
    history: &Vec<RecordedEvent>,
    registry: &Registry,
    selections: &Vec<Option<VerifiedSelection>>,
    cache: &mut EvidenceCache,
) -> (result: Result<(), ControlError>)
    requires
        registry.wf(),
        old(cache).wf(),
        selections@.len() == history@.len(),
    ensures
        final(cache).wf(),
        ({
            let pass = evidence::sweep(
                history@,
                history@.len() as int,
                "forge_assessment"@,
                assessments(),
                evidence::unchecked(),
                assessment_check(history@, *registry, selections@),
                old(cache)@,
            );
            error::verdict(result) == error::faulted(pass.fault) && final(cache)@ == pass.cache
        }),
{
    let ghost start = cache@;
    let ghost late = assessment_check(history@, *registry, selections@);
    for at in 0..history.len()
        invariant
            registry.wf(),
            cache.wf(),
            start == old(cache)@,
            selections@.len() == history@.len(),
            late == assessment_check(history@, *registry, selections@),
            ({
                let pass = evidence::sweep(
                    history@,
                    at as int,
                    "forge_assessment"@,
                    assessments(),
                    evidence::unchecked(),
                    late,
                    start,
                );
                pass.fault is None && cache@ == pass.cache
            }),
    {
        let recorded: &RecordedEvent = &history[at];
        if text::text_eq(recorded.event.event_type.as_str(), "forge.assessed") && !cache.contains(
            "forge_assessment",
            &recorded.event,
        ) {
            if let Err(error) = check_assessment(history, registry, at, &selections[at]) {
                proof {
                    evidence::sweep_stops(
                        history@,
                        at + 1,
                        history@.len() as int,
                        "forge_assessment"@,
                        assessments(),
                        evidence::unchecked(),
                        late,
                        start,
                    );
                }
                return Err(error);
            }
            cache.insert("forge_assessment", &recorded.event);
        }
    }
    Ok(())
}

} // verus!
