use hephaestus_control::assess::{
    assess_genome, existing_assessment, find_assessment_sites, forge_assessment_payload,
    Assessing,
};
use hephaestus_control::error::{ControlError, ExecuteError};
use hephaestus_control::evidence::{arena_record_cache_key, EvidenceCache};
use hephaestus_control::forge::{
    forge_proposal_record, propose_genome_command, HypothesisSource, ProposalRequest,
};
use hephaestus_control::forge_history::{
    check_assessment, check_proposal, edit_source, forge_child_source, proposed_child_source,
    verify_forge_assessment_history_with, verify_forge_history_with, verify_sourced_child,
    CompiledChild, ForgeEvidence,
    PromptEvidence, VerifiedSelection,
};
use hephaestus_control::json::EditFault;
use hephaestus_control::mutation::{
    choose_adaptation_mutation, forge_prompt_mutation, mutate_reference_instruction_document,
    normalize_lines, reference_instruction_document, RequestedOperation,
};
use hephaestus_control::proposal::{
    propose_genome_from_source, settle_proposal, ChildReply, ProposalEnd, ProposalFacts, Settled,
    VerifiedAnalysis,
};
use hephaestus_control::protocol::{
    Command, ForgeAssessmentOutcome, ForgeProposalPayload, SelectionEventRecord,
};
use hephaestus_control::records::{
    ClusterAnalysis, FailureCluster, GenomeRecord, SelectionReceipt, StoredEvent,
    SuggestedMutation, WorldRecord,
};
use hephaestus_control::registry::{GenomeEntry, Registry, WorldEntry};
use hephaestus_control::state::{EvaluationReference, EventPayload, RecordedEvent};

fn text(value: &str) -> String {
    value.to_owned()
}

fn parent() -> GenomeEntry {
    GenomeEntry {
        record: GenomeRecord {
            genome_id: text("parent"),
            name: text("reference"),
            world_id: text("world"),
            artifact_id: text("parent-artifact"),
            parent_ids: Vec::new(),
        },
        model_provider: text("reference"),
        prompt_artifact_id: Some(text("prompt-before")),
        registration_sequence: 1,
        compiled_parents: Vec::new(),
        canonical_json:
            br#"{"name":"reference","parents":[],"artifacts":{"agent.prompt":"prompt-before"}}"#
                .to_vec(),
    }
}

fn child(sequence: u64) -> GenomeEntry {
    GenomeEntry {
        record: child_record(),
        model_provider: text("reference"),
        prompt_artifact_id: Some(text("prompt-after")),
        registration_sequence: sequence,
        compiled_parents: vec![text("parent")],
        canonical_json: b"child".to_vec(),
    }
}

fn child_record() -> GenomeRecord {
    GenomeRecord {
        genome_id: text("child"),
        name: text("reference-forge-proposal-1"),
        world_id: text("world"),
        artifact_id: text("child-artifact"),
        parent_ids: vec![text("parent")],
    }
}

fn registry() -> Registry {
    let mut registry = Registry::new("second".to_owned());
    registry.worlds.insert(
        text("world"),
        WorldEntry {
            record: WorldRecord {
                world_id: text("world"),
                name: text("w"),
                artifact_id: text("a"),
            },
            compiled_id: text("world"),
            visible_manifest: None,
            sealed_manifest: None,
            evaluator: None,
            allow_mixed_environments: false,
            maximum_cost_microusd: 0,
            harness_mutations: true,
            auto_canary_on_drift: false,
        },
    );
    registry.genomes.insert(text("parent"), parent());
    registry
}

fn stored(sequence: u64, event_id: &str, aggregate_id: &str, event_type: &str) -> StoredEvent {
    StoredEvent {
        sequence,
        event_id: text(event_id),
        aggregate_id: text(aggregate_id),
        event_type: text(event_type),
        actor: text("local-operator"),
        timestamp_millis: 7,
        payload: b"{}".to_vec(),
        hash: [sequence as u8; 32],
    }
}

fn reference(sequence: u64, event_id: &str, event_type: &str, evaluation_id: &str) -> RecordedEvent {
    RecordedEvent {
        event: stored(sequence, event_id, "arena", event_type),
        payload: EventPayload::Reference(EvaluationReference {
            evaluation_id: text(evaluation_id),
            world_id: text("world"),
        }),
    }
}

fn history() -> Vec<RecordedEvent> {
    vec![reference(2, "selection-1", "selection.recorded", "evaluation-1")]
}

fn selection() -> VerifiedSelection {
    VerifiedSelection {
        receipt: receipt("evaluation-1", "grandparent", "parent", 1),
        event: SelectionEventRecord {
            sequence: 2,
            event_id: text("selection-1"),
            aggregate_id: text("arena"),
            event_type: text("selection.recorded"),
            actor: text("arena-plane"),
            event_hash: "02".repeat(32),
            receipt_artifact_id: text("receipt"),
        },
    }
}

fn receipt(evaluation_id: &str, parent: &str, candidate: &str, evaluated: u64) -> SelectionReceipt {
    SelectionReceipt {
        evaluation_id: text(evaluation_id),
        evaluation_event_id: format!("{evaluation_id}:recorded"),
        evaluation_event_hash: format!("{evaluated:02x}").repeat(32),
        world_id: text("world"),
        parent_genome_id: text(parent),
        candidate_genome_id: text(candidate),
        metrics_eligible: true,
        estimate_bps: 1,
        lower_bps: 0,
        upper_bps: 2,
        parent_cost_microusd: 0,
        candidate_cost_microusd: 0,
        parent_latency_millis: 1,
        candidate_latency_millis: 1,
        invariant_gate_verified: false,
        promotion_eligible: false,
    }
}

fn request(source: HypothesisSource) -> ProposalRequest {
    ProposalRequest {
        proposal_id: text("proposal-1"),
        selection_event_id: text("selection-1"),
        parent_genome_id: text("parent"),
        source,
    }
}

fn operator() -> HypothesisSource {
    HypothesisSource::Operator(text("uppercase the output"))
}

fn facts() -> ProposalFacts {
    ProposalFacts {
        selection: Some(selection()),
        analysis: None,
        target_known: true,
        prompt_bytes: Some(reference_instruction_document("identity").into_bytes()),
        operation: Some(text("identity")),
        catalog_edge: true,
    }
}

fn settled() -> Settled {
    match propose_genome_from_source(false, &registry(), &history(), "forge-analysis:", request(operator()), facts()) {
        Ok(settled) => settled,
        Err(error) => panic!("{error:?}"),
    }
}

fn compiled() -> ChildReply {
    ChildReply::Compiled {
        prompt_artifact_id: text("prompt-after"),
        genome_id: text("child"),
        name: text("reference-forge-proposal-1"),
        parent_ids: vec![text("parent")],
        artifact_id: text("child-artifact"),
        catalog_version: 1,
        mutation_kind: Some(text("casing")),
    }
}

fn end(history: &Vec<RecordedEvent>, registry: &Registry, reply: ChildReply) -> Result<ProposalEnd, ExecuteError> {
    settle_proposal(
        registry,
        history,
        text("proposal-1"),
        text("selection-1"),
        text("parent"),
        settled(),
        reply,
    )
}

fn payload() -> ForgeProposalPayload {
    match end(&history(), &registry(), compiled()) {
        Ok(ProposalEnd::Record(payload)) => payload,
        _ => panic!("the proposal is recorded"),
    }
}

fn proposed(sequence: u64) -> RecordedEvent {
    RecordedEvent {
        event: stored(sequence, "forge:proposal-1:proposed", "forge:proposal-1", "forge.proposed"),
        payload: EventPayload::ForgeProposal(payload(), b"{}".to_vec()),
    }
}

fn evidence() -> ForgeEvidence {
    ForgeEvidence {
        selection: Some(selection()),
        prompts: PromptEvidence {
            before: Some(reference_instruction_document("identity").into_bytes()),
            after: Some(reference_instruction_document("ascii_uppercase").into_bytes()),
            operation_before: Some(text("identity")),
            operation_after: Some(text("ascii_uppercase")),
            edge_kind: Some(text("casing")),
            catalog_version: 1,
        },
        child: Some(CompiledChild { genome_id: text("child"), canonical_json: b"child".to_vec() }),
    }
}

fn no_evidence() -> ForgeEvidence {
    ForgeEvidence {
        selection: None,
        prompts: PromptEvidence {
            before: None,
            after: None,
            operation_before: None,
            operation_after: None,
            edge_kind: None,
            catalog_version: 1,
        },
        child: None,
    }
}

fn registered_child() -> Registry {
    let mut registry = registry();
    registry.genomes.insert(text("child"), child(3));
    registry
}

fn refusal<T>(result: Result<T, ExecuteError>) -> ExecuteError {
    match result {
        Err(error) => error,
        Ok(_) => panic!("a refusal"),
    }
}

#[test]
fn documents_have_one_operation() {
    let identity = "```hephaestus-reference-v1\n{\"schema_version\":1,\"operation\":\"identity\"}\n```";
    assert_eq!(reference_instruction_document("identity"), identity);
    let upper = identity.replace("identity", "ascii_uppercase");
    assert_eq!(
        mutate_reference_instruction_document(identity, "identity", "ascii_uppercase"),
        Some(upper.clone())
    );
    assert_eq!(
        mutate_reference_instruction_document(&format!("{identity}\n"), "identity", "ascii_uppercase"),
        Some(format!("{upper}\n"))
    );
    assert_eq!(
        mutate_reference_instruction_document(&identity.replace('\n', "\r\n"), "identity", "ascii_uppercase"),
        Some(upper.replace('\n', "\r\n"))
    );
    for prompt in [
        text(identity),
        format!("{identity}\n"),
        identity.replace('\n', "\r\n"),
        format!("{identity}\r\n"),
        identity.replacen('\n', "\r\n", 1),
    ] {
        let there = mutate_reference_instruction_document(&prompt, "identity", "ascii_uppercase")
            .expect("a mutation");
        assert_eq!(
            mutate_reference_instruction_document(&there, "ascii_uppercase", "identity"),
            Some(prompt)
        );
    }
    assert_eq!(mutate_reference_instruction_document(identity, "ascii_uppercase", "identity"), None);
    assert_eq!(
        mutate_reference_instruction_document(&format!(" {identity}"), "identity", "ascii_uppercase"),
        None
    );
}

#[test]
fn line_ends_are_normalized() {
    for sample in ["", "a\r\nb", "\r\r\n", "\r", "\n\r\n\r\n", "a\rb"] {
        assert_eq!(normalize_lines(sample), sample.replace("\r\n", "\n"));
    }
}

#[test]
fn flipping_an_operation_twice_returns_it() {
    let identity = reference_instruction_document("identity");
    let first = forge_prompt_mutation(Some(identity.clone().into_bytes()), Some("identity"), None)
        .expect("a mutation");
    assert_eq!(first.after, "ascii_uppercase");
    let second =
        forge_prompt_mutation(Some(first.text.into_bytes()), Some("ascii_uppercase"), None)
            .expect("a mutation");
    assert_eq!(second.after, "identity");
    assert_eq!(second.text, identity);
}

#[test]
fn mutations_stay_in_their_scope() {
    let identity = || Some(reference_instruction_document("identity").into_bytes());
    let edge = |catalog_edge| RequestedOperation { operation: text("trim"), catalog_edge };
    assert_eq!(refusal(forge_prompt_mutation(None, Some("identity"), None)), ExecuteError::Internal);
    assert_eq!(
        refusal(forge_prompt_mutation(Some(vec![0xff]), Some("identity"), None)),
        ExecuteError::Internal
    );
    assert_eq!(
        refusal(forge_prompt_mutation(identity(), None, None)),
        ExecuteError::Rejected(text(
            "the selected candidate prompt is outside the supported mutation language"
        ))
    );
    assert_eq!(
        refusal(forge_prompt_mutation(identity(), Some("identity"), Some(&edge(false)))),
        ExecuteError::Rejected(text(
            "the requested mutation target is not a representable catalog edge"
        ))
    );
    assert_eq!(
        forge_prompt_mutation(identity(), Some("identity"), Some(&edge(true))).map(|m| m.after).ok(),
        Some(text("trim"))
    );
    let outside = forge_prompt_mutation(identity(), Some("trim"), None);
    assert_eq!(choose_adaptation_mutation(&outside), Ok(false));
    assert_eq!(
        refusal(outside),
        ExecuteError::Rejected(text(
            "the selected candidate prompt is outside the Forge mutation scope"
        ))
    );
}

#[test]
fn a_child_differs_from_its_parent_in_three_members() {
    let source = forge_child_source(&parent(), "parent", "proposal-1", "prompt-after");
    let written: serde_json::Value =
        serde_json::from_str(&source.expect("a source")).expect("JSON");
    assert_eq!(written["name"].as_str(), Some("reference-forge-proposal-1"));
    assert_eq!(written["parents"][0].as_str(), Some("parent"));
    assert_eq!(written["artifacts"]["agent.prompt"].as_str(), Some("prompt-after"));
    let mut entry = parent();
    entry.canonical_json = b"nothing".to_vec();
    assert_eq!(forge_child_source(&entry, "parent", "p", "x"), Err(EditFault::NotJson));
    entry.canonical_json = b"[]".to_vec();
    assert_eq!(forge_child_source(&entry, "parent", "p", "x"), Err(EditFault::NotObject));
    entry.canonical_json = b"{}".to_vec();
    assert_eq!(forge_child_source(&entry, "parent", "p", "x"), Err(EditFault::NoNested));
    entry.canonical_json =
        br#"{"z":[1,2.5],"artifacts":{"agent.prompt":"old","other":"kept"},"name":"n","parents":["g"]}"#
            .to_vec();
    let expected = [
        r#"{"artifacts":{"agent.prompt":"x\"y","other":"kept"},"#,
        r#""name":"reference-forge-p","parents":["parent"],"z":[1,2.5]}"#,
    ]
    .concat();
    assert_eq!(forge_child_source(&entry, "parent", "p", "x\"y"), Ok(expected));
    let mut object = serde_json::Map::new();
    assert!(matches!(
        edit_source(object.clone(), "n", "parent", "x"),
        Err(EditFault::NoNested)
    ));
    object.insert(text("artifacts"), serde_json::Value::Object(serde_json::Map::new()));
    let edited = edit_source(object, "n", "parent", "x").expect("an edit");
    assert_eq!(edited.len(), 3);
    assert_eq!(edited["artifacts"]["agent.prompt"].as_str(), Some("x"));
    assert_eq!(
        refusal(proposed_child_source(&registry(), "nobody", "p", "x")),
        ExecuteError::NotFound
    );
}

#[test]
fn a_proposal_is_settled_from_its_selection() {
    let settled = settled();
    assert_eq!(settled.selection_event_hash, "02".repeat(32));
    assert_eq!(settled.evaluation_id, "evaluation-1");
    assert_eq!(settled.world_id, "world");
    assert_eq!(settled.resolved.hypothesis, "uppercase the output");
    assert_eq!(settled.prompt_artifact_before, "prompt-before");
    assert_eq!(settled.mutation.before, "identity");
    assert_eq!(settled.mutation.after, "ascii_uppercase");
    assert_eq!(settled.mutation.text, reference_instruction_document("ascii_uppercase"));
}

#[test]
fn the_first_failing_step_refuses_a_proposal() {
    let propose = |frozen, request, facts| {
        refusal(propose_genome_from_source(
            frozen, &registry(), &history(), "forge-analysis:", request, facts,
        ))
    };
    assert_eq!(
        propose(true, request(operator()), facts()),
        ExecuteError::Invalid("evolution is frozen")
    );
    let mut bad = request(operator());
    bad.proposal_id = text("a b");
    assert_eq!(propose(false, bad, facts()), ExecuteError::Invalid("proposal_id is invalid"));
    let mut bad = request(operator());
    bad.selection_event_id = text("selection-2");
    assert_eq!(propose(false, bad, facts()), ExecuteError::NotFound);
    let mut unverified = facts();
    unverified.selection = None;
    assert_eq!(propose(false, request(operator()), unverified), ExecuteError::Internal);
    let mut bad = request(operator());
    bad.parent_genome_id = text("grandparent");
    assert_eq!(
        propose(false, bad, facts()),
        ExecuteError::Rejected(text("the parent must be the selected candidate under the same World"))
    );
    assert_eq!(
        propose(false, request(HypothesisSource::Operator(text(""))), facts()),
        ExecuteError::Invalid("hypothesis must be 1 to 512 printable UTF-8 bytes")
    );
}

#[test]
fn a_cluster_supports_a_proposal() {
    let mut history = history();
    history.push(reference(3, "forge-analysis:analysis-1:clustered", "forge.clustered", "evaluation-1"));
    let source = |cluster_index| HypothesisSource::Analysis {
        analysis_id: text("analysis-1"),
        cluster_index,
    };
    let cluster = |suggested_mutation| FailureCluster {
        signature: text("s"),
        total_count: 2,
        hypothesis: text("trim the output"),
        suggested_mutation,
    };
    let with = |target_known| {
        let mut facts = facts();
        facts.target_known = target_known;
        facts.analysis = Some(VerifiedAnalysis {
            analysis: ClusterAnalysis {
                evaluation_id: text("evaluation-1"),
                world_id: text("world"),
                candidate_genome_id: text("parent"),
                clusters: vec![
                    cluster(Some(SuggestedMutation::ReferenceOperation { operation_after: text("trim") })),
                    cluster(None),
                ],
            },
            event_hash: text("hash"),
        });
        facts
    };
    let propose = |source, facts| {
        propose_genome_from_source(
            false, &registry(), &history, "forge-analysis:", request(source), facts,
        )
    };
    let settled = propose(source(0), with(true)).ok().expect("a settled proposal");
    assert_eq!(settled.mutation.after, "trim");
    let binding = settled.resolved.binding.expect("a binding");
    assert_eq!(binding.analysis_event_id, "forge-analysis:analysis-1:clustered");
    assert_eq!(binding.cluster_signature, "s");
    assert_eq!(refusal(propose(source(0), with(false))), ExecuteError::Internal);
    assert_eq!(
        refusal(propose(source(1), with(true))),
        ExecuteError::Rejected(text("the selected cluster has no supported mutation"))
    );
    assert_eq!(refusal(propose(source(2), with(true))), ExecuteError::NotFound);
    assert_eq!(refusal(propose(source(0), facts())), ExecuteError::Internal);
}

#[test]
fn a_proposal_is_recorded_once() {
    let payload = payload();
    assert_eq!(payload.child, child_record());
    assert_eq!(payload.artifact_name, "agent.prompt");
    assert_eq!(payload.catalog_version, Some(1));
    let mut held = history();
    held.push(proposed(3));
    assert!(matches!(end(&held, &registered_child(), compiled()), Ok(ProposalEnd::Recorded(1))));
    let ChildReply::Compiled { genome_id, name, parent_ids, artifact_id, catalog_version, mutation_kind, .. } = compiled() else {
        panic!("compiled");
    };
    let other = ChildReply::Compiled {
        prompt_artifact_id: text("another"),
        genome_id,
        name,
        parent_ids,
        artifact_id,
        catalog_version,
        mutation_kind,
    };
    assert_eq!(
        refusal(end(&held, &registered_child(), other)),
        ExecuteError::Rejected(text("proposal_id is already bound to different proposal content"))
    );
    assert_eq!(
        refusal(end(&history(), &registered_child(), compiled())),
        ExecuteError::Rejected(text("derived child identity is already registered"))
    );
    assert_eq!(
        refusal(end(&history(), &registry(), ChildReply::Rejected { reason: text("no") })),
        ExecuteError::Rejected(text("Forge child rejected: no"))
    );
    assert_eq!(
        refusal(end(&history(), &registry(), ChildReply::Failed)),
        ExecuteError::Internal
    );
    let shown = forge_proposal_record(payload, &proposed(3).event);
    assert!(!shown.promotion_eligible);
    assert_eq!(shown.event.event_hash, "03".repeat(32));
}

#[test]
fn a_recorded_proposal_verifies() {
    let mut held = history();
    held.push(proposed(3));
    let registry = registered_child();
    assert_eq!(check_proposal(&held, &registry, 1, &evidence()), Ok(()));
    let mut cache = EvidenceCache::new();
    let all = vec![no_evidence(), evidence()];
    assert_eq!(verify_forge_history_with(&held, &registry, &all, &mut cache), Ok(()));
    let forgotten = vec![no_evidence(), no_evidence()];
    assert_eq!(verify_forge_history_with(&held, &registry, &forgotten, &mut cache), Ok(()));
    assert_eq!(
        verify_forge_history_with(&held, &registry, &forgotten, &mut EvidenceCache::new()),
        Err(ControlError::Projection(text("Forge source selection is unverified")))
    );
    let mut changed = evidence();
    changed.prompts.after = Some(reference_instruction_document("trim").into_bytes());
    assert!(check_proposal(&held, &registry, 1, &changed).is_err());
    let mut changed = evidence();
    changed.child = Some(CompiledChild { genome_id: text("child"), canonical_json: b"x".to_vec() });
    assert_eq!(
        check_proposal(&held, &registry, 1, &changed),
        Err(ControlError::Projection(text(
            "Forge child changes more than its single proposed prompt mutation"
        )))
    );
    held.push(proposed(4));
    let all = vec![no_evidence(), evidence(), evidence()];
    assert_eq!(
        verify_forge_history_with(&held, &registry, &all, &mut EvidenceCache::new()),
        Err(ControlError::Projection(text("Forge proposal id was recorded more than once")))
    );
}

#[test]
fn an_assessment_rests_on_its_selection() {
    let registry = registered_child();
    let mut held = history();
    held.push(proposed(3));
    held.push(reference(4, "evaluation-2:recorded", "evaluation.recorded", "evaluation-2"));
    held.push(reference(5, "selection-2", "selection.recorded", "evaluation-2"));
    let sites = find_assessment_sites(&held, &registry, "proposal-1", "selection-2")
        .ok()
        .expect("the sites");
    assert_eq!((sites.proposal, sites.selection), (1, 3));
    let verified = || VerifiedSelection {
        receipt: receipt("evaluation-2", "parent", "child", 4),
        event: SelectionEventRecord {
            sequence: 5,
            event_id: text("selection-2"),
            aggregate_id: text("arena"),
            event_type: text("selection.recorded"),
            actor: text("arena-plane"),
            event_hash: "05".repeat(32),
            receipt_artifact_id: text("receipt-2"),
        },
    };
    let selection = verified();
    let assess = |receipt: &SelectionReceipt| {
        forge_assessment_payload(
            &held, &sites, "assessment-1", "proposal-1", receipt, &selection.event,
        )
    };
    let decide = |working: bool, verified: bool, id: &str, selection: Option<VerifiedSelection>| {
        assess_genome(
            working, verified, &held, &registry, id, "proposal-1", "selection-2", selection,
        )
    };
    assert!(matches!(
        decide(false, true, "assessment-1", Some(verified())),
        Ok(Assessing::Record(payload)) if payload.assessment_id == "assessment-1"
    ));
    assert_eq!(refusal(decide(true, true, "assessment-1", Some(verified()))), ExecuteError::Busy);
    assert_eq!(
        refusal(decide(false, true, "no id", Some(verified()))),
        ExecuteError::Invalid("assessment_id is invalid")
    );
    assert_eq!(
        refusal(decide(false, false, "assessment-1", Some(verified()))),
        ExecuteError::Internal
    );
    assert_eq!(refusal(decide(false, true, "assessment-1", None)), ExecuteError::Internal);
    let payload = assess(&selection.receipt).ok().expect("an assessment");
    assert_eq!(payload.outcome, ForgeAssessmentOutcome::MetricsPassed);
    assert!(!payload.promotion_eligible);
    assert_eq!(payload.child_genome_id, "child");
    let mut other = receipt("evaluation-2", "parent", "someone", 4);
    assert_eq!(
        refusal(assess(&other)),
        ExecuteError::Rejected(text("selection evidence does not match the proposed child"))
    );
    other = receipt("evaluation-2", "parent", "child", 9);
    assert_eq!(refusal(assess(&other)), ExecuteError::Internal);
    held.push(RecordedEvent {
        event: stored(6, "forge-assessment:assessment-1:recorded", "forge:proposal-1", "forge.assessed"),
        payload: EventPayload::ForgeAssessment(payload, b"{}".to_vec()),
    });
    assert_eq!(check_assessment(&held, &registry, 4, &Some(verified())), Ok(()));
    assert_eq!(
        check_assessment(&held, &registry, 4, &None),
        Err(ControlError::Projection(text("Forge assessment evidence is invalid")))
    );
    let selections = vec![None, None, None, None, Some(verified())];
    let mut cache = EvidenceCache::new();
    assert_eq!(
        verify_forge_assessment_history_with(&held, &registry, &selections, &mut cache),
        Ok(())
    );
    assert_eq!(existing_assessment(&held, "assessment-1", "proposal-1", "selection-2"), Ok(Some(4)));
    assert!(matches!(
        assess_genome(
            false, true, &held, &registry, "assessment-1", "proposal-1", "selection-2", None,
        ),
        Ok(Assessing::Existing(4))
    ));
    assert_eq!(existing_assessment(&held, "assessment-2", "proposal-1", "selection-2"), Ok(None));
    assert_eq!(
        existing_assessment(&held, "assessment-1", "proposal-2", "selection-2"),
        Err(ExecuteError::Rejected(text(
            "assessment_id is already bound to different assessment content"
        )))
    );
}

#[test]
fn remembered_events_stand_for_their_hash() {
    let mut cache = EvidenceCache::new();
    let event = stored(3, "e", "a", "t");
    assert!(!cache.contains("kind", &event));
    cache.insert("kind", &event);
    assert!(cache.contains("kind", &event));
    assert!(!cache.contains("other", &event));
    let mut changed = stored(3, "e", "a", "t");
    changed.hash = [9; 32];
    assert!(!cache.contains("kind", &changed));
    assert_eq!(EvidenceCache::event_key("kind", &event), format!("kind:e:{}", "03".repeat(32)));
    assert_eq!(
        arena_record_cache_key("e", b"canonical"),
        format!("arena_record:e:{}", blake3::hash(b"canonical").to_hex())
    );
}

#[test]
fn a_proposal_command_names_its_source() {
    let command = |hypothesis: Option<&str>, analysis_id: Option<&str>, cluster_index| {
        Command::GenomePropose {
            proposal_id: text("proposal-1"),
            selection_event_id: text("selection-1"),
            parent_genome_id: text("parent"),
            hypothesis: hypothesis.map(text),
            analysis_id: analysis_id.map(text),
            cluster_index,
        }
    };
    assert_eq!(
        propose_genome_command(command(Some("uppercase the output"), None, None)),
        Ok(request(operator()))
    );
    assert_eq!(
        propose_genome_command(command(None, Some("a"), Some(4))),
        Ok(request(HypothesisSource::Analysis { analysis_id: text("a"), cluster_index: 4 }))
    );
    assert_eq!(propose_genome_command(Command::Status), Err(ExecuteError::Internal));
}

#[test]
fn a_child_is_what_its_source_compiles_to() {
    let source = Ok(text("{}"));
    let child = parent();
    let compiled = |genome_id: &str, canonical_json: Vec<u8>| {
        Some(CompiledChild { genome_id: text(genome_id), canonical_json })
    };
    let same = compiled(child.record.genome_id.as_str(), child.canonical_json.clone());
    assert_eq!(verify_sourced_child(&source, &child, &same), Ok(()));
    let renamed = compiled("another", child.canonical_json.clone());
    assert!(matches!(
        verify_sourced_child(&source, &child, &renamed),
        Err(ControlError::Projection(_))
    ));
    let changed = compiled(child.record.genome_id.as_str(), vec![0]);
    assert!(verify_sourced_child(&source, &child, &changed).is_err());
    assert!(verify_sourced_child(&source, &child, &None).is_err());
    assert_eq!(
        verify_sourced_child(&Err(EditFault::NotJson), &child, &same),
        Err(ControlError::Serialization)
    );
    assert_eq!(
        verify_sourced_child(&Err(EditFault::NotObject), &child, &same),
        Err(ControlError::Protocol("Forge parent Genome is invalid"))
    );
    assert_eq!(
        verify_sourced_child(&Err(EditFault::NoNested), &child, &same),
        Err(ControlError::Protocol("Forge parent artifacts are invalid"))
    );
}
