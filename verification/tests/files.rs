use hephaestus_control::environment::{
    accept_worker_digest, executable_digest, paired_revision, require_worker_digest, resolve_source_revision,
    verify_pinned_worker, ResultRevision, RevisionReply,
};
use hephaestus_control::error::{ControlError, ExecuteError};
use hephaestus_control::files::{
    anchored_world_verifier, check_signed_fields, data_dir_choice, genome_source, open_with_backends, prepare_private_directory,
    prepare_private_file, prepare_producer_key, prepare_token_file, producer_seed,
    protected_evaluator_names, protected_runtime_names, provider_env_allowlist, read_bounded_file,
    read_source_text, reject_legacy_run_result_history, remove_stale_socket, require_producer_key,
    default_executable, resolve_provider_extra_env, source_format, timestamp_millis,
    validate_source_repository,
    AnchoredKey, Companion, DataDir, FileFacts, GenomeSource, PathKind, PathStep, SourceFormat,
};
use hephaestus_control::ids::paired_run_prefix;
use hephaestus_control::records::StoredEvent;
use hephaestus_control::runs::{MAX_ARTIFACT_FILE_BYTES, MAX_SOURCE_FILE_BYTES};
use hephaestus_control::state::{EventPayload, RecordedEvent};

fn text(value: &str) -> String {
    value.to_owned()
}

fn run_result(payload: &str) -> RecordedEvent {
    RecordedEvent {
        event: StoredEvent {
            sequence: 1,
            event_id: text("result:r"),
            aggregate_id: text("run:r"),
            event_type: text("run.result_recorded"),
            actor: text("daemon-runtime"),
            timestamp_millis: 0,
            payload: payload.as_bytes().to_vec(),
            hash: [0; 32],
        },
        payload: EventPayload::Opaque,
    }
}

fn key(byte: u8) -> AnchoredKey {
    AnchoredKey { bytes: Some(vec![byte; 32]), public_key: true }
}

#[test]
fn formats_follow_the_extension() {
    assert_eq!(source_format(Some("json")), Ok(SourceFormat::Json));
    assert_eq!(source_format(Some("yaml")), Ok(SourceFormat::Yaml));
    assert_eq!(source_format(Some("yml")), Ok(SourceFormat::Yaml));
    let refused = ExecuteError::Invalid("source path must end in .json, .yaml, or .yml");
    assert_eq!(source_format(Some("md")).as_ref(), Err(&refused));
    assert_eq!(source_format(None).as_ref(), Err(&refused));
    assert_eq!(genome_source(Some("md")), Ok(GenomeSource::Markdown));
    assert_eq!(genome_source(Some("yml")), Ok(GenomeSource::Format(SourceFormat::Yaml)));
    assert_eq!(genome_source(Some("txt")).as_ref(), Err(&refused));
}

#[test]
fn files_are_regular_and_bounded() {
    let facts = |regular, length| Some(FileFacts { regular, length });
    assert_eq!(read_bounded_file(true, facts(true, 10), 10), Ok(()));
    assert_eq!(
        read_bounded_file(false, None, 10),
        Err(ExecuteError::Invalid("path must be absolute"))
    );
    assert_eq!(
        read_bounded_file(true, None, 10),
        Err(ExecuteError::Invalid("file is not readable"))
    );
    assert_eq!(
        read_bounded_file(true, facts(false, 11), 10),
        Err(ExecuteError::Invalid("path is not a regular file"))
    );
    assert_eq!(
        read_bounded_file(true, facts(true, 11), 10),
        Err(ExecuteError::Invalid("file exceeds the size limit"))
    );
    assert_eq!(read_source_text(Some(b"name: w".to_vec())), Ok(text("name: w")));
    assert_eq!(
        read_source_text(Some(vec![0xff])),
        Err(ExecuteError::Invalid("source file is not UTF-8 text"))
    );
    assert_eq!(read_source_text(None), Err(ExecuteError::Invalid("file is not readable")));
}

#[test]
fn unsafe_paths_are_refused() {
    let file = PathKind::File { mode: 0o600 };
    assert_eq!(prepare_private_directory(PathKind::Missing), Ok(PathStep::Create));
    assert_eq!(prepare_private_directory(PathKind::Directory), Ok(PathStep::Keep));
    assert_eq!(
        prepare_private_directory(PathKind::Symlink),
        Err(ControlError::Protocol("data path cannot be a symlink"))
    );
    assert_eq!(
        prepare_private_directory(file),
        Err(ControlError::Protocol("data path is not a directory"))
    );
    assert_eq!(prepare_private_file(file), Ok(PathStep::Keep));
    assert_eq!(
        prepare_private_file(PathKind::Symlink),
        Err(ControlError::Protocol("canonical file path is unsafe"))
    );
    assert_eq!(prepare_token_file(PathKind::Missing), Ok(PathStep::Create));
    assert_eq!(
        prepare_token_file(PathKind::Directory),
        Err(ControlError::Protocol("operator token path is unsafe"))
    );
    assert_eq!(remove_stale_socket(PathKind::Socket), Ok(PathStep::Remove));
    assert_eq!(remove_stale_socket(PathKind::Missing), Ok(PathStep::Keep));
    assert_eq!(
        remove_stale_socket(file),
        Err(ControlError::Protocol("control socket path is unsafe"))
    );
}

#[test]
fn a_producer_key_is_private_and_created_only_at_first() {
    assert_eq!(prepare_producer_key(PathKind::File { mode: 0o100600 }, false), Ok(PathStep::Keep));
    assert_eq!(
        prepare_producer_key(PathKind::File { mode: 0o100640 }, true),
        Err(ControlError::Protocol("runtime producer key permissions are unsafe"))
    );
    assert_eq!(prepare_producer_key(PathKind::Missing, true), Ok(PathStep::Create));
    assert_eq!(
        prepare_producer_key(PathKind::Missing, false),
        Err(ControlError::Protocol(
            "runtime producer key is missing for canonical results or a registered World verifier"
        ))
    );
    assert_eq!(
        prepare_producer_key(PathKind::Other, true),
        Err(ControlError::Protocol("runtime producer key path is unsafe"))
    );
    assert_eq!(producer_seed(&vec![3; 32]), Ok([3; 32]));
    assert_eq!(
        producer_seed(&vec![3; 31]),
        Err(ControlError::Protocol("runtime producer key is malformed"))
    );
}

#[test]
fn a_source_repository_is_a_worktree() {
    assert_eq!(validate_source_repository(true, Some(b"true\n")), Ok(()));
    assert_eq!(
        validate_source_repository(false, Some(b"true\n")),
        Err(ControlError::Protocol("source repository is not a directory"))
    );
    for reply in [Some(&b"false\n"[..]), Some(&b"true"[..]), None] {
        assert_eq!(
            validate_source_repository(true, reply),
            Err(ControlError::Protocol("source repository is not a Git worktree"))
        );
    }
}

#[test]
fn timestamps_fit() {
    assert_eq!(timestamp_millis(Some(12)), Ok(12));
    assert_eq!(timestamp_millis(Some(i64::MAX as u128)), Ok(i64::MAX));
    assert_eq!(
        timestamp_millis(Some(i64::MAX as u128 + 1)),
        Err(ControlError::Protocol("timestamp exceeds i64"))
    );
    assert_eq!(
        timestamp_millis(None),
        Err(ControlError::Protocol("system clock precedes Unix epoch"))
    );
}

#[test]
fn allowlists_are_split_at_commas() {
    assert_eq!(provider_env_allowlist(" A, B ,,C,\t,"), ["A", "B", "C"]);
    assert!(provider_env_allowlist("").is_empty());
    assert_eq!(provider_env_allowlist("ONE"), ["ONE"]);
}

#[test]
fn canonical_files_are_protected() {
    assert_eq!(
        protected_runtime_names(),
        ["events.sqlite3", "blobs", "operator.token", "runtime-producer.key"]
    );
    assert_eq!(protected_evaluator_names()[4], "sandboxes");
}

#[test]
fn a_signed_result_has_three_fields() {
    assert_eq!(check_signed_fields(Some(true), Some(true), Some(true)), Ok(()));
    let missing: [[bool; 3]; 3] =
        [[false, true, true], [true, false, true], [true, true, false]];
    for [claims, key, signature] in missing {
        assert!(matches!(
            check_signed_fields(Some(claims), Some(key), Some(signature)),
            Err(ControlError::Protocol(_))
        ));
    }
    assert_eq!(
        check_signed_fields(Some(true), None, Some(true)),
        Err(ControlError::Serialization)
    );
}

#[test]
fn a_worker_keeps_its_digest() {
    assert!(matches!(accept_worker_digest(text("d"), "d"), Ok(found) if found == "d"));
    assert!(matches!(
        accept_worker_digest(text("d"), "e"),
        Err(ExecuteError::Rejected(message))
            if message == "reference worker identity changed after daemon startup"
    ));
}

#[test]
fn unsigned_results_are_refused() {
    let signed = r#"{"claims": {}, "producer_key_id": "k", "signature": "s"}"#;
    assert_eq!(reject_legacy_run_result_history(&vec![run_result(signed)]), Ok(()));
    assert_eq!(
        reject_legacy_run_result_history(&vec![run_result(signed), run_result(r#"{"claims": {}}"#)]),
        Err(ControlError::Protocol(
            "legacy unsigned run-result history is incompatible; back up the data directory and reinitialize it before this release"
        ))
    );
    assert_eq!(
        reject_legacy_run_result_history(&vec![run_result("no")]),
        Err(ControlError::Serialization)
    );
    let mut other = run_result("no");
    other.event.event_type = text("trace.recorded");
    assert_eq!(reject_legacy_run_result_history(&vec![other]), Ok(()));
}

#[test]
fn worlds_anchor_one_verifier() {
    assert_eq!(anchored_world_verifier(&Vec::new()), Ok(None));
    assert_eq!(anchored_world_verifier(&vec![key(1), key(1)]), Ok(Some(1)));
    assert_eq!(
        anchored_world_verifier(&vec![key(1), key(2)]),
        Err(ControlError::Projection(text("registered Worlds anchor different runtime verifiers")))
    );
    let short = AnchoredKey { bytes: Some(vec![1; 31]), public_key: true };
    assert_eq!(
        anchored_world_verifier(&vec![short]),
        Err(ControlError::Projection(text("World runtime verifier is not an Ed25519 key")))
    );
    let missing = AnchoredKey { bytes: None, public_key: false };
    assert_eq!(anchored_world_verifier(&vec![missing]), Err(ControlError::Artifact));
    assert_eq!(require_producer_key(Some(&[1; 32]), &[1; 32]), Ok(()));
    assert_eq!(require_producer_key(None, &[1; 32]), Ok(()));
    assert_eq!(
        require_producer_key(Some(&[2; 32]), &[1; 32]),
        Err(ControlError::Protocol("runtime producer key does not match registered World verifier"))
    );
}

#[test]
fn opening_reports_the_first_fault() {
    let signed = || run_result(r#"{"claims": {}, "producer_key_id": "k", "signature": "s"}"#);
    let opening = open_with_backends(&Vec::new(), Ok(()), Ok(()), &Vec::new()).ok().expect("an opening");
    assert!(opening.allow_create);
    let opening =
        open_with_backends(&vec![signed()], Ok(()), Ok(()), &Vec::new()).ok().expect("an opening");
    assert!(!opening.allow_create);
    let opening =
        open_with_backends(&Vec::new(), Ok(()), Ok(()), &vec![key(4)]).ok().expect("an opening");
    assert_eq!((opening.anchor, opening.allow_create), (Some(0), false));
    assert_eq!(
        open_with_backends(
            &vec![run_result("no")],
            Err(ControlError::Artifact),
            Ok(()),
            &vec![key(1), key(2)],
        )
        .err(),
        Some(ControlError::Serialization)
    );
    assert_eq!(
        open_with_backends(
            &vec![signed()],
            Err(ControlError::Artifact),
            Err(ControlError::Serialization),
            &Vec::new(),
        )
        .err(),
        Some(ControlError::Artifact)
    );
}

#[test]
fn revisions_are_commits() {
    let reply = |success, stdout: &str| RevisionReply { success, stdout: stdout.as_bytes().to_vec() };
    let commit = "ABCDEF0123456789abcdef0123456789abcdef01";
    assert_eq!(
        resolve_source_revision(reply(true, &format!(" {commit}\n"))),
        Ok(commit.to_ascii_lowercase())
    );
    assert_eq!(resolve_source_revision(reply(false, commit)), Err(ExecuteError::Internal));
    assert_eq!(resolve_source_revision(reply(true, "abc\n")), Err(ExecuteError::Internal));
}

#[test]
fn earlier_results_pin_the_revision() {
    let prefix = paired_run_prefix("e");
    let pinned = |event_id: String, source_revision: Option<&str>| ResultRevision {
        event_type: text("run.result_recorded"),
        event_id,
        source_revision: source_revision.map(text),
    };
    assert_eq!(paired_revision("e", &Vec::new()), Ok(None));
    let own = format!("result:{prefix}-parent-0");
    let events = vec![
        pinned(text("result:other"), Some("x")),
        pinned(own.clone(), Some("r1")),
        pinned(format!("result:{prefix}-parent-1"), Some("r1")),
    ];
    assert_eq!(paired_revision("e", &events), Ok(Some(text("r1"))));
    let events = vec![pinned(own.clone(), Some("r1")), pinned(own.clone(), Some("r2"))];
    assert_eq!(paired_revision("e", &events), Err(ExecuteError::Internal));
    assert_eq!(paired_revision("e", &vec![pinned(own, None)]), Err(ExecuteError::Internal));
}

#[test]
fn workers_keep_their_identity() {
    let digest = blake3::hash(b"worker").to_hex().to_string();
    assert_eq!(require_worker_digest(b"worker", &digest), Ok(digest.clone()));
    assert_eq!(
        require_worker_digest(b"other", &digest),
        Err(ExecuteError::Rejected(text("reference worker identity changed after daemon startup")))
    );
    assert_eq!(verify_pinned_worker(true, Some(&digest), &digest), Ok(()));
    assert_eq!(
        verify_pinned_worker(false, Some(&digest), &digest),
        Err(ExecuteError::Rejected(text("pinned reference worker escaped its private directory")))
    );
    assert_eq!(verify_pinned_worker(true, None, &digest), Err(ExecuteError::Internal));
    assert_eq!(
        verify_pinned_worker(true, Some("x"), &digest),
        Err(ExecuteError::Rejected(text(
            "pinned reference worker identity changed during execution"
        )))
    );
    assert_eq!(executable_digest(true, 0o755, b"worker"), Ok(digest));
    assert_eq!(
        executable_digest(true, 0o644, b"worker"),
        Err(ControlError::Protocol("reference worker must be an executable regular file"))
    );
}

#[test]
fn allowed_names_without_a_value_are_left_out() {
    let names = vec![text("A"), text("B"), text("C")];
    let values = vec![Some(text("1")), None, Some(text("3"))];
    assert_eq!(
        resolve_provider_extra_env(&names, &values),
        vec![(text("A"), text("1")), (text("C"), text("3"))]
    );
}

#[test]
fn companions_stand_beside_the_daemon_or_above() {
    assert_eq!(default_executable(true, true, Some(true)), Ok(Companion::Beside));
    assert_eq!(default_executable(true, false, Some(true)), Ok(Companion::Above));
    assert_eq!(default_executable(true, false, Some(false)), Ok(Companion::Beside));
    assert_eq!(default_executable(true, false, None), Ok(Companion::Beside));
    assert_eq!(
        default_executable(false, true, None),
        Err(ControlError::Protocol("daemon executable has no directory"))
    );
}

#[test]
fn the_data_directory_is_the_named_one_or_in_the_home() {
    assert_eq!(data_dir_choice(true, true), Ok(DataDir::Explicit));
    assert_eq!(data_dir_choice(true, false), Ok(DataDir::Explicit));
    assert_eq!(data_dir_choice(false, true), Ok(DataDir::UnderHome));
    assert_eq!(
        data_dir_choice(false, false),
        Err(ControlError::Protocol("no data directory configured"))
    );
}

#[test]
fn artifacts_may_be_larger_than_sources() {
    let facts = |length| Some(FileFacts { regular: true, length });
    assert_eq!(MAX_ARTIFACT_FILE_BYTES, 64 * 1024 * 1024);
    let limit = MAX_ARTIFACT_FILE_BYTES;
    assert_eq!(read_bounded_file(true, facts(limit), limit), Ok(()));
    assert_eq!(
        read_bounded_file(true, facts(limit + 1), limit),
        Err(ExecuteError::Invalid("file exceeds the size limit"))
    );
    assert!(read_bounded_file(true, facts(limit), MAX_SOURCE_FILE_BYTES).is_err());
}
