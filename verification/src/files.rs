//! What files, paths and keys have to be before the daemon uses them.

use crate::error;
use crate::error::{projection, ControlError, ExecuteError, Fault};
use crate::hex;
use crate::json;
use crate::state::RecordedEvent;
use crate::text;
use vstd::prelude::*;
use vstd::string::*;
use vstd::utf8::*;

verus! {

/// The format of a source.
#[derive(Clone, Copy, Debug, PartialEq, Eq, Structural)]
pub enum SourceFormat {
    /// JSON.
    Json,
    /// YAML.
    Yaml,
}

/// Tells the format of a source from the extension of its path.
pub fn source_format(extension: Option<&str>) -> (result: Result<SourceFormat, ExecuteError>)
    ensures
        result == (if json::said(extension) == Some("json"@) {
            Ok(SourceFormat::Json)
        } else if json::said(extension) == Some("yaml"@) || json::said(extension) == Some("yml"@) {
            Ok(SourceFormat::Yaml)
        } else {
            Err(ExecuteError::Invalid("source path must end in .json, .yaml, or .yml"))
        }),
{
    if let Some(extension) = extension {
        if text::text_eq(extension, "json") {
            return Ok(SourceFormat::Json);
        }
        if text::text_eq(extension, "yaml") || text::text_eq(extension, "yml") {
            return Ok(SourceFormat::Yaml);
        }
    }
    Err(ExecuteError::Invalid("source path must end in .json, .yaml, or .yml"))
}

/// How the source of a Genome is compiled.
#[derive(Clone, Copy, Debug, PartialEq, Eq, Structural)]
pub enum GenomeSource {
    /// As Markdown.
    Markdown,
    /// In a source format.
    Format(SourceFormat),
}

/// Tells how the source of a Genome is compiled from the extension of its path.
pub fn genome_source(extension: Option<&str>) -> (result: Result<GenomeSource, ExecuteError>)
    ensures
        result == (if json::said(extension) == Some("md"@) {
            Ok(GenomeSource::Markdown)
        } else if json::said(extension) == Some("json"@) {
            Ok(GenomeSource::Format(SourceFormat::Json))
        } else if json::said(extension) == Some("yaml"@) || json::said(extension) == Some("yml"@) {
            Ok(GenomeSource::Format(SourceFormat::Yaml))
        } else {
            Err(ExecuteError::Invalid("source path must end in .json, .yaml, or .yml"))
        }),
{
    if let Some(extension) = extension {
        if text::text_eq(extension, "md") {
            return Ok(GenomeSource::Markdown);
        }
    }
    match source_format(extension) {
        Ok(format) => Ok(GenomeSource::Format(format)),
        Err(error) => Err(error),
    }
}

/// What the file system says of a file.
#[derive(Clone, Copy, Debug, PartialEq, Eq, Structural)]
pub struct FileFacts {
    /// Whether it is a regular file.
    pub regular: bool,
    /// How many bytes it has.
    pub length: u64,
}

/// The first rule that a file to read breaks.
pub open spec fn file_fault(absolute: bool, facts: Option<FileFacts>, limit: u64) -> Option<&'static str> {
    if !absolute {
        Some("path must be absolute")
    } else if facts is None {
        Some("file is not readable")
    } else if !facts->0.regular {
        Some("path is not a regular file")
    } else if facts->0.length > limit {
        Some("file exceeds the size limit")
    } else {
        None
    }
}

/// Accepts a file to read: its path is absolute, and it is a regular file within a limit.
pub fn read_bounded_file(absolute: bool, facts: Option<FileFacts>, limit: u64) -> (result: Result<
    (),
    ExecuteError,
>)
    ensures
        result == (match file_fault(absolute, facts, limit) {
            Some(message) => Err(ExecuteError::Invalid(message)),
            None => Ok(()),
        }),
{
    if !absolute {
        return Err(ExecuteError::Invalid("path must be absolute"));
    }
    match facts {
        None => Err(ExecuteError::Invalid("file is not readable")),
        Some(facts) => if !facts.regular {
            Err(ExecuteError::Invalid("path is not a regular file"))
        } else if facts.length > limit {
            Err(ExecuteError::Invalid("file exceeds the size limit"))
        } else {
            Ok(())
        },
    }
}

/// Reads a source as text, from its bytes as far as they could be read.
pub fn read_source_text(bytes: Option<Vec<u8>>) -> (result: Result<String, ExecuteError>)
    ensures
        match bytes {
            None => result == Err::<String, ExecuteError>(
                ExecuteError::Invalid("file is not readable"),
            ),
            Some(bytes) => if valid_utf8(bytes@) {
                result matches Ok(source) && source@ == decode_utf8(bytes@)
            } else {
                result == Err::<String, ExecuteError>(
                    ExecuteError::Invalid("source file is not UTF-8 text"),
                )
            },
        },
{
    match bytes {
        None => Err(ExecuteError::Invalid("file is not readable")),
        Some(bytes) => match text::decode_text(bytes) {
            Some(source) => {
                proof {
                    encode_utf8_decode_utf8(source@);
                }
                Ok(source)
            },
            None => Err(ExecuteError::Invalid("source file is not UTF-8 text")),
        },
    }
}

/// What stands at a path.
#[derive(Clone, Copy, Debug, PartialEq, Eq, Structural)]
pub enum PathKind {
    /// Nothing.
    Missing,
    /// A symbolic link.
    Symlink,
    /// A directory.
    Directory,
    /// A regular file with its permission bits.
    File {
        /// Permission bits.
        mode: u32,
    },
    /// A socket.
    Socket,
    /// Anything else.
    Other,
}

/// What is done before a path is used.
#[derive(Clone, Copy, Debug, PartialEq, Eq, Structural)]
pub enum PathStep {
    /// Nothing.
    Keep,
    /// What belongs there is created.
    Create,
    /// What stands there is removed.
    Remove,
}

/// Decides what is done before a private directory is used.
pub fn prepare_private_directory(kind: PathKind) -> (result: Result<PathStep, ControlError>)
    ensures
        result == (match kind {
            PathKind::Symlink => Err(ControlError::Protocol("data path cannot be a symlink")),
            PathKind::Directory => Ok(PathStep::Keep),
            PathKind::Missing => Ok(PathStep::Create),
            _ => Err(ControlError::Protocol("data path is not a directory")),
        }),
{
    match kind {
        PathKind::Symlink => Err(ControlError::Protocol("data path cannot be a symlink")),
        PathKind::Directory => Ok(PathStep::Keep),
        PathKind::Missing => Ok(PathStep::Create),
        _ => Err(ControlError::Protocol("data path is not a directory")),
    }
}

/// Decides what is done before a private file is used; `fault` tells what is wrong where
/// something other than a regular file stands there.
pub open spec fn file_step(kind: PathKind, fault: &'static str) -> Result<PathStep, ControlError> {
    match kind {
        PathKind::File { .. } => Ok(PathStep::Keep),
        PathKind::Missing => Ok(PathStep::Create),
        _ => Err(ControlError::Protocol(fault)),
    }
}

/// Decides what is done before a canonical file is used.
pub fn prepare_private_file(kind: PathKind) -> (result: Result<PathStep, ControlError>)
    ensures
        result == file_step(kind, "canonical file path is unsafe"),
{
    match kind {
        PathKind::File { .. } => Ok(PathStep::Keep),
        PathKind::Missing => Ok(PathStep::Create),
        _ => Err(ControlError::Protocol("canonical file path is unsafe")),
    }
}

/// Decides what is done before the operator token is read.
pub fn prepare_token_file(kind: PathKind) -> (result: Result<PathStep, ControlError>)
    ensures
        result == file_step(kind, "operator token path is unsafe"),
{
    match kind {
        PathKind::File { .. } => Ok(PathStep::Keep),
        PathKind::Missing => Ok(PathStep::Create),
        _ => Err(ControlError::Protocol("operator token path is unsafe")),
    }
}

/// Decides what is done before the runtime producer key is read. A missing key is created
/// only where nothing was signed or anchored with one.
pub fn prepare_producer_key(kind: PathKind, allow_create: bool) -> (result: Result<
    PathStep,
    ControlError,
>)
    ensures
        result == (match kind {
            PathKind::File { mode } => if mode & 0o077 != 0 {
                Err(ControlError::Protocol("runtime producer key permissions are unsafe"))
            } else {
                Ok(PathStep::Keep)
            },
            PathKind::Missing => if allow_create {
                Ok(PathStep::Create)
            } else {
                Err(
                    ControlError::Protocol(
                        "runtime producer key is missing for canonical results or a registered World verifier",
                    ),
                )
            },
            _ => Err(ControlError::Protocol("runtime producer key path is unsafe")),
        }),
{
    match kind {
        PathKind::File { mode } => if mode & 0o077 != 0 {
            Err(ControlError::Protocol("runtime producer key permissions are unsafe"))
        } else {
            Ok(PathStep::Keep)
        },
        PathKind::Missing => if allow_create {
            Ok(PathStep::Create)
        } else {
            Err(
                ControlError::Protocol(
                    "runtime producer key is missing for canonical results or a registered World verifier",
                ),
            )
        },
        _ => Err(ControlError::Protocol("runtime producer key path is unsafe")),
    }
}

/// Takes the bytes of a producer key as a seed.
pub fn producer_seed(bytes: &Vec<u8>) -> (result: Result<[u8; 32], ControlError>)
    ensures
        match result {
            Ok(seed) => bytes@.len() == 32 && seed@ == bytes@,
            Err(error) => bytes@.len() != 32 && error == ControlError::Protocol(
                "runtime producer key is malformed",
            ),
        },
{
    if bytes.len() != 32 {
        return Err(ControlError::Protocol("runtime producer key is malformed"));
    }
    let mut seed: [u8; 32] = [0;32];
    for i in 0..32
        invariant
            bytes@.len() == 32,
            forall|k: int| 0 <= k < i ==> #[trigger] seed@[k] == bytes@[k],
    {
        seed[i] = bytes[i];
    }
    assert(seed@ == bytes@);
    Ok(seed)
}

/// Decides what is done before a socket is bound.
pub fn remove_stale_socket(kind: PathKind) -> (result: Result<PathStep, ControlError>)
    ensures
        result == (match kind {
            PathKind::Socket => Ok(PathStep::Remove),
            PathKind::Missing => Ok(PathStep::Keep),
            _ => Err(ControlError::Protocol("control socket path is unsafe")),
        }),
{
    match kind {
        PathKind::Socket => Ok(PathStep::Remove),
        PathKind::Missing => Ok(PathStep::Keep),
        _ => Err(ControlError::Protocol("control socket path is unsafe")),
    }
}

/// Accepts a source repository: a directory that Git says is a worktree. `reply` is what Git
/// printed where it succeeded.
pub fn validate_source_repository(directory: bool, reply: Option<&[u8]>) -> (result: Result<
    (),
    ControlError,
>)
    ensures
        result == (if !directory {
            Err(ControlError::Protocol("source repository is not a directory"))
        } else if reply is Some && reply->0@ == encode_utf8("true\n"@) {
            Ok(())
        } else {
            Err(ControlError::Protocol("source repository is not a Git worktree"))
        }),
{
    if !directory {
        return Err(ControlError::Protocol("source repository is not a directory"));
    }
    match reply {
        Some(printed) => if hex::constant_time_equal(printed, "true\n".as_bytes()) {
            Ok(())
        } else {
            Err(ControlError::Protocol("source repository is not a Git worktree"))
        },
        None => Err(ControlError::Protocol("source repository is not a Git worktree")),
    }
}

/// Where the data directory is.
#[derive(Clone, Copy, Debug, PartialEq, Eq, Structural)]
pub enum DataDir {
    /// Where the daemon's own variable says.
    Explicit,
    /// In the user's home.
    UnderHome,
}

/// Chooses the data directory: the one that the daemon's own variable names (`explicit`), else
/// the conventional one in the user's home, where that is known (`user`).
pub fn data_dir_choice(explicit: bool, user: bool) -> (result: Result<DataDir, ControlError>)
    ensures
        result == (if explicit {
            Ok(DataDir::Explicit)
        } else if user {
            Ok(DataDir::UnderHome)
        } else {
            Err(ControlError::Protocol("no data directory configured"))
        }),
{
    if explicit {
        Ok(DataDir::Explicit)
    } else if user {
        Ok(DataDir::UnderHome)
    } else {
        Err(ControlError::Protocol("no data directory configured"))
    }
}

/// Takes the time since the Unix epoch, where the clock is past it, as a timestamp.
pub fn timestamp_millis(since_epoch: Option<u128>) -> (result: Result<i64, ControlError>)
    ensures
        result == (match since_epoch {
            None => Err(ControlError::Protocol("system clock precedes Unix epoch")),
            Some(millis) => if millis <= i64::MAX {
                Ok(millis as i64)
            } else {
                Err(ControlError::Protocol("timestamp exceeds i64"))
            },
        }),
{
    match since_epoch {
        None => Err(ControlError::Protocol("system clock precedes Unix epoch")),
        Some(millis) => if millis <= i64::MAX as u128 {
            Ok(millis as i64)
        } else {
            Err(ControlError::Protocol("timestamp exceeds i64"))
        },
    }
}

/// Lists what of the data directory is kept from a runtime.
pub fn protected_runtime_names() -> (result: Vec<&'static str>)
    ensures
        result@ == seq!["events.sqlite3", "blobs", "operator.token", "runtime-producer.key"],
{
    let mut names: Vec<&'static str> = Vec::new();
    names.push("events.sqlite3");
    names.push("blobs");
    names.push("operator.token");
    names.push("runtime-producer.key");
    names
}

/// Lists what of the data directory is kept from an evaluator: what is kept from a runtime,
/// and the sandboxes.
pub fn protected_evaluator_names() -> (result: Vec<&'static str>)
    ensures
        result@ == seq![
            "events.sqlite3",
            "blobs",
            "operator.token",
            "runtime-producer.key",
            "sandboxes",
        ],
{
    let mut names: Vec<&'static str> = protected_runtime_names();
    names.push("sandboxes");
    names
}

/// The pieces of a text between commas.
pub open spec fn pieces(text: Seq<char>) -> Seq<Seq<char>>
    decreases text.len(),
{
    if text.len() == 0 {
        seq![Seq::empty()]
    } else {
        let earlier = pieces(text.drop_last());
        if text.last() == ',' {
            earlier.push(Seq::empty())
        } else {
            earlier.drop_last().push(earlier.last().push(text.last()))
        }
    }
}

/// Whether some names are the pieces that are not blank, each without the white space at its
/// ends.
pub open spec fn names_pieces(names: Seq<Seq<char>>, parts: Seq<Seq<char>>) -> bool
    decreases parts.len(),
{
    if parts.len() == 0 {
        names.len() == 0
    } else if text::blank(parts.last()) {
        names_pieces(names, parts.drop_last())
    } else {
        names.len() > 0 && text::trimmed(parts.last(), names.last()) && names_pieces(
            names.drop_last(),
            parts.drop_last(),
        )
    }
}

/// Adds the name in one piece.
fn add_name(names: &mut Vec<String>, piece: &str, Ghost(parts): Ghost<Seq<Seq<char>>>)
    requires
        names_pieces(text::texts(old(names)@), parts),
    ensures
        names_pieces(text::texts(final(names)@), parts.push(piece@)),
{
    let ghost before = text::texts(names@);
    let ghost all = parts.push(piece@);
    assert(all.drop_last() == parts);
    if !text::is_blank(piece) {
        let name: String = text::trim(piece);
        let ghost added = name@;
        names.push(name);
        proof {
            let now = text::texts(names@);
            assert(now.drop_last() == before);
            assert(now.last() == added);
        }
    }
}

/// Reads the names of the environment variables that a provider may see.
pub fn provider_env_allowlist(value: &str) -> (result: Vec<String>)
    ensures
        names_pieces(text::texts(result@), pieces(value@)),
{
    let chars: Vec<char> = text::chars_of(value);
    let mut names: Vec<String> = Vec::new();
    let mut piece: String = "".to_owned();
    proof {
        reveal_strlit("");
        assert(pieces(value@.take(0)).drop_last() == Seq::<Seq<char>>::empty());
        assert(text::texts(names@) == Seq::<Seq<char>>::empty());
        assert(piece@ == Seq::<char>::empty());
    }
    for i in 0..chars.len()
        invariant
            chars@ == value@,
            pieces(value@.take(i as int)).len() > 0,
            pieces(value@.take(i as int)).last() == piece@,
            names_pieces(text::texts(names@), pieces(value@.take(i as int)).drop_last()),
    {
        let ghost parts = pieces(value@.take(i as int));
        proof {
            assert(value@.take(i + 1).drop_last() == value@.take(i as int));
            assert(value@.take(i + 1).last() == value@[i as int]);
            assert(parts.drop_last().push(parts.last()) == parts);
        }
        if chars[i] == ',' {
            add_name(&mut names, piece.as_str(), Ghost(parts.drop_last()));
            piece = "".to_owned();
            proof {
                reveal_strlit("");
                assert(piece@ == Seq::<char>::empty());
                assert(parts.push(Seq::<char>::empty()).drop_last() == parts);
            }
        } else {
            piece.push(chars[i]);
            proof {
                assert(pieces(value@.take(i + 1)).drop_last() == parts.drop_last());
            }
        }
    }
    proof {
        let parts = pieces(value@);
        assert(value@.take(value@.len() as int) == value@);
        assert(parts.drop_last().push(parts.last()) == parts);
    }
    add_name(&mut names, piece.as_str(), Ghost(pieces(value@).drop_last()));
    names
}

/// Whether a run result has the fields of a signed one: nothing where it is no JSON.
pub open spec fn signed(payload: Seq<u8>) -> Option<bool> {
    has_all(
        json::json_has(payload, "claims"@),
        json::json_has(payload, "producer_key_id"@),
        json::json_has(payload, "signature"@),
    )
}

/// Whether three fields are there: nothing where one could not be looked up.
pub open spec fn has_all(claims: Option<bool>, key: Option<bool>, signature: Option<bool>) -> Option<bool> {
    match (claims, key, signature) {
        (Some(claims), Some(key), Some(signature)) => Some(claims && key && signature),
        _ => None,
    }
}

/// The fault of a run result, given whether it has the fields of a signed one.
pub open spec fn unsigned_fault(signed: Option<bool>) -> Option<Fault> {
    match signed {
        None => Some(Fault::Serialization),
        Some(signed) => error::need(
            signed,
            Fault::Protocol(
                "legacy unsigned run-result history is incompatible; back up the data directory and reinitialize it before this release"@,
            ),
        ),
    }
}

/// Checks a run result by which fields of a signed one it has.
pub fn check_signed_fields(claims: Option<bool>, key: Option<bool>, signature: Option<bool>) -> (result: Result<
    (),
    ControlError,
>)
    ensures
        error::verdict(result) == error::faulted(unsigned_fault(has_all(claims, key, signature))),
{
    match (claims, key, signature) {
        (Some(claims), Some(key), Some(signature)) => if claims && key && signature {
            Ok(())
        } else {
            Err(
                ControlError::Protocol(
                    "legacy unsigned run-result history is incompatible; back up the data directory and reinitialize it before this release",
                ),
            )
        },
        _ => Err(ControlError::Serialization),
    }
}

/// The first fault of the unsigned run results in a history.
pub open spec fn legacy_fault(history: Seq<RecordedEvent>) -> Option<Fault>
    decreases history.len(),
{
    if history.len() == 0 {
        None
    } else {
        error::first(
            legacy_fault(history.drop_last()),
            if history.last().event.event_type@ == "run.result_recorded"@ {
                unsigned_fault(signed(history.last().event.payload@))
            } else {
                None
            },
        )
    }
}

/// A first fault stays the first.
proof fn legacy_fault_stays(history: Seq<RecordedEvent>, length: int)
    requires
        0 <= length <= history.len(),
        legacy_fault(history.take(length)) is Some,
    ensures
        legacy_fault(history) == legacy_fault(history.take(length)),
    decreases history.len() - length,
{
    if length == history.len() {
        assert(history.take(length) == history);
    } else {
        assert(history.take(length + 1).drop_last() == history.take(length));
        legacy_fault_stays(history, length + 1);
    }
}

/// Checks that a run result has the fields of a signed one.
fn check_signed(payload: &Vec<u8>) -> (result: Result<(), ControlError>)
    ensures
        error::verdict(result) == error::faulted(unsigned_fault(signed(payload@))),
{
    let claims: Option<bool> = json::has_field(payload.as_slice(), "claims");
    let key: Option<bool> = json::has_field(payload.as_slice(), "producer_key_id");
    let signature: Option<bool> = json::has_field(payload.as_slice(), "signature");
    check_signed_fields(claims, key, signature)
}

/// Refuses a history that holds an unsigned run result.
pub fn reject_legacy_run_result_history(history: &Vec<RecordedEvent>) -> (result: Result<
    (),
    ControlError,
>)
    ensures
        error::verdict(result) == error::faulted(legacy_fault(history@)),
{
    for at in 0..history.len()
        invariant
            legacy_fault(history@.take(at as int)) is None,
    {
        proof {
            assert(history@.take(at + 1).drop_last() == history@.take(at as int));
            assert(history@.take(at + 1).last() == history@[at as int]);
            if legacy_fault(history@.take(at + 1)) is Some {
                legacy_fault_stays(history@, at + 1);
            }
        }
        if text::text_eq(history[at].event.event_type.as_str(), "run.result_recorded") {
            if let Err(error) = check_signed(&history[at].event.payload) {
                return Err(error);
            }
        }
    }
    proof {
        assert(history@.take(history@.len() as int) == history@);
    }
    Ok(())
}

/// The runtime verifier that a World anchors.
pub struct AnchoredKey {
    /// Its bytes, where they could be read.
    pub bytes: Option<Vec<u8>>,
    /// Whether they are a public key.
    pub public_key: bool,
}

/// The one runtime verifier that some Worlds anchor.
pub open spec fn anchored(keys: Seq<AnchoredKey>) -> Result<Option<Seq<u8>>, Fault>
    decreases keys.len(),
{
    if keys.len() == 0 {
        Ok(None)
    } else {
        match anchored(keys.drop_last()) {
            Err(fault) => Err(fault),
            Ok(earlier) => match keys.last().bytes {
                None => Err(Fault::Artifact),
                Some(bytes) => if bytes@.len() != 32 || !keys.last().public_key {
                    Err(Fault::Projection("World runtime verifier is not an Ed25519 key"@))
                } else if earlier is Some && earlier->0 != bytes@ {
                    Err(
                        Fault::Projection("registered Worlds anchor different runtime verifiers"@),
                    )
                } else {
                    Ok(Some(bytes@))
                },
            },
        }
    }
}

/// A fault among some Worlds is one among more.
proof fn anchored_fault_stays(keys: Seq<AnchoredKey>, length: int)
    requires
        0 <= length <= keys.len(),
        anchored(keys.take(length)) is Err,
    ensures
        anchored(keys) == anchored(keys.take(length)),
    decreases keys.len() - length,
{
    if length == keys.len() {
        assert(keys.take(length) == keys);
    } else {
        assert(keys.take(length + 1).drop_last() == keys.take(length));
        anchored_fault_stays(keys, length + 1);
    }
}

/// Finds the one runtime verifier that the Worlds which name one anchor, by its place.
pub fn anchored_world_verifier(keys: &Vec<AnchoredKey>) -> (result: Result<
    Option<usize>,
    ControlError,
>)
    ensures
        match result {
            Ok(None) => anchored(keys@) == Ok::<Option<Seq<u8>>, Fault>(None),
            Ok(Some(at)) => at < keys@.len() && keys@[at as int].bytes is Some && anchored(keys@)
                == Ok::<Option<Seq<u8>>, Fault>(Some(keys@[at as int].bytes->0@)),
            Err(error) => anchored(keys@) == Err::<Option<Seq<u8>>, Fault>(error@),
        },
{
    let mut found: Option<usize> = None;
    assert(keys@.take(0) == Seq::<AnchoredKey>::empty());
    for at in 0..keys.len()
        invariant
            match found {
                None => anchored(keys@.take(at as int)) == Ok::<Option<Seq<u8>>, Fault>(None),
                Some(place) => place < at && keys@[place as int].bytes is Some && anchored(
                    keys@.take(at as int),
                ) == Ok::<Option<Seq<u8>>, Fault>(Some(keys@[place as int].bytes->0@)),
            },
    {
        proof {
            assert(keys@.take(at + 1).drop_last() == keys@.take(at as int));
            assert(keys@.take(at + 1).last() == keys@[at as int]);
            if anchored(keys@.take(at + 1)) is Err {
                anchored_fault_stays(keys@, at + 1);
            }
        }
        match &keys[at].bytes {
            None => {
                return Err(ControlError::Artifact);
            },
            Some(bytes) => {
                if bytes.len() != 32 || !keys[at].public_key {
                    return Err(projection("World runtime verifier is not an Ed25519 key"));
                }
                if let Some(place) = found {
                    if let Some(earlier) = &keys[place].bytes {
                        if !hex::constant_time_equal(earlier.as_slice(), bytes.as_slice()) {
                            return Err(
                                projection("registered Worlds anchor different runtime verifiers"),
                            );
                        }
                    }
                }
                found = Some(at);
            },
        }
    }
    proof {
        assert(keys@.take(keys@.len() as int) == keys@);
    }
    Ok(found)
}

/// Every World that anchors a runtime verifier anchors the same one.
pub proof fn anchors_agree(keys: Seq<AnchoredKey>, at: int)
    requires
        anchored(keys) is Ok,
        0 <= at < keys.len(),
    ensures
        keys[at].bytes is Some,
        anchored(keys) == Ok::<Option<Seq<u8>>, Fault>(Some(keys[at].bytes->0@)),
    decreases keys.len(),
{
    if at < keys.len() - 1 {
        anchors_agree(keys.drop_last(), at);
    }
}

/// Accepts the producer key of this daemon: it has to be the anchored verifier, where one is.
pub fn require_producer_key(anchor: Option<&[u8]>, public_key: &[u8; 32]) -> (result: Result<
    (),
    ControlError,
>)
    ensures
        result == (if anchor is Some && anchor->0@ != public_key@ {
            Err(
                ControlError::Protocol(
                    "runtime producer key does not match registered World verifier",
                ),
            )
        } else {
            Ok(())
        }),
{
    if let Some(anchor) = anchor {
        if !hex::constant_time_equal(anchor, public_key.as_slice()) {
            return Err(
                ControlError::Protocol(
                    "runtime producer key does not match registered World verifier",
                ),
            );
        }
    }
    Ok(())
}

/// Whether a history holds a run result.
pub open spec fn holds_results(history: Seq<RecordedEvent>) -> bool {
    exists|at: int|
        0 <= at < history.len() && (#[trigger] history[at]).event.event_type@
            == "run.result_recorded"@
}

/// Tells whether a missing producer key may be created: where no run result is recorded and
/// no World anchors a verifier.
pub fn may_create_producer_key(history: &Vec<RecordedEvent>, anchored: bool) -> (result: bool)
    ensures
        result == (!holds_results(history@) && !anchored),
{
    if anchored {
        return false;
    }
    for at in 0..history.len()
        invariant
            forall|k: int|
                0 <= k < at ==> (#[trigger] history@[k]).event.event_type@
                    != "run.result_recorded"@,
    {
        if text::text_eq(history[at].event.event_type.as_str(), "run.result_recorded") {
            return false;
        }
    }
    true
}

/// What opening a data directory decides from its history.
pub struct Opening {
    /// Place of the runtime verifier that the registered Worlds anchor, where they do.
    pub anchor: Option<usize>,
    /// Whether a missing producer key may be created.
    pub allow_create: bool,
}

/// What opening a data directory finds wrong with its history. `registered` tells whether the
/// registered Worlds and Genomes replay, and `verified` whether the history verifies.
pub open spec fn opening_fault(
    history: Seq<RecordedEvent>,
    registered: Result<(), ControlError>,
    verified: Result<(), ControlError>,
    keys: Seq<AnchoredKey>,
) -> Option<Fault> {
    error::first(
        legacy_fault(history),
        error::first(
            match registered {
                Ok(()) => None,
                Err(error) => Some(error@),
            },
            error::first(
                match verified {
                    Ok(()) => None,
                    Err(error) => Some(error@),
                },
                match anchored(keys) {
                    Ok(_) => None,
                    Err(fault) => Some(fault),
                },
            ),
        ),
    )
}

/// Opens a data directory: no run result may be unsigned, the history has to replay and
/// verify, and the Worlds have to anchor at most one runtime verifier. A missing producer key
/// may be created only where nothing was signed and nothing is anchored.
pub fn open_with_backends(
    history: &Vec<RecordedEvent>,
    registered: Result<(), ControlError>,
    verified: Result<(), ControlError>,
    keys: &Vec<AnchoredKey>,
) -> (result: Result<Opening, ControlError>)
    ensures
        match opening_fault(history@, registered, verified, keys@) {
            Some(fault) => result matches Err(error) && error@ == fault,
            None => result matches Ok(opening) && {
                &&& match opening.anchor {
                    None => anchored(keys@) == Ok::<Option<Seq<u8>>, Fault>(None),
                    Some(at) => at < keys@.len() && keys@[at as int].bytes is Some && anchored(
                        keys@,
                    ) == Ok::<Option<Seq<u8>>, Fault>(Some(keys@[at as int].bytes->0@)),
                }
                &&& opening.allow_create == (!holds_results(history@) && opening.anchor is None)
            },
        },
{
    if let Err(error) = reject_legacy_run_result_history(history) {
        return Err(error);
    }
    if let Err(error) = registered {
        return Err(error);
    }
    if let Err(error) = verified {
        return Err(error);
    }
    match anchored_world_verifier(keys) {
        Err(error) => Err(error),
        Ok(anchor) => {
            let allow_create: bool = may_create_producer_key(history, anchor.is_some());
            Ok(Opening { anchor, allow_create })
        },
    }
}

/// How many of the first `length` names have a value.
pub open spec fn resolved<T>(values: Seq<Option<T>>, length: int) -> nat
    decreases length,
{
    if length <= 0 {
        0
    } else {
        resolved(values, length - 1) + if values[length - 1] is Some {
            1nat
        } else {
            0nat
        }
    }
}

/// Pairs the allowed names that have a value in the environment with it, in the order of the
/// names.
pub fn resolve_provider_extra_env(allowlist: &Vec<String>, values: &Vec<Option<String>>) -> (result: Vec<
    (String, String),
>)
    requires
        allowlist@.len() == values@.len(),
    ensures
        result@.len() == resolved(values@, values@.len() as int),
        forall|i: int|
            0 <= i < values@.len() && (#[trigger] values@[i]) is Some ==> {
                let place = resolved(values@, i) as int;
                place < result@.len() && result@[place] == (allowlist@[i], values@[i]->0)
            },
{
    let mut pairs: Vec<(String, String)> = Vec::new();
    for at in 0..allowlist.len()
        invariant
            allowlist@.len() == values@.len(),
            pairs@.len() == resolved(values@, at as int),
            forall|i: int|
                0 <= i < at && (#[trigger] values@[i]) is Some ==> {
                    let place = resolved(values@, i) as int;
                    place < pairs@.len() && pairs@[place] == (allowlist@[i], values@[i]->0)
                },
    {
        if let Some(value) = &values[at] {
            pairs.push((allowlist[at].clone(), value.clone()));
        }
    }
    pairs
}

/// Where a companion executable of the daemon stands.
#[derive(Clone, Copy, Debug, PartialEq, Eq, Structural)]
pub enum Companion {
    /// Beside the daemon.
    Beside,
    /// In the directory above.
    Above,
}

/// Tells where a companion executable stands: beside the daemon, or above where it is only
/// found there. `above` says whether it exists there, where there is a directory above.
pub fn default_executable(has_directory: bool, beside: bool, above: Option<bool>) -> (result: Result<
    Companion,
    ControlError,
>)
    ensures
        result == (if !has_directory {
            Err(ControlError::Protocol("daemon executable has no directory"))
        } else if !beside && above == Some(true) {
            Ok(Companion::Above)
        } else {
            Ok(Companion::Beside)
        }),
{
    if !has_directory {
        return Err(ControlError::Protocol("daemon executable has no directory"));
    }
    if !beside {
        if let Some(exists) = above {
            if exists {
                return Ok(Companion::Above);
            }
        }
    }
    Ok(Companion::Beside)
}

} // verus!
