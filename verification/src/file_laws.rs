//! Which files and keys a daemon accepts, and how identities and texts are written, said of
//! inputs and results alone.

use crate::error::{ControlError, ExecuteError};
use crate::files;
use crate::files::{
    AnchoredKey, Companion, FileFacts, GenomeSource, Opening, PathKind, PathStep, SourceFormat,
};
use crate::hex;
use crate::ids;
use crate::state::RecordedEvent;
use crate::text;
use vstd::prelude::*;
use vstd::utf8::*;

verus! {

/// A source is read in the format that its name ends in.
pub proof fn sources_are_read_by_their_ending(
    extension: Option<&str>,
    world: Result<SourceFormat, ExecuteError>,
    genome: Result<GenomeSource, ExecuteError>,
)
    requires
        call_ensures(files::source_format, (extension,), world),
        call_ensures(files::genome_source, (extension,), genome),
    ensures
        world == Ok::<SourceFormat, ExecuteError>(SourceFormat::Json) <==> extension is Some
            && extension->0@ == "json"@,
        world == Ok::<SourceFormat, ExecuteError>(SourceFormat::Yaml) <==> extension is Some && (
        extension->0@ == "yaml"@ || extension->0@ == "yml"@),
        genome == Ok::<GenomeSource, ExecuteError>(GenomeSource::Markdown) <==> extension is Some
            && extension->0@ == "md"@,
        world matches Ok(format) ==> genome == Ok::<GenomeSource, ExecuteError>(
            GenomeSource::Format(format),
        ),
        genome matches Ok(GenomeSource::Format(format)) ==> world == Ok::<
            SourceFormat,
            ExecuteError,
        >(format),
{
    reveal_strlit("json");
    reveal_strlit("yaml");
    reveal_strlit("yml");
    reveal_strlit("md");
    assert("json"@.len() == 4 && "yaml"@.len() == 4 && "yml"@.len() == 3 && "md"@.len() == 2);
    assert("json"@[0] == 'j' && "yaml"@[0] == 'y');
}

/// A file is read only by an absolute path, where it is a regular one within the limit.
pub proof fn files_are_read_within_their_limit(
    absolute: bool,
    facts: Option<FileFacts>,
    limit: u64,
    result: Result<(), ExecuteError>,
)
    requires
        call_ensures(files::read_bounded_file, (absolute, facts, limit), result),
    ensures
        result is Ok <==> absolute && facts is Some && facts->0.regular && facts->0.length
            <= limit,
{
}

/// A source is the text of its bytes.
pub proof fn sources_are_read_as_stored(
    bytes: Option<Vec<u8>>,
    result: Result<String, ExecuteError>,
)
    requires
        call_ensures(files::read_source_text, (bytes,), result),
    ensures
        result is Ok <==> bytes is Some && valid_utf8(bytes->0@),
        result matches Ok(source) ==> encode_utf8(source@) == bytes->0@,
{
    if result is Ok {
        decode_utf8_encode_utf8(bytes->0@);
    }
}

/// Nothing is followed through a link, nothing that exists is created again, and only a stale
/// socket is removed.
pub proof fn paths_are_prepared_safely(
    kind: PathKind,
    directory: Result<PathStep, ControlError>,
    file: Result<PathStep, ControlError>,
    token: Result<PathStep, ControlError>,
    socket: Result<PathStep, ControlError>,
)
    requires
        call_ensures(files::prepare_private_directory, (kind,), directory),
        call_ensures(files::prepare_private_file, (kind,), file),
        call_ensures(files::prepare_token_file, (kind,), token),
        call_ensures(files::remove_stale_socket, (kind,), socket),
    ensures
        kind is Symlink || kind is Other ==> directory is Err && file is Err && token is Err
            && socket is Err,
        kind is Missing ==> directory == Ok::<PathStep, ControlError>(PathStep::Create) && file
            == Ok::<PathStep, ControlError>(PathStep::Create) && token == Ok::<
            PathStep,
            ControlError,
        >(PathStep::Create) && socket == Ok::<PathStep, ControlError>(PathStep::Keep),
        directory == Ok::<PathStep, ControlError>(PathStep::Keep) <==> kind is Directory,
        file == Ok::<PathStep, ControlError>(PathStep::Keep) <==> kind is File,
        token == Ok::<PathStep, ControlError>(PathStep::Keep) <==> kind is File,
        socket == Ok::<PathStep, ControlError>(PathStep::Remove) <==> kind is Socket,
{
}

/// The producer's key is kept only where nobody else may read it, and created only where it is
/// missing and may be created.
pub proof fn producer_keys_stay_private(
    kind: PathKind,
    allow_create: bool,
    result: Result<PathStep, ControlError>,
)
    requires
        call_ensures(files::prepare_producer_key, (kind, allow_create), result),
    ensures
        result == Ok::<PathStep, ControlError>(PathStep::Create) <==> kind is Missing
            && allow_create,
        result == Ok::<PathStep, ControlError>(PathStep::Keep) <==> kind is File && kind->mode
            & 0o077 == 0,
        result != Ok::<PathStep, ControlError>(PathStep::Remove),
{
}

/// A seed is exactly the stored bytes of the key.
pub proof fn seeds_are_the_stored_bytes(
    bytes: Vec<u8>,
    result: Result<[u8; 32], ControlError>,
)
    requires
        call_ensures(files::producer_seed, (&bytes,), result),
    ensures
        result is Ok <==> bytes@.len() == 32,
        result matches Ok(seed) ==> seed@ == bytes@,
{
}

/// All registered Worlds anchor one verifier, and that is the one found.
pub proof fn worlds_anchor_one_verifier(
    keys: Vec<AnchoredKey>,
    result: Result<Option<usize>, ControlError>,
    place: int,
)
    requires
        call_ensures(files::anchored_world_verifier, (&keys,), result),
        0 <= place < keys@.len(),
        result is Ok,
    ensures
        result->Ok_0 is Some && result->Ok_0->0 < keys@.len(),
        keys@[place].bytes is Some && keys@[result->Ok_0->0 as int].bytes is Some,
        keys@[place].bytes->0@ == keys@[result->Ok_0->0 as int].bytes->0@,
{
    files::anchors_agree(keys@, place);
}

/// The daemon's key is the anchored one, where one is anchored.
pub proof fn daemons_hold_the_anchored_key(
    anchor: Option<&[u8]>,
    public_key: [u8; 32],
    result: Result<(), ControlError>,
)
    requires
        call_ensures(files::require_producer_key, (anchor, &public_key), result),
    ensures
        result is Ok <==> (anchor matches Some(bytes) ==> bytes@ == public_key@),
{
}

/// A key may be created only where no result was signed and no World anchors a verifier.
pub proof fn keys_are_created_before_they_are_needed(
    history: Vec<RecordedEvent>,
    anchored: bool,
    result: bool,
    place: int,
)
    requires
        call_ensures(files::may_create_producer_key, (&history, anchored), result),
    ensures
        result ==> !anchored,
        result && 0 <= place < history@.len() ==> history@[place].event.event_type@
            != "run.result_recorded"@,
        !result && !anchored ==> exists|at: int|
            0 <= at < history@.len() && (#[trigger] history@[at]).event.event_type@
                == "run.result_recorded"@,
{
}

/// A daemon opens only on a registered and verified history, with the one verifier that its
/// Worlds anchor, and may create a key only where none is anchored and nothing was signed.
pub proof fn daemons_open_on_verified_histories(
    history: Vec<RecordedEvent>,
    registered: Result<(), ControlError>,
    verified: Result<(), ControlError>,
    keys: Vec<AnchoredKey>,
    opening: Opening,
    place: int,
)
    requires
        call_ensures(
            files::open_with_backends,
            (&history, registered, verified, &keys),
            Ok::<Opening, ControlError>(opening),
        ),
    ensures
        registered is Ok && verified is Ok,
        opening.allow_create ==> opening.anchor is None,
        opening.allow_create && 0 <= place < history@.len() ==> history@[place].event.event_type@
            != "run.result_recorded"@,
        0 <= place < keys@.len() ==> opening.anchor is Some && keys@[place].bytes is Some
            && keys@[opening.anchor->0 as int].bytes is Some && keys@[place].bytes->0@
            == keys@[opening.anchor->0 as int].bytes->0@,
        keys@.len() == 0 ==> opening.anchor is None,
{
    if 0 <= place < keys@.len() {
        files::anchors_agree(keys@, place);
    }
}

/// A provider gets each allowed variable that is set, under its own name and with its own value,
/// and none that is not.
pub proof fn providers_get_what_is_allowed(
    allowlist: Vec<String>,
    values: Vec<Option<String>>,
    result: Vec<(String, String)>,
    place: int,
)
    requires
        allowlist@.len() == values@.len(),
        call_ensures(files::resolve_provider_extra_env, (&allowlist, &values), result),
        0 <= place < values@.len(),
    ensures
        result@.len() <= values@.len(),
        values@[place] matches Some(value) ==> result@.contains((allowlist@[place], value)),
        (forall|i: int| 0 <= i < values@.len() ==> #[trigger] values@[i] is None) ==> result@.len()
            == 0,
{
    counted_values(values@, values@.len() as int);
    if values@[place] is Some {
        let spot = files::resolved(values@, place) as int;
        assert(result@[spot] == (allowlist@[place], values@[place]->0));
    }
}

/// No more values are counted than there are, and none where none is set.
proof fn counted_values<T>(values: Seq<Option<T>>, length: int)
    requires
        0 <= length <= values.len(),
    ensures
        files::resolved(values, length) <= length,
        (forall|i: int| 0 <= i < values.len() ==> #[trigger] values[i] is None) ==> files::resolved(
            values,
            length,
        ) == 0,
    decreases length,
{
    if length > 0 {
        counted_values(values, length - 1);
    }
}

/// A time is the number of milliseconds since the epoch.
pub proof fn times_count_from_the_epoch(
    since_epoch: Option<u128>,
    result: Result<i64, ControlError>,
)
    requires
        call_ensures(files::timestamp_millis, (since_epoch,), result),
    ensures
        result matches Ok(millis) ==> since_epoch is Some && millis == since_epoch->0,
        since_epoch matches Some(millis) ==> (result is Ok <==> millis
            <= 9_223_372_036_854_775_807),
{
}

/// The executable beside the daemon is preferred to the one above it.
pub proof fn executables_are_looked_for_beside_the_daemon(
    has_directory: bool,
    beside: bool,
    above: Option<bool>,
    result: Result<Companion, ControlError>,
)
    requires
        call_ensures(files::default_executable, (has_directory, beside, above), result),
    ensures
        result is Ok <==> has_directory,
        result is Ok && beside ==> result->Ok_0 is Beside,
        result is Ok && result->Ok_0 is Above ==> above == Some(true) && !beside,
        result is Ok && !beside && above == Some(true) ==> result->Ok_0 is Above,
{
}

/// Bytes are written in hexadecimal with the high nibble first, in lower case.
pub proof fn bytes_are_written_high_nibble_first(bytes: [u8; 32], result: String, place: int)
    requires
        call_ensures(hex::hex_encode, (&bytes,), result),
        0 <= place < 32,
    ensures
        result@.len() == 64,
        ({
            let high = bytes@[place] as int / 16;
            let low = bytes@[place] as int % 16;
            &&& result@[2 * place] as int == (if high < 10 {
                '0' as int + high
            } else {
                'a' as int + high - 10
            })
            &&& result@[2 * place + 1] as int == (if low < 10 {
                '0' as int + low
            } else {
                'a' as int + low - 10
            })
        }),
{
    assert((2 * place) / 2 == place && (2 * place) % 2 == 0);
    assert((2 * place + 1) / 2 == place && (2 * place + 1) % 2 == 1);
}

/// The runs of a pair have names that differ.
pub proof fn trials_have_names_of_their_own(
    evaluation_id: &str,
    parent_count: usize,
    index: usize,
    other: usize,
    run_id: String,
    other_id: String,
)
    requires
        call_ensures(ids::trial_run_id, (evaluation_id, parent_count, index), run_id),
        call_ensures(ids::trial_run_id, (evaluation_id, parent_count, other), other_id),
        index != other,
    ensures
        run_id@ != other_id@,
{
    let prefix = ids::paired_prefix(evaluation_id@);
    let role = if index < parent_count {
        "parent"@
    } else {
        "candidate"@
    };
    let other_role = if other < parent_count {
        "parent"@
    } else {
        "candidate"@
    };
    let number = if index < parent_count {
        index as nat
    } else {
        (index - parent_count) as nat
    };
    let other_number = if other < parent_count {
        other as nat
    } else {
        (other - parent_count) as nat
    };
    if run_id@ == other_id@ {
        reveal_strlit("parent");
        reveal_strlit("candidate");
        reveal_strlit("-");
        assert("parent"@[0] == 'p' && "candidate"@[0] == 'c');
        let at = prefix.len() as int + 1;
        assert(run_id@[at] == role[0]);
        assert(other_id@[at] == other_role[0]);
        assert(role == other_role);
        let start = at + role.len() + 1;
        assert(run_id@.skip(start) =~= text::decimal(number));
        assert(other_id@.skip(start) =~= text::decimal(other_number));
        ids::decimal_is_injective(number, other_number);
    }
}

} // verus!
