//! Execution-environment identities and source revisions.

use crate::arena_jobs;
use crate::digest;
use crate::error;
use crate::error::{rejected, ExecuteError, Refusal};
use crate::hex;
use crate::ids;
use crate::jobs;
use crate::text;
use vstd::prelude::*;
use vstd::string::*;
use vstd::utf8::*;

verus! {

/// What the daemon itself is built from and runs on.
pub struct Platform {
    /// Version of the daemon.
    pub version: String,
    /// Schema version of the run-result receipts.
    pub receipt_schema: u16,
    /// Operating system.
    pub os: String,
    /// Processor architecture.
    pub arch: String,
}

/// The identity of a runtime of a given name on a platform.
pub open spec fn runtime_identity(name: Seq<char>, platform: Platform) -> Seq<char> {
    name + "-v1.runtime-"@ + platform.version@ + ".receipt-schema-"@ + text::decimal(
        platform.receipt_schema as nat,
    ) + "."@ + platform.os@ + "."@ + platform.arch@ + ".isolation-private-worktree-v1.backend-git"@
}

/// Names a runtime on a platform.
fn runtime_identity_text(name: &str, platform: &Platform) -> (result: String)
    ensures
        result@ == runtime_identity(name@, *platform),
{
    let mut id: String = ids::wrap(name, "-v1.runtime-", platform.version.as_str());
    id.append(".receipt-schema-");
    id.append(text::decimal_text(platform.receipt_schema as u64).as_str());
    id.append(".");
    id.append(platform.os.as_str());
    id.append(".");
    id.append(platform.arch.as_str());
    id.append(".isolation-private-worktree-v1.backend-git");
    id
}

/// Names the environment of a synchronous run under an external provider.
pub fn provider_execution_environment(name: &str, platform: &Platform) -> (result: String)
    ensures
        result@ == runtime_identity(name@, *platform),
{
    runtime_identity_text(name, platform)
}

/// Names the environment of the deterministic runtime.
pub fn reference_environment_id(platform: &Platform) -> (result: String)
    ensures
        result@ == runtime_identity("deterministic"@, *platform),
{
    runtime_identity_text("deterministic", platform)
}

/// The environment of a pinned reference worker.
pub open spec fn reference_environment(platform: Platform, worker_digest: Seq<char>) -> Seq<char> {
    jobs::REFERENCE_ENVIRONMENT@ + hex::hex(
        digest::blake3_hash(
            encode_utf8(
                runtime_identity("deterministic"@, platform) + "|reference-instruction-language-v1|"@
                    + worker_digest,
            ),
        ),
    )
}

/// Names the environment of a pinned reference worker by the digest over the runtime, the
/// instruction language and the worker.
pub fn reference_execution_environment(platform: &Platform, worker_digest: &str) -> (result: String)
    ensures
        result@ == reference_environment(*platform, worker_digest@),
{
    let identity: String = ids::wrap(
        reference_environment_id(platform).as_str(),
        "|reference-instruction-language-v1|",
        worker_digest,
    );
    let mut id: String = jobs::REFERENCE_ENVIRONMENT.to_owned();
    id.append(digest::blake3_hex(identity.as_str().as_bytes()).as_str());
    id
}

/// The environment of an external provider's executable.
pub open spec fn provider_job_environment_of(
    name: Seq<char>,
    platform: Platform,
    executable_digest: Seq<char>,
) -> Seq<char> {
    jobs::PROVIDER_ENVIRONMENT@ + hex::hex(
        digest::blake3_hash(
            encode_utf8(
                runtime_identity(name, platform) + "|provider-instruction-language-v1|exe-"@
                    + executable_digest,
            ),
        ),
    )
}

/// Names the environment of an external provider by the digest over the runtime, the
/// instruction language and the executable.
pub fn provider_job_environment(name: &str, platform: &Platform, executable_digest: &str) -> (result: String)
    ensures
        result@ == provider_job_environment_of(name@, *platform, executable_digest@),
{
    let identity: String = ids::wrap(
        runtime_identity_text(name, platform).as_str(),
        "|provider-instruction-language-v1|exe-",
        executable_digest,
    );
    let mut id: String = jobs::PROVIDER_ENVIRONMENT.to_owned();
    id.append(digest::blake3_hex(identity.as_str().as_bytes()).as_str());
    id
}

/// Both kinds of environment identity carry a content address after their version, and
/// neither can be taken for the other.
pub proof fn environments_are_told_apart(
    name: Seq<char>,
    platform: Platform,
    worker_digest: Seq<char>,
    executable_digest: Seq<char>,
)
    ensures
        !jobs::provider_environment(reference_environment(platform, worker_digest)),
        jobs::provider_environment(provider_job_environment_of(name, platform, executable_digest)),
        reference_environment(platform, worker_digest) != provider_job_environment_of(
            name,
            platform,
            executable_digest,
        ),
{
    reveal_strlit("reference-v1.");
    reveal_strlit("provider-v1.");
    let reference = reference_environment(platform, worker_digest);
    let provider = provider_job_environment_of(name, platform, executable_digest);
    assert(reference.take(13) =~= "reference-v1."@);
    assert(provider.take(12) =~= "provider-v1."@);
    assert(provider[0] == 'p');
    assert(reference[0] == 'r');
    if text::begins_with(provider, "reference-v1."@) {
        assert(provider.take(13)[0] == 'p');
    }
}

/// What Git printed when asked for the commit of the source repository.
pub struct RevisionReply {
    /// Whether Git succeeded.
    pub success: bool,
    /// What it printed.
    pub stdout: Vec<u8>,
}

/// Whether a reply names a commit, and `commit` is that commit in lower case.
pub open spec fn names_commit(reply: RevisionReply, commit: Seq<char>) -> bool {
    &&& reply.success
    &&& valid_utf8(reply.stdout@)
    &&& exists|inner: Seq<char>| #[trigger]
        text::trimmed(decode_utf8(reply.stdout@), inner) && arena_jobs::revision(inner) && commit
            == Seq::new(inner.len(), |i: int| text::lower(inner[i]))
}

/// White space at the ends can be removed in only one way.
proof fn trimming_is_unique(text: Seq<char>, a: Seq<char>, b: Seq<char>)
    requires
        text::trimmed(text, a),
        text::trimmed(text, b),
    ensures
        a == b,
{
    let (fa, ta) = choose|from: int, to: int|
        #![trigger text.subrange(from, to)]
        {
            &&& 0 <= from <= to <= text.len()
            &&& a == text.subrange(from, to)
            &&& text::blank(text.take(from))
            &&& text::blank(text.skip(to))
            &&& from < to ==> !text::white_space(text[from]) && !text::white_space(text[to - 1])
        };
    let (fb, tb) = choose|from: int, to: int|
        #![trigger text.subrange(from, to)]
        {
            &&& 0 <= from <= to <= text.len()
            &&& b == text.subrange(from, to)
            &&& text::blank(text.take(from))
            &&& text::blank(text.skip(to))
            &&& from < to ==> !text::white_space(text[from]) && !text::white_space(text[to - 1])
        };
    if fa < ta {
        kept_range_is_covered(text, fa, ta, fb, tb);
        assert(fb < tb);
        kept_range_is_covered(text, fb, tb, fa, ta);
        assert(a == b);
    } else if fb < tb {
        kept_range_is_covered(text, fb, tb, fa, ta);
        assert(false);
    } else {
        assert(a =~= b);
    }
}

/// What one way of trimming keeps, every other way keeps too.
proof fn kept_range_is_covered(text: Seq<char>, from: int, to: int, other_from: int, other_to: int)
    requires
        0 <= from < to <= text.len(),
        !text::white_space(text[from]),
        !text::white_space(text[to - 1]),
        0 <= other_from <= other_to <= text.len(),
        text::blank(text.take(other_from)),
        text::blank(text.skip(other_to)),
    ensures
        other_from <= from,
        to <= other_to,
{
    if from < other_from {
        assert(text.take(other_from)[from] == text[from]);
    }
    if other_to < to {
        assert(text.skip(other_to)[to - 1 - other_to] == text[to - 1]);
    }
}

/// Reads the commit of the source repository from Git's reply: 40 or 64 hexadecimal digits,
/// handed out in lower case.
pub fn resolve_source_revision(reply: RevisionReply) -> (result: Result<String, ExecuteError>)
    ensures
        match result {
            Ok(commit) => names_commit(reply, commit@),
            Err(refusal) => refusal == ExecuteError::Internal && forall|commit: Seq<char>|
                !names_commit(reply, commit),
        },
{
    if !reply.success {
        return Err(ExecuteError::Internal);
    }
    let ghost bytes = reply.stdout@;
    let printed: String = match text::decode_text(reply.stdout) {
        Some(printed) => printed,
        None => {
            return Err(ExecuteError::Internal);
        },
    };
    proof {
        encode_utf8_decode_utf8(printed@);
        assert(decode_utf8(bytes) == printed@);
    }
    let inner: String = text::trim(printed.as_str());
    if !arena_jobs::is_revision(inner.as_str()) {
        proof {
            assert forall|commit: Seq<char>| !names_commit(reply, commit) by {
                if names_commit(reply, commit) {
                    let other = choose|other: Seq<char>| #[trigger]
                        text::trimmed(decode_utf8(bytes), other) && arena_jobs::revision(other)
                            && commit == Seq::new(other.len(), |i: int| text::lower(other[i]));
                    trimming_is_unique(printed@, inner@, other);
                }
            }
        }
        return Err(ExecuteError::Internal);
    }
    let commit: String = text::to_ascii_lowercase(inner.as_str());
    proof {
        assert(text::trimmed(decode_utf8(bytes), inner@) && arena_jobs::revision(inner@) && commit@
            == Seq::new(inner@.len(), |i: int| text::lower(inner@[i])));
    }
    Ok(commit)
}

/// One recorded run result, as far as pinning a revision reads it.
pub struct ResultRevision {
    /// Event type.
    pub event_type: String,
    /// Event identity.
    pub event_id: String,
    /// Source revision of the verified result; nothing where the result does not verify.
    pub source_revision: Option<String>,
}

/// Whether an event is a result of the evaluation whose run identities begin with `prefix`.
pub open spec fn result_of(event: ResultRevision, prefix: Seq<char>) -> bool {
    event.event_type@ == "run.result_recorded"@ && text::begins_with(
        event.event_id@,
        "result:"@ + prefix + "-"@,
    )
}

/// The revision that the results among the first `length` events pin: `Err` where one does
/// not verify or two disagree, `Ok(None)` where there is none.
pub open spec fn pinned_by(events: Seq<ResultRevision>, prefix: Seq<char>, length: int) -> Result<
    Option<Seq<char>>,
    (),
>
    decreases length,
{
    if length <= 0 {
        Ok(None)
    } else {
        let event = events[length - 1];
        match pinned_by(events, prefix, length - 1) {
            Err(_) => Err(()),
            Ok(pinned) => if !result_of(event, prefix) {
                Ok(pinned)
            } else {
                match (event.source_revision, pinned) {
                    (None, _) => Err(()),
                    (Some(revision), Some(earlier)) => if earlier == revision@ {
                        Ok(Some(revision@))
                    } else {
                        Err(())
                    },
                    (Some(revision), None) => Ok(Some(revision@)),
                }
            },
        }
    }
}

/// A history with a faulty beginning pins nothing.
proof fn faulty_pin_is_final(events: Seq<ResultRevision>, prefix: Seq<char>, from: int, to: int)
    requires
        0 <= from <= to,
        pinned_by(events, prefix, from) is Err,
    ensures
        pinned_by(events, prefix, to) is Err,
    decreases to - from,
{
    if from < to {
        faulty_pin_is_final(events, prefix, from, to - 1);
    }
}

/// The source revision that earlier results of an evaluation pin. Results that do not
/// verify or that disagree are an internal failure; without results nothing is pinned.
pub fn paired_revision(evaluation_id: &str, events: &Vec<ResultRevision>) -> (result: Result<
    Option<String>,
    ExecuteError,
>)
    ensures
        match pinned_by(events@, ids::paired_prefix(evaluation_id@), events@.len() as int) {
            Ok(None) => result == Ok::<Option<String>, ExecuteError>(None),
            Ok(Some(revision)) => result matches Ok(Some(pinned)) && pinned@ == revision,
            Err(_) => result == Err::<Option<String>, ExecuteError>(ExecuteError::Internal),
        },
{
    let prefix: String = paired_result_prefix(evaluation_id);
    let ghost runs = ids::paired_prefix(evaluation_id@);
    let mut pinned: Option<String> = None;
    for i in 0..events.len()
        invariant
            runs == ids::paired_prefix(evaluation_id@),
            prefix@ == "result:"@ + runs + "-"@,
            match pinned {
                None => pinned_by(events@, runs, i as int) == Ok::<Option<Seq<char>>, ()>(None),
                Some(revision) => pinned_by(events@, runs, i as int) == Ok::<Option<Seq<char>>, ()>(
                    Some(revision@),
                ),
            },
    {
        let event = &events[i];
        if text::text_eq(event.event_type.as_str(), "run.result_recorded") && text::starts_with(
            event.event_id.as_str(),
            prefix.as_str(),
        ) {
            match &event.source_revision {
                None => {
                    proof {
                        faulty_pin_is_final(events@, runs, i + 1, events@.len() as int);
                    }
                    return Err(ExecuteError::Internal);
                },
                Some(revision) => {
                    if let Some(earlier) = &pinned {
                        if !text::text_eq(earlier.as_str(), revision.as_str()) {
                            proof {
                                faulty_pin_is_final(events@, runs, i + 1, events@.len() as int);
                            }
                            return Err(ExecuteError::Internal);
                        }
                    }
                    pinned = Some(revision.clone());
                },
            }
        }
    }
    Ok(pinned)
}

/// What the event identities of an evaluation's results begin with.
fn paired_result_prefix(evaluation_id: &str) -> (result: String)
    ensures
        result@ == "result:"@ + ids::paired_prefix(evaluation_id@) + "-"@,
{
    ids::wrap("result:", ids::paired_run_prefix(evaluation_id).as_str(), "-")
}

/// Accepts the digest of a worker that was read anew: it must be the one taken at startup.
pub fn accept_worker_digest(found: String, expected: &str) -> (result: Result<String, ExecuteError>)
    ensures
        error::outcome(result) == (if found@ == expected@ {
            Ok(found)
        } else {
            Err(Refusal::Rejected("reference worker identity changed after daemon startup"@))
        }),
{
    if !text::text_eq(found.as_str(), expected) {
        return Err(rejected("reference worker identity changed after daemon startup"));
    }
    Ok(found)
}

/// Tests a pinned or freshly read worker against the digest taken at startup.
pub fn require_worker_digest(bytes: &[u8], expected: &str) -> (result: Result<String, ExecuteError>)
    ensures
        match result {
            Ok(found) => found@ == expected@ && found@ == hex::hex(digest::blake3_hash(bytes@)),
            Err(refusal) => expected@ != hex::hex(digest::blake3_hash(bytes@)) && refusal@
                == Refusal::Rejected("reference worker identity changed after daemon startup"@),
        },
{
    accept_worker_digest(digest::blake3_hex(bytes), expected)
}

/// Tests a pinned worker before and after it runs. `inside` says whether it still lies in its
/// private directory; `actual` is its digest now, where it could be taken.
pub fn verify_pinned_worker(inside: bool, actual: Option<&str>, pinned: &str) -> (result: Result<
    (),
    ExecuteError,
>)
    ensures
        error::outcome(result) == (if !inside {
            Err(Refusal::Rejected("pinned reference worker escaped its private directory"@))
        } else {
            match actual {
                None => Err(Refusal::Internal),
                Some(digest) => if digest@ == pinned@ {
                    Ok(())
                } else {
                    Err(
                        Refusal::Rejected("pinned reference worker identity changed during execution"@),
                    )
                },
            }
        }),
{
    if !inside {
        return Err(rejected("pinned reference worker escaped its private directory"));
    }
    match actual {
        None => Err(ExecuteError::Internal),
        Some(digest) => if text::text_eq(digest, pinned) {
            Ok(())
        } else {
            Err(rejected("pinned reference worker identity changed during execution"))
        },
    }
}

/// Takes the digest of an executable regular file. `mode` holds its permission bits.
pub fn executable_digest(regular: bool, mode: u32, bytes: &[u8]) -> (result: Result<
    String,
    crate::error::ControlError,
>)
    ensures
        match result {
            Ok(found) => regular && mode & 0o111 != 0 && found@ == hex::hex(digest::blake3_hash(bytes@)),
            Err(fault) => (!regular || mode & 0o111 == 0) && fault
                == crate::error::ControlError::Protocol(
                "reference worker must be an executable regular file",
            ),
        },
{
    if !regular || mode & 0o111 == 0 {
        return Err(
            crate::error::ControlError::Protocol(
                "reference worker must be an executable regular file",
            ),
        );
    }
    Ok(digest::blake3_hex(bytes))
}

} // verus!
