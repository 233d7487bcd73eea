//! Identities of events, aggregates, evaluations and runs.

use crate::commands;
use crate::digest;
use crate::text;
use vstd::prelude::*;
use vstd::string::*;

verus! {

/// Puts `middle` between `head` and `tail`.
pub fn wrap(head: &str, middle: &str, tail: &str) -> (result: String)
    ensures
        result@ == head@ + middle@ + tail@,
{
    let mut id: String = head.to_owned();
    id.append(middle);
    id.append(tail);
    id
}

/// Event identity of a Forge assessment.
pub fn forge_assessment_event_id(assessment_id: &str) -> (result: String)
    ensures
        result@ == "forge-assessment:"@ + assessment_id@ + ":recorded"@,
{
    wrap("forge-assessment:", assessment_id, ":recorded")
}

/// Event identity of a Forge proposal.
pub fn forge_event_id(proposal_id: &str) -> (result: String)
    ensures
        result@ == "forge:"@ + proposal_id@ + ":proposed"@,
{
    wrap("forge:", proposal_id, ":proposed")
}

/// Aggregate identity of a Forge proposal and its assessments.
pub fn forge_aggregate_id(proposal_id: &str) -> (result: String)
    ensures
        result@ == "forge:"@ + proposal_id@,
{
    let mut id: String = "forge:".to_owned();
    id.append(proposal_id);
    id
}

/// Every identity that a generation of a run derives, up to its tag.
pub open spec fn generation_id(run_id: Seq<char>, generation_index: nat, tag: Seq<char>) -> Seq<char> {
    "evolve-"@ + run_id + "-g"@ + text::decimal(generation_index) + tag
}

/// Derives one identity of a generation.
fn derive_generation_id(run_id: &str, generation_index: u32, tag: &str) -> (result: String)
    ensures
        result@ == generation_id(run_id@, generation_index as nat, tag@),
{
    let mut id: String = wrap("evolve-", run_id, "-g");
    id.append(text::decimal_text(generation_index as u64).as_str());
    id.append(tag);
    id
}

/// Identity of a generation's diagnostic evaluation.
pub fn evolution_diagnostic_evaluation_id(run_id: &str, generation_index: u32) -> (result: String)
    ensures
        result@ == generation_id(run_id@, generation_index as nat, "-d"@),
{
    derive_generation_id(run_id, generation_index, "-d")
}

/// Identity of a generation's child evaluation.
pub fn evolution_child_evaluation_id(run_id: &str, generation_index: u32) -> (result: String)
    ensures
        result@ == generation_id(run_id@, generation_index as nat, "-c"@),
{
    derive_generation_id(run_id, generation_index, "-c")
}

/// Identity of a generation's proposal.
pub fn evolution_proposal_id(run_id: &str, generation_index: u32) -> (result: String)
    ensures
        result@ == generation_id(run_id@, generation_index as nat, "-p"@),
{
    derive_generation_id(run_id, generation_index, "-p")
}

/// Identity of a generation's assessment.
pub fn evolution_assessment_id(run_id: &str, generation_index: u32) -> (result: String)
    ensures
        result@ == generation_id(run_id@, generation_index as nat, "-a"@),
{
    derive_generation_id(run_id, generation_index, "-a")
}

/// Identity of a generation's promotion.
pub fn evolution_promotion_transition_id(run_id: &str, generation_index: u32) -> (result: String)
    ensures
        result@ == generation_id(run_id@, generation_index as nat, "-x"@),
{
    derive_generation_id(run_id, generation_index, "-x")
}

/// Identity of a generation's failure analysis.
pub fn evolution_analysis_id(run_id: &str, generation_index: u32) -> (result: String)
    ensures
        result@ == generation_id(run_id@, generation_index as nat, "-analysis"@),
{
    derive_generation_id(run_id, generation_index, "-analysis")
}

/// Run identity of a bounded job.
pub open spec fn job_run(job_id: Seq<char>) -> Seq<char> {
    "async-"@ + digest::short_digest(job_id, 32)
}

/// Derives the run identity of a bounded job from the digest of its identity.
pub fn job_run_id(job_id: &str) -> (result: String)
    ensures
        result@ == job_run(job_id@),
{
    let mut id: String = "async-".to_owned();
    id.append(digest::digest_prefix(job_id, 32).as_str());
    id
}

/// Run identity of a remote-worker job.
pub open spec fn remote_job_run(job_id: Seq<char>) -> Seq<char> {
    "remote-"@ + digest::short_digest(job_id, 32)
}

/// Derives the run identity of a remote-worker job from the digest of its identity.
pub fn remote_job_run_id(job_id: &str) -> (result: String)
    ensures
        result@ == remote_job_run(job_id@),
{
    let mut id: String = "remote-".to_owned();
    id.append(digest::digest_prefix(job_id, 32).as_str());
    id
}

/// What the run identities of one paired evaluation begin with.
pub open spec fn paired_prefix(evaluation_id: Seq<char>) -> Seq<char> {
    "paired-"@ + digest::short_digest(evaluation_id, 24)
}

/// Derives what the run identities of one paired evaluation begin with.
pub fn paired_run_prefix(evaluation_id: &str) -> (result: String)
    ensures
        result@ == paired_prefix(evaluation_id@),
{
    let mut id: String = "paired-".to_owned();
    id.append(digest::digest_prefix(evaluation_id, 24).as_str());
    id
}

/// Run identity of one trial of a paired evaluation.
pub open spec fn paired_run(evaluation_id: Seq<char>, role: Seq<char>, index: nat) -> Seq<char> {
    paired_prefix(evaluation_id) + "-"@ + role + "-"@ + text::decimal(index)
}

/// Derives the run identity of one trial of a paired evaluation.
pub fn paired_run_id(evaluation_id: &str, role: &str, index: usize) -> (result: String)
    ensures
        result@ == paired_run(evaluation_id@, role@, index as nat),
{
    let mut id: String = paired_run_prefix(evaluation_id);
    id.append("-");
    id.append(role);
    id.append("-");
    id.append(text::decimal_text(index as u64).as_str());
    id
}

/// The role of trial `index` when the first `parent_count` trials are the parent's.
pub open spec fn trial_run(evaluation_id: Seq<char>, parent_count: int, index: int) -> Seq<char> {
    if index < parent_count {
        paired_run(evaluation_id, "parent"@, index as nat)
    } else {
        paired_run(evaluation_id, "candidate"@, (index - parent_count) as nat)
    }
}

/// Derives the run identity of trial `index`, the parent's trials first.
pub fn trial_run_id(evaluation_id: &str, parent_count: usize, index: usize) -> (result: String)
    ensures
        result@ == trial_run(evaluation_id@, parent_count as int, index as int),
{
    if index < parent_count {
        paired_run_id(evaluation_id, "parent", index)
    } else {
        paired_run_id(evaluation_id, "candidate", index - parent_count)
    }
}

/// Run identity of one lineage of a meta-evaluation.
pub open spec fn meta_lineage_run(meta_run_id: Seq<char>, side: Seq<char>, index: nat) -> Seq<char> {
    "meta-"@ + meta_run_id + side + text::decimal(index)
}

/// Derives the run identity of lineage `index` under strategy A or strategy B.
pub fn meta_lineage_run_id(meta_run_id: &str, strategy_b: bool, index: usize) -> (result: String)
    ensures
        result@ == meta_lineage_run(
            meta_run_id@,
            if strategy_b {
                "-b-"@
            } else {
                "-a-"@
            },
            index as nat,
        ),
{
    let side: &str = if strategy_b {
        "-b-"
    } else {
        "-a-"
    };
    let mut id: String = wrap("meta-", meta_run_id, side);
    id.append(text::decimal_text(index as u64).as_str());
    id
}

/// A decimal numeral is made of digits, and takes at most `k` of them below ten to the `k`.
pub proof fn decimal_digits(n: nat)
    ensures
        text::decimal(n).len() > 0,
        forall|i: int| 0 <= i < text::decimal(n).len() ==> '0' <= #[trigger] text::decimal(n)[i] <= '9',
        n < 10_000_000_000 ==> text::decimal(n).len() <= 10,
    decreases n,
{
    reveal_with_fuel(text::decimal, 11);
    if n >= 10 {
        decimal_digits(n / 10);
    }
}

/// The numeral of a 64-bit number takes at most twenty digits.
pub proof fn decimal_width(n: nat)
    requires
        n <= u64::MAX,
    ensures
        text::decimal(n).len() <= 20,
{
    decimal_digits(n / 10_000_000_000);
    let n1 = n / 10;
    let n2 = n1 / 10;
    let n3 = n2 / 10;
    let n4 = n3 / 10;
    let n5 = n4 / 10;
    let n6 = n5 / 10;
    let n7 = n6 / 10;
    let n8 = n7 / 10;
    let n9 = n8 / 10;
    let n10 = n9 / 10;
    assert(n10 == n / 10_000_000_000);
    assert(text::decimal(n).len() <= text::decimal(n1).len() + 1);
    assert(text::decimal(n1).len() <= text::decimal(n2).len() + 1);
    assert(text::decimal(n2).len() <= text::decimal(n3).len() + 1);
    assert(text::decimal(n3).len() <= text::decimal(n4).len() + 1);
    assert(text::decimal(n4).len() <= text::decimal(n5).len() + 1);
    assert(text::decimal(n5).len() <= text::decimal(n6).len() + 1);
    assert(text::decimal(n6).len() <= text::decimal(n7).len() + 1);
    assert(text::decimal(n7).len() <= text::decimal(n8).len() + 1);
    assert(text::decimal(n8).len() <= text::decimal(n9).len() + 1);
    assert(text::decimal(n9).len() <= text::decimal(n10).len() + 1);
}

/// Different numbers have different numerals.
pub proof fn decimal_is_injective(m: nat, n: nat)
    requires
        text::decimal(m) == text::decimal(n),
    ensures
        m == n,
    decreases m,
{
    let a = text::decimal(m);
    let b = text::decimal(n);
    assert(a.last() == (48 + m % 10) as char);
    assert(b.last() == (48 + n % 10) as char);
    assert(((48 + m % 10) as char) as nat == 48 + m % 10);
    assert(((48 + n % 10) as char) as nat == 48 + n % 10);
    assert(m % 10 == n % 10);
    if m >= 10 && n >= 10 {
        assert(a.drop_last() == text::decimal(m / 10));
        assert(b.drop_last() == text::decimal(n / 10));
        decimal_is_injective(m / 10, n / 10);
    } else if m >= 10 {
        decimal_digits(m / 10);
        assert(a.len() > 1 && b.len() == 1);
    } else if n >= 10 {
        decimal_digits(n / 10);
        assert(b.len() > 1 && a.len() == 1);
    }
}

/// The tags that mark what a generation's identity is for.
pub open spec fn generation_tag(tag: Seq<char>) -> bool {
    tag == "-d"@ || tag == "-c"@ || tag == "-p"@ || tag == "-a"@ || tag == "-x"@ || tag == "-analysis"@
}

/// Every identity that an admitted run derives is itself a job identity, whatever the
/// generation: run identities of at most 100 bytes leave room for all of them.
pub proof fn generation_ids_are_job_identities(run_id: Seq<char>, generation_index: u32, tag: Seq<char>)
    requires
        commands::job_identity(run_id),
        text::byte_len(run_id) <= commands::MAX_EVOLUTION_RUN_ID_BYTES,
        generation_tag(tag),
    ensures
        commands::job_identity(generation_id(run_id, generation_index as nat, tag)),
{
    commands::identity_bytes(run_id);
    decimal_digits(generation_index as nat);
    reveal_strlit("evolve-");
    reveal_strlit("-g");
    reveal_strlit("-d");
    reveal_strlit("-c");
    reveal_strlit("-p");
    reveal_strlit("-a");
    reveal_strlit("-x");
    reveal_strlit("-analysis");
    let number = text::decimal(generation_index as nat);
    let head = "evolve-"@ + run_id;
    let id = generation_id(run_id, generation_index as nat, tag);
    assert forall|i: int| 0 <= i < id.len() implies commands::identity_char(#[trigger] id[i]) by {
        if i < 7 {
            assert(id[i] == "evolve-"@[i]);
        } else if i < head.len() {
            assert(id[i] == run_id[i - 7]);
        } else if i < head.len() + 2 {
            assert(id[i] == "-g"@[i - head.len()]);
        } else if i < head.len() + 2 + number.len() {
            assert(id[i] == number[i - head.len() - 2]);
        } else {
            assert(id[i] == tag[i - head.len() - 2 - number.len()]);
        }
    }
}

/// Two identities of the same kind come from the same run and generation.
pub proof fn generation_ids_are_distinct(
    run_a: Seq<char>,
    index_a: nat,
    run_b: Seq<char>,
    index_b: nat,
    tag: Seq<char>,
)
    requires
        generation_id(run_a, index_a, tag) == generation_id(run_b, index_b, tag),
    ensures
        run_a == run_b,
        index_a == index_b,
{
    reveal_strlit("evolve-");
    reveal_strlit("-g");
    decimal_digits(index_a);
    decimal_digits(index_b);
    let na = text::decimal(index_a);
    let nb = text::decimal(index_b);
    let ida = generation_id(run_a, index_a, tag);
    let idb = generation_id(run_b, index_b, tag);
    let end = ida.len() - tag.len();
    // Just before each numeral stands a `g`, which is no digit.
    assert(ida[end - na.len() - 1] == 'g');
    assert(idb[end - nb.len() - 1] == 'g');
    if na.len() < nb.len() {
        assert(idb[end - na.len() - 1] == nb[nb.len() - na.len() - 1]);
        assert(false);
    }
    if nb.len() < na.len() {
        assert(ida[end - nb.len() - 1] == na[na.len() - nb.len() - 1]);
        assert(false);
    }
    assert(na =~= nb) by {
        assert forall|i: int| 0 <= i < na.len() implies na[i] == nb[i] by {
            assert(ida[end - na.len() + i] == na[i]);
            assert(idb[end - nb.len() + i] == nb[i]);
        }
    }
    decimal_is_injective(index_a, index_b);
    assert(run_a =~= run_b) by {
        assert forall|i: int| 0 <= i < run_a.len() implies run_a[i] == run_b[i] by {
            assert(ida[7 + i] == run_a[i]);
            assert(idb[7 + i] == run_b[i]);
        }
    }
}

/// Every run identity that an admitted meta-evaluation derives is itself an admissible
/// run identity.
pub proof fn meta_lineage_runs_are_admissible(meta_run_id: Seq<char>, side: Seq<char>, index: usize)
    requires
        commands::job_identity(meta_run_id),
        text::byte_len(meta_run_id) <= commands::MAX_META_RUN_ID_BYTES,
        side == "-a-"@ || side == "-b-"@,
    ensures
        commands::job_identity(meta_lineage_run(meta_run_id, side, index as nat)),
        text::byte_len(meta_lineage_run(meta_run_id, side, index as nat))
            <= commands::MAX_EVOLUTION_RUN_ID_BYTES,
{
    commands::identity_bytes(meta_run_id);
    decimal_digits(index as nat);
    decimal_width(index as nat);
    reveal_strlit("meta-");
    reveal_strlit("-a-");
    reveal_strlit("-b-");
    let number = text::decimal(index as nat);
    let id = meta_lineage_run(meta_run_id, side, index as nat);
    assert forall|i: int| 0 <= i < id.len() implies commands::identity_char(#[trigger] id[i]) by {
        let head = 5 + meta_run_id.len();
        if i < 5 {
            assert(id[i] == "meta-"@[i]);
        } else if i < head {
            assert(id[i] == meta_run_id[i - 5]);
        } else if i < head + 3 {
            assert(id[i] == side[i - head]);
        } else {
            assert(id[i] == number[i - head - 3]);
        }
    }
    commands::identity_bytes(id);
}

} // verus!
