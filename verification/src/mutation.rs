//! One-step mutations of reference prompts.

use crate::error;
use crate::error::{rejected, ExecuteError, Refusal};
use crate::ids;
use crate::json;
use crate::registry::{Registry, WorldEntry};
use crate::text;
use vstd::prelude::*;
use vstd::string::*;
use vstd::utf8::*;

verus! {

/// A text with every carriage return and line feed replaced by a line feed.
pub open spec fn plain_lines(text: Seq<char>) -> Seq<char>
    decreases text.len(),
{
    if text.len() == 0 {
        Seq::empty()
    } else if text.len() >= 2 && text[0] == '\r' && text[1] == '\n' {
        seq!['\n'] + plain_lines(text.skip(2))
    } else {
        seq![text[0]] + plain_lines(text.skip(1))
    }
}

/// Replaces every carriage return and line feed by a line feed.
pub fn normalize_lines(text: &str) -> (result: String)
    ensures
        result@ == plain_lines(text@),
{
    let chars: Vec<char> = text::chars_of(text);
    let mut result: String = "".to_owned();
    let mut at: usize = 0;
    proof {
        reveal_strlit("");
        assert(chars@.skip(0) == chars@);
        assert(result@ + plain_lines(chars@) == plain_lines(chars@));
    }
    while at < chars.len()
        invariant
            at <= chars@.len(),
            chars@ == text@,
            result@ + plain_lines(chars@.skip(at as int)) == plain_lines(text@),
        decreases chars@.len() - at,
    {
        let ghost rest = chars@.skip(at as int);
        let ghost before = result@;
        if chars.len() - at >= 2 && chars[at] == '\r' && chars[at + 1] == '\n' {
            result.push('\n');
            proof {
                assert(rest.skip(2) == chars@.skip(at + 2));
                assert(result@ + plain_lines(rest.skip(2)) == before + (seq!['\n'] + plain_lines(
                    rest.skip(2),
                )));
            }
            at = at + 2;
        } else {
            result.push(chars[at]);
            proof {
                assert(rest.skip(1) == chars@.skip(at + 1));
                assert(result@ + plain_lines(rest.skip(1)) == before + (seq![rest[0]]
                    + plain_lines(rest.skip(1))));
            }
            at = at + 1;
        }
    }
    proof {
        assert(chars@.skip(at as int) == Seq::<char>::empty());
        assert(result@ + plain_lines(Seq::<char>::empty()) == result@);
    }
    result
}

/// How often `pattern` occurs in `text`, from the left and without overlap.
pub open spec fn occurrences(text: Seq<char>, pattern: Seq<char>) -> nat
    decreases text.len(),
{
    if pattern.len() == 0 || text.len() < pattern.len() {
        0
    } else if text::begins_with(text, pattern) {
        1 + occurrences(text.skip(pattern.len() as int), pattern)
    } else {
        occurrences(text.skip(1), pattern)
    }
}

/// Where `pattern` first occurs in `text`.
pub open spec fn first_place(text: Seq<char>, pattern: Seq<char>) -> Option<int>
    decreases text.len(),
{
    if pattern.len() == 0 || text.len() < pattern.len() {
        None
    } else if text::begins_with(text, pattern) {
        Some(0)
    } else {
        match first_place(text.skip(1), pattern) {
            Some(at) => Some(at + 1),
            None => None,
        }
    }
}

/// The first occurrence of a pattern is one.
proof fn first_place_matches(text: Seq<char>, pattern: Seq<char>)
    requires
        first_place(text, pattern) is Some,
    ensures
        0 <= first_place(text, pattern)->0 <= text.len() - pattern.len(),
        text.subrange(
            first_place(text, pattern)->0,
            first_place(text, pattern)->0 + pattern.len(),
        ) == pattern,
    decreases text.len(),
{
    if !text::begins_with(text, pattern) {
        first_place_matches(text.skip(1), pattern);
        let at = first_place(text.skip(1), pattern)->0;
        assert(text.skip(1).subrange(at, at + pattern.len()) == text.subrange(
            at + 1,
            at + 1 + pattern.len(),
        ));
    } else {
        assert(text.subrange(0, pattern.len() as int) == text.take(pattern.len() as int));
    }
}

/// Whether the characters from `at` on are `pattern`.
fn matches_at(chars: &Vec<char>, at: usize, pattern: &Vec<char>) -> (result: bool)
    requires
        at <= chars@.len(),
    ensures
        result == (pattern@.len() <= chars@.len() - at && text::begins_with(
            chars@.skip(at as int),
            pattern@,
        )),
{
    let length: usize = chars.len();
    if pattern.len() > length - at {
        return false;
    }
    let ghost rest = chars@.skip(at as int);
    for i in 0..pattern.len()
        invariant
            length == chars@.len(),
            at + pattern@.len() <= length,
            rest == chars@.skip(at as int),
            forall|k: int| 0 <= k < i ==> rest[k] == pattern@[k],
    {
        if chars[at + i] != pattern[i] {
            assert(rest[i as int] != pattern@[i as int]);
            assert(rest.take(pattern@.len() as int)[i as int] == rest[i as int]);
            return false;
        }
    }
    assert(rest.take(pattern@.len() as int) == pattern@);
    true
}

/// Counts the occurrences of `pattern` in `text` and finds the first.
fn scan(chars: &Vec<char>, pattern: &Vec<char>) -> (result: (usize, Option<usize>))
    requires
        pattern@.len() > 0,
    ensures
        result.0 == occurrences(chars@, pattern@),
        match result.1 {
            Some(at) => first_place(chars@, pattern@) == Some(at as int),
            None => first_place(chars@, pattern@) is None,
        },
{
    let mut count: usize = 0;
    let mut first: Option<usize> = None;
    let mut at: usize = 0;
    assert(chars@.skip(0) == chars@);
    while at < chars.len()
        invariant
            pattern@.len() > 0,
            at <= chars@.len(),
            count <= at,
            count + occurrences(chars@.skip(at as int), pattern@) == occurrences(chars@, pattern@),
            match first {
                Some(place) => first_place(chars@, pattern@) == Some(place as int),
                None => first_place(chars@, pattern@) == (match first_place(
                    chars@.skip(at as int),
                    pattern@,
                ) {
                    Some(place) => Some(place + at),
                    None => None,
                }),
            },
        decreases chars@.len() - at,
    {
        let ghost rest = chars@.skip(at as int);
        if matches_at(chars, at, pattern) {
            assert(rest.skip(pattern@.len() as int) == chars@.skip(at + pattern@.len()));
            count = count + 1;
            if first.is_none() {
                first = Some(at);
            }
            at = at + pattern.len();
        } else {
            proof {
                assert(rest.skip(1) == chars@.skip(at + 1));
                if rest.len() < pattern@.len() {
                    nothing_fits(rest.skip(1), pattern@);
                }
            }
            at = at + 1;
        }
    }
    (count, first)
}

/// A pattern does not occur in a shorter text.
proof fn nothing_fits(text: Seq<char>, pattern: Seq<char>)
    requires
        text.len() < pattern.len(),
    ensures
        occurrences(text, pattern) == 0,
        first_place(text, pattern) is None,
{
}

/// The field of a reference prompt that names its operation.
pub open spec fn operation_field(operation: Seq<char>) -> Seq<char> {
    "\"operation\":\""@ + operation + "\""@
}

/// The reference prompt of an operation.
pub open spec fn instruction_document(operation: Seq<char>) -> Seq<char> {
    "```hephaestus-reference-v1\n{\"schema_version\":1,\"operation\":\""@ + operation
        + "\"}\n```"@
}

/// Writes the reference prompt of an operation.
pub fn reference_instruction_document(operation: &str) -> (result: String)
    ensures
        result@ == instruction_document(operation@),
{
    ids::wrap(
        "```hephaestus-reference-v1\n{\"schema_version\":1,\"operation\":\"",
        operation,
        "\"}\n```",
    )
}

/// A prompt with its operation replaced, where it is a reference prompt that names the
/// operation once.
pub open spec fn mutated(prompt: Seq<char>, before: Seq<char>, after: Seq<char>) -> Option<Seq<char>> {
    let plain = plain_lines(prompt);
    let old_field = operation_field(before);
    if plain != instruction_document(before) && plain != instruction_document(before) + "\n"@ {
        None
    } else if occurrences(prompt, old_field) != 1 {
        None
    } else {
        let at = first_place(prompt, old_field)->0;
        Some(
            prompt.take(at) + operation_field(after) + prompt.skip(
                at + old_field.len(),
            ),
        )
    }
}

/// A pattern that occurs has a first place.
proof fn occurring_has_place(text: Seq<char>, pattern: Seq<char>)
    ensures
        occurrences(text, pattern) > 0 <==> first_place(text, pattern) is Some,
    decreases text.len(),
{
    if pattern.len() > 0 && text.len() >= pattern.len() && !text::begins_with(text, pattern) {
        occurring_has_place(text.skip(1), pattern);
    }
}

/// Replaces the operation of a reference prompt.
pub fn mutate_reference_instruction_document(prompt: &str, before: &str, after: &str) -> (result: Option<
    String,
>)
    ensures
        json::held(result) == mutated(prompt@, before@, after@),
{
    let plain: String = normalize_lines(prompt);
    let canonical: String = reference_instruction_document(before);
    let ended: String = ids::wrap(canonical.as_str(), "\n", "");
    proof {
        reveal_strlit("");
        assert(ended@ == instruction_document(before@) + "\n"@);
    }
    if !text::text_eq(plain.as_str(), canonical.as_str()) && !text::text_eq(
        plain.as_str(),
        ended.as_str(),
    ) {
        return None;
    }
    let old_field: String = ids::wrap("\"operation\":\"", before, "\"");
    let new_field: String = ids::wrap("\"operation\":\"", after, "\"");
    let chars: Vec<char> = text::chars_of(prompt);
    let pattern: Vec<char> = text::chars_of(old_field.as_str());
    proof {
        reveal_strlit("\"");
        assert(old_field@.len() > 0);
        occurring_has_place(prompt@, old_field@);
    }
    let (count, first): (usize, Option<usize>) = scan(&chars, &pattern);
    if count != 1 {
        return None;
    }
    match first {
        Some(at) => {
            proof {
                first_place_matches(prompt@, old_field@);
            }
            let length: usize = chars.len();
            let head: String = text::char_range(prompt, 0, at);
            let tail: String = text::char_range(prompt, at + pattern.len(), length);
            let result: String = ids::wrap(head.as_str(), new_field.as_str(), tail.as_str());
            proof {
                assert(head@ == prompt@.take(at as int));
                assert(tail@ == prompt@.skip(at + old_field@.len()));
            }
            Some(result)
        },
        None => None,
    }
}

/// A mutation changes the operation and nothing else of a prompt.
pub proof fn mutations_change_only_the_operation(prompt: Seq<char>, before: Seq<char>, after: Seq<char>)
    requires
        mutated(prompt, before, after) is Some,
    ensures
        exists|head: Seq<char>, tail: Seq<char>|
            prompt == #[trigger] (head + operation_field(before) + tail) && mutated(
                prompt,
                before,
                after,
            ) == Some(head + operation_field(after) + tail),
{
    let old_field = operation_field(before);
    occurring_has_place(prompt, old_field);
    first_place_matches(prompt, old_field);
    let at = first_place(prompt, old_field)->0;
    let head = prompt.take(at);
    let tail = prompt.skip(at + old_field.len());
    assert(prompt == head + prompt.subrange(at, at + old_field.len()) + tail);
    assert(prompt == head + operation_field(before) + tail);
}

/// Mutating an operation to itself leaves a prompt as it is.
pub proof fn mutating_to_the_same_operation_changes_nothing(prompt: Seq<char>, operation: Seq<char>)
    requires
        mutated(prompt, operation, operation) is Some,
    ensures
        mutated(prompt, operation, operation) == Some(prompt),
{
    let field = operation_field(operation);
    occurring_has_place(prompt, field);
    first_place_matches(prompt, field);
    let at = first_place(prompt, field)->0;
    assert(prompt == prompt.take(at) + prompt.subrange(at, at + field.len()) + prompt.skip(
        at + field.len(),
    ));
}

/// The operation that one casing operation is exchanged for.
pub open spec fn flipped(operation: Seq<char>) -> Option<Seq<char>> {
    if operation == "identity"@ {
        Some("ascii_uppercase"@)
    } else if operation == "ascii_uppercase"@ {
        Some("identity"@)
    } else {
        None
    }
}

/// Exchanging the casing operations twice gives the first back.
pub proof fn flipping_twice_returns(operation: Seq<char>)
    requires
        flipped(operation) is Some,
    ensures
        flipped(flipped(operation)->0) == Some(operation),
        flipped(operation) != Some(operation),
{
    reveal_strlit("identity");
    reveal_strlit("ascii_uppercase");
    assert("identity"@.len() != "ascii_uppercase"@.len());
}

/// Finds the prompt of a parent that a World lets a proposal mutate.
pub fn prompt_to_mutate(registry: &Registry, world: &WorldEntry, parent_genome_id: &str) -> (result: Result<
    String,
    ExecuteError,
>)
    requires
        registry.wf(),
    ensures
        error::outcome(result) == mutable_prompt(*registry, *world, parent_genome_id@),
{
    if !world.harness_mutations {
        return Err(rejected("World mutation scope does not authorize harness mutations"));
    }
    match registry.genomes.get(parent_genome_id) {
        Some(parent) => {
            if !text::text_eq(parent.record.world_id.as_str(), world.compiled_id.as_str()) {
                return Err(ExecuteError::NotFound);
            }
            match &parent.prompt_artifact_id {
                Some(prompt) => Ok(prompt.clone()),
                None => Err(rejected("the selected candidate has no supported prompt to mutate")),
            }
        },
        None => Err(ExecuteError::NotFound),
    }
}

/// The prompt of a parent that a World lets a proposal mutate.
pub open spec fn mutable_prompt(registry: Registry, world: WorldEntry, parent_genome_id: Seq<char>) -> Result<
    String,
    Refusal,
> {
    if !world.harness_mutations {
        Err(Refusal::Rejected("World mutation scope does not authorize harness mutations"@))
    } else if !registry.genomes@.contains_key(parent_genome_id)
        || registry.genomes@[parent_genome_id].record.world_id@ != world.compiled_id@ {
        Err(Refusal::NotFound)
    } else {
        match registry.genomes@[parent_genome_id].prompt_artifact_id {
            Some(prompt) => Ok(prompt),
            None => Err(
                Refusal::Rejected("the selected candidate has no supported prompt to mutate"@),
            ),
        }
    }
}

/// An operation that a proposal asks for.
pub struct RequestedOperation {
    /// The operation.
    pub operation: String,
    /// Whether the catalog has an edge to it from the parent's operation.
    pub catalog_edge: bool,
}

/// What a proposal changes in a prompt.
#[derive(Debug, PartialEq, Eq)]
pub struct PromptMutation {
    /// Operation of the parent.
    pub before: String,
    /// Operation of the child.
    pub after: String,
    /// The child's prompt.
    pub text: String,
}

/// What a [`PromptMutation`] says.
pub struct MutationFacts {
    pub before: Seq<char>,
    pub after: Seq<char>,
    pub text: Seq<char>,
}

impl View for PromptMutation {
    type V = MutationFacts;

    open spec fn view(&self) -> MutationFacts {
        MutationFacts { before: self.before@, after: self.after@, text: self.text@ }
    }
}

/// The operation that a mutation leads to: the requested one where the catalog has an edge to
/// it, else the other casing operation.
pub open spec fn mutation_target(before: Seq<char>, target: Option<RequestedOperation>) -> Result<
    Seq<char>,
    Refusal,
> {
    match target {
        Some(requested) => if requested.catalog_edge {
            Ok(requested.operation@)
        } else {
            Err(
                Refusal::Rejected(
                    "the requested mutation target is not a representable catalog edge"@,
                ),
            )
        },
        None => match flipped(before) {
            Some(after) => Ok(after),
            None => Err(
                Refusal::Rejected(
                    "the selected candidate prompt is outside the Forge mutation scope"@,
                ),
            ),
        },
    }
}

/// What a proposal changes in a prompt, from its bytes as far as they could be read, and from
/// the operation that they parse to.
pub open spec fn prompt_mutation(
    bytes: Option<Seq<u8>>,
    before: Option<Seq<char>>,
    target: Option<RequestedOperation>,
) -> Result<MutationFacts, Refusal> {
    if bytes is None || !valid_utf8(bytes->0) {
        Err(Refusal::Internal)
    } else if before is None {
        Err(
            Refusal::Rejected(
                "the selected candidate prompt is outside the supported mutation language"@,
            ),
        )
    } else {
        match mutation_target(before->0, target) {
            Err(refusal) => Err(refusal),
            Ok(after) => match mutated(decode_utf8(bytes->0), before->0, after) {
                Some(text) => Ok(MutationFacts { before: before->0, after, text }),
                None => Err(
                    Refusal::Rejected(
                        "the selected candidate prompt is outside the Forge mutation scope"@,
                    ),
                ),
            },
        }
    }
}

/// Derives what a proposal changes in a prompt.
pub fn forge_prompt_mutation(
    bytes: Option<Vec<u8>>,
    before: Option<&str>,
    target: Option<&RequestedOperation>,
) -> (result: Result<PromptMutation, ExecuteError>)
    ensures
        (match result {
            Ok(mutation) => Ok(mutation@),
            Err(error) => Err(error@),
        }) == prompt_mutation(
            match bytes {
                Some(bytes) => Some(bytes@),
                None => None,
            },
            match before {
                Some(operation) => Some(operation@),
                None => None,
            },
            match target {
                Some(requested) => Some(*requested),
                None => None,
            },
        ),
{
    let bytes: Vec<u8> = match bytes {
        Some(bytes) => bytes,
        None => {
            return Err(ExecuteError::Internal);
        },
    };
    let ghost raw = bytes@;
    let prompt: String = match text::decode_text(bytes) {
        Some(prompt) => prompt,
        None => {
            return Err(ExecuteError::Internal);
        },
    };
    proof {
        encode_utf8_decode_utf8(prompt@);
        assert(decode_utf8(raw) == prompt@);
    }
    let before: &str = match before {
        Some(before) => before,
        None => {
            return Err(
                rejected("the selected candidate prompt is outside the supported mutation language"),
            );
        },
    };
    let after: String = match target {
        Some(requested) => {
            if !requested.catalog_edge {
                return Err(
                    rejected("the requested mutation target is not a representable catalog edge"),
                );
            }
            requested.operation.clone()
        },
        None => if text::text_eq(before, "identity") {
            "ascii_uppercase".to_owned()
        } else if text::text_eq(before, "ascii_uppercase") {
            "identity".to_owned()
        } else {
            return Err(
                rejected("the selected candidate prompt is outside the Forge mutation scope"),
            );
        },
    };
    match mutate_reference_instruction_document(prompt.as_str(), before, after.as_str()) {
        Some(text) => Ok(PromptMutation { before: before.to_owned(), after, text }),
        None => Err(
            rejected("the selected candidate prompt is outside the Forge mutation scope"),
        ),
    }
}

/// Tells whether a drift adaptation has a mutation to propose, from what deriving one said.
pub fn choose_adaptation_mutation(derived: &Result<PromptMutation, ExecuteError>) -> (result: Result<
    bool,
    ExecuteError,
>)
    ensures
        error::outcome(result) == (match *derived {
            Ok(_) => Ok(true),
            Err(error) => match error@ {
                Refusal::Rejected(_) => Ok(false),
                Refusal::NotFound => Ok(false),
                other => Err(other),
            },
        }),
{
    match derived {
        Ok(_) => Ok(true),
        Err(ExecuteError::Rejected(_)) => Ok(false),
        Err(ExecuteError::NotFound) => Ok(false),
        Err(ExecuteError::Invalid(message)) => Err(ExecuteError::Invalid(*message)),
        Err(ExecuteError::Internal) => Err(ExecuteError::Internal),
        Err(ExecuteError::Busy) => Err(ExecuteError::Busy),
    }
}

} // verus!
