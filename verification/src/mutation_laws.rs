//! What mutations of reference prompts keep, and where they succeed.

use crate::mutation;
use crate::text;
use vstd::prelude::*;

verus! {

/// How a line ends: with a line feed, or with a carriage return and a line feed.
pub open spec fn line_end(both: bool) -> Seq<char> {
    if both {
        seq!['\r', '\n']
    } else {
        seq!['\n']
    }
}

/// Whether a text has no line end in it, as the name of an operation has none.
pub open spec fn one_line(text: Seq<char>) -> bool {
    forall|i: int| 0 <= i < text.len() ==> #[trigger] text[i] != '\r' && text[i] != '\n'
}

/// Whether a prompt is the reference prompt of an operation, in either kind of line end, with
/// or without one at its own end.
pub open spec fn is_document(prompt: Seq<char>, operation: Seq<char>) -> bool {
    let plain = mutation::plain_lines(prompt);
    plain == mutation::instruction_document(operation) || plain
        == mutation::instruction_document(operation) + "\n"@
}

/// What stands in a reference prompt before its operation.
spec fn head(first: bool) -> Seq<char> {
    "```hephaestus-reference-v1"@ + line_end(first) + "{\"schema_version\":1,"@
}

/// What stands in a reference prompt after its operation.
spec fn tail(second: bool, end: Seq<char>) -> Seq<char> {
    "}"@ + line_end(second) + "```"@ + end
}

/// Whether a text is nothing, or a line end.
spec fn is_end(end: Seq<char>) -> bool {
    end.len() == 0 || end == line_end(false) || end == line_end(true)
}

/// A reference prompt with its line ends.
spec fn document(operation: Seq<char>, first: bool, second: bool, end: Seq<char>) -> Seq<char> {
    head(first) + mutation::operation_field(operation) + tail(second, end)
}

/// The line of a reference prompt that names its operation.
spec fn middle(operation: Seq<char>) -> Seq<char> {
    "{\"schema_version\":1,"@ + mutation::operation_field(operation) + "}"@
}

/// What reads as a line and more is that line, a line end, and more.
proof fn break_off(text: Seq<char>, line: Seq<char>, rest: Seq<char>) -> (parts: (bool, Seq<char>))
    requires
        mutation::plain_lines(text) == line + seq!['\n'] + rest,
        forall|i: int| 0 <= i < line.len() ==> #[trigger] line[i] != '\n',
    ensures
        text == line + line_end(parts.0) + parts.1,
        mutation::plain_lines(parts.1) == rest,
    decreases line.len(),
{
    let plain = mutation::plain_lines(text);
    assert(plain.len() > 0);
    if line.len() == 0 {
        assert(plain[0] == '\n');
        assert(plain.skip(1) =~= rest);
        if text.len() >= 2 && text[0] == '\r' && text[1] == '\n' {
            assert(plain.skip(1) =~= mutation::plain_lines(text.skip(2)));
            assert(text =~= line + line_end(true) + text.skip(2));
            (true, text.skip(2))
        } else {
            assert(plain.skip(1) =~= mutation::plain_lines(text.skip(1)));
            assert(text =~= line + line_end(false) + text.skip(1));
            (false, text.skip(1))
        }
    } else {
        assert(plain[0] == line[0]);
        assert(plain.skip(1) =~= mutation::plain_lines(text.skip(1)));
        let shorter = line.skip(1);
        assert(plain.skip(1) =~= shorter + seq!['\n'] + rest);
        assert forall|i: int| 0 <= i < shorter.len() implies #[trigger] shorter[i] != '\n' by {
            assert(shorter[i] == line[i + 1]);
        }
        let parts = break_off(text.skip(1), shorter, rest);
        assert(text =~= seq![text[0]] + text.skip(1));
        assert(text =~= line + line_end(parts.0) + parts.1);
        parts
    }
}

/// What reads as one line is that line.
proof fn line_is_itself(text: Seq<char>, line: Seq<char>)
    requires
        mutation::plain_lines(text) == line,
        forall|i: int| 0 <= i < line.len() ==> #[trigger] line[i] != '\n',
    ensures
        text == line,
    decreases text.len(),
{
    if text.len() > 0 {
        assert(line.len() > 0);
        assert(line[0] != '\n');
        assert(line.skip(1) =~= mutation::plain_lines(text.skip(1)));
        assert forall|i: int| 0 <= i < line.skip(1).len() implies #[trigger] line.skip(1)[i]
            != '\n' by {
            assert(line.skip(1)[i] == line[i + 1]);
        }
        line_is_itself(text.skip(1), line.skip(1));
        assert(text =~= seq![text[0]] + text.skip(1));
        assert(line =~= seq![line[0]] + line.skip(1));
    }
}

/// A line, a line end and more read as the line, a line feed and more.
proof fn line_reads(line: Seq<char>, both: bool, rest: Seq<char>)
    requires
        one_line(line),
    ensures
        mutation::plain_lines(line + line_end(both) + rest) == line + seq!['\n']
            + mutation::plain_lines(rest),
    decreases line.len(),
{
    let whole = line + line_end(both) + rest;
    if line.len() == 0 {
        if both {
            assert(whole.skip(2) =~= rest);
        } else {
            assert(whole.skip(1) =~= rest);
        }
        assert(mutation::plain_lines(whole) =~= line + seq!['\n'] + mutation::plain_lines(rest));
    } else {
        let shorter = line.skip(1);
        assert(one_line(shorter)) by {
            assert forall|i: int| 0 <= i < shorter.len() implies #[trigger] shorter[i] != '\r'
                && shorter[i] != '\n' by {
                assert(shorter[i] == line[i + 1]);
            }
        }
        line_reads(shorter, both, rest);
        assert(whole[0] == line[0]);
        assert(whole.skip(1) =~= shorter + line_end(both) + rest);
        assert(mutation::plain_lines(whole) =~= line + seq!['\n'] + mutation::plain_lines(rest));
    }
}

/// A line reads as itself.
proof fn line_alone_reads(line: Seq<char>)
    requires
        one_line(line),
    ensures
        mutation::plain_lines(line) == line,
    decreases line.len(),
{
    if line.len() > 0 {
        let shorter = line.skip(1);
        assert(one_line(shorter)) by {
            assert forall|i: int| 0 <= i < shorter.len() implies #[trigger] shorter[i] != '\r'
                && shorter[i] != '\n' by {
                assert(shorter[i] == line[i + 1]);
            }
        }
        assert(line[0] != '\r');
        line_alone_reads(shorter);
        assert(mutation::plain_lines(line) =~= line);
    }
}

/// The reference prompt of an operation, line by line.
proof fn document_by_lines(operation: Seq<char>)
    ensures
        mutation::instruction_document(operation) == "```hephaestus-reference-v1"@ + seq!['\n'] + (
        middle(operation) + seq!['\n'] + "```"@),
        "\n"@ == seq!['\n'],
{
    reveal_strlit("```hephaestus-reference-v1\n{\"schema_version\":1,\"operation\":\"");
    reveal_strlit("\"}\n```");
    reveal_strlit("```hephaestus-reference-v1");
    reveal_strlit("{\"schema_version\":1,");
    reveal_strlit("\"operation\":\"");
    reveal_strlit("\"");
    reveal_strlit("}");
    reveal_strlit("```");
    reveal_strlit("\n");
    assert("\n"@ =~= seq!['\n']);
    assert("```hephaestus-reference-v1\n{\"schema_version\":1,\"operation\":\""@
        =~= "```hephaestus-reference-v1"@ + seq!['\n'] + "{\"schema_version\":1,"@
        + "\"operation\":\""@);
    assert("\"}\n```"@ =~= "\""@ + "}"@ + seq!['\n'] + "```"@);
    assert(mutation::instruction_document(operation) =~= "```hephaestus-reference-v1"@ + seq!['\n'] + (
    middle(operation) + seq!['\n'] + "```"@));
}

/// The lines of a reference prompt have no line ends in them.
proof fn lines_are_lines(operation: Seq<char>)
    requires
        one_line(operation),
    ensures
        one_line("```hephaestus-reference-v1"@),
        one_line(middle(operation)),
        one_line("```"@),
{
    reveal_strlit("```hephaestus-reference-v1");
    reveal_strlit("{\"schema_version\":1,");
    reveal_strlit("\"operation\":\"");
    reveal_strlit("\"");
    reveal_strlit("}");
    reveal_strlit("```");
    let fence = "```hephaestus-reference-v1"@;
    assert forall|j: int| 0 <= j < fence.len() implies #[trigger] fence[j] != '\r' && fence[j]
        != '\n' by {
        assert(j == 0 || j == 1 || j == 2 || j == 3 || j == 4 || j == 5 || j == 6 || j == 7 || j == 8 || j == 9 || j == 10 || j == 11 || j == 12 || j == 13 || j == 14 || j == 15 || j == 16 || j == 17 || j == 18 || j == 19 || j == 20 || j == 21 || j == 22 || j == 23 || j == 24 || j == 25);
    }
    let opening = "{\"schema_version\":1,"@;
    assert forall|j: int| 0 <= j < opening.len() implies #[trigger] opening[j] != '\r'
        && opening[j] != '\n' by {
        assert(j == 0 || j == 1 || j == 2 || j == 3 || j == 4 || j == 5 || j == 6 || j == 7 || j == 8 || j == 9 || j == 10 || j == 11 || j == 12 || j == 13 || j == 14 || j == 15 || j == 16 || j == 17 || j == 18 || j == 19);
    }
    let naming = "\"operation\":\""@;
    assert forall|j: int| 0 <= j < naming.len() implies #[trigger] naming[j] != '\r' && naming[j]
        != '\n' by {
        assert(j == 0 || j == 1 || j == 2 || j == 3 || j == 4 || j == 5 || j == 6 || j == 7 || j == 8 || j == 9 || j == 10 || j == 11 || j == 12);
    }
    let line = middle(operation);
    assert forall|i: int| 0 <= i < line.len() implies #[trigger] line[i] != '\r' && line[i]
        != '\n' by {
        let a = opening.len() as int;
        let b = a + naming.len();
        let c = b + operation.len();
        if i < a {
            assert(line[i] == opening[i]);
        } else if i < b {
            assert(line[i] == naming[i - a]);
        } else if i < c {
            assert(line[i] == operation[i - b]);
        } else if i == c {
            assert(line[i] == "\""@[0]);
        } else {
            assert(line[i] == "}"@[0]);
        }
    }
}

/// The parts of a text can be taken together line by line.
proof fn by_lines(
    fence: Seq<char>,
    first: Seq<char>,
    opening: Seq<char>,
    field: Seq<char>,
    brace: Seq<char>,
    second: Seq<char>,
    closing: Seq<char>,
    end: Seq<char>,
)
    ensures
        (fence + first + opening) + field + (brace + second + closing + end) == fence + first + ((
        opening + field + brace) + second + (closing + end)),
{
    assert((fence + first + opening) + field + (brace + second + closing + end) =~= fence + first
        + ((opening + field + brace) + second + (closing + end)));
}

/// A line feed behind the last of three lines stands at the end of them all.
proof fn ended_lines(fence: Seq<char>, line: Seq<char>, closing: Seq<char>, feed: Seq<char>)
    ensures
        fence + feed + (line + feed + closing) + feed == fence + feed + (line + feed + (closing
            + feed + Seq::<char>::empty())),
{
    assert(fence + feed + (line + feed + closing) + feed =~= fence + feed + (line + feed + (closing
        + feed + Seq::<char>::empty())));
}

/// A reference prompt with its line ends, line by line.
proof fn ended_document_by_lines(operation: Seq<char>, first: bool, second: bool, end: Seq<char>)
    ensures
        document(operation, first, second, end) == "```hephaestus-reference-v1"@ + line_end(first)
            + (middle(operation) + line_end(second) + ("```"@ + end)),
{
    by_lines(
        "```hephaestus-reference-v1"@,
        line_end(first),
        "{\"schema_version\":1,"@,
        mutation::operation_field(operation),
        "}"@,
        line_end(second),
        "```"@,
        end,
    );
}

/// What reads as the reference prompt of an operation is one, with its line ends.
proof fn documents_have_lines(prompt: Seq<char>, operation: Seq<char>) -> (ends: (
    bool,
    bool,
    Seq<char>,
))
    requires
        one_line(operation),
        is_document(prompt, operation),
    ensures
        prompt == document(operation, ends.0, ends.1, ends.2),
        is_end(ends.2),
{
    document_by_lines(operation);
    lines_are_lines(operation);
    let fence = "```hephaestus-reference-v1"@;
    let line = middle(operation);
    let closing = "```"@;
    let plain = mutation::plain_lines(prompt);
    if plain == mutation::instruction_document(operation) {
        let one = break_off(prompt, fence, line + seq!['\n'] + closing);
        let two = break_off(one.1, line, closing);
        line_is_itself(two.1, closing);
        let end = Seq::<char>::empty();
        ended_document_by_lines(operation, one.0, two.0, end);
        assert(closing + end =~= closing);
        (one.0, two.0, end)
    } else {
        let rest = closing + seq!['\n'] + Seq::<char>::empty();
        ended_lines(fence, line, closing, seq!['\n']);
        assert(plain == fence + seq!['\n'] + (line + seq!['\n'] + rest));
        let one = break_off(prompt, fence, line + seq!['\n'] + rest);
        let two = break_off(one.1, line, rest);
        let three = break_off(two.1, closing, Seq::<char>::empty());
        line_is_itself(three.1, Seq::<char>::empty());
        let end = line_end(three.0);
        ended_document_by_lines(operation, one.0, two.0, end);
        assert(closing + end + Seq::<char>::empty() =~= closing + end);
        (one.0, two.0, end)
    }
}

/// A reference prompt with its line ends reads as one.
proof fn lines_make_documents(operation: Seq<char>, first: bool, second: bool, end: Seq<char>)
    requires
        one_line(operation),
        is_end(end),
    ensures
        is_document(document(operation, first, second, end), operation),
{
    document_by_lines(operation);
    lines_are_lines(operation);
    let fence = "```hephaestus-reference-v1"@;
    let line = middle(operation);
    let closing = "```"@;
    let prompt = document(operation, first, second, end);
    let rest = closing + end;
    ended_document_by_lines(operation, first, second, end);
    line_reads(fence, first, line + line_end(second) + rest);
    line_reads(line, second, rest);
    if end.len() == 0 {
        assert(rest =~= closing);
        line_alone_reads(closing);
        assert(mutation::plain_lines(prompt) == mutation::instruction_document(operation));
    } else {
        let both = end == line_end(true);
        assert(end == line_end(both));
        assert(rest =~= closing + line_end(both) + Seq::<char>::empty());
        line_reads(closing, both, Seq::<char>::empty());
        ended_lines(fence, line, closing, seq!['\n']);
        assert(mutation::plain_lines(Seq::<char>::empty()) == Seq::<char>::empty());
        assert(mutation::plain_lines(prompt) == mutation::instruction_document(operation)
            + "\n"@);
    }
}

/// A pattern that does not begin in the first part of a text is not found there.
proof fn nothing_begins(text: Seq<char>, pattern: Seq<char>, length: int)
    requires
        pattern.len() > 0,
        0 <= length <= text.len() - pattern.len(),
        forall|j: int| 0 <= j < length ==> !text::begins_with(#[trigger] text.skip(j), pattern),
    ensures
        mutation::occurrences(text, pattern) == mutation::occurrences(text.skip(length), pattern),
        mutation::first_place(text, pattern) == (match mutation::first_place(
            text.skip(length),
            pattern,
        ) {
            Some(at) => Some(at + length),
            None => None,
        }),
    decreases length,
{
    if length == 0 {
        assert(text.skip(0) =~= text);
    } else {
        assert(text.skip(0) =~= text);
        assert(!text::begins_with(text.skip(0), pattern));
        let rest = text.skip(1);
        assert forall|j: int| 0 <= j < length - 1 implies !text::begins_with(
            #[trigger] rest.skip(j),
            pattern,
        ) by {
            assert(rest.skip(j) =~= text.skip(j + 1));
        }
        nothing_begins(rest, pattern, length - 1);
        assert(rest.skip(length - 1) =~= text.skip(length));
    }
}

/// A pattern is not found in a text that lacks its first character.
proof fn nothing_without_its_start(text: Seq<char>, pattern: Seq<char>)
    requires
        pattern.len() > 0,
        forall|j: int| 0 <= j < text.len() ==> #[trigger] text[j] != pattern[0],
    ensures
        mutation::occurrences(text, pattern) == 0,
    decreases text.len(),
{
    if text.len() >= pattern.len() {
        if text::begins_with(text, pattern) {
            assert(text.take(pattern.len() as int)[0] == text[0]);
            assert(false);
        }
        let rest = text.skip(1);
        assert forall|j: int| 0 <= j < rest.len() implies #[trigger] rest[j] != pattern[0] by {
            assert(rest[j] == text[j + 1]);
        }
        nothing_without_its_start(rest, pattern);
    }
}

/// A reference prompt names its operation once, behind its head.
proof fn operation_is_named_once(operation: Seq<char>, first: bool, second: bool, end: Seq<char>)
    requires
        is_end(end),
    ensures
        mutation::occurrences(
            document(operation, first, second, end),
            mutation::operation_field(operation),
        ) == 1,
        mutation::first_place(
            document(operation, first, second, end),
            mutation::operation_field(operation),
        ) == Some(head(first).len() as int),
{
    let prompt = document(operation, first, second, end);
    let field = mutation::operation_field(operation);
    let before = head(first);
    let after = tail(second, end);
    reveal_strlit("```hephaestus-reference-v1");
    reveal_strlit("{\"schema_version\":1,");
    reveal_strlit("\"operation\":\"");
    reveal_strlit("\"");
    reveal_strlit("}");
    reveal_strlit("```");
    let fence = "```hephaestus-reference-v1"@;
    let opening = "{\"schema_version\":1,"@;
    assert(field[0] == '"' && field[1] == 'o');
    assert forall|j: int| 0 <= j < before.len() implies !text::begins_with(
        #[trigger] prompt.skip(j),
        field,
    ) by {
        let at = fence.len() + line_end(first).len();
        assert(prompt[j] == before[j]);
        if text::begins_with(prompt.skip(j), field) {
            let here = prompt.skip(j);
            assert(here.take(field.len() as int)[0] == here[0]);
            assert(here.take(field.len() as int)[1] == here[1]);
            assert(here[0] == prompt[j] && here[1] == prompt[j + 1]);
            if j < fence.len() {
                assert(before[j] == fence[j]);
                assert(j == 0 || j == 1 || j == 2 || j == 3 || j == 4 || j == 5 || j == 6 || j == 7 || j == 8 || j == 9 || j == 10 || j == 11 || j == 12 || j == 13 || j == 14 || j == 15 || j == 16 || j == 17 || j == 18 || j == 19 || j == 20 || j == 21 || j == 22 || j == 23 || j == 24 || j == 25);
            } else if j < at {
                assert(before[j] == line_end(first)[j - fence.len()]);
            } else {
                let i = j - at;
                assert(before[j] == opening[i]);
                assert(i == 0 || i == 1 || i == 2 || i == 3 || i == 4 || i == 5 || i == 6 || i == 7 || i == 8 || i == 9 || i == 10 || i == 11 || i == 12 || i == 13 || i == 14 || i == 15 || i == 16 || i == 17 || i == 18 || i == 19);
                assert(i == 1 || i == 16);
                assert(prompt[j + 1] == before[j + 1]);
                assert(before[j + 1] == opening[i + 1]);
            }
        }
    }
    assert(prompt.len() == before.len() + field.len() + after.len());
    nothing_begins(prompt, field, before.len() as int);
    let rest = prompt.skip(before.len() as int);
    assert(rest.take(field.len() as int) =~= field);
    assert(text::begins_with(rest, field));
    assert(rest.skip(field.len() as int) =~= after);
    assert forall|j: int| 0 <= j < after.len() implies #[trigger] after[j] != field[0] by {
        let ends = 1 + line_end(second).len();
        if j == 0 {
            assert(after[j] == "}"@[0]);
        } else if j < ends {
            assert(after[j] == line_end(second)[j - 1]);
        } else if j < ends + 3 {
            let i = j - ends;
            assert(after[j] == "```"@[i]);
            assert(i == 0 || i == 1 || i == 2);
        } else {
            assert(after[j] == end[j - ends - 3]);
        }
    }
    nothing_without_its_start(after, field);
}

/// A mutation succeeds exactly on the reference prompt of the operation, in either kind of line
/// end, with or without one at its own end.
pub proof fn mutations_succeed_on_documents(prompt: Seq<char>, before: Seq<char>, after: Seq<char>)
    requires
        one_line(before),
    ensures
        mutation::mutated(prompt, before, after) is Some <==> is_document(prompt, before),
{
    if is_document(prompt, before) {
        let ends = documents_have_lines(prompt, before);
        operation_is_named_once(before, ends.0, ends.1, ends.2);
    }
}

/// Mutating back gives the first prompt back, with its line ends.
pub proof fn mutating_back_returns(prompt: Seq<char>, before: Seq<char>, after: Seq<char>)
    requires
        one_line(before),
        one_line(after),
        mutation::mutated(prompt, before, after) is Some,
    ensures
        mutation::mutated(
            mutation::mutated(prompt, before, after)->0,
            after,
            before,
        ) == Some(prompt),
{
    let ends = documents_have_lines(prompt, before);
    operation_is_named_once(before, ends.0, ends.1, ends.2);
    operation_is_named_once(after, ends.0, ends.1, ends.2);
    lines_make_documents(after, ends.0, ends.1, ends.2);
    let place = head(ends.0).len() as int;
    let old_field = mutation::operation_field(before);
    let new_field = mutation::operation_field(after);
    let there = document(after, ends.0, ends.1, ends.2);
    assert(prompt.take(place) =~= head(ends.0));
    assert(prompt.skip(place + old_field.len()) =~= tail(ends.1, ends.2));
    assert(mutation::mutated(prompt, before, after)->0 =~= there);
    assert(there.take(place) =~= head(ends.0));
    assert(there.skip(place + new_field.len()) =~= tail(ends.1, ends.2));
    assert(mutation::mutated(there, after, before)->0 =~= prompt);
}

} // verus!
