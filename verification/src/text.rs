//! Text predicates and builders shared by every other module.

use vstd::prelude::*;
use vstd::string::*;
use vstd::utf8::*;

verus! {

/// Appends one character, as the standard library documents `String::push`.
pub assume_specification[ String::push ](receiver: &mut String, c: char)
    ensures
        final(receiver)@ == old(receiver)@.push(c),
;

/// Whether a character carries the Unicode `White_Space` property.
pub open spec fn white_space(c: char) -> bool {
    let n = c as u32;
    ||| 0x09 <= n <= 0x0d
    ||| n == 0x20
    ||| n == 0x85
    ||| n == 0xa0
    ||| n == 0x1680
    ||| 0x2000 <= n <= 0x200a
    ||| n == 0x2028
    ||| n == 0x2029
    ||| n == 0x202f
    ||| n == 0x205f
    ||| n == 0x3000
}

/// A text with nothing but white space in it, the empty text included.
pub open spec fn blank(text: Seq<char>) -> bool {
    forall|i: int| 0 <= i < text.len() ==> white_space(#[trigger] text[i])
}

/// Whether `c` is white space.
pub fn is_white_space(c: char) -> (result: bool)
    ensures
        result == white_space(c),
{
    let n: u32 = c as u32;
    (0x09 <= n && n <= 0x0d) || n == 0x20 || n == 0x85 || n == 0xa0 || n == 0x1680 || (0x2000 <= n
        && n <= 0x200a) || n == 0x2028 || n == 0x2029 || n == 0x202f || n == 0x205f || n == 0x3000
}

/// Whether `text` is blank.
pub fn is_blank(text: &str) -> (result: bool)
    ensures
        result == blank(text@),
{
    for c in iter: text.chars()
        invariant
            iter.seq() == text@,
            forall|i: int| 0 <= i < iter.index() ==> white_space(#[trigger] text@[i]),
    {
        if !is_white_space(c) {
            assert(!white_space(text@[iter.index()]));
            return false;
        }
    }
    true
}

/// Whether two texts hold the same characters.
pub fn text_eq(a: &str, b: &str) -> (result: bool)
    ensures
        result == (a@ == b@),
{
    let left: String = a.to_owned();
    let right: String = b.to_owned();
    left == right
}

/// Whether a character is a control character, the Unicode category `Cc`.
pub open spec fn control(c: char) -> bool {
    let n = c as u32;
    n <= 0x1f || 0x7f <= n <= 0x9f
}

/// Whether some character of `text` is a control character.
pub fn has_control(text: &str) -> (result: bool)
    ensures
        result == exists|i: int| 0 <= i < text@.len() && control(#[trigger] text@[i]),
{
    for c in iter: text.chars()
        invariant
            iter.seq() == text@,
            forall|i: int| 0 <= i < iter.index() ==> !control(#[trigger] text@[i]),
    {
        let n: u32 = c as u32;
        if n <= 0x1f || (0x7f <= n && n <= 0x9f) {
            assert(control(text@[iter.index()]));
            return true;
        }
    }
    false
}

/// Decimal digits, letters of either case.
pub open spec fn ascii_alphanumeric(c: char) -> bool {
    ||| '0' <= c <= '9'
    ||| 'a' <= c <= 'z'
    ||| 'A' <= c <= 'Z'
}

/// Hexadecimal digits of either case.
pub open spec fn ascii_hex_digit(c: char) -> bool {
    ||| '0' <= c <= '9'
    ||| 'a' <= c <= 'f'
    ||| 'A' <= c <= 'F'
}

/// The number of bytes that `text` takes in UTF-8.
pub open spec fn byte_len(text: Seq<char>) -> nat {
    encode_utf8(text).len()
}

/// How many bytes `text` takes in UTF-8.
pub fn byte_length(text: &str) -> (result: usize)
    ensures
        result == byte_len(text@),
{
    text.as_bytes().len()
}

/// A text in which nothing but hexadecimal digits stands.
pub open spec fn all_hex(text: Seq<char>) -> bool {
    forall|i: int| 0 <= i < text.len() ==> ascii_hex_digit(#[trigger] text[i])
}

/// Whether every character of `text` is a hexadecimal digit.
pub fn is_all_hex(text: &str) -> (result: bool)
    ensures
        result == all_hex(text@),
{
    for c in iter: text.chars()
        invariant
            iter.seq() == text@,
            forall|i: int| 0 <= i < iter.index() ==> ascii_hex_digit(#[trigger] text@[i]),
    {
        if !(('0' <= c && c <= '9') || ('a' <= c && c <= 'f') || ('A' <= c && c <= 'F')) {
            assert(!ascii_hex_digit(text@[iter.index()]));
            return false;
        }
    }
    true
}

/// The characters of `text`, in order.
pub fn chars_of(text: &str) -> (result: Vec<char>)
    ensures
        result@ == text@,
{
    let mut result: Vec<char> = Vec::new();
    for c in iter: text.chars()
        invariant
            iter.seq() == text@,
            result@ == text@.take(iter.index()),
    {
        result.push(c);
        assert(result@ == text@.take(iter.index() + 1));
    }
    assert(text@.take(text@.len() as int) == text@);
    result
}

/// The characters `from..to` of `text`.
pub fn char_range(text: &str, from: usize, to: usize) -> (result: String)
    requires
        from <= to <= text@.len(),
    ensures
        result@ == text@.subrange(from as int, to as int),
{
    text.substring_char(from, to).to_owned()
}

/// What each of some texts holds.
pub open spec fn texts(values: Seq<String>) -> Seq<Seq<char>> {
    Seq::new(values.len(), |i: int| values[i]@)
}

/// Whether two lists hold the same texts in the same order.
pub fn texts_eq(a: &Vec<String>, b: &Vec<String>) -> (result: bool)
    ensures
        result == (texts(a@) == texts(b@)),
{
    if a.len() != b.len() {
        assert(texts(a@).len() != texts(b@).len());
        return false;
    }
    for i in 0..a.len()
        invariant
            a.len() == b.len(),
            forall|j: int| 0 <= j < i ==> texts(a@)[j] == texts(b@)[j],
    {
        if a[i] != b[i] {
            assert(texts(a@)[i as int] != texts(b@)[i as int]);
            return false;
        }
    }
    assert(texts(a@) =~= texts(b@));
    true
}

/// Copies some texts.
pub fn clone_texts(values: &Vec<String>) -> (result: Vec<String>)
    ensures
        result@ == values@,
{
    let mut result: Vec<String> = Vec::new();
    for i in 0..values.len()
        invariant
            result@ == values@.take(i as int),
    {
        result.push(values[i].clone());
        assert(values@.take(i + 1) == values@.take(i as int).push(values@[i as int]));
    }
    assert(values@.take(values@.len() as int) == values@);
    result
}

/// Whether `text` begins with `prefix`.
pub open spec fn begins_with(text: Seq<char>, prefix: Seq<char>) -> bool {
    &&& prefix.len() <= text.len()
    &&& text.take(prefix.len() as int) == prefix
}

/// Tests whether `text` begins with `prefix`.
pub fn starts_with(text: &str, prefix: &str) -> (result: bool)
    ensures
        result == begins_with(text@, prefix@),
{
    let whole: Vec<char> = chars_of(text);
    let head: Vec<char> = chars_of(prefix);
    if whole.len() < head.len() {
        return false;
    }
    for i in 0..head.len()
        invariant
            whole@ == text@,
            head@ == prefix@,
            head.len() <= whole.len(),
            forall|j: int| 0 <= j < i ==> whole@[j] == head@[j],
    {
        if whole[i] != head[i] {
            assert(text@.take(prefix@.len() as int)[i as int] == text@[i as int]);
            return false;
        }
    }
    assert(text@.take(prefix@.len() as int) == prefix@);
    true
}

/// What follows `prefix` in `text`, where `text` begins with it.
pub fn strip_prefix(text: &str, prefix: &str) -> (result: Option<String>)
    ensures
        match result {
            Some(rest) => begins_with(text@, prefix@) && rest@ == text@.skip(prefix@.len() as int)
                && text@ == prefix@ + rest@,
            None => !begins_with(text@, prefix@),
        },
{
    if !starts_with(text, prefix) {
        return None;
    }
    let whole: usize = text.unicode_len();
    let head: usize = prefix.unicode_len();
    let rest: String = char_range(text, head, whole);
    proof {
        assert(rest@ == text@.skip(prefix@.len() as int));
        assert(text@ == text@.take(prefix@.len() as int) + text@.skip(prefix@.len() as int));
    }
    Some(rest)
}

/// The order of code points, which is the order of the standard library's texts.
pub open spec fn precedes(a: Seq<char>, b: Seq<char>) -> bool
    decreases a.len(),
{
    if b.len() == 0 {
        false
    } else if a.len() == 0 {
        true
    } else if a[0] != b[0] {
        a[0] < b[0]
    } else {
        precedes(a.drop_first(), b.drop_first())
    }
}

/// No text precedes itself.
pub proof fn precedes_irreflexive(a: Seq<char>)
    ensures
        !precedes(a, a),
    decreases a.len(),
{
    if a.len() > 0 {
        precedes_irreflexive(a.drop_first());
    }
}

/// The order of texts is transitive.
pub proof fn precedes_transitive(a: Seq<char>, b: Seq<char>, c: Seq<char>)
    requires
        precedes(a, b),
        precedes(b, c),
    ensures
        precedes(a, c),
    decreases a.len(),
{
    if a.len() > 0 && b.len() > 0 && c.len() > 0 && a[0] == b[0] && b[0] == c[0] {
        precedes_transitive(a.drop_first(), b.drop_first(), c.drop_first());
    }
}

/// Of two different texts one precedes the other.
pub proof fn precedes_total(a: Seq<char>, b: Seq<char>)
    ensures
        a == b || precedes(a, b) || precedes(b, a),
    decreases a.len(),
{
    if a.len() > 0 && b.len() > 0 {
        precedes_total(a.drop_first(), b.drop_first());
        if a[0] == b[0] && a.drop_first() == b.drop_first() {
            assert(a == seq![a[0]] + a.drop_first());
            assert(b == seq![b[0]] + b.drop_first());
        }
    } else if a.len() == 0 && b.len() == 0 {
        assert(a == b);
    }
}

/// Whether `a` comes before `b` in the order of texts.
pub fn text_less(a: &str, b: &str) -> (result: bool)
    ensures
        result == precedes(a@, b@),
{
    let left: Vec<char> = chars_of(a);
    let right: Vec<char> = chars_of(b);
    let mut i: usize = 0;
    assert(left@.skip(0) == left@);
    assert(right@.skip(0) == right@);
    while i < left.len() && i < right.len() && left[i] == right[i]
        invariant
            left@ == a@,
            right@ == b@,
            i <= left.len(),
            i <= right.len(),
            precedes(a@, b@) == precedes(left@.skip(i as int), right@.skip(i as int)),
        decreases left.len() - i,
    {
        assert(left@.skip(i as int).drop_first() == left@.skip(i + 1));
        assert(right@.skip(i as int).drop_first() == right@.skip(i + 1));
        i = i + 1;
    }
    if i >= right.len() {
        false
    } else if i >= left.len() {
        true
    } else {
        assert(left@.skip(i as int)[0] == left@[i as int]);
        assert(right@.skip(i as int)[0] == right@[i as int]);
        left[i] < right[i]
    }
}

/// The decimal numeral of a natural number.
pub open spec fn decimal(n: nat) -> Seq<char>
    decreases n,
{
    let digit = (48 + n % 10) as char;
    if n < 10 {
        seq![digit]
    } else {
        decimal(n / 10).push(digit)
    }
}

/// Writes `n` in decimal.
pub fn decimal_text(n: u64) -> (result: String)
    ensures
        result@ == decimal(n as nat),
    decreases n,
{
    let digit: char = (48u8 + (n % 10) as u8) as char;
    let mut text: String = if n < 10 {
        String::new()
    } else {
        decimal_text(n / 10)
    };
    text.push(digit);
    assert(n < 10 ==> text@ == seq![digit]);
    text
}

/// The number that a decimal numeral stands for, leading zeros allowed; nothing where some
/// character is no digit.
pub open spec fn numeral_value(text: Seq<char>) -> Option<nat>
    decreases text.len(),
{
    if text.len() == 0 {
        Some(0)
    } else {
        match numeral_value(text.drop_last()) {
            None => None,
            Some(high) => if '0' <= text.last() <= '9' {
                Some(10 * high + (text.last() as nat - 48) as nat)
            } else {
                None
            },
        }
    }
}

/// The 64-bit number that a text spells: an optional plus sign and at least one digit.
pub open spec fn parsed_u64(text: Seq<char>) -> Option<u64> {
    let digits = if text.len() > 0 && text[0] == '+' {
        text.drop_first()
    } else {
        text
    };
    match numeral_value(digits) {
        Some(value) => if digits.len() > 0 && value <= u64::MAX {
            Some(value as u64)
        } else {
            None
        },
        None => None,
    }
}

/// A longer numeral stands for no smaller number, and one with a foreign character for none.
proof fn numeral_grows(text: Seq<char>, length: int)
    requires
        0 <= length <= text.len(),
    ensures
        numeral_value(text.take(length)) is None ==> numeral_value(text) is None,
        numeral_value(text) is Some ==> numeral_value(text.take(length)) is Some
            && numeral_value(text.take(length))->0 <= numeral_value(text)->0,
    decreases text.len() - length,
{
    if length == text.len() {
        assert(text.take(length) == text);
    } else {
        numeral_grows(text, length + 1);
        assert(text.take(length + 1).drop_last() == text.take(length));
    }
}

/// Reads a 64-bit number from decimal text.
pub fn parse_u64(text: &str) -> (result: Option<u64>)
    ensures
        result == parsed_u64(text@),
{
    let chars: Vec<char> = chars_of(text);
    let start: usize = if chars.len() > 0 && chars[0] == '+' {
        1
    } else {
        0
    };
    let ghost digits = if text@.len() > 0 && text@[0] == '+' {
        text@.drop_first()
    } else {
        text@
    };
    assert(digits =~= chars@.skip(start as int));
    if start == chars.len() {
        return None;
    }
    let mut value: u64 = 0;
    assert(digits.take(0) == Seq::<char>::empty());
    for i in start..chars.len()
        invariant
            chars@ == text@,
            start <= chars.len(),
            digits == chars@.skip(start as int),
            digits.len() > 0,
            parsed_u64(text@) == (match numeral_value(digits) {
                Some(value) => if value <= u64::MAX {
                    Some(value as u64)
                } else {
                    None
                },
                None => None,
            }),
            numeral_value(digits.take(i - start)) == Some(value as nat),
    {
        let c: char = chars[i];
        proof {
            let at = i - start;
            assert(digits.take(at + 1).drop_last() == digits.take(at));
            assert(digits.take(at + 1).last() == c);
            numeral_grows(digits, at + 1);
        }
        if !('0' <= c && c <= '9') {
            return None;
        }
        let digit: u64 = (c as u64) - 48;
        match value.checked_mul(10) {
            None => {
                return None;
            },
            Some(shifted) => match shifted.checked_add(digit) {
                None => {
                    return None;
                },
                Some(next) => {
                    value = next;
                },
            },
        }
    }
    assert(digits.take(digits.len() as int) == digits);
    Some(value)
}

/// The numeral of a number stands for that number.
pub proof fn numerals_read_back(n: nat)
    ensures
        numeral_value(decimal(n)) == Some(n),
        decimal(n).len() > 0,
        decimal(n)[0] != '+',
    decreases n,
{
    let digit = (48 + n % 10) as char;
    assert(digit as nat == 48 + n % 10);
    assert('0' <= digit <= '9');
    assert(decimal(n).last() == digit);
    if n < 10 {
        assert(decimal(n).drop_last() == Seq::<char>::empty());
        assert(numeral_value(Seq::<char>::empty()) == Some(0nat));
    } else {
        numerals_read_back(n / 10);
        assert(decimal(n).drop_last() == decimal(n / 10));
        assert(decimal(n)[0] == decimal(n / 10)[0]);
    }
}

/// Parsing what was written gives the number back.
pub proof fn written_numbers_parse(n: u64)
    ensures
        parsed_u64(decimal(n as nat)) == Some(n),
{
    numerals_read_back(n as nat);
}

/// A text without the white space at its ends.
pub open spec fn trimmed(text: Seq<char>, inner: Seq<char>) -> bool {
    exists|from: int, to: int|
        #![trigger text.subrange(from, to)]
        {
            &&& 0 <= from <= to <= text.len()
            &&& inner == text.subrange(from, to)
            &&& blank(text.take(from))
            &&& blank(text.skip(to))
            &&& from < to ==> !white_space(text[from]) && !white_space(text[to - 1])
        }
}

/// Removes the white space at both ends of `text`.
pub fn trim(text: &str) -> (result: String)
    ensures
        trimmed(text@, result@),
{
    let chars: Vec<char> = chars_of(text);
    let mut from: usize = 0;
    while from < chars.len() && is_white_space(chars[from])
        invariant
            chars@ == text@,
            from <= chars.len(),
            forall|i: int| 0 <= i < from ==> white_space(#[trigger] text@[i]),
        decreases chars.len() - from,
    {
        from = from + 1;
    }
    let mut to: usize = chars.len();
    while from < to && is_white_space(chars[to - 1])
        invariant
            chars@ == text@,
            from <= to <= chars.len(),
            forall|i: int| to <= i < chars.len() ==> white_space(#[trigger] text@[i]),
        decreases to,
    {
        to = to - 1;
    }
    proof {
        assert(blank(text@.take(from as int)));
        assert forall|i: int| 0 <= i < text@.skip(to as int).len() implies white_space(
            #[trigger] text@.skip(to as int)[i],
        ) by {
            assert(text@.skip(to as int)[i] == text@[to + i]);
        }
    }
    char_range(text, from, to)
}

/// The lower-case form of an ASCII letter; any other character as it is.
pub open spec fn lower(c: char) -> char {
    if 'A' <= c <= 'Z' {
        (c as u32 + 32) as char
    } else {
        c
    }
}

/// Lower-cases the ASCII letters of `text`.
pub fn to_ascii_lowercase(text: &str) -> (result: String)
    ensures
        result@ == Seq::new(text@.len(), |i: int| lower(text@[i])),
{
    let mut result: String = String::new();
    for c in iter: text.chars()
        invariant
            iter.seq() == text@,
            result@ == Seq::new(iter.index() as nat, |i: int| lower(text@[i])),
    {
        let ghost at = iter.index();
        if 'A' <= c && c <= 'Z' {
            result.push(((c as u8) + 32) as char);
        } else {
            result.push(c);
        }
        assert(result@ =~= Seq::new((at + 1) as nat, |i: int| lower(text@[i])));
    }
    result
}

/// Calls `String::from_utf8`. It accepts exactly the valid UTF-8 byte strings and hands out
/// the text that they encode.
#[verifier::external_body]
pub(crate) fn decode_text(bytes: Vec<u8>) -> (result: Option<String>)
    ensures
        match result {
            Some(text) => valid_utf8(bytes@) && encode_utf8(text@) == bytes@,
            None => !valid_utf8(bytes@),
        },
{
    String::from_utf8(bytes).ok()
}

/// Copies bytes.
pub fn copy_bytes(bytes: &Vec<u8>) -> (result: Vec<u8>)
    ensures
        result@ == bytes@,
{
    let mut result: Vec<u8> = Vec::new();
    result.extend_from_slice(bytes.as_slice());
    assert(result@ == bytes@);
    result
}

/// Reads bytes as text.
pub fn read_text(bytes: &Vec<u8>) -> (result: Option<String>)
    ensures
        match result {
            Some(text) => valid_utf8(bytes@) && text@ == decode_utf8(bytes@),
            None => !valid_utf8(bytes@),
        },
{
    match decode_text(copy_bytes(bytes)) {
        Some(text) => {
            proof {
                encode_utf8_decode_utf8(text@);
            }
            Some(text)
        },
        None => None,
    }
}

} // verus!
