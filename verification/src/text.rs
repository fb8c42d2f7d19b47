use vstd::prelude::*;

verus! {

/// Appends one character to a string.
/// Wraps `String::push`; its documentation states that the character is appended at the end,
/// which is all the contract claims.
#[verifier::external_body]
pub(crate) fn push_char(text: &mut String, character: char)
    ensures
        final(text)@ == old(text)@.push(character),
{
    text.push(character);
}

/// Removes the last character of a string and returns it.
/// Wraps `String::pop`; its documentation states that it removes and returns the last
/// character, or returns `None` on an empty string, which is what the contract claims.
#[verifier::external_body]
pub(crate) fn pop_char(text: &mut String) -> (popped: Option<char>)
    ensures
        old(text)@.len() == 0 ==> popped is None && final(text)@ == old(text)@,
        old(text)@.len() > 0 ==> popped == Some(old(text)@.last()) && final(text)@ == old(
            text,
        )@.drop_last(),
{
    text.pop()
}

/// What `format!("{:?}", text)` gives for a string slice: the text in double quotes with
/// the characters escaped that `char::escape_debug` escapes.
pub uninterp spec fn spec_debug_quoted(text: Seq<char>) -> Seq<char>;

/// Formats a string slice with its `Debug` implementation.
/// Wraps `<str as Debug>::fmt` through `format!`; the contract names the result by the text
/// alone and adds only that it opens and closes with a double quote, as the documentation of
/// `str`'s `Debug` output shows. The escaping itself is left unsaid.
#[verifier::external_body]
pub(crate) fn debug_quoted(text: &str) -> (quoted: String)
    ensures
        quoted@ == spec_debug_quoted(text@),
        quoted@.len() >= 2,
        quoted@[0] == '"',
        quoted@.last() == '"',
{
    format!("{:?}", text)
}

/// The view of an optional string.
pub open spec fn spec_option_text(text: Option<String>) -> Option<Seq<char>> {
    match text {
        Some(value) => Some(value@),
        None => None,
    }
}

/// What `format!("{:?}", value)` gives for an optional string: `None`, or `Some(` with the
/// quoted text and `)`.
pub open spec fn spec_debug_option_text(value: Option<Seq<char>>) -> Seq<char> {
    match value {
        Some(text) => "Some("@ + spec_debug_quoted(text) + ")"@,
        None => "None"@,
    }
}

/// The `Debug` text of an optional string.
pub fn debug_option_text(value: &Option<String>) -> (text: String)
    ensures
        text@ == spec_debug_option_text(spec_option_text(*value)),
{
    match value {
        Some(inner) => {
            let mut text = owned("Some(");
            text.append(debug_quoted(inner.as_str()).as_str());
            text.append(")");
            text
        },
        None => owned("None"),
    }
}

/// A new string with the characters of `text`.
pub fn owned(text: &str) -> (result: String)
    ensures
        result@ == text@,
{
    String::from_str(text)
}

/// The character of a digit below sixteen, upper-case for the letters.
pub open spec fn spec_digit_char(digit: nat) -> char {
    if digit == 0 {
        '0'
    } else if digit == 1 {
        '1'
    } else if digit == 2 {
        '2'
    } else if digit == 3 {
        '3'
    } else if digit == 4 {
        '4'
    } else if digit == 5 {
        '5'
    } else if digit == 6 {
        '6'
    } else if digit == 7 {
        '7'
    } else if digit == 8 {
        '8'
    } else if digit == 9 {
        '9'
    } else if digit == 10 {
        'A'
    } else if digit == 11 {
        'B'
    } else if digit == 12 {
        'C'
    } else if digit == 13 {
        'D'
    } else if digit == 14 {
        'E'
    } else {
        'F'
    }
}

/// The digits of `value` in the given base, most significant first, without leading zeros.
pub open spec fn spec_digits(value: nat, base: nat) -> Seq<char>
    recommends
        2 <= base <= 16,
    decreases value,
{
    if base < 2 || value < base {
        seq![spec_digit_char(value % 16)]
    } else {
        proof {
            assert(value / base < value) by (nonlinear_arith)
                requires
                    base >= 2,
                    value >= base,
            ;
        }
        spec_digits(value / base, base).push(spec_digit_char(value % base))
    }
}

/// Decimal text of a number, as `Display` writes it.
pub open spec fn spec_decimal(value: nat) -> Seq<char> {
    spec_digits(value, 10)
}

/// Upper-case hexadecimal text of a number, as `{:X}` writes it.
pub open spec fn spec_hex_upper(value: nat) -> Seq<char> {
    spec_digits(value, 16)
}

fn digit_char(digit: u64) -> (character: char)
    requires
        digit < 16,
    ensures
        character == spec_digit_char(digit as nat),
{
    match digit {
        0 => '0',
        1 => '1',
        2 => '2',
        3 => '3',
        4 => '4',
        5 => '5',
        6 => '6',
        7 => '7',
        8 => '8',
        9 => '9',
        10 => 'A',
        11 => 'B',
        12 => 'C',
        13 => 'D',
        14 => 'E',
        _ => 'F',
    }
}

/// Appends the digits of `value` in `base` to `text`.
pub fn push_digits(text: &mut String, value: u64, base: u64)
    requires
        2 <= base <= 16,
    ensures
        final(text)@ == old(text)@ + spec_digits(value as nat, base as nat),
    decreases value,
{
    if value < base {
        push_char(text, digit_char(value));
    } else {
        assert(value / base < value) by (nonlinear_arith)
            requires
                base >= 2,
                value >= base,
        ;
        push_digits(text, value / base, base);
        push_char(text, digit_char(value % base));
        assert(old(text)@ + spec_digits(value as nat, base as nat) =~= old(text)@ + spec_digits(
            (value / base) as nat,
            base as nat,
        ) + seq![spec_digit_char((value % base) as nat)]);
    }
}

/// Appends the decimal text of `value` to `text`.
pub fn push_decimal(text: &mut String, value: u64)
    ensures
        final(text)@ == old(text)@ + spec_decimal(value as nat),
{
    push_digits(text, value, 10);
}

/// Appends the upper-case hexadecimal text of `value` to `text`.
pub fn push_hex_upper(text: &mut String, value: u64)
    ensures
        final(text)@ == old(text)@ + spec_hex_upper(value as nat),
{
    push_digits(text, value, 16);
}

/// Decimal text of a number.
pub fn decimal_text(value: u64) -> (text: String)
    ensures
        text@ == spec_decimal(value as nat),
{
    let mut text = String::new();
    push_decimal(&mut text, value);
    assert(text@ =~= spec_decimal(value as nat));
    text
}

/// Text for a boolean, as `Display` writes it.
pub open spec fn spec_bool_text(value: bool) -> Seq<char> {
    if value {
        "true"@
    } else {
        "false"@
    }
}

/// Appends the text of a boolean to `text`.
pub fn push_bool(text: &mut String, value: bool)
    ensures
        final(text)@ == old(text)@ + spec_bool_text(value),
{
    if value {
        text.append("true");
    } else {
        text.append("false");
    }
}

/// Text of a boolean.
pub fn bool_text(value: bool) -> (text: String)
    ensures
        text@ == spec_bool_text(value),
{
    let mut text = String::new();
    push_bool(&mut text, value);
    assert(text@ =~= spec_bool_text(value));
    text
}

/// Upper-case hexadecimal text of a number behind `0x`.
pub fn prefixed_hex_text(value: u64) -> (text: String)
    ensures
        text@ == "0x"@ + spec_hex_upper(value as nat),
{
    let mut text = owned("0x");
    push_hex_upper(&mut text, value);
    text
}

/// Characters of the Unicode `White_Space` property, which `str::trim` strips.
pub open spec fn spec_is_whitespace(character: char) -> bool {
    let code = character as u32;
    ||| 0x9 <= code <= 0xD
    ||| code == 0x20
    ||| code == 0x85
    ||| code == 0xA0
    ||| code == 0x1680
    ||| 0x2000 <= code <= 0x200A
    ||| code == 0x2028
    ||| code == 0x2029
    ||| code == 0x202F
    ||| code == 0x205F
    ||| code == 0x3000
}

/// Whether a character is Unicode white space.
pub fn is_whitespace(character: char) -> (is_space: bool)
    ensures
        is_space == spec_is_whitespace(character),
{
    let code = character as u32;
    (0x9 <= code && code <= 0xD) || code == 0x20 || code == 0x85 || code == 0xA0 || code == 0x1680
        || (0x2000 <= code && code <= 0x200A) || code == 0x2028 || code == 0x2029 || code
        == 0x202F || code == 0x205F || code == 0x3000
}

/// The text without its leading white space.
pub open spec fn spec_trim_start(text: Seq<char>) -> Seq<char>
    decreases text.len(),
{
    if text.len() > 0 && spec_is_whitespace(text[0]) {
        spec_trim_start(text.drop_first())
    } else {
        text
    }
}

/// The text without its trailing white space.
pub open spec fn spec_trim_end(text: Seq<char>) -> Seq<char>
    decreases text.len(),
{
    if text.len() > 0 && spec_is_whitespace(text.last()) {
        spec_trim_end(text.drop_last())
    } else {
        text
    }
}

/// The text without leading and trailing white space, as `str::trim` gives it.
pub open spec fn spec_trim(text: Seq<char>) -> Seq<char> {
    spec_trim_end(spec_trim_start(text))
}

/// The text without leading and trailing white space.
pub fn trimmed(text: &str) -> (result: String)
    ensures
        result@ == spec_trim(text@),
{
    let length = text.unicode_len();
    let mut start: usize = 0;
    assert(text@.subrange(0, length as int) =~= text@);
    while start < length && is_whitespace(text.get_char(start))
        invariant
            start <= length,
            length == text@.len(),
            spec_trim_start(text@) == spec_trim_start(text@.subrange(start as int, length as int)),
        decreases length - start,
    {
        assert(text@.subrange(start as int, length as int).drop_first() =~= text@.subrange(
            start + 1,
            length as int,
        ));
        start = start + 1;
    }
    let mut end: usize = length;
    assert(spec_trim_start(text@) == text@.subrange(start as int, length as int));
    while end > start && is_whitespace(text.get_char(end - 1))
        invariant
            start <= end <= length,
            length == text@.len(),
            spec_trim(text@) == spec_trim_end(text@.subrange(start as int, end as int)),
        decreases end - start,
    {
        assert(text@.subrange(start as int, end as int).drop_last() =~= text@.subrange(
            start as int,
            end - 1,
        ));
        end = end - 1;
    }
    let slice = text.substring_char(start, end);
    String::from_str(slice)
}

/// `None` when the text is blank, else the text without surrounding white space.
pub open spec fn spec_non_blank_trimmed(text: Seq<char>) -> Option<Seq<char>> {
    if spec_trim(text).len() == 0 {
        None
    } else {
        Some(spec_trim(text))
    }
}

/// `None` when the text is blank, else the text without surrounding white space.
pub fn non_blank_trimmed(text: &str) -> (result: Option<String>)
    ensures
        result is None <==> spec_non_blank_trimmed(text@) is None,
        result matches Some(trimmed_text) ==> spec_non_blank_trimmed(text@) == Some(trimmed_text@),
{
    let trimmed_text = trimmed(text);
    if trimmed_text.as_str().unicode_len() == 0 {
        None
    } else {
        Some(trimmed_text)
    }
}

} // verus!

verus! {

/// Appends the decimal text of a `usize` to `text`.
pub fn push_decimal_usize(text: &mut String, value: usize)
    ensures
        final(text)@ == old(text)@ + spec_decimal(value as nat),
{
    push_decimal(text, value as u64);
}

/// A new string made of `prefix` followed by `suffix`.
pub fn joined(prefix: &str, suffix: &str) -> (result: String)
    ensures
        result@ == prefix@ + suffix@,
{
    let mut result = String::from_str(prefix);
    result.append(suffix);
    result
}

/// Views of a sequence of strings.
pub open spec fn spec_texts(lines: Seq<String>) -> Seq<Seq<char>> {
    lines.map_values(|line: String| line@)
}

} // verus!

verus! {

/// Mapping after a push is the mapped prefix followed by the mapped element.
pub proof fn lemma_map_values_push<A, B>(items: Seq<A>, item: A, f: spec_fn(A) -> B)
    ensures
        items.push(item).map_values(f) == items.map_values(f).push(f(item)),
{
    assert(items.push(item).map_values(f) =~= items.map_values(f).push(f(item)));
}

/// The views of strings after a push are the earlier views followed by the new view.
pub proof fn lemma_texts_push(lines: Seq<String>, line: String)
    ensures
        spec_texts(lines.push(line)) == spec_texts(lines).push(line@),
{
    assert(spec_texts(lines.push(line)) =~= spec_texts(lines).push(line@));
}

/// Whether two texts hold the same characters.
pub fn same_text(left: &str, right: &str) -> (is_equal: bool)
    ensures
        is_equal == (left@ == right@),
{
    let length = left.unicode_len();
    if length != right.unicode_len() {
        return false;
    }
    let mut position: usize = 0;
    while position < length
        invariant
            position <= length,
            length == left@.len(),
            length == right@.len(),
            forall|k: int| 0 <= k < position ==> left@[k] == right@[k],
        decreases length - position,
    {
        if left.get_char(position) != right.get_char(position) {
            return false;
        }
        position = position + 1;
    }
    assert(left@ =~= right@);
    true
}

/// The bytes read as UTF-8 text: the characters they encode, or `None` when they are not a
/// valid UTF-8 encoding.
pub open spec fn spec_utf8_text(bytes: Seq<u8>) -> Option<Seq<char>> {
    if vstd::utf8::valid_utf8(bytes) {
        Some(vstd::utf8::decode_utf8(bytes))
    } else {
        None
    }
}

/// The bytes read as UTF-8 text, or `None` when they are not UTF-8.
/// Wraps `std::str::from_utf8`, which accepts exactly the valid UTF-8 encodings and then
/// holds the characters they encode.
#[verifier::external_body]
pub(crate) fn utf8_text(bytes: &[u8]) -> (text: Option<String>)
    ensures
        spec_option_text(text) == spec_utf8_text(bytes@),
{
    match std::str::from_utf8(bytes) {
        Ok(text) => Some(text.to_string()),
        Err(_) => None,
    }
}

} // verus!
