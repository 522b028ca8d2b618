//! Checks on the texts that callers send, before anything is parsed or
//! handed to the store.
//!
//! Each check is a predicate on the characters of the text. The parsers
//! check first, then read the value; integers are read here, decimals and
//! points in time by the crates that own those formats.

use crate::datetime::{parse_timestamp, timestamp_from_text, Timestamp};
use crate::decimal::{decimal_from_text, parse_decimal, Decimal};
use crate::text::{
    chars_of, contains, contains_chars, count_char, count_of, ends_with, join2, join3, lowercase,
    occurs_at_index, starts_with, to_lowercase,
};
use vstd::prelude::*;
use vstd::string::*;

verus! {

/// The sets of characters that the checks admit.
#[derive(Clone, Copy, Debug, PartialEq, Eq, Structural)]
pub enum CharClass {
    /// Digits and the minus sign.
    Integer,
    /// Digits, the minus sign and the point.
    Decimal,
    /// ASCII letters and digits, and `- : T Z + .`
    Datetime,
    /// Letters, digits, white space, some punctuation, and every character
    /// beyond ASCII.
    Free,
}

/// `c` is one of `0` to `9`.
pub open spec fn is_digit(c: char) -> bool {
    '0' <= c <= '9'
}

/// `c` is an ASCII letter or digit.
pub open spec fn is_ascii_alphanumeric(c: char) -> bool {
    is_digit(c) || 'a' <= c <= 'z' || 'A' <= c <= 'Z'
}

/// `c` is ASCII white space: the blank, or one of tab, line feed, vertical
/// tab, form feed, carriage return.
pub open spec fn is_ascii_space(c: char) -> bool {
    c == ' ' || '\x09' <= c <= '\x0d'
}

/// `c` is one of the punctuation marks that a free text may hold.
pub open spec fn is_free_punctuation(c: char) -> bool {
    ||| c == '.'
    ||| c == '-'
    ||| c == '_'
    ||| c == '*'
    ||| c == '('
    ||| c == ')'
    ||| c == '['
    ||| c == ']'
    ||| c == '+'
    ||| c == '/'
    ||| c == '@'
    ||| c == '#'
    ||| c == ':'
    ||| c == '&'
    ||| c == '!'
    ||| c == '?'
    ||| c == ','
    ||| c == '%'
}

/// `c` belongs to the class.
pub open spec fn in_class(class: CharClass, c: char) -> bool {
    match class {
        CharClass::Integer => is_digit(c) || c == '-',
        CharClass::Decimal => is_digit(c) || c == '.' || c == '-',
        CharClass::Datetime => is_ascii_alphanumeric(c) || c == '-' || c == ':' || c == 'T' || c
            == 'Z' || c == '+' || c == '.',
        CharClass::Free => is_ascii_alphanumeric(c) || is_ascii_space(c) || is_free_punctuation(c)
            || c as u32 > 127,
    }
}

/// Every character of `s` belongs to the class.
pub open spec fn all_in_class(class: CharClass, s: Seq<char>) -> bool {
    forall|i: int| 0 <= i < s.len() ==> in_class(class, #[trigger] s[i])
}

/// A text that may be read as an integer: not empty, digits and at most one
/// minus sign.
pub open spec fn safe_integer(s: Seq<char>) -> bool {
    &&& s.len() > 0
    &&& all_in_class(CharClass::Integer, s)
    &&& count_char(s, '-') <= 1
    &&& !starts_with(s, "--"@)
}

/// A text that may be read as a decimal: not empty, digits with at most one
/// minus sign and one point, and no point at either end.
pub open spec fn safe_decimal(s: Seq<char>) -> bool {
    &&& s.len() > 0
    &&& all_in_class(CharClass::Decimal, s)
    &&& count_char(s, '.') <= 1
    &&& count_char(s, '-') <= 1
    &&& !starts_with(s, "--"@)
    &&& !ends_with(s, "."@)
    &&& !starts_with(s, "."@)
}

/// A text that may be read as a point in time: ten to thirty characters of
/// the datetime class.
pub open spec fn safe_datetime(s: Seq<char>) -> bool {
    &&& all_in_class(CharClass::Datetime, s)
    &&& 10 <= s.len() <= 30
}

/// The lowercase text holds a word or mark of SQL that no free text may hold.
pub open spec fn has_dangerous_pattern(lowered: Seq<char>) -> bool {
    ||| contains(lowered, "select"@)
    ||| contains(lowered, "insert"@)
    ||| contains(lowered, "update"@)
    ||| contains(lowered, "delete"@)
    ||| contains(lowered, "drop"@)
    ||| contains(lowered, "alter"@)
    ||| contains(lowered, "create"@)
    ||| contains(lowered, "union"@)
    ||| contains(lowered, "script"@)
    ||| contains(lowered, "--"@)
    ||| contains(lowered, "/*"@)
    ||| contains(lowered, "*/"@)
    ||| contains(lowered, "'"@)
    ||| contains(lowered, "\""@)
    ||| contains(lowered, ";"@)
    ||| contains(lowered, "\\"@)
    ||| contains(lowered, "exec"@)
    ||| contains(lowered, "execute"@)
    ||| contains(lowered, "sp_"@)
    ||| contains(lowered, "xp_"@)
}

/// A free text that may go into a query, given its lowercase form: not
/// empty, and either the lone wildcard `*` or free of dangerous patterns and
/// made of characters of the free class.
pub open spec fn safe_string(s: Seq<char>, lowered: Seq<char>) -> bool {
    &&& s.len() > 0
    &&& (s == "*"@ || (!has_dangerous_pattern(lowered) && all_in_class(CharClass::Free, s)))
}

/// The value of a digit character.
pub open spec fn digit_value(c: char) -> int {
    c as u32 - '0' as u32
}

/// The number that a run of digits writes.
pub open spec fn digits_value(s: Seq<char>) -> int
    decreases s.len(),
{
    if s.len() == 0 {
        0
    } else {
        digits_value(s.drop_last()) * 10 + digit_value(s.last())
    }
}

/// Every character of `s` is a digit.
pub open spec fn all_digits(s: Seq<char>) -> bool {
    forall|i: int| 0 <= i < s.len() ==> is_digit(#[trigger] s[i])
}

/// The 32-bit integer that a numeral writes: an optional leading minus sign
/// and at least one digit, within the range of `i32`; else nothing.
pub open spec fn integer_value(s: Seq<char>) -> Option<int> {
    let negative = s.len() > 0 && s[0] == '-';
    let digits = if negative {
        s.skip(1)
    } else {
        s
    };
    let value = if negative {
        -digits_value(digits)
    } else {
        digits_value(digits)
    };
    if digits.len() > 0 && all_digits(digits) && i32::MIN <= value <= i32::MAX {
        Some(value)
    } else {
        None
    }
}

/// "Invalid FIELD format"
pub open spec fn invalid_format_message(field: Seq<char>) -> Seq<char> {
    "Invalid "@ + field + " format"@
}

/// "Invalid integer format for FIELD"
pub open spec fn invalid_integer_message(field: Seq<char>) -> Seq<char> {
    "Invalid integer format for "@ + field
}

/// "Invalid decimal format for FIELD"
pub open spec fn invalid_decimal_message(field: Seq<char>) -> Seq<char> {
    "Invalid decimal format for "@ + field
}

/// "Invalid datetime format for FIELD. Use ISO 8601 format (e.g., ...)"
pub open spec fn invalid_datetime_message(field: Seq<char>) -> Seq<char> {
    "Invalid datetime format for "@ + field
        + ". Use ISO 8601 format (e.g., 2024-12-31T23:59:59Z)"@
}

/// "FIELD cannot be empty"
pub open spec fn empty_message(field: Seq<char>) -> Seq<char> {
    field + " cannot be empty"@
}

/// "Invalid FIELD"
pub open spec fn invalid_message(field: Seq<char>) -> Seq<char> {
    "Invalid "@ + field
}

/// What reading a checked integer gives.
pub open spec fn safe_integer_outcome(input: Seq<char>, field: Seq<char>) -> Result<int, Seq<char>> {
    if !safe_integer(input) {
        Err(invalid_format_message(field))
    } else {
        match integer_value(input) {
            Some(v) => Ok(v),
            None => Err(invalid_integer_message(field)),
        }
    }
}

/// What reading a checked decimal gives, where `parsed` is what the decimal
/// parser makes of the text.
pub open spec fn safe_decimal_outcome(
    input: Seq<char>,
    field: Seq<char>,
    parsed: Option<Decimal>,
) -> Result<Decimal, Seq<char>> {
    if !safe_decimal(input) {
        Err(invalid_format_message(field))
    } else {
        match parsed {
            Some(d) => Ok(d),
            None => Err(invalid_decimal_message(field)),
        }
    }
}

/// What reading a checked point in time gives, where `parsed` is what the
/// datetime parser makes of the text.
pub open spec fn safe_datetime_outcome(
    input: Seq<char>,
    field: Seq<char>,
    parsed: Option<Timestamp>,
) -> Result<Timestamp, Seq<char>> {
    if !safe_datetime(input) {
        Err(invalid_format_message(field))
    } else {
        match parsed {
            Some(t) => Ok(t),
            None => Err(invalid_datetime_message(field)),
        }
    }
}

/// What the check of a free text gives, given its lowercase form.
pub open spec fn safe_string_outcome(input: Seq<char>, field: Seq<char>, lowered: Seq<char>) -> Result<
    (),
    Seq<char>,
> {
    if input.len() == 0 {
        Err(empty_message(field))
    } else if !safe_string(input, lowered) {
        Err(invalid_message(field))
    } else {
        Ok(())
    }
}

/// A `Result` with a text for its error, as values of the model.
pub open spec fn outcome_of<T>(r: Result<T, String>) -> Result<T, Seq<char>> {
    match r {
        Ok(v) => Ok(v),
        Err(e) => Err(e@),
    }
}

/// Whether `c` belongs to the class.
pub fn char_in_class(class: CharClass, c: char) -> (r: bool)
    ensures
        r == in_class(class, c),
{
    let digit = c >= '0' && c <= '9';
    let alnum = digit || (c >= 'a' && c <= 'z') || (c >= 'A' && c <= 'Z');
    match class {
        CharClass::Integer => digit || c == '-',
        CharClass::Decimal => digit || c == '.' || c == '-',
        CharClass::Datetime => alnum || c == '-' || c == ':' || c == 'T' || c == 'Z' || c == '+'
            || c == '.',
        CharClass::Free => {
            let space = c == ' ' || (c >= '\x09' && c <= '\x0d');
            let punctuation = c == '.' || c == '-' || c == '_' || c == '*' || c == '(' || c == ')'
                || c == '[' || c == ']' || c == '+' || c == '/' || c == '@' || c == '#' || c == ':'
                || c == '&' || c == '!' || c == '?' || c == ',' || c == '%';
            alnum || space || punctuation || c as u32 > 127
        },
    }
}

/// Whether every character belongs to the class.
pub fn chars_in_class(class: CharClass, v: &Vec<char>) -> (r: bool)
    ensures
        r == all_in_class(class, v@),
{
    let mut i: usize = 0;
    while i < v.len()
        invariant
            i <= v.len(),
            forall|j: int| 0 <= j < i ==> in_class(class, #[trigger] v@[j]),
        decreases v.len() - i,
    {
        if !char_in_class(class, v[i]) {
            return false;
        }
        i += 1;
    }
    true
}

fn begins_with(v: &Vec<char>, p: &str) -> (r: bool)
    ensures
        r == starts_with(v@, p@),
{
    let q = chars_of(p);
    occurs_at_index(v, &q, 0)
}

fn finishes_with(v: &Vec<char>, p: &str) -> (r: bool)
    ensures
        r == ends_with(v@, p@),
{
    let q = chars_of(p);
    if q.len() > v.len() {
        false
    } else {
        occurs_at_index(v, &q, v.len() - q.len())
    }
}

fn holds(v: &Vec<char>, p: &str) -> (r: bool)
    ensures
        r == contains(v@, p@),
{
    let q = chars_of(p);
    contains_chars(v, &q)
}

/// Check if a string is a safe integer: digits with at most one minus sign.
pub fn is_safe_integer(input: &str) -> (r: bool)
    ensures
        r == safe_integer(input@),
{
    let v = chars_of(input);
    v.len() > 0 && chars_in_class(CharClass::Integer, &v) && count_of(&v, '-') <= 1
        && !begins_with(&v, "--")
}

/// Check if a string is a safe decimal number.
pub fn is_safe_decimal(input: &str) -> (r: bool)
    ensures
        r == safe_decimal(input@),
{
    let v = chars_of(input);
    v.len() > 0 && chars_in_class(CharClass::Decimal, &v) && count_of(&v, '.') <= 1 && count_of(
        &v,
        '-',
    ) <= 1 && !begins_with(&v, "--") && !finishes_with(&v, ".") && !begins_with(&v, ".")
}

/// Check if a string has the shape of a point in time.
pub fn is_safe_datetime(input: &str) -> (r: bool)
    ensures
        r == safe_datetime(input@),
{
    let v = chars_of(input);
    chars_in_class(CharClass::Datetime, &v) && v.len() >= 10 && v.len() <= 30
}

/// Whether the lowercase text holds a dangerous pattern.
pub fn holds_dangerous_pattern(lowered: &Vec<char>) -> (r: bool)
    ensures
        r == has_dangerous_pattern(lowered@),
{
    holds(lowered, "select") || holds(lowered, "insert") || holds(lowered, "update") || holds(
        lowered,
        "delete",
    ) || holds(lowered, "drop") || holds(lowered, "alter") || holds(lowered, "create") || holds(
        lowered,
        "union",
    ) || holds(lowered, "script") || holds(lowered, "--") || holds(lowered, "/*") || holds(
        lowered,
        "*/",
    ) || holds(lowered, "'") || holds(lowered, "\"") || holds(lowered, ";") || holds(
        lowered,
        "\\",
    ) || holds(lowered, "exec") || holds(lowered, "execute") || holds(lowered, "sp_") || holds(
        lowered,
        "xp_",
    )
}

/// Whether a free text is safe, given its lowercase form.
pub fn is_safe_string_given(input: &str, lowered: &str) -> (r: bool)
    ensures
        r == safe_string(input@, lowered@),
{
    let v = chars_of(input);
    if v.len() == 0 {
        return false;
    }
    let star = chars_of("*");
    if crate::text::same_chars(&v, &star) {
        return true;
    }
    let low = chars_of(lowered);
    if holds_dangerous_pattern(&low) {
        return false;
    }
    chars_in_class(CharClass::Free, &v)
}

/// Check if a string is safe for database queries.
pub fn is_safe_string(input: &str) -> (r: bool)
    ensures
        r == safe_string(input@, lowercase(input@)),
{
    let lowered = to_lowercase(input);
    is_safe_string_given(input, lowered.as_str())
}

/// Every run of digits writes a number that is not negative.
pub proof fn lemma_digits_value_nonnegative(s: Seq<char>)
    requires
        all_digits(s),
    ensures
        digits_value(s) >= 0,
    decreases s.len(),
{
    if s.len() > 0 {
        assert(all_digits(s.drop_last())) by {
            assert forall|i: int| 0 <= i < s.drop_last().len() implies is_digit(
                #[trigger] s.drop_last()[i],
            ) by {
                assert(s.drop_last()[i] == s[i]);
            }
        }
        lemma_digits_value_nonnegative(s.drop_last());
        assert(is_digit(s.last()));
    }
}

/// A run of digits writes at least what any of its beginnings writes.
pub proof fn lemma_digits_value_prefix(s: Seq<char>, k: int)
    requires
        all_digits(s),
        0 <= k <= s.len(),
    ensures
        digits_value(s.take(k)) <= digits_value(s),
    decreases s.len(),
{
    if k == s.len() {
        assert(s.take(k) =~= s);
    } else {
        let init = s.drop_last();
        assert(all_digits(init)) by {
            assert forall|i: int| 0 <= i < init.len() implies is_digit(#[trigger] init[i]) by {
                assert(init[i] == s[i]);
            }
        }
        lemma_digits_value_prefix(init, k);
        lemma_digits_value_nonnegative(init);
        assert(init.take(k) =~= s.take(k));
        assert(is_digit(s.last()));
    }
}

/// The number that the digits from `start` on write, where there is at
/// least one character, all are digits, and the number is at most `limit`.
pub open spec fn bounded_digits(s: Seq<char>, start: int, limit: int) -> Option<int> {
    let digits = s.skip(start);
    if digits.len() > 0 && all_digits(digits) && digits_value(digits) <= limit {
        Some(digits_value(digits))
    } else {
        None
    }
}

/// Reads the digits from `start` on as a number of at most `limit`.
pub(crate) fn read_digits(v: &Vec<char>, start: usize, limit: u64) -> (r: Option<u64>)
    requires
        start <= v.len(),
        limit <= 0xffff_ffff_ffff,
    ensures
        match r {
            Some(x) => bounded_digits(v@, start as int, limit as int) == Some(x as int),
            None => bounded_digits(v@, start as int, limit as int) is None,
        },
{
    let ghost digits = v@.skip(start as int);
    if start == v.len() {
        return None;
    }
    let mut acc: u64 = 0;
    let mut i: usize = start;
    proof {
        assert(digits.take(0) =~= Seq::<char>::empty());
    }
    while i < v.len()
        invariant
            start <= i <= v.len(),
            start < v.len(),
            limit <= 0xffff_ffff_ffff,
            digits == v@.skip(start as int),
            all_digits(digits.take(i - start)),
            acc == digits_value(digits.take(i - start)),
            0 <= acc <= limit,
        decreases v.len() - i,
    {
        let c = v[i];
        let ghost next = digits.take(i + 1 - start);
        proof {
            assert(next.drop_last() =~= digits.take(i - start));
            assert(next.last() == c);
            assert(digits[i - start] == c);
        }
        if !(c >= '0' && c <= '9') {
            proof {
                assert(!is_digit(digits[i - start]));
            }
            return None;
        }
        let d: u32 = c as u32 - '0' as u32;
        acc = acc * 10 + d as u64;
        proof {
            assert forall|j: int| 0 <= j < next.len() implies is_digit(#[trigger] next[j]) by {
                if j < next.len() - 1 {
                    assert(next[j] == digits.take(i - start)[j]);
                }
            }
        }
        if acc > limit {
            proof {
                if all_digits(digits) {
                    lemma_digits_value_prefix(digits, i + 1 - start);
                }
            }
            return None;
        }
        i += 1;
    }
    proof {
        assert(digits.take(v.len() - start) =~= digits);
    }
    Some(acc)
}

/// Reads a numeral as a 32-bit integer.
pub fn read_integer(v: &Vec<char>) -> (r: Option<i32>)
    ensures
        match r {
            Some(x) => integer_value(v@) == Some(x as int),
            None => integer_value(v@) is None,
        },
{
    let negative = v.len() > 0 && v[0] == '-';
    proof {
        assert(v@.skip(0) =~= v@);
    }
    if negative {
        match read_digits(v, 1, 2147483648) {
            Some(x) => Some((-(x as i64)) as i32),
            None => None,
        }
    } else {
        match read_digits(v, 0, 2147483647) {
            Some(x) => Some(x as i32),
            None => None,
        }
    }
}

/// Parse and validate an integer string.
pub fn parse_safe_integer(input: &str, field_name: &str) -> (r: Result<i32, String>)
    ensures
        match r {
            Ok(v) => safe_integer_outcome(input@, field_name@) == Ok::<int, Seq<char>>(v as int),
            Err(e) => safe_integer_outcome(input@, field_name@) == Err::<int, Seq<char>>(e@),
        },
{
    if !is_safe_integer(input) {
        return Err(join3("Invalid ", field_name, " format"));
    }
    let v = chars_of(input);
    match read_integer(&v) {
        Some(x) => Ok(x),
        None => Err(join2("Invalid integer format for ", field_name)),
    }
}

/// The outcome of reading a decimal, given what the decimal parser made of
/// the text.
pub fn parse_safe_decimal_given(input: &str, field_name: &str, parsed: Option<Decimal>) -> (r:
    Result<Decimal, String>)
    ensures
        outcome_of(r) == safe_decimal_outcome(input@, field_name@, parsed),
{
    if !is_safe_decimal(input) {
        return Err(join3("Invalid ", field_name, " format"));
    }
    match parsed {
        Some(d) => Ok(d),
        None => Err(join2("Invalid decimal format for ", field_name)),
    }
}

/// Parse and validate a decimal string.
pub fn parse_safe_decimal(input: &str, field_name: &str) -> (r: Result<Decimal, String>)
    ensures
        outcome_of(r) == safe_decimal_outcome(input@, field_name@, decimal_from_text(input@)),
{
    let parsed = parse_decimal(input);
    parse_safe_decimal_given(input, field_name, parsed)
}

/// The outcome of reading a point in time, given what the datetime parser
/// made of the text.
pub fn parse_safe_datetime_given(input: &str, field_name: &str, parsed: Option<Timestamp>) -> (r:
    Result<Timestamp, String>)
    ensures
        outcome_of(r) == safe_datetime_outcome(input@, field_name@, parsed),
{
    if !is_safe_datetime(input) {
        return Err(join3("Invalid ", field_name, " format"));
    }
    match parsed {
        Some(t) => Ok(t),
        None => Err(
            join3(
                "Invalid datetime format for ",
                field_name,
                ". Use ISO 8601 format (e.g., 2024-12-31T23:59:59Z)",
            ),
        ),
    }
}

/// Parse and validate a datetime string.
pub fn parse_safe_datetime(input: &str, field_name: &str) -> (r: Result<Timestamp, String>)
    ensures
        outcome_of(r) == safe_datetime_outcome(input@, field_name@, timestamp_from_text(input@)),
{
    let parsed = parse_timestamp(input);
    parse_safe_datetime_given(input, field_name, parsed)
}

/// The outcome of checking a free text, given its lowercase form.
pub fn validate_safe_string_given(input: &str, field_name: &str, lowered: &str) -> (r: Result<
    (),
    String,
>)
    ensures
        outcome_of(r) == safe_string_outcome(input@, field_name@, lowered@),
{
    if input.unicode_len() == 0 {
        return Err(join2(field_name, " cannot be empty"));
    }
    if !is_safe_string_given(input, lowered) {
        return Err(join2("Invalid ", field_name));
    }
    Ok(())
}

/// Validate a free text and say what is wrong with it.
pub fn validate_safe_string(input: &str, field_name: &str) -> (r: Result<(), String>)
    ensures
        outcome_of(r) == safe_string_outcome(input@, field_name@, lowercase(input@)),
{
    let lowered = to_lowercase(input);
    validate_safe_string_given(input, field_name, lowered.as_str())
}

} // verus!
