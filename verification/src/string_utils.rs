//! Small text transformations: search patterns, shortening, and hiding
//! sensitive words before a text is logged.

use crate::text::{chars_of, join2, replace_all, replace_chars, same_chars, string_of};
use vstd::prelude::*;
use vstd::string::*;
use vstd::utf8::*;

verus! {

/// `s` with the two wildcards of the pattern language, `%` and `_`, each
/// preceded by a backslash.
pub open spec fn escape_wildcards(s: Seq<char>) -> Seq<char> {
    replace_all(replace_all(s, "%"@, "\\%"@), "_"@, "\\_"@)
}

/// The pattern that finds `s` anywhere in a text: `%` alone for the lone
/// wildcard `*`, else the escaped text between two `%`.
pub open spec fn search_pattern(s: Seq<char>) -> Seq<char> {
    if s == "*"@ {
        "%"@
    } else {
        "%"@ + escape_wildcards(s) + "%"@
    }
}

/// `s` with the words `password`, `token` and `secret` replaced by `***`, in
/// that order.
pub open spec fn sanitized(s: Seq<char>) -> Seq<char> {
    replace_all(
        replace_all(replace_all(s, "password"@, "***"@), "token"@, "***"@),
        "secret"@,
        "***"@,
    )
}

/// Where a text longer than `max_len` bytes is cut: three bytes before the
/// limit, or at the start.
pub open spec fn cut_index(max_len: usize) -> int {
    if max_len >= 3 {
        max_len - 3
    } else {
        0
    }
}

/// A text of at most `max_len` bytes as it is; a longer one cut at
/// `cut_index` and followed by three dots.
pub open spec fn truncated(s: Seq<char>, max_len: usize) -> Seq<char> {
    if encode_utf8(s).len() as usize <= max_len {
        s
    } else {
        decode_utf8(encode_utf8(s).subrange(0, cut_index(max_len))) + "..."@
    }
}

/// Convert a text to a pattern for a case-insensitive substring search.
pub fn to_search_pattern(input: &str) -> (r: String)
    ensures
        r@ == search_pattern(input@),
{
    let v = chars_of(input);
    let star = chars_of("*");
    if same_chars(&v, &star) {
        return "%".to_owned();
    }
    let percent = chars_of("%");
    let escaped_percent = chars_of("\\%");
    let underscore = chars_of("_");
    let escaped_underscore = chars_of("\\_");
    let a = replace_chars(&v, &percent, &escaped_percent);
    let b = replace_chars(&a, &underscore, &escaped_underscore);
    let mut out = "%".to_owned();
    crate::text::push_chars(&mut out, &b, 0);
    out.append("%");
    assert(b@.skip(0) =~= b@);
    out
}

/// Truncate a text to a maximum length in bytes. A text that must be cut is
/// cut three bytes before the limit, which has to fall between two
/// characters.
pub fn truncate(input: &str, max_len: usize) -> (r: String)
    requires
        encode_utf8(input@).len() as usize > max_len ==> is_char_boundary(
            encode_utf8(input@),
            cut_index(max_len),
        ),
    ensures
        r@ == truncated(input@, max_len),
{
    if input.len() <= max_len {
        input.to_owned()
    } else {
        let cut: usize = if max_len >= 3 {
            max_len - 3
        } else {
            0
        };
        let (head, _tail) = input.split_at(cut);
        proof {
            encode_utf8_decode_utf8(head@);
            assert(head.spec_bytes() == encode_utf8(input@).subrange(0, cut as int));
        }
        join2(head, "...")
    }
}

/// Hide sensitive words before a text is logged.
pub fn sanitize_for_log(input: &str) -> (r: String)
    ensures
        r@ == sanitized(input@),
{
    let v = chars_of(input);
    let stars = chars_of("***");
    let a = replace_chars(&v, &chars_of("password"), &stars);
    let b = replace_chars(&a, &chars_of("token"), &stars);
    let c = replace_chars(&b, &chars_of("secret"), &stars);
    string_of(&c)
}

} // verus!
