//! Text building blocks of the wire format: decimal numbers, JSON literals
//! and comma-joined token lists.

use itertools::Itertools;
use serde_json::Error as JsonError;
use vstd::prelude::*;

verus! {

#[verifier::external_type_specification]
#[verifier::external_body]
pub struct ExJsonValue(serde_json::Value);

#[verifier::external_type_specification]
#[verifier::external_body]
pub struct ExJsonError(JsonError);

/// Relies on the derived `Clone` of `serde_json::Value`, which copies the value.
pub assume_specification[ <serde_json::Value as Clone>::clone ](v: &serde_json::Value) -> serde_json::Value;

/// A lower-case hexadecimal digit.
pub open spec fn hex_digit(d: nat) -> char {
    if d < 10 {
        digit_char(d)
    } else if d == 10 {
        'a'
    } else if d == 11 {
        'b'
    } else if d == 12 {
        'c'
    } else if d == 13 {
        'd'
    } else if d == 14 {
        'e'
    } else {
        'f'
    }
}

/// How `serde_json` writes one character inside a string literal: the quote
/// and the backslash behind a backslash, the control characters below U+0020
/// as `\b \t \n \f \r` or `\u00XX`, every other character as itself.
pub open spec fn escaped_char(c: char) -> Seq<char> {
    if c == '"' {
        seq!['\\', '"']
    } else if c == '\\' {
        seq!['\\', '\\']
    } else if c == '\u{8}' {
        seq!['\\', 'b']
    } else if c == '\t' {
        seq!['\\', 't']
    } else if c == '\n' {
        seq!['\\', 'n']
    } else if c == '\u{c}' {
        seq!['\\', 'f']
    } else if c == '\r' {
        seq!['\\', 'r']
    } else if (c as u32) < 0x20 {
        seq!['\\', 'u', '0', '0', hex_digit((c as u32 / 16) as nat), hex_digit((c as u32 % 16) as nat)]
    } else {
        seq![c]
    }
}

/// The characters of `s`, each written as `escaped_char` writes it.
pub open spec fn escaped_text(s: Seq<char>) -> Seq<char>
    decreases s.len(),
{
    if s.len() == 0 {
        Seq::empty()
    } else {
        escaped_text(s.drop_last()) + escaped_char(s.last())
    }
}

/// The JSON string literal that encodes `s`: quoted, with the characters that
/// JSON requires escaped.
pub open spec fn json_string_text(s: Seq<char>) -> Seq<char> {
    seq!['"'] + escaped_text(s) + seq!['"']
}

/// A character that a JSON string literal carries as itself.
pub open spec fn json_plain_char(c: char) -> bool {
    c != '"' && c != '\\' && (c as u32) >= 0x20
}

/// A text without quotes, backslashes or control characters is written
/// between quotes as it is.
pub proof fn lemma_json_string_plain(s: Seq<char>)
    requires
        forall|i: int| 0 <= i < s.len() ==> json_plain_char(#[trigger] s[i]),
    ensures
        json_string_text(s) == seq!['"'] + s + seq!['"'],
    decreases s.len(),
{
    lemma_escaped_plain(s);
}

proof fn lemma_escaped_plain(s: Seq<char>)
    requires
        forall|i: int| 0 <= i < s.len() ==> json_plain_char(#[trigger] s[i]),
    ensures
        escaped_text(s) == s,
    decreases s.len(),
{
    if s.len() > 0 {
        let prev = s.drop_last();
        assert forall|i: int| 0 <= i < prev.len() implies json_plain_char(#[trigger] prev[i]) by {
            assert(prev[i] == s[i]);
        }
        lemma_escaped_plain(prev);
        assert(json_plain_char(s[s.len() - 1]));
        assert(prev.push(s.last()) =~= s);
        assert(escaped_text(s) =~= s);
    } else {
        assert(s =~= Seq::<char>::empty());
    }
}

/// Whether `serde_json` reads `s` as exactly one JSON value; among other
/// texts, it refuses values nested deeper than its recursion limit.
pub uninterp spec fn json_valid(s: Seq<char>) -> bool;

/// Relies on `serde_json::to_string` applied to a `str`: it writes the JSON
/// string literal of `s` into memory, which has no failing path, escaping
/// by the table in `format_escaped_str_contents` and `write_char_escape`.
#[verifier::external_body]
fn json_string_result(s: &str) -> (r: Result<String, JsonError>)
    ensures
        r is Ok,
        r->Ok_0@ == json_string_text(s@),
{
    serde_json::to_string(s)
}

/// Relies on `serde_json::from_str` into a `serde_json::Value`: whether it
/// succeeds depends on the text alone.
#[verifier::external_body]
pub(crate) fn parse_json(s: &str) -> (r: Result<serde_json::Value, JsonError>)
    ensures
        r is Ok <==> json_valid(s@),
{
    serde_json::from_str(s)
}

/// The compact JSON text that `serde_json` writes for a value.
pub uninterp spec fn value_text(v: serde_json::Value) -> Seq<char>;

/// Relies on the `Display` impl of `serde_json::Value`, which writes the value
/// as compact JSON text; the text depends on the value alone.
#[verifier::external_body]
pub(crate) fn json_value_text(v: &serde_json::Value) -> (r: String)
    ensures
        r@ == value_text(*v),
{
    v.to_string()
}

/// Relies on the `Display` impl of `serde_json::Error`, its message.
#[verifier::external_body]
pub(crate) fn json_error_text(e: &JsonError) -> String {
    e.to_string()
}

/// Relies on `itertools::Itertools::join`: the items in order, with a comma
/// between each two neighbours.
#[verifier::external_body]
fn join_with_commas(items: &Vec<String>) -> (r: String)
    ensures
        r@ == comma_join(items@.map_values(|t: String| t@)),
{
    items.iter().join(",")
}

/// The tokens in order with a comma between each two neighbours; empty for no
/// tokens.
pub open spec fn comma_join(tokens: Seq<Seq<char>>) -> Seq<char>
    decreases tokens.len(),
{
    if tokens.len() == 0 {
        Seq::empty()
    } else if tokens.len() == 1 {
        tokens[0]
    } else {
        comma_join(tokens.drop_last()) + seq![','] + tokens.last()
    }
}

/// Joins the texts with commas.
pub fn join_commas(items: &Vec<String>) -> (r: String)
    ensures
        r@ == comma_join(items@.map_values(|t: String| t@)),
{
    join_with_commas(items)
}

/// Whether the two texts are equal.
pub fn same_text(a: &str, b: &str) -> (r: bool)
    ensures
        r == (a@ == b@),
{
    a.to_owned() == b.to_owned()
}

/// The JSON string literal of `s`.
pub fn json_string(s: &str) -> (r: String)
    ensures
        r@ == json_string_text(s@),
{
    match json_string_result(s) {
        Ok(t) => t,
        Err(_) => {
            proof {
                assert(false);
            }
            String::new()
        },
    }
}

/// The character of a decimal digit.
pub open spec fn digit_char(d: nat) -> char {
    if d == 0 { '0' }
    else if d == 1 { '1' }
    else if d == 2 { '2' }
    else if d == 3 { '3' }
    else if d == 4 { '4' }
    else if d == 5 { '5' }
    else if d == 6 { '6' }
    else if d == 7 { '7' }
    else if d == 8 { '8' }
    else { '9' }
}

/// The decimal representation of `n`, without sign or leading zeros.
pub open spec fn decimal(n: nat) -> Seq<char>
    decreases n,
{
    if n < 10 {
        seq![digit_char(n)]
    } else {
        decimal(n / 10) + seq![digit_char(n % 10)]
    }
}

fn digit_str(d: u64) -> (r: &'static str)
    requires
        d < 10,
    ensures
        r@ == seq![digit_char(d as nat)],
{
    proof {
        reveal_strlit("0");
        reveal_strlit("1");
        reveal_strlit("2");
        reveal_strlit("3");
        reveal_strlit("4");
        reveal_strlit("5");
        reveal_strlit("6");
        reveal_strlit("7");
        reveal_strlit("8");
        reveal_strlit("9");
    }
    match d {
        0 => "0",
        1 => "1",
        2 => "2",
        3 => "3",
        4 => "4",
        5 => "5",
        6 => "6",
        7 => "7",
        8 => "8",
        _ => "9",
    }
}

/// The decimal representation of `i`, with a minus sign when negative.
pub open spec fn signed_decimal(i: int) -> Seq<char> {
    if i < 0 {
        seq!['-'] + decimal((-i) as nat)
    } else {
        decimal(i as nat)
    }
}

/// Writes `i` in decimal, with a minus sign when negative.
pub fn signed_decimal_string(i: i64) -> (r: String)
    ensures
        r@ == signed_decimal(i as int),
{
    if i < 0 {
        let magnitude: u64 = (-(i as i128)) as u64;
        let mut s = "-".to_owned();
        s.append(decimal_string(magnitude).as_str());
        proof {
            reveal_strlit("-");
        }
        assert(s@ =~= signed_decimal(i as int));
        s
    } else {
        decimal_string(i as u64)
    }
}

/// Writes `n` in decimal.
pub fn decimal_string(n: u64) -> (r: String)
    ensures
        r@ == decimal(n as nat),
    decreases n,
{
    if n < 10 {
        digit_str(n).to_owned()
    } else {
        let mut s = decimal_string(n / 10);
        s.append(digit_str(n % 10));
        s
    }
}

} // verus!
