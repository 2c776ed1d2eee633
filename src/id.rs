//! Resource ids: a one-letter prefix followed by a decimal number.

use crate::error::Error;
use crate::wire::{decimal, decimal_string, signed_decimal, signed_decimal_string};
use vstd::prelude::*;

verus! {

/// Whether the regular expression `pattern` finds a match in `text`.
pub uninterp spec fn regex_matches(pattern: Seq<char>, text: Seq<char>) -> bool;

/// Whether `regex::Regex::new` accepts `pattern`.
pub uninterp spec fn regex_compiles(pattern: Seq<char>) -> bool;

/// Relies on `regex::Regex::new`, whose outcome depends on the pattern alone,
/// and `regex::Regex::is_match`: when the pattern compiles, whether it
/// matches somewhere in `text`.
#[verifier::external_body]
fn regex_is_match(pattern: &str, text: &str) -> (r: Option<bool>)
    ensures
        r is Some <==> regex_compiles(pattern@),
        r is Some ==> r->Some_0 == regex_matches(pattern@, text@),
{
    match regex::Regex::new(pattern) {
        Ok(re) => Some(re.is_match(text)),
        Err(_) => None,
    }
}

/// The anchored pattern of the ids with the given prefix: the prefix, then
/// one or more decimal digits, and nothing else.
pub open spec fn id_pattern(prefix: Seq<char>) -> Seq<char> {
    seq!['^'] + prefix + seq!['\\', 'd', '+', '$']
}

/// The id text of the number `n` under `prefix`.
pub open spec fn prefixed_number(prefix: Seq<char>, n: nat) -> Seq<char> {
    prefix + decimal(n)
}

/// The id text of the signed number `i` under `prefix`.
pub open spec fn prefixed_signed(prefix: Seq<char>, i: int) -> Seq<char> {
    prefix + signed_decimal(i)
}

/// Writes the id of the signed number `i` under `prefix`.
pub fn prefixed_signed_string(prefix: &str, i: i64) -> (r: String)
    ensures
        r@ == prefixed_signed(prefix@, i as int),
{
    let mut s = prefix.to_owned();
    let digits = signed_decimal_string(i);
    s.append(digits.as_str());
    s
}

/// Builds the pattern of the ids with the given prefix.
pub fn id_pattern_string(prefix: &str) -> (r: String)
    ensures
        r@ == id_pattern(prefix@),
{
    let mut s = "^".to_owned();
    s.append(prefix);
    s.append("\\d+$");
    proof {
        reveal_strlit("^");
        reveal_strlit("\\d+$");
    }
    assert(s@ =~= id_pattern(prefix@));
    s
}

/// Writes the id of the number `n` under `prefix`.
pub fn prefixed_number_string(prefix: &str, n: u64) -> (r: String)
    ensures
        r@ == prefixed_number(prefix@, n as nat),
{
    let mut s = prefix.to_owned();
    let digits = decimal_string(n);
    s.append(digits.as_str());
    s
}

/// Decides an id check from the outcome of matching its pattern: the text
/// passes only when the pattern compiled and matched.
pub fn id_check_outcome(text: &str, matched: Option<bool>) -> (r: Result<(), Error>)
    ensures
        matched == Some(true) ==> r is Ok,
        matched != Some(true) ==> (r matches Err(Error::InvalidId(t)) && t@ == text@),
{
    match matched {
        Some(true) => Ok(()),
        _ => Err(Error::InvalidId(text.to_owned())),
    }
}

/// Whether `text` is an id under `prefix`: the id pattern compiles and
/// matches it.
pub open spec fn is_id(prefix: Seq<char>, text: Seq<char>) -> bool {
    regex_compiles(id_pattern(prefix)) && regex_matches(id_pattern(prefix), text)
}

/// Checks `text` against the id pattern of `prefix`.
pub fn check_id(prefix: &str, text: &str) -> (r: Result<(), Error>)
    ensures
        r is Ok <==> is_id(prefix@, text@),
        r is Err ==> (r matches Err(Error::InvalidId(t)) && t@ == text@),
{
    let pattern = id_pattern_string(prefix);
    let matched = regex_is_match(pattern.as_str(), text);
    id_check_outcome(text, matched)
}

} // verus!
