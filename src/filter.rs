//! Filter expressions of list queries, held as JSON text.

use crate::error::Error;
use crate::wire::{json_plain_char, json_string, json_string_text, lemma_json_string_plain, json_valid, json_value_text, parse_json, value_text};
use std::borrow::Cow;
use vstd::prelude::*;

verus! {

/// The JSON text of the filter `[name, "=", value]`.
pub open spec fn predicate_text(name: Seq<char>, value: Seq<char>) -> Seq<char> {
    seq!['['] + json_string_text(name) + seq![','] + json_string_text(seq!['=']) + seq![','] + json_string_text(value) + seq![']']
}

/// A filter expression tree: JSON text that the server interprets. The JSON
/// `null` means no filter, that is, every record matches.
pub struct JsonQueryFilter {
    json: String,
}

impl View for JsonQueryFilter {
    type V = Seq<char>;

    closed spec fn view(&self) -> Seq<char> {
        self.json@
    }
}

impl JsonQueryFilter {
    /// The filter that the JSON value writes.
    pub fn new(value: serde_json::Value) -> (r: Self)
        ensures
            r@ == value_text(value),
    {
        JsonQueryFilter { json: json_value_text(&value) }
    }

    /// No filter: JSON `null`.
    pub fn null() -> (r: Self)
        ensures
            r@ == "null"@,
    {
        JsonQueryFilter { json: "null".to_owned() }
    }

    /// Takes JSON text as a filter; fails when the text is not one JSON value.
    pub fn parse(text: &str) -> (r: Result<Self, Error>)
        ensures
            r is Ok <==> json_valid(text@),
            r is Ok ==> r->Ok_0@ == text@,
            r is Err ==> r->Err_0 is Json,
    {
        match parse_json(text) {
            Ok(_) => Ok(JsonQueryFilter { json: text.to_owned() }),
            Err(e) => Err(Error::Json(e)),
        }
    }

    /// The filter that matches the record whose id is `id`.
    pub fn id_equals(id: &str) -> (r: Self)
        ensures
            r@ == predicate_text("id"@, id@),
            (forall|i: int| 0 <= i < id@.len() ==> json_plain_char(#[trigger] id@[i])) ==> r@
                == "[\"id\",\"=\",\""@ + id@ + "\"]"@,
    {
        let r = Self::predicate("id", id);
        proof {
            reveal_strlit("id");
            reveal_strlit("[\"id\",\"=\",\"");
            reveal_strlit("\"]");
            let name = "id"@;
            let eq = seq!['='];
            assert(name =~= seq!['i', 'd']);
            lemma_json_string_plain(name);
            lemma_json_string_plain(eq);
            if forall|i: int| 0 <= i < id@.len() ==> json_plain_char(#[trigger] id@[i]) {
                lemma_json_string_plain(id@);
                assert(r@ =~= "[\"id\",\"=\",\""@ + id@ + "\"]"@);
            }
        }
        r
    }

    /// The filter that matches the records that a text search for `text` finds.
    pub fn search(text: &str) -> (r: Self)
        ensures
            r@ == predicate_text("search"@, text@),
    {
        Self::predicate("search", text)
    }

    fn predicate(name: &str, value: &str) -> (r: Self)
        ensures
            r@ == predicate_text(name@, value@),
    {
        let mut s = "[".to_owned();
        s.append(json_string(name).as_str());
        s.append(",");
        s.append(json_string("=").as_str());
        s.append(",");
        s.append(json_string(value).as_str());
        s.append("]");
        proof {
            reveal_strlit("[");
            reveal_strlit(",");
            reveal_strlit("=");
            reveal_strlit("]");
            assert("="@ =~= seq!['=']);
        }
        assert(s@ =~= predicate_text(name@, value@));
        JsonQueryFilter { json: s }
    }

    /// Resets the filter to JSON `null`.
    pub fn clear(&mut self)
        ensures
            final(self)@ == "null"@,
    {
        self.json = "null".to_owned();
    }

    /// Whether the filter is JSON `null`.
    pub fn is_null(&self) -> (r: bool)
        ensures
            r == (self@ == "null"@),
    {
        self.json == "null".to_owned()
    }

    /// The JSON text of the filter.
    pub fn as_str(&self) -> (r: &str)
        ensures
            r@ == self@,
    {
        self.json.as_str()
    }

    /// The JSON text of the filter.
    pub fn into_inner(self) -> (r: String)
        ensures
            r@ == self@,
    {
        self.json
    }
}

impl Default for JsonQueryFilter {
    fn default() -> (r: Self)
        ensures
            r@ == "null"@,
    {
        Self::null()
    }
}

impl Clone for JsonQueryFilter {
    fn clone(&self) -> (r: Self)
        ensures
            r@ == self@,
    {
        JsonQueryFilter { json: self.json.clone() }
    }
}

impl TryFrom<&str> for JsonQueryFilter {
    type Error = Error;

    fn try_from(text: &str) -> (r: Result<Self, Error>)
        ensures
            r is Ok <==> json_valid(text@),
            r is Ok ==> r->Ok_0@ == text@,
            r is Err ==> r->Err_0 is Json,
    {
        Self::parse(text)
    }
}

impl vstd::std_specs::convert::TryFromSpecImpl<&str> for JsonQueryFilter {
    open spec fn obeys_try_from_spec() -> bool {
        false
    }

    open spec fn try_from_spec(text: &str) -> Result<Self, Error> {
        arbitrary()
    }
}

impl TryFrom<String> for JsonQueryFilter {
    type Error = Error;

    fn try_from(text: String) -> (r: Result<Self, Error>)
        ensures
            r is Ok <==> json_valid(text@),
            r is Ok ==> r->Ok_0@ == text@,
            r is Err ==> r->Err_0 is Json,
    {
        Self::parse(text.as_str())
    }
}

impl TryFrom<&String> for JsonQueryFilter {
    type Error = Error;

    fn try_from(text: &String) -> (r: Result<Self, Error>)
        ensures
            r is Ok <==> json_valid(text@),
            r is Ok ==> r->Ok_0@ == text@,
            r is Err ==> r->Err_0 is Json,
    {
        Self::parse(text.as_str())
    }
}

impl vstd::std_specs::convert::TryFromSpecImpl<&String> for JsonQueryFilter {
    open spec fn obeys_try_from_spec() -> bool {
        false
    }

    open spec fn try_from_spec(text: &String) -> Result<Self, Error> {
        arbitrary()
    }
}

impl vstd::std_specs::convert::TryFromSpecImpl<String> for JsonQueryFilter {
    open spec fn obeys_try_from_spec() -> bool {
        false
    }

    open spec fn try_from_spec(text: String) -> Result<Self, Error> {
        arbitrary()
    }
}

impl From<serde_json::Value> for JsonQueryFilter {
    fn from(value: serde_json::Value) -> (r: Self)
        ensures
            r@ == value_text(value),
    {
        Self::new(value)
    }
}

impl vstd::std_specs::convert::FromSpecImpl<serde_json::Value> for JsonQueryFilter {
    open spec fn obeys_from_spec() -> bool {
        false
    }

    open spec fn from_spec(value: serde_json::Value) -> Self {
        arbitrary()
    }
}

impl<'a> TryFrom<Cow<'a, str>> for JsonQueryFilter {
    type Error = Error;

    fn try_from(text: Cow<'a, str>) -> (r: Result<Self, Error>)
        ensures
            r is Ok <==> json_valid(text@),
            r is Ok ==> r->Ok_0@ == text@,
            r is Err ==> r->Err_0 is Json,
    {
        match &text {
            Cow::Borrowed(borrowed) => Self::parse(borrowed),
            Cow::Owned(owned) => Self::parse(owned.as_str()),
        }
    }
}

impl<'a> vstd::std_specs::convert::TryFromSpecImpl<Cow<'a, str>> for JsonQueryFilter {
    open spec fn obeys_try_from_spec() -> bool {
        false
    }

    open spec fn try_from_spec(text: Cow<'a, str>) -> Result<Self, Error> {
        arbitrary()
    }
}

} // verus!
