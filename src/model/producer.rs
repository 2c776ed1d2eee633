//! Producers: companies, groups and individuals.

use crate::error::Error;
use crate::id::{check_id, is_id, prefixed_number, prefixed_number_string, prefixed_signed, prefixed_signed_string};
use crate::model::schema::Language;
use crate::model::{QueryField, Sealed, SortQueryBy};
use vstd::prelude::*;

verus! {

/// The id of a producer: `p` followed by a decimal number.
#[derive(Clone, Debug, PartialEq, Eq, Hash)]
pub struct ProducerId(String);

impl View for ProducerId {
    type V = Seq<char>;

    closed spec fn view(&self) -> Seq<char> {
        self.0@
    }
}

impl ProducerId {
    /// The letter that starts every id of this kind.
    pub const PREFIX: &'static str = "p";

    /// Takes the text as an id without checking it.
    pub fn new(text: &str) -> (r: Self)
        ensures
            r@ == text@,
    {
        ProducerId(text.to_owned())
    }

    /// The id of the given number.
    pub fn from_number(n: u64) -> (r: Self)
        ensures
            r@ == prefixed_number("p"@, n as nat),
    {
        ProducerId(prefixed_number_string(Self::PREFIX, n))
    }

    /// Checks the text against the id pattern and takes it as an id.
    pub fn parse(value: &str) -> (r: Result<Self, Error>)
        ensures
            r is Ok <==> is_id("p"@, value@),
            r is Ok ==> r->Ok_0@ == value@,
            r is Err ==> (r matches Err(Error::InvalidId(t)) && t@ == value@),
    {
        let id = ProducerId(value.to_owned());
        match id.validate() {
            Ok(()) => Ok(id),
            Err(e) => Err(e),
        }
    }

    /// Checks the id against the id pattern.
    pub fn validate(&self) -> (r: Result<(), Error>)
        ensures
            r is Ok <==> is_id("p"@, self@),
            r is Err ==> (r matches Err(Error::InvalidId(t)) && t@ == self@),
    {
        check_id(Self::PREFIX, self.0.as_str())
    }

    /// The text of the id.
    pub fn as_str(&self) -> (r: &str)
        ensures
            r@ == self@,
    {
        self.0.as_str()
    }

    /// The text of the id.
    pub fn into_inner(self) -> (r: String)
        ensures
            r@ == self@,
    {
        self.0
    }
}

impl From<u64> for ProducerId {
    fn from(n: u64) -> (r: Self)
        ensures
            r@ == prefixed_number("p"@, n as nat),
    {
        Self::from_number(n)
    }
}

impl vstd::std_specs::convert::FromSpecImpl<u64> for ProducerId {
    open spec fn obeys_from_spec() -> bool {
        false
    }

    open spec fn from_spec(n: u64) -> Self {
        arbitrary()
    }
}

impl From<u8> for ProducerId {
    fn from(n: u8) -> (r: Self)
        ensures
            r@ == prefixed_number("p"@, n as nat),
    {
        Self::from_number(n as u64)
    }
}

impl vstd::std_specs::convert::FromSpecImpl<u8> for ProducerId {
    open spec fn obeys_from_spec() -> bool {
        false
    }

    open spec fn from_spec(n: u8) -> Self {
        arbitrary()
    }
}

impl From<u16> for ProducerId {
    fn from(n: u16) -> (r: Self)
        ensures
            r@ == prefixed_number("p"@, n as nat),
    {
        Self::from_number(n as u64)
    }
}

impl vstd::std_specs::convert::FromSpecImpl<u16> for ProducerId {
    open spec fn obeys_from_spec() -> bool {
        false
    }

    open spec fn from_spec(n: u16) -> Self {
        arbitrary()
    }
}

impl From<u32> for ProducerId {
    fn from(n: u32) -> (r: Self)
        ensures
            r@ == prefixed_number("p"@, n as nat),
    {
        Self::from_number(n as u64)
    }
}

impl vstd::std_specs::convert::FromSpecImpl<u32> for ProducerId {
    open spec fn obeys_from_spec() -> bool {
        false
    }

    open spec fn from_spec(n: u32) -> Self {
        arbitrary()
    }
}

impl From<i8> for ProducerId {
    fn from(n: i8) -> (r: Self)
        ensures
            r@ == prefixed_signed("p"@, n as int),
    {
        ProducerId(prefixed_signed_string(Self::PREFIX, n as i64))
    }
}

impl vstd::std_specs::convert::FromSpecImpl<i8> for ProducerId {
    open spec fn obeys_from_spec() -> bool {
        false
    }

    open spec fn from_spec(n: i8) -> Self {
        arbitrary()
    }
}

impl From<i16> for ProducerId {
    fn from(n: i16) -> (r: Self)
        ensures
            r@ == prefixed_signed("p"@, n as int),
    {
        ProducerId(prefixed_signed_string(Self::PREFIX, n as i64))
    }
}

impl vstd::std_specs::convert::FromSpecImpl<i16> for ProducerId {
    open spec fn obeys_from_spec() -> bool {
        false
    }

    open spec fn from_spec(n: i16) -> Self {
        arbitrary()
    }
}

impl From<i32> for ProducerId {
    fn from(n: i32) -> (r: Self)
        ensures
            r@ == prefixed_signed("p"@, n as int),
    {
        ProducerId(prefixed_signed_string(Self::PREFIX, n as i64))
    }
}

impl vstd::std_specs::convert::FromSpecImpl<i32> for ProducerId {
    open spec fn obeys_from_spec() -> bool {
        false
    }

    open spec fn from_spec(n: i32) -> Self {
        arbitrary()
    }
}

impl From<i64> for ProducerId {
    fn from(n: i64) -> (r: Self)
        ensures
            r@ == prefixed_signed("p"@, n as int),
    {
        ProducerId(prefixed_signed_string(Self::PREFIX, n as i64))
    }
}

impl vstd::std_specs::convert::FromSpecImpl<i64> for ProducerId {
    open spec fn obeys_from_spec() -> bool {
        false
    }

    open spec fn from_spec(n: i64) -> Self {
        arbitrary()
    }
}

impl From<&str> for ProducerId {
    fn from(text: &str) -> (r: Self)
        ensures
            r@ == text@,
    {
        Self::new(text)
    }
}

impl vstd::std_specs::convert::FromSpecImpl<&str> for ProducerId {
    open spec fn obeys_from_spec() -> bool {
        false
    }

    open spec fn from_spec(text: &str) -> Self {
        arbitrary()
    }
}

impl From<String> for ProducerId {
    fn from(text: String) -> (r: Self)
        ensures
            r@ == text@,
    {
        ProducerId(text)
    }
}

impl vstd::std_specs::convert::FromSpecImpl<String> for ProducerId {
    open spec fn obeys_from_spec() -> bool {
        false
    }

    open spec fn from_spec(text: String) -> Self {
        arbitrary()
    }
}

/// The kind of a producer.
#[derive(Clone, Copy, Debug, PartialEq, Eq, Structural, Hash)]
pub enum ProducerType {
    AmateurGroup,
    Company,
    Individual,
}

/// A producer record; fields that were not selected are `None`.
#[derive(Clone, Debug)]
pub struct Producer {
    pub aliases: Option<Vec<String>>,
    pub description: Option<String>,
    pub id: ProducerId,
    pub lang: Option<Language>,
    pub name: Option<String>,
    pub original: Option<String>,
    pub type_: Option<ProducerType>,
}

impl From<Producer> for ProducerId {
    fn from(record: Producer) -> (r: ProducerId)
        ensures
            r == record.id,
    {
        record.id
    }
}

impl vstd::std_specs::convert::FromSpecImpl<Producer> for ProducerId {
    open spec fn obeys_from_spec() -> bool {
        true
    }

    open spec fn from_spec(record: Producer) -> ProducerId {
        record.id
    }
}

/// A field of a producer record.
#[derive(Clone, Copy, Debug, PartialEq, Eq, Structural, Hash)]
pub enum ProducerField {
    Aliases,
    Description,
    Id,
    Lang,
    Name,
    Original,
    Type,
}

impl Sealed for ProducerField {

}

impl QueryField for ProducerField {
    open spec fn token_spec(&self) -> Seq<char> {
        match self {
            ProducerField::Aliases => "aliases"@,
            ProducerField::Description => "description"@,
            ProducerField::Id => "id"@,
            ProducerField::Lang => "lang"@,
            ProducerField::Name => "name"@,
            ProducerField::Original => "original"@,
            ProducerField::Type => "type"@,
        }
    }

    fn token(&self) -> (r: &'static str) {
        match self {
            ProducerField::Aliases => "aliases",
            ProducerField::Description => "description",
            ProducerField::Id => "id",
            ProducerField::Lang => "lang",
            ProducerField::Name => "name",
            ProducerField::Original => "original",
            ProducerField::Type => "type",
        }
    }

    fn variants() -> (r: Vec<Self>) {
        let mut v: Vec<Self> = Vec::new();
        v.push(ProducerField::Aliases);
        v.push(ProducerField::Description);
        v.push(ProducerField::Id);
        v.push(ProducerField::Lang);
        v.push(ProducerField::Name);
        v.push(ProducerField::Original);
        v.push(ProducerField::Type);
        proof {
            assert forall|f: Self| v@.contains(f) by {
                match f {
                    ProducerField::Aliases => assert(v@[0] == f),
                    ProducerField::Description => assert(v@[1] == f),
                    ProducerField::Id => assert(v@[2] == f),
                    ProducerField::Lang => assert(v@[3] == f),
                    ProducerField::Name => assert(v@[4] == f),
                    ProducerField::Original => assert(v@[5] == f),
                    ProducerField::Type => assert(v@[6] == f),
                }
            }
        }
        v
    }
}

/// A sort key of producer queries.
#[derive(Clone, Copy, Debug, PartialEq, Eq, Structural, Hash)]
pub enum SortProducerBy {
    Id,
    Name,
    SearchRank,
}

impl Sealed for SortProducerBy {

}

impl SortQueryBy for SortProducerBy {
    open spec fn token_spec(&self) -> Seq<char> {
        match self {
            SortProducerBy::Id => "id"@,
            SortProducerBy::Name => "name"@,
            SortProducerBy::SearchRank => "searchrank"@,
        }
    }

    fn token(&self) -> (r: &'static str) {
        match self {
            SortProducerBy::Id => "id",
            SortProducerBy::Name => "name",
            SortProducerBy::SearchRank => "searchrank",
        }
    }
}

} // verus!
