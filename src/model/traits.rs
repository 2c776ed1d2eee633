//! Character traits.

use crate::error::Error;
use crate::id::{check_id, is_id, prefixed_number, prefixed_number_string, prefixed_signed, prefixed_signed_string};
use crate::model::{QueryField, Sealed, SortQueryBy};
use vstd::prelude::*;

verus! {

/// The id of a character trait: `i` followed by a decimal number.
#[derive(Clone, Debug, PartialEq, Eq, Hash)]
pub struct TraitId(String);

impl View for TraitId {
    type V = Seq<char>;

    closed spec fn view(&self) -> Seq<char> {
        self.0@
    }
}

impl TraitId {
    /// The letter that starts every id of this kind.
    pub const PREFIX: &'static str = "i";

    /// Takes the text as an id without checking it.
    pub fn new(text: &str) -> (r: Self)
        ensures
            r@ == text@,
    {
        TraitId(text.to_owned())
    }

    /// The id of the given number.
    pub fn from_number(n: u64) -> (r: Self)
        ensures
            r@ == prefixed_number("i"@, n as nat),
    {
        TraitId(prefixed_number_string(Self::PREFIX, n))
    }

    /// Checks the text against the id pattern and takes it as an id.
    pub fn parse(value: &str) -> (r: Result<Self, Error>)
        ensures
            r is Ok <==> is_id("i"@, value@),
            r is Ok ==> r->Ok_0@ == value@,
            r is Err ==> (r matches Err(Error::InvalidId(t)) && t@ == value@),
    {
        let id = TraitId(value.to_owned());
        match id.validate() {
            Ok(()) => Ok(id),
            Err(e) => Err(e),
        }
    }

    /// Checks the id against the id pattern.
    pub fn validate(&self) -> (r: Result<(), Error>)
        ensures
            r is Ok <==> is_id("i"@, self@),
            r is Err ==> (r matches Err(Error::InvalidId(t)) && t@ == self@),
    {
        check_id(Self::PREFIX, self.0.as_str())
    }

    /// The text of the id.
    pub fn as_str(&self) -> (r: &str)
        ensures
            r@ == self@,
    {
        self.0.as_str()
    }

    /// The text of the id.
    pub fn into_inner(self) -> (r: String)
        ensures
            r@ == self@,
    {
        self.0
    }
}

impl From<u64> for TraitId {
    fn from(n: u64) -> (r: Self)
        ensures
            r@ == prefixed_number("i"@, n as nat),
    {
        Self::from_number(n)
    }
}

impl vstd::std_specs::convert::FromSpecImpl<u64> for TraitId {
    open spec fn obeys_from_spec() -> bool {
        false
    }

    open spec fn from_spec(n: u64) -> Self {
        arbitrary()
    }
}

impl From<u8> for TraitId {
    fn from(n: u8) -> (r: Self)
        ensures
            r@ == prefixed_number("i"@, n as nat),
    {
        Self::from_number(n as u64)
    }
}

impl vstd::std_specs::convert::FromSpecImpl<u8> for TraitId {
    open spec fn obeys_from_spec() -> bool {
        false
    }

    open spec fn from_spec(n: u8) -> Self {
        arbitrary()
    }
}

impl From<u16> for TraitId {
    fn from(n: u16) -> (r: Self)
        ensures
            r@ == prefixed_number("i"@, n as nat),
    {
        Self::from_number(n as u64)
    }
}

impl vstd::std_specs::convert::FromSpecImpl<u16> for TraitId {
    open spec fn obeys_from_spec() -> bool {
        false
    }

    open spec fn from_spec(n: u16) -> Self {
        arbitrary()
    }
}

impl From<u32> for TraitId {
    fn from(n: u32) -> (r: Self)
        ensures
            r@ == prefixed_number("i"@, n as nat),
    {
        Self::from_number(n as u64)
    }
}

impl vstd::std_specs::convert::FromSpecImpl<u32> for TraitId {
    open spec fn obeys_from_spec() -> bool {
        false
    }

    open spec fn from_spec(n: u32) -> Self {
        arbitrary()
    }
}

impl From<i8> for TraitId {
    fn from(n: i8) -> (r: Self)
        ensures
            r@ == prefixed_signed("i"@, n as int),
    {
        TraitId(prefixed_signed_string(Self::PREFIX, n as i64))
    }
}

impl vstd::std_specs::convert::FromSpecImpl<i8> for TraitId {
    open spec fn obeys_from_spec() -> bool {
        false
    }

    open spec fn from_spec(n: i8) -> Self {
        arbitrary()
    }
}

impl From<i16> for TraitId {
    fn from(n: i16) -> (r: Self)
        ensures
            r@ == prefixed_signed("i"@, n as int),
    {
        TraitId(prefixed_signed_string(Self::PREFIX, n as i64))
    }
}

impl vstd::std_specs::convert::FromSpecImpl<i16> for TraitId {
    open spec fn obeys_from_spec() -> bool {
        false
    }

    open spec fn from_spec(n: i16) -> Self {
        arbitrary()
    }
}

impl From<i32> for TraitId {
    fn from(n: i32) -> (r: Self)
        ensures
            r@ == prefixed_signed("i"@, n as int),
    {
        TraitId(prefixed_signed_string(Self::PREFIX, n as i64))
    }
}

impl vstd::std_specs::convert::FromSpecImpl<i32> for TraitId {
    open spec fn obeys_from_spec() -> bool {
        false
    }

    open spec fn from_spec(n: i32) -> Self {
        arbitrary()
    }
}

impl From<i64> for TraitId {
    fn from(n: i64) -> (r: Self)
        ensures
            r@ == prefixed_signed("i"@, n as int),
    {
        TraitId(prefixed_signed_string(Self::PREFIX, n as i64))
    }
}

impl vstd::std_specs::convert::FromSpecImpl<i64> for TraitId {
    open spec fn obeys_from_spec() -> bool {
        false
    }

    open spec fn from_spec(n: i64) -> Self {
        arbitrary()
    }
}

impl From<&str> for TraitId {
    fn from(text: &str) -> (r: Self)
        ensures
            r@ == text@,
    {
        Self::new(text)
    }
}

impl vstd::std_specs::convert::FromSpecImpl<&str> for TraitId {
    open spec fn obeys_from_spec() -> bool {
        false
    }

    open spec fn from_spec(text: &str) -> Self {
        arbitrary()
    }
}

impl From<String> for TraitId {
    fn from(text: String) -> (r: Self)
        ensures
            r@ == text@,
    {
        TraitId(text)
    }
}

impl vstd::std_specs::convert::FromSpecImpl<String> for TraitId {
    open spec fn obeys_from_spec() -> bool {
        false
    }

    open spec fn from_spec(text: String) -> Self {
        arbitrary()
    }
}

/// A character trait record; fields that were not selected are `None`.
#[derive(Clone, Debug)]
pub struct Trait {
    pub aliases: Option<Vec<String>>,
    pub applicable: Option<bool>,
    pub char_count: Option<u32>,
    pub description: Option<String>,
    pub group_id: Option<TraitId>,
    pub group_name: Option<String>,
    pub id: TraitId,
    pub name: Option<String>,
    pub searchable: Option<bool>,
}

impl From<Trait> for TraitId {
    fn from(record: Trait) -> (r: TraitId)
        ensures
            r == record.id,
    {
        record.id
    }
}

impl vstd::std_specs::convert::FromSpecImpl<Trait> for TraitId {
    open spec fn obeys_from_spec() -> bool {
        true
    }

    open spec fn from_spec(record: Trait) -> TraitId {
        record.id
    }
}

/// A field of a trait record.
#[derive(Clone, Copy, Debug, PartialEq, Eq, Structural, Hash)]
pub enum TraitField {
    Aliases,
    Applicable,
    CharCount,
    Description,
    GroupId,
    GroupName,
    Id,
    Name,
    Searchable,
}

impl Sealed for TraitField {

}

impl QueryField for TraitField {
    open spec fn token_spec(&self) -> Seq<char> {
        match self {
            TraitField::Aliases => "aliases"@,
            TraitField::Applicable => "applicable"@,
            TraitField::CharCount => "char_count"@,
            TraitField::Description => "description"@,
            TraitField::GroupId => "group_id"@,
            TraitField::GroupName => "group_name"@,
            TraitField::Id => "id"@,
            TraitField::Name => "name"@,
            TraitField::Searchable => "searchable"@,
        }
    }

    fn token(&self) -> (r: &'static str) {
        match self {
            TraitField::Aliases => "aliases",
            TraitField::Applicable => "applicable",
            TraitField::CharCount => "char_count",
            TraitField::Description => "description",
            TraitField::GroupId => "group_id",
            TraitField::GroupName => "group_name",
            TraitField::Id => "id",
            TraitField::Name => "name",
            TraitField::Searchable => "searchable",
        }
    }

    fn variants() -> (r: Vec<Self>) {
        let mut v: Vec<Self> = Vec::new();
        v.push(TraitField::Aliases);
        v.push(TraitField::Applicable);
        v.push(TraitField::CharCount);
        v.push(TraitField::Description);
        v.push(TraitField::GroupId);
        v.push(TraitField::GroupName);
        v.push(TraitField::Id);
        v.push(TraitField::Name);
        v.push(TraitField::Searchable);
        proof {
            assert forall|f: Self| v@.contains(f) by {
                match f {
                    TraitField::Aliases => assert(v@[0] == f),
                    TraitField::Applicable => assert(v@[1] == f),
                    TraitField::CharCount => assert(v@[2] == f),
                    TraitField::Description => assert(v@[3] == f),
                    TraitField::GroupId => assert(v@[4] == f),
                    TraitField::GroupName => assert(v@[5] == f),
                    TraitField::Id => assert(v@[6] == f),
                    TraitField::Name => assert(v@[7] == f),
                    TraitField::Searchable => assert(v@[8] == f),
                }
            }
        }
        v
    }
}

/// A sort key of trait queries.
#[derive(Clone, Copy, Debug, PartialEq, Eq, Structural, Hash)]
pub enum SortTraitBy {
    CharCount,
    Id,
    Name,
    SearchRank,
}

impl Sealed for SortTraitBy {

}

impl SortQueryBy for SortTraitBy {
    open spec fn token_spec(&self) -> Seq<char> {
        match self {
            SortTraitBy::CharCount => "char_count"@,
            SortTraitBy::Id => "id"@,
            SortTraitBy::Name => "name"@,
            SortTraitBy::SearchRank => "searchrank"@,
        }
    }

    fn token(&self) -> (r: &'static str) {
        match self {
            SortTraitBy::CharCount => "char_count",
            SortTraitBy::Id => "id",
            SortTraitBy::Name => "name",
            SortTraitBy::SearchRank => "searchrank",
        }
    }
}

} // verus!
