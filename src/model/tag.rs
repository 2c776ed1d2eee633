//! Tags of visual novels.

use crate::error::Error;
use crate::id::{check_id, is_id, prefixed_number, prefixed_number_string, prefixed_signed, prefixed_signed_string};
use crate::model::{QueryField, Sealed, SortQueryBy};
use vstd::prelude::*;

verus! {

/// The id of a tag: `g` followed by a decimal number.
#[derive(Clone, Debug, PartialEq, Eq, Hash)]
pub struct TagId(String);

impl View for TagId {
    type V = Seq<char>;

    closed spec fn view(&self) -> Seq<char> {
        self.0@
    }
}

impl TagId {
    /// The letter that starts every id of this kind.
    pub const PREFIX: &'static str = "g";

    /// Takes the text as an id without checking it.
    pub fn new(text: &str) -> (r: Self)
        ensures
            r@ == text@,
    {
        TagId(text.to_owned())
    }

    /// The id of the given number.
    pub fn from_number(n: u64) -> (r: Self)
        ensures
            r@ == prefixed_number("g"@, n as nat),
    {
        TagId(prefixed_number_string(Self::PREFIX, n))
    }

    /// Checks the text against the id pattern and takes it as an id.
    pub fn parse(value: &str) -> (r: Result<Self, Error>)
        ensures
            r is Ok <==> is_id("g"@, value@),
            r is Ok ==> r->Ok_0@ == value@,
            r is Err ==> (r matches Err(Error::InvalidId(t)) && t@ == value@),
    {
        let id = TagId(value.to_owned());
        match id.validate() {
            Ok(()) => Ok(id),
            Err(e) => Err(e),
        }
    }

    /// Checks the id against the id pattern.
    pub fn validate(&self) -> (r: Result<(), Error>)
        ensures
            r is Ok <==> is_id("g"@, self@),
            r is Err ==> (r matches Err(Error::InvalidId(t)) && t@ == self@),
    {
        check_id(Self::PREFIX, self.0.as_str())
    }

    /// The text of the id.
    pub fn as_str(&self) -> (r: &str)
        ensures
            r@ == self@,
    {
        self.0.as_str()
    }

    /// The text of the id.
    pub fn into_inner(self) -> (r: String)
        ensures
            r@ == self@,
    {
        self.0
    }
}

impl From<u64> for TagId {
    fn from(n: u64) -> (r: Self)
        ensures
            r@ == prefixed_number("g"@, n as nat),
    {
        Self::from_number(n)
    }
}

impl vstd::std_specs::convert::FromSpecImpl<u64> for TagId {
    open spec fn obeys_from_spec() -> bool {
        false
    }

    open spec fn from_spec(n: u64) -> Self {
        arbitrary()
    }
}

impl From<u8> for TagId {
    fn from(n: u8) -> (r: Self)
        ensures
            r@ == prefixed_number("g"@, n as nat),
    {
        Self::from_number(n as u64)
    }
}

impl vstd::std_specs::convert::FromSpecImpl<u8> for TagId {
    open spec fn obeys_from_spec() -> bool {
        false
    }

    open spec fn from_spec(n: u8) -> Self {
        arbitrary()
    }
}

impl From<u16> for TagId {
    fn from(n: u16) -> (r: Self)
        ensures
            r@ == prefixed_number("g"@, n as nat),
    {
        Self::from_number(n as u64)
    }
}

impl vstd::std_specs::convert::FromSpecImpl<u16> for TagId {
    open spec fn obeys_from_spec() -> bool {
        false
    }

    open spec fn from_spec(n: u16) -> Self {
        arbitrary()
    }
}

impl From<u32> for TagId {
    fn from(n: u32) -> (r: Self)
        ensures
            r@ == prefixed_number("g"@, n as nat),
    {
        Self::from_number(n as u64)
    }
}

impl vstd::std_specs::convert::FromSpecImpl<u32> for TagId {
    open spec fn obeys_from_spec() -> bool {
        false
    }

    open spec fn from_spec(n: u32) -> Self {
        arbitrary()
    }
}

impl From<i8> for TagId {
    fn from(n: i8) -> (r: Self)
        ensures
            r@ == prefixed_signed("g"@, n as int),
    {
        TagId(prefixed_signed_string(Self::PREFIX, n as i64))
    }
}

impl vstd::std_specs::convert::FromSpecImpl<i8> for TagId {
    open spec fn obeys_from_spec() -> bool {
        false
    }

    open spec fn from_spec(n: i8) -> Self {
        arbitrary()
    }
}

impl From<i16> for TagId {
    fn from(n: i16) -> (r: Self)
        ensures
            r@ == prefixed_signed("g"@, n as int),
    {
        TagId(prefixed_signed_string(Self::PREFIX, n as i64))
    }
}

impl vstd::std_specs::convert::FromSpecImpl<i16> for TagId {
    open spec fn obeys_from_spec() -> bool {
        false
    }

    open spec fn from_spec(n: i16) -> Self {
        arbitrary()
    }
}

impl From<i32> for TagId {
    fn from(n: i32) -> (r: Self)
        ensures
            r@ == prefixed_signed("g"@, n as int),
    {
        TagId(prefixed_signed_string(Self::PREFIX, n as i64))
    }
}

impl vstd::std_specs::convert::FromSpecImpl<i32> for TagId {
    open spec fn obeys_from_spec() -> bool {
        false
    }

    open spec fn from_spec(n: i32) -> Self {
        arbitrary()
    }
}

impl From<i64> for TagId {
    fn from(n: i64) -> (r: Self)
        ensures
            r@ == prefixed_signed("g"@, n as int),
    {
        TagId(prefixed_signed_string(Self::PREFIX, n as i64))
    }
}

impl vstd::std_specs::convert::FromSpecImpl<i64> for TagId {
    open spec fn obeys_from_spec() -> bool {
        false
    }

    open spec fn from_spec(n: i64) -> Self {
        arbitrary()
    }
}

impl From<&str> for TagId {
    fn from(text: &str) -> (r: Self)
        ensures
            r@ == text@,
    {
        Self::new(text)
    }
}

impl vstd::std_specs::convert::FromSpecImpl<&str> for TagId {
    open spec fn obeys_from_spec() -> bool {
        false
    }

    open spec fn from_spec(text: &str) -> Self {
        arbitrary()
    }
}

impl From<String> for TagId {
    fn from(text: String) -> (r: Self)
        ensures
            r@ == text@,
    {
        TagId(text)
    }
}

impl vstd::std_specs::convert::FromSpecImpl<String> for TagId {
    open spec fn obeys_from_spec() -> bool {
        false
    }

    open spec fn from_spec(text: String) -> Self {
        arbitrary()
    }
}

/// The category of a tag.
#[derive(Clone, Copy, Debug, PartialEq, Eq, Structural, Hash)]
pub enum TagCategory {
    Content,
    Ero,
    Technical,
}

/// A tag record; fields that were not selected are `None`.
#[derive(Clone, Debug)]
pub struct Tag {
    pub aliases: Option<Vec<String>>,
    pub applicable: Option<bool>,
    pub category: Option<TagCategory>,
    pub description: Option<String>,
    pub id: TagId,
    pub name: Option<String>,
    pub searchable: Option<bool>,
    pub vn_count: Option<u32>,
}

impl From<Tag> for TagId {
    fn from(record: Tag) -> (r: TagId)
        ensures
            r == record.id,
    {
        record.id
    }
}

impl vstd::std_specs::convert::FromSpecImpl<Tag> for TagId {
    open spec fn obeys_from_spec() -> bool {
        true
    }

    open spec fn from_spec(record: Tag) -> TagId {
        record.id
    }
}

/// A field of a tag record.
#[derive(Clone, Copy, Debug, PartialEq, Eq, Structural, Hash)]
pub enum TagField {
    Aliases,
    Applicable,
    Category,
    Description,
    Id,
    Name,
    Searchable,
    VnCount,
}

impl Sealed for TagField {

}

impl QueryField for TagField {
    open spec fn token_spec(&self) -> Seq<char> {
        match self {
            TagField::Aliases => "aliases"@,
            TagField::Applicable => "applicable"@,
            TagField::Category => "category"@,
            TagField::Description => "description"@,
            TagField::Id => "id"@,
            TagField::Name => "name"@,
            TagField::Searchable => "searchable"@,
            TagField::VnCount => "vn_count"@,
        }
    }

    fn token(&self) -> (r: &'static str) {
        match self {
            TagField::Aliases => "aliases",
            TagField::Applicable => "applicable",
            TagField::Category => "category",
            TagField::Description => "description",
            TagField::Id => "id",
            TagField::Name => "name",
            TagField::Searchable => "searchable",
            TagField::VnCount => "vn_count",
        }
    }

    fn variants() -> (r: Vec<Self>) {
        let mut v: Vec<Self> = Vec::new();
        v.push(TagField::Aliases);
        v.push(TagField::Applicable);
        v.push(TagField::Category);
        v.push(TagField::Description);
        v.push(TagField::Id);
        v.push(TagField::Name);
        v.push(TagField::Searchable);
        v.push(TagField::VnCount);
        proof {
            assert forall|f: Self| v@.contains(f) by {
                match f {
                    TagField::Aliases => assert(v@[0] == f),
                    TagField::Applicable => assert(v@[1] == f),
                    TagField::Category => assert(v@[2] == f),
                    TagField::Description => assert(v@[3] == f),
                    TagField::Id => assert(v@[4] == f),
                    TagField::Name => assert(v@[5] == f),
                    TagField::Searchable => assert(v@[6] == f),
                    TagField::VnCount => assert(v@[7] == f),
                }
            }
        }
        v
    }
}

/// A sort key of tag queries.
#[derive(Clone, Copy, Debug, PartialEq, Eq, Structural, Hash)]
pub enum SortTagBy {
    Id,
    Name,
    SearchRank,
    VnCount,
}

impl Sealed for SortTagBy {

}

impl SortQueryBy for SortTagBy {
    open spec fn token_spec(&self) -> Seq<char> {
        match self {
            SortTagBy::Id => "id"@,
            SortTagBy::Name => "name"@,
            SortTagBy::SearchRank => "searchrank"@,
            SortTagBy::VnCount => "vn_count"@,
        }
    }

    fn token(&self) -> (r: &'static str) {
        match self {
            SortTagBy::Id => "id",
            SortTagBy::Name => "name",
            SortTagBy::SearchRank => "searchrank",
            SortTagBy::VnCount => "vn_count",
        }
    }
}

} // verus!
