//! Staff: the people credited for visual novels.

use crate::error::Error;
use crate::id::{check_id, is_id, prefixed_number, prefixed_number_string, prefixed_signed, prefixed_signed_string};
use crate::model::{QueryField, Sealed, SortQueryBy};
use crate::model::release::ExternalLink;
use crate::model::schema::Language;
use vstd::prelude::*;

verus! {

/// The id of a staff member: `s` followed by a decimal number.
#[derive(Clone, Debug, PartialEq, Eq, Hash)]
pub struct StaffId(String);

impl View for StaffId {
    type V = Seq<char>;

    closed spec fn view(&self) -> Seq<char> {
        self.0@
    }
}

impl StaffId {
    /// The letter that starts every id of this kind.
    pub const PREFIX: &'static str = "s";

    /// Takes the text as an id without checking it.
    pub fn new(text: &str) -> (r: Self)
        ensures
            r@ == text@,
    {
        StaffId(text.to_owned())
    }

    /// The id of the given number.
    pub fn from_number(n: u64) -> (r: Self)
        ensures
            r@ == prefixed_number("s"@, n as nat),
    {
        StaffId(prefixed_number_string(Self::PREFIX, n))
    }

    /// Checks the text against the id pattern and takes it as an id.
    pub fn parse(value: &str) -> (r: Result<Self, Error>)
        ensures
            r is Ok <==> is_id("s"@, value@),
            r is Ok ==> r->Ok_0@ == value@,
            r is Err ==> (r matches Err(Error::InvalidId(t)) && t@ == value@),
    {
        let id = StaffId(value.to_owned());
        match id.validate() {
            Ok(()) => Ok(id),
            Err(e) => Err(e),
        }
    }

    /// Checks the id against the id pattern.
    pub fn validate(&self) -> (r: Result<(), Error>)
        ensures
            r is Ok <==> is_id("s"@, self@),
            r is Err ==> (r matches Err(Error::InvalidId(t)) && t@ == self@),
    {
        check_id(Self::PREFIX, self.0.as_str())
    }

    /// The text of the id.
    pub fn as_str(&self) -> (r: &str)
        ensures
            r@ == self@,
    {
        self.0.as_str()
    }

    /// The text of the id.
    pub fn into_inner(self) -> (r: String)
        ensures
            r@ == self@,
    {
        self.0
    }
}

impl From<u64> for StaffId {
    fn from(n: u64) -> (r: Self)
        ensures
            r@ == prefixed_number("s"@, n as nat),
    {
        Self::from_number(n)
    }
}

impl vstd::std_specs::convert::FromSpecImpl<u64> for StaffId {
    open spec fn obeys_from_spec() -> bool {
        false
    }

    open spec fn from_spec(n: u64) -> Self {
        arbitrary()
    }
}

impl From<u8> for StaffId {
    fn from(n: u8) -> (r: Self)
        ensures
            r@ == prefixed_number("s"@, n as nat),
    {
        Self::from_number(n as u64)
    }
}

impl vstd::std_specs::convert::FromSpecImpl<u8> for StaffId {
    open spec fn obeys_from_spec() -> bool {
        false
    }

    open spec fn from_spec(n: u8) -> Self {
        arbitrary()
    }
}

impl From<u16> for StaffId {
    fn from(n: u16) -> (r: Self)
        ensures
            r@ == prefixed_number("s"@, n as nat),
    {
        Self::from_number(n as u64)
    }
}

impl vstd::std_specs::convert::FromSpecImpl<u16> for StaffId {
    open spec fn obeys_from_spec() -> bool {
        false
    }

    open spec fn from_spec(n: u16) -> Self {
        arbitrary()
    }
}

impl From<u32> for StaffId {
    fn from(n: u32) -> (r: Self)
        ensures
            r@ == prefixed_number("s"@, n as nat),
    {
        Self::from_number(n as u64)
    }
}

impl vstd::std_specs::convert::FromSpecImpl<u32> for StaffId {
    open spec fn obeys_from_spec() -> bool {
        false
    }

    open spec fn from_spec(n: u32) -> Self {
        arbitrary()
    }
}

impl From<i8> for StaffId {
    fn from(n: i8) -> (r: Self)
        ensures
            r@ == prefixed_signed("s"@, n as int),
    {
        StaffId(prefixed_signed_string(Self::PREFIX, n as i64))
    }
}

impl vstd::std_specs::convert::FromSpecImpl<i8> for StaffId {
    open spec fn obeys_from_spec() -> bool {
        false
    }

    open spec fn from_spec(n: i8) -> Self {
        arbitrary()
    }
}

impl From<i16> for StaffId {
    fn from(n: i16) -> (r: Self)
        ensures
            r@ == prefixed_signed("s"@, n as int),
    {
        StaffId(prefixed_signed_string(Self::PREFIX, n as i64))
    }
}

impl vstd::std_specs::convert::FromSpecImpl<i16> for StaffId {
    open spec fn obeys_from_spec() -> bool {
        false
    }

    open spec fn from_spec(n: i16) -> Self {
        arbitrary()
    }
}

impl From<i32> for StaffId {
    fn from(n: i32) -> (r: Self)
        ensures
            r@ == prefixed_signed("s"@, n as int),
    {
        StaffId(prefixed_signed_string(Self::PREFIX, n as i64))
    }
}

impl vstd::std_specs::convert::FromSpecImpl<i32> for StaffId {
    open spec fn obeys_from_spec() -> bool {
        false
    }

    open spec fn from_spec(n: i32) -> Self {
        arbitrary()
    }
}

impl From<i64> for StaffId {
    fn from(n: i64) -> (r: Self)
        ensures
            r@ == prefixed_signed("s"@, n as int),
    {
        StaffId(prefixed_signed_string(Self::PREFIX, n as i64))
    }
}

impl vstd::std_specs::convert::FromSpecImpl<i64> for StaffId {
    open spec fn obeys_from_spec() -> bool {
        false
    }

    open spec fn from_spec(n: i64) -> Self {
        arbitrary()
    }
}

impl From<&str> for StaffId {
    fn from(text: &str) -> (r: Self)
        ensures
            r@ == text@,
    {
        Self::new(text)
    }
}

impl vstd::std_specs::convert::FromSpecImpl<&str> for StaffId {
    open spec fn obeys_from_spec() -> bool {
        false
    }

    open spec fn from_spec(text: &str) -> Self {
        arbitrary()
    }
}

impl From<String> for StaffId {
    fn from(text: String) -> (r: Self)
        ensures
            r@ == text@,
    {
        StaffId(text)
    }
}

impl vstd::std_specs::convert::FromSpecImpl<String> for StaffId {
    open spec fn obeys_from_spec() -> bool {
        false
    }

    open spec fn from_spec(text: String) -> Self {
        arbitrary()
    }
}

/// A name under which a staff member is credited.
#[derive(Clone, Debug)]
pub struct StaffAlias {
    pub aid: Option<u32>,
    pub ismain: Option<bool>,
    pub latin: Option<String>,
    pub name: Option<String>,
}

/// The gender of a staff member.
#[derive(Clone, Copy, Debug, PartialEq, Eq, Structural, Hash)]
pub enum StaffGender {
    Female,
    Male,
}

/// A field of a staff record.
#[derive(Clone, Copy, Debug, PartialEq, Eq, Structural, Hash)]
pub enum StaffField {
    Aid,
    AliasesAid,
    AliasesIsMain,
    AliasesLatin,
    AliasesName,
    Description,
    ExtlinksId,
    ExtlinksLabel,
    ExtlinksName,
    ExtlinksUrl,
    Gender,
    Id,
    IsMain,
    Lang,
    Name,
    Original,
}

impl Sealed for StaffField {

}

impl QueryField for StaffField {
    open spec fn token_spec(&self) -> Seq<char> {
        match self {
            StaffField::Aid => "aid"@,
            StaffField::AliasesAid => "aliases.aid"@,
            StaffField::AliasesIsMain => "aliases.ismain"@,
            StaffField::AliasesLatin => "aliases.latin"@,
            StaffField::AliasesName => "aliases.name"@,
            StaffField::Description => "description"@,
            StaffField::ExtlinksId => "extlinks.id"@,
            StaffField::ExtlinksLabel => "extlinks.label"@,
            StaffField::ExtlinksName => "extlinks.name"@,
            StaffField::ExtlinksUrl => "extlinks.url"@,
            StaffField::Gender => "gender"@,
            StaffField::Id => "id"@,
            StaffField::IsMain => "ismain"@,
            StaffField::Lang => "lang"@,
            StaffField::Name => "name"@,
            StaffField::Original => "original"@,
        }
    }

    fn token(&self) -> (r: &'static str) {
        match self {
            StaffField::Aid => "aid",
            StaffField::AliasesAid => "aliases.aid",
            StaffField::AliasesIsMain => "aliases.ismain",
            StaffField::AliasesLatin => "aliases.latin",
            StaffField::AliasesName => "aliases.name",
            StaffField::Description => "description",
            StaffField::ExtlinksId => "extlinks.id",
            StaffField::ExtlinksLabel => "extlinks.label",
            StaffField::ExtlinksName => "extlinks.name",
            StaffField::ExtlinksUrl => "extlinks.url",
            StaffField::Gender => "gender",
            StaffField::Id => "id",
            StaffField::IsMain => "ismain",
            StaffField::Lang => "lang",
            StaffField::Name => "name",
            StaffField::Original => "original",
        }
    }

    fn variants() -> (r: Vec<Self>) {
        let mut v: Vec<Self> = Vec::new();
        v.push(StaffField::Aid);
        v.push(StaffField::AliasesAid);
        v.push(StaffField::AliasesIsMain);
        v.push(StaffField::AliasesLatin);
        v.push(StaffField::AliasesName);
        v.push(StaffField::Description);
        v.push(StaffField::ExtlinksId);
        v.push(StaffField::ExtlinksLabel);
        v.push(StaffField::ExtlinksName);
        v.push(StaffField::ExtlinksUrl);
        v.push(StaffField::Gender);
        v.push(StaffField::Id);
        v.push(StaffField::IsMain);
        v.push(StaffField::Lang);
        v.push(StaffField::Name);
        v.push(StaffField::Original);
        proof {
            assert forall|f: Self| v@.contains(f) by {
                match f {
                    StaffField::Aid => assert(v@[0] == f),
                    StaffField::AliasesAid => assert(v@[1] == f),
                    StaffField::AliasesIsMain => assert(v@[2] == f),
                    StaffField::AliasesLatin => assert(v@[3] == f),
                    StaffField::AliasesName => assert(v@[4] == f),
                    StaffField::Description => assert(v@[5] == f),
                    StaffField::ExtlinksId => assert(v@[6] == f),
                    StaffField::ExtlinksLabel => assert(v@[7] == f),
                    StaffField::ExtlinksName => assert(v@[8] == f),
                    StaffField::ExtlinksUrl => assert(v@[9] == f),
                    StaffField::Gender => assert(v@[10] == f),
                    StaffField::Id => assert(v@[11] == f),
                    StaffField::IsMain => assert(v@[12] == f),
                    StaffField::Lang => assert(v@[13] == f),
                    StaffField::Name => assert(v@[14] == f),
                    StaffField::Original => assert(v@[15] == f),
                }
            }
        }
        v
    }
}

/// A sort key of staff queries.
#[derive(Clone, Copy, Debug, PartialEq, Eq, Structural, Hash)]
pub enum SortStaffBy {
    Id,
    Name,
    SearchRank,
}

impl Sealed for SortStaffBy {

}

impl SortQueryBy for SortStaffBy {
    open spec fn token_spec(&self) -> Seq<char> {
        match self {
            SortStaffBy::Id => "id"@,
            SortStaffBy::Name => "name"@,
            SortStaffBy::SearchRank => "searchrank"@,
        }
    }

    fn token(&self) -> (r: &'static str) {
        match self {
            SortStaffBy::Id => "id",
            SortStaffBy::Name => "name",
            SortStaffBy::SearchRank => "searchrank",
        }
    }
}

/// A staff record; fields that were not selected are `None`.
#[derive(Clone, Debug)]
pub struct Staff {
    pub aid: Option<u32>,
    pub aliases: Option<Vec<StaffAlias>>,
    pub description: Option<String>,
    pub extlinks: Option<Vec<ExternalLink>>,
    pub gender: Option<StaffGender>,
    pub id: StaffId,
    pub ismain: Option<bool>,
    pub lang: Option<Language>,
    pub name: Option<String>,
    pub original: Option<String>,
}

impl From<Staff> for StaffId {
    fn from(record: Staff) -> (r: StaffId)
        ensures
            r == record.id,
    {
        record.id
    }
}

impl vstd::std_specs::convert::FromSpecImpl<Staff> for StaffId {
    open spec fn obeys_from_spec() -> bool {
        true
    }

    open spec fn from_spec(record: Staff) -> StaffId {
        record.id
    }
}

} // verus!
