//! Characters of visual novels.

use crate::error::Error;
use crate::id::{check_id, is_id, prefixed_number, prefixed_number_string, prefixed_signed, prefixed_signed_string};
use crate::model::traits::Trait;
use crate::model::{QueryField, Sealed, SortQueryBy};
use vstd::prelude::*;

verus! {

/// The id of a character: `c` followed by a decimal number.
#[derive(Clone, Debug, PartialEq, Eq, Hash)]
pub struct CharacterId(String);

impl View for CharacterId {
    type V = Seq<char>;

    closed spec fn view(&self) -> Seq<char> {
        self.0@
    }
}

impl CharacterId {
    /// The letter that starts every id of this kind.
    pub const PREFIX: &'static str = "c";

    /// Takes the text as an id without checking it.
    pub fn new(text: &str) -> (r: Self)
        ensures
            r@ == text@,
    {
        CharacterId(text.to_owned())
    }

    /// The id of the given number.
    pub fn from_number(n: u64) -> (r: Self)
        ensures
            r@ == prefixed_number("c"@, n as nat),
    {
        CharacterId(prefixed_number_string(Self::PREFIX, n))
    }

    /// Checks the text against the id pattern and takes it as an id.
    pub fn parse(value: &str) -> (r: Result<Self, Error>)
        ensures
            r is Ok <==> is_id("c"@, value@),
            r is Ok ==> r->Ok_0@ == value@,
            r is Err ==> (r matches Err(Error::InvalidId(t)) && t@ == value@),
    {
        let id = CharacterId(value.to_owned());
        match id.validate() {
            Ok(()) => Ok(id),
            Err(e) => Err(e),
        }
    }

    /// Checks the id against the id pattern.
    pub fn validate(&self) -> (r: Result<(), Error>)
        ensures
            r is Ok <==> is_id("c"@, self@),
            r is Err ==> (r matches Err(Error::InvalidId(t)) && t@ == self@),
    {
        check_id(Self::PREFIX, self.0.as_str())
    }

    /// The text of the id.
    pub fn as_str(&self) -> (r: &str)
        ensures
            r@ == self@,
    {
        self.0.as_str()
    }

    /// The text of the id.
    pub fn into_inner(self) -> (r: String)
        ensures
            r@ == self@,
    {
        self.0
    }
}

impl From<u64> for CharacterId {
    fn from(n: u64) -> (r: Self)
        ensures
            r@ == prefixed_number("c"@, n as nat),
    {
        Self::from_number(n)
    }
}

impl vstd::std_specs::convert::FromSpecImpl<u64> for CharacterId {
    open spec fn obeys_from_spec() -> bool {
        false
    }

    open spec fn from_spec(n: u64) -> Self {
        arbitrary()
    }
}

impl From<u8> for CharacterId {
    fn from(n: u8) -> (r: Self)
        ensures
            r@ == prefixed_number("c"@, n as nat),
    {
        Self::from_number(n as u64)
    }
}

impl vstd::std_specs::convert::FromSpecImpl<u8> for CharacterId {
    open spec fn obeys_from_spec() -> bool {
        false
    }

    open spec fn from_spec(n: u8) -> Self {
        arbitrary()
    }
}

impl From<u16> for CharacterId {
    fn from(n: u16) -> (r: Self)
        ensures
            r@ == prefixed_number("c"@, n as nat),
    {
        Self::from_number(n as u64)
    }
}

impl vstd::std_specs::convert::FromSpecImpl<u16> for CharacterId {
    open spec fn obeys_from_spec() -> bool {
        false
    }

    open spec fn from_spec(n: u16) -> Self {
        arbitrary()
    }
}

impl From<u32> for CharacterId {
    fn from(n: u32) -> (r: Self)
        ensures
            r@ == prefixed_number("c"@, n as nat),
    {
        Self::from_number(n as u64)
    }
}

impl vstd::std_specs::convert::FromSpecImpl<u32> for CharacterId {
    open spec fn obeys_from_spec() -> bool {
        false
    }

    open spec fn from_spec(n: u32) -> Self {
        arbitrary()
    }
}

impl From<i8> for CharacterId {
    fn from(n: i8) -> (r: Self)
        ensures
            r@ == prefixed_signed("c"@, n as int),
    {
        CharacterId(prefixed_signed_string(Self::PREFIX, n as i64))
    }
}

impl vstd::std_specs::convert::FromSpecImpl<i8> for CharacterId {
    open spec fn obeys_from_spec() -> bool {
        false
    }

    open spec fn from_spec(n: i8) -> Self {
        arbitrary()
    }
}

impl From<i16> for CharacterId {
    fn from(n: i16) -> (r: Self)
        ensures
            r@ == prefixed_signed("c"@, n as int),
    {
        CharacterId(prefixed_signed_string(Self::PREFIX, n as i64))
    }
}

impl vstd::std_specs::convert::FromSpecImpl<i16> for CharacterId {
    open spec fn obeys_from_spec() -> bool {
        false
    }

    open spec fn from_spec(n: i16) -> Self {
        arbitrary()
    }
}

impl From<i32> for CharacterId {
    fn from(n: i32) -> (r: Self)
        ensures
            r@ == prefixed_signed("c"@, n as int),
    {
        CharacterId(prefixed_signed_string(Self::PREFIX, n as i64))
    }
}

impl vstd::std_specs::convert::FromSpecImpl<i32> for CharacterId {
    open spec fn obeys_from_spec() -> bool {
        false
    }

    open spec fn from_spec(n: i32) -> Self {
        arbitrary()
    }
}

impl From<i64> for CharacterId {
    fn from(n: i64) -> (r: Self)
        ensures
            r@ == prefixed_signed("c"@, n as int),
    {
        CharacterId(prefixed_signed_string(Self::PREFIX, n as i64))
    }
}

impl vstd::std_specs::convert::FromSpecImpl<i64> for CharacterId {
    open spec fn obeys_from_spec() -> bool {
        false
    }

    open spec fn from_spec(n: i64) -> Self {
        arbitrary()
    }
}

impl From<&str> for CharacterId {
    fn from(text: &str) -> (r: Self)
        ensures
            r@ == text@,
    {
        Self::new(text)
    }
}

impl vstd::std_specs::convert::FromSpecImpl<&str> for CharacterId {
    open spec fn obeys_from_spec() -> bool {
        false
    }

    open spec fn from_spec(text: &str) -> Self {
        arbitrary()
    }
}

impl From<String> for CharacterId {
    fn from(text: String) -> (r: Self)
        ensures
            r@ == text@,
    {
        CharacterId(text)
    }
}

impl vstd::std_specs::convert::FromSpecImpl<String> for CharacterId {
    open spec fn obeys_from_spec() -> bool {
        false
    }

    open spec fn from_spec(text: String) -> Self {
        arbitrary()
    }
}

/// A birthday as the server sends it: day and month.
#[derive(Clone, Copy, Debug, PartialEq, Eq, Structural, Hash)]
pub struct CharacterBirthday {
    pub day: u32,
    pub month: u32,
}

impl CharacterBirthday {
    /// Reads the `[day, month]` pair of the wire format.
    pub fn from_wire(date: [u32; 2]) -> (r: Self)
        ensures
            r.day == date@[0],
            r.month == date@[1],
    {
        CharacterBirthday { day: date[0], month: date[1] }
    }
}

/// A sex as the server codes it.
#[derive(Clone, Copy, Debug, PartialEq, Eq, Structural, Hash)]
pub enum CharacterSexValue {
    Both,
    Female,
    Male,
    Sexless,
}

/// The apparent and the real sex of a character.
#[derive(Clone, Copy, Debug, PartialEq, Eq, Structural, Hash)]
pub struct CharacterSex {
    pub apparent: Option<CharacterSexValue>,
    pub real: Option<CharacterSexValue>,
}

impl CharacterSex {
    /// Reads the `[apparent, real]` pair of the wire format.
    pub fn from_wire(pair: [Option<CharacterSexValue>; 2]) -> (r: Self)
        ensures
            r.apparent == pair@[0],
            r.real == pair@[1],
    {
        CharacterSex { apparent: pair[0], real: pair[1] }
    }
}

/// A trait of a character, with how it applies.
#[derive(Clone, Debug)]
pub struct CharacterTrait {
    pub lie: Option<bool>,
    pub trait_: Trait,
    pub spoiler: Option<u8>,
}

impl From<CharacterTrait> for Trait {
    fn from(outer: CharacterTrait) -> (r: Trait)
        ensures
            r == outer.trait_,
    {
        outer.trait_
    }
}

impl vstd::std_specs::convert::FromSpecImpl<CharacterTrait> for Trait {
    open spec fn obeys_from_spec() -> bool {
        true
    }

    open spec fn from_spec(outer: CharacterTrait) -> Trait {
        outer.trait_
    }
}

/// A field of a character record.
#[derive(Clone, Copy, Debug, PartialEq, Eq, Structural, Hash)]
pub enum CharacterField {
    Age,
    Aliases,
    Birthday,
    BloodType,
    Bust,
    Cup,
    Description,
    Height,
    Hips,
    Id,
    ImageId,
    ImageUrl,
    Name,
    Original,
    Sex,
    TraitId,
    TraitLie,
    TraitSpoiler,
    VisualNovelAliases,
    VisualNovelAltTitle,
    VisualNovelId,
    VisualNovelReleaseId,
    VisualNovelRole,
    VisualNovelSpoiler,
    VisualNovelTitle,
    Waist,
    Weight,
}

impl Sealed for CharacterField {

}

impl QueryField for CharacterField {
    open spec fn token_spec(&self) -> Seq<char> {
        match self {
            CharacterField::Age => "age"@,
            CharacterField::Aliases => "aliases"@,
            CharacterField::Birthday => "birthday"@,
            CharacterField::BloodType => "blood_type"@,
            CharacterField::Bust => "bust"@,
            CharacterField::Cup => "cup"@,
            CharacterField::Description => "description"@,
            CharacterField::Height => "height"@,
            CharacterField::Hips => "hips"@,
            CharacterField::Id => "id"@,
            CharacterField::ImageId => "image.id"@,
            CharacterField::ImageUrl => "image.url"@,
            CharacterField::Name => "name"@,
            CharacterField::Original => "original"@,
            CharacterField::Sex => "sex"@,
            CharacterField::TraitId => "traits.id"@,
            CharacterField::TraitLie => "traits.lie"@,
            CharacterField::TraitSpoiler => "traits.spoiler"@,
            CharacterField::VisualNovelAliases => "vns.aliases"@,
            CharacterField::VisualNovelAltTitle => "vns.alttitle"@,
            CharacterField::VisualNovelId => "vns.id"@,
            CharacterField::VisualNovelReleaseId => "vns.release.id"@,
            CharacterField::VisualNovelRole => "vns.role"@,
            CharacterField::VisualNovelSpoiler => "vns.spoiler"@,
            CharacterField::VisualNovelTitle => "vns.title"@,
            CharacterField::Waist => "waist"@,
            CharacterField::Weight => "weight"@,
        }
    }

    fn token(&self) -> (r: &'static str) {
        match self {
            CharacterField::Age => "age",
            CharacterField::Aliases => "aliases",
            CharacterField::Birthday => "birthday",
            CharacterField::BloodType => "blood_type",
            CharacterField::Bust => "bust",
            CharacterField::Cup => "cup",
            CharacterField::Description => "description",
            CharacterField::Height => "height",
            CharacterField::Hips => "hips",
            CharacterField::Id => "id",
            CharacterField::ImageId => "image.id",
            CharacterField::ImageUrl => "image.url",
            CharacterField::Name => "name",
            CharacterField::Original => "original",
            CharacterField::Sex => "sex",
            CharacterField::TraitId => "traits.id",
            CharacterField::TraitLie => "traits.lie",
            CharacterField::TraitSpoiler => "traits.spoiler",
            CharacterField::VisualNovelAliases => "vns.aliases",
            CharacterField::VisualNovelAltTitle => "vns.alttitle",
            CharacterField::VisualNovelId => "vns.id",
            CharacterField::VisualNovelReleaseId => "vns.release.id",
            CharacterField::VisualNovelRole => "vns.role",
            CharacterField::VisualNovelSpoiler => "vns.spoiler",
            CharacterField::VisualNovelTitle => "vns.title",
            CharacterField::Waist => "waist",
            CharacterField::Weight => "weight",
        }
    }

    fn variants() -> (r: Vec<Self>) {
        let mut v: Vec<Self> = Vec::new();
        v.push(CharacterField::Age);
        v.push(CharacterField::Aliases);
        v.push(CharacterField::Birthday);
        v.push(CharacterField::BloodType);
        v.push(CharacterField::Bust);
        v.push(CharacterField::Cup);
        v.push(CharacterField::Description);
        v.push(CharacterField::Height);
        v.push(CharacterField::Hips);
        v.push(CharacterField::Id);
        v.push(CharacterField::ImageId);
        v.push(CharacterField::ImageUrl);
        v.push(CharacterField::Name);
        v.push(CharacterField::Original);
        v.push(CharacterField::Sex);
        v.push(CharacterField::TraitId);
        v.push(CharacterField::TraitLie);
        v.push(CharacterField::TraitSpoiler);
        v.push(CharacterField::VisualNovelAliases);
        v.push(CharacterField::VisualNovelAltTitle);
        v.push(CharacterField::VisualNovelId);
        v.push(CharacterField::VisualNovelReleaseId);
        v.push(CharacterField::VisualNovelRole);
        v.push(CharacterField::VisualNovelSpoiler);
        v.push(CharacterField::VisualNovelTitle);
        v.push(CharacterField::Waist);
        v.push(CharacterField::Weight);
        proof {
            assert forall|f: Self| v@.contains(f) by {
                match f {
                    CharacterField::Age => assert(v@[0] == f),
                    CharacterField::Aliases => assert(v@[1] == f),
                    CharacterField::Birthday => assert(v@[2] == f),
                    CharacterField::BloodType => assert(v@[3] == f),
                    CharacterField::Bust => assert(v@[4] == f),
                    CharacterField::Cup => assert(v@[5] == f),
                    CharacterField::Description => assert(v@[6] == f),
                    CharacterField::Height => assert(v@[7] == f),
                    CharacterField::Hips => assert(v@[8] == f),
                    CharacterField::Id => assert(v@[9] == f),
                    CharacterField::ImageId => assert(v@[10] == f),
                    CharacterField::ImageUrl => assert(v@[11] == f),
                    CharacterField::Name => assert(v@[12] == f),
                    CharacterField::Original => assert(v@[13] == f),
                    CharacterField::Sex => assert(v@[14] == f),
                    CharacterField::TraitId => assert(v@[15] == f),
                    CharacterField::TraitLie => assert(v@[16] == f),
                    CharacterField::TraitSpoiler => assert(v@[17] == f),
                    CharacterField::VisualNovelAliases => assert(v@[18] == f),
                    CharacterField::VisualNovelAltTitle => assert(v@[19] == f),
                    CharacterField::VisualNovelId => assert(v@[20] == f),
                    CharacterField::VisualNovelReleaseId => assert(v@[21] == f),
                    CharacterField::VisualNovelRole => assert(v@[22] == f),
                    CharacterField::VisualNovelSpoiler => assert(v@[23] == f),
                    CharacterField::VisualNovelTitle => assert(v@[24] == f),
                    CharacterField::Waist => assert(v@[25] == f),
                    CharacterField::Weight => assert(v@[26] == f),
                }
            }
        }
        v
    }
}

/// A sort key of character queries.
#[derive(Clone, Copy, Debug, PartialEq, Eq, Structural, Hash)]
pub enum SortCharacterBy {
    Id,
    Name,
    SearchRank,
}

impl Sealed for SortCharacterBy {

}

impl SortQueryBy for SortCharacterBy {
    open spec fn token_spec(&self) -> Seq<char> {
        match self {
            SortCharacterBy::Id => "id"@,
            SortCharacterBy::Name => "name"@,
            SortCharacterBy::SearchRank => "searchrank"@,
        }
    }

    fn token(&self) -> (r: &'static str) {
        match self {
            SortCharacterBy::Id => "id",
            SortCharacterBy::Name => "name",
            SortCharacterBy::SearchRank => "searchrank",
        }
    }
}

} // verus!
