//! Visual novels.

use crate::error::Error;
use crate::id::{check_id, is_id, prefixed_number, prefixed_number_string, prefixed_signed, prefixed_signed_string};
use crate::model::producer::Producer;
use crate::model::schema::Language;
use crate::model::{QueryField, Sealed, SortQueryBy};
use crate::model::staff::Staff;
use vstd::prelude::*;

verus! {

/// The id of a visual novel: `v` followed by a decimal number.
#[derive(Clone, Debug, PartialEq, Eq, Hash)]
pub struct VisualNovelId(String);

impl View for VisualNovelId {
    type V = Seq<char>;

    closed spec fn view(&self) -> Seq<char> {
        self.0@
    }
}

impl VisualNovelId {
    /// The letter that starts every id of this kind.
    pub const PREFIX: &'static str = "v";

    /// Takes the text as an id without checking it.
    pub fn new(text: &str) -> (r: Self)
        ensures
            r@ == text@,
    {
        VisualNovelId(text.to_owned())
    }

    /// The id of the given number.
    pub fn from_number(n: u64) -> (r: Self)
        ensures
            r@ == prefixed_number("v"@, n as nat),
    {
        VisualNovelId(prefixed_number_string(Self::PREFIX, n))
    }

    /// Checks the text against the id pattern and takes it as an id.
    pub fn parse(value: &str) -> (r: Result<Self, Error>)
        ensures
            r is Ok <==> is_id("v"@, value@),
            r is Ok ==> r->Ok_0@ == value@,
            r is Err ==> (r matches Err(Error::InvalidId(t)) && t@ == value@),
    {
        let id = VisualNovelId(value.to_owned());
        match id.validate() {
            Ok(()) => Ok(id),
            Err(e) => Err(e),
        }
    }

    /// Checks the id against the id pattern.
    pub fn validate(&self) -> (r: Result<(), Error>)
        ensures
            r is Ok <==> is_id("v"@, self@),
            r is Err ==> (r matches Err(Error::InvalidId(t)) && t@ == self@),
    {
        check_id(Self::PREFIX, self.0.as_str())
    }

    /// The text of the id.
    pub fn as_str(&self) -> (r: &str)
        ensures
            r@ == self@,
    {
        self.0.as_str()
    }

    /// The text of the id.
    pub fn into_inner(self) -> (r: String)
        ensures
            r@ == self@,
    {
        self.0
    }
}

impl From<u64> for VisualNovelId {
    fn from(n: u64) -> (r: Self)
        ensures
            r@ == prefixed_number("v"@, n as nat),
    {
        Self::from_number(n)
    }
}

impl vstd::std_specs::convert::FromSpecImpl<u64> for VisualNovelId {
    open spec fn obeys_from_spec() -> bool {
        false
    }

    open spec fn from_spec(n: u64) -> Self {
        arbitrary()
    }
}

impl From<u8> for VisualNovelId {
    fn from(n: u8) -> (r: Self)
        ensures
            r@ == prefixed_number("v"@, n as nat),
    {
        Self::from_number(n as u64)
    }
}

impl vstd::std_specs::convert::FromSpecImpl<u8> for VisualNovelId {
    open spec fn obeys_from_spec() -> bool {
        false
    }

    open spec fn from_spec(n: u8) -> Self {
        arbitrary()
    }
}

impl From<u16> for VisualNovelId {
    fn from(n: u16) -> (r: Self)
        ensures
            r@ == prefixed_number("v"@, n as nat),
    {
        Self::from_number(n as u64)
    }
}

impl vstd::std_specs::convert::FromSpecImpl<u16> for VisualNovelId {
    open spec fn obeys_from_spec() -> bool {
        false
    }

    open spec fn from_spec(n: u16) -> Self {
        arbitrary()
    }
}

impl From<u32> for VisualNovelId {
    fn from(n: u32) -> (r: Self)
        ensures
            r@ == prefixed_number("v"@, n as nat),
    {
        Self::from_number(n as u64)
    }
}

impl vstd::std_specs::convert::FromSpecImpl<u32> for VisualNovelId {
    open spec fn obeys_from_spec() -> bool {
        false
    }

    open spec fn from_spec(n: u32) -> Self {
        arbitrary()
    }
}

impl From<i8> for VisualNovelId {
    fn from(n: i8) -> (r: Self)
        ensures
            r@ == prefixed_signed("v"@, n as int),
    {
        VisualNovelId(prefixed_signed_string(Self::PREFIX, n as i64))
    }
}

impl vstd::std_specs::convert::FromSpecImpl<i8> for VisualNovelId {
    open spec fn obeys_from_spec() -> bool {
        false
    }

    open spec fn from_spec(n: i8) -> Self {
        arbitrary()
    }
}

impl From<i16> for VisualNovelId {
    fn from(n: i16) -> (r: Self)
        ensures
            r@ == prefixed_signed("v"@, n as int),
    {
        VisualNovelId(prefixed_signed_string(Self::PREFIX, n as i64))
    }
}

impl vstd::std_specs::convert::FromSpecImpl<i16> for VisualNovelId {
    open spec fn obeys_from_spec() -> bool {
        false
    }

    open spec fn from_spec(n: i16) -> Self {
        arbitrary()
    }
}

impl From<i32> for VisualNovelId {
    fn from(n: i32) -> (r: Self)
        ensures
            r@ == prefixed_signed("v"@, n as int),
    {
        VisualNovelId(prefixed_signed_string(Self::PREFIX, n as i64))
    }
}

impl vstd::std_specs::convert::FromSpecImpl<i32> for VisualNovelId {
    open spec fn obeys_from_spec() -> bool {
        false
    }

    open spec fn from_spec(n: i32) -> Self {
        arbitrary()
    }
}

impl From<i64> for VisualNovelId {
    fn from(n: i64) -> (r: Self)
        ensures
            r@ == prefixed_signed("v"@, n as int),
    {
        VisualNovelId(prefixed_signed_string(Self::PREFIX, n as i64))
    }
}

impl vstd::std_specs::convert::FromSpecImpl<i64> for VisualNovelId {
    open spec fn obeys_from_spec() -> bool {
        false
    }

    open spec fn from_spec(n: i64) -> Self {
        arbitrary()
    }
}

impl From<&str> for VisualNovelId {
    fn from(text: &str) -> (r: Self)
        ensures
            r@ == text@,
    {
        Self::new(text)
    }
}

impl vstd::std_specs::convert::FromSpecImpl<&str> for VisualNovelId {
    open spec fn obeys_from_spec() -> bool {
        false
    }

    open spec fn from_spec(text: &str) -> Self {
        arbitrary()
    }
}

impl From<String> for VisualNovelId {
    fn from(text: String) -> (r: Self)
        ensures
            r@ == text@,
    {
        VisualNovelId(text)
    }
}

impl vstd::std_specs::convert::FromSpecImpl<String> for VisualNovelId {
    open spec fn obeys_from_spec() -> bool {
        false
    }

    open spec fn from_spec(text: String) -> Self {
        arbitrary()
    }
}

/// The development status of a visual novel.
#[derive(Clone, Copy, Debug, PartialEq, Eq, Structural, Hash)]
pub enum VisualNovelDevStatus {
    Cancelled,
    Finished,
    InDevelopment,
}

impl VisualNovelDevStatus {
    /// The status of its numeric wire code, or `None` for an unknown code.
    pub fn from_code(code: u8) -> (r: Option<VisualNovelDevStatus>)
        ensures
            code == 0 <==> r == Some(VisualNovelDevStatus::Finished),
            code == 1 <==> r == Some(VisualNovelDevStatus::InDevelopment),
            code == 2 <==> r == Some(VisualNovelDevStatus::Cancelled),
            r is None <==> !(code == 0 || code == 1 || code == 2),
    {
        match code {
            0 => Some(VisualNovelDevStatus::Finished),
            1 => Some(VisualNovelDevStatus::InDevelopment),
            2 => Some(VisualNovelDevStatus::Cancelled),
            _ => None,
        }
    }
}

/// A developer of a visual novel.
#[derive(Clone, Debug)]
pub struct VisualNovelDeveloper {
    pub producer: Producer,
}

impl From<VisualNovelDeveloper> for Producer {
    fn from(outer: VisualNovelDeveloper) -> (r: Producer)
        ensures
            r == outer.producer,
    {
        outer.producer
    }
}

impl vstd::std_specs::convert::FromSpecImpl<VisualNovelDeveloper> for Producer {
    open spec fn obeys_from_spec() -> bool {
        true
    }

    open spec fn from_spec(outer: VisualNovelDeveloper) -> Producer {
        outer.producer
    }
}

/// An edition of a visual novel.
#[derive(Clone, Debug)]
pub struct VisualNovelEdition {
    pub eid: Option<u32>,
    pub lang: Option<Language>,
    pub name: Option<String>,
    pub official: Option<bool>,
}

/// The rough length of a visual novel.
#[derive(Clone, Copy, Debug, PartialEq, Eq, Structural, Hash)]
pub enum VisualNovelLength {
    VeryShort,
    Short,
    Average,
    Long,
    VeryLong,
}

impl VisualNovelLength {
    /// The length of its numeric wire code, or `None` for an unknown code.
    pub fn from_code(code: u8) -> (r: Option<VisualNovelLength>)
        ensures
            code == 1 <==> r == Some(VisualNovelLength::VeryShort),
            code == 2 <==> r == Some(VisualNovelLength::Short),
            code == 3 <==> r == Some(VisualNovelLength::Average),
            code == 4 <==> r == Some(VisualNovelLength::Long),
            code == 5 <==> r == Some(VisualNovelLength::VeryLong),
            r is None <==> !(code == 1 || code == 2 || code == 3 || code == 4 || code == 5),
    {
        match code {
            1 => Some(VisualNovelLength::VeryShort),
            2 => Some(VisualNovelLength::Short),
            3 => Some(VisualNovelLength::Average),
            4 => Some(VisualNovelLength::Long),
            5 => Some(VisualNovelLength::VeryLong),
            _ => None,
        }
    }
}

/// A title of a visual novel in one language.
#[derive(Clone, Debug)]
pub struct VisualNovelTitle {
    pub lang: Option<Language>,
    pub latin: Option<String>,
    pub main: Option<bool>,
    pub official: Option<bool>,
    pub title: Option<String>,
}

/// A field of a visual novel record.
#[derive(Clone, Copy, Debug, PartialEq, Eq, Structural, Hash)]
pub enum VisualNovelField {
    Aliases,
    AltTitle,
    Average,
    Description,
    DevelopersAliases,
    DevelopersDescription,
    DevelopersId,
    DevelopersLang,
    DevelopersName,
    DevelopersOriginal,
    DevelopersType,
    DevStatus,
    EditionsEid,
    EditionsLang,
    EditionsName,
    EditionsOfficial,
    ExtlinksId,
    ExtlinksLabel,
    ExtlinksName,
    ExtlinksUrl,
    Id,
    ImageDims,
    ImageId,
    ImageSexual,
    ImageThumbnail,
    ImageThumbnailDims,
    ImageUrl,
    ImageViolence,
    ImageVoteCount,
    Languages,
    Length,
    LengthMinutes,
    LengthVotes,
    OLang,
    Platforms,
    Rating,
    RelationsId,
    RelationsRelation,
    RelationsRelationOfficial,
    Released,
    ScreenshotsDims,
    ScreenshotsId,
    ScreenshotsSexual,
    ScreenshotsThumbnail,
    ScreenshotsThumbnailDims,
    ScreenshotsUrl,
    ScreenshotsViolence,
    ScreenshotsVoteCount,
    StaffEid,
    StaffNote,
    StaffRole,
    TagsId,
    TagsLie,
    TagsRating,
    TagsSpoiler,
    Title,
    TitlesLang,
    TitlesLatin,
    TitlesMain,
    TitlesOfficial,
    TitlesTitle,
    VaNote,
    VoteCount,
}

impl Sealed for VisualNovelField {

}

impl QueryField for VisualNovelField {
    open spec fn token_spec(&self) -> Seq<char> {
        match self {
            VisualNovelField::Aliases => "aliases"@,
            VisualNovelField::AltTitle => "alttitle"@,
            VisualNovelField::Average => "average"@,
            VisualNovelField::Description => "description"@,
            VisualNovelField::DevelopersAliases => "developers.aliases"@,
            VisualNovelField::DevelopersDescription => "developers.description"@,
            VisualNovelField::DevelopersId => "developers.id"@,
            VisualNovelField::DevelopersLang => "developers.lang"@,
            VisualNovelField::DevelopersName => "developers.name"@,
            VisualNovelField::DevelopersOriginal => "developers.original"@,
            VisualNovelField::DevelopersType => "developers.type"@,
            VisualNovelField::DevStatus => "devstatus"@,
            VisualNovelField::EditionsEid => "editions.eid"@,
            VisualNovelField::EditionsLang => "editions.lang"@,
            VisualNovelField::EditionsName => "editions.name"@,
            VisualNovelField::EditionsOfficial => "editions.official"@,
            VisualNovelField::ExtlinksId => "extlinks.id"@,
            VisualNovelField::ExtlinksLabel => "extlinks.label"@,
            VisualNovelField::ExtlinksName => "extlinks.name"@,
            VisualNovelField::ExtlinksUrl => "extlinks.url"@,
            VisualNovelField::Id => "id"@,
            VisualNovelField::ImageDims => "image.dims"@,
            VisualNovelField::ImageId => "image.id"@,
            VisualNovelField::ImageSexual => "image.sexual"@,
            VisualNovelField::ImageThumbnail => "image.thumbnail"@,
            VisualNovelField::ImageThumbnailDims => "image.thumbnail_dims"@,
            VisualNovelField::ImageUrl => "image.url"@,
            VisualNovelField::ImageViolence => "image.violence"@,
            VisualNovelField::ImageVoteCount => "image.votecount"@,
            VisualNovelField::Languages => "languages"@,
            VisualNovelField::Length => "length"@,
            VisualNovelField::LengthMinutes => "length_minutes"@,
            VisualNovelField::LengthVotes => "length_votes"@,
            VisualNovelField::OLang => "olang"@,
            VisualNovelField::Platforms => "platforms"@,
            VisualNovelField::Rating => "rating"@,
            VisualNovelField::RelationsId => "relations.id"@,
            VisualNovelField::RelationsRelation => "relations.relation"@,
            VisualNovelField::RelationsRelationOfficial => "relations.relation_official"@,
            VisualNovelField::Released => "released"@,
            VisualNovelField::ScreenshotsDims => "screenshots.dims"@,
            VisualNovelField::ScreenshotsId => "screenshots.id"@,
            VisualNovelField::ScreenshotsSexual => "screenshots.sexual"@,
            VisualNovelField::ScreenshotsThumbnail => "screenshots.thumbnail"@,
            VisualNovelField::ScreenshotsThumbnailDims => "screenshots.thumbnail_dims"@,
            VisualNovelField::ScreenshotsUrl => "screenshots.url"@,
            VisualNovelField::ScreenshotsViolence => "screenshots.violence"@,
            VisualNovelField::ScreenshotsVoteCount => "screenshots.votecount"@,
            VisualNovelField::StaffEid => "staff.eid"@,
            VisualNovelField::StaffNote => "staff.note"@,
            VisualNovelField::StaffRole => "staff.role"@,
            VisualNovelField::TagsId => "tags.id"@,
            VisualNovelField::TagsLie => "tags.lie"@,
            VisualNovelField::TagsRating => "tags.rating"@,
            VisualNovelField::TagsSpoiler => "tags.spoiler"@,
            VisualNovelField::Title => "title"@,
            VisualNovelField::TitlesLang => "titles.lang"@,
            VisualNovelField::TitlesLatin => "titles.latin"@,
            VisualNovelField::TitlesMain => "titles.main"@,
            VisualNovelField::TitlesOfficial => "titles.official"@,
            VisualNovelField::TitlesTitle => "titles.title"@,
            VisualNovelField::VaNote => "va.note"@,
            VisualNovelField::VoteCount => "votecount"@,
        }
    }

    fn token(&self) -> (r: &'static str) {
        match self {
            VisualNovelField::Aliases => "aliases",
            VisualNovelField::AltTitle => "alttitle",
            VisualNovelField::Average => "average",
            VisualNovelField::Description => "description",
            VisualNovelField::DevelopersAliases => "developers.aliases",
            VisualNovelField::DevelopersDescription => "developers.description",
            VisualNovelField::DevelopersId => "developers.id",
            VisualNovelField::DevelopersLang => "developers.lang",
            VisualNovelField::DevelopersName => "developers.name",
            VisualNovelField::DevelopersOriginal => "developers.original",
            VisualNovelField::DevelopersType => "developers.type",
            VisualNovelField::DevStatus => "devstatus",
            VisualNovelField::EditionsEid => "editions.eid",
            VisualNovelField::EditionsLang => "editions.lang",
            VisualNovelField::EditionsName => "editions.name",
            VisualNovelField::EditionsOfficial => "editions.official",
            VisualNovelField::ExtlinksId => "extlinks.id",
            VisualNovelField::ExtlinksLabel => "extlinks.label",
            VisualNovelField::ExtlinksName => "extlinks.name",
            VisualNovelField::ExtlinksUrl => "extlinks.url",
            VisualNovelField::Id => "id",
            VisualNovelField::ImageDims => "image.dims",
            VisualNovelField::ImageId => "image.id",
            VisualNovelField::ImageSexual => "image.sexual",
            VisualNovelField::ImageThumbnail => "image.thumbnail",
            VisualNovelField::ImageThumbnailDims => "image.thumbnail_dims",
            VisualNovelField::ImageUrl => "image.url",
            VisualNovelField::ImageViolence => "image.violence",
            VisualNovelField::ImageVoteCount => "image.votecount",
            VisualNovelField::Languages => "languages",
            VisualNovelField::Length => "length",
            VisualNovelField::LengthMinutes => "length_minutes",
            VisualNovelField::LengthVotes => "length_votes",
            VisualNovelField::OLang => "olang",
            VisualNovelField::Platforms => "platforms",
            VisualNovelField::Rating => "rating",
            VisualNovelField::RelationsId => "relations.id",
            VisualNovelField::RelationsRelation => "relations.relation",
            VisualNovelField::RelationsRelationOfficial => "relations.relation_official",
            VisualNovelField::Released => "released",
            VisualNovelField::ScreenshotsDims => "screenshots.dims",
            VisualNovelField::ScreenshotsId => "screenshots.id",
            VisualNovelField::ScreenshotsSexual => "screenshots.sexual",
            VisualNovelField::ScreenshotsThumbnail => "screenshots.thumbnail",
            VisualNovelField::ScreenshotsThumbnailDims => "screenshots.thumbnail_dims",
            VisualNovelField::ScreenshotsUrl => "screenshots.url",
            VisualNovelField::ScreenshotsViolence => "screenshots.violence",
            VisualNovelField::ScreenshotsVoteCount => "screenshots.votecount",
            VisualNovelField::StaffEid => "staff.eid",
            VisualNovelField::StaffNote => "staff.note",
            VisualNovelField::StaffRole => "staff.role",
            VisualNovelField::TagsId => "tags.id",
            VisualNovelField::TagsLie => "tags.lie",
            VisualNovelField::TagsRating => "tags.rating",
            VisualNovelField::TagsSpoiler => "tags.spoiler",
            VisualNovelField::Title => "title",
            VisualNovelField::TitlesLang => "titles.lang",
            VisualNovelField::TitlesLatin => "titles.latin",
            VisualNovelField::TitlesMain => "titles.main",
            VisualNovelField::TitlesOfficial => "titles.official",
            VisualNovelField::TitlesTitle => "titles.title",
            VisualNovelField::VaNote => "va.note",
            VisualNovelField::VoteCount => "votecount",
        }
    }

    #[verifier::rlimit(60)]
    fn variants() -> (r: Vec<Self>) {
        let mut v: Vec<Self> = Vec::new();
        v.push(VisualNovelField::Aliases);
        v.push(VisualNovelField::AltTitle);
        v.push(VisualNovelField::Average);
        v.push(VisualNovelField::Description);
        v.push(VisualNovelField::DevelopersAliases);
        v.push(VisualNovelField::DevelopersDescription);
        v.push(VisualNovelField::DevelopersId);
        v.push(VisualNovelField::DevelopersLang);
        v.push(VisualNovelField::DevelopersName);
        v.push(VisualNovelField::DevelopersOriginal);
        v.push(VisualNovelField::DevelopersType);
        v.push(VisualNovelField::DevStatus);
        v.push(VisualNovelField::EditionsEid);
        v.push(VisualNovelField::EditionsLang);
        v.push(VisualNovelField::EditionsName);
        v.push(VisualNovelField::EditionsOfficial);
        v.push(VisualNovelField::ExtlinksId);
        v.push(VisualNovelField::ExtlinksLabel);
        v.push(VisualNovelField::ExtlinksName);
        v.push(VisualNovelField::ExtlinksUrl);
        v.push(VisualNovelField::Id);
        v.push(VisualNovelField::ImageDims);
        v.push(VisualNovelField::ImageId);
        v.push(VisualNovelField::ImageSexual);
        v.push(VisualNovelField::ImageThumbnail);
        v.push(VisualNovelField::ImageThumbnailDims);
        v.push(VisualNovelField::ImageUrl);
        v.push(VisualNovelField::ImageViolence);
        v.push(VisualNovelField::ImageVoteCount);
        v.push(VisualNovelField::Languages);
        v.push(VisualNovelField::Length);
        v.push(VisualNovelField::LengthMinutes);
        v.push(VisualNovelField::LengthVotes);
        v.push(VisualNovelField::OLang);
        v.push(VisualNovelField::Platforms);
        v.push(VisualNovelField::Rating);
        v.push(VisualNovelField::RelationsId);
        v.push(VisualNovelField::RelationsRelation);
        v.push(VisualNovelField::RelationsRelationOfficial);
        v.push(VisualNovelField::Released);
        v.push(VisualNovelField::ScreenshotsDims);
        v.push(VisualNovelField::ScreenshotsId);
        v.push(VisualNovelField::ScreenshotsSexual);
        v.push(VisualNovelField::ScreenshotsThumbnail);
        v.push(VisualNovelField::ScreenshotsThumbnailDims);
        v.push(VisualNovelField::ScreenshotsUrl);
        v.push(VisualNovelField::ScreenshotsViolence);
        v.push(VisualNovelField::ScreenshotsVoteCount);
        v.push(VisualNovelField::StaffEid);
        v.push(VisualNovelField::StaffNote);
        v.push(VisualNovelField::StaffRole);
        v.push(VisualNovelField::TagsId);
        v.push(VisualNovelField::TagsLie);
        v.push(VisualNovelField::TagsRating);
        v.push(VisualNovelField::TagsSpoiler);
        v.push(VisualNovelField::Title);
        v.push(VisualNovelField::TitlesLang);
        v.push(VisualNovelField::TitlesLatin);
        v.push(VisualNovelField::TitlesMain);
        v.push(VisualNovelField::TitlesOfficial);
        v.push(VisualNovelField::TitlesTitle);
        v.push(VisualNovelField::VaNote);
        v.push(VisualNovelField::VoteCount);
        proof {
            assert forall|f: Self| v@.contains(f) by {
                match f {
                    VisualNovelField::Aliases => assert(v@[0] == f),
                    VisualNovelField::AltTitle => assert(v@[1] == f),
                    VisualNovelField::Average => assert(v@[2] == f),
                    VisualNovelField::Description => assert(v@[3] == f),
                    VisualNovelField::DevelopersAliases => assert(v@[4] == f),
                    VisualNovelField::DevelopersDescription => assert(v@[5] == f),
                    VisualNovelField::DevelopersId => assert(v@[6] == f),
                    VisualNovelField::DevelopersLang => assert(v@[7] == f),
                    VisualNovelField::DevelopersName => assert(v@[8] == f),
                    VisualNovelField::DevelopersOriginal => assert(v@[9] == f),
                    VisualNovelField::DevelopersType => assert(v@[10] == f),
                    VisualNovelField::DevStatus => assert(v@[11] == f),
                    VisualNovelField::EditionsEid => assert(v@[12] == f),
                    VisualNovelField::EditionsLang => assert(v@[13] == f),
                    VisualNovelField::EditionsName => assert(v@[14] == f),
                    VisualNovelField::EditionsOfficial => assert(v@[15] == f),
                    VisualNovelField::ExtlinksId => assert(v@[16] == f),
                    VisualNovelField::ExtlinksLabel => assert(v@[17] == f),
                    VisualNovelField::ExtlinksName => assert(v@[18] == f),
                    VisualNovelField::ExtlinksUrl => assert(v@[19] == f),
                    VisualNovelField::Id => assert(v@[20] == f),
                    VisualNovelField::ImageDims => assert(v@[21] == f),
                    VisualNovelField::ImageId => assert(v@[22] == f),
                    VisualNovelField::ImageSexual => assert(v@[23] == f),
                    VisualNovelField::ImageThumbnail => assert(v@[24] == f),
                    VisualNovelField::ImageThumbnailDims => assert(v@[25] == f),
                    VisualNovelField::ImageUrl => assert(v@[26] == f),
                    VisualNovelField::ImageViolence => assert(v@[27] == f),
                    VisualNovelField::ImageVoteCount => assert(v@[28] == f),
                    VisualNovelField::Languages => assert(v@[29] == f),
                    VisualNovelField::Length => assert(v@[30] == f),
                    VisualNovelField::LengthMinutes => assert(v@[31] == f),
                    VisualNovelField::LengthVotes => assert(v@[32] == f),
                    VisualNovelField::OLang => assert(v@[33] == f),
                    VisualNovelField::Platforms => assert(v@[34] == f),
                    VisualNovelField::Rating => assert(v@[35] == f),
                    VisualNovelField::RelationsId => assert(v@[36] == f),
                    VisualNovelField::RelationsRelation => assert(v@[37] == f),
                    VisualNovelField::RelationsRelationOfficial => assert(v@[38] == f),
                    VisualNovelField::Released => assert(v@[39] == f),
                    VisualNovelField::ScreenshotsDims => assert(v@[40] == f),
                    VisualNovelField::ScreenshotsId => assert(v@[41] == f),
                    VisualNovelField::ScreenshotsSexual => assert(v@[42] == f),
                    VisualNovelField::ScreenshotsThumbnail => assert(v@[43] == f),
                    VisualNovelField::ScreenshotsThumbnailDims => assert(v@[44] == f),
                    VisualNovelField::ScreenshotsUrl => assert(v@[45] == f),
                    VisualNovelField::ScreenshotsViolence => assert(v@[46] == f),
                    VisualNovelField::ScreenshotsVoteCount => assert(v@[47] == f),
                    VisualNovelField::StaffEid => assert(v@[48] == f),
                    VisualNovelField::StaffNote => assert(v@[49] == f),
                    VisualNovelField::StaffRole => assert(v@[50] == f),
                    VisualNovelField::TagsId => assert(v@[51] == f),
                    VisualNovelField::TagsLie => assert(v@[52] == f),
                    VisualNovelField::TagsRating => assert(v@[53] == f),
                    VisualNovelField::TagsSpoiler => assert(v@[54] == f),
                    VisualNovelField::Title => assert(v@[55] == f),
                    VisualNovelField::TitlesLang => assert(v@[56] == f),
                    VisualNovelField::TitlesLatin => assert(v@[57] == f),
                    VisualNovelField::TitlesMain => assert(v@[58] == f),
                    VisualNovelField::TitlesOfficial => assert(v@[59] == f),
                    VisualNovelField::TitlesTitle => assert(v@[60] == f),
                    VisualNovelField::VaNote => assert(v@[61] == f),
                    VisualNovelField::VoteCount => assert(v@[62] == f),
                }
            }
        }
        v
    }
}

/// A sort key of visual novel queries.
#[derive(Clone, Copy, Debug, PartialEq, Eq, Structural, Hash)]
pub enum SortVisualNovelBy {
    Id,
    Rating,
    Released,
    SearchRank,
    Title,
    VoteCount,
}

impl Sealed for SortVisualNovelBy {

}

impl SortQueryBy for SortVisualNovelBy {
    open spec fn token_spec(&self) -> Seq<char> {
        match self {
            SortVisualNovelBy::Id => "id"@,
            SortVisualNovelBy::Rating => "rating"@,
            SortVisualNovelBy::Released => "released"@,
            SortVisualNovelBy::SearchRank => "searchrank"@,
            SortVisualNovelBy::Title => "title"@,
            SortVisualNovelBy::VoteCount => "votecount"@,
        }
    }

    fn token(&self) -> (r: &'static str) {
        match self {
            SortVisualNovelBy::Id => "id",
            SortVisualNovelBy::Rating => "rating",
            SortVisualNovelBy::Released => "released",
            SortVisualNovelBy::SearchRank => "searchrank",
            SortVisualNovelBy::Title => "title",
            SortVisualNovelBy::VoteCount => "votecount",
        }
    }
}

/// A staff member credited on a visual novel, with the role.
#[derive(Clone, Debug)]
pub struct VisualNovelStaff {
    pub eid: Option<u32>,
    pub note: Option<String>,
    pub role: Option<String>,
    pub staff: Staff,
}

impl From<VisualNovelStaff> for Staff {
    fn from(outer: VisualNovelStaff) -> (r: Staff)
        ensures
            r == outer.staff,
    {
        outer.staff
    }
}

impl vstd::std_specs::convert::FromSpecImpl<VisualNovelStaff> for Staff {
    open spec fn obeys_from_spec() -> bool {
        true
    }

    open spec fn from_spec(outer: VisualNovelStaff) -> Staff {
        outer.staff
    }
}

/// A voice actor of a visual novel.
#[derive(Clone, Debug)]
pub struct VisualNovelVoiceActor {
    pub note: Option<String>,
    pub staff: Option<Staff>,
}

} // verus!
