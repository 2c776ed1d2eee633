//! Releases of visual novels.

use crate::error::Error;
use crate::id::{check_id, is_id, prefixed_number, prefixed_number_string, prefixed_signed, prefixed_signed_string};
use crate::model::producer::Producer;
use crate::model::schema::Language;
use crate::model::{QueryField, Sealed, SortQueryBy};
use vstd::prelude::*;

verus! {

/// The id of a release: `r` followed by a decimal number.
#[derive(Clone, Debug, PartialEq, Eq, Hash)]
pub struct ReleaseId(String);

impl View for ReleaseId {
    type V = Seq<char>;

    closed spec fn view(&self) -> Seq<char> {
        self.0@
    }
}

impl ReleaseId {
    /// The letter that starts every id of this kind.
    pub const PREFIX: &'static str = "r";

    /// Takes the text as an id without checking it.
    pub fn new(text: &str) -> (r: Self)
        ensures
            r@ == text@,
    {
        ReleaseId(text.to_owned())
    }

    /// The id of the given number.
    pub fn from_number(n: u64) -> (r: Self)
        ensures
            r@ == prefixed_number("r"@, n as nat),
    {
        ReleaseId(prefixed_number_string(Self::PREFIX, n))
    }

    /// Checks the text against the id pattern and takes it as an id.
    pub fn parse(value: &str) -> (r: Result<Self, Error>)
        ensures
            r is Ok <==> is_id("r"@, value@),
            r is Ok ==> r->Ok_0@ == value@,
            r is Err ==> (r matches Err(Error::InvalidId(t)) && t@ == value@),
    {
        let id = ReleaseId(value.to_owned());
        match id.validate() {
            Ok(()) => Ok(id),
            Err(e) => Err(e),
        }
    }

    /// Checks the id against the id pattern.
    pub fn validate(&self) -> (r: Result<(), Error>)
        ensures
            r is Ok <==> is_id("r"@, self@),
            r is Err ==> (r matches Err(Error::InvalidId(t)) && t@ == self@),
    {
        check_id(Self::PREFIX, self.0.as_str())
    }

    /// The text of the id.
    pub fn as_str(&self) -> (r: &str)
        ensures
            r@ == self@,
    {
        self.0.as_str()
    }

    /// The text of the id.
    pub fn into_inner(self) -> (r: String)
        ensures
            r@ == self@,
    {
        self.0
    }
}

impl From<u64> for ReleaseId {
    fn from(n: u64) -> (r: Self)
        ensures
            r@ == prefixed_number("r"@, n as nat),
    {
        Self::from_number(n)
    }
}

impl vstd::std_specs::convert::FromSpecImpl<u64> for ReleaseId {
    open spec fn obeys_from_spec() -> bool {
        false
    }

    open spec fn from_spec(n: u64) -> Self {
        arbitrary()
    }
}

impl From<u8> for ReleaseId {
    fn from(n: u8) -> (r: Self)
        ensures
            r@ == prefixed_number("r"@, n as nat),
    {
        Self::from_number(n as u64)
    }
}

impl vstd::std_specs::convert::FromSpecImpl<u8> for ReleaseId {
    open spec fn obeys_from_spec() -> bool {
        false
    }

    open spec fn from_spec(n: u8) -> Self {
        arbitrary()
    }
}

impl From<u16> for ReleaseId {
    fn from(n: u16) -> (r: Self)
        ensures
            r@ == prefixed_number("r"@, n as nat),
    {
        Self::from_number(n as u64)
    }
}

impl vstd::std_specs::convert::FromSpecImpl<u16> for ReleaseId {
    open spec fn obeys_from_spec() -> bool {
        false
    }

    open spec fn from_spec(n: u16) -> Self {
        arbitrary()
    }
}

impl From<u32> for ReleaseId {
    fn from(n: u32) -> (r: Self)
        ensures
            r@ == prefixed_number("r"@, n as nat),
    {
        Self::from_number(n as u64)
    }
}

impl vstd::std_specs::convert::FromSpecImpl<u32> for ReleaseId {
    open spec fn obeys_from_spec() -> bool {
        false
    }

    open spec fn from_spec(n: u32) -> Self {
        arbitrary()
    }
}

impl From<i8> for ReleaseId {
    fn from(n: i8) -> (r: Self)
        ensures
            r@ == prefixed_signed("r"@, n as int),
    {
        ReleaseId(prefixed_signed_string(Self::PREFIX, n as i64))
    }
}

impl vstd::std_specs::convert::FromSpecImpl<i8> for ReleaseId {
    open spec fn obeys_from_spec() -> bool {
        false
    }

    open spec fn from_spec(n: i8) -> Self {
        arbitrary()
    }
}

impl From<i16> for ReleaseId {
    fn from(n: i16) -> (r: Self)
        ensures
            r@ == prefixed_signed("r"@, n as int),
    {
        ReleaseId(prefixed_signed_string(Self::PREFIX, n as i64))
    }
}

impl vstd::std_specs::convert::FromSpecImpl<i16> for ReleaseId {
    open spec fn obeys_from_spec() -> bool {
        false
    }

    open spec fn from_spec(n: i16) -> Self {
        arbitrary()
    }
}

impl From<i32> for ReleaseId {
    fn from(n: i32) -> (r: Self)
        ensures
            r@ == prefixed_signed("r"@, n as int),
    {
        ReleaseId(prefixed_signed_string(Self::PREFIX, n as i64))
    }
}

impl vstd::std_specs::convert::FromSpecImpl<i32> for ReleaseId {
    open spec fn obeys_from_spec() -> bool {
        false
    }

    open spec fn from_spec(n: i32) -> Self {
        arbitrary()
    }
}

impl From<i64> for ReleaseId {
    fn from(n: i64) -> (r: Self)
        ensures
            r@ == prefixed_signed("r"@, n as int),
    {
        ReleaseId(prefixed_signed_string(Self::PREFIX, n as i64))
    }
}

impl vstd::std_specs::convert::FromSpecImpl<i64> for ReleaseId {
    open spec fn obeys_from_spec() -> bool {
        false
    }

    open spec fn from_spec(n: i64) -> Self {
        arbitrary()
    }
}

impl From<&str> for ReleaseId {
    fn from(text: &str) -> (r: Self)
        ensures
            r@ == text@,
    {
        Self::new(text)
    }
}

impl vstd::std_specs::convert::FromSpecImpl<&str> for ReleaseId {
    open spec fn obeys_from_spec() -> bool {
        false
    }

    open spec fn from_spec(text: &str) -> Self {
        arbitrary()
    }
}

impl From<String> for ReleaseId {
    fn from(text: String) -> (r: Self)
        ensures
            r@ == text@,
    {
        ReleaseId(text)
    }
}

impl vstd::std_specs::convert::FromSpecImpl<String> for ReleaseId {
    open spec fn obeys_from_spec() -> bool {
        false
    }

    open spec fn from_spec(text: String) -> Self {
        arbitrary()
    }
}

/// The kind of a release image.
#[derive(Clone, Copy, Debug, PartialEq, Eq, Structural, Hash)]
pub enum ReleaseImageType {
    Dig,
    PkgBack,
    PkgContent,
    PkgFront,
    PkgMed,
    PkgSide,
}

/// A language of a release, with its title in it.
#[derive(Clone, Debug)]
pub struct ReleaseLanguage {
    pub lang: Option<Language>,
    pub latin: Option<String>,
    pub main: Option<bool>,
    pub mtl: Option<bool>,
    pub title: Option<String>,
}

/// A medium of a release and how many of it.
#[derive(Clone, Debug)]
pub struct ReleaseMedia {
    pub medium: Option<String>,
    pub qty: Option<u32>,
}

/// A producer of a release, with its role.
#[derive(Clone, Debug)]
pub struct ReleaseProducer {
    pub developer: Option<bool>,
    pub producer: Producer,
    pub publisher: Option<bool>,
}

impl From<ReleaseProducer> for Producer {
    fn from(outer: ReleaseProducer) -> (r: Producer)
        ensures
            r == outer.producer,
    {
        outer.producer
    }
}

impl vstd::std_specs::convert::FromSpecImpl<ReleaseProducer> for Producer {
    open spec fn obeys_from_spec() -> bool {
        true
    }

    open spec fn from_spec(outer: ReleaseProducer) -> Producer {
        outer.producer
    }
}

/// The screen resolution of a release: width and height, or a free text.
#[derive(Clone, Debug, PartialEq, Eq, Hash)]
pub enum ReleaseResolution {
    NonStandard(String),
    Standard([u32; 2]),
}

/// How complete a release is.
#[derive(Clone, Copy, Debug, PartialEq, Eq, Structural, Hash)]
pub enum ReleaseType {
    Complete,
    Partial,
    Trial,
}

/// How much of a release is voiced.
#[derive(Clone, Copy, Debug, PartialEq, Eq, Structural, Hash)]
pub enum ReleaseVoiced {
    FullyVoiced,
    NotVoiced,
    OnlyEroScenes,
    PartiallyVoiced,
}

impl ReleaseVoiced {
    /// The voicing of its numeric wire code, or `None` for an unknown code.
    pub fn from_code(code: u8) -> (r: Option<ReleaseVoiced>)
        ensures
            code == 1 <==> r == Some(ReleaseVoiced::NotVoiced),
            code == 2 <==> r == Some(ReleaseVoiced::OnlyEroScenes),
            code == 3 <==> r == Some(ReleaseVoiced::PartiallyVoiced),
            code == 4 <==> r == Some(ReleaseVoiced::FullyVoiced),
            r is None <==> !(code == 1 || code == 2 || code == 3 || code == 4),
    {
        match code {
            1 => Some(ReleaseVoiced::NotVoiced),
            2 => Some(ReleaseVoiced::OnlyEroScenes),
            3 => Some(ReleaseVoiced::PartiallyVoiced),
            4 => Some(ReleaseVoiced::FullyVoiced),
            _ => None,
        }
    }
}

/// A field of a release record.
#[derive(Clone, Copy, Debug, PartialEq, Eq, Structural, Hash)]
pub enum ReleaseField {
    AltTitle,
    Catalog,
    Engine,
    ExtlinksId,
    ExtlinksLabel,
    ExtlinksName,
    ExtlinksUrl,
    Freeware,
    Gtin,
    HasEro,
    Id,
    ImagesId,
    ImagesLanguages,
    ImagesPhoto,
    ImagesType,
    ImagesUrl,
    ImagesVn,
    LanguagesLang,
    LanguagesLatin,
    LanguagesMain,
    LanguagesMtl,
    LanguagesTitle,
    MediaMedium,
    MediaQty,
    MinAge,
    Notes,
    Official,
    Patch,
    Platforms,
    ProducersDeveloper,
    ProducersId,
    ProducersPublisher,
    Released,
    Resolution,
    Title,
    Uncensored,
    VisualNovelId,
    VisualNovelRType,
    Voiced,
}

impl Sealed for ReleaseField {

}

impl QueryField for ReleaseField {
    open spec fn token_spec(&self) -> Seq<char> {
        match self {
            ReleaseField::AltTitle => "alttitle"@,
            ReleaseField::Catalog => "catalog"@,
            ReleaseField::Engine => "engine"@,
            ReleaseField::ExtlinksId => "extlinks.id"@,
            ReleaseField::ExtlinksLabel => "extlinks.label"@,
            ReleaseField::ExtlinksName => "extlinks.name"@,
            ReleaseField::ExtlinksUrl => "extlinks.url"@,
            ReleaseField::Freeware => "freeware"@,
            ReleaseField::Gtin => "gtin"@,
            ReleaseField::HasEro => "has_ero"@,
            ReleaseField::Id => "id"@,
            ReleaseField::ImagesId => "images.id"@,
            ReleaseField::ImagesLanguages => "images.languages"@,
            ReleaseField::ImagesPhoto => "images.photo"@,
            ReleaseField::ImagesType => "images.type"@,
            ReleaseField::ImagesUrl => "images.url"@,
            ReleaseField::ImagesVn => "images.vn"@,
            ReleaseField::LanguagesLang => "languages.lang"@,
            ReleaseField::LanguagesLatin => "languages.latin"@,
            ReleaseField::LanguagesMain => "languages.main"@,
            ReleaseField::LanguagesMtl => "languages.mtl"@,
            ReleaseField::LanguagesTitle => "languages.title"@,
            ReleaseField::MediaMedium => "media.medium"@,
            ReleaseField::MediaQty => "media.qty"@,
            ReleaseField::MinAge => "minage"@,
            ReleaseField::Notes => "notes"@,
            ReleaseField::Official => "official"@,
            ReleaseField::Patch => "patch"@,
            ReleaseField::Platforms => "platforms"@,
            ReleaseField::ProducersDeveloper => "producers.developer"@,
            ReleaseField::ProducersId => "producers.id"@,
            ReleaseField::ProducersPublisher => "producers.publisher"@,
            ReleaseField::Released => "released"@,
            ReleaseField::Resolution => "resolution"@,
            ReleaseField::Title => "title"@,
            ReleaseField::Uncensored => "uncensored"@,
            ReleaseField::VisualNovelId => "vns.id"@,
            ReleaseField::VisualNovelRType => "vns.rtype"@,
            ReleaseField::Voiced => "voiced"@,
        }
    }

    fn token(&self) -> (r: &'static str) {
        match self {
            ReleaseField::AltTitle => "alttitle",
            ReleaseField::Catalog => "catalog",
            ReleaseField::Engine => "engine",
            ReleaseField::ExtlinksId => "extlinks.id",
            ReleaseField::ExtlinksLabel => "extlinks.label",
            ReleaseField::ExtlinksName => "extlinks.name",
            ReleaseField::ExtlinksUrl => "extlinks.url",
            ReleaseField::Freeware => "freeware",
            ReleaseField::Gtin => "gtin",
            ReleaseField::HasEro => "has_ero",
            ReleaseField::Id => "id",
            ReleaseField::ImagesId => "images.id",
            ReleaseField::ImagesLanguages => "images.languages",
            ReleaseField::ImagesPhoto => "images.photo",
            ReleaseField::ImagesType => "images.type",
            ReleaseField::ImagesUrl => "images.url",
            ReleaseField::ImagesVn => "images.vn",
            ReleaseField::LanguagesLang => "languages.lang",
            ReleaseField::LanguagesLatin => "languages.latin",
            ReleaseField::LanguagesMain => "languages.main",
            ReleaseField::LanguagesMtl => "languages.mtl",
            ReleaseField::LanguagesTitle => "languages.title",
            ReleaseField::MediaMedium => "media.medium",
            ReleaseField::MediaQty => "media.qty",
            ReleaseField::MinAge => "minage",
            ReleaseField::Notes => "notes",
            ReleaseField::Official => "official",
            ReleaseField::Patch => "patch",
            ReleaseField::Platforms => "platforms",
            ReleaseField::ProducersDeveloper => "producers.developer",
            ReleaseField::ProducersId => "producers.id",
            ReleaseField::ProducersPublisher => "producers.publisher",
            ReleaseField::Released => "released",
            ReleaseField::Resolution => "resolution",
            ReleaseField::Title => "title",
            ReleaseField::Uncensored => "uncensored",
            ReleaseField::VisualNovelId => "vns.id",
            ReleaseField::VisualNovelRType => "vns.rtype",
            ReleaseField::Voiced => "voiced",
        }
    }

    #[verifier::rlimit(60)]
    fn variants() -> (r: Vec<Self>) {
        let mut v: Vec<Self> = Vec::new();
        v.push(ReleaseField::AltTitle);
        v.push(ReleaseField::Catalog);
        v.push(ReleaseField::Engine);
        v.push(ReleaseField::ExtlinksId);
        v.push(ReleaseField::ExtlinksLabel);
        v.push(ReleaseField::ExtlinksName);
        v.push(ReleaseField::ExtlinksUrl);
        v.push(ReleaseField::Freeware);
        v.push(ReleaseField::Gtin);
        v.push(ReleaseField::HasEro);
        v.push(ReleaseField::Id);
        v.push(ReleaseField::ImagesId);
        v.push(ReleaseField::ImagesLanguages);
        v.push(ReleaseField::ImagesPhoto);
        v.push(ReleaseField::ImagesType);
        v.push(ReleaseField::ImagesUrl);
        v.push(ReleaseField::ImagesVn);
        v.push(ReleaseField::LanguagesLang);
        v.push(ReleaseField::LanguagesLatin);
        v.push(ReleaseField::LanguagesMain);
        v.push(ReleaseField::LanguagesMtl);
        v.push(ReleaseField::LanguagesTitle);
        v.push(ReleaseField::MediaMedium);
        v.push(ReleaseField::MediaQty);
        v.push(ReleaseField::MinAge);
        v.push(ReleaseField::Notes);
        v.push(ReleaseField::Official);
        v.push(ReleaseField::Patch);
        v.push(ReleaseField::Platforms);
        v.push(ReleaseField::ProducersDeveloper);
        v.push(ReleaseField::ProducersId);
        v.push(ReleaseField::ProducersPublisher);
        v.push(ReleaseField::Released);
        v.push(ReleaseField::Resolution);
        v.push(ReleaseField::Title);
        v.push(ReleaseField::Uncensored);
        v.push(ReleaseField::VisualNovelId);
        v.push(ReleaseField::VisualNovelRType);
        v.push(ReleaseField::Voiced);
        proof {
            assert forall|f: Self| v@.contains(f) by {
                match f {
                    ReleaseField::AltTitle => assert(v@[0] == f),
                    ReleaseField::Catalog => assert(v@[1] == f),
                    ReleaseField::Engine => assert(v@[2] == f),
                    ReleaseField::ExtlinksId => assert(v@[3] == f),
                    ReleaseField::ExtlinksLabel => assert(v@[4] == f),
                    ReleaseField::ExtlinksName => assert(v@[5] == f),
                    ReleaseField::ExtlinksUrl => assert(v@[6] == f),
                    ReleaseField::Freeware => assert(v@[7] == f),
                    ReleaseField::Gtin => assert(v@[8] == f),
                    ReleaseField::HasEro => assert(v@[9] == f),
                    ReleaseField::Id => assert(v@[10] == f),
                    ReleaseField::ImagesId => assert(v@[11] == f),
                    ReleaseField::ImagesLanguages => assert(v@[12] == f),
                    ReleaseField::ImagesPhoto => assert(v@[13] == f),
                    ReleaseField::ImagesType => assert(v@[14] == f),
                    ReleaseField::ImagesUrl => assert(v@[15] == f),
                    ReleaseField::ImagesVn => assert(v@[16] == f),
                    ReleaseField::LanguagesLang => assert(v@[17] == f),
                    ReleaseField::LanguagesLatin => assert(v@[18] == f),
                    ReleaseField::LanguagesMain => assert(v@[19] == f),
                    ReleaseField::LanguagesMtl => assert(v@[20] == f),
                    ReleaseField::LanguagesTitle => assert(v@[21] == f),
                    ReleaseField::MediaMedium => assert(v@[22] == f),
                    ReleaseField::MediaQty => assert(v@[23] == f),
                    ReleaseField::MinAge => assert(v@[24] == f),
                    ReleaseField::Notes => assert(v@[25] == f),
                    ReleaseField::Official => assert(v@[26] == f),
                    ReleaseField::Patch => assert(v@[27] == f),
                    ReleaseField::Platforms => assert(v@[28] == f),
                    ReleaseField::ProducersDeveloper => assert(v@[29] == f),
                    ReleaseField::ProducersId => assert(v@[30] == f),
                    ReleaseField::ProducersPublisher => assert(v@[31] == f),
                    ReleaseField::Released => assert(v@[32] == f),
                    ReleaseField::Resolution => assert(v@[33] == f),
                    ReleaseField::Title => assert(v@[34] == f),
                    ReleaseField::Uncensored => assert(v@[35] == f),
                    ReleaseField::VisualNovelId => assert(v@[36] == f),
                    ReleaseField::VisualNovelRType => assert(v@[37] == f),
                    ReleaseField::Voiced => assert(v@[38] == f),
                }
            }
        }
        v
    }
}

/// A sort key of release queries.
#[derive(Clone, Copy, Debug, PartialEq, Eq, Structural, Hash)]
pub enum SortReleaseBy {
    Id,
    Released,
    SearchRank,
    Title,
}

impl Sealed for SortReleaseBy {

}

impl SortQueryBy for SortReleaseBy {
    open spec fn token_spec(&self) -> Seq<char> {
        match self {
            SortReleaseBy::Id => "id"@,
            SortReleaseBy::Released => "released"@,
            SortReleaseBy::SearchRank => "searchrank"@,
            SortReleaseBy::Title => "title"@,
        }
    }

    fn token(&self) -> (r: &'static str) {
        match self {
            SortReleaseBy::Id => "id",
            SortReleaseBy::Released => "released",
            SortReleaseBy::SearchRank => "searchrank",
            SortReleaseBy::Title => "title",
        }
    }
}

/// A link to a page on another site.
#[derive(Clone, Debug)]
pub struct ExternalLink {
    pub id: Option<serde_json::Value>,
    pub label: Option<String>,
    pub name: Option<String>,
    pub url: Option<String>,
}

/// A release record; fields that were not selected are `None`.
#[derive(Clone, Debug)]
pub struct Release {
    pub alttitle: Option<String>,
    pub catalog: Option<String>,
    pub engine: Option<String>,
    pub extlinks: Option<Vec<ExternalLink>>,
    pub freeware: Option<bool>,
    pub gtin: Option<String>,
    pub has_ero: Option<bool>,
    pub id: ReleaseId,
    pub languages: Option<Vec<ReleaseLanguage>>,
    pub media: Option<Vec<ReleaseMedia>>,
    pub minage: Option<u32>,
    pub notes: Option<String>,
    pub official: Option<bool>,
    pub patch: Option<bool>,
    pub platforms: Option<Vec<String>>,
    pub released: Option<String>,
    pub resolution: Option<ReleaseResolution>,
    pub title: Option<String>,
    pub uncensored: Option<bool>,
    pub voiced: Option<ReleaseVoiced>,
}

impl From<Release> for ReleaseId {
    fn from(record: Release) -> (r: ReleaseId)
        ensures
            r == record.id,
    {
        record.id
    }
}

impl vstd::std_specs::convert::FromSpecImpl<Release> for ReleaseId {
    open spec fn obeys_from_spec() -> bool {
        true
    }

    open spec fn from_spec(record: Release) -> ReleaseId {
        record.id
    }
}

} // verus!
