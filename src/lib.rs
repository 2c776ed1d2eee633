//! A typed client library for the visual novel database API: request
//! builders, query construction and the wire encoding of queries.

pub mod endpoint;
pub mod error;
pub mod field_set;
pub mod filter;
pub mod id;
pub mod model;
pub mod query;
pub mod url_query;
pub mod vndb;
pub mod wire;

pub use endpoint::{Endpoint, BASE_URL};
pub use error::{Error, Result};
pub use field_set::FieldSet;
pub use filter::JsonQueryFilter;
pub use model::auth_info::{AuthInfo, TokenPermission};
pub use model::character::{
    CharacterBirthday, CharacterField, CharacterId, CharacterSex, CharacterSexValue,
    CharacterTrait, SortCharacterBy,
};
pub use model::producer::{Producer, ProducerField, ProducerId, ProducerType, SortProducerBy};
pub use model::release::{
    ExternalLink, Release, ReleaseField, ReleaseId, ReleaseImageType, ReleaseLanguage, ReleaseMedia, ReleaseProducer,
    ReleaseResolution, ReleaseType, ReleaseVoiced, SortReleaseBy,
};
pub use model::schema::{Language, Schema, SchemaEnum};
pub use model::staff::{SortStaffBy, Staff, StaffAlias, StaffField, StaffGender, StaffId};
pub use model::stats::Stats;
pub use model::tag::{SortTagBy, Tag, TagCategory, TagField, TagId};
pub use model::traits::{SortTraitBy, Trait, TraitField, TraitId};
pub use model::user::{User, UserField, UserId, UserUrlQuery, Users};
pub use model::visual_novel::{
    SortVisualNovelBy, VisualNovelDevStatus, VisualNovelDeveloper, VisualNovelEdition,
    VisualNovelField, VisualNovelId, VisualNovelLength, VisualNovelStaff, VisualNovelTitle,
    VisualNovelVoiceActor,
};
pub use model::{QueryField, Response, Sealed, SortQueryBy};
pub use query::{JsonQuery, JsonQueryBuilder};
pub use url_query::UrlQueryParams;
pub use vndb::{Token, VndbBuilder};
