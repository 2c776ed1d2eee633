//! The resources of the API: their fields, sort keys, ids and records.

pub mod auth_info;
pub mod character;
pub mod producer;
pub mod release;
pub mod schema;
pub mod staff;
pub mod stats;
pub mod tag;
pub mod traits;
pub mod user;
pub mod visual_novel;

use vstd::prelude::*;

verus! {

/// Restricts the field and sort capabilities to the resources of this crate.
pub trait Sealed {

}

/// The selectable fields of one resource: a closed set of tokens, each with
/// its wire name.
pub trait QueryField: Sealed + Sized + Copy {
    /// The wire name of the field.
    spec fn token_spec(&self) -> Seq<char>;

    /// The wire name of the field.
    fn token(&self) -> (r: &'static str)
        ensures
            r@ == self.token_spec(),
    ;

    /// Every field of the resource.
    fn variants() -> (r: Vec<Self>)
        ensures
            forall|f: Self| #[trigger] r@.contains(f),
    ;
}

/// The sort keys of one resource, each with its wire name.
pub trait SortQueryBy: Sealed + Sized + Copy {
    /// The wire name of the sort key.
    spec fn token_spec(&self) -> Seq<char>;

    /// The wire name of the sort key.
    fn token(&self) -> (r: &'static str)
        ensures
            r@ == self.token_spec(),
    ;
}


/// One page of the answer to a list query.
pub struct Response<T> {
    pub compact_filters: Option<String>,
    pub count: Option<u32>,
    pub more: bool,
    pub normalized_filters: Option<serde_json::Value>,
    pub results: Vec<T>,
}

} // verus!
