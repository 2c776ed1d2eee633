//! The resource paths of the API.

use vstd::prelude::*;

verus! {

/// The origin and base path of the API.
pub const BASE_URL: &'static str = "https://api.vndb.org/kana";

/// A resource path of the API.
#[derive(Clone, Copy, Debug, PartialEq, Eq, Structural, Hash)]
pub enum Endpoint {
    AuthInfo,
    Character,
    Producer,
    Release,
    Rlist,
    Schema,
    Staff,
    Stats,
    Tag,
    Trait,
    Ulist,
    UlistLabels,
    User,
    VisualNovel,
}

/// The full URL of an endpoint: the base URL, a slash, and the endpoint's name.
pub open spec fn endpoint_url(endpoint: Endpoint) -> Seq<char> {
    BASE_URL@ + "/"@ + endpoint.name_spec()
}

impl Endpoint {
    /// The path segment of the endpoint.
    pub open spec fn name_spec(&self) -> Seq<char> {
        match self {
            Endpoint::AuthInfo => "authinfo"@,
            Endpoint::Character => "character"@,
            Endpoint::Producer => "producer"@,
            Endpoint::Release => "release"@,
            Endpoint::Rlist => "rlist"@,
            Endpoint::Schema => "schema"@,
            Endpoint::Staff => "staff"@,
            Endpoint::Stats => "stats"@,
            Endpoint::Tag => "tag"@,
            Endpoint::Trait => "trait"@,
            Endpoint::Ulist => "ulist"@,
            Endpoint::UlistLabels => "ulist_labels"@,
            Endpoint::User => "user"@,
            Endpoint::VisualNovel => "vn"@,
        }
    }

    /// The path segment of the endpoint.
    pub fn name(&self) -> (r: &'static str)
        ensures
            r@ == self.name_spec(),
    {
        match self {
            Endpoint::AuthInfo => "authinfo",
            Endpoint::Character => "character",
            Endpoint::Producer => "producer",
            Endpoint::Release => "release",
            Endpoint::Rlist => "rlist",
            Endpoint::Schema => "schema",
            Endpoint::Staff => "staff",
            Endpoint::Stats => "stats",
            Endpoint::Tag => "tag",
            Endpoint::Trait => "trait",
            Endpoint::Ulist => "ulist",
            Endpoint::UlistLabels => "ulist_labels",
            Endpoint::User => "user",
            Endpoint::VisualNovel => "vn",
        }
    }

    /// The full URL of the endpoint.
    pub fn url(self) -> (r: String)
        ensures
            r@ == endpoint_url(self),
    {
        let mut s = BASE_URL.to_owned();
        s.append("/");
        s.append(self.name());
        s
    }

    /// Every endpoint.
    pub fn variants() -> (r: Vec<Endpoint>)
        ensures
            forall|e: Endpoint| #[trigger] r@.contains(e),
    {
        let mut v: Vec<Endpoint> = Vec::new();
        v.push(Endpoint::AuthInfo);
        v.push(Endpoint::Character);
        v.push(Endpoint::Producer);
        v.push(Endpoint::Release);
        v.push(Endpoint::Rlist);
        v.push(Endpoint::Schema);
        v.push(Endpoint::Staff);
        v.push(Endpoint::Stats);
        v.push(Endpoint::Tag);
        v.push(Endpoint::Trait);
        v.push(Endpoint::Ulist);
        v.push(Endpoint::UlistLabels);
        v.push(Endpoint::User);
        v.push(Endpoint::VisualNovel);
        proof {
            assert forall|e: Endpoint| v@.contains(e) by {
                match e {
                    Endpoint::AuthInfo => assert(v@[0] == e),
                    Endpoint::Character => assert(v@[1] == e),
                    Endpoint::Producer => assert(v@[2] == e),
                    Endpoint::Release => assert(v@[3] == e),
                    Endpoint::Rlist => assert(v@[4] == e),
                    Endpoint::Schema => assert(v@[5] == e),
                    Endpoint::Staff => assert(v@[6] == e),
                    Endpoint::Stats => assert(v@[7] == e),
                    Endpoint::Tag => assert(v@[8] == e),
                    Endpoint::Trait => assert(v@[9] == e),
                    Endpoint::Ulist => assert(v@[10] == e),
                    Endpoint::UlistLabels => assert(v@[11] == e),
                    Endpoint::User => assert(v@[12] == e),
                    Endpoint::VisualNovel => assert(v@[13] == e),
                }
            }
        }
        v
    }
}

} // verus!
