//! What the server knows of a token.

use vstd::prelude::*;

verus! {
/// A permission that a token grants.
#[derive(Clone, Copy, Debug, PartialEq, Eq, Structural, Hash)]
pub enum TokenPermission {
    ListRead,
    ListWrite,
}

/// The user and permissions behind a token.
#[derive(Clone, Debug)]
pub struct AuthInfo {
    pub id: String,
    pub permissions: Vec<TokenPermission>,
    pub username: String,
}

} // verus!
