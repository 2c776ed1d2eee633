//! Database statistics.

use vstd::prelude::*;

verus! {
/// The number of records of each resource.
#[derive(Clone, Debug)]
pub struct Stats {
    pub chars: u32,
    pub producers: u32,
    pub releases: u32,
    pub staff: u32,
    pub tags: u32,
    pub traits: u32,
    pub vn: u32,
}

} // verus!
