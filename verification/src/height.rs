//! Chain heights: a revision number and a per-revision block height,
//! ordered lexicographically.

use vstd::prelude::*;

verus! {

/// A block height on the tracked chain.
///
/// The revision number changes only on chain upgrades that reset height
/// numbering; the revision height is the block height within that revision.
#[derive(Clone, Copy, Debug, PartialEq, Eq, Structural)]
pub struct Height {
    /// Revision of the chain (changes on upgrades that reset heights).
    pub revision_number: u64,
    /// Block height within the revision.
    pub revision_height: u64,
}

/// Strict lexicographic order on `(revision_number, revision_height)`.
pub open spec fn height_lt(a: Height, b: Height) -> bool {
    a.revision_number < b.revision_number
        || (a.revision_number == b.revision_number && a.revision_height < b.revision_height)
}

impl Height {
    /// Build a height from its two components.
    pub fn new(revision_number: u64, revision_height: u64) -> (r: Height)
        ensures
            r == (Height { revision_number, revision_height }),
    {
        Height { revision_number, revision_height }
    }

    /// Whether `self` is strictly below `other` in lexicographic order.
    pub fn lt(&self, other: &Height) -> (r: bool)
        ensures
            r == height_lt(*self, *other),
    {
        self.revision_number < other.revision_number
            || (self.revision_number == other.revision_number
                && self.revision_height < other.revision_height)
    }
}

} // verus!
