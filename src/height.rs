use vstd::prelude::*;

verus! {

/// A position on the counterparty chain: a revision number and a block height
/// within that revision. The block height is never zero.
#[derive(Clone, Copy, Debug, PartialEq, Eq, Structural, PartialOrd, Ord, Hash)]
pub struct Height {
    pub revision_number: u64,
    pub revision_height: u64,
}

/// `a < b` in the order of heights: by revision number, then by block height.
pub open spec fn height_lt(a: Height, b: Height) -> bool {
    a.revision_number < b.revision_number || (a.revision_number == b.revision_number
        && a.revision_height < b.revision_height)
}

pub open spec fn height_le(a: Height, b: Height) -> bool {
    height_lt(a, b) || a == b
}

/// The larger of two heights.
pub open spec fn height_max(a: Height, b: Height) -> Height {
    if height_lt(a, b) {
        b
    } else {
        a
    }
}

impl Height {
    pub open spec fn wf(self) -> bool {
        self.revision_height > 0
    }

    pub open spec fn rev(self) -> u64 {
        self.revision_number
    }

    pub open spec fn blk(self) -> u64 {
        self.revision_height
    }

    /// A height; fails where the block height is zero.
    pub fn new(revision_number: u64, revision_height: u64) -> (r: Result<Height, ()>)
        ensures
            revision_height == 0 <==> r is Err,
            r matches Ok(h) ==> h.rev() == revision_number && h.blk() == revision_height && h.wf(),
    {
        if revision_height == 0 {
            Err(())
        } else {
            Ok(Height { revision_number, revision_height })
        }
    }

    /// The lowest height of a revision.
    pub fn min(revision_number: u64) -> (r: Height)
        ensures
            r.rev() == revision_number,
            r.blk() == 1,
            r.wf(),
    {
        Height { revision_number, revision_height: 1 }
    }

    pub fn revision_number(&self) -> (r: u64)
        ensures
            r == self.rev(),
    {
        self.revision_number
    }

    pub fn revision_height(&self) -> (r: u64)
        ensures
            r == self.blk(),
    {
        self.revision_height
    }

    /// `self < other` in the order of heights.
    pub fn lt(&self, other: &Height) -> (r: bool)
        ensures
            r == height_lt(*self, *other),
    {
        self.revision_number < other.revision_number || (self.revision_number
            == other.revision_number && self.revision_height < other.revision_height)
    }

    /// The larger of `self` and `other`.
    pub fn max(self, other: Height) -> (r: Height)
        ensures
            r == height_max(self, other),
    {
        if self.lt(&other) {
            other
        } else {
            self
        }
    }
}

} // verus!
