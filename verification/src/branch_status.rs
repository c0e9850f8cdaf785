use std::cmp::Ordering;
use vstd::prelude::*;

verus! {

/// How dirty a working copy is, from the least to the most severe level.
#[derive(Clone, Copy, Debug, PartialEq, Eq, Structural)]
pub enum BranchStatus {
    NotChanged,
    Staged,
    Unstaged,
    Conflicted,
}

impl BranchStatus {
    /// The position of a level in the order
    /// `NotChanged < Staged < Unstaged < Conflicted`.
    pub open spec fn severity(self) -> nat {
        match self {
            BranchStatus::NotChanged => 0,
            BranchStatus::Staged => 1,
            BranchStatus::Unstaged => 2,
            BranchStatus::Conflicted => 3,
        }
    }

    /// The more severe of two levels.
    pub open spec fn worse(self, other: BranchStatus) -> BranchStatus {
        if self.severity() >= other.severity() {
            self
        } else {
            other
        }
    }

    /// The severity as a machine integer.
    pub fn rank(self) -> (r: u8)
        ensures
            r == self.severity(),
    {
        match self {
            BranchStatus::NotChanged => 0,
            BranchStatus::Staged => 1,
            BranchStatus::Unstaged => 2,
            BranchStatus::Conflicted => 3,
        }
    }

    /// Returns the more severe of `self` and `other`.
    pub fn raise(self, other: BranchStatus) -> (r: BranchStatus)
        ensures
            r == self.worse(other),
    {
        if self.rank() >= other.rank() {
            self
        } else {
            other
        }
    }
}

impl PartialOrd for BranchStatus {
    fn partial_cmp(&self, other: &BranchStatus) -> (r: Option<Ordering>) {
        let a: u8 = self.rank();
        let b: u8 = other.rank();
        if a < b {
            Some(Ordering::Less)
        } else if a == b {
            Some(Ordering::Equal)
        } else {
            Some(Ordering::Greater)
        }
    }
}

impl vstd::std_specs::cmp::PartialOrdSpecImpl for BranchStatus {
    open spec fn obeys_partial_cmp_spec() -> bool {
        true
    }

    open spec fn partial_cmp_spec(&self, other: &BranchStatus) -> Option<Ordering> {
        if self.severity() < other.severity() {
            Some(Ordering::Less)
        } else if self.severity() == other.severity() {
            Some(Ordering::Equal)
        } else {
            Some(Ordering::Greater)
        }
    }
}

/// The severity names the level: two levels of equal severity are the same
/// level, so the order on levels is total and has `NotChanged` at its bottom.
pub proof fn lemma_severity_total(a: BranchStatus, b: BranchStatus)
    ensures
        a.severity() == b.severity() <==> a == b,
        a.severity() <= 3,
        BranchStatus::NotChanged.severity() <= a.severity(),
        a.worse(b) == b.worse(a),
        a.worse(BranchStatus::NotChanged) == a,
{
}

} // verus!
