use vstd::prelude::*;

verus! {

/// Names the actor whose state a snapshot holds.
#[derive(Clone, Copy, Debug, PartialEq, Eq, Structural, PartialOrd, Ord, Hash)]
pub struct PersistenceId(pub u128);

impl PersistenceId {
    /// The identifier with this value.
    pub fn new(value: u128) -> (id: PersistenceId)
        ensures
            id == PersistenceId(value),
    {
        PersistenceId(value)
    }
}

/// What is known of one snapshot: whose it is, the sequence number it was
/// taken at, and when, in nanoseconds since the Unix epoch.
#[derive(Clone, Copy, Debug, PartialEq, Eq, Structural, PartialOrd, Ord, Hash)]
pub struct SnapShotMetadata {
    pub id: PersistenceId,
    pub sequence: usize,
    pub timestamp: i128,
}

/// How two snapshots stand to each other.
#[derive(Clone, Copy, Debug, PartialEq, Eq, Structural)]
pub enum Rank {
    Before,
    Same,
    After,
}

impl SnapShotMetadata {
    /// Snapshots are ordered by owner, then by sequence number, then by time:
    /// the first of these that differs decides.
    pub open spec fn spec_rank(self, other: SnapShotMetadata) -> Rank {
        if self.id.0 != other.id.0 {
            if self.id.0 < other.id.0 {
                Rank::Before
            } else {
                Rank::After
            }
        } else if self.sequence != other.sequence {
            if self.sequence < other.sequence {
                Rank::Before
            } else {
                Rank::After
            }
        } else if self.timestamp != other.timestamp {
            if self.timestamp < other.timestamp {
                Rank::Before
            } else {
                Rank::After
            }
        } else {
            Rank::Same
        }
    }

    /// Where this snapshot stands relative to `other`.
    pub fn rank(&self, other: &SnapShotMetadata) -> (r: Rank)
        ensures
            r == self.spec_rank(*other),
            (r == Rank::Same) == (*self == *other),
    {
        if self.id.0 != other.id.0 {
            if self.id.0 < other.id.0 {
                Rank::Before
            } else {
                Rank::After
            }
        } else if self.sequence != other.sequence {
            if self.sequence < other.sequence {
                Rank::Before
            } else {
                Rank::After
            }
        } else if self.timestamp != other.timestamp {
            if self.timestamp < other.timestamp {
                Rank::Before
            } else {
                Rank::After
            }
        } else {
            Rank::Same
        }
    }
}

/// Ranking is antisymmetric and transitive, so it orders snapshots totally.
pub proof fn lemma_rank_is_an_order(a: SnapShotMetadata, b: SnapShotMetadata, c: SnapShotMetadata)
    ensures
        (a.spec_rank(b) == Rank::Before) == (b.spec_rank(a) == Rank::After),
        (a.spec_rank(b) == Rank::Same) == (a == b),
        a.spec_rank(b) == Rank::Before && b.spec_rank(c) == Rank::Before ==> a.spec_rank(c)
            == Rank::Before,
{
}

} // verus!
