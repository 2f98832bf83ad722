use vstd::prelude::*;

use crate::persistence::metadata::SnapShotMetadata;

verus! {

/// Which snapshots a caller asks for: by sequence number, by time (nanoseconds
/// since the Unix epoch), or by both. All bounds are inclusive.
#[allow(inconsistent_fields)]
#[derive(Clone, Copy, Debug, PartialEq, Eq, Structural)]
pub enum SnapShotSelectionCriteria {
    Sequence { min: usize, max: usize },
    Timestamp { min: i128, max: i128 },
    Both { min_seq: usize, max_seq: usize, min_time: i128, max_time: i128 },
}

impl SnapShotSelectionCriteria {
    /// Whether a snapshot with this sequence number and time is asked for.
    pub open spec fn admits(self, sequence: usize, timestamp: i128) -> bool {
        match self {
            SnapShotSelectionCriteria::Sequence { min, max } => min <= sequence <= max,
            SnapShotSelectionCriteria::Timestamp { min, max } => min <= timestamp <= max,
            SnapShotSelectionCriteria::Both { min_seq, max_seq, min_time, max_time } => {
                min_seq <= sequence <= max_seq && min_time <= timestamp <= max_time
            },
        }
    }

    /// The criteria that every snapshot meets, whatever its sequence number.
    pub fn latest() -> (c: SnapShotSelectionCriteria)
        ensures
            c == (SnapShotSelectionCriteria::Sequence { min: usize::MIN, max: usize::MAX }),
            forall|sequence: usize, timestamp: i128| #[trigger] c.admits(sequence, timestamp),
    {
        SnapShotSelectionCriteria::Sequence { min: usize::MIN, max: usize::MAX }
    }

    /// Whether `metadata` meets the criteria.
    pub fn matches(&self, metadata: &SnapShotMetadata) -> (r: bool)
        ensures
            r == self.admits(metadata.sequence, metadata.timestamp),
    {
        match self {
            SnapShotSelectionCriteria::Sequence { min, max } => {
                *min <= metadata.sequence && metadata.sequence <= *max
            },
            SnapShotSelectionCriteria::Timestamp { min, max } => {
                *min <= metadata.timestamp && metadata.timestamp <= *max
            },
            SnapShotSelectionCriteria::Both { min_seq, max_seq, min_time, max_time } => {
                *min_seq <= metadata.sequence && metadata.sequence <= *max_seq && *min_time
                    <= metadata.timestamp && metadata.timestamp <= *max_time
            },
        }
    }
}

} // verus!
