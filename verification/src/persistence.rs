pub mod criteria;
pub mod event;
pub mod journal;
pub mod metadata;

pub use self::criteria::SnapShotSelectionCriteria;
pub use self::event::{Event, Replay};
pub use self::journal::Journal;
pub use self::metadata::{PersistenceId, SnapShotMetadata};
