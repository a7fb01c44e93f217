//! Recursive directory-metadata collection and filesystem-change watching.
//!
//! The library walks a directory tree level by level, aggregating file and
//! directory metadata into a [`meta::DirMetadata`] result while recording
//! per-entry failures instead of aborting, and normalizes low-level
//! filesystem-change events into [`watcher::WatcherOutcome`] values.

pub mod meta;
pub mod utils;
pub mod walk;
pub mod watcher;

pub use crate::meta::base_name;
pub use crate::meta::DirError;
pub use crate::meta::DirErrorKind;
pub use crate::meta::DirMetadata;
pub use crate::meta::FileMetadata;
pub use crate::utils::DateTimeString;
pub use crate::utils::FsDuration;
pub use crate::utils::FsUtils;
pub use crate::utils::Timestamp;
pub use crate::walk::DirWalker;
pub use crate::walk::EntryRecord;
pub use crate::walk::ListingItem;
pub use crate::walk::StatRecord;
pub use crate::walk::WalkOptions;
pub use crate::watcher::FsSender;
pub use crate::watcher::FsWatcher;
pub use crate::watcher::RawWatchEvent;
pub use crate::watcher::WatchError;
pub use crate::watcher::WatcherEvents;
pub use crate::watcher::WatcherOutcome;
pub use crate::watcher::SENDER_CHANNEL_ERROR;
