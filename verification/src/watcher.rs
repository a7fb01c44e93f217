//! The change-watch component: raw filesystem-change records are normalized
//! into [`WatcherOutcome`] values, and a watcher binds a path to the sending
//! end of a channel.
//!
//! The blocking receive loop itself performs I/O and runs outside the
//! library; [`FsWatcher::watch_setup`] makes its one decision — no path, no
//! loop — and the `From` conversions normalize every raw record the loop
//! reads.

use crate::meta::DirErrorKind;
use vstd::prelude::*;

verus! {

/// The message of the failure reported when the channel has been closed.
pub const SENDER_CHANNEL_ERROR: &'static str = "SENDER_CHANNEL_CLOSED";

/// The raw bit reported for a file access.
pub const RAW_EVENT_ACCESS: u32 = 0x0000_0001;

/// The raw bit reported for a modification.
pub const RAW_EVENT_MODIFY: u32 = 0x0000_0002;

/// The raw bit reported for a metadata change.
pub const RAW_EVENT_ATTRIB: u32 = 0x0000_0004;

/// The raw bit reported when a writable file is closed.
pub const RAW_EVENT_CLOSE_WRITE: u32 = 0x0000_0008;

/// The raw bit reported when a non-writable file is closed.
pub const RAW_EVENT_CLOSE_NOWRITE: u32 = 0x0000_0010;

/// The raw bit reported when a file or directory is opened.
pub const RAW_EVENT_OPEN: u32 = 0x0000_0020;

/// The raw bit reported when an entry is renamed away.
pub const RAW_EVENT_MOVED_FROM: u32 = 0x0000_0040;

/// The raw bit reported when an entry is renamed in.
pub const RAW_EVENT_MOVED_TO: u32 = 0x0000_0080;

/// The raw bit reported when an entry is created.
pub const RAW_EVENT_CREATE: u32 = 0x0000_0100;

/// The raw bit reported when an entry is deleted.
pub const RAW_EVENT_DELETE: u32 = 0x0000_0200;

/// The raw bit reported when the watched object itself is deleted.
pub const RAW_EVENT_DELETE_SELF: u32 = 0x0000_0400;

/// The raw bit reported when the watched object itself is moved.
pub const RAW_EVENT_MOVE_SELF: u32 = 0x0000_0800;

/// The raw bit reported when the containing filesystem is unmounted.
pub const RAW_EVENT_UNMOUNT: u32 = 0x0000_2000;

/// The raw bit reported when the event queue overflowed.
pub const RAW_EVENT_Q_OVERFLOW: u32 = 0x0000_4000;

/// The raw bit reported when the watch itself is removed.
pub const RAW_EVENT_IGNORED: u32 = 0x0000_8000;

/// The raw bit marking the subject of an event as a directory.
pub const RAW_EVENT_ISDIR: u32 = 0x4000_0000;

/// Events triggered from watching a directory or file.
#[derive(Debug, PartialEq, Eq, Structural, PartialOrd, Ord, Clone, Copy, Hash)]
pub enum WatcherEvents {
    /// A file was accessed.
    Access,
    /// Metadata such as permissions or timestamps changed.
    Attrib,
    /// A file opened for writing was closed.
    CloseWrite,
    /// A file or directory not opened for writing was closed.
    CloseNoWrite,
    /// A file or directory was created in the watched directory.
    Create,
    /// A file or directory was deleted from the watched directory.
    Delete,
    /// The watched file or directory itself was deleted.
    DeleteSelf,
    /// A file was modified.
    Modify,
    /// The watched file or directory itself was moved.
    MoveSelf,
    /// A file was renamed away; the watched directory held the old name.
    MovedFrom,
    /// A file was renamed in; the watched directory holds the new name.
    MovedTo,
    /// A file or directory was opened.
    Open,
    /// The watch was removed, explicitly or because its object went away.
    Ignored,
    /// The subject of the event is a directory.
    IsDir,
    /// The event queue overflowed and events were presumably lost.
    QueueOverflow,
    /// The filesystem containing the watched object was unmounted.
    Unmount,
    /// The raw record named no single known category.
    Unsupported,
}

/// The category a raw mask names when it is exactly one known bit; any
/// other pattern degrades to `Unsupported`.
pub open spec fn spec_event_kind(raw: u32) -> WatcherEvents {
    if raw == RAW_EVENT_ACCESS {
        WatcherEvents::Access
    } else if raw == RAW_EVENT_ATTRIB {
        WatcherEvents::Attrib
    } else if raw == RAW_EVENT_CLOSE_WRITE {
        WatcherEvents::CloseWrite
    } else if raw == RAW_EVENT_CLOSE_NOWRITE {
        WatcherEvents::CloseNoWrite
    } else if raw == RAW_EVENT_CREATE {
        WatcherEvents::Create
    } else if raw == RAW_EVENT_DELETE {
        WatcherEvents::Delete
    } else if raw == RAW_EVENT_DELETE_SELF {
        WatcherEvents::DeleteSelf
    } else if raw == RAW_EVENT_MODIFY {
        WatcherEvents::Modify
    } else if raw == RAW_EVENT_MOVE_SELF {
        WatcherEvents::MoveSelf
    } else if raw == RAW_EVENT_MOVED_FROM {
        WatcherEvents::MovedFrom
    } else if raw == RAW_EVENT_MOVED_TO {
        WatcherEvents::MovedTo
    } else if raw == RAW_EVENT_OPEN {
        WatcherEvents::Open
    } else if raw == RAW_EVENT_IGNORED {
        WatcherEvents::Ignored
    } else if raw == RAW_EVENT_ISDIR {
        WatcherEvents::IsDir
    } else if raw == RAW_EVENT_Q_OVERFLOW {
        WatcherEvents::QueueOverflow
    } else if raw == RAW_EVENT_UNMOUNT {
        WatcherEvents::Unmount
    } else {
        WatcherEvents::Unsupported
    }
}

/// A raw mask names exactly one known event category.
pub open spec fn is_known_raw_mask(raw: u32) -> bool {
    ||| raw == RAW_EVENT_ACCESS
    ||| raw == RAW_EVENT_MODIFY
    ||| raw == RAW_EVENT_ATTRIB
    ||| raw == RAW_EVENT_CLOSE_WRITE
    ||| raw == RAW_EVENT_CLOSE_NOWRITE
    ||| raw == RAW_EVENT_OPEN
    ||| raw == RAW_EVENT_MOVED_FROM
    ||| raw == RAW_EVENT_MOVED_TO
    ||| raw == RAW_EVENT_CREATE
    ||| raw == RAW_EVENT_DELETE
    ||| raw == RAW_EVENT_DELETE_SELF
    ||| raw == RAW_EVENT_MOVE_SELF
    ||| raw == RAW_EVENT_UNMOUNT
    ||| raw == RAW_EVENT_Q_OVERFLOW
    ||| raw == RAW_EVENT_IGNORED
    ||| raw == RAW_EVENT_ISDIR
}

/// Law: translation is total and degrades exactly on unknown input — a raw
/// mask translates to something other than `Unsupported` precisely when it
/// names one known event category, so no raw record is ever rejected.
pub proof fn lemma_event_kind_total(raw: u32)
    ensures
        spec_event_kind(raw) != WatcherEvents::Unsupported <==> is_known_raw_mask(raw),
{
}

impl From<u32> for WatcherEvents {
    /// Translate one raw mask into its event category.
    fn from(value: u32) -> (r: Self) {
        if value == RAW_EVENT_ACCESS {
            WatcherEvents::Access
        } else if value == RAW_EVENT_ATTRIB {
            WatcherEvents::Attrib
        } else if value == RAW_EVENT_CLOSE_WRITE {
            WatcherEvents::CloseWrite
        } else if value == RAW_EVENT_CLOSE_NOWRITE {
            WatcherEvents::CloseNoWrite
        } else if value == RAW_EVENT_CREATE {
            WatcherEvents::Create
        } else if value == RAW_EVENT_DELETE {
            WatcherEvents::Delete
        } else if value == RAW_EVENT_DELETE_SELF {
            WatcherEvents::DeleteSelf
        } else if value == RAW_EVENT_MODIFY {
            WatcherEvents::Modify
        } else if value == RAW_EVENT_MOVE_SELF {
            WatcherEvents::MoveSelf
        } else if value == RAW_EVENT_MOVED_FROM {
            WatcherEvents::MovedFrom
        } else if value == RAW_EVENT_MOVED_TO {
            WatcherEvents::MovedTo
        } else if value == RAW_EVENT_OPEN {
            WatcherEvents::Open
        } else if value == RAW_EVENT_IGNORED {
            WatcherEvents::Ignored
        } else if value == RAW_EVENT_ISDIR {
            WatcherEvents::IsDir
        } else if value == RAW_EVENT_Q_OVERFLOW {
            WatcherEvents::QueueOverflow
        } else if value == RAW_EVENT_UNMOUNT {
            WatcherEvents::Unmount
        } else {
            WatcherEvents::Unsupported
        }
    }
}

impl vstd::std_specs::convert::FromSpecImpl<u32> for WatcherEvents {
    open spec fn obeys_from_spec() -> bool {
        true
    }

    open spec fn from_spec(value: u32) -> Self {
        spec_event_kind(value)
    }
}

/// One raw event record as the notification subsystem reports it.
#[derive(Debug, Clone)]
pub struct RawWatchEvent {
    /// Identifies the watch the event originates from.
    pub descriptor: i32,
    /// The raw mask saying what kind of event this is.
    pub mask: u32,
    /// Connects the two halves of a rename to each other.
    pub cookie: u32,
    /// The name of the child the event concerns, absent when the event
    /// concerns the watched object itself.
    pub name: Option<String>,
}

/// The outcome of a watched file or directory: one normalized change event.
#[derive(Debug, PartialEq, Eq, Clone)]
pub struct WatcherOutcome {
    /// Identifies the watch this event originates from.
    pub descriptor: i32,
    /// Indicates what kind of event this is.
    pub mask: WatcherEvents,
    /// Connects related events to each other: a rename produces a
    /// moved-from and a moved-to record sharing one cookie.
    pub cookie: u32,
    /// The name of the file the event originates from, absent when the
    /// event concerns the watched object itself.
    pub name: Option<String>,
}

impl From<RawWatchEvent> for WatcherOutcome {
    /// Normalize one raw event record, translating its mask and keeping the
    /// rest.
    fn from(event: RawWatchEvent) -> (r: Self) {
        WatcherOutcome {
            descriptor: event.descriptor,
            mask: WatcherEvents::from(event.mask),
            cookie: event.cookie,
            name: event.name,
        }
    }
}

impl vstd::std_specs::convert::FromSpecImpl<RawWatchEvent> for WatcherOutcome {
    open spec fn obeys_from_spec() -> bool {
        true
    }

    open spec fn from_spec(event: RawWatchEvent) -> Self {
        WatcherOutcome {
            descriptor: event.descriptor,
            mask: spec_event_kind(event.mask),
            cookie: event.cookie,
            name: event.name,
        }
    }
}

/// `async_channel::Sender` carries through the library opaquely: the watch
/// loop's driver clones it and sends on it, the library only holds it.
#[verifier::external_type_specification]
#[verifier::external_body]
#[verifier::reject_recursive_types(T)]
pub struct ExSender<T>(async_channel::Sender<T>);

/// The sender type for the watch channel.
pub type FsSender = async_channel::Sender<WatcherOutcome>;

/// Why a watch stopped before or during its loop.
#[derive(Debug, Clone, PartialEq)]
pub struct WatchError {
    /// The category of the failure.
    pub kind: DirErrorKind,
    /// The message text.
    pub message: String,
}

impl WatchError {
    /// The failure reported when the watch runs with no path set.
    pub fn path_not_set() -> (r: Self)
        ensures
            r.kind == DirErrorKind::NotFound,
            r.message@ == "The path was not found, maybe you didn't specify it"@,
    {
        WatchError {
            kind: DirErrorKind::NotFound,
            message: "The path was not found, maybe you didn't specify it".to_owned(),
        }
    }

    /// The failure reported when the channel's receiving end is gone; the
    /// only clean way the watch loop stops.
    pub fn channel_closed() -> (r: Self)
        ensures
            r.kind == DirErrorKind::Other,
            r.message@ == SENDER_CHANNEL_ERROR@,
    {
        WatchError { kind: DirErrorKind::Other, message: SENDER_CHANNEL_ERROR.to_owned() }
    }
}

/// A watcher for one path, bound to the sending end of a channel.
pub struct FsWatcher {
    /// The path to watch, absent until the builder sets one.
    pub path: Option<String>,
    /// The channel end normalized outcomes go out on.
    pub sender: FsSender,
}

impl FsWatcher {
    /// Create a new watcher bound to `sender`; no path is set yet.
    pub fn new(sender: FsSender) -> (r: Self)
        ensures
            r.path is None,
            r.sender == sender,
    {
        FsWatcher { sender, path: None }
    }

    /// Set the path to listen on.
    pub fn path(self, path: &str) -> (r: Self)
        ensures
            r.path is Some,
            r.path->0@ == path@,
            r.sender == self.sender,
    {
        FsWatcher { path: Some(path.to_owned()), sender: self.sender }
    }

    /// The one decision the watch makes before its loop: with a path set,
    /// hand the path and the sender to the loop's driver; without one, fail
    /// with the not-found category and never start.
    pub fn watch_setup(self) -> (r: Result<(String, FsSender), WatchError>)
        ensures
            match r {
                Ok(p) => self.path is Some && p.0 == self.path->0 && p.1 == self.sender,
                Err(e) => self.path is None && e.kind == DirErrorKind::NotFound,
            },
    {
        match self.path {
            Some(p) => Ok((p, self.sender)),
            None => Err(WatchError::path_not_set()),
        }
    }
}

} // verus!
