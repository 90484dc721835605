use vstd::prelude::*;

use std::time::Instant;

verus! {

/// What kind of directory entry a row stands for.
#[derive(Clone, Copy, PartialEq, Eq, Debug)]
pub enum FsEntryType {
    File,
    Directory,
}

/// One row of a directory listing.
#[derive(Clone, PartialEq, Debug)]
pub struct FsEntry {
    pub name: String,
    pub entry_type: FsEntryType,
    pub size: u64,
    pub file_permission: u32,
    /// Marked for a batch operation.
    pub is_selected: bool,
}

impl FsEntry {
    /// An unmarked entry.
    pub fn new(name: String, entry_type: FsEntryType, size: u64, file_permission: u32) -> (r: FsEntry)
        ensures
            r.name@ == name@,
            r.entry_type == entry_type,
            r.size == size,
            r.file_permission == file_permission,
            !r.is_selected,
    {
        FsEntry { name, entry_type, size, file_permission, is_selected: false }
    }
}

/// What a file preview holds.
#[derive(Clone, Debug)]
pub enum FileContent {
    Text(String),
    Binary(String),
}

/// What the preview of the entry under the cursor holds.
#[derive(Clone, Debug)]
pub enum PreviewContent {
    File(FileContent),
    Directory(Vec<FsEntry>),
}

/// The popup that is open, with its title.
#[derive(Clone, PartialEq, Debug)]
pub enum PopupType {
    Delete(String),
    Rename(String),
    Create(String),
    Copy(String),
    Move(String),
    /// No popup is open.
    Closed,
}

/// A message shown for a while: from `created_at`, for `duration_ms` milliseconds.
#[derive(Clone, Debug)]
pub struct Notification {
    pub message: String,
    pub created_at: Instant,
    pub duration_ms: u64,
}

/// What the clipboard of a pane is meant for.
#[derive(Clone, Copy, PartialEq, Eq, Debug)]
pub enum Action {
    Move,
    Copy,
    /// Nothing on the clipboard.
    Idle,
}

/// How keys act on the panes: in `MultiSelect` the cursor marks entries as it moves.
#[derive(Clone, Copy, PartialEq, Eq, Debug)]
pub enum InteractionMode {
    Normal,
    MultiSelect,
}

/// Which of the two panes.
#[derive(Clone, Copy, PartialEq, Eq, Debug)]
pub enum Selected {
    Left,
    Right,
}

} // verus!

verus! {

/// How long a notification stays, in milliseconds.
pub const NOTIFICATION_MILLIS: u64 = 3000;

/// Whether a notification shown `elapsed_ms` milliseconds ago is due to go.
pub open spec fn is_expired(n: Notification, elapsed_ms: u128) -> bool {
    elapsed_ms >= n.duration_ms
}

/// What is left of the notification in `slot` when it was shown `elapsed_ms`
/// milliseconds ago: nothing once its duration is reached, else the notification.
pub open spec fn expired_slot(slot: Option<Notification>, elapsed_ms: u128) -> Option<Notification> {
    match slot {
        Some(n) => if is_expired(n, elapsed_ms) {
            None
        } else {
            Some(n)
        },
        None => None,
    }
}

/// `after` is what is left of the notification slot `before` when the clock, read
/// once, says `reading` milliseconds have passed since the notification was made: with
/// a notification there is a reading and the slot is cleared exactly when it reaches
/// the notification's duration; with none there is no reading and the slot stays empty.
pub open spec fn cleared_by_reading(
    before: Option<Notification>,
    reading: Option<u128>,
    after: Option<Notification>,
) -> bool {
    match before {
        Some(n) => reading matches Some(e) && after == expired_slot(Some(n), e),
        None => reading is None && after is None,
    }
}

/// Drops the notification in `slot` if `elapsed_ms` milliseconds have reached its
/// duration; keeps it otherwise.
pub fn expire_notification(slot: &mut Option<Notification>, elapsed_ms: u128)
    ensures
        *final(slot) == expired_slot(*old(slot), elapsed_ms),
{
    let expired = match slot {
        Some(n) => elapsed_ms >= n.duration_ms as u128,
        None => false,
    };
    if expired {
        *slot = None;
    }
}

} // verus!
