//! Arbor: the state and the decisions of a two-pane terminal file manager.
//!
//! The library holds the panes, their listings and cursors, the line editor of the
//! rename and create prompts, the popups and the notifications, and decides what a
//! key press does. Reading directories, touching files and drawing the screen are left
//! to the caller: the library hands out a [`Command`] that says which of them is due,
//! and takes their outcome back as plain values.

pub mod events;
pub mod input;
pub mod laws;
pub mod manager;
pub mod operations;
pub mod pane;
pub mod platform;
pub mod preview;
pub mod selection;
pub mod text;
pub mod types;

pub use events::{Command, Key, KeyCode, ALT, CONTROL, NO_MODIFIERS, SHIFT};
pub use manager::{Clipboard, FileManager};
pub use preview::{classify_preview, PREVIEW_LIMIT};
pub use pane::{FilePane, Listing, ListRow, PathSelection};
pub use selection::ListSelection;
pub use types::{
    expire_notification, Action, FileContent, FsEntry, FsEntryType, InteractionMode, Notification, PopupType,
    PreviewContent, Selected, NOTIFICATION_MILLIS,
};
