use vstd::prelude::*;

use crate::pane::PathSelection;
use crate::types::{Action, Selected};

verus! {

/// The keys the file manager tells apart.
#[derive(Clone, Copy, PartialEq, Eq, Debug)]
pub enum KeyCode {
    Char(char),
    F(u8),
    Tab,
    Up,
    Down,
    Left,
    Right,
    Enter,
    Esc,
    Backspace,
    Delete,
    /// Any other key: it does nothing.
    Other,
}

/// No modifier key held.
pub const NO_MODIFIERS: u8 = 0;

/// The shift key, as a modifier bit.
pub const SHIFT: u8 = 1;

/// The control key, as a modifier bit.
pub const CONTROL: u8 = 2;

/// The alt key, as a modifier bit.
pub const ALT: u8 = 4;

/// A key press: the key and the set of modifier bits held with it.
#[derive(Clone, Copy, PartialEq, Eq, Debug)]
pub struct Key {
    pub code: KeyCode,
    pub modifiers: u8,
}

/// The work outside the library that a key press or an outcome calls for. The caller
/// does it and hands each outcome back to the method the variant names.
#[derive(Debug)]
pub enum Command {
    /// Nothing to do.
    Nothing,
    /// Leave the program.
    Quit,
    /// Read the directory at the path into the pane on the given side; hand the result
    /// to `FileManager::enter_pane`.
    Enter(Selected, String),
    /// Read again the directory of each flagged pane, left before right; hand each result
    /// to `FileManager::refresh_pane`.
    Refresh { left: bool, right: bool },
    /// Remove each path (a file, or a directory with its contents); hand each outcome to
    /// `FileManager::finish_delete`.
    Delete(PathSelection),
    /// Rename `from` to `to`; hand the outcome to `FileManager::finish_rename`.
    Rename { from: String, to: String },
    /// Make the directory `parents` with its ancestors, then the directory or empty file
    /// `target`; hand a failure of the first step to
    /// `FileManager::finish_create_parents_failed`, else the outcome of the second to
    /// `FileManager::finish_create`.
    Create { parents: String, target: String, is_directory: bool },
    /// Copy each path into the other pane's directory, under
    /// `FileManager::transfer_destination`; report failures with
    /// `FileManager::show_notification`; then call `FileManager::finish_copy`.
    Copy(PathSelection),
    /// Move each path into the other pane's directory, as for `Copy`; then call
    /// `FileManager::finish_move`.
    Move(PathSelection),
    /// Copy (`Action::Copy`) or move (`Action::Move`) each path into the focused pane's
    /// directory, under `FileManager::paste_destination`; report failures with
    /// `FileManager::show_notification`; then call `FileManager::finish_paste`.
    Paste { selection: PathSelection, action: Action },
    /// Read at most `limit` bytes of the file at `path` and whether it goes on past
    /// them; hand the outcome to `FileManager::finish_preview`.
    Preview { path: String, limit: usize },
}

} // verus!
