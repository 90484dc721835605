//! What a key press does: in a popup, and in the panes.

use vstd::prelude::*;

use crate::events::{Command, Key, KeyCode, ALT, SHIFT};
use crate::manager::{
    cursor_left, cursor_right, insert_position, text_after_delete, FileManager,
};
use crate::pane::{first_match, FilePane};
use crate::operations::refresh_side;
use crate::platform::{path_join, path_joined, path_parent_of, string_pop, string_push};
use crate::preview::PREVIEW_LIMIT;
use crate::selection::ListSelection;
use crate::types::{cleared_by_reading, Action, FsEntryType, InteractionMode, PopupType, NOTIFICATION_MILLIS};
use vstd::utf8::encode_utf8;

verus! {

/// The popups, as far as keys are concerned.
enum PopupKind {
    CreatePrompt,
    RenamePrompt,
    ConfirmDelete,
    ConfirmCopy,
    ConfirmMove,
    Closed,
}

/// Whether the popup is one of the two text prompts.
pub open spec fn is_prompt(popup: PopupType) -> bool {
    popup is Create || popup is Rename
}

/// What `key` does while a popup is open: `pre` becomes `post` and `cmd` is due.
///
/// In the rename and create prompts the arrows move the cursor, Backspace deletes the
/// char left of it, Delete the char under it (when the cursor is short of the text's
/// byte length), a char is typed in, Enter empties the prompt and submits its text, and
/// Esc closes the popup. In the confirmations, `y` or Enter confirm and `n` or Esc
/// close. Every other key does nothing.
pub open spec fn popup_key_effect(pre: FileManager, key: Key, post: FileManager, cmd: Command) -> bool {
    let c = pre.cursor_pos;
    let t = pre.input_buffer@;
    if is_prompt(pre.popup) {
        match key.code {
            KeyCode::Left => {
                &&& post.input_buffer == pre.input_buffer
                &&& post.cursor_pos == cursor_left(c, t)
                &&& post.same_but_prompt(pre)
                &&& cmd is Nothing
            },
            KeyCode::Right => {
                &&& post.input_buffer == pre.input_buffer
                &&& post.cursor_pos == cursor_right(c, t)
                &&& post.same_but_prompt(pre)
                &&& cmd is Nothing
            },
            KeyCode::Backspace => {
                &&& post.input_buffer@ == text_after_delete(t, c)
                &&& post.cursor_pos == cursor_left(c, text_after_delete(t, c))
                &&& post.same_but_prompt(pre)
                &&& cmd is Nothing
            },
            KeyCode::Delete => {
                &&& if c < encode_utf8(t).len() {
                    let c1 = cursor_right(c, t);
                    &&& post.input_buffer@ == text_after_delete(t, c1)
                    &&& post.cursor_pos == cursor_left(c1, text_after_delete(t, c1))
                    &&& post.same_but_prompt(pre)
                } else {
                    post == pre
                }
                &&& cmd is Nothing
            },
            KeyCode::Char(ch) => {
                &&& post.input_buffer@ == t.insert(insert_position(t, c), ch)
                &&& post.cursor_pos == cursor_right(c, post.input_buffer@)
                &&& post.same_but_prompt(pre)
                &&& cmd is Nothing
            },
            KeyCode::Enter => {
                &&& post.input_buffer@ == Seq::<char>::empty()
                &&& post.cursor_pos == c
                &&& post.same_but_prompt(pre)
                &&& if pre.popup is Create {
                    pre.creates(t, cmd)
                } else {
                    pre.renames(t, cmd)
                }
            },
            KeyCode::Esc => post.popup is Closed && post.same_but_popup(pre) && cmd is Nothing,
            _ => post == pre && cmd is Nothing,
        }
    } else {
        let confirm = match key.code {
            KeyCode::Char(ch) => ch == 'y',
            KeyCode::Enter => true,
            _ => false,
        };
        let deny = match key.code {
            KeyCode::Char(ch) => ch == 'n',
            KeyCode::Esc => true,
            _ => false,
        };
        if deny {
            post.popup is Closed && post.same_but_popup(pre) && cmd is Nothing
        } else if confirm {
            &&& post == pre
            &&& match pre.popup {
                PopupType::Delete(_) => pre.deletes(cmd),
                PopupType::Copy(_) => pre.copies(cmd),
                _ => pre.moves(cmd),
            }
        } else {
            post == pre && cmd is Nothing
        }
    }
}

/// What a key does in the panes.
#[derive(Clone, Copy, Debug)]
pub enum PaneAction {
    Quit,
    Down,
    Up,
    /// Down, then flip the mark of the entry the cursor lands on.
    MarkDown,
    /// Up, then flip the mark of the entry the cursor lands on.
    MarkUp,
    Parent,
    /// Into the directory under the cursor, or a preview of the file under it.
    Open,
    SwitchPane,
    DeletePopup,
    CreatePopup,
    CopyPopup,
    /// The move confirmation, or with shift the rename prompt (see [`f6_effect`]).
    MoveOrRename(u8),
    Yank,
    Cut,
    Paste,
    EnterSelectMode,
    /// Unmark everything, clear the search and leave the selection mode.
    Unmark,
    EraseSearch,
    ToggleMark,
    Search(char),
    Ignore,
}

/// The action of a key in the panes in the normal mode. The letters bound to
/// commands come first: `q` quits, `j`/`k` move down and up, `h` goes to the parent and
/// `l` opens, `d`/`r`/`a` open the delete, rename and create popups, `y`/`x` yank and
/// cut, `p` pastes, `v` enters the selection mode and Space marks; any other char types
/// on to jump by name. The arrows, Enter, Tab, Esc, Backspace and the function keys
/// (F2 create, F5 copy, F6 move, Shift+F6 rename, F8 delete, F10 quit) act as well.
pub open spec fn pane_action(key: Key) -> PaneAction {
    match key.code {
        KeyCode::Tab => PaneAction::SwitchPane,
        KeyCode::F(n) => if n == 10 {
            PaneAction::Quit
        } else if n == 8 {
            PaneAction::DeletePopup
        } else if n == 2 {
            PaneAction::CreatePopup
        } else if n == 5 {
            PaneAction::CopyPopup
        } else if n == 6 {
            PaneAction::MoveOrRename(key.modifiers)
        } else {
            PaneAction::Ignore
        },
        KeyCode::Down => PaneAction::Down,
        KeyCode::Up => if key.modifiers == ALT {
            PaneAction::Parent
        } else {
            PaneAction::Up
        },
        KeyCode::Left => PaneAction::Parent,
        KeyCode::Right => PaneAction::Open,
        KeyCode::Enter => PaneAction::Open,
        KeyCode::Esc => PaneAction::Unmark,
        KeyCode::Backspace => PaneAction::EraseSearch,
        KeyCode::Char(c) => if c == 'q' {
            PaneAction::Quit
        } else if c == 'j' {
            PaneAction::Down
        } else if c == 'k' {
            PaneAction::Up
        } else if c == 'h' {
            PaneAction::Parent
        } else if c == 'l' {
            PaneAction::Open
        } else if c == 'd' {
            PaneAction::DeletePopup
        } else if c == 'r' {
            PaneAction::MoveOrRename(SHIFT)
        } else if c == 'a' {
            PaneAction::CreatePopup
        } else if c == 'y' {
            PaneAction::Yank
        } else if c == 'x' {
            PaneAction::Cut
        } else if c == 'p' {
            PaneAction::Paste
        } else if c == 'v' {
            PaneAction::EnterSelectMode
        } else if c == ' ' {
            PaneAction::ToggleMark
        } else {
            PaneAction::Search(c)
        },
        _ => PaneAction::Ignore,
    }
}

/// The action of a key in the panes in the selection mode: `j`/Down and `k`/Up move and
/// flip the mark of the entry the cursor lands on, `d` opens the delete popup for the
/// marked entries, Esc leaves the mode and unmarks everything, `q` quits; other keys do
/// nothing.
pub open spec fn select_action(key: Key) -> PaneAction {
    match key.code {
        KeyCode::Down => PaneAction::MarkDown,
        KeyCode::Up => PaneAction::MarkUp,
        KeyCode::Esc => PaneAction::Unmark,
        KeyCode::Char(c) => if c == 'j' {
            PaneAction::MarkDown
        } else if c == 'k' {
            PaneAction::MarkUp
        } else if c == 'd' {
            PaneAction::DeletePopup
        } else if c == 'q' {
            PaneAction::Quit
        } else {
            PaneAction::Ignore
        },
        _ => PaneAction::Ignore,
    }
}

/// Going to the parent of the focused pane's directory: the cursor goes back to the
/// first row and the parent is to be read into the pane; nothing when there is no
/// parent.
pub open spec fn parent_effect(pre: FileManager, post: FileManager, cmd: Command) -> bool {
    match path_parent_of(pre.focused().path@) {
        Some(p) => {
            &&& post == pre.with_pane(pre.selected_pane, pre.focused().with_cursor_reset())
            &&& cmd matches Command::Enter(side, q) && side == pre.selected_pane && q@ == p
        },
        None => post == pre && cmd is Nothing,
    }
}

/// Opening the entry under the focused pane's cursor: a directory is entered (the
/// cursor goes back to the first row and the directory is to be read into the pane); a
/// file is to be read for a preview; nothing when the cursor is on no entry.
pub open spec fn open_effect(pre: FileManager, post: FileManager, cmd: Command) -> bool {
    match pre.focused().cursor_entry() {
        Some(e) => if e.entry_type == FsEntryType::Directory {
            &&& post == pre.with_pane(pre.selected_pane, pre.focused().with_cursor_reset())
            &&& cmd matches Command::Enter(side, q) && side == pre.selected_pane && q@
                == path_joined(pre.focused().path@, e.name@)
        } else {
            &&& post == pre
            &&& cmd matches Command::Preview { path, limit } && path@ == path_joined(
                pre.focused().path@,
                e.name@,
            ) && limit == PREVIEW_LIMIT
        },
        None => post == pre && cmd is Nothing,
    }
}

/// F6 (and `r`): the prompt takes the name of the entry under the cursor (and its cursor
/// goes to the end of it); with shift the rename prompt opens (if the pane lists
/// anything), without it the move confirmation.
pub open spec fn f6_effect(pre: FileManager, modifiers: u8, post: FileManager) -> bool {
    &&& post == (FileManager {
        input_buffer: post.input_buffer,
        cursor_pos: post.cursor_pos,
        popup: post.popup,
        ..pre
    })
    &&& match pre.focused().cursor_entry() {
        Some(e) => post.input_buffer == e.name && post.cursor_pos == (e.name@.len() as u16),
        None => post.input_buffer == pre.input_buffer && post.cursor_pos == pre.cursor_pos,
    }
    &&& if modifiers == SHIFT {
        if pre.focused().entries@.len() > 0 {
            post.popup matches PopupType::Rename(title) && title@ == "Rename item"@
        } else {
            post.popup == pre.popup
        }
    } else {
        post.popup matches PopupType::Move(title) && title@ == "Move selected"@
    }
}

/// Typing a char to jump by name: the search text grows by it, the cursor goes to the
/// first entry whose name begins with the search text (stays where it is when there is
/// none), and the search text is shown.
pub open spec fn search_effect(pre: FileManager, ch: char, post: FileManager) -> bool {
    let prefix = pre.search_prefix@.push(ch);
    let moved = match first_match(pre.focused().entries@, prefix) {
        Some(i) => FilePane {
            selection: ListSelection { selected: Some(i as usize), offset: pre.focused().selection.offset },
            ..pre.focused()
        },
        None => pre.focused(),
    };
    &&& post == (FileManager {
        search_prefix: post.search_prefix,
        notify: post.notify,
        ..pre.with_pane(pre.selected_pane, moved)
    })
    &&& post.search_prefix@ == prefix
    &&& post.notify matches Some(n) && n.message@ == prefix && n.duration_ms == NOTIFICATION_MILLIS
}

/// `post` is `pre` with the focused pane replaced by `post`'s.
pub open spec fn only_focused_changed(pre: FileManager, post: FileManager) -> bool {
    post == pre.with_pane(pre.selected_pane, post.focused())
}

/// `post` is `pre` with a popup opened whose title is `title`: `kind` tells which one.
pub open spec fn opens_popup(pre: FileManager, post: FileManager, title: Seq<char>, kind: int) -> bool {
    &&& post.same_but_popup(pre)
    &&& match post.popup {
        PopupType::Delete(t) => kind == 0 && t@ == title,
        PopupType::Create(t) => kind == 1 && t@ == title,
        PopupType::Copy(t) => kind == 2 && t@ == title,
        _ => false,
    }
}

/// What `action` does to the panes: `pre` becomes `post` and `cmd` is due.
pub open spec fn action_effect(pre: FileManager, action: PaneAction, post: FileManager, cmd: Command) -> bool {
    let side = pre.selected_pane;
    match action {
        PaneAction::Quit => post == pre && cmd is Quit,
        PaneAction::Down => post == pre.with_pane(side, pre.focused().moved_down()) && cmd is Nothing,
        PaneAction::Up => post == pre.with_pane(side, pre.focused().moved_up()) && cmd is Nothing,
        PaneAction::MarkDown => {
            &&& only_focused_changed(pre, post)
            &&& FilePane::toggled(pre.focused().moved_down(), post.focused())
            &&& cmd is Nothing
        },
        PaneAction::MarkUp => {
            &&& only_focused_changed(pre, post)
            &&& FilePane::toggled(pre.focused().moved_up(), post.focused())
            &&& cmd is Nothing
        },
        PaneAction::Parent => parent_effect(pre, post, cmd),
        PaneAction::Open => open_effect(pre, post, cmd),
        PaneAction::SwitchPane => post == pre.tabbed() && cmd is Nothing,
        PaneAction::DeletePopup => opens_popup(pre, post, "Delete item"@, 0) && cmd is Nothing,
        PaneAction::CreatePopup => opens_popup(pre, post, "Create Item"@, 1) && cmd is Nothing,
        PaneAction::CopyPopup => opens_popup(pre, post, "Copy selected"@, 2) && cmd is Nothing,
        PaneAction::MoveOrRename(m) => f6_effect(pre, m, post) && cmd is Nothing,
        PaneAction::Yank => {
            &&& post == (FileManager { clipboard: post.clipboard, ..pre })
            &&& post.clipboard.action == Action::Copy
            &&& pre.focused().selects(post.clipboard.selection)
            &&& cmd is Nothing
        },
        PaneAction::Cut => {
            &&& post == (FileManager { clipboard: post.clipboard, ..pre })
            &&& post.clipboard.action == Action::Move
            &&& pre.focused().selects(post.clipboard.selection)
            &&& cmd is Nothing
        },
        PaneAction::Paste => post == pre && pre.pastes(cmd),
        PaneAction::EnterSelectMode => {
            &&& post == (FileManager {
                mode: InteractionMode::MultiSelect,
                ..pre.with_pane(side, post.focused())
            })
            &&& FilePane::marked_current(pre.focused(), post.focused())
            &&& cmd is Nothing
        },
        PaneAction::Unmark => {
            &&& post == (FileManager {
                search_prefix: post.search_prefix,
                mode: InteractionMode::Normal,
                ..pre.with_pane(side, post.focused())
            })
            &&& FilePane::deselected(pre.focused(), post.focused())
            &&& post.search_prefix@ == Seq::<char>::empty()
            &&& refresh_side(cmd, side)
        },
        PaneAction::EraseSearch => {
            &&& post == (FileManager { search_prefix: post.search_prefix, ..pre })
            &&& post.search_prefix@ == if pre.search_prefix@.len() > 0 {
                pre.search_prefix@.drop_last()
            } else {
                pre.search_prefix@
            }
            &&& cmd is Nothing
        },
        PaneAction::ToggleMark => {
            &&& only_focused_changed(pre, post)
            &&& FilePane::toggled(pre.focused(), post.focused())
            &&& cmd is Nothing
        },
        PaneAction::Search(ch) => search_effect(pre, ch, post) && cmd is Nothing,
        PaneAction::Ignore => post == pre && cmd is Nothing,
    }
}

/// What a key press does: `pre` becomes `post` and `cmd` is due. A shown preview goes
/// at the next key, which does nothing else; an open popup takes the key (see
/// [`popup_key_effect`]); otherwise the key acts on the panes, as the selection mode or
/// the normal mode binds it.
pub open spec fn key_effect(pre: FileManager, key: Key, post: FileManager, cmd: Command) -> bool {
    if pre.preview is Some {
        post == (FileManager { preview: None, ..pre }) && cmd is Nothing
    } else if !(pre.popup is Closed) {
        popup_key_effect(pre, key, post, cmd)
    } else if pre.mode == InteractionMode::MultiSelect {
        action_effect(pre, select_action(key), post, cmd)
    } else {
        action_effect(pre, pane_action(key), post, cmd)
    }
}

/// The action of `key` in the normal mode (see [`pane_action`]).
fn pane_action_of(key: Key) -> (a: PaneAction)
    ensures
        a == pane_action(key),
{
    match key.code {
        KeyCode::Tab => PaneAction::SwitchPane,
        KeyCode::F(n) => if n == 10 {
            PaneAction::Quit
        } else if n == 8 {
            PaneAction::DeletePopup
        } else if n == 2 {
            PaneAction::CreatePopup
        } else if n == 5 {
            PaneAction::CopyPopup
        } else if n == 6 {
            PaneAction::MoveOrRename(key.modifiers)
        } else {
            PaneAction::Ignore
        },
        KeyCode::Down => PaneAction::Down,
        KeyCode::Up => if key.modifiers == ALT {
            PaneAction::Parent
        } else {
            PaneAction::Up
        },
        KeyCode::Left => PaneAction::Parent,
        KeyCode::Right => PaneAction::Open,
        KeyCode::Enter => PaneAction::Open,
        KeyCode::Esc => PaneAction::Unmark,
        KeyCode::Backspace => PaneAction::EraseSearch,
        KeyCode::Char(c) => if c == 'q' {
            PaneAction::Quit
        } else if c == 'j' {
            PaneAction::Down
        } else if c == 'k' {
            PaneAction::Up
        } else if c == 'h' {
            PaneAction::Parent
        } else if c == 'l' {
            PaneAction::Open
        } else if c == 'd' {
            PaneAction::DeletePopup
        } else if c == 'r' {
            PaneAction::MoveOrRename(SHIFT)
        } else if c == 'a' {
            PaneAction::CreatePopup
        } else if c == 'y' {
            PaneAction::Yank
        } else if c == 'x' {
            PaneAction::Cut
        } else if c == 'p' {
            PaneAction::Paste
        } else if c == 'v' {
            PaneAction::EnterSelectMode
        } else if c == ' ' {
            PaneAction::ToggleMark
        } else {
            PaneAction::Search(c)
        },
        _ => PaneAction::Ignore,
    }
}

/// The action of `key` in the selection mode (see [`select_action`]).
fn select_action_of(key: Key) -> (a: PaneAction)
    ensures
        a == select_action(key),
{
    match key.code {
        KeyCode::Down => PaneAction::MarkDown,
        KeyCode::Up => PaneAction::MarkUp,
        KeyCode::Esc => PaneAction::Unmark,
        KeyCode::Char(c) => if c == 'j' {
            PaneAction::MarkDown
        } else if c == 'k' {
            PaneAction::MarkUp
        } else if c == 'd' {
            PaneAction::DeletePopup
        } else if c == 'q' {
            PaneAction::Quit
        } else {
            PaneAction::Ignore
        },
        _ => PaneAction::Ignore,
    }
}

fn popup_kind(popup: &PopupType) -> (k: PopupKind)
    ensures
        (k is CreatePrompt) == (*popup is Create),
        (k is RenamePrompt) == (*popup is Rename),
        (k is ConfirmDelete) == (*popup is Delete),
        (k is ConfirmCopy) == (*popup is Copy),
        (k is ConfirmMove) == (*popup is Move),
        (k is Closed) == (*popup is Closed),
{
    match popup {
        PopupType::Create(_) => PopupKind::CreatePrompt,
        PopupType::Rename(_) => PopupKind::RenamePrompt,
        PopupType::Delete(_) => PopupKind::ConfirmDelete,
        PopupType::Copy(_) => PopupKind::ConfirmCopy,
        PopupType::Move(_) => PopupKind::ConfirmMove,
        PopupType::Closed => PopupKind::Closed,
    }
}

impl FileManager {
    /// Handles `key` in the open popup (see [`popup_key_effect`]); `None`, and no
    /// change, when no popup is open.
    pub fn handle_popups(&mut self, key: Key) -> (r: Option<Command>)
        ensures
            old(self).popup is Closed ==> r is None && *final(self) == *old(self),
            !(old(self).popup is Closed) ==> (r matches Some(cmd) && popup_key_effect(
                *old(self),
                key,
                *final(self),
                cmd,
            )),
    {
        let kind = popup_kind(&self.popup);
        match kind {
            PopupKind::Closed => None,
            PopupKind::CreatePrompt | PopupKind::RenamePrompt => {
                let cmd = match key.code {
                    KeyCode::Left => {
                        self.move_cursor_left();
                        Command::Nothing
                    },
                    KeyCode::Right => {
                        self.move_cursor_right();
                        Command::Nothing
                    },
                    KeyCode::Backspace => {
                        self.delete_char();
                        self.move_cursor_left();
                        Command::Nothing
                    },
                    KeyCode::Delete => {
                        if (self.cursor_pos as usize) < self.input_buffer.as_str().as_bytes().len() {
                            self.move_cursor_right();
                            self.delete_char();
                            self.move_cursor_left();
                        }
                        Command::Nothing
                    },
                    KeyCode::Char(ch) => {
                        self.insert_char(ch);
                        Command::Nothing
                    },
                    KeyCode::Enter => {
                        let text = self.input_buffer.clone();
                        self.input_buffer = String::new();
                        match kind {
                            PopupKind::CreatePrompt => self.create_entry(text.as_str()),
                            _ => self.rename_selected(text.as_str()),
                        }
                    },
                    KeyCode::Esc => {
                        self.close_confirmation_popup();
                        Command::Nothing
                    },
                    _ => Command::Nothing,
                };
                Some(cmd)
            },
            _ => {
                let confirm = match key.code {
                    KeyCode::Char(ch) => ch == 'y',
                    KeyCode::Enter => true,
                    _ => false,
                };
                let deny = match key.code {
                    KeyCode::Char(ch) => ch == 'n',
                    KeyCode::Esc => true,
                    _ => false,
                };
                let cmd = if deny {
                    self.close_confirmation_popup();
                    Command::Nothing
                } else if confirm {
                    match kind {
                        PopupKind::ConfirmDelete => self.delete_selected(),
                        PopupKind::ConfirmCopy => self.copy_selected_to_other_pane(),
                        _ => self.move_selected_to_other_pane(),
                    }
                } else {
                    Command::Nothing
                };
                Some(cmd)
            },
        }
    }

    /// Handles a key press (see [`key_effect`]). Returns the work that is due outside
    /// the library.
    pub fn handle_key(&mut self, key: Key) -> (r: Command)
        ensures
            key_effect(*old(self), key, *final(self), r),
    {
        if self.preview.is_some() {
            self.preview = None;
            return Command::Nothing;
        }
        if let Some(cmd) = self.handle_popups(key) {
            return cmd;
        }
        let action = match self.mode {
            InteractionMode::MultiSelect => select_action_of(key),
            InteractionMode::Normal => pane_action_of(key),
        };
        self.perform(action)
    }

    /// Does `action` on the panes (see [`action_effect`]).
    fn perform(&mut self, action: PaneAction) -> (r: Command)
        ensures
            action_effect(*old(self), action, *final(self), r),
    {
        match action {
            PaneAction::Quit => Command::Quit,
            PaneAction::Down => {
                self.selected_pane_mut().navigate_down();
                Command::Nothing
            },
            PaneAction::Up => {
                self.selected_pane_mut().navigate_up();
                Command::Nothing
            },
            PaneAction::MarkDown => {
                let pane = self.selected_pane_mut();
                pane.navigate_down();
                pane.toggle_cursor_mark();
                Command::Nothing
            },
            PaneAction::MarkUp => {
                let pane = self.selected_pane_mut();
                pane.navigate_up();
                pane.toggle_cursor_mark();
                Command::Nothing
            },
            PaneAction::Parent => self.go_to_parent(),
            PaneAction::Open => self.open_entry(),
            PaneAction::SwitchPane => {
                self.handle_tab();
                Command::Nothing
            },
            PaneAction::DeletePopup => {
                self.popup = PopupType::Delete(String::from_str("Delete item"));
                Command::Nothing
            },
            PaneAction::CreatePopup => {
                self.popup = PopupType::Create(String::from_str("Create Item"));
                Command::Nothing
            },
            PaneAction::CopyPopup => {
                self.popup = PopupType::Copy(String::from_str("Copy selected"));
                Command::Nothing
            },
            PaneAction::MoveOrRename(m) => {
                self.prepare_move_or_rename(m);
                Command::Nothing
            },
            PaneAction::Yank => {
                self.clip_selected(Action::Copy);
                Command::Nothing
            },
            PaneAction::Cut => {
                self.clip_selected(Action::Move);
                Command::Nothing
            },
            PaneAction::Paste => self.paste_clipboard(),
            PaneAction::EnterSelectMode => {
                self.selected_pane_mut().select_current();
                self.mode = InteractionMode::MultiSelect;
                Command::Nothing
            },
            PaneAction::Unmark => {
                self.selected_pane_mut().deselect_all();
                self.search_prefix = String::new();
                self.mode = InteractionMode::Normal;
                Self::refresh_of(self.selected_pane)
            },
            PaneAction::EraseSearch => {
                string_pop(&mut self.search_prefix);
                Command::Nothing
            },
            PaneAction::ToggleMark => {
                self.selected_pane_mut().toggle_cursor_mark();
                Command::Nothing
            },
            PaneAction::Search(ch) => {
                self.jump_to_name(ch);
                Command::Nothing
            },
            PaneAction::Ignore => Command::Nothing,
        }
    }

    /// The parent-directory move of the focused pane, with the read it calls for.
    fn go_to_parent(&mut self) -> (r: Command)
        ensures
            parent_effect(*old(self), *final(self), r),
    {
        let side = self.selected_pane;
        match self.selected_pane_mut().navigate_to_parent() {
            Some(path) => Command::Enter(side, path),
            None => Command::Nothing,
        }
    }

    /// Opens the entry under the focused pane's cursor (see [`open_effect`]).
    fn open_entry(&mut self) -> (r: Command)
        ensures
            open_effect(*old(self), *final(self), r),
    {
        let side = self.selected_pane;
        match self.selected_pane_mut().navigate_to_child() {
            Some(path) => Command::Enter(side, path),
            None => {
                let pane = self.selected_pane();
                match pane.get_selected_index_entry() {
                    Some(entry) => match entry.entry_type {
                        FsEntryType::File => Command::Preview {
                            path: path_join(pane.path.as_str(), entry.name.as_str()),
                            limit: PREVIEW_LIMIT,
                        },
                        FsEntryType::Directory => Command::Nothing,
                    },
                    None => Command::Nothing,
                }
            },
        }
    }

    /// F6 (see [`f6_effect`]).
    fn prepare_move_or_rename(&mut self, modifiers: u8)
        ensures
            f6_effect(*old(self), modifiers, *final(self)),
    {
        let picked = match self.selected_pane().get_selected_index_entry() {
            Some(entry) => Some(entry.name.clone()),
            None => None,
        };
        if let Some(name) = picked {
            let count = name.as_str().unicode_len();
            self.input_buffer = name;
            self.cursor_pos = count as u16;
        }
        if modifiers == SHIFT {
            if self.selected_pane().entries.len() != 0 {
                self.popup = PopupType::Rename(String::from_str("Rename item"));
            }
        } else {
            self.popup = PopupType::Move(String::from_str("Move selected"));
        }
    }

    /// Typing a char to jump by name (see [`search_effect`]).
    fn jump_to_name(&mut self, ch: char)
        ensures
            search_effect(*old(self), ch, *final(self)),
    {
        string_push(&mut self.search_prefix, ch);
        let found = self.selected_pane().find_by_prefix(&self.search_prefix);
        if let Some(pos) = found {
            self.selected_pane_mut().selection.select(Some(pos));
        }
        let shown = self.search_prefix.clone();
        self.show_notification(shown);
    }

    /// This state ready for the first key press: the left pane shows no cursor.
    pub open spec fn started(self) -> FileManager {
        FileManager {
            left_pane: FilePane {
                selection: ListSelection { selected: None, offset: 0 },
                ..self.left_pane
            },
            ..self
        }
    }

    /// Gets ready for the first key press (see [`FileManager::started`]).
    pub fn start(&mut self)
        ensures
            *final(self) == old(self).started(),
    {
        self.left_pane.selection.select(None);
    }

    /// When no key came for a while: the notifications whose time is up go, the left
    /// pane's, then the right pane's, then the file manager's own (see
    /// [`FileManager::clear_expired_notifications`]). Returns the three clock readings
    /// in that order; nothing else changes.
    pub fn tick(&mut self) -> (readings: (Option<u128>, Option<u128>, Option<u128>))
        ensures
            final(self).keeps_cursors(*old(self)),
            cleared_by_reading(old(self).left_pane.notify, readings.0, final(self).left_pane.notify),
            cleared_by_reading(old(self).right_pane.notify, readings.1, final(self).right_pane.notify),
            cleared_by_reading(old(self).notify, readings.2, final(self).notify),
            final(self).left_pane == (FilePane { notify: final(self).left_pane.notify, ..old(self).left_pane }),
            final(self).right_pane == (FilePane { notify: final(self).right_pane.notify, ..old(self).right_pane }),
            final(self).same_but_panes(FileManager { notify: final(self).notify, ..*old(self) }),
    {
        let left = self.left_pane.clear_expired_notifications();
        let right = self.right_pane.clear_expired_notifications();
        let own = self.clear_expired_notifications();
        (left, right, own)
    }
}

} // verus!
