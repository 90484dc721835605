use vstd::prelude::*;

use crate::pane::{FilePane, PathSelection};
use crate::platform::string_insert;
use crate::platform::string_push;
use crate::text::{
    char_width, lemma_bytes_at_least_chars, lemma_prefix_bytes_grow, lemma_prefix_bytes_step,
    prefix_bytes,
};
use crate::platform::{elapsed_millis, instant_now};
use crate::selection::ListSelection;
use crate::types::{
    cleared_by_reading, expire_notification, Action, FsEntry, InteractionMode, Notification,
    PopupType, PreviewContent, Selected, NOTIFICATION_MILLIS,
};

verus! {

/// The whole state of the file manager.
#[derive(Debug)]
pub struct FileManager {
    pub left_pane: FilePane,
    pub right_pane: FilePane,
    /// The pane that has the focus.
    pub selected_pane: Selected,
    /// The text of the rename or create prompt.
    pub input_buffer: String,
    /// The cursor in the prompt, in chars from the start.
    pub cursor_pos: u16,
    /// What has been typed so far to jump to an entry by name.
    pub search_prefix: String,
    pub notify: Option<Notification>,
    pub popup: PopupType,
    /// Whether moving the cursor marks entries.
    pub mode: InteractionMode,
    /// What was yanked or cut, to be pasted.
    pub clipboard: Clipboard,
    /// The preview of a file, shown until the next key.
    pub preview: Option<PreviewContent>,
}

/// What was yanked or cut: the paths, and whether pasting copies them (`Copy`) or moves
/// them (`Move`); `Idle` when there is nothing to paste.
#[derive(Debug)]
pub struct Clipboard {
    pub selection: PathSelection,
    pub action: Action,
}

impl Clipboard {
    /// Nothing to paste.
    pub open spec fn is_empty_spec(self) -> bool {
        &&& self.action == Action::Idle
        &&& self.selection.paths@.len() == 0
        &&& !self.selection.resolve
    }

    /// An empty clipboard.
    pub fn empty() -> (r: Clipboard)
        ensures
            r.is_empty_spec(),
    {
        Clipboard { selection: PathSelection { paths: Vec::new(), resolve: false }, action: Action::Idle }
    }
}

/// `cursor` held within `0..=len`, where `len` is the char count as the cursor's type
/// holds it.
pub open spec fn clamp_cursor(cursor: int, len: nat) -> u16 {
    if cursor > (len as u16) {
        len as u16
    } else {
        cursor as u16
    }
}

/// The cursor one char to the right (not past the end of the text).
pub open spec fn cursor_right(cursor: u16, text: Seq<char>) -> u16 {
    clamp_cursor(if cursor == u16::MAX { u16::MAX as int } else { cursor + 1 }, text.len())
}

/// The cursor one char to the left (not before the start, nor past the end of the text).
pub open spec fn cursor_left(cursor: u16, text: Seq<char>) -> u16 {
    clamp_cursor(if cursor == 0 { 0 } else { cursor - 1 }, text.len())
}

/// The text with the char just left of the cursor taken out; the text as it was when the
/// cursor is at the start or past the end.
pub open spec fn text_after_delete(text: Seq<char>, cursor: u16) -> Seq<char> {
    if cursor != 0 && cursor <= text.len() {
        text.remove(cursor - 1)
    } else {
        text
    }
}

/// The position at which a typed char goes: the cursor, or the end if the cursor is
/// past it.
pub open spec fn insert_position(text: Seq<char>, cursor: u16) -> int {
    if cursor <= text.len() {
        cursor as int
    } else {
        text.len() as int
    }
}

impl FileManager {
    /// Everything but the prompt text and cursor is as in `other`.
    pub open spec fn same_but_prompt(self, other: FileManager) -> bool {
        self == (FileManager { input_buffer: self.input_buffer, cursor_pos: self.cursor_pos, ..other })
    }

    /// The byte offset in `buffer` of its char number `pos`, or the byte length of
    /// `buffer` when it has no such char.
    pub fn byte_index(&self, buffer: &String, pos: usize) -> (r: usize)
        ensures
            r == prefix_bytes(buffer@, if pos <= buffer@.len() { pos as int } else { buffer@.len() as int }),
    {
        let ghost s = buffer@;
        let total = buffer.as_str().as_bytes().len();
        proof {
            lemma_bytes_at_least_chars(s);
            assert(s.take(s.len() as int) =~= s);
        }
        let mut acc: usize = 0;
        let mut i: usize = 0;
        for c in it: buffer.as_str().chars()
            invariant
                it.seq() == s,
                i == it.index(),
                i <= s.len(),
                s.len() <= total,
                total == prefix_bytes(s, s.len() as int),
                acc == prefix_bytes(s, if i <= pos { i as int } else { pos as int }),
        {
            proof {
                lemma_prefix_bytes_step(s, i as int);
                lemma_prefix_bytes_grow(s, i + 1, s.len() as int);
            }
            assert(c == s[i as int]);
            if i < pos {
                acc = acc + char_width(c);
            }
            i = i + 1;
        }
        acc
    }

    /// Moves the prompt cursor one char right, not past the end of the text.
    pub fn move_cursor_right(&mut self)
        ensures
            final(self).cursor_pos == cursor_right(old(self).cursor_pos, old(self).input_buffer@),
            final(self).input_buffer == old(self).input_buffer,
            final(self).same_but_prompt(*old(self)),
    {
        let count = self.input_buffer.as_str().unicode_len();
        let cap = count as u16;
        let moved = self.cursor_pos.saturating_add(1);
        self.cursor_pos = if moved > cap {
            cap
        } else {
            moved
        };
    }

    /// Moves the prompt cursor one char left, not before the start (nor past the end).
    pub fn move_cursor_left(&mut self)
        ensures
            final(self).cursor_pos == cursor_left(old(self).cursor_pos, old(self).input_buffer@),
            final(self).input_buffer == old(self).input_buffer,
            final(self).same_but_prompt(*old(self)),
    {
        let count = self.input_buffer.as_str().unicode_len();
        let cap = count as u16;
        let moved = self.cursor_pos.saturating_sub(1);
        self.cursor_pos = if moved > cap {
            cap
        } else {
            moved
        };
    }

    /// Types `new_char` at the prompt cursor and moves the cursor past it.
    pub fn insert_char(&mut self, new_char: char)
        ensures
            final(self).input_buffer@ == old(self).input_buffer@.insert(
                insert_position(old(self).input_buffer@, old(self).cursor_pos),
                new_char,
            ),
            final(self).cursor_pos == cursor_right(old(self).cursor_pos, final(self).input_buffer@),
            final(self).same_but_prompt(*old(self)),
    {
        let index = self.byte_index(&self.input_buffer, self.cursor_pos as usize);
        let ghost k = insert_position(self.input_buffer@, self.cursor_pos);
        assert(0 <= k <= self.input_buffer@.len() && vstd::utf8::encode_utf8(
            self.input_buffer@.take(k),
        ).len() == index);
        string_insert(&mut self.input_buffer, index, new_char);
        self.move_cursor_right();
    }

    /// Deletes the char just left of the prompt cursor; the cursor stays where it is.
    pub fn delete_char(&mut self)
        ensures
            final(self).input_buffer@ == text_after_delete(old(self).input_buffer@, old(self).cursor_pos),
            final(self).cursor_pos == old(self).cursor_pos,
            final(self).same_but_prompt(*old(self)),
    {
        if self.cursor_pos != 0 {
            let ghost s = self.input_buffer@;
            let gap: usize = (self.cursor_pos - 1) as usize;
            let count = self.input_buffer.as_str().unicode_len();
            let mut kept = String::new();
            let mut i: usize = 0;
            for c in it: self.input_buffer.as_str().chars()
                invariant
                    it.seq() == s,
                    i == it.index(),
                    i <= s.len(),
                    count == s.len(),
                    kept@ == (if i <= gap {
                        s.take(i as int)
                    } else {
                        s.take(gap as int) + s.subrange(gap + 1, i as int)
                    }),
            {
                assert(c == s[i as int]);
                if i != gap {
                    string_push(&mut kept, c);
                }
                proof {
                    if i < gap {
                        assert(s.take(i + 1) =~= s.take(i as int).push(c));
                    } else if i > gap {
                        assert(s.subrange(gap + 1, i + 1) =~= s.subrange(gap + 1, i as int).push(c));
                    } else {
                        assert(s.subrange(gap + 1, i + 1) =~= Seq::<char>::empty());
                    }
                }
                i = i + 1;
            }
            proof {
                if gap < s.len() {
                    assert(s.take(gap as int) + s.subrange(gap + 1, s.len() as int) =~= s.remove(gap as int));
                } else {
                    assert(s.take(s.len() as int) =~= s);
                }
            }
            self.input_buffer = kept;
        }
    }

    /// The pane on `side`.
    pub open spec fn pane_on(self, side: Selected) -> FilePane {
        match side {
            Selected::Left => self.left_pane,
            Selected::Right => self.right_pane,
        }
    }

    /// The pane that has the focus.
    pub open spec fn focused(self) -> FilePane {
        self.pane_on(self.selected_pane)
    }

    /// The pane that does not have the focus.
    pub open spec fn unfocused(self) -> FilePane {
        self.pane_on(other_side(self.selected_pane))
    }

    /// This state with the pane on `side` replaced by `pane`.
    pub open spec fn with_pane(self, side: Selected, pane: FilePane) -> FileManager {
        match side {
            Selected::Left => FileManager { left_pane: pane, ..self },
            Selected::Right => FileManager { right_pane: pane, ..self },
        }
    }

    /// A file manager on `start_path`, with both panes showing it (from the listings the
    /// caller read), the focus on the right pane, an empty prompt and no popup.
    pub fn new(start_path: String, left_entries: Vec<FsEntry>, right_entries: Vec<FsEntry>) -> (r: FileManager)
        ensures
            r.left_pane == FilePane::new_spec(start_path, left_entries),
            r.right_pane == FilePane::new_spec(start_path, right_entries),
            r.selected_pane == Selected::Right,
            r.input_buffer@ == Seq::<char>::empty(),
            r.cursor_pos == 0,
            r.search_prefix@ == Seq::<char>::empty(),
            r.notify is None,
            r.popup is Closed,
            r.mode == InteractionMode::Normal,
            r.clipboard.is_empty_spec(),
            r.preview is None,
    {
        let left_path = start_path.clone();
        FileManager {
            left_pane: FilePane::new(left_path, left_entries),
            right_pane: FilePane::new(start_path, right_entries),
            input_buffer: String::new(),
            cursor_pos: 0,
            search_prefix: String::new(),
            selected_pane: Selected::Right,
            notify: None,
            popup: PopupType::Closed,
            mode: InteractionMode::Normal,
            clipboard: Clipboard::empty(),
            preview: None,
        }
    }

    /// The pane that has the focus.
    pub fn selected_pane(&self) -> (r: &FilePane)
        ensures
            *r == self.focused(),
    {
        match self.selected_pane {
            Selected::Left => &self.left_pane,
            Selected::Right => &self.right_pane,
        }
    }

    /// The pane that does not have the focus.
    pub fn other_pane(&self) -> (r: &FilePane)
        ensures
            *r == self.unfocused(),
    {
        match self.selected_pane {
            Selected::Left => &self.right_pane,
            Selected::Right => &self.left_pane,
        }
    }

    /// The pane that has the focus, to change.
    pub fn selected_pane_mut(&mut self) -> (r: &mut FilePane)
        ensures
            *r == old(self).focused(),
            *final(self) == old(self).with_pane(old(self).selected_pane, *final(r)),
    {
        match self.selected_pane {
            Selected::Left => &mut self.left_pane,
            Selected::Right => &mut self.right_pane,
        }
    }

    /// The pane that does not have the focus, to change.
    pub fn other_pane_mut(&mut self) -> (r: &mut FilePane)
        ensures
            *r == old(self).unfocused(),
            *final(self) == old(self).with_pane(other_side(old(self).selected_pane), *final(r)),
    {
        match self.selected_pane {
            Selected::Left => &mut self.right_pane,
            Selected::Right => &mut self.left_pane,
        }
    }
}

impl FileManager {
    /// Everything but the popup is as in `other`.
    pub open spec fn same_but_popup(self, other: FileManager) -> bool {
        self == (FileManager { popup: self.popup, ..other })
    }

    /// Everything but the panes is as in `other`.
    pub open spec fn same_but_panes(self, other: FileManager) -> bool {
        self == (FileManager { left_pane: self.left_pane, right_pane: self.right_pane, ..other })
    }

    /// Everything but the prompt text is as in `other`.
    pub open spec fn same_but_prompt_text(self, other: FileManager) -> bool {
        self == (FileManager { input_buffer: self.input_buffer, ..other })
    }

    /// The focus and the cursors of both panes are as in `other`.
    pub open spec fn keeps_cursors(self, other: FileManager) -> bool {
        &&& self.selected_pane == other.selected_pane
        &&& self.left_pane.selection == other.left_pane.selection
        &&& self.right_pane.selection == other.right_pane.selection
    }

    /// Everything but the notification is as in `other`.
    pub open spec fn same_but_notification(self, other: FileManager) -> bool {
        self == (FileManager { notify: self.notify, ..other })
    }

    /// The state after the focus moves to the other pane: the pane that loses it keeps
    /// its cursor as the one to come back to and shows none; the pane that gains it takes
    /// back the cursor it had (or the first row, if it had none).
    pub open spec fn tabbed(self) -> FileManager {
        let from = self.selected_pane;
        let to = other_side(from);
        self.with_pane(from, unfocus_pane(self.pane_on(from))).with_pane(
            to,
            refocus_pane(self.pane_on(to)),
        ).with_selected(to)
    }

    /// This state with the focus on `side`.
    pub open spec fn with_selected(self, side: Selected) -> FileManager {
        FileManager { selected_pane: side, ..self }
    }

    /// Moves the focus to the other pane (see [`FileManager::tabbed`]).
    pub fn handle_tab(&mut self)
        ensures
            *final(self) == old(self).tabbed(),
    {
        self.selected_pane = match self.selected_pane {
            Selected::Left => {
                self.left_pane.old_selection = self.left_pane.selection;
                self.left_pane.selection.select(None);
                self.left_pane.selection.offset = self.left_pane.old_selection.offset();
                if self.right_pane.old_selection.selected().is_none() {
                    self.right_pane.selection.select_first();
                } else {
                    self.right_pane.selection.select(self.right_pane.old_selection.selected());
                }
                Selected::Right
            },
            Selected::Right => {
                self.right_pane.old_selection = self.right_pane.selection;
                self.right_pane.selection.select(None);
                self.right_pane.selection.offset = self.right_pane.old_selection.offset();
                if self.left_pane.old_selection.selected().is_none() {
                    self.left_pane.selection.select_first();
                } else {
                    self.left_pane.selection.select(self.left_pane.old_selection.selected());
                }
                Selected::Left
            },
        };
    }

    /// Shows `message` for the usual while, from now.
    pub fn show_notification(&mut self, message: String)
        ensures
            final(self).keeps_cursors(*old(self)),
            final(self).notify matches Some(n) && n.message == message && n.duration_ms
                == NOTIFICATION_MILLIS,
            final(self).same_but_notification(*old(self)),
    {
        self.notify = Some(
            Notification { message, created_at: instant_now(), duration_ms: NOTIFICATION_MILLIS },
        );
    }

    /// Drops the notification once its time is up: the clock is read once for how long
    /// ago the notification was made, that reading is returned (`None` when there is no
    /// notification), and the notification goes exactly when the reading reaches its
    /// duration. Nothing else changes.
    pub fn clear_expired_notifications(&mut self) -> (reading: Option<u128>)
        ensures
            final(self).keeps_cursors(*old(self)),
            cleared_by_reading(old(self).notify, reading, final(self).notify),
            final(self).same_but_notification(*old(self)),
    {
        let reading = match &self.notify {
            Some(n) => Some(elapsed_millis(&n.created_at)),
            None => None,
        };
        if let Some(elapsed) = reading {
            expire_notification(&mut self.notify, elapsed);
        }
        reading
    }

    /// Closes the popup.
    pub fn close_confirmation_popup(&mut self)
        ensures
            final(self).keeps_cursors(*old(self)),
            final(self).popup is Closed,
            final(self).same_but_popup(*old(self)),
    {
        self.popup = PopupType::Closed;
    }
}

/// A pane that loses the focus: its cursor is kept to come back to, and it shows none
/// (at the same scroll offset).
pub open spec fn unfocus_pane(p: FilePane) -> FilePane {
    FilePane {
        old_selection: p.selection,
        selection: ListSelection { selected: None, offset: p.selection.offset },
        ..p
    }
}

/// A pane that gains the focus: it takes back the cursor it had, or the first row.
pub open spec fn refocus_pane(p: FilePane) -> FilePane {
    FilePane {
        selection: ListSelection {
            selected: Some(
                match p.old_selection.selected {
                    Some(i) => i,
                    None => 0usize,
                },
            ),
            offset: p.selection.offset,
        },
        ..p
    }
}

/// The other side.
pub open spec fn other_side(side: Selected) -> Selected {
    match side {
        Selected::Left => Selected::Right,
        Selected::Right => Selected::Left,
    }
}

} // verus!
