//! The file operations: what the library asks the caller to do on disk, and what it
//! makes of the outcome.

use vstd::prelude::*;

use crate::events::Command;
use crate::manager::{other_side, Clipboard, FileManager};
use crate::pane::{FilePane, Listing, PathSelection};
use crate::platform::{
    path_debug, path_debug_text, path_file_name, path_file_name_of, path_join, path_joined,
};
use crate::text::{
    chars_of, ends_with_slash, is_slash_terminated, split_on_slash,
    trim_slashes, trim_trailing_slashes, trimmed_length,
};
use crate::preview::{binary_note, classify_preview, preview_text};
use crate::types::{Action, FileContent, PopupType, PreviewContent, Selected, NOTIFICATION_MILLIS};

verus! {

/// `base` with each of `segments` joined on in turn.
pub open spec fn join_all(base: Seq<char>, segments: Seq<Seq<char>>) -> Seq<char>
    decreases segments.len(),
{
    if segments.len() == 0 {
        base
    } else {
        path_joined(join_all(base, segments.drop_last()), segments.last())
    }
}

/// The pieces of a create request: the input without its trailing `/`, cut at each `/`.
pub open spec fn create_segments(input: Seq<char>) -> Seq<Seq<char>> {
    split_on_slash(trim_trailing_slashes(input))
}

/// The directory in which a create request makes its entry: the pane's directory with
/// every piece but the last joined on.
pub open spec fn create_parents(base: Seq<char>, input: Seq<char>) -> Seq<char> {
    join_all(base, create_segments(input).drop_last())
}

/// The entry a create request makes: its last piece, in `create_parents`.
pub open spec fn create_target(base: Seq<char>, input: Seq<char>) -> Seq<char> {
    path_joined(create_parents(base, input), create_segments(input).last())
}

/// The refresh that reloads the pane on `side`.
pub open spec fn refresh_side(cmd: Command, side: Selected) -> bool {
    cmd == (match side {
        Selected::Left => Command::Refresh { left: true, right: false },
        Selected::Right => Command::Refresh { left: false, right: true },
    })
}

impl FileManager {
    /// `r` is the renaming asked for with prompt text `input`: the entry under the
    /// focused pane's cursor to `input` without trailing `/`, both in the pane's
    /// directory; nothing when the cursor is on no entry.
    pub open spec fn renames(self, input: Seq<char>, r: Command) -> bool {
        match self.focused().cursor_entry() {
            Some(e) => r matches Command::Rename { from, to } && from@ == path_joined(
                self.focused().path@,
                e.name@,
            ) && to@ == path_joined(self.focused().path@, trim_trailing_slashes(input)),
            None => r is Nothing,
        }
    }

    /// `r` is the creation asked for with prompt text `input`.
    pub open spec fn creates(self, input: Seq<char>, r: Command) -> bool {
        r matches Command::Create { parents, target, is_directory } && parents@
            == create_parents(self.focused().path@, input) && target@ == create_target(
            self.focused().path@,
            input,
        ) && is_directory == ends_with_slash(input)
    }

    /// `r` removes what the focused pane selects.
    pub open spec fn deletes(self, r: Command) -> bool {
        r matches Command::Delete(sel) && self.focused().selects(sel)
    }

    /// `r` copies what the focused pane selects.
    pub open spec fn copies(self, r: Command) -> bool {
        r matches Command::Copy(sel) && self.focused().selects(sel)
    }

    /// `r` moves what the focused pane selects.
    pub open spec fn moves(self, r: Command) -> bool {
        r matches Command::Move(sel) && self.focused().selects(sel)
    }

    /// Takes a directory read for the pane on `side` at `path` (see
    /// [`FilePane::enter_directory`]).
    pub fn enter_pane(&mut self, side: Selected, path: String, listing: Listing)
        ensures
            final(self).keeps_cursors(*old(self)),
            final(self).selected_pane == old(self).selected_pane,
            final(self).pane_on(other_side(side)) == old(self).pane_on(other_side(side)),
            FilePane::entered(old(self).pane_on(side), path, listing, final(self).pane_on(side)),
            final(self).same_but_panes(*old(self)),
    {
        match side {
            Selected::Left => self.left_pane.enter_directory(path, listing),
            Selected::Right => self.right_pane.enter_directory(path, listing),
        }
    }

    /// Takes a new read of the directory of the pane on `side` (see
    /// [`FilePane::refresh_directory`]).
    pub fn refresh_pane(&mut self, side: Selected, listing: Listing)
        ensures
            final(self).keeps_cursors(*old(self)),
            final(self).selected_pane == old(self).selected_pane,
            final(self).pane_on(other_side(side)) == old(self).pane_on(other_side(side)),
            FilePane::refreshed(old(self).pane_on(side), listing, final(self).pane_on(side)),
            final(self).same_but_panes(*old(self)),
    {
        match side {
            Selected::Left => self.left_pane.refresh_directory(listing),
            Selected::Right => self.right_pane.refresh_directory(listing),
        }
    }

    /// The removal that the delete popup asks for: the paths of the focused pane's
    /// selection (see [`FilePane::get_selected_paths`]).
    pub fn delete_selected(&self) -> (r: Command)
        ensures
            self.deletes(r),
    {
        Command::Delete(self.selected_pane().get_selected_paths())
    }

    /// Takes the outcome of removing `path`: on success the popup closes and the focused
    /// pane is read again; on failure the error is shown.
    pub fn finish_delete(&mut self, path: &str, outcome: Result<(), String>) -> (r: Command)
        ensures
            final(self).keeps_cursors(*old(self)),
            match outcome {
                Ok(_) => {
                    &&& final(self).popup is Closed
                    &&& final(self).same_but_popup(*old(self))
                    &&& refresh_side(r, old(self).selected_pane)
                },
                Err(e) => {
                    &&& final(self).notify matches Some(n) && n.message@ == "Failed to delete "@
                        + path_debug_text(path@) + ": "@ + e@ && n.duration_ms
                        == NOTIFICATION_MILLIS
                    &&& final(self).same_but_notification(*old(self))
                    &&& r is Nothing
                },
            },
    {
        match outcome {
            Ok(_) => {
                self.popup = PopupType::Closed;
                Self::refresh_of(self.selected_pane)
            },
            Err(e) => {
                let shown = path_debug(path);
                let message = String::from_str("Failed to delete ").concat(shown.as_str()).concat(
                    ": ",
                ).concat(e.as_str());
                self.show_notification(message);
                Command::Nothing
            },
        }
    }

    /// The command that reloads the pane on `side`.
    pub fn refresh_of(side: Selected) -> (r: Command)
        ensures
            refresh_side(r, side),
    {
        match side {
            Selected::Left => Command::Refresh { left: true, right: false },
            Selected::Right => Command::Refresh { left: false, right: true },
        }
    }

    /// The renaming that the prompt asks for: the entry under the focused pane's cursor
    /// to `input` (without trailing `/`), both in the pane's directory. Nothing when the
    /// cursor is on no entry.
    pub fn rename_selected(&self, input: &str) -> (r: Command)
        ensures
            self.renames(input@, r),
    {
        let pane = self.selected_pane();
        match pane.get_selected_index_entry() {
            Some(entry) => {
                let from = path_join(pane.path.as_str(), entry.name.as_str());
                let name = trim_slashes(input);
                let to = path_join(pane.path.as_str(), name.as_str());
                Command::Rename { from, to }
            },
            None => Command::Nothing,
        }
    }

    /// Takes the outcome of a renaming: when it worked the focused pane is read again
    /// and the popup closes; when it failed nothing changes.
    pub fn finish_rename(&mut self, renamed: bool) -> (r: Command)
        ensures
            final(self).keeps_cursors(*old(self)),
            renamed ==> final(self).popup is Closed && final(self).same_but_popup(*old(self))
                && refresh_side(r, old(self).selected_pane),
            !renamed ==> *final(self) == *old(self) && r is Nothing,
    {
        if renamed {
            self.popup = PopupType::Closed;
            Self::refresh_of(self.selected_pane)
        } else {
            Command::Nothing
        }
    }

    /// What the create prompt asks for: `input` cut at each `/` (a trailing `/` asks for
    /// a directory); every piece but the last is a directory to make under the focused
    /// pane's directory, and the last one is the entry to make in it.
    pub fn create_entry(&self, input: &str) -> (r: Command)
        ensures
            self.creates(input@, r),
    {
        let is_directory = is_slash_terminated(input);
        let cs = chars_of(input);
        let k = trimmed_length(&cs);
        let base = &self.selected_pane().path;
        let mut parents = base.clone();
        let mut current = String::new();
        proof {
            assert(cs@.take(0) =~= Seq::<char>::empty());
            assert(split_on_slash(cs@.take(0)).drop_last() =~= Seq::<Seq<char>>::empty());
        }
        for i in 0..k
            invariant
                k <= cs@.len(),
                split_on_slash(cs@.take(i as int)).len() >= 1,
                parents@ == join_all(base@, split_on_slash(cs@.take(i as int)).drop_last()),
                current@ == split_on_slash(cs@.take(i as int)).last(),
        {
            let ghost before = split_on_slash(cs@.take(i as int));
            assert(cs@.take(i + 1).drop_last() =~= cs@.take(i as int));
            assert(cs@.take(i + 1).last() == cs@[i as int]);
            let c = cs[i];
            if c == '/' {
                assert(split_on_slash(cs@.take(i + 1)).drop_last() =~= before);
                parents = path_join(parents.as_str(), current.as_str());
                current = String::new();
                assert(current@ =~= split_on_slash(cs@.take(i + 1)).last());
            } else {
                assert(split_on_slash(cs@.take(i + 1)).drop_last() =~= before.drop_last());
                crate::platform::string_push(&mut current, c);
            }
        }
        let target = path_join(parents.as_str(), current.as_str());
        Command::Create { parents, target, is_directory }
    }

    /// Takes the failure to make the directories in which an entry was to be created:
    /// the error is shown and the prompt stays open.
    pub fn finish_create_parents_failed(&mut self, error: String)
        ensures
            final(self).keeps_cursors(*old(self)),
            final(self).notify matches Some(n) && n.message@ == "Error creating directories: "@
                + error@ && n.duration_ms == NOTIFICATION_MILLIS,
            final(self).same_but_notification(*old(self)),
    {
        let message = String::from_str("Error creating directories: ").concat(error.as_str());
        self.show_notification(message);
    }

    /// Takes the outcome of making the entry: on success the prompt text is cleared and
    /// both panes are read again, on failure the error is shown; either way the popup
    /// closes.
    pub fn finish_create(&mut self, outcome: Result<(), String>) -> (r: Command)
        ensures
            final(self).keeps_cursors(*old(self)),
            final(self).popup is Closed,
            *final(self) == (FileManager {
                popup: final(self).popup,
                input_buffer: final(self).input_buffer,
                notify: final(self).notify,
                ..*old(self)
            }),
            match outcome {
                Ok(_) => {
                    &&& final(self).input_buffer@ == Seq::<char>::empty()
                    &&& final(self).notify == old(self).notify
                    &&& r == (Command::Refresh { left: true, right: true })
                },
                Err(e) => {
                    &&& final(self).input_buffer == old(self).input_buffer
                    &&& final(self).notify matches Some(n) && n.message == e && n.duration_ms
                        == NOTIFICATION_MILLIS
                    &&& r is Nothing
                },
            },
    {
        let r = match outcome {
            Ok(_) => self.on_create_success(),
            Err(e) => {
                self.show_notification(e);
                Command::Nothing
            },
        };
        self.close_confirmation_popup();
        r
    }

    /// After an entry was made: the prompt text is cleared and both panes are to be read
    /// again.
    pub fn on_create_success(&mut self) -> (r: Command)
        ensures
            final(self).keeps_cursors(*old(self)),
            final(self).input_buffer@ == Seq::<char>::empty(),
            final(self).same_but_prompt_text(*old(self)),
            r == (Command::Refresh { left: true, right: true }),
    {
        self.input_buffer = String::new();
        Command::Refresh { left: true, right: true }
    }

    /// The copy that the copy popup asks for: the paths of the focused pane's selection.
    pub fn copy_selected_to_other_pane(&self) -> (r: Command)
        ensures
            self.copies(r),
    {
        Command::Copy(self.selected_pane().get_selected_paths())
    }

    /// The move that the move popup asks for: the paths of the focused pane's selection.
    pub fn move_selected_to_other_pane(&self) -> (r: Command)
        ensures
            self.moves(r),
    {
        Command::Move(self.selected_pane().get_selected_paths())
    }

    /// Where a copied or moved `src` lands: under its own name in the other pane's
    /// directory. `None` when `src` has no name of its own (it ends in `..`).
    pub fn transfer_destination(&self, src: &str) -> (r: Option<String>)
        ensures
            match path_file_name_of(src@) {
                Some(name) => r matches Some(d) && d@ == path_joined(self.unfocused().path@, name),
                None => r is None,
            },
    {
        match path_file_name(src) {
            Some(name) => Some(path_join(self.other_pane().path.as_str(), name.as_str())),
            None => None,
        }
    }

    /// After a copy: the popup closes and the other pane is read again.
    pub fn finish_copy(&mut self) -> (r: Command)
        ensures
            final(self).keeps_cursors(*old(self)),
            final(self).popup is Closed,
            final(self).same_but_popup(*old(self)),
            refresh_side(r, other_side(old(self).selected_pane)),
    {
        self.close_confirmation_popup();
        Self::refresh_of(other_side_of(self.selected_pane))
    }

    /// After a move: the popup closes and both panes are read again.
    pub fn finish_move(&mut self) -> (r: Command)
        ensures
            final(self).keeps_cursors(*old(self)),
            final(self).popup is Closed,
            final(self).same_but_popup(*old(self)),
            r == (Command::Refresh { left: true, right: true }),
    {
        self.close_confirmation_popup();
        Command::Refresh { left: true, right: true }
    }

    /// `r` pastes what the clipboard holds with the clipboard's action; nothing when
    /// the clipboard is empty.
    pub open spec fn pastes(self, r: Command) -> bool {
        if self.clipboard.action == Action::Idle {
            r is Nothing
        } else {
            r matches Command::Paste { selection, action } && action == self.clipboard.action
                && selection.resolve == self.clipboard.selection.resolve
                && selection.paths.deep_view() == self.clipboard.selection.paths.deep_view()
        }
    }

    /// Puts what the focused pane selects on the clipboard (see
    /// [`FilePane::get_selected_paths`]), to be pasted with `action`.
    pub fn clip_selected(&mut self, action: Action)
        ensures
            final(self).keeps_cursors(*old(self)),
            *final(self) == (FileManager { clipboard: final(self).clipboard, ..*old(self) }),
            final(self).clipboard.action == action,
            old(self).focused().selects(final(self).clipboard.selection),
    {
        let selection = self.selected_pane().get_selected_paths();
        self.clipboard = Clipboard { selection, action };
    }

    /// The paste of the clipboard (see [`FileManager::pastes`]).
    pub fn paste_clipboard(&self) -> (r: Command)
        ensures
            self.pastes(r),
    {
        match self.clipboard.action {
            Action::Idle => Command::Nothing,
            Action::Copy => Command::Paste {
                selection: copy_selection(&self.clipboard.selection),
                action: Action::Copy,
            },
            Action::Move => Command::Paste {
                selection: copy_selection(&self.clipboard.selection),
                action: Action::Move,
            },
        }
    }

    /// Where a pasted `src` lands: under its own name in the focused pane's directory.
    /// `None` when `src` has no name of its own.
    pub fn paste_destination(&self, src: &str) -> (r: Option<String>)
        ensures
            match path_file_name_of(src@) {
                Some(name) => r matches Some(d) && d@ == path_joined(self.focused().path@, name),
                None => r is None,
            },
    {
        match path_file_name(src) {
            Some(name) => Some(path_join(self.selected_pane().path.as_str(), name.as_str())),
            None => None,
        }
    }

    /// After a paste: a moved clipboard is emptied (what it named is gone), a copied one
    /// stays for another paste; both panes are read again.
    pub fn finish_paste(&mut self) -> (r: Command)
        ensures
            *final(self) == (FileManager { clipboard: final(self).clipboard, ..*old(self) }),
            old(self).clipboard.action == Action::Move ==> final(self).clipboard.is_empty_spec(),
            old(self).clipboard.action != Action::Move ==> final(self).clipboard == old(self).clipboard,
            r == (Command::Refresh { left: true, right: true }),
            final(self).keeps_cursors(*old(self)),
    {
        if let Action::Move = self.clipboard.action {
            self.clipboard = Clipboard::empty();
        }
        Command::Refresh { left: true, right: true }
    }

    /// Takes the read of a file to preview: its first bytes and whether the file goes on
    /// past them, or the error's text. On success the preview shows the file (see
    /// [`preview_text`]); on failure the error is shown.
    pub fn finish_preview(&mut self, outcome: Result<(Vec<u8>, bool), String>)
        ensures
            match outcome {
                Ok((bytes, truncated)) => {
                    &&& *final(self) == (FileManager { preview: final(self).preview, ..*old(self) })
                    &&& final(self).preview matches Some(PreviewContent::File(content))
                        && shows(content, bytes@, truncated)
                },
                Err(e) => {
                    &&& final(self).notify matches Some(n) && n.message == e && n.duration_ms
                        == NOTIFICATION_MILLIS
                    &&& final(self).same_but_notification(*old(self))
                },
            },
            final(self).keeps_cursors(*old(self)),
    {
        match outcome {
            Ok((bytes, truncated)) => {
                let content = classify_preview(&bytes, truncated);
                self.preview = Some(PreviewContent::File(content));
            },
            Err(e) => self.show_notification(e),
        }
    }
}

/// `content` is the preview of a file whose first bytes are `bytes`.
pub open spec fn shows(content: FileContent, bytes: Seq<u8>, truncated: bool) -> bool {
    match preview_text(bytes, truncated) {
        Some(t) => content matches FileContent::Text(s) && s@ == t,
        None => content matches FileContent::Binary(s) && s@ == binary_note(),
    }
}

/// A copy of `sel`.
pub fn copy_selection(sel: &PathSelection) -> (r: PathSelection)
    ensures
        r.resolve == sel.resolve,
        r.paths.deep_view() == sel.paths.deep_view(),
{
    let mut paths: Vec<String> = Vec::new();
    let n = sel.paths.len();
    for i in 0..n
        invariant
            n == sel.paths@.len(),
            paths@.len() == i,
            forall|j: int| 0 <= j < i ==> #[trigger] paths@[j] == sel.paths@[j],
    {
        paths.push(sel.paths[i].clone());
    }
    assert(paths.deep_view() =~= sel.paths.deep_view());
    PathSelection { paths, resolve: sel.resolve }
}

/// The other side.
pub fn other_side_of(side: Selected) -> (r: Selected)
    ensures
        r == other_side(side),
{
    match side {
        Selected::Left => Selected::Right,
        Selected::Right => Selected::Left,
    }
}
} // verus!
