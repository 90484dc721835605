use vstd::prelude::*;

use crate::platform::{elapsed_millis, instant_now, path_join, path_joined, path_parent, path_parent_of};
use crate::selection::ListSelection;
use crate::text::{has_prefix, starts_with};
use crate::types::{cleared_by_reading, expire_notification, FsEntry, FsEntryType, Notification, NOTIFICATION_MILLIS};

verus! {

/// One of the two directory panes: the directory it shows, its listing, its cursor, the
/// cursor it had before focus left it, and its own notification.
#[derive(Clone, Debug)]
pub struct FilePane {
    pub path: String,
    pub entries: Vec<FsEntry>,
    pub selection: ListSelection,
    pub old_selection: ListSelection,
    pub notify: Option<Notification>,
}

/// What a directory read by the caller gave: the listing, or the error's text.
pub type Listing = Result<Vec<FsEntry>, String>;

/// The text of a listing row: its icon, a space, and the entry's name.
pub open spec fn row_label(entry: FsEntry) -> Seq<char> {
    (match entry.entry_type {
        FsEntryType::Directory => "📁"@,
        FsEntryType::File => "📄"@,
    }) + " "@ + entry.name@
}

/// The paths that a batch operation acts on. When `resolve` is set, each path is to be
/// made canonical first, and the ones that cannot be are dropped.
#[derive(Debug)]
pub struct PathSelection {
    pub paths: Vec<String>,
    pub resolve: bool,
}

/// The paths, under `base`, of the marked entries, in listing order.
pub open spec fn marked_paths(base: Seq<char>, entries: Seq<FsEntry>) -> Seq<Seq<char>>
    decreases entries.len(),
{
    if entries.len() == 0 {
        Seq::empty()
    } else {
        let rest = marked_paths(base, entries.drop_last());
        if entries.last().is_selected {
            rest.push(path_joined(base, entries.last().name@))
        } else {
            rest
        }
    }
}

/// The bar at the left of a row: a block for a marked entry, a blank otherwise.
pub open spec fn row_bar(marked: bool) -> Seq<char> {
    if marked {
        "▌"@
    } else {
        " "@
    }
}

/// What a listing row shows: whether the entry is marked and the bar that says so, its
/// text, and whether the cursor is on it.
#[derive(Debug)]
pub struct ListRow {
    pub marked: bool,
    pub bar: String,
    pub label: String,
    pub is_cursor: bool,
}

impl FilePane {
    /// The entry under the cursor, if the cursor is on a row of the listing.
    pub open spec fn cursor_entry(self) -> Option<FsEntry> {
        match self.selection.selected {
            Some(i) => if i < self.entries@.len() {
                Some(self.entries@[i as int])
            } else {
                None
            },
            None => None,
        }
    }

    /// Whether some entry is marked.
    pub open spec fn any_marked(self) -> bool {
        exists|i: int| 0 <= i < self.entries@.len() && #[trigger] self.entries@[i].is_selected
    }

    /// A pane on `path` with the given listing and the cursor on its first row.
    pub open spec fn new_spec(path: String, entries: Vec<FsEntry>) -> FilePane {
        FilePane {
            path,
            entries,
            selection: ListSelection::with_selected_spec(Some(0)),
            old_selection: ListSelection::with_selected_spec(Some(0)),
            notify: None,
        }
    }

    /// A pane on `path` with the given listing and the cursor on its first row.
    pub fn new(path: String, entries: Vec<FsEntry>) -> (r: FilePane)
        ensures
            r == Self::new_spec(path, entries),
    {
        FilePane {
            path,
            entries,
            selection: ListSelection::with_selected(Some(0)),
            old_selection: ListSelection::with_selected(Some(0)),
            notify: None,
        }
    }

    /// The rows that show `entries`, with the cursor on row `cursor_index`.
    pub fn list_files(entries: &Vec<FsEntry>, cursor_index: Option<usize>) -> (rows: Vec<ListRow>)
        ensures
            rows@.len() == entries@.len(),
            forall|i: int|
                0 <= i < entries@.len() ==> {
                    &&& (#[trigger] rows@[i]).marked == entries@[i].is_selected
                    &&& rows@[i].bar@ == row_bar(entries@[i].is_selected)
                    &&& rows@[i].label@ == row_label(entries@[i])
                    &&& rows@[i].is_cursor == (cursor_index == Some(i as usize))
                },
    {
        let mut rows: Vec<ListRow> = Vec::new();
        let n = entries.len();
        for index in 0..n
            invariant
                n == entries@.len(),
                rows@.len() == index,
                forall|i: int|
                    0 <= i < index ==> {
                        &&& (#[trigger] rows@[i]).marked == entries@[i].is_selected
                        &&& rows@[i].bar@ == row_bar(entries@[i].is_selected)
                        &&& rows@[i].label@ == row_label(entries@[i])
                        &&& rows@[i].is_cursor == (cursor_index == Some(i as usize))
                    },
        {
            let entry = &entries[index];
            let icon = match entry.entry_type {
                FsEntryType::Directory => "📁",
                FsEntryType::File => "📄",
            };
            let label = String::from_str(icon).concat(" ").concat(entry.name.as_str());
            let is_cursor = match cursor_index {
                Some(c) => c == index,
                None => false,
            };
            let bar = if entry.is_selected {
                String::from_str("▌")
            } else {
                String::from_str(" ")
            };
            rows.push(ListRow { marked: entry.is_selected, bar, label, is_cursor });
        }
        rows
    }

    /// Shows `message` in this pane for the usual while, from now.
    pub fn show_notification(&mut self, message: String)
        ensures
            final(self).notify matches Some(n) && n.message == message && n.duration_ms
                == NOTIFICATION_MILLIS,
            final(self).path == old(self).path,
            final(self).entries == old(self).entries,
            final(self).selection == old(self).selection,
            final(self).old_selection == old(self).old_selection,
    {
        self.notify = Some(
            Notification { message, created_at: instant_now(), duration_ms: NOTIFICATION_MILLIS },
        );
    }

    /// Drops this pane's notification once its time is up: the clock is read once for
    /// how long ago the notification was made, that reading is returned (`None` when
    /// there is no notification), and the notification goes exactly when the reading
    /// reaches its duration. Nothing else changes.
    pub fn clear_expired_notifications(&mut self) -> (reading: Option<u128>)
        ensures
            cleared_by_reading(old(self).notify, reading, final(self).notify),
            final(self).path == old(self).path,
            final(self).entries == old(self).entries,
            final(self).selection == old(self).selection,
            final(self).old_selection == old(self).old_selection,
    {
        let reading = match &self.notify {
            Some(n) => Some(elapsed_millis(&n.created_at)),
            None => None,
        };
        if let Some(elapsed) = reading {
            expire_notification(&mut self.notify, elapsed);
        }
        reading
    }

    /// `post` is `pre` after taking a directory read for `new_path`.
    pub open spec fn entered(pre: FilePane, new_path: String, listing: Listing, post: FilePane) -> bool {
        &&& match listing {
            Ok(entries) => {
                &&& post.path == new_path
                &&& post.entries == entries
                &&& post.notify == pre.notify
            },
            Err(message) => {
                &&& post.path == pre.path
                &&& post.entries == pre.entries
                &&& post.notify matches Some(n) && n.message == message && n.duration_ms
                    == NOTIFICATION_MILLIS
            },
        }
        &&& post.selection == pre.selection
        &&& post.old_selection == pre.old_selection
    }

    /// `post` is `pre` after taking a new read of its own directory.
    pub open spec fn refreshed(pre: FilePane, listing: Listing, post: FilePane) -> bool {
        &&& post.path == pre.path
        &&& match listing {
            Ok(entries) => post.entries == entries && post.notify == pre.notify,
            Err(message) => {
                &&& post.entries == pre.entries
                &&& post.notify matches Some(n) && n.message == message && n.duration_ms
                    == NOTIFICATION_MILLIS
            },
        }
        &&& post.selection == pre.selection
        &&& post.old_selection == pre.old_selection
    }

    /// Whether `sel` is what a batch operation acts on: with nothing marked, the entry
    /// under the cursor (if any), as it is; otherwise every marked entry, in listing
    /// order, to be made canonical.
    pub open spec fn selects(self, sel: PathSelection) -> bool {
        if self.any_marked() {
            sel.resolve && sel.paths.deep_view() == marked_paths(self.path@, self.entries@)
        } else {
            &&& !sel.resolve
            &&& sel.paths.deep_view() == match self.cursor_entry() {
                Some(e) => seq![path_joined(self.path@, e.name@)],
                None => Seq::<Seq<char>>::empty(),
            }
        }
    }

    /// Takes a directory read for `new_path`: on success the pane shows it, on failure
    /// the pane keeps what it showed and tells why.
    pub fn enter_directory(&mut self, new_path: String, listing: Listing)
        ensures
            Self::entered(*old(self), new_path, listing, *final(self)),
            match listing {
                Ok(entries) => {
                    &&& final(self).path == new_path
                    &&& final(self).entries == entries
                    &&& final(self).notify == old(self).notify
                },
                Err(message) => {
                    &&& final(self).path == old(self).path
                    &&& final(self).entries == old(self).entries
                    &&& final(self).notify matches Some(n) && n.message == message
                        && n.duration_ms == NOTIFICATION_MILLIS
                },
            },
            final(self).selection == old(self).selection,
            final(self).old_selection == old(self).old_selection,
    {
        match listing {
            Ok(entries) => {
                self.path = new_path;
                self.entries = entries;
            },
            Err(message) => self.show_notification(message),
        }
    }

    /// Takes a new read of the pane's own directory: on success the listing is
    /// replaced, on failure the pane tells why.
    pub fn refresh_directory(&mut self, listing: Listing)
        ensures
            Self::refreshed(*old(self), listing, *final(self)),
            final(self).path == old(self).path,
            match listing {
                Ok(entries) => final(self).entries == entries && final(self).notify == old(
                    self,
                ).notify,
                Err(message) => {
                    &&& final(self).entries == old(self).entries
                    &&& final(self).notify matches Some(n) && n.message == message
                        && n.duration_ms == NOTIFICATION_MILLIS
                },
            },
            final(self).selection == old(self).selection,
            final(self).old_selection == old(self).old_selection,
    {
        match listing {
            Ok(entries) => {
                self.entries = entries;
            },
            Err(message) => self.show_notification(message),
        }
    }

    /// This pane with the cursor one row down (on the first row when there was none;
    /// it may go past the last row, which drawing pulls back).
    pub open spec fn moved_down(self) -> FilePane {
        FilePane {
            selection: ListSelection {
                selected: Some(
                    match self.selection.selected {
                        Some(i) => if i == usize::MAX {
                            usize::MAX
                        } else {
                            (i + 1) as usize
                        },
                        None => 0usize,
                    },
                ),
                offset: self.selection.offset,
            },
            ..self
        }
    }

    /// This pane with the cursor one row up; from the first row, or from no row, it goes
    /// to the first row.
    pub open spec fn moved_up(self) -> FilePane {
        FilePane {
            selection: ListSelection {
                selected: Some(
                    match self.selection.selected {
                        Some(i) => if i == 0 {
                            0usize
                        } else {
                            (i - 1) as usize
                        },
                        None => 0usize,
                    },
                ),
                offset: self.selection.offset,
            },
            ..self
        }
    }

    /// This pane with the cursor back on the first row.
    pub open spec fn with_cursor_reset(self) -> FilePane {
        FilePane { selection: ListSelection::with_selected_spec(Some(0)), ..self }
    }

    /// Moves the cursor one row down (see [`FilePane::moved_down`]).
    pub fn navigate_down(&mut self)
        ensures
            *final(self) == old(self).moved_down(),
    {
        self.selection.select_next();
    }

    /// Moves the cursor one row up (see [`FilePane::moved_up`]).
    pub fn navigate_up(&mut self)
        ensures
            *final(self) == old(self).moved_up(),
    {
        let current = match self.selection.selected() {
            Some(i) => i,
            None => 0,
        };
        if current == 0 {
            self.selection.select(Some(0));
        }
        self.selection.select_previous();
    }

    /// Whether some entry is marked.
    pub fn has_selected(&self) -> (r: bool)
        ensures
            r == self.any_marked(),
    {
        let n = self.entries.len();
        for i in 0..n
            invariant
                n == self.entries@.len(),
                forall|j: int| 0 <= j < i ==> !(#[trigger] self.entries@[j]).is_selected,
        {
            if self.entries[i].is_selected {
                return true;
            }
        }
        false
    }

    /// The entry under the cursor, if the cursor is on a row.
    pub fn get_selected_index_entry(&self) -> (r: Option<&FsEntry>)
        ensures
            match r {
                Some(e) => self.cursor_entry() == Some(*e),
                None => self.cursor_entry() is None,
            },
    {
        match self.selection.selected() {
            Some(index) => if index < self.entries.len() {
                Some(&self.entries[index])
            } else {
                None
            },
            None => None,
        }
    }

    /// The paths a batch operation acts on: with nothing marked, the entry under the
    /// cursor (if any), as it is; otherwise every marked entry, in listing order, to be
    /// made canonical.
    pub fn get_selected_paths(&self) -> (r: PathSelection)
        ensures
            self.selects(r),
    {
        if !self.has_selected() {
            let mut paths: Vec<String> = Vec::new();
            match self.get_selected_index_entry() {
                Some(entry) => {
                    paths.push(path_join(self.path.as_str(), entry.name.as_str()));
                },
                None => {},
            }
            assert(paths.deep_view() =~= (match self.cursor_entry() {
                Some(e) => seq![path_joined(self.path@, e.name@)],
                None => Seq::<Seq<char>>::empty(),
            }));
            PathSelection { paths, resolve: false }
        } else {
            let mut paths: Vec<String> = Vec::new();
            let n = self.entries.len();
            for i in 0..n
                invariant
                    n == self.entries@.len(),
                    paths.deep_view() == marked_paths(self.path@, self.entries@.take(i as int)),
            {
                assert(self.entries@.take(i + 1).drop_last() =~= self.entries@.take(i as int));
                if self.entries[i].is_selected {
                    paths.push(path_join(self.path.as_str(), self.entries[i].name.as_str()));
                }
                assert(paths.deep_view() =~= marked_paths(self.path@, self.entries@.take(i + 1)));
            }
            assert(self.entries@.take(n as int) =~= self.entries@);
            PathSelection { paths, resolve: true }
        }
    }

    /// `post` is `pre` with every entry unmarked.
    pub open spec fn deselected(pre: FilePane, post: FilePane) -> bool {
        &&& post.entries@ == pre.entries@.map_values(|e: FsEntry| FsEntry { is_selected: false, ..e })
        &&& post.path == pre.path
        &&& post.selection == pre.selection
        &&& post.old_selection == pre.old_selection
        &&& post.notify == pre.notify
    }

    /// Unmarks every entry; names, kinds, sizes and permissions stay.
    pub fn deselect_all(&mut self)
        ensures
            Self::deselected(*old(self), *final(self)),
            final(self).entries@.len() == old(self).entries@.len(),
            forall|i: int|
                0 <= i < old(self).entries@.len() ==> {
                    &&& !(#[trigger] final(self).entries@[i]).is_selected
                    &&& final(self).entries@[i].name == old(self).entries@[i].name
                    &&& final(self).entries@[i].entry_type == old(self).entries@[i].entry_type
                    &&& final(self).entries@[i].size == old(self).entries@[i].size
                    &&& final(self).entries@[i].file_permission == old(
                        self,
                    ).entries@[i].file_permission
                },
            final(self).path == old(self).path,
            final(self).selection == old(self).selection,
            final(self).old_selection == old(self).old_selection,
            final(self).notify == old(self).notify,
    {
        let n = self.entries.len();
        for i in 0..n
            invariant
                n == self.entries@.len(),
                n == old(self).entries@.len(),
                forall|j: int|
                    0 <= j < n ==> {
                        &&& j < i ==> !(#[trigger] self.entries@[j]).is_selected
                        &&& j >= i ==> self.entries@[j].is_selected == old(self).entries@[j].is_selected
                        &&& self.entries@[j].name == old(self).entries@[j].name
                        &&& self.entries@[j].entry_type == old(self).entries@[j].entry_type
                        &&& self.entries@[j].size == old(self).entries@[j].size
                        &&& self.entries@[j].file_permission == old(self).entries@[j].file_permission
                    },
                self.path == old(self).path,
                self.selection == old(self).selection,
                self.old_selection == old(self).old_selection,
                self.notify == old(self).notify,
        {
            self.entries[i].is_selected = false;
        }
        assert(self.entries@ =~= old(self).entries@.map_values(
            |e: FsEntry| FsEntry { is_selected: false, ..e },
        ));
    }

    /// Goes to the parent directory, if the pane's path has one: the cursor goes back to
    /// the first row, and the parent's path is returned for the caller to read.
    pub fn navigate_to_parent(&mut self) -> (r: Option<String>)
        ensures
            match path_parent_of(old(self).path@) {
                Some(p) => r matches Some(q) && q@ == p && *final(self) == old(
                    self,
                ).with_cursor_reset(),
                None => r is None && *final(self) == *old(self),
            },
    {
        match path_parent(self.path.as_str()) {
            Some(parent) => {
                self.selection = ListSelection::with_selected(Some(0));
                Some(parent)
            },
            None => None,
        }
    }

    /// Goes into the directory under the cursor, if the cursor is on one: the cursor goes
    /// back to the first row, and the directory's path is returned for the caller to
    /// read.
    pub fn navigate_to_child(&mut self) -> (r: Option<String>)
        ensures
            match old(self).cursor_entry() {
                Some(e) => if e.entry_type == FsEntryType::Directory {
                    &&& r matches Some(q) && q@ == path_joined(old(self).path@, e.name@)
                    &&& *final(self) == old(self).with_cursor_reset()
                } else {
                    r is None && *final(self) == *old(self)
                },
                None => r is None && *final(self) == *old(self),
            },
    {
        let target = match self.get_selected_index_entry() {
            Some(entry) => match entry.entry_type {
                FsEntryType::Directory => Some(path_join(self.path.as_str(), entry.name.as_str())),
                FsEntryType::File => None,
            },
            None => None,
        };
        if target.is_some() {
            self.selection = ListSelection::with_selected(Some(0));
        }
        target
    }

    /// `post` is `pre` with the mark of the entry under the cursor flipped (`pre` itself
    /// when the cursor is on no entry).
    pub open spec fn toggled(pre: FilePane, post: FilePane) -> bool {
        &&& post.entries@ == match pre.selection.selected {
            Some(i) => if i < pre.entries@.len() {
                pre.entries@.update(
                    i as int,
                    FsEntry { is_selected: !pre.entries@[i as int].is_selected, ..pre.entries@[i as int] },
                )
            } else {
                pre.entries@
            },
            None => pre.entries@,
        }
        &&& post.path == pre.path
        &&& post.selection == pre.selection
        &&& post.old_selection == pre.old_selection
        &&& post.notify == pre.notify
    }

    /// Flips the mark of the entry under the cursor.
    pub fn toggle_cursor_mark(&mut self)
        ensures
            Self::toggled(*old(self), *final(self)),
    {
        if let Some(i) = self.selection.selected() {
            if i < self.entries.len() {
                let flipped = !self.entries[i].is_selected;
                self.entries[i].is_selected = flipped;
                assert(self.entries@ =~= old(self).entries@.update(
                    i as int,
                    FsEntry { is_selected: !old(self).entries@[i as int].is_selected, ..old(self).entries@[i as int] },
                ));
            }
        }
    }

    /// The first entry whose name begins with `prefix`.
    pub fn find_by_prefix(&self, prefix: &String) -> (r: Option<usize>)
        ensures
            match first_match(self.entries@, prefix@) {
                Some(i) => r == Some(i as usize),
                None => r is None,
            },
    {
        let n = self.entries.len();
        for i in 0..n
            invariant
                n == self.entries@.len(),
                first_match(self.entries@.take(i as int), prefix@) is None,
        {
            assert(self.entries@.take(i + 1).drop_last() =~= self.entries@.take(i as int));
            if starts_with(self.entries[i].name.as_str(), prefix.as_str()) {
                proof {
                    lemma_first_match_prefix(self.entries@, prefix@, i + 1);
                }
                return Some(i);
            }
        }
        assert(self.entries@.take(n as int) =~= self.entries@);
        None
    }

    /// `post` is `pre` with the entry under the cursor marked (`pre` itself when the
    /// cursor is on no entry).
    pub open spec fn marked_current(pre: FilePane, post: FilePane) -> bool {
        &&& post.entries@ == match pre.selection.selected {
            Some(i) => if i < pre.entries@.len() {
                pre.entries@.update(i as int, FsEntry { is_selected: true, ..pre.entries@[i as int] })
            } else {
                pre.entries@
            },
            None => pre.entries@,
        }
        &&& post.path == pre.path
        &&& post.selection == pre.selection
        &&& post.old_selection == pre.old_selection
        &&& post.notify == pre.notify
    }

    /// Marks the entry under the cursor.
    pub fn select_current(&mut self)
        ensures
            Self::marked_current(*old(self), *final(self)),
    {
        if let Some(i) = self.selection.selected() {
            if i < self.entries.len() {
                self.entries[i].is_selected = true;
                assert(self.entries@ =~= old(self).entries@.update(
                    i as int,
                    FsEntry { is_selected: true, ..old(self).entries@[i as int] },
                ));
            }
        }
    }
}

/// The index of the first of `entries` whose name begins with `prefix`.
pub open spec fn first_match(entries: Seq<FsEntry>, prefix: Seq<char>) -> Option<int>
    decreases entries.len(),
{
    if entries.len() == 0 {
        None
    } else {
        match first_match(entries.drop_last(), prefix) {
            Some(i) => Some(i),
            None => if has_prefix(entries.last().name@, prefix) {
                Some(entries.len() - 1)
            } else {
                None
            },
        }
    }
}

/// A match found in a prefix of the entries is the first match of them all.
pub proof fn lemma_first_match_prefix(entries: Seq<FsEntry>, prefix: Seq<char>, k: int)
    requires
        0 <= k <= entries.len(),
        first_match(entries.take(k), prefix) is Some,
    ensures
        first_match(entries, prefix) == first_match(entries.take(k), prefix),
    decreases entries.len() - k,
{
    if k < entries.len() {
        assert(entries.take(k + 1).drop_last() =~= entries.take(k));
        lemma_first_match_prefix(entries, prefix, k + 1);
    } else {
        assert(entries.take(k) =~= entries);
    }
}
/// `first_match` is the lowest index of an entry whose name begins with `prefix`, and
/// `None` when there is no such entry.
pub proof fn lemma_first_match_is_first(entries: Seq<FsEntry>, prefix: Seq<char>)
    ensures
        match first_match(entries, prefix) {
            Some(i) => {
                &&& 0 <= i < entries.len()
                &&& has_prefix(entries[i].name@, prefix)
                &&& forall|j: int| 0 <= j < i ==> !has_prefix(#[trigger] entries[j].name@, prefix)
            },
            None => forall|j: int| 0 <= j < entries.len() ==> !has_prefix(#[trigger] entries[j].name@, prefix),
        },
    decreases entries.len(),
{
    if entries.len() > 0 {
        lemma_first_match_is_first(entries.drop_last(), prefix);
        assert forall|j: int| 0 <= j < entries.len() - 1 implies entries[j] == entries.drop_last()[j] by {}
    }
}

/// A path is among the marked paths exactly when it is the path of some marked entry.
pub proof fn lemma_marked_paths_members(base: Seq<char>, entries: Seq<FsEntry>, x: Seq<char>)
    ensures
        marked_paths(base, entries).contains(x) <==> exists|j: int|
            0 <= j < entries.len() && (#[trigger] entries[j]).is_selected && x == path_joined(
                base,
                entries[j].name@,
            ),
    decreases entries.len(),
{
    if entries.len() > 0 {
        let rest = entries.drop_last();
        lemma_marked_paths_members(base, rest, x);
        if marked_paths(base, entries).contains(x) {
            if marked_paths(base, rest).contains(x) {
                let j = choose|j: int|
                    0 <= j < rest.len() && (#[trigger] rest[j]).is_selected && x == path_joined(
                        base,
                        rest[j].name@,
                    );
                assert(entries[j] == rest[j]);
            } else {
                let r = marked_paths(base, rest);
                let k = choose|k: int| 0 <= k < marked_paths(base, entries).len() && marked_paths(base, entries)[k] == x;
                if entries.last().is_selected {
                    if k < r.len() {
                        assert(r[k] == x);
                        assert(r.contains(x));
                    }
                    assert(entries[entries.len() - 1] == entries.last());
                } else {
                    assert(r.contains(x));
                }
            }
        } else {
            if exists|j: int|
                0 <= j < entries.len() && (#[trigger] entries[j]).is_selected && x == path_joined(
                    base,
                    entries[j].name@,
                ) {
                let j = choose|j: int|
                    0 <= j < entries.len() && (#[trigger] entries[j]).is_selected && x == path_joined(
                        base,
                        entries[j].name@,
                    );
                if j < entries.len() - 1 {
                    assert(rest[j] == entries[j]);
                    let r = marked_paths(base, rest);
                    assert(r.contains(x));
                    let k = choose|k: int| 0 <= k < r.len() && r[k] == x;
                    if entries.last().is_selected {
                        assert(marked_paths(base, entries)[k] == x);
                    }
                } else {
                    assert(entries.last() == entries[j]);
                    let r = marked_paths(base, rest);
                    assert(marked_paths(base, entries)[r.len() as int] == x);
                }
            }
        }
    }
}

} // verus!
