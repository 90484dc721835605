//! Properties that span several operations.

use vstd::prelude::*;

use crate::events::{Command, Key, KeyCode};
use crate::input::{action_effect, is_prompt, key_effect, popup_key_effect, PaneAction};
use crate::manager::{cursor_left, cursor_right, FileManager};
use crate::pane::{lemma_first_match_is_first, lemma_marked_paths_members, FilePane, PathSelection};
use crate::platform::path_joined;
use crate::text::{has_prefix, lemma_split_after_slash, lemma_split_last_piece, lemma_split_without_slash, lemma_trim_trailing_slashes, split_on_slash, trim_trailing_slashes};
use crate::selection::ListSelection;
use crate::types::{Action, FsEntry, InteractionMode, PopupType, Selected};

verus! {

/// Pressing Tab twice gives the focus back to the pane that had it, with its cursor
/// back on the row it was on (on the first row if it was on none) at the same scroll
/// offset, and its directory and listing untouched; the other pane ends up showing no
/// cursor.
pub proof fn lemma_tab_twice(m: FileManager)
    ensures
        m.tabbed().tabbed().selected_pane == m.selected_pane,
        m.tabbed().tabbed().focused() == (FilePane {
            selection: ListSelection {
                selected: Some(
                    match m.focused().selection.selected {
                        Some(i) => i,
                        None => 0usize,
                    },
                ),
                offset: m.focused().selection.offset,
            },
            old_selection: m.focused().selection,
            ..m.focused()
        }),
        m.tabbed().tabbed().unfocused().selection.selected is None,
        m.tabbed().tabbed().unfocused().path == m.unfocused().path,
        m.tabbed().tabbed().unfocused().entries == m.unfocused().entries,
        m.tabbed().tabbed().same_but_panes(m),
{
}

/// In a prompt, typing a char and then pressing Backspace gives back the text and the
/// cursor as they were, when the cursor was within the text and the text is shorter
/// than the cursor's range.
pub proof fn lemma_type_then_backspace(
    pre: FileManager,
    ch: char,
    first_modifiers: u8,
    mid: FileManager,
    first_cmd: Command,
    second_modifiers: u8,
    post: FileManager,
    second_cmd: Command,
)
    requires
        is_prompt(pre.popup),
        pre.cursor_pos <= pre.input_buffer@.len(),
        pre.input_buffer@.len() < u16::MAX,
        popup_key_effect(pre, Key { code: KeyCode::Char(ch), modifiers: first_modifiers }, mid, first_cmd),
        popup_key_effect(mid, Key { code: KeyCode::Backspace, modifiers: second_modifiers }, post, second_cmd),
    ensures
        post.input_buffer@ == pre.input_buffer@,
        post.cursor_pos == pre.cursor_pos,
        post.same_but_prompt(pre),
        first_cmd is Nothing && second_cmd is Nothing,
{
    let t = pre.input_buffer@;
    let c = pre.cursor_pos;
    assert(mid.input_buffer@ == t.insert(c as int, ch));
    assert(mid.cursor_pos == c + 1);
    assert(mid.input_buffer@.remove(c as int) =~= t);
}

/// In a prompt, moving the cursor right and then left puts it back, when it was short of
/// the end of the text.
pub proof fn lemma_right_then_left(c: u16, text: Seq<char>)
    requires
        c < text.len() <= u16::MAX,
    ensures
        cursor_left(cursor_right(c, text), text) == c,
{
}

/// Moving the prompt cursor never takes it past the end of a text that fits the
/// cursor's range.
pub proof fn lemma_cursor_stays_in_text(c: u16, text: Seq<char>)
    requires
        text.len() <= u16::MAX,
    ensures
        cursor_right(c, text) <= text.len(),
        cursor_left(c, text) <= text.len(),
{
}

/// Marking the entry under the cursor twice leaves the marks as they were.
pub proof fn lemma_toggle_twice(a: FilePane, b: FilePane, c: FilePane)
    requires
        FilePane::toggled(a, b),
        FilePane::toggled(b, c),
    ensures
        c.entries@ == a.entries@,
        c.path == a.path,
        c.selection == a.selection,
        c.old_selection == a.old_selection,
        c.notify == a.notify,
{
    match a.selection.selected {
        Some(i) => if i < a.entries@.len() {
            assert(c.entries@ =~= a.entries@);
        },
        None => {},
    }
}

/// A row down and then a row up brings the cursor back, unless it was at the last
/// possible index.
pub proof fn lemma_down_then_up(p: FilePane, i: usize)
    requires
        p.selection.selected == Some(i),
        i < usize::MAX,
    ensures
        p.moved_down().moved_up() == p,
{
}

/// A row up and then a row down brings the cursor back, unless it was on the first
/// row.
pub proof fn lemma_up_then_down(p: FilePane, i: usize)
    requires
        p.selection.selected == Some(i),
        i > 0,
    ensures
        p.moved_up().moved_down() == p,
{
}

/// Esc in the panes leaves no entry of the focused pane marked, so that the next batch
/// operation acts on the entry under the cursor alone, and returns to the normal mode.
pub proof fn lemma_esc_clears_marks(pre: FileManager, modifiers: u8, post: FileManager, cmd: Command)
    requires
        pre.preview is None,
        pre.popup is Closed,
        key_effect(pre, Key { code: KeyCode::Esc, modifiers }, post, cmd),
    ensures
        !post.focused().any_marked(),
        post.mode == InteractionMode::Normal,
{
    assert forall|i: int| 0 <= i < post.focused().entries@.len() implies !(
    #[trigger] post.focused().entries@[i]).is_selected by {
        assert(post.focused().entries@[i] == FsEntry { is_selected: false, ..pre.focused().entries@[i] });
    }
}

/// While a popup is open no key touches the panes or moves the focus.
pub proof fn lemma_popup_keys_leave_panes(pre: FileManager, key: Key, post: FileManager, cmd: Command)
    requires
        !(pre.popup is Closed),
        popup_key_effect(pre, key, post, cmd),
    ensures
        post.left_pane == pre.left_pane,
        post.right_pane == pre.right_pane,
        post.selected_pane == pre.selected_pane,
{
}

/// Every action on the panes but switching them leaves the focus where it is and the
/// pane without the focus as it was.
pub proof fn lemma_pane_keys_touch_focused_only(pre: FileManager, action: PaneAction, post: FileManager, cmd: Command)
    requires
        !(action is SwitchPane),
        action_effect(pre, action, post, cmd),
    ensures
        post.selected_pane == pre.selected_pane,
        post.unfocused() == pre.unfocused(),
{
}

/// Nothing is removed, copied or moved without confirmation: a key press asks for a
/// removal only in the delete popup, a copy only in the copy popup and a move only in
/// the move popup, and only when the key is `y` or Enter.
pub proof fn lemma_file_changes_need_confirmation(pre: FileManager, key: Key, post: FileManager, cmd: Command)
    requires
        key_effect(pre, key, post, cmd),
        cmd is Delete || cmd is Copy || cmd is Move,
    ensures
        key.code == KeyCode::Char('y') || key.code == KeyCode::Enter,
        cmd is Delete ==> pre.popup is Delete,
        cmd is Copy ==> pre.popup is Copy,
        cmd is Move ==> pre.popup is Move,
{
}

/// In a prompt, no editing key takes the cursor past the end of the text: if it was
/// within the text before, it is within the text after (for texts shorter than the
/// cursor's range). Only Enter, which empties the prompt, leaves the cursor where it was.
pub proof fn lemma_editing_keeps_cursor_in_text(pre: FileManager, key: Key, post: FileManager, cmd: Command)
    requires
        is_prompt(pre.popup),
        popup_key_effect(pre, key, post, cmd),
        key.code != KeyCode::Enter,
        pre.cursor_pos <= pre.input_buffer@.len(),
        pre.input_buffer@.len() < u16::MAX,
    ensures
        post.cursor_pos <= post.input_buffer@.len(),
{
}

/// Only the pane with the focus shows a cursor: the other pane's cursor is on no row.
pub open spec fn cursor_only_in_focus(m: FileManager) -> bool {
    m.unfocused().selection.selected is None
}

/// A file manager as `FileManager::new` makes it (focus on the right pane) shows a
/// cursor only in the focused pane once `FileManager::start` has run.
pub proof fn lemma_start_gives_cursor_only_in_focus(m: FileManager)
    requires
        m.selected_pane == Selected::Right,
    ensures
        cursor_only_in_focus(m.started()),
{
}

/// No key press gives the pane without the focus a cursor.
pub proof fn lemma_keys_keep_cursor_only_in_focus(pre: FileManager, key: Key, post: FileManager, cmd: Command)
    requires
        cursor_only_in_focus(pre),
        key_effect(pre, key, post, cmd),
    ensures
        cursor_only_in_focus(post),
{
}

/// Nothing that keeps the focus and both cursors (directory reads, the outcomes of file
/// operations and previews, notifications and ticks all do) gives the pane without the
/// focus a cursor.
pub proof fn lemma_outcomes_keep_cursor_only_in_focus(pre: FileManager, post: FileManager)
    requires
        cursor_only_in_focus(pre),
        post.keeps_cursors(pre),
    ensures
        cursor_only_in_focus(post),
{
}

/// What a batch operation acts on in pane `p`, said directly: when no entry at all is
/// marked, the entry under the cursor alone, as it is (nothing when the cursor is on no
/// entry); when some entry is marked, whatever its index, exactly the paths of the marked
/// entries, to be made canonical.
pub open spec fn acts_on(p: FilePane, sel: PathSelection) -> bool {
    let d = p.path@;
    if exists|i: int| 0 <= i < p.entries@.len() && #[trigger] p.entries@[i].is_selected {
        &&& sel.resolve
        &&& forall|x: Seq<char>|
            sel.paths.deep_view().contains(x) <==> exists|j: int|
                0 <= j < p.entries@.len() && (#[trigger] p.entries@[j]).is_selected && x
                    == path_joined(d, p.entries@[j].name@)
    } else {
        &&& !sel.resolve
        &&& sel.paths.deep_view() == match p.selection.selected {
            Some(i) => if i < p.entries@.len() {
                seq![path_joined(d, p.entries@[i as int].name@)]
            } else {
                Seq::<Seq<char>>::empty()
            },
            None => Seq::<Seq<char>>::empty(),
        }
    }
}

/// The paths a pane selects for a batch operation are what [`acts_on`] says: a mark on
/// any entry, the first one included, makes the operation act on the marked entries and
/// on nothing else.
pub proof fn lemma_selection_acts_on(p: FilePane, sel: PathSelection)
    requires
        p.selects(sel),
    ensures
        acts_on(p, sel),
{
    if exists|i: int| 0 <= i < p.entries@.len() && #[trigger] p.entries@[i].is_selected {
        assert(p.any_marked());
        assert forall|x: Seq<char>|
            sel.paths.deep_view().contains(x) <==> exists|j: int|
                0 <= j < p.entries@.len() && (#[trigger] p.entries@[j]).is_selected && x
                    == path_joined(p.path@, p.entries@[j].name@) by {
            lemma_marked_paths_members(p.path@, p.entries@, x);
        }
    }
}

/// Confirming the delete, copy or move popup (`y` or Enter) acts on what the focused
/// pane selects (see [`acts_on`]), never on the other pane's selection.
pub proof fn lemma_confirmation_acts_on_focused_pane(pre: FileManager, key: Key, post: FileManager, cmd: Command)
    requires
        pre.preview is None,
        key.code == KeyCode::Char('y') || key.code == KeyCode::Enter,
        key_effect(pre, key, post, cmd),
    ensures
        pre.popup is Delete ==> (cmd matches Command::Delete(sel) && acts_on(pre.focused(), sel)),
        pre.popup is Copy ==> (cmd matches Command::Copy(sel) && acts_on(pre.focused(), sel)),
        pre.popup is Move ==> (cmd matches Command::Move(sel) && acts_on(pre.focused(), sel)),
{
    match cmd {
        Command::Delete(sel) => lemma_selection_acts_on(pre.focused(), sel),
        Command::Copy(sel) => lemma_selection_acts_on(pre.focused(), sel),
        Command::Move(sel) => lemma_selection_acts_on(pre.focused(), sel),
        _ => {},
    }
}

/// Yanking (`y`) or cutting (`x`) puts on the clipboard what the focused pane selects
/// (see [`acts_on`]), to be copied or moved.
pub proof fn lemma_clipboard_takes_focused_selection(pre: FileManager, key: Key, post: FileManager, cmd: Command)
    requires
        pre.preview is None,
        pre.popup is Closed,
        pre.mode == InteractionMode::Normal,
        key.code == KeyCode::Char('y') || key.code == KeyCode::Char('x'),
        key_effect(pre, key, post, cmd),
    ensures
        acts_on(pre.focused(), post.clipboard.selection),
        post.clipboard.action == (if key.code == KeyCode::Char('y') {
            Action::Copy
        } else {
            Action::Move
        }),
        post.left_pane == pre.left_pane && post.right_pane == pre.right_pane,
{
    lemma_selection_acts_on(pre.focused(), post.clipboard.selection);
}

/// Submitting the rename prompt renames the entry under the focused pane's cursor in
/// place: both the old and the new path lie in the focused pane's own directory, and the
/// new name is the typed text without trailing `/` (see
/// [`lemma_trim_trailing_slashes`](crate::text::lemma_trim_trailing_slashes)).
pub proof fn lemma_rename_stays_in_its_directory(pre: FileManager, modifiers: u8, post: FileManager, cmd: Command)
    requires
        pre.preview is None,
        pre.popup is Rename,
        key_effect(pre, Key { code: KeyCode::Enter, modifiers }, post, cmd),
    ensures
        match pre.focused().selection.selected {
            Some(i) => if i < pre.focused().entries@.len() {
                cmd matches Command::Rename { from, to } && from@ == path_joined(
                    pre.focused().path@,
                    pre.focused().entries@[i as int].name@,
                ) && to@ == path_joined(pre.focused().path@, trim_trailing_slashes(pre.input_buffer@))
            } else {
                cmd is Nothing
            },
            None => cmd is Nothing,
        },
        post.input_buffer@.len() == 0,
{
}

/// Submitting the create prompt asks for a directory exactly when the text ends with
/// `/`; the new entry is named by the text after the last `/` (trailing `/` aside), and
/// is made in the directory named by what comes before it. A text without `/` makes the
/// entry right in the focused pane's directory.
pub proof fn lemma_create_reads_the_prompt(pre: FileManager, modifiers: u8, post: FileManager, cmd: Command)
    requires
        pre.preview is None,
        pre.popup is Create,
        key_effect(pre, Key { code: KeyCode::Enter, modifiers }, post, cmd),
    ensures
        cmd matches Command::Create { parents, target, is_directory } && {
            let t = pre.input_buffer@;
            &&& is_directory == (t.len() > 0 && t.last() == '/')
            &&& exists|k: int, n: Seq<char>|
                #![trigger t.take(k), path_joined(parents@, n)]
                0 <= n.len() <= k <= t.len() && (forall|j: int| k <= j < t.len() ==> t[j] == '/') && (
                k == 0 || t[k - 1] != '/') && t.take(k).skip(k - n.len()) == n && !n.contains('/')
                    && (n.len() == k || t[k - n.len() - 1] == '/') && target@ == path_joined(
                    parents@,
                    n,
                )
            &&& !t.contains('/') ==> parents@ == pre.focused().path@ && target@ == path_joined(
                pre.focused().path@,
                t,
            )
        },
{
    let t = pre.input_buffer@;
    let trimmed = trim_trailing_slashes(t);
    lemma_trim_trailing_slashes(t);
    lemma_split_last_piece(trimmed);
    let k = trimmed.len() as int;
    let n = split_on_slash(trimmed).last();
    assert(t.take(k).skip(k - n.len()) =~= trimmed.skip(k - n.len()));
    if n.len() < k {
        assert(t[k - n.len() - 1] == trimmed[k - n.len() - 1]);
    }
    if k > 0 {
        assert(t[k - 1] == trimmed.last());
    }
    if !t.contains('/') {
        if t.len() > 0 {
            assert(t.last() != '/') by {
                assert(t[t.len() - 1] == t.last());
            }
        }
        assert(trimmed == t);
        lemma_split_without_slash(t);
        assert(split_on_slash(t).drop_last() =~= Seq::<Seq<char>>::empty());
    }
}

/// Typing a char that no command is bound to moves the cursor to the first entry
/// (lowest index, wherever the cursor was) whose name begins with the search text
/// grown by that char; with no such entry the cursor stays.
pub proof fn lemma_search_goes_to_first_match(pre: FileManager, c: char, modifiers: u8, post: FileManager, cmd: Command)
    requires
        pre.preview is None,
        pre.popup is Closed,
        pre.mode == InteractionMode::Normal,
        c != 'q' && c != 'j' && c != 'k' && c != 'h' && c != 'l' && c != 'd' && c != 'r' && c
            != 'a' && c != 'y' && c != 'x' && c != 'p' && c != 'v' && c != ' ',
        key_effect(pre, Key { code: KeyCode::Char(c), modifiers }, post, cmd),
    ensures
        post.search_prefix@ == pre.search_prefix@.push(c),
        post.selected_pane == pre.selected_pane,
        forall|i: int|
            0 <= i < pre.focused().entries@.len() && has_prefix(
                pre.focused().entries@[i].name@,
                pre.search_prefix@.push(c),
            ) && (forall|j: int|
                0 <= j < i ==> !has_prefix(
                    #[trigger] pre.focused().entries@[j].name@,
                    pre.search_prefix@.push(c),
                )) ==> post.focused().selection.selected == Some(i as usize),
        (forall|j: int|
            0 <= j < pre.focused().entries@.len() ==> !has_prefix(
                #[trigger] pre.focused().entries@[j].name@,
                pre.search_prefix@.push(c),
            )) ==> post.focused().selection == pre.focused().selection,
{
    let prefix = pre.search_prefix@.push(c);
    let es = pre.focused().entries@;
    lemma_first_match_is_first(es, prefix);
    assert forall|i: int|
        0 <= i < es.len() && has_prefix(es[i].name@, prefix) && (forall|j: int|
            0 <= j < i ==> !has_prefix(#[trigger] es[j].name@, prefix)) implies post.focused().selection.selected
        == Some(i as usize) by {
        match crate::pane::first_match(es, prefix) {
            Some(f) => {
                if f < i {
                    assert(!has_prefix(es[f].name@, prefix));
                } else if f > i {
                    assert(!has_prefix(es[i].name@, prefix));
                }
            },
            None => {
                assert(!has_prefix(es[i].name@, prefix));
            },
        }
    }
}

/// Creating `a/n` (with `n` a plain name) makes `n` inside the entry that creating `a`
/// alone would make: the pieces before the last one name nested directories, one inside
/// the other, as `mkdir -p` does.
pub proof fn lemma_create_nests(m: FileManager, a: Seq<char>, n: Seq<char>, inner: Command, outer: Command)
    requires
        n.len() > 0,
        !n.contains('/'),
        a.len() == 0 || a.last() != '/',
        m.creates(a + seq!['/'] + n, inner),
        m.creates(a, outer),
    ensures
        inner matches Command::Create { parents, target, is_directory } && !is_directory && (
        outer matches Command::Create { parents: p2, target: t2, is_directory: d2 } && parents@
            == t2@ && target@ == path_joined(t2@, n)),
{
    let t = a + seq!['/'] + n;
    assert(t.last() == n.last());
    assert(n.last() != '/') by {
        assert(n[n.len() - 1] == n.last());
    }
    assert(trim_trailing_slashes(t) == t);
    assert(trim_trailing_slashes(a) == a);
    lemma_split_after_slash(a, n);
    assert(split_on_slash(t).drop_last() =~= split_on_slash(a));
    let pieces = split_on_slash(a);
    lemma_split_last_piece(a);
    assert(pieces.drop_last().push(pieces.last()) =~= pieces);
}

/// A mark on any entry, the first one included, counts: `FilePane::has_selected`
/// (which returns `any_marked`) is true as soon as one entry is marked, and false only
/// when none is.
pub proof fn lemma_every_mark_counts(p: FilePane, i: int)
    ensures
        0 <= i < p.entries@.len() && p.entries@[i].is_selected ==> p.any_marked(),
        !p.any_marked() ==> forall|j: int| 0 <= j < p.entries@.len() ==> !(#[trigger] p.entries@[j]).is_selected,
{
}

} // verus!
