use arbor::{
    expire_notification, Action, Command, FileContent, FileManager, FsEntry, FsEntryType,
    InteractionMode, Key, KeyCode, Notification, PopupType, PreviewContent, Selected, ALT,
    NO_MODIFIERS, PREVIEW_LIMIT, SHIFT,
};
use std::time::Instant;

fn entries() -> Vec<FsEntry> {
    vec![
        FsEntry::new("docs".to_string(), FsEntryType::Directory, 4096, 0o755),
        FsEntry::new("readme.md".to_string(), FsEntryType::File, 100, 0o644),
        FsEntry::new("run.sh".to_string(), FsEntryType::File, 50, 0o755),
    ]
}

fn manager() -> FileManager {
    FileManager::new("/work".to_string(), entries(), entries())
}

fn key(code: KeyCode) -> Key {
    Key { code, modifiers: NO_MODIFIERS }
}

#[test]
fn a_new_manager_focuses_the_right_pane() {
    let m = manager();
    assert_eq!(m.selected_pane, Selected::Right);
    assert!(matches!(m.popup, PopupType::Closed));
    assert_eq!(m.left_pane.path, "/work");
    assert_eq!(m.right_pane.path, "/work");
}

#[test]
fn start_hides_the_left_cursor() {
    let mut m = manager();
    m.start();
    assert_eq!(m.left_pane.selection.selected, None);
    assert_eq!(m.right_pane.selection.selected, Some(0));
}

#[test]
fn tab_twice_restores_focus_and_cursor() {
    let mut m = manager();
    m.start();
    m.handle_key(key(KeyCode::Down));
    m.handle_key(key(KeyCode::Down));
    assert_eq!(m.right_pane.selection.selected, Some(2));
    m.handle_key(key(KeyCode::Tab));
    assert_eq!(m.selected_pane, Selected::Left);
    assert_eq!(m.right_pane.selection.selected, None);
    assert_eq!(m.left_pane.selection.selected, Some(0));
    m.handle_key(key(KeyCode::Tab));
    assert_eq!(m.selected_pane, Selected::Right);
    assert_eq!(m.right_pane.selection.selected, Some(2));
    assert_eq!(m.left_pane.selection.selected, None);
}

#[test]
fn f10_quits() {
    let mut m = manager();
    assert!(matches!(m.handle_key(key(KeyCode::F(10))), Command::Quit));
}

#[test]
fn arrows_move_the_focused_cursor_only() {
    let mut m = manager();
    m.handle_key(key(KeyCode::Down));
    assert_eq!(m.right_pane.selection.selected, Some(1));
    assert_eq!(m.left_pane.selection.selected, Some(0));
    m.handle_key(key(KeyCode::Up));
    assert_eq!(m.right_pane.selection.selected, Some(0));
}

#[test]
fn left_and_alt_up_go_to_the_parent() {
    let mut m = manager();
    m.handle_key(key(KeyCode::Down));
    match m.handle_key(key(KeyCode::Left)) {
        Command::Enter(side, path) => {
            assert_eq!(side, Selected::Right);
            assert_eq!(path, "/");
        }
        other => panic!("unexpected {:?}", other),
    }
    assert_eq!(m.right_pane.selection.selected, Some(0));
    let r = m.handle_key(Key { code: KeyCode::Up, modifiers: ALT });
    assert!(matches!(r, Command::Enter(Selected::Right, _)));
}

#[test]
fn enter_on_a_directory_asks_to_read_it() {
    let mut m = manager();
    match m.handle_key(key(KeyCode::Enter)) {
        Command::Enter(side, path) => {
            assert_eq!(side, Selected::Right);
            assert_eq!(path, "/work/docs");
        }
        other => panic!("unexpected {:?}", other),
    }
    m.enter_pane(Selected::Right, "/work/docs".to_string(), Ok(Vec::new()));
    assert_eq!(m.right_pane.path, "/work/docs");
    assert!(m.right_pane.entries.is_empty());
    m.handle_key(key(KeyCode::Down));
    assert!(matches!(m.handle_key(key(KeyCode::Right)), Command::Nothing));
}

#[test]
fn space_marks_and_escape_unmarks() {
    let mut m = manager();
    m.handle_key(key(KeyCode::Char(' ')));
    m.handle_key(key(KeyCode::Down));
    m.handle_key(key(KeyCode::Char(' ')));
    assert!(m.right_pane.entries[0].is_selected && m.right_pane.entries[1].is_selected);
    assert!(!m.left_pane.entries[0].is_selected);
    let r = m.handle_key(key(KeyCode::Esc));
    assert!(matches!(r, Command::Refresh { left: false, right: true }));
    assert!(!m.right_pane.has_selected());
}

#[test]
fn typing_jumps_to_the_first_matching_name() {
    let listing = vec![
        FsEntry::new("music".to_string(), FsEntryType::Directory, 0, 0o755),
        FsEntry::new("notes".to_string(), FsEntryType::File, 1, 0o644),
        FsEntry::new("nuts".to_string(), FsEntryType::File, 1, 0o644),
    ];
    let mut m = FileManager::new("/work".to_string(), Vec::new(), listing);
    m.handle_key(key(KeyCode::Char('n')));
    assert_eq!(m.right_pane.selection.selected, Some(1));
    m.handle_key(key(KeyCode::Char('u')));
    assert_eq!(m.right_pane.selection.selected, Some(2));
    assert_eq!(m.search_prefix, "nu");
    assert_eq!(m.notify.as_ref().unwrap().message, "nu");
    m.handle_key(key(KeyCode::Char('z')));
    assert_eq!(m.right_pane.selection.selected, Some(2));
    m.handle_key(key(KeyCode::Backspace));
    assert_eq!(m.search_prefix, "nu");
    m.handle_key(key(KeyCode::Esc));
    assert_eq!(m.search_prefix, "");
}

#[test]
fn delete_popup_confirms_with_y_and_closes_with_n() {
    let mut m = manager();
    m.handle_key(key(KeyCode::Down));
    m.handle_key(key(KeyCode::F(8)));
    assert!(matches!(&m.popup, PopupType::Delete(t) if t == "Delete item"));
    m.handle_key(key(KeyCode::Down));
    assert_eq!(m.right_pane.selection.selected, Some(1));
    match m.handle_key(key(KeyCode::Char('y'))) {
        Command::Delete(sel) => {
            assert!(!sel.resolve);
            assert_eq!(sel.paths, vec!["/work/readme.md".to_string()]);
        }
        other => panic!("unexpected {:?}", other),
    }
    assert!(matches!(m.popup, PopupType::Delete(_)));
    m.handle_key(key(KeyCode::Char('n')));
    assert!(matches!(m.popup, PopupType::Closed));
}

#[test]
fn finishing_a_delete() {
    let mut m = manager();
    m.popup = PopupType::Delete("Delete item".to_string());
    let r = m.finish_delete("/work/x", Err("boom".to_string()));
    assert!(matches!(r, Command::Nothing));
    assert_eq!(m.notify.as_ref().unwrap().message, "Failed to delete \"/work/x\": boom");
    assert!(matches!(m.popup, PopupType::Delete(_)));
    let r = m.finish_delete("/work/x", Ok(()));
    assert!(matches!(r, Command::Refresh { left: false, right: true }));
    assert!(matches!(m.popup, PopupType::Closed));
}

#[test]
fn copy_and_move_popups() {
    let mut m = manager();
    m.handle_key(key(KeyCode::F(5)));
    assert!(matches!(&m.popup, PopupType::Copy(t) if t == "Copy selected"));
    assert!(matches!(m.handle_key(key(KeyCode::Enter)), Command::Copy(_)));
    assert!(matches!(m.finish_copy(), Command::Refresh { left: true, right: false }));
    assert!(matches!(m.popup, PopupType::Closed));
    m.handle_key(key(KeyCode::Esc));
    m.handle_key(key(KeyCode::F(6)));
    assert!(matches!(&m.popup, PopupType::Move(t) if t == "Move selected"));
    assert_eq!(m.input_buffer, "docs");
    assert_eq!(m.cursor_pos, 4);
    assert!(matches!(m.handle_key(key(KeyCode::Char('y'))), Command::Move(_)));
    assert!(matches!(m.finish_move(), Command::Refresh { left: true, right: true }));
    assert!(matches!(m.popup, PopupType::Closed));
}

#[test]
fn transfer_lands_in_the_other_pane() {
    let mut m = manager();
    m.left_pane.path = "/backup".to_string();
    assert_eq!(m.transfer_destination("/work/readme.md"), Some("/backup/readme.md".to_string()));
    assert_eq!(m.transfer_destination("/work/.."), None);
}

#[test]
fn shift_f6_opens_the_rename_prompt_with_the_name() {
    let mut m = manager();
    m.handle_key(key(KeyCode::Down));
    m.handle_key(Key { code: KeyCode::F(6), modifiers: SHIFT });
    assert!(matches!(&m.popup, PopupType::Rename(t) if t == "Rename item"));
    assert_eq!(m.input_buffer, "readme.md");
    assert_eq!(m.cursor_pos, 9);
    m.handle_key(key(KeyCode::Backspace));
    m.handle_key(key(KeyCode::Backspace));
    m.handle_key(key(KeyCode::Char('x')));
    match m.handle_key(key(KeyCode::Enter)) {
        Command::Rename { from, to } => {
            assert_eq!(from, "/work/readme.md");
            assert_eq!(to, "/work/readme.x");
        }
        other => panic!("unexpected {:?}", other),
    }
    assert_eq!(m.input_buffer, "");
    assert!(matches!(m.finish_rename(false), Command::Nothing));
    assert!(matches!(m.popup, PopupType::Rename(_)));
    assert!(matches!(m.finish_rename(true), Command::Refresh { left: false, right: true }));
    assert!(matches!(m.popup, PopupType::Closed));
}

#[test]
fn rename_drops_trailing_slashes() {
    let m = manager();
    match m.rename_selected("new//") {
        Command::Rename { from, to } => {
            assert_eq!(from, "/work/docs");
            assert_eq!(to, "/work/new");
        }
        other => panic!("unexpected {:?}", other),
    }
}

#[test]
fn create_prompt_submits_nested_paths() {
    let mut m = manager();
    m.handle_key(key(KeyCode::F(2)));
    assert!(matches!(&m.popup, PopupType::Create(t) if t == "Create Item"));
    for c in "a/b/c/".chars() {
        m.handle_key(key(KeyCode::Char(c)));
    }
    match m.handle_key(key(KeyCode::Enter)) {
        Command::Create { parents, target, is_directory } => {
            assert_eq!(parents, "/work/a/b");
            assert_eq!(target, "/work/a/b/c");
            assert!(is_directory);
        }
        other => panic!("unexpected {:?}", other),
    }
    match m.create_entry("file.txt") {
        Command::Create { parents, target, is_directory } => {
            assert_eq!(parents, "/work");
            assert_eq!(target, "/work/file.txt");
            assert!(!is_directory);
        }
        other => panic!("unexpected {:?}", other),
    }
}

#[test]
fn finishing_a_create() {
    let mut m = manager();
    m.popup = PopupType::Create("Create Item".to_string());
    m.input_buffer = "left over".to_string();
    m.finish_create_parents_failed("no space".to_string());
    assert_eq!(m.notify.as_ref().unwrap().message, "Error creating directories: no space");
    assert!(matches!(m.popup, PopupType::Create(_)));
    let r = m.finish_create(Err("exists".to_string()));
    assert!(matches!(r, Command::Nothing));
    assert_eq!(m.notify.as_ref().unwrap().message, "exists");
    assert!(matches!(m.popup, PopupType::Closed));
    assert_eq!(m.input_buffer, "left over");
    m.popup = PopupType::Create("Create Item".to_string());
    let r = m.finish_create(Ok(()));
    assert!(matches!(r, Command::Refresh { left: true, right: true }));
    assert_eq!(m.input_buffer, "");
    assert!(matches!(m.popup, PopupType::Closed));
}

#[test]
fn refresh_pane_replaces_the_listing() {
    let mut m = manager();
    m.refresh_pane(Selected::Left, Ok(Vec::new()));
    assert!(m.left_pane.entries.is_empty());
    assert_eq!(m.right_pane.entries.len(), 3);
    m.refresh_pane(Selected::Right, Err("gone".to_string()));
    assert_eq!(m.right_pane.entries.len(), 3);
    assert_eq!(m.right_pane.notify.as_ref().unwrap().message, "gone");
}

#[test]
fn notifications_expire_at_their_duration() {
    let mut slot = Some(Notification {
        message: "hi".to_string(),
        created_at: Instant::now(),
        duration_ms: 3000,
    });
    expire_notification(&mut slot, 2999);
    assert!(slot.is_some());
    expire_notification(&mut slot, 3000);
    assert!(slot.is_none());
}

#[test]
fn other_keys_do_nothing() {
    let mut m = manager();
    assert!(matches!(m.handle_key(key(KeyCode::Other)), Command::Nothing));
    assert!(matches!(m.handle_key(key(KeyCode::F(1))), Command::Nothing));
    assert!(matches!(m.popup, PopupType::Closed));
}

#[test]
fn tick_reads_the_clock_for_each_notification() {
    let mut m = manager();
    assert_eq!(m.tick(), (None, None, None));
    m.show_notification("own".to_string());
    m.right_pane.show_notification("pane".to_string());
    m.right_pane.notify.as_mut().unwrap().duration_ms = 0;
    let (left, right, own) = m.tick();
    assert!(left.is_none() && right.is_some() && own.is_some());
    assert!(m.right_pane.notify.is_none());
    assert_eq!(m.notify.as_ref().unwrap().message, "own");
}

#[test]
fn q_quits() {
    let mut m = manager();
    assert!(matches!(m.handle_key(key(KeyCode::Char('q'))), Command::Quit));
}

#[test]
fn j_and_k_move_like_the_arrows() {
    let mut m = manager();
    m.handle_key(key(KeyCode::Char('j')));
    m.handle_key(key(KeyCode::Char('j')));
    assert_eq!(m.right_pane.selection.selected, Some(2));
    m.handle_key(key(KeyCode::Char('k')));
    assert_eq!(m.right_pane.selection.selected, Some(1));
    assert_eq!(m.left_pane.selection.selected, Some(0));
    assert_eq!(m.search_prefix, "");
}

#[test]
fn h_goes_to_the_parent_and_l_opens() {
    let mut m = manager();
    match m.handle_key(key(KeyCode::Char('l'))) {
        Command::Enter(Selected::Right, path) => assert_eq!(path, "/work/docs"),
        other => panic!("unexpected {:?}", other),
    }
    match m.handle_key(key(KeyCode::Char('h'))) {
        Command::Enter(Selected::Right, path) => assert_eq!(path, "/"),
        other => panic!("unexpected {:?}", other),
    }
}

#[test]
fn opening_a_file_asks_for_a_preview() {
    let mut m = manager();
    m.handle_key(key(KeyCode::Down));
    match m.handle_key(key(KeyCode::Right)) {
        Command::Preview { path, limit } => {
            assert_eq!(path, "/work/readme.md");
            assert_eq!(limit, PREVIEW_LIMIT);
        }
        other => panic!("unexpected {:?}", other),
    }
    m.finish_preview(Ok((b"hello".to_vec(), false)));
    assert!(matches!(&m.preview, Some(PreviewContent::File(FileContent::Text(t))) if t == "hello"));
    assert!(matches!(m.handle_key(key(KeyCode::Char('q'))), Command::Nothing));
    assert!(m.preview.is_none());
    m.finish_preview(Ok((vec![0x41, 0x00, 0x42], false)));
    assert!(matches!(&m.preview, Some(PreviewContent::File(FileContent::Binary(_)))));
    m.handle_key(key(KeyCode::Down));
    assert_eq!(m.right_pane.selection.selected, Some(1));
    m.finish_preview(Err("denied".to_string()));
    assert!(m.preview.is_none());
    assert_eq!(m.notify.as_ref().unwrap().message, "denied");
}

#[test]
fn d_r_and_a_open_the_popups() {
    let mut m = manager();
    m.handle_key(key(KeyCode::Char('d')));
    assert!(matches!(&m.popup, PopupType::Delete(t) if t == "Delete item"));
    m.handle_key(key(KeyCode::Esc));
    m.handle_key(key(KeyCode::Down));
    m.handle_key(key(KeyCode::Char('r')));
    assert!(matches!(&m.popup, PopupType::Rename(t) if t == "Rename item"));
    assert_eq!(m.input_buffer, "readme.md");
    assert_eq!(m.cursor_pos, 9);
    m.handle_key(key(KeyCode::Esc));
    m.handle_key(key(KeyCode::Char('a')));
    assert!(matches!(&m.popup, PopupType::Create(t) if t == "Create Item"));
}

#[test]
fn selection_mode_marks_as_the_cursor_moves() {
    let mut m = manager();
    m.handle_key(key(KeyCode::Char('v')));
    assert_eq!(m.mode, InteractionMode::MultiSelect);
    assert!(m.right_pane.entries[0].is_selected);
    m.handle_key(key(KeyCode::Char('j')));
    assert!(m.right_pane.entries[1].is_selected);
    m.handle_key(key(KeyCode::Down));
    assert!(m.right_pane.entries[2].is_selected);
    m.handle_key(key(KeyCode::Char('k')));
    assert!(!m.right_pane.entries[1].is_selected);
    assert_eq!(m.right_pane.selection.selected, Some(1));
    m.handle_key(key(KeyCode::Char('x')));
    assert!(m.clipboard.action == Action::Idle);
    m.handle_key(key(KeyCode::Char('d')));
    assert!(matches!(m.popup, PopupType::Delete(_)));
    match m.handle_key(key(KeyCode::Char('y'))) {
        Command::Delete(sel) => {
            assert!(sel.resolve);
            assert_eq!(sel.paths, vec!["/work/docs".to_string(), "/work/run.sh".to_string()]);
        }
        other => panic!("unexpected {:?}", other),
    }
    m.handle_key(key(KeyCode::Char('n')));
    assert!(matches!(m.handle_key(key(KeyCode::Esc)), Command::Refresh { left: false, right: true }));
    assert_eq!(m.mode, InteractionMode::Normal);
    assert!(!m.right_pane.has_selected());
}

#[test]
fn yank_then_paste_copies_into_the_focused_directory() {
    let mut m = manager();
    assert!(matches!(m.handle_key(key(KeyCode::Char('p'))), Command::Nothing));
    m.handle_key(key(KeyCode::Down));
    m.handle_key(key(KeyCode::Char('y')));
    assert!(m.clipboard.action == Action::Copy);
    assert_eq!(m.clipboard.selection.paths, vec!["/work/readme.md".to_string()]);
    m.enter_pane(Selected::Right, "/target".to_string(), Ok(Vec::new()));
    match m.handle_key(key(KeyCode::Char('p'))) {
        Command::Paste { selection, action } => {
            assert!(action == Action::Copy);
            assert_eq!(selection.paths, vec!["/work/readme.md".to_string()]);
            assert!(!selection.resolve);
        }
        other => panic!("unexpected {:?}", other),
    }
    assert_eq!(m.paste_destination("/work/readme.md"), Some("/target/readme.md".to_string()));
    assert!(matches!(m.finish_paste(), Command::Refresh { left: true, right: true }));
    assert!(m.clipboard.action == Action::Copy);
}

#[test]
fn cut_then_paste_empties_the_clipboard() {
    let mut m = manager();
    m.handle_key(key(KeyCode::Char('x')));
    assert!(m.clipboard.action == Action::Move);
    assert!(matches!(m.handle_key(key(KeyCode::Char('p'))), Command::Paste { action: Action::Move, .. }));
    m.finish_paste();
    assert!(m.clipboard.action == Action::Idle);
    assert!(m.clipboard.selection.paths.is_empty());
}

#[test]
fn only_the_focused_pane_shows_a_cursor() {
    let mut m = manager();
    m.start();
    let keys = [
        KeyCode::Down, KeyCode::Tab, KeyCode::Char('j'), KeyCode::Char('v'), KeyCode::Char('k'),
        KeyCode::Esc, KeyCode::Tab, KeyCode::Tab, KeyCode::Char('d'), KeyCode::Char('n'),
    ];
    for code in keys {
        m.handle_key(key(code));
        let other = match m.selected_pane {
            Selected::Left => &m.right_pane,
            Selected::Right => &m.left_pane,
        };
        assert_eq!(other.selection.selected, None);
    }
    m.refresh_pane(Selected::Left, Ok(Vec::new()));
    m.tick();
    assert_eq!(m.right_pane.selection.selected, None);
}
