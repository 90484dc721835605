use arbor::{FileManager, FsEntry, FsEntryType, Key, KeyCode, PopupType, NO_MODIFIERS};

fn manager() -> FileManager {
    let entries = vec![
        FsEntry::new("notes.txt".to_string(), FsEntryType::File, 12, 0o644),
        FsEntry::new("src".to_string(), FsEntryType::Directory, 4096, 0o755),
    ];
    FileManager::new("/home/user".to_string(), Vec::new(), entries)
}

fn key(code: KeyCode) -> Key {
    Key { code, modifiers: NO_MODIFIERS }
}

#[test]
fn byte_index_counts_utf8_bytes() {
    let m = manager();
    let text = "héllo".to_string();
    assert_eq!(m.byte_index(&text, 0), 0);
    assert_eq!(m.byte_index(&text, 1), 1);
    assert_eq!(m.byte_index(&text, 2), 3);
    assert_eq!(m.byte_index(&text, 5), 6);
    assert_eq!(m.byte_index(&text, 42), 6);
}

#[test]
fn insert_char_goes_in_at_the_cursor() {
    let mut m = manager();
    m.input_buffer = "héllo".to_string();
    m.cursor_pos = 2;
    m.insert_char('X');
    assert_eq!(m.input_buffer, "héXllo");
    assert_eq!(m.cursor_pos, 3);
}

#[test]
fn insert_char_past_the_end_appends() {
    let mut m = manager();
    m.input_buffer = "ab".to_string();
    m.cursor_pos = 9;
    m.insert_char('c');
    assert_eq!(m.input_buffer, "abc");
    assert_eq!(m.cursor_pos, 3);
}

#[test]
fn delete_char_removes_the_char_left_of_the_cursor() {
    let mut m = manager();
    m.input_buffer = "aβc".to_string();
    m.cursor_pos = 2;
    m.delete_char();
    assert_eq!(m.input_buffer, "ac");
    assert_eq!(m.cursor_pos, 2);
}

#[test]
fn delete_char_at_the_start_or_past_the_end_does_nothing() {
    let mut m = manager();
    m.input_buffer = "abc".to_string();
    m.cursor_pos = 0;
    m.delete_char();
    assert_eq!(m.input_buffer, "abc");
    m.cursor_pos = 7;
    m.delete_char();
    assert_eq!(m.input_buffer, "abc");
}

#[test]
fn cursor_moves_stay_within_the_text() {
    let mut m = manager();
    m.input_buffer = "ab".to_string();
    m.cursor_pos = 1;
    m.move_cursor_right();
    assert_eq!(m.cursor_pos, 2);
    m.move_cursor_right();
    assert_eq!(m.cursor_pos, 2);
    m.move_cursor_left();
    m.move_cursor_left();
    m.move_cursor_left();
    assert_eq!(m.cursor_pos, 0);
    m.cursor_pos = 10;
    m.move_cursor_left();
    assert_eq!(m.cursor_pos, 2);
}

#[test]
fn typing_then_backspace_restores_the_prompt() {
    let mut m = manager();
    m.popup = PopupType::Create("Create Item".to_string());
    m.input_buffer = "dir".to_string();
    m.cursor_pos = 1;
    m.handle_key(key(KeyCode::Char('ö')));
    assert_eq!(m.input_buffer, "döir");
    assert_eq!(m.cursor_pos, 2);
    m.handle_key(key(KeyCode::Backspace));
    assert_eq!(m.input_buffer, "dir");
    assert_eq!(m.cursor_pos, 1);
}

#[test]
fn delete_key_removes_the_char_under_the_cursor() {
    let mut m = manager();
    m.popup = PopupType::Rename("Rename item".to_string());
    m.input_buffer = "abc".to_string();
    m.cursor_pos = 1;
    m.handle_key(key(KeyCode::Delete));
    assert_eq!(m.input_buffer, "ac");
    assert_eq!(m.cursor_pos, 1);
}

#[test]
fn right_then_left_in_the_prompt_restores_the_cursor() {
    let mut m = manager();
    m.popup = PopupType::Rename("Rename item".to_string());
    m.input_buffer = "abc".to_string();
    m.cursor_pos = 1;
    m.handle_key(key(KeyCode::Right));
    assert_eq!(m.cursor_pos, 2);
    m.handle_key(key(KeyCode::Left));
    assert_eq!(m.cursor_pos, 1);
}

#[test]
fn escape_closes_the_prompt_and_keeps_its_text() {
    let mut m = manager();
    m.popup = PopupType::Create("Create Item".to_string());
    m.input_buffer = "x".to_string();
    m.handle_key(key(KeyCode::Esc));
    assert!(matches!(m.popup, PopupType::Closed));
    assert_eq!(m.input_buffer, "x");
}

#[test]
fn editing_keys_keep_the_cursor_in_the_text() {
    let mut m = manager();
    m.popup = PopupType::Rename("Rename item".to_string());
    m.input_buffer = "ab".to_string();
    m.cursor_pos = 2;
    for code in [KeyCode::Delete, KeyCode::Right, KeyCode::Backspace, KeyCode::Backspace, KeyCode::Backspace] {
        m.handle_key(key(code));
        assert!((m.cursor_pos as usize) <= m.input_buffer.chars().count());
    }
    assert_eq!(m.input_buffer, "");
    assert_eq!(m.cursor_pos, 0);
}
