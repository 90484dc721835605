use arbor::{FilePane, FsEntry, FsEntryType, ListSelection, NOTIFICATION_MILLIS};

fn pane() -> FilePane {
    FilePane::new(
        "/data".to_string(),
        vec![
            FsEntry::new("alpha".to_string(), FsEntryType::Directory, 4096, 0o755),
            FsEntry::new("beta.txt".to_string(), FsEntryType::File, 10, 0o644),
            FsEntry::new("gamma".to_string(), FsEntryType::File, 20, 0o600),
        ],
    )
}

#[test]
fn a_new_pane_has_its_cursor_on_the_first_row() {
    let p = pane();
    assert_eq!(p.selection, ListSelection { selected: Some(0), offset: 0 });
    assert_eq!(p.old_selection.selected, Some(0));
    assert!(p.notify.is_none());
}

#[test]
fn up_from_the_first_row_stays_there() {
    let mut p = pane();
    p.navigate_up();
    assert_eq!(p.selection.selected, Some(0));
    p.selection.selected = None;
    p.navigate_up();
    assert_eq!(p.selection.selected, Some(0));
}

#[test]
fn down_then_up_returns_to_the_row() {
    let mut p = pane();
    p.navigate_down();
    assert_eq!(p.selection.selected, Some(1));
    p.navigate_down();
    p.navigate_up();
    assert_eq!(p.selection.selected, Some(1));
}

#[test]
fn down_without_a_cursor_goes_to_the_first_row() {
    let mut p = pane();
    p.selection = ListSelection::new();
    p.navigate_down();
    assert_eq!(p.selection.selected, Some(0));
}

#[test]
fn list_rows_show_icon_name_mark_and_cursor() {
    let mut p = pane();
    p.entries[1].is_selected = true;
    let rows = FilePane::list_files(&p.entries, Some(2));
    assert_eq!(rows.len(), 3);
    assert_eq!(rows[0].label, "📁 alpha");
    assert_eq!(rows[1].label, "📄 beta.txt");
    assert!(!rows[0].marked && rows[1].marked && !rows[2].marked);
    assert_eq!(rows[0].bar, " ");
    assert_eq!(rows[1].bar, "▌");
    assert!(!rows[0].is_cursor && !rows[1].is_cursor && rows[2].is_cursor);
}

#[test]
fn selected_paths_without_marks_is_the_cursor_entry() {
    let mut p = pane();
    p.selection.selected = Some(1);
    assert!(!p.has_selected());
    let sel = p.get_selected_paths();
    assert!(!sel.resolve);
    assert_eq!(sel.paths, vec!["/data/beta.txt".to_string()]);
    p.selection.selected = Some(9);
    assert!(p.get_selected_paths().paths.is_empty());
}

#[test]
fn selected_paths_with_marks_are_the_marked_entries_in_order() {
    let mut p = pane();
    p.entries[2].is_selected = true;
    p.entries[0].is_selected = true;
    assert!(p.has_selected());
    let sel = p.get_selected_paths();
    assert!(sel.resolve);
    assert_eq!(sel.paths, vec!["/data/alpha".to_string(), "/data/gamma".to_string()]);
}

#[test]
fn deselect_all_clears_every_mark() {
    let mut p = pane();
    p.entries[0].is_selected = true;
    p.entries[2].is_selected = true;
    p.deselect_all();
    assert!(!p.has_selected());
    assert_eq!(p.entries[2].name, "gamma");
    assert_eq!(p.entries[2].file_permission, 0o600);
}

#[test]
fn toggling_twice_restores_the_mark() {
    let mut p = pane();
    p.selection.selected = Some(1);
    p.toggle_cursor_mark();
    assert!(p.entries[1].is_selected);
    p.toggle_cursor_mark();
    assert!(!p.entries[1].is_selected);
}

#[test]
fn entering_a_directory_resets_the_cursor() {
    let mut p = pane();
    p.navigate_down();
    p.navigate_down();
    p.selection.selected = Some(0);
    assert_eq!(p.navigate_to_child(), Some("/data/alpha".to_string()));
    assert_eq!(p.selection.selected, Some(0));
    p.selection.selected = Some(1);
    assert_eq!(p.navigate_to_child(), None);
    assert_eq!(p.selection.selected, Some(1));
}

#[test]
fn going_up_to_the_parent() {
    let mut p = pane();
    p.selection.selected = Some(2);
    assert_eq!(p.navigate_to_parent(), Some("/".to_string()));
    assert_eq!(p.selection.selected, Some(0));
    p.path = "/".to_string();
    p.selection.selected = Some(2);
    assert_eq!(p.navigate_to_parent(), None);
    assert_eq!(p.selection.selected, Some(2));
}

#[test]
fn a_failed_read_keeps_the_listing_and_tells_why() {
    let mut p = pane();
    p.enter_directory("/elsewhere".to_string(), Err("permission denied".to_string()));
    assert_eq!(p.path, "/data");
    assert_eq!(p.entries.len(), 3);
    let n = p.notify.as_ref().unwrap();
    assert_eq!(n.message, "permission denied");
    assert_eq!(n.duration_ms, NOTIFICATION_MILLIS);
}

#[test]
fn a_successful_read_replaces_path_and_listing() {
    let mut p = pane();
    p.enter_directory(
        "/elsewhere".to_string(),
        Ok(vec![FsEntry::new("z".to_string(), FsEntryType::File, 1, 0o644)]),
    );
    assert_eq!(p.path, "/elsewhere");
    assert_eq!(p.entries.len(), 1);
    assert!(p.notify.is_none());
    p.refresh_directory(Ok(Vec::new()));
    assert_eq!(p.path, "/elsewhere");
    assert!(p.entries.is_empty());
}

#[test]
fn find_by_prefix_gives_the_first_match() {
    let p = pane();
    assert_eq!(p.find_by_prefix(&"g".to_string()), Some(2));
    assert_eq!(p.find_by_prefix(&"".to_string()), Some(0));
    assert_eq!(p.find_by_prefix(&"delta".to_string()), None);
}

#[test]
fn a_fresh_notification_stays() {
    let mut p = pane();
    assert_eq!(p.clear_expired_notifications(), None);
    p.show_notification("hello".to_string());
    let reading = p.clear_expired_notifications();
    assert!(reading.unwrap() < NOTIFICATION_MILLIS as u128);
    assert_eq!(p.notify.as_ref().unwrap().message, "hello");
    p.notify.as_mut().unwrap().duration_ms = 0;
    assert!(p.clear_expired_notifications().is_some());
    assert!(p.notify.is_none());
}
