use tere::Entry;
use tere::EntryKind;
use tere::NavError;
use tere::TereTui;

fn file(name: &str) -> Entry {
    Entry::new(name.to_string(), true, EntryKind::Other)
}

fn folder(name: &str) -> Entry {
    Entry::new(name.to_string(), true, EntryKind::Directory)
}

#[test]
fn successful_change_dir_resets_everything() {
    let mut ui = TereTui::new(80, 10, false);
    ui.change_dir(
        "/a",
        Ok::<Vec<Entry>, NavError>(vec![file("x"), folder("d"), file("y")]),
    );
    ui.app_state.move_cursor_to(2);
    ui.app_state.advance_search('x');
    let entries = vec![file("q"), file("p")];
    ui.change_dir("/b", Ok::<Vec<Entry>, NavError>(entries));
    assert_eq!(ui.app_state.cursor_pos, 0);
    assert_eq!(ui.app_state.scroll_pos, 0);
    assert!(!ui.app_state.search.active);
    assert_eq!(ui.app_state.search.query.len(), 0);
    assert_eq!(ui.app_state.search.matches.len(), 0);
    assert_eq!(ui.app_state.current_path, "/b");
    assert_eq!(ui.app_state.header_msg, "/b");
    assert_eq!(ui.app_state.info_msg, "");
    assert_eq!(ui.get_item_at_row(0).unwrap().display_name(), "p");
    assert_eq!(ui.get_item_at_row(1).unwrap().display_name(), "q");
}

#[test]
fn failed_change_dir_leaves_state_untouched() {
    let mut ui = TereTui::new(80, 10, false);
    ui.change_dir(
        "/a",
        Ok::<Vec<Entry>, NavError>(vec![file("x"), folder("d"), file("y")]),
    );
    ui.app_state.move_cursor_to(2);
    ui.app_state.advance_search('x');
    let cursor = ui.app_state.cursor_pos;
    let scroll = ui.app_state.scroll_pos;
    let names: Vec<String> = (0..3)
        .map(|i| ui.get_item_at_row(i).unwrap().display_name().clone())
        .collect();
    let query = ui.app_state.search.query.clone();
    let matches = ui.app_state.search.matches.clone();
    ui.change_dir("/b", Err::<Vec<Entry>, NavError>(NavError::NotFound));
    assert_eq!(ui.app_state.cursor_pos, cursor);
    assert_eq!(ui.app_state.scroll_pos, scroll);
    assert_eq!(ui.app_state.current_path, "/a");
    assert!(ui.app_state.search.active);
    assert_eq!(ui.app_state.search.query, query);
    assert_eq!(ui.app_state.search.matches, matches);
    let names_after: Vec<String> = (0..3)
        .map(|i| ui.get_item_at_row(i).unwrap().display_name().clone())
        .collect();
    assert_eq!(names_after, names);
    assert_eq!(ui.app_state.info_msg, "error: no such file or directory");
}

#[test]
fn each_error_kind_has_its_message() {
    assert_eq!(NavError::NotFound.message(), "no such file or directory");
    assert_eq!(NavError::PermissionDenied.message(), "permission denied");
    assert_eq!(NavError::NotADirectory.message(), "not a directory");
    assert_eq!(
        NavError::IoError("device lost".to_string()).message(),
        "device lost"
    );
}

#[test]
fn parent_of_root_is_noop() {
    let ui = TereTui::new(80, 10, false);
    assert_eq!(ui.app_state.current_path, "/");
    assert!(ui.app_state.resolve_target("..").is_none());
    assert_eq!(ui.app_state.cursor_pos, 0);
}

#[test]
fn parent_of_nested_path_drops_last_component() {
    let mut ui = TereTui::new(80, 10, false);
    ui.change_dir("/usr/share/doc", Ok::<Vec<Entry>, NavError>(vec![]));
    let t = ui.app_state.resolve_target("..").expect("has a parent");
    assert_eq!(t, "/usr/share");
    ui.change_dir("/usr", Ok::<Vec<Entry>, NavError>(vec![]));
    let t2 = ui.app_state.resolve_target("..").expect("has a parent");
    assert_eq!(t2, "/");
}

#[test]
fn enter_selected_resolves_to_highlighted_directory() {
    let mut ui = TereTui::new(80, 10, false);
    ui.change_dir(
        "/a",
        Ok::<Vec<Entry>, NavError>(vec![folder("dir1"), file("zz")]),
    );
    let t = ui.app_state.resolve_target("").expect("directory selected");
    assert_eq!(t, "/a/dir1");
    // Selecting a file does nothing.
    ui.app_state.move_cursor_to(1);
    assert!(ui.app_state.resolve_target("").is_none());
}

#[test]
fn enter_selected_on_empty_listing_is_noop() {
    let ui = TereTui::new(80, 10, false);
    assert!(ui.app_state.resolve_target("").is_none());
}

#[test]
fn paths_resolve_absolute_or_relative() {
    let mut ui = TereTui::new(80, 10, false);
    ui.change_dir("/home/me", Ok::<Vec<Entry>, NavError>(vec![]));
    assert_eq!(ui.app_state.resolve_target("/etc").unwrap(), "/etc");
    assert_eq!(ui.app_state.resolve_target("work").unwrap(), "/home/me/work");
    let mut at_root = TereTui::new(80, 10, false);
    at_root.change_dir("/", Ok::<Vec<Entry>, NavError>(vec![]));
    assert_eq!(at_root.app_state.resolve_target("tmp").unwrap(), "/tmp");
}

#[test]
fn folders_only_filters_out_files() {
    let mut ui = TereTui::new(80, 10, true);
    ui.change_dir(
        "/a",
        Ok::<Vec<Entry>, NavError>(vec![file("x"), folder("d2"), file("y"), folder("d1")]),
    );
    assert_eq!(ui.app_state.ls_output_buf.len(), 2);
    assert_eq!(ui.get_item_at_row(0).unwrap().display_name(), "d1");
    assert_eq!(ui.get_item_at_row(1).unwrap().display_name(), "d2");
}

#[test]
fn unrepresentable_names_still_display_and_sort() {
    let odd = Entry::new("b\u{fffd}d".to_string(), false, EntryKind::Other);
    let mut ui = TereTui::new(80, 10, false);
    ui.change_dir("/a", Ok::<Vec<Entry>, NavError>(vec![file("zz"), odd, file("aa")]));
    assert_eq!(ui.get_item_at_row(1).unwrap().display_name(), "b\u{fffd}d");
}

#[test]
fn info_and_error_messages_reach_the_info_line() {
    let mut ui = TereTui::new(80, 10, false);
    ui.info_message("hello");
    assert_eq!(ui.app_state.info_msg, "hello");
    ui.error_message("boom");
    assert_eq!(ui.app_state.info_msg, "error: boom");
}

#[test]
fn update_header_shows_current_path() {
    let mut ui = TereTui::new(80, 10, false);
    ui.change_dir("/x/y", Ok::<Vec<Entry>, NavError>(vec![]));
    ui.update_header();
    assert_eq!(ui.app_state.header_msg, "/x/y");
}

#[test]
fn row_to_buf_idx_offsets_by_scroll() {
    let names: Vec<Entry> = (0..9).map(|i| file(&format!("f{}", i))).collect();
    let mut ui = TereTui::new(80, 3, false);
    ui.change_dir("/t", Ok::<Vec<Entry>, NavError>(names));
    ui.app_state.move_cursor_to(8);
    assert_eq!(ui.app_state.scroll_pos, 6);
    assert_eq!(ui.row_to_buf_idx(1), 7);
    assert_eq!(ui.get_item_at_row(2).unwrap().display_name(), "f8");
}
