use tere::Entry;
use tere::EntryKind;
use tere::NavError;
use tere::TereTui;

fn file(name: &str) -> Entry {
    Entry::new(name.to_string(), true, EntryKind::Other)
}

fn folder(name: &str) -> Entry {
    Entry::new(name.to_string(), true, EntryKind::Directory)
}

fn ui_with(names: Vec<Entry>, w: u16, h: u16) -> TereTui {
    let mut ui = TereTui::new(w, h, false);
    ui.change_dir("/t", Ok::<Vec<Entry>, NavError>(names));
    ui
}

#[test]
fn wrap_forward_from_last_lands_on_first() {
    let mut ui = ui_with(vec![file("a"), file("b"), file("c")], 80, 10);
    ui.app_state.move_cursor_to(2);
    assert_eq!(ui.app_state.cursor_pos, 2);
    ui.move_cursor(1, true);
    assert_eq!(ui.app_state.cursor_pos, 0);
}

#[test]
fn wrap_backward_from_first_lands_on_last() {
    let mut ui = ui_with(vec![file("a"), file("b"), file("c")], 80, 10);
    assert_eq!(ui.app_state.cursor_pos, 0);
    ui.move_cursor(-1, true);
    assert_eq!(ui.app_state.cursor_pos, 2);
}

#[test]
fn wrap_by_more_than_length_is_modular() {
    let mut ui = ui_with(vec![file("a"), file("b"), file("c")], 80, 10);
    ui.move_cursor(7, true);
    assert_eq!(ui.app_state.cursor_pos, 1);
    ui.move_cursor(-8, true);
    assert_eq!(ui.app_state.cursor_pos, 2);
}

#[test]
fn no_wrap_clamps_at_both_ends() {
    let mut ui = ui_with(vec![file("a"), file("b"), file("c")], 80, 10);
    ui.move_cursor(-5, false);
    assert_eq!(ui.app_state.cursor_pos, 0);
    ui.move_cursor(100, false);
    assert_eq!(ui.app_state.cursor_pos, 2);
    ui.move_cursor(1, false);
    assert_eq!(ui.app_state.cursor_pos, 2);
}

#[test]
fn move_cursor_on_empty_listing_is_noop() {
    let mut ui = TereTui::new(80, 10, false);
    ui.move_cursor(1, true);
    assert_eq!(ui.app_state.cursor_pos, 0);
    assert_eq!(ui.app_state.scroll_pos, 0);
    ui.move_cursor(-1, false);
    assert_eq!(ui.app_state.cursor_pos, 0);
}

#[test]
fn scroll_follows_cursor_in_small_viewport() {
    // Three files in a two-row viewport: after two steps down the cursor is
    // on "cherry" and the view has scrolled one row so it stays visible.
    let mut ui = ui_with(vec![file("apple"), file("Banana"), file("cherry")], 80, 2);
    assert_eq!(ui.app_state.cursor_pos, 0);
    assert_eq!(ui.app_state.scroll_pos, 0);
    let scrolled_first = ui.move_cursor(1, false);
    assert!(!scrolled_first);
    assert_eq!(ui.app_state.scroll_pos, 0);
    let scrolled_second = ui.move_cursor(1, false);
    assert!(scrolled_second);
    assert_eq!(ui.app_state.cursor_pos, 2);
    assert_eq!(ui.app_state.scroll_pos, 1);
    let bottom = ui.get_item_at_row(1).expect("row 1 occupied");
    assert_eq!(bottom.display_name(), "cherry");
}

#[test]
fn resize_reclamps_scroll_to_keep_cursor_last_visible() {
    // Height 10 -> 3 with the cursor at absolute index 8 and scroll 0:
    // scroll must become 6 so the cursor is the last visible row.
    let names: Vec<Entry> = (0..9).map(|i| file(&format!("f{}", i))).collect();
    let mut ui = ui_with(names, 80, 10);
    ui.app_state.move_cursor_to(8);
    assert_eq!(ui.app_state.cursor_pos, 8);
    assert_eq!(ui.app_state.scroll_pos, 0);
    ui.on_resize(80, 3);
    assert_eq!(ui.app_state.cursor_pos, 8);
    assert_eq!(ui.app_state.scroll_pos, 6);
    assert_eq!(ui.cursor_row(), 2);
}

#[test]
fn resize_drops_blank_trailing_rows() {
    let mut ui = ui_with(vec![file("a"), file("b"), file("c"), file("d")], 80, 1);
    ui.app_state.move_cursor_to(3);
    assert_eq!(ui.app_state.scroll_pos, 3);
    ui.on_resize(80, 10);
    // The whole listing fits again: no blank rows above the end.
    assert_eq!(ui.app_state.scroll_pos, 0);
    assert_eq!(ui.app_state.cursor_pos, 3);
}

#[test]
fn page_up_down_moves_by_viewport_minus_one() {
    let names: Vec<Entry> = (0..20).map(|i| file(&format!("f{:02}", i))).collect();
    let mut ui = ui_with(names, 80, 5);
    ui.on_page_up_down(false);
    assert_eq!(ui.app_state.cursor_pos, 4);
    ui.on_page_up_down(false);
    assert_eq!(ui.app_state.cursor_pos, 8);
    ui.on_page_up_down(true);
    assert_eq!(ui.app_state.cursor_pos, 4);
    // Clamped at the top, never wraps.
    ui.on_page_up_down(true);
    ui.on_page_up_down(true);
    assert_eq!(ui.app_state.cursor_pos, 0);
}

#[test]
fn home_end_jump_to_first_and_last() {
    let names: Vec<Entry> = (0..7).map(|i| file(&format!("f{}", i))).collect();
    let mut ui = ui_with(names, 80, 3);
    ui.on_home_end(false);
    assert_eq!(ui.app_state.cursor_pos, 6);
    ui.on_home_end(true);
    assert_eq!(ui.app_state.cursor_pos, 0);
    assert_eq!(ui.app_state.scroll_pos, 0);
}

#[test]
fn change_into_empty_directory_leaves_no_rows() {
    let mut ui = ui_with(vec![file("a")], 80, 10);
    ui.change_dir("/empty", Ok::<Vec<Entry>, NavError>(vec![]));
    assert_eq!(ui.app_state.ls_output_buf.len(), 0);
    assert_eq!(ui.app_state.cursor_pos, 0);
    assert!(ui.get_item_at_row(0).is_none());
}

#[test]
fn zero_height_viewport_is_treated_as_one_row() {
    let mut ui = ui_with(vec![file("a"), file("b"), file("c")], 80, 0);
    assert_eq!(ui.app_state.main_win_h, 1);
    ui.move_cursor(1, false);
    assert_eq!(ui.app_state.cursor_pos, 1);
    assert_eq!(ui.app_state.scroll_pos, 1);
    ui.on_resize(80, 0);
    assert_eq!(ui.app_state.main_win_h, 1);
}

#[test]
fn directories_sort_before_files() {
    let ui = ui_with(
        vec![file("zz"), folder("bb"), file("aa"), folder("yy")],
        80,
        10,
    );
    let names: Vec<String> = (0..4)
        .map(|i| ui.get_item_at_row(i).unwrap().display_name().clone())
        .collect();
    assert_eq!(names, vec!["bb", "yy", "aa", "zz"]);
    assert!(ui.get_item_at_row(0).unwrap().is_dir());
    assert!(!ui.get_item_at_row(2).unwrap().is_dir());
}

#[test]
fn name_order_is_case_sensitive_by_code_point() {
    let ui = ui_with(vec![file("apple"), file("Banana"), file("cherry")], 80, 10);
    let names: Vec<String> = (0..3)
        .map(|i| ui.get_item_at_row(i).unwrap().display_name().clone())
        .collect();
    assert_eq!(names, vec!["Banana", "apple", "cherry"]);
}
