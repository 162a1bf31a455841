use tere::Entry;
use tere::EntryKind;
use tere::NavError;
use tere::TereTui;

fn file(name: &str) -> Entry {
    Entry::new(name.to_string(), true, EntryKind::Other)
}

fn ui_with(names: Vec<Entry>, h: u16) -> TereTui {
    let mut ui = TereTui::new(80, h, false);
    ui.change_dir("/t", Ok::<Vec<Entry>, NavError>(names));
    ui
}

#[test]
fn matches_are_ascending_prefix_matches() {
    // Sorted listing: ["aa", "ab", "ba"].
    let mut ui = ui_with(vec![file("ba"), file("aa"), file("ab")], 10);
    let auto = ui.app_state.advance_search('a');
    assert!(!auto);
    assert!(ui.app_state.search.active);
    assert_eq!(ui.app_state.search.matches, vec![0, 1]);
}

#[test]
fn advance_then_erase_restores_matches() {
    let mut ui = ui_with(vec![file("ba"), file("aa"), file("ab")], 10);
    ui.app_state.advance_search('a');
    let before = ui.app_state.search.matches.clone();
    assert_eq!(before, vec![0, 1]);
    ui.app_state.advance_search('b');
    assert_eq!(ui.app_state.search.matches, vec![1]);
    ui.app_state.erase_search_char();
    assert_eq!(ui.app_state.search.matches, before);
    assert_eq!(ui.app_state.search.query, vec!['a']);
}

#[test]
fn search_an_over_sample_names_is_case_sensitive_prefix() {
    // The fixed match rule is a case-sensitive prefix: "an" matches none of
    // "apple", "Banana", "cherry", so no auto-select fires.
    let mut ui = ui_with(vec![file("apple"), file("Banana"), file("cherry")], 10);
    let first = ui.on_search_char('a');
    // Sorted listing is ["Banana", "apple", "cherry"]: one match already.
    assert!(first);
    let mut ui2 = ui_with(vec![file("apple"), file("Banana"), file("cherry")], 10);
    ui2.app_state.advance_search('a');
    assert_eq!(ui2.app_state.search.matches, vec![1]);
    let auto = ui2.app_state.advance_search('n');
    assert!(!auto);
    assert_eq!(ui2.app_state.search.matches, Vec::<usize>::new());
}

#[test]
fn single_match_auto_selects_and_moves_cursor() {
    let mut ui = ui_with(vec![file("alpha"), file("beta"), file("gamma")], 10);
    let auto = ui.on_search_char('g');
    assert!(auto);
    assert_eq!(ui.app_state.search.matches, vec![2]);
    assert_eq!(ui.app_state.cursor_pos, 2);
}

#[test]
fn empty_query_stays_after_match_set_empties() {
    let mut ui = ui_with(vec![file("aa"), file("bb")], 10);
    ui.app_state.advance_search('z');
    assert!(ui.app_state.search.active);
    assert_eq!(ui.app_state.search.matches.len(), 0);
    assert_eq!(ui.app_state.search.query, vec!['z']);
}

#[test]
fn erase_on_empty_query_is_noop() {
    let mut ui = ui_with(vec![file("aa")], 10);
    ui.erase_search_char();
    assert!(!ui.app_state.search.active);
    assert_eq!(ui.app_state.search.query.len(), 0);
}

#[test]
fn erase_keeps_search_active_on_empty_query() {
    let mut ui = ui_with(vec![file("aa"), file("ab")], 10);
    ui.app_state.advance_search('a');
    ui.app_state.erase_search_char();
    assert!(ui.app_state.search.active);
    assert_eq!(ui.app_state.search.query.len(), 0);
    // An empty query matches every entry.
    assert_eq!(ui.app_state.search.matches, vec![0, 1]);
}

#[test]
fn clear_search_resets_everything() {
    let mut ui = ui_with(vec![file("aa"), file("ab")], 10);
    ui.app_state.advance_search('a');
    ui.clear_search();
    assert!(!ui.app_state.search.active);
    assert_eq!(ui.app_state.search.query.len(), 0);
    assert_eq!(ui.app_state.search.matches.len(), 0);
    assert!(ui.app_state.search.current_match_pointer.is_none());
}

#[test]
fn arrow_keys_jump_between_matches_with_wraparound() {
    // Sorted: ["aa", "ab", "ba", "bb"]; query "a" matches 0 and 1.
    let mut ui = ui_with(vec![file("bb"), file("ba"), file("ab"), file("aa")], 10);
    ui.app_state.advance_search('a');
    assert_eq!(ui.app_state.search.matches, vec![0, 1]);
    assert_eq!(ui.app_state.cursor_pos, 0);
    ui.on_arrow_key(false);
    assert_eq!(ui.app_state.cursor_pos, 1);
    assert_eq!(ui.app_state.search.current_match_pointer, Some(1));
    ui.on_arrow_key(false);
    // No match after index 1: wraps to the first match.
    assert_eq!(ui.app_state.cursor_pos, 0);
    assert_eq!(ui.app_state.search.current_match_pointer, Some(0));
    ui.on_arrow_key(true);
    // No match before index 0: wraps to the last match.
    assert_eq!(ui.app_state.cursor_pos, 1);
}

#[test]
fn adjacent_match_with_single_match_stays_there() {
    let mut ui = ui_with(vec![file("aa"), file("bb")], 10);
    ui.app_state.advance_search('b');
    assert_eq!(ui.app_state.search.matches, vec![1]);
    ui.app_state.move_cursor_to_adjacent_match(1);
    assert_eq!(ui.app_state.cursor_pos, 1);
    ui.app_state.move_cursor_to_adjacent_match(1);
    assert_eq!(ui.app_state.cursor_pos, 1);
    assert_eq!(ui.app_state.search.current_match_pointer, Some(0));
}

#[test]
fn adjacent_match_with_no_matches_is_noop() {
    let mut ui = ui_with(vec![file("aa"), file("bb")], 10);
    ui.app_state.advance_search('z');
    ui.app_state.move_cursor_to_adjacent_match(1);
    assert_eq!(ui.app_state.cursor_pos, 0);
    assert!(ui.app_state.search.current_match_pointer.is_none());
}

#[test]
fn page_and_home_do_nothing_while_searching() {
    let mut ui = ui_with(vec![file("aa"), file("ab"), file("ac")], 2);
    ui.app_state.advance_search('a');
    let moved = ui.on_page_up_down(false);
    assert!(!moved);
    assert_eq!(ui.app_state.cursor_pos, 0);
    let moved2 = ui.on_home_end(false);
    assert!(!moved2);
    assert_eq!(ui.app_state.cursor_pos, 0);
}

#[test]
fn unhighlight_row_underlines_query_length_while_searching() {
    let mut ui = ui_with(vec![file("aa"), file("ab")], 10);
    ui.app_state.advance_search('a');
    let p = ui.unhighlight_row(0);
    assert_eq!(p.underline_len, 1);
    assert!(!p.highlighted);
    assert_eq!(p.text, "aa");
    let q = ui.highlight_row_exclusive(1);
    assert!(q.highlighted);
    assert_eq!(q.underline_len, 0);
    assert_eq!(q.text, "ab");
}

#[test]
fn row_paint_beyond_listing_is_blank() {
    let ui = ui_with(vec![file("aa")], 10);
    let p = ui.unhighlight_row(5);
    assert_eq!(p.text, "");
    assert!(!p.bold);
}
