use mdall::editor::MdApp;
use mdall::search::search_text_offsets;
use mdall::state::ViewMode;

fn app_with(source: &str, query: &str) -> MdApp {
    let mut app = MdApp::new();
    app.source = source.to_string();
    app.search_query = query.to_string();
    app
}

#[test]
fn matches_are_leftmost_and_non_overlapping() {
    assert_eq!(search_text_offsets("abcabc", "bc", true), vec![1, 4]);
    assert_eq!(search_text_offsets("aaaa", "aa", true), vec![0, 2]);
    assert_eq!(search_text_offsets("aaa", "aa", true), vec![0]);
    assert_eq!(search_text_offsets("abc", "", true), Vec::<usize>::new());
    assert_eq!(search_text_offsets("abc", "abcd", true), Vec::<usize>::new());
}

#[test]
fn matches_are_byte_offsets() {
    assert_eq!(search_text_offsets("é-é", "é", true), vec![0, 3]);
    assert_eq!(search_text_offsets("日本語と日本", "日本", true), vec![0, 12]);
}

#[test]
fn case_insensitive_search_lowercases_both_sides() {
    assert_eq!(search_text_offsets("Hello hello", "HELLO", false), vec![0, 6]);
    assert_eq!(search_text_offsets("Hello hello", "HELLO", true), Vec::<usize>::new());
}

#[test]
fn compute_search_matches_stores_offsets() {
    let mut app = app_with("Foo foo FOO", "foo");
    app.compute_search_matches();
    assert_eq!(app.search_matches, vec![0, 4, 8]);
    app.search_case_sensitive = true;
    app.compute_search_matches();
    assert_eq!(app.search_matches, vec![4]);
    app.search_query = String::new();
    app.compute_search_matches();
    assert!(app.search_matches.is_empty());
}

#[test]
fn find_next_wraps_around() {
    let mut app = app_with("ab ab ab", "ab");
    app.do_find_next();
    assert_eq!(app.search_match_idx, 1);
    assert_eq!(app.status_msg, "Match 2 of 3");
    assert_eq!(app.selection_anchor, 3);
    assert_eq!(app.cursor_pos, 5);
    app.do_find_next();
    app.do_find_next();
    assert_eq!(app.search_match_idx, 0);
    assert_eq!(app.status_msg, "Match 1 of 3");
}

#[test]
fn find_prev_wraps_to_the_last_match() {
    let mut app = app_with("ab ab ab", "ab");
    app.do_find_prev();
    assert_eq!(app.search_match_idx, 2);
    assert_eq!(app.selection_anchor, 6);
    assert_eq!(app.cursor_pos, 8);
}

#[test]
fn find_next_then_prev_comes_back() {
    let mut app = app_with("x y x y x", "x");
    app.search_match_idx = 1;
    app.do_find_next();
    assert_eq!(app.search_match_idx, 2);
    app.do_find_prev();
    assert_eq!(app.search_match_idx, 1);
    app.search_match_idx = 0;
    app.do_find_prev();
    app.do_find_next();
    assert_eq!(app.search_match_idx, 0);
}

#[test]
fn find_reports_not_found_and_ignores_empty_query() {
    let mut app = app_with("abc", "zz");
    app.do_find_next();
    assert_eq!(app.status_msg, "Not found");
    let mut app = app_with("abc", "");
    app.status_msg = "keep".to_string();
    app.do_find_next();
    app.do_find_prev();
    assert_eq!(app.status_msg, "keep");
}

#[test]
fn jump_to_match_converts_bytes_to_characters() {
    let mut app = app_with("aé b é", "é");
    app.view_mode = ViewMode::Editor;
    app.compute_search_matches();
    assert_eq!(app.search_matches, vec![1, 6]);
    app.search_match_idx = 1;
    app.jump_to_match();
    assert_eq!(app.selection_anchor, 5);
    assert_eq!(app.cursor_pos, 6);
    assert_eq!(app.view_mode, ViewMode::Split);
    assert!(app.request_source_focus);
    assert_eq!(app.status_msg, "Match 2 of 2");
    app.search_match_idx = 5;
    app.jump_to_match();
    assert_eq!(app.status_msg, "No match");
}

#[test]
fn replace_current_replaces_and_moves_on() {
    let mut app = app_with("foo bar foo", "foo");
    app.search_case_sensitive = true;
    app.replace_query = "baz".to_string();
    app.do_find_next();
    assert_eq!(app.search_match_idx, 1);
    app.do_replace_current();
    assert_eq!(app.source, "foo bar baz");
    assert_eq!(app.search_matches, vec![0]);
    assert_eq!(app.search_match_idx, 0);
    assert_eq!(app.status_msg, "Match 1 of 1");
    app.do_replace_current();
    assert_eq!(app.source, "baz bar baz");
    assert!(app.search_matches.is_empty());
    assert_eq!(app.status_msg, "All occurrences replaced");
    assert!(app.modified);
}

#[test]
fn replace_all_replaces_every_occurrence() {
    let mut app = app_with("a-b-a", "a");
    app.search_case_sensitive = true;
    app.replace_query = "xyz".to_string();
    app.search_match_idx = 1;
    app.do_replace_all();
    assert_eq!(app.source, "xyz-b-xyz");
    assert_eq!(app.status_msg, "Replaced 2 occurrences");
    assert!(app.search_matches.is_empty());
    assert_eq!(app.search_match_idx, 0);
    assert!(app.modified);
}

#[test]
fn replace_all_singular_and_not_found() {
    let mut app = app_with("one two", "two");
    app.replace_query = "2".to_string();
    app.do_replace_all();
    assert_eq!(app.source, "one 2");
    assert_eq!(app.status_msg, "Replaced 1 occurrence");
    app.do_replace_all();
    assert_eq!(app.status_msg, "Not found");
    assert_eq!(app.source, "one 2");
}

#[test]
fn replace_all_with_multibyte_text() {
    let mut app = app_with("é é é", "é");
    app.search_case_sensitive = true;
    app.replace_query = "e".to_string();
    app.do_replace_all();
    assert_eq!(app.source, "e e e");
    let mut app = app_with("ab", "b");
    app.search_case_sensitive = true;
    app.replace_query = "日本".to_string();
    app.do_replace_all();
    assert_eq!(app.source, "a日本");
}

#[test]
fn replace_all_runs_case_insensitive_search() {
    let mut app = app_with("Cat cat CAT", "cat");
    app.replace_query = "dog".to_string();
    app.do_replace_all();
    assert_eq!(app.source, "dog dog dog");
    assert_eq!(app.status_msg, "Replaced 3 occurrences");
}

#[test]
fn case_insensitive_matches_are_offsets_in_the_source() {
    // 'İ' lower-cases to two characters; the match of "x" is still at byte 2 of the source.
    assert_eq!(search_text_offsets("\u{130}x", "x", false), vec![2]);
    let mut app = app_with("\u{130}x", "X");
    app.do_find_next();
    assert_eq!(app.search_matches, vec![2]);
    assert_eq!(app.selection_anchor, 1);
    assert_eq!(app.cursor_pos, 2);
}

#[test]
fn case_insensitive_replace_all_with_kelvin_sign() {
    // The Kelvin sign (3 bytes) lower-cases to 'k': each 'k' of the source is one match.
    assert_eq!(search_text_offsets("kk", "\u{212A}", false), vec![0, 1]);
    let mut app = app_with("kk", "\u{212A}");
    app.replace_query = "x".to_string();
    app.do_replace_all();
    assert_eq!(app.source, "xx");
    assert_eq!(app.status_msg, "Replaced 2 occurrences");
    let mut app = app_with("\u{212A}\u{212A}", "k");
    app.replace_query = "x".to_string();
    app.do_replace_all();
    assert_eq!(app.source, "xx");
}

#[test]
fn replace_all_with_empty_query_does_nothing() {
    let mut app = app_with("abc", "");
    app.status_msg = "keep".to_string();
    app.do_replace_all();
    assert_eq!(app.source, "abc");
    assert_eq!(app.status_msg, "keep");
}

#[test]
fn search_query_changed_restarts_at_first_match() {
    let mut app = app_with("x x", "x");
    app.search_match_idx = 1;
    app.search_query_changed();
    assert_eq!(app.search_match_idx, 0);
    assert_eq!(app.search_matches, vec![0, 2]);
}

#[test]
fn toggling_case_recomputes_matches() {
    let mut app = app_with("X x", "x");
    app.search_case_sensitive = false;
    app.toggle_case_sensitive();
    assert!(app.search_case_sensitive);
    assert_eq!(app.search_matches, vec![2]);
    app.toggle_case_sensitive();
    assert_eq!(app.search_matches, vec![0, 2]);
}

#[test]
fn replace_all_by_the_query_keeps_the_text() {
    let mut app = app_with("na\u{ef}ve na\u{ef}ve nai", "na\u{ef}ve");
    app.search_case_sensitive = true;
    app.replace_query = "na\u{ef}ve".to_string();
    app.do_replace_all();
    assert_eq!(app.source, "na\u{ef}ve na\u{ef}ve nai");
    assert_eq!(app.status_msg, "Replaced 2 occurrences");
}

#[test]
fn match_counter_shows_position() {
    let mut app = app_with("a b a", "");
    assert_eq!(app.match_counter(), None);
    app.search_query = "z".to_string();
    app.compute_search_matches();
    assert_eq!(app.match_counter(), Some("No match".to_string()));
    app.search_query = "a".to_string();
    app.compute_search_matches();
    app.search_match_idx = 1;
    assert_eq!(app.match_counter(), Some("2/2".to_string()));
}
