use mdall::editor::MdApp;
use mdall::state::ViewMode;

fn app_with(source: &str, cursor: usize, anchor: usize) -> MdApp {
    let mut app = MdApp::new();
    app.source = source.to_string();
    app.cursor_pos = cursor;
    app.selection_anchor = anchor;
    app
}

#[test]
fn insert_text_replaces_the_selection() {
    let mut app = app_with("hello world", 11, 6);
    app.insert_text("there");
    assert_eq!(app.source, "hello there");
    assert_eq!(app.cursor_pos, 11);
    assert_eq!(app.selection_anchor, 11);
    assert_eq!(app.pending_cursor, Some((11, 11)));
    assert!(app.modified);
    assert!(app.segments_dirty);
    assert_eq!(app.status_msg, "Modified");
}

#[test]
fn insert_text_past_the_end_appends() {
    let mut app = app_with("ab", 5, 5);
    app.insert_text("X");
    assert_eq!(app.source, "abX");
    assert_eq!(app.cursor_pos, 6);
}

#[test]
fn insert_text_counts_characters_not_bytes() {
    let mut app = app_with("héllo", 1, 2);
    app.insert_text("ê");
    assert_eq!(app.source, "hêllo");
    assert_eq!(app.cursor_pos, 2);
}

#[test]
fn wrap_text_wraps_the_selection() {
    let mut app = app_with("say hello", 4, 9);
    app.wrap_text("**", "**");
    assert_eq!(app.source, "say **hello**");
    assert_eq!(app.cursor_pos, 13);
    assert_eq!(app.selection_anchor, 13);
}

#[test]
fn wrap_text_without_selection_selects_the_placeholder() {
    let mut app = app_with("", 0, 0);
    app.wrap_text("**", "**");
    assert_eq!(app.source, "**text**");
    assert_eq!(app.selection_anchor, 2);
    assert_eq!(app.cursor_pos, 6);
    assert_eq!(app.pending_cursor, Some((6, 2)));
    let mut app = app_with("ab", 1, 1);
    app.wrap_text("**", "**");
    assert_eq!(app.source, "a**text**b");
    assert_eq!(app.selection_anchor, 3);
    assert_eq!(app.cursor_pos, 7);
}

#[test]
fn wrap_block_align_uses_a_div() {
    let mut app = app_with("", 0, 0);
    app.wrap_block_align("center");
    assert_eq!(app.source, "<div style=\"text-align:center\">\n\ntext\n\n</div>");
}

#[test]
fn open_link_dialog_prefills_the_selection() {
    let mut app = app_with("voir héllo ici", 10, 5);
    app.open_link_dialog(false);
    assert!(app.link_dialog.visible);
    assert_eq!(app.link_dialog.text, "héllo");
    assert_eq!(app.link_dialog.url, "");
    assert!(!app.link_dialog.is_image);
    let mut app = app_with("abc", 1, 1);
    app.open_link_dialog(true);
    assert_eq!(app.link_dialog.text, "");
    assert!(app.link_dialog.is_image);
}

#[test]
fn do_new_clears_the_document() {
    let mut app = app_with("text", 2, 2);
    app.current_file = Some("a.md".to_string());
    app.modified = true;
    app.do_new();
    assert_eq!(app.source, "");
    assert_eq!(app.current_file, None);
    assert!(!app.modified);
    assert!(app.segments_dirty);
    assert_eq!(app.status_msg, "New file");
}

#[test]
fn open_comment_dialog_anchors_the_passage() {
    let mut app = MdApp::new();
    app.comment_dialog.body = "old".to_string();
    app.open_comment_dialog("passage".to_string());
    assert!(app.comment_dialog.visible);
    assert_eq!(app.comment_dialog.anchor, "passage");
    assert_eq!(app.comment_dialog.body, "");
}

#[test]
fn apply_cursor_schedules_cursor_and_anchor() {
    let mut app = app_with("abc", 3, 1);
    app.apply_cursor_to_editor_state();
    assert_eq!(app.pending_cursor, Some((3, 1)));
}

#[test]
fn jump_to_text_selects_first_occurrence() {
    let mut app = app_with("one two three two", 0, 0);
    app.view_mode = ViewMode::Editor;
    app.jump_to_text("two");
    assert_eq!(app.selection_anchor, 4);
    assert_eq!(app.cursor_pos, 7);
    assert_eq!(app.view_mode, ViewMode::Split);
    assert!(app.request_source_focus);
    assert_eq!(app.status_msg, "Jumped to reviewed text");
    app.jump_to_text("four");
    assert_eq!(app.status_msg, "Reviewed text not found in the recovered document");
    assert_eq!(app.selection_anchor, 4);
}

#[test]
fn jump_to_text_ignores_empty_needle() {
    let mut app = app_with("abc", 1, 1);
    app.status_msg = "before".to_string();
    app.jump_to_text("");
    assert_eq!(app.status_msg, "before");
    assert_eq!(app.cursor_pos, 1);
}
