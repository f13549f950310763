use mdall::editor::MdApp;
use mdall::events::{shortcut_action, Key, ShortcutAction};
use mdall::commands::{review_item_anchor, InlineFormat};
use mdall::review::{ReviewItem, ReviewKind};
use mdall::spell::SpellIssue;
use mdall::state::ViewMode;

fn item(text: &str, context: &str) -> ReviewItem {
    ReviewItem {
        kind: ReviewKind::Comment,
        author: "Ann".to_string(),
        date: "2024-05-01".to_string(),
        text: text.to_string(),
        context: context.to_string(),
    }
}

fn app_with_reviews() -> MdApp {
    let mut app = MdApp::new();
    app.source = "alpha beta gamma".to_string();
    app.review_items = vec![item("note one", "beta"), item("note two", "")];
    app.show_review_panel = true;
    app
}

#[test]
fn review_panel_hover_click_and_jump() {
    let mut app = app_with_reviews();
    app.apply_review_events(false, Some("beta".to_string()), Some("beta".to_string()), Some("beta".to_string()), None);
    assert_eq!(app.review_hl, Some("beta".to_string()));
    assert_eq!(app.review_mark, Some("beta".to_string()));
    assert_eq!(app.selection_anchor, 6);
    assert_eq!(app.cursor_pos, 10);
    assert_eq!(app.status_msg, "Jumped to reviewed text");
    app.apply_review_events(false, None, Some("beta".to_string()), None, None);
    assert_eq!(app.review_hl, None);
    assert_eq!(app.review_mark, None);
    assert!(app.show_review_panel);
}

#[test]
fn review_panel_dismiss_and_close() {
    let mut app = app_with_reviews();
    app.apply_review_events(false, None, None, None, Some(0));
    assert_eq!(app.review_items.len(), 1);
    assert_eq!(app.review_items[0].text, "note two");
    assert!(app.show_review_panel);
    app.apply_review_events(false, None, None, None, Some(7));
    assert_eq!(app.review_items.len(), 1);
    app.apply_review_events(false, None, None, None, Some(0));
    assert!(app.review_items.is_empty());
    assert!(!app.show_review_panel);
    let mut app = app_with_reviews();
    app.apply_review_events(true, None, None, None, None);
    assert!(!app.show_review_panel);
    app.apply_review_events(false, Some("x".to_string()), None, None, Some(0));
    assert_eq!(app.review_items.len(), 2);
    assert_eq!(app.review_hl, None);
}

#[test]
fn comment_dialog_adds_a_trimmed_comment() {
    let mut app = MdApp::new();
    app.open_comment_dialog("the passage".to_string());
    app.comment_dialog.body = "  please cite  ".to_string();
    app.submit_comment_dialog(true, false, "2025-02-03".to_string());
    assert_eq!(app.review_items.len(), 1);
    let c = &app.review_items[0];
    assert_eq!(c.kind, ReviewKind::Comment);
    assert_eq!(c.author, "You");
    assert_eq!(c.date, "2025-02-03");
    assert_eq!(c.text, "please cite");
    assert_eq!(c.context, "the passage");
    assert!(app.show_review_panel);
    assert!(!app.comment_dialog.visible);
    assert_eq!(app.status_msg, "Comment added");
}

#[test]
fn comment_dialog_blank_or_cancel_closes() {
    let mut app = MdApp::new();
    app.open_comment_dialog("p".to_string());
    app.comment_dialog.body = " \n ".to_string();
    app.submit_comment_dialog(true, false, "d".to_string());
    assert!(app.review_items.is_empty());
    assert!(!app.comment_dialog.visible);
    app.open_comment_dialog("p".to_string());
    app.submit_comment_dialog(false, false, "d".to_string());
    assert!(app.comment_dialog.visible);
    app.submit_comment_dialog(false, true, "d".to_string());
    assert!(!app.comment_dialog.visible);
}

#[test]
fn spell_words_needing_suggestions_skip_cached_words() {
    let mut app = MdApp::new();
    app.spell_issues = vec![
        SpellIssue { word: "teh".to_string(), start: 0, end: 3 },
        SpellIssue { word: "wrod".to_string(), start: 4, end: 8 },
        SpellIssue { word: "teh".to_string(), start: 9, end: 12 },
        SpellIssue { word: "xyz".to_string(), start: 13, end: 16 },
    ];
    app.store_spell_suggestions("wrod".to_string(), vec!["word".to_string()]);
    assert_eq!(app.spell_words_needing_suggestions(3), vec!["teh".to_string(), "teh".to_string()]);
    assert_eq!(app.spell_words_needing_suggestions(100), vec!["teh", "teh", "xyz"]);
    app.store_spell_suggestions("teh".to_string(), vec!["the".to_string(), "tea".to_string()]);
    app.store_spell_suggestions("wrod".to_string(), vec!["word".to_string(), "wood".to_string()]);
    assert_eq!(app.spell_sugg_cache.len(), 2);
    assert_eq!(app.spell_words_needing_suggestions(100), vec!["xyz"]);
    app.forget_spell_suggestions("teh");
    assert_eq!(app.spell_sugg_cache.len(), 1);
    assert_eq!(app.spell_sugg_cache[0].1, vec!["word".to_string(), "wood".to_string()]);
    assert_eq!(app.spell_words_needing_suggestions(100), vec!["teh", "teh", "xyz"]);
}

#[test]
fn spelling_replacement_checks_boundaries() {
    let mut app = MdApp::new();
    app.source = "héllo wörld".to_string();
    app.apply_spelling_replacement(1, 3, "e");
    assert_eq!(app.source, "hello wörld");
    assert!(app.modified);
    let mut app = MdApp::new();
    app.source = "héllo".to_string();
    app.apply_spelling_replacement(2, 3, "e");
    assert_eq!(app.source, "héllo");
    assert!(!app.modified);
    app.apply_spelling_replacement(0, 99, "e");
    assert_eq!(app.source, "héllo");
}

#[test]
fn spelling_jump_selects_the_word() {
    let mut app = MdApp::new();
    app.source = "héllo wörld".to_string();
    app.view_mode = ViewMode::Editor;
    app.apply_spelling_jump(7, 13);
    assert_eq!(app.selection_anchor, 6);
    assert_eq!(app.cursor_pos, 11);
    assert_eq!(app.view_mode, ViewMode::Split);
    assert_eq!(app.pending_cursor, Some((11, 6)));
}

#[test]
fn shortcut_table() {
    assert_eq!(shortcut_action(Key::S, true, false, false), ShortcutAction::Save);
    assert_eq!(shortcut_action(Key::S, true, true, false), ShortcutAction::SaveAs);
    assert_eq!(shortcut_action(Key::S, false, false, false), ShortcutAction::Nothing);
    assert_eq!(shortcut_action(Key::P, true, true, false), ShortcutAction::CommandPalette);
    assert_eq!(shortcut_action(Key::P, true, false, false), ShortcutAction::Print);
    assert_eq!(shortcut_action(Key::D, true, false, false), ShortcutAction::Nothing);
    assert_eq!(shortcut_action(Key::D, true, true, false), ShortcutAction::ToggleTheme);
    assert_eq!(shortcut_action(Key::B, true, false, false), ShortcutAction::Format(InlineFormat::Bold));
    assert_eq!(shortcut_action(Key::Num3, true, false, false), ShortcutAction::View(ViewMode::Editor));
    assert_eq!(shortcut_action(Key::Plus, true, false, false), ShortcutAction::ZoomIn);
    assert_eq!(shortcut_action(Key::F3, false, true, false), ShortcutAction::FindPrev);
    assert_eq!(shortcut_action(Key::F3, true, false, false), ShortcutAction::FindNext);
    assert_eq!(shortcut_action(Key::Escape, false, false, true), ShortcutAction::CloseSearch);
    assert_eq!(shortcut_action(Key::Escape, false, false, false), ShortcutAction::Nothing);
}

#[test]
fn shortcuts_run_editor_commands() {
    let mut app = MdApp::new();
    app.source = "say hi".to_string();
    app.cursor_pos = 6;
    app.selection_anchor = 4;
    assert_eq!(app.run_shortcut(ShortcutAction::Format(InlineFormat::Bold)), ShortcutAction::Nothing);
    assert_eq!(app.source, "say **hi**");
    assert_eq!(app.cursor_pos, 10);

    app.search_query = "hi".to_string();
    assert_eq!(app.run_shortcut(ShortcutAction::FindReplace), ShortcutAction::Nothing);
    assert!(app.show_search && app.search_show_replace);
    assert_eq!(app.search_matches, vec![6]);
    app.run_shortcut(ShortcutAction::Find);
    assert!(app.show_search && !app.search_show_replace);
    app.run_shortcut(ShortcutAction::FindNext);
    assert_eq!(app.selection_anchor, 6);
    assert_eq!(app.cursor_pos, 8);
    app.run_shortcut(ShortcutAction::CloseSearch);
    assert!(!app.show_search);

    app.run_shortcut(ShortcutAction::View(ViewMode::Editor));
    assert_eq!(app.view_mode, ViewMode::Editor);
    assert!(app.segments_dirty);

    app.cursor_pos = 0;
    app.selection_anchor = 0;
    app.run_shortcut(ShortcutAction::InsertEquation);
    assert!(app.source.starts_with("$$\n\\sum_{i=0}^{n} x_i\n$$\nsay"));

    app.run_shortcut(ShortcutAction::LinkDialog);
    assert!(app.link_dialog.visible && !app.link_dialog.is_image);

    app.run_shortcut(ShortcutAction::NewFile);
    assert_eq!(app.source, "");
    assert_eq!(app.status_msg, "New file");
}

#[test]
fn window_shortcuts_are_handed_back() {
    let mut app = MdApp::new();
    app.source = "x".to_string();
    for act in [
        ShortcutAction::Open,
        ShortcutAction::Save,
        ShortcutAction::SaveAs,
        ShortcutAction::Print,
        ShortcutAction::Quit,
        ShortcutAction::CommandPalette,
        ShortcutAction::ToggleTheme,
        ShortcutAction::ZoomIn,
        ShortcutAction::ZoomOut,
        ShortcutAction::ZoomReset,
        ShortcutAction::Nothing,
    ] {
        assert_eq!(app.run_shortcut(act), act);
    }
    assert_eq!(app.source, "x");
    assert!(!app.modified);
}

#[test]
fn review_items_anchor_to_their_context() {
    assert_eq!(review_item_anchor(&item("note", "beta")), "beta");
    assert_eq!(review_item_anchor(&item("note", "")), "note");
}

#[test]
fn ensure_spell_suggestions_asks_only_for_uncached_words() {
    let mut app = MdApp::new();
    app.spell_issues = vec![
        SpellIssue { word: "teh".to_string(), start: 0, end: 3 },
        SpellIssue { word: "wrod".to_string(), start: 4, end: 8 },
        SpellIssue { word: "xyz".to_string(), start: 9, end: 12 },
    ];
    app.store_spell_suggestions("wrod".to_string(), vec!["word".to_string()]);
    let asked = std::cell::RefCell::new(Vec::<String>::new());
    let suggest = |w: &str| {
        asked.borrow_mut().push(w.to_string());
        vec![format!("{}!", w)]
    };
    app.ensure_spell_suggestions(2, &suggest);
    assert_eq!(*asked.borrow(), vec!["teh".to_string()]);
    let get = |w: &str| app.spell_sugg_cache.iter().find(|(k, _)| k == w).map(|(_, s)| s.clone());
    assert_eq!(get("teh"), Some(vec!["teh!".to_string()]));
    assert_eq!(get("wrod"), Some(vec!["word".to_string()]));
    assert_eq!(get("xyz"), None);
}

#[test]
fn adding_a_word_drops_its_suggestions_and_rerenders() {
    let mut app = MdApp::new();
    app.store_spell_suggestions("teh".to_string(), vec!["the".to_string()]);
    app.store_spell_suggestions("wrod".to_string(), vec!["word".to_string()]);
    app.spelling_word_added("teh");
    assert!(app.segments_dirty);
    assert_eq!(app.spell_sugg_cache.len(), 1);
    assert_eq!(app.spell_sugg_cache[0].0, "wrod");
}
