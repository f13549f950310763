use mdall::commands::{
    color_hex, export_file_name, paragraph_style_label, print_command, save_target, trim,
    ExportKind, InlineFormat, SaveTarget, Snippet,
};
use mdall::editor::MdApp;
use mdall::review::{ReviewItem, ReviewKind};
use mdall::state::ViewMode;

fn app_with(source: &str, cursor: usize, anchor: usize) -> MdApp {
    let mut app = MdApp::new();
    app.source = source.to_string();
    app.cursor_pos = cursor;
    app.selection_anchor = anchor;
    app
}

#[test]
fn finish_open_loads_the_document() {
    let mut app = MdApp::new();
    app.view_mode = ViewMode::Converter;
    app.modified = true;
    app.finish_open("/tmp/a.md".to_string(), Ok("# A".to_string()));
    assert_eq!(app.source, "# A");
    assert_eq!(app.current_file, Some("/tmp/a.md".to_string()));
    assert!(!app.modified);
    assert!(app.segments_dirty);
    assert_eq!(app.status_msg, "Opened");
    assert_eq!(app.view_mode, ViewMode::Editor);
    let mut app = MdApp::new();
    app.view_mode = ViewMode::Split;
    app.finish_open("x".to_string(), Ok(String::new()));
    assert_eq!(app.view_mode, ViewMode::Split);
}

#[test]
fn finish_open_reports_import_errors() {
    let mut app = app_with("keep", 0, 0);
    app.finish_open("x".to_string(), Err("bad zip".to_string()));
    assert_eq!(app.source, "keep");
    assert_eq!(app.status_msg, "Import error: bad zip");
}

#[test]
fn save_outcomes() {
    let mut app = MdApp::new();
    app.modified = true;
    app.finish_save(Err("denied".to_string()));
    assert!(app.modified);
    assert_eq!(app.status_msg, "Save error: denied");
    app.finish_save(Ok(()));
    assert!(!app.modified);
    assert_eq!(app.status_msg, "Saved");
    app.modified = true;
    app.finish_save_as("/d/b.md".to_string(), Ok(()));
    assert_eq!(app.current_file, Some("/d/b.md".to_string()));
    assert!(!app.modified);
    app.finish_save_as("/d/c.md".to_string(), Err("full".to_string()));
    assert_eq!(app.current_file, Some("/d/b.md".to_string()));
    assert_eq!(app.status_msg, "Save error: full");
}

#[test]
fn save_target_follows_the_extension() {
    assert_eq!(save_target(Some("PDF")), SaveTarget::Pdf);
    assert_eq!(save_target(Some("pdf")), SaveTarget::Pdf);
    assert_eq!(save_target(Some("Html")), SaveTarget::Html);
    assert_eq!(save_target(Some("htm")), SaveTarget::Html);
    assert_eq!(save_target(Some("md")), SaveTarget::Markdown);
    assert_eq!(save_target(None), SaveTarget::Markdown);
}

#[test]
fn export_names_and_outcomes() {
    assert_eq!(export_file_name("paper", ExportKind::Pdf), "paper.pdf");
    assert_eq!(export_file_name("paper", ExportKind::Html), "paper.html");
    let mut app = MdApp::new();
    assert!(app.finish_export(ExportKind::Pdf, Ok(()), true));
    assert_eq!(app.status_msg, "PDF exported");
    assert!(!app.finish_export(ExportKind::Pdf, Ok(()), false));
    assert_eq!(app.status_msg, "PDF error: file not created");
    assert!(!app.finish_export(ExportKind::Html, Err("no fonts".to_string()), false));
    assert_eq!(app.status_msg, "HTML error: no fonts");
    assert!(app.finish_export(ExportKind::Html, Ok(()), true));
    assert_eq!(app.status_msg, "HTML exported");
}

#[test]
fn print_outcomes_and_command() {
    let mut app = MdApp::new();
    app.finish_print(Ok(()), true, Ok(()));
    assert_eq!(app.status_msg, "Sent to printer");
    app.finish_print(Ok(()), true, Err("no powershell".to_string()));
    assert_eq!(app.status_msg, "Print error: no powershell");
    app.finish_print(Ok(()), false, Ok(()));
    assert_eq!(app.status_msg, "Print error: PDF not created");
    app.finish_print(Err("typst".to_string()), true, Ok(()));
    assert_eq!(app.status_msg, "Print error: typst");
    assert_eq!(
        print_command("C:\\Temp\\it's.pdf"),
        "Start-Process -FilePath 'C:\\Temp\\it''s.pdf' -Verb Print"
    );
    assert_eq!(print_command("été"), "Start-Process -FilePath 'été' -Verb Print");
}

#[test]
fn insert_image_link_inserts_markdown_image() {
    let mut app = app_with("", 0, 0);
    app.insert_image_link("/img/a b.png");
    assert_eq!(app.source, "![image](/img/a b.png)");
    assert_eq!(app.cursor_pos, 22);
}

#[test]
fn inline_formats_use_their_markers() {
    let mut app = app_with("word", 0, 4);
    app.apply_inline_format(InlineFormat::Bold);
    assert_eq!(app.source, "**word**");
    let mut app = app_with("word", 4, 0);
    app.apply_inline_format(InlineFormat::Superscript);
    assert_eq!(app.source, "<sup>word</sup>");
    let mut app = app_with("", 0, 0);
    app.apply_inline_format(InlineFormat::InlineEquation);
    assert_eq!(app.source, "$text$");
    assert_eq!(app.selection_anchor, 1);
    assert_eq!(app.cursor_pos, 5);
}

#[test]
fn snippets_insert_their_text() {
    let mut app = app_with("", 0, 0);
    app.insert_snippet(Snippet::Heading(2));
    assert_eq!(app.source, "## ");
    let mut app = app_with("x", 1, 1);
    app.insert_snippet(Snippet::Table);
    assert_eq!(
        app.source,
        "x| Col 1 | Col 2 | Col 3 |\n|--------|--------|--------|\n|  |  |  |\n"
    );
    let mut app = app_with("", 0, 0);
    app.insert_snippet(Snippet::EquationBlock);
    assert_eq!(app.source, "$$\n\\sum_{i=0}^{n} x_i\n$$\n");
    let mut app = app_with("", 0, 0);
    app.insert_snippet(Snippet::Heading(9));
    assert_eq!(app.source, "###### ");
}

#[test]
fn colours_are_lower_case_hex() {
    assert_eq!(color_hex([255, 136, 0]), "ff8800");
    assert_eq!(color_hex([0, 10, 171]), "000aab");
    let mut app = app_with("hi", 0, 2);
    app.apply_text_color([231, 76, 60]);
    assert_eq!(app.source, "<span style=\"color:#e74c3c\">hi</span>");
    assert_eq!(app.text_color, [231, 76, 60]);
    let mut app = app_with("", 0, 0);
    app.apply_highlight_color([144, 238, 144]);
    assert_eq!(app.source, "<mark style=\"background:#90ee90\">text</mark>");
    assert_eq!(app.highlight_color, [144, 238, 144]);
}

#[test]
fn paragraph_style_labels() {
    assert_eq!(paragraph_style_label(0), "Normal");
    assert_eq!(paragraph_style_label(3), "Heading 3");
    assert_eq!(paragraph_style_label(6), "Heading 6");
    assert_eq!(paragraph_style_label(7), "Heading 6");
}

#[test]
fn view_switch_marks_rendering_dirty_for_editor() {
    let mut app = MdApp::new();
    app.set_view_mode(ViewMode::Split);
    assert_eq!(app.view_mode, ViewMode::Split);
    assert!(!app.segments_dirty);
    app.set_view_mode(ViewMode::Editor);
    assert!(app.segments_dirty);
}

#[test]
fn status_bar_line_and_char_count() {
    let app = app_with("théorème\nline two\nthree", 12, 12);
    assert_eq!(app.cursor_line(), 2);
    assert_eq!(app.char_count(), 23);
    let app = app_with("a\nb", 100, 0);
    assert_eq!(app.cursor_line(), 2);
    let app = app_with("", 0, 0);
    assert_eq!(app.cursor_line(), 1);
}

#[test]
fn docx_import_loads_source_and_reviews() {
    let mut app = MdApp::new();
    app.current_file = Some("old.md".to_string());
    let items = vec![
        ReviewItem {
            kind: ReviewKind::Insertion,
            author: "Ann".to_string(),
            date: "2024-01-01".to_string(),
            text: "new".to_string(),
            context: String::new(),
        },
        ReviewItem {
            kind: ReviewKind::Comment,
            author: "Bob".to_string(),
            date: "2024-01-02".to_string(),
            text: "why?".to_string(),
            context: "E=mc^2".to_string(),
        },
    ];
    app.finish_docx_import("paper.docx", Ok("é $x$".to_string()), items);
    assert_eq!(app.source, "é $x$");
    assert_eq!(app.current_file, None);
    assert!(app.modified);
    assert_eq!(app.view_mode, ViewMode::Editor);
    assert!(app.show_review_panel);
    assert_eq!(app.review_items.len(), 2);
    assert_eq!(
        app.status_msg,
        "Imported from \u{201C}paper.docx\u{201D} - 6 chars recovered - 2 review item(s)"
    );
    let mut app = MdApp::new();
    app.finish_docx_import("a.docx", Ok("abc".to_string()), Vec::new());
    assert!(!app.show_review_panel);
    assert_eq!(app.status_msg, "Imported from \u{201C}a.docx\u{201D} - 3 chars recovered");
    app.finish_docx_import("b.docx", Err("no source entry".to_string()), Vec::new());
    assert_eq!(app.status_msg, "Import failed: no source entry");
    assert_eq!(app.source, "abc");
}

#[test]
fn trim_removes_unicode_white_space() {
    assert_eq!(trim("  hello \n"), "hello");
    assert_eq!(trim("\u{3000}x y\u{a0}"), "x y");
    assert_eq!(trim(" \t "), "");
    assert_eq!(trim(""), "");
}
