use mdall::format::usize_to_decimal;
use mdall::resources::{
    dict_file_name, dict_row_state, dictionary_base_url, downloadable_dictionaries,
    equation_typst_source, file_url, typst_error_message, DlState,
};
use mdall::state::{ConversionHub, ConversionSettings, EditorMode, FileStatus, HubFile, HubPhase};
use mdall::text::{byte_to_char_index, char_to_byte_index, splice_chars, utf8_width};

#[test]
fn dictionary_file_names_and_urls() {
    assert_eq!(dict_file_name("fr_FR", "dic"), "fr_FR.dic");
    assert_eq!(dict_file_name("en_US", "aff"), "en_US.aff");
    assert_eq!(
        dictionary_base_url("en-GB"),
        "https://raw.githubusercontent.com/wooorm/dictionaries/main/dictionaries/en-GB"
    );
}

#[test]
fn dictionary_row_state_priority() {
    assert_eq!(dict_row_state("fr_FR", Some("fr_FR"), Some("fr_FR"), true), DlState::Downloading);
    assert_eq!(dict_row_state("fr_FR", Some("de_DE"), Some("fr_FR"), true), DlState::Active);
    assert_eq!(dict_row_state("fr_FR", None, Some("en_US"), true), DlState::Installed);
    assert_eq!(dict_row_state("fr_FR", None, None, false), DlState::NotInstalled);
}

#[test]
fn offered_dictionaries_in_order() {
    let v = downloadable_dictionaries();
    let tags: Vec<&str> = v.iter().map(|d| d.tag).collect();
    assert_eq!(tags, vec!["en_US", "en_GB", "fr_FR", "de_DE", "es_ES", "it_IT"]);
    assert_eq!(v[1].repo, "en-GB");
    assert_eq!(v[2].label, "Fran\u{e7}ais");
}

#[test]
fn equation_document_wraps_display_math() {
    assert_eq!(
        equation_typst_source("x^2"),
        "#set page(width: auto, height: auto, margin: (x: 10pt, y: 8pt))\n#set text(size: 13pt)\n$ x^2 $\n"
    );
}

#[test]
fn typst_errors_are_joined() {
    let msgs = vec!["unknown variable: y".to_string(), "expected expression".to_string()];
    assert_eq!(typst_error_message(&msgs), "Typst: unknown variable: y; expected expression");
    assert_eq!(typst_error_message(&vec![]), "Typst: ");
}

#[test]
fn hub_file_starts_pending() {
    let f = HubFile::new("/tmp/a.md".to_string());
    assert_eq!(f.path, "/tmp/a.md");
    assert_eq!(f.status, FileStatus::Pending);
    assert!(f.output_path.is_none());
    assert!(f.message.is_empty());
    assert!(f.target.is_none());
}

#[test]
fn defaults_of_hub_settings_and_mode() {
    let h = ConversionHub::default();
    assert_eq!(h.phase, HubPhase::Idle);
    assert!(h.files.is_empty());
    assert_eq!(h.queue_index, 0);
    assert!(!h.converting);
    let s = ConversionSettings::default();
    assert!(!s.auto_save);
    assert!(!s.use_prefix);
    assert_eq!(s.affix, "MDALL");
    assert_eq!(EditorMode::default(), EditorMode::SegmentedFlow);
}

#[test]
fn char_and_byte_indices() {
    let t = "h\u{e9}llo \u{1F600}!";
    assert_eq!(char_to_byte_index(t, 0), 0);
    assert_eq!(char_to_byte_index(t, 2), 3);
    assert_eq!(char_to_byte_index(t, 7), 11);
    assert_eq!(char_to_byte_index(t, 100), t.len());
    assert_eq!(byte_to_char_index(t, 3), 2);
    assert_eq!(byte_to_char_index(t, 11), 7);
    assert_eq!(byte_to_char_index(t, 1000), 8);
    assert_eq!(utf8_width('a'), 1);
    assert_eq!(utf8_width('\u{e9}'), 2);
    assert_eq!(utf8_width('\u{20ac}'), 3);
    assert_eq!(utf8_width('\u{1F600}'), 4);
}

#[test]
fn splice_replaces_a_character_range() {
    assert_eq!(splice_chars("h\u{e9}llo", 1, 2, "e"), "hello");
    assert_eq!(splice_chars("abc", 3, 3, "d"), "abcd");
    assert_eq!(splice_chars("abc", 0, 3, ""), "");
}

#[test]
fn decimal_numbers() {
    assert_eq!(usize_to_decimal(0), "0");
    assert_eq!(usize_to_decimal(7), "7");
    assert_eq!(usize_to_decimal(40), "40");
    assert_eq!(usize_to_decimal(1234567), "1234567");
}

#[test]
fn char_byte_round_trip() {
    let t = "a\u{e9}\u{20ac}\u{1F600}z";
    for i in 0..8 {
        let b = char_to_byte_index(t, i);
        assert_eq!(byte_to_char_index(t, b), i.min(5));
    }
    for b in [0, 1, 3, 6, 10, 11] {
        assert_eq!(char_to_byte_index(t, byte_to_char_index(t, b)), b);
    }
}

#[test]
fn file_urls_use_forward_slashes() {
    assert_eq!(file_url("C:\\Temp\\md2all_1.html"), "file:///C:/Temp/md2all_1.html");
    assert_eq!(file_url("/tmp/a b.html"), "file:////tmp/a b.html");
    assert_eq!(file_url(""), "file:///");
}
