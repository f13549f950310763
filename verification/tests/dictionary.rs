use mdall::dictionary::{DictFolder, DictLoad};
use mdall::editor::MdApp;

fn app_with_cache() -> MdApp {
    let mut app = MdApp::new();
    app.spell_sugg_cache = vec![("teh".to_string(), vec!["the".to_string()])];
    app
}

#[test]
fn using_a_downloaded_dictionary() {
    let mut app = app_with_cache();
    app.use_downloaded_dictionary("fr_FR", DictLoad::Loaded);
    assert!(app.spell_enabled && app.show_spelling_panel && app.segments_dirty);
    assert!(app.spell_sugg_cache.is_empty());
    assert_eq!(app.dict_status, "Using dictionary 'fr_FR'");
    assert_eq!(app.status_msg, "Dictionary 'fr_FR' active");

    let mut app = app_with_cache();
    app.use_downloaded_dictionary("de_DE", DictLoad::ParseFailed("bad affix".to_string()));
    assert!(!app.spell_enabled);
    assert_eq!(app.spell_sugg_cache.len(), 1);
    assert_eq!(app.dict_status, "Failed to load 'de_DE': bad affix");
    assert_eq!(app.status_msg, "");

    let mut app = MdApp::new();
    app.use_downloaded_dictionary("it_IT", DictLoad::Unreadable);
    assert_eq!(app.dict_status, "Could not read the 'it_IT' files");

    let mut app = MdApp::new();
    app.use_downloaded_dictionary("it_IT", DictLoad::NoFolder);
    assert_eq!(app.dict_status, "");
}

#[test]
fn loading_a_picked_dictionary() {
    let mut app = app_with_cache();
    app.load_picked_dictionary("custom", DictLoad::Loaded);
    assert!(app.spell_enabled && app.show_spelling_panel);
    assert!(app.spell_sugg_cache.is_empty());
    assert_eq!(app.status_msg, "Dictionary 'custom' loaded");

    let mut app = MdApp::new();
    app.load_picked_dictionary("nl", DictLoad::ParseFailed("empty".to_string()));
    assert_eq!(app.status_msg, "Dictionary error: empty");

    let mut app = MdApp::new();
    app.load_picked_dictionary("nl", DictLoad::Unreadable);
    assert_eq!(app.status_msg, "Need both nl.dic and nl.aff in the same folder");
    assert!(!app.spell_enabled);
}

#[test]
fn download_start_checks() {
    let mut app = MdApp::new();
    assert!(!app.start_dict_download("fr_FR", DictFolder::Missing));
    assert_eq!(app.dict_status, "Cannot locate the dictionaries folder");
    assert!(app.dict_dl.is_none());
    assert!(!app.start_dict_download("fr_FR", DictFolder::Uncreatable));
    assert_eq!(app.dict_status, "Cannot create the dictionaries folder");
    assert!(app.start_dict_download("fr_FR", DictFolder::Ready));
    assert_eq!(app.dict_dl, Some("fr_FR".to_string()));
    assert_eq!(app.dict_status, "Downloading fr_FR...");
    assert_eq!(app.status_msg, "Downloading fr_FR dictionary...");
    assert!(!app.start_dict_download("de_DE", DictFolder::Ready));
    assert_eq!(app.dict_status, "A download is already running...");
    assert_eq!(app.dict_dl, Some("fr_FR".to_string()));
}

#[test]
fn download_outcomes() {
    let mut app = MdApp::new();
    app.start_dict_download("es_ES", DictFolder::Ready);
    app.finish_dict_download(Some("timeout".to_string()), DictLoad::Unreadable);
    assert!(app.dict_dl.is_none());
    assert_eq!(app.dict_status, "Download failed: timeout");
    assert_eq!(app.status_msg, "Download failed: timeout");

    let mut app = app_with_cache();
    app.start_dict_download("es_ES", DictFolder::Ready);
    app.finish_dict_download(None, DictLoad::Loaded);
    assert!(app.spell_enabled && app.show_spelling_panel);
    assert!(app.spell_sugg_cache.is_empty());
    assert_eq!(app.dict_status, "Dictionary 'es_ES' downloaded and active");
    assert_eq!(app.status_msg, "Dictionary 'es_ES' downloaded");

    let mut app = MdApp::new();
    app.start_dict_download("es_ES", DictFolder::Ready);
    app.finish_dict_download(None, DictLoad::ParseFailed("bad".to_string()));
    assert_eq!(app.dict_status, "Downloaded 'es_ES' but parse failed: bad");

    let mut app = MdApp::new();
    app.start_dict_download("es_ES", DictFolder::Ready);
    app.finish_dict_download(None, DictLoad::NoFolder);
    assert_eq!(app.dict_status, "Downloaded 'es_ES' but could not read the files");
    assert!(app.dict_dl.is_none());
}

#[test]
fn finishing_without_a_download_changes_nothing() {
    let mut app = MdApp::new();
    app.finish_dict_download(Some("x".to_string()), DictLoad::Loaded);
    assert_eq!(app.dict_status, "");
    assert_eq!(app.status_msg, "");
    assert!(!app.spell_enabled);
}

#[test]
fn autoloaded_dictionary_switches_spelling_on() {
    let mut app = app_with_cache();
    app.dictionary_autoloaded();
    assert!(app.spell_enabled && app.show_spelling_panel);
    assert_eq!(app.spell_sugg_cache.len(), 1);
    assert!(!app.segments_dirty);
}

#[test]
fn spell_checking_toggle_shows_panel_only_with_a_dictionary() {
    let mut app = MdApp::new();
    app.spell_checking_toggled(true, true);
    assert!(app.spell_enabled && app.show_spelling_panel && app.segments_dirty);
    let mut app = MdApp::new();
    app.spell_checking_toggled(true, false);
    assert!(app.spell_enabled && !app.show_spelling_panel && app.segments_dirty);
    app.spell_checking_toggled(false, true);
    assert!(!app.spell_enabled && !app.show_spelling_panel);
}
