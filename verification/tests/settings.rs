use mdall::settings::Settings;

#[test]
fn default_is_english_light() {
    let d = Settings::default();
    assert_eq!(d.app_lang, "en");
    assert!(!d.dark_mode);
}

#[test]
fn default_uses_general_pdf_converter() {
    let d = Settings::default();
    assert!(!d.pdf_native);
}
