//! Persisted user preferences (UI language, theme, PDF engine).
use vstd::prelude::*;

verus! {

/// User preferences kept between sessions.
#[derive(Clone, PartialEq, Eq, Debug)]
pub struct Settings {
    /// UI language tag ("en", "fr", ...).
    pub app_lang: String,
    pub dark_mode: bool,
    /// PDF engine: true = Native converter (pure-Rust), false = General converter.
    pub pdf_native: bool,
}

impl Default for Settings {
    /// English, light theme, General PDF converter.
    fn default() -> (s: Self)
        ensures
            s.app_lang@ == "en"@,
            !s.dark_mode,
            !s.pdf_native,
    {
        Settings { app_lang: String::from_str("en"), dark_mode: false, pdf_native: false }
    }
}

} // verus!
