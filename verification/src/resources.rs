//! Spell-checking dictionaries that can be downloaded, the Typst source used
//! to typeset one equation, and the URL under which the PDF engine opens an
//! exported HTML file.
use vstd::prelude::*;
use crate::mcp::{join, join_texts, same_text, texts_view};
use crate::text::chars_of;

verus! {

/// File name of a dictionary file: `<lang>.<ext>` ("dic" or "aff").
pub fn dict_file_name(lang: &str, ext: &str) -> (r: String)
    ensures
        r@ == lang@ + "."@ + ext@,
{
    let mut r = String::from_str(lang);
    r.append(".");
    r.append(ext);
    r
}

/// Folder of the online dictionary collection that holds dictionary `repo`.
pub fn dictionary_base_url(repo: &str) -> (r: String)
    ensures
        r@ == "https://raw.githubusercontent.com/wooorm/dictionaries/main/dictionaries/"@ + repo@,
{
    let mut r = String::from_str(
        "https://raw.githubusercontent.com/wooorm/dictionaries/main/dictionaries/",
    );
    r.append(repo);
    r
}

/// State of a downloadable dictionary's row in the modules window.
#[derive(PartialEq, Eq, Structural, Clone, Copy, Debug)]
pub enum DlState {
    NotInstalled,
    Downloading,
    Installed,
    Active,
}

/// The row state: downloading wins over active, active over installed.
pub open spec fn dict_state_of(
    tag: Seq<char>,
    downloading: Option<Seq<char>>,
    active: Option<Seq<char>>,
    installed: bool,
) -> DlState {
    if downloading == Some(tag) {
        DlState::Downloading
    } else if active == Some(tag) {
        DlState::Active
    } else if installed {
        DlState::Installed
    } else {
        DlState::NotInstalled
    }
}

/// The character view of an optional text.
pub open spec fn opt_str(o: Option<&str>) -> Option<Seq<char>> {
    match o {
        Some(s) => Some(s@),
        None => None,
    }
}

/// State of the row of dictionary `tag`, given the dictionary being
/// downloaded, the active one, and whether its files are on disk.
pub fn dict_row_state(tag: &str, downloading: Option<&str>, active: Option<&str>, installed: bool) -> (s: DlState)
    ensures
        s == dict_state_of(tag@, opt_str(downloading), opt_str(active), installed),
{
    let is_downloading = match downloading {
        Some(d) => same_text(d, tag),
        None => false,
    };
    if is_downloading {
        return DlState::Downloading;
    }
    let is_active = match active {
        Some(a) => same_text(a, tag),
        None => false,
    };
    if is_active {
        DlState::Active
    } else if installed {
        DlState::Installed
    } else {
        DlState::NotInstalled
    }
}

/// A dictionary that can be downloaded: its language tag, its folder in the
/// online collection, and its label.
pub struct DictionaryOffer {
    pub tag: &'static str,
    pub repo: &'static str,
    pub label: &'static str,
}

/// The dictionaries offered for download, in display order.
pub fn downloadable_dictionaries() -> (v: Vec<DictionaryOffer>)
    ensures
        v@.len() == 6,
        v@[0].tag@ == "en_US"@ && v@[0].repo@ == "en"@ && v@[0].label@ == "English (US)"@,
        v@[1].tag@ == "en_GB"@ && v@[1].repo@ == "en-GB"@ && v@[1].label@ == "English (UK)"@,
        v@[2].tag@ == "fr_FR"@ && v@[2].repo@ == "fr"@ && v@[2].label@ == "Fran\u{e7}ais"@,
        v@[3].tag@ == "de_DE"@ && v@[3].repo@ == "de"@ && v@[3].label@ == "Deutsch"@,
        v@[4].tag@ == "es_ES"@ && v@[4].repo@ == "es"@ && v@[4].label@ == "Espa\u{f1}ol"@,
        v@[5].tag@ == "it_IT"@ && v@[5].repo@ == "it"@ && v@[5].label@ == "Italiano"@,
{
    let mut v: Vec<DictionaryOffer> = Vec::new();
    v.push(DictionaryOffer { tag: "en_US", repo: "en", label: "English (US)" });
    v.push(DictionaryOffer { tag: "en_GB", repo: "en-GB", label: "English (UK)" });
    v.push(DictionaryOffer { tag: "fr_FR", repo: "fr", label: "Fran\u{e7}ais" });
    v.push(DictionaryOffer { tag: "de_DE", repo: "de", label: "Deutsch" });
    v.push(DictionaryOffer { tag: "es_ES", repo: "es", label: "Espa\u{f1}ol" });
    v.push(DictionaryOffer { tag: "it_IT", repo: "it", label: "Italiano" });
    v
}

/// The Typst document that typesets one display equation on an auto-sized
/// page: page and text setup, then the equation in display math.
pub open spec fn equation_document(typst_math: Seq<char>) -> Seq<char> {
    "#set page(width: auto, height: auto, margin: (x: 10pt, y: 8pt))\n#set text(size: 13pt)\n$ "@
        + typst_math + " $\n"@
}

/// The Typst document for one display equation already written in Typst math.
pub fn equation_typst_source(typst_math: &str) -> (r: String)
    ensures
        r@ == equation_document(typst_math@),
{
    let mut r = String::from_str(
        "#set page(width: auto, height: auto, margin: (x: 10pt, y: 8pt))\n#set text(size: 13pt)\n$ ",
    );
    r.append(typst_math);
    r.append(" $\n");
    r
}

/// The error reported when Typst fails to compile an equation: "Typst: "
/// and the diagnostics' messages separated by "; ".
pub fn typst_error_message(messages: &Vec<String>) -> (r: String)
    ensures
        r@ == "Typst: "@ + join(texts_view(messages@), "; "@),
{
    let mut r = String::from_str("Typst: ");
    r.append(join_texts(messages, "; ").as_str());
    r
}

/// `s` with every backslash turned into a forward slash.
pub open spec fn forward_slashes(s: Seq<char>) -> Seq<char> {
    s.map_values(|c: char| if c == '\\' { '/' } else { c })
}

/// The `file:///` URL of the file at `path`, with Windows separators turned
/// into forward slashes.
pub fn file_url(path: &str) -> (r: String)
    ensures
        r@ == "file:///"@ + forward_slashes(path@),
{
    let v = chars_of(path);
    let mut r = String::from_str("file:///");
    let ghost head = r@;
    let mut i: usize = 0;
    while i < v.len()
        invariant
            i <= v.len(),
            v@ == path@,
            head == "file:///"@,
            r@ == head + forward_slashes(v@.take(i as int)),
        decreases v.len() - i,
    {
        proof {
            reveal_strlit("/");
            assert(forward_slashes(v@.take(i + 1)) =~= forward_slashes(v@.take(i as int)).push(
                if v@[i as int] == '\\' { '/' } else { v@[i as int] },
            ));
        }
        if v[i] == '\\' {
            r.append("/");
        } else {
            r.append(path.substring_char(i, i + 1));
            proof {
                assert(path@.subrange(i as int, i + 1) =~= seq![v@[i as int]]);
            }
        }
        i = i + 1;
    }
    proof {
        assert(v@.take(v@.len() as int) =~= v@);
    }
    r
}

} // verus!
