//! What the editor does once a spell-checking dictionary has been looked for,
//! read, parsed or downloaded: which flags it sets and what the status lines
//! say. Reading the files, parsing them and downloading them happen around
//! these functions, which take how that went as an argument.
use vstd::prelude::*;
use crate::editor::{cursor_same, doc_same, search_same, MdApp};

verus! {

/// How reading a dictionary's `.dic` and `.aff` files and parsing them went.
pub enum DictLoad {
    /// Both files were read and parsed; the dictionary is in use.
    Loaded,
    /// Both files were read; the parser refused them with this message.
    ParseFailed(String),
    /// One of the two files could not be read.
    Unreadable,
    /// The dictionaries folder could not be located.
    NoFolder,
}

/// The dictionaries folder before a download.
#[derive(PartialEq, Eq, Structural, Clone, Copy, Debug)]
pub enum DictFolder {
    /// The folder could not be located.
    Missing,
    /// The folder could not be created.
    Uncreatable,
    /// The folder exists.
    Ready,
}

/// The spelling fields after a dictionary came into use: checking on, panel
/// shown, suggestion cache emptied, rendering to be rebuilt.
pub open spec fn spelling_activated(a: &MdApp, b: &MdApp) -> bool {
    &&& b.spell_enabled
    &&& b.show_spelling_panel
    &&& b.spell_sugg_cache@.len() == 0
    &&& b.segments_dirty
    &&& b.source@ == a.source@
    &&& b.current_file == a.current_file
    &&& b.modified == a.modified
}

/// Everything but the status lines, the download and the spelling fields
/// that [`spelling_activated`] speaks of is equal.
pub open spec fn rest_same(a: &MdApp, b: &MdApp) -> bool {
    &&& cursor_same(a, b)
    &&& search_same(a, b)
    &&& a.link_dialog == b.link_dialog
    &&& a.comment_dialog == b.comment_dialog
    &&& a.spell_issues == b.spell_issues
    &&& a.review_items == b.review_items
    &&& a.show_review_panel == b.show_review_panel
    &&& a.review_hl == b.review_hl
    &&& a.review_mark == b.review_mark
    &&& a.text_color == b.text_color
    &&& a.highlight_color == b.highlight_color
}

/// The spelling fields are equal.
pub open spec fn spelling_same(a: &MdApp, b: &MdApp) -> bool {
    &&& a.spell_enabled == b.spell_enabled
    &&& a.show_spelling_panel == b.show_spelling_panel
    &&& a.spell_sugg_cache == b.spell_sugg_cache
    &&& doc_same(a, b)
}

/// `'<lang>'` framed by `before` and `after`.
pub open spec fn quoted(before: Seq<char>, lang: Seq<char>, after: Seq<char>) -> Seq<char> {
    before + "'"@ + lang + "'"@ + after
}

fn quoted_text(before: &str, lang: &str, after: &str) -> (r: String)
    ensures
        r@ == quoted(before@, lang@, after@),
{
    let mut r = String::from_str(before);
    r.append("'");
    r.append(lang);
    r.append("'");
    r.append(after);
    r
}

fn concat(a: &str, b: &str) -> (r: String)
    ensures
        r@ == a@ + b@,
{
    let mut r = String::from_str(a);
    r.append(b);
    r
}

fn joined(a: &str, b: &str, c: &str) -> (r: String)
    ensures
        r@ == a@ + b@ + c@,
{
    let mut r = String::from_str(a);
    r.append(b);
    r.append(c);
    r
}

impl MdApp {
    fn activate_spelling(&mut self)
        ensures
            spelling_activated(&*old(self), &*final(self)),
            rest_same(&*old(self), &*final(self)),
            final(self).status_msg@ == old(self).status_msg@,
            final(self).dict_status@ == old(self).dict_status@,
            final(self).dict_dl == old(self).dict_dl,
    {
        self.spell_enabled = true;
        self.show_spelling_panel = true;
        self.spell_sugg_cache.clear();
        self.segments_dirty = true;
    }

    /// Put an already-downloaded dictionary `lang` in use (its "Use"
    /// button), given how reading and parsing its files went. Without a
    /// dictionaries folder nothing changes.
    pub fn use_downloaded_dictionary(&mut self, lang: &str, outcome: DictLoad)
        ensures
            rest_same(&*old(self), &*final(self)),
            final(self).dict_dl == old(self).dict_dl,
            match outcome {
                DictLoad::Loaded => {
                    &&& spelling_activated(&*old(self), &*final(self))
                    &&& final(self).dict_status@ == quoted("Using dictionary "@, lang@, ""@)
                    &&& final(self).status_msg@ == quoted("Dictionary "@, lang@, " active"@)
                },
                DictLoad::ParseFailed(e) => {
                    &&& spelling_same(&*old(self), &*final(self))
                    &&& final(self).status_msg@ == old(self).status_msg@
                    &&& final(self).dict_status@ == quoted("Failed to load "@, lang@, ": "@ + e@)
                },
                DictLoad::Unreadable => {
                    &&& spelling_same(&*old(self), &*final(self))
                    &&& final(self).status_msg@ == old(self).status_msg@
                    &&& final(self).dict_status@ == quoted("Could not read the "@, lang@, " files"@)
                },
                DictLoad::NoFolder => {
                    &&& spelling_same(&*old(self), &*final(self))
                    &&& final(self).status_msg@ == old(self).status_msg@
                    &&& final(self).dict_status@ == old(self).dict_status@
                },
            },
    {
        match outcome {
            DictLoad::Loaded => {
                self.activate_spelling();
                self.dict_status = quoted_text("Using dictionary ", lang, "");
                self.status_msg = quoted_text("Dictionary ", lang, " active");
            },
            DictLoad::ParseFailed(e) => {
                let mut tail = String::from_str(": ");
                tail.append(e.as_str());
                self.dict_status = quoted_text("Failed to load ", lang, tail.as_str());
            },
            DictLoad::Unreadable => {
                self.dict_status = quoted_text("Could not read the ", lang, " files");
            },
            DictLoad::NoFolder => {},
        }
    }

    /// Use the dictionary `lang` picked in the file dialog, given how reading
    /// its `.dic` and sibling `.aff` and parsing them went.
    pub fn load_picked_dictionary(&mut self, lang: &str, outcome: DictLoad)
        ensures
            rest_same(&*old(self), &*final(self)),
            final(self).dict_dl == old(self).dict_dl,
            final(self).dict_status@ == old(self).dict_status@,
            match outcome {
                DictLoad::Loaded => {
                    &&& spelling_activated(&*old(self), &*final(self))
                    &&& final(self).status_msg@ == quoted("Dictionary "@, lang@, " loaded"@)
                },
                DictLoad::ParseFailed(e) => {
                    &&& spelling_same(&*old(self), &*final(self))
                    &&& final(self).status_msg@ == "Dictionary error: "@ + e@
                },
                _ => {
                    &&& spelling_same(&*old(self), &*final(self))
                    &&& final(self).status_msg@ == "Need both "@ + lang@ + ".dic and "@ + lang@
                        + ".aff in the same folder"@
                },
            },
    {
        match outcome {
            DictLoad::Loaded => {
                self.activate_spelling();
                self.status_msg = quoted_text("Dictionary ", lang, " loaded");
            },
            DictLoad::ParseFailed(e) => {
                self.status_msg = concat("Dictionary error: ", e.as_str());
            },
            _ => {
                let mut m = joined("Need both ", lang, ".dic and ");
                m.append(lang);
                m.append(".aff in the same folder");
                self.status_msg = m;
            },
        }
    }

    /// Start downloading dictionary `lang`, given the state of the
    /// dictionaries folder. Refused while another download runs, and when the
    /// folder is missing or cannot be created; the result says whether the
    /// download starts.
    pub fn start_dict_download(&mut self, lang: &str, folder: DictFolder) -> (started: bool)
        ensures
            rest_same(&*old(self), &*final(self)),
            spelling_same(&*old(self), &*final(self)),
            started <==> (old(self).dict_dl is None && folder == DictFolder::Ready),
            old(self).dict_dl is Some ==> {
                &&& final(self).dict_dl == old(self).dict_dl
                &&& final(self).dict_status@ == "A download is already running..."@
                &&& final(self).status_msg@ == old(self).status_msg@
            },
            old(self).dict_dl is None && folder == DictFolder::Missing ==> {
                &&& final(self).dict_dl is None
                &&& final(self).dict_status@ == "Cannot locate the dictionaries folder"@
                &&& final(self).status_msg@ == old(self).status_msg@
            },
            old(self).dict_dl is None && folder == DictFolder::Uncreatable ==> {
                &&& final(self).dict_dl is None
                &&& final(self).dict_status@ == "Cannot create the dictionaries folder"@
                &&& final(self).status_msg@ == old(self).status_msg@
            },
            started ==> {
                &&& final(self).dict_dl matches Some(l) && l@ == lang@
                &&& final(self).dict_status@ == "Downloading "@ + lang@ + "..."@
                &&& final(self).status_msg@ == "Downloading "@ + lang@ + " dictionary..."@
            },
    {
        if self.dict_dl.is_some() {
            self.dict_status = String::from_str("A download is already running...");
            return false;
        }
        match folder {
            DictFolder::Missing => {
                self.dict_status = String::from_str("Cannot locate the dictionaries folder");
                false
            },
            DictFolder::Uncreatable => {
                self.dict_status = String::from_str("Cannot create the dictionaries folder");
                false
            },
            DictFolder::Ready => {
                self.dict_dl = Some(String::from_str(lang));
                self.dict_status = joined("Downloading ", lang, "...");
                self.status_msg = joined("Downloading ", lang, " dictionary...");
                true
            },
        }
    }

    /// The running download has ended, with `error` when fetching or writing
    /// failed, and otherwise with how reading and parsing the downloaded files
    /// went. Without a running download nothing changes.
    pub fn finish_dict_download(&mut self, error: Option<String>, outcome: DictLoad)
        ensures
            rest_same(&*old(self), &*final(self)),
            final(self).dict_dl is None,
            match old(self).dict_dl {
                None => *final(self) == *old(self),
                Some(lang) => match error {
                    Some(e) => {
                        &&& spelling_same(&*old(self), &*final(self))
                        &&& final(self).dict_status@ == "Download failed: "@ + e@
                        &&& final(self).status_msg@ == "Download failed: "@ + e@
                    },
                    None => match outcome {
                        DictLoad::Loaded => {
                            &&& spelling_activated(&*old(self), &*final(self))
                            &&& final(self).dict_status@ == quoted(
                                "Dictionary "@,
                                lang@,
                                " downloaded and active"@,
                            )
                            &&& final(self).status_msg@ == quoted(
                                "Dictionary "@,
                                lang@,
                                " downloaded"@,
                            )
                        },
                        DictLoad::ParseFailed(e) => {
                            &&& spelling_same(&*old(self), &*final(self))
                            &&& final(self).status_msg@ == old(self).status_msg@
                            &&& final(self).dict_status@ == quoted(
                                "Downloaded "@,
                                lang@,
                                " but parse failed: "@ + e@,
                            )
                        },
                        _ => {
                            &&& spelling_same(&*old(self), &*final(self))
                            &&& final(self).status_msg@ == old(self).status_msg@
                            &&& final(self).dict_status@ == quoted(
                                "Downloaded "@,
                                lang@,
                                " but could not read the files"@,
                            )
                        },
                    },
                },
            },
    {
        let lang = match self.dict_dl.take() {
            None => {
                return;
            },
            Some(l) => l,
        };
        match error {
            Some(e) => {
                self.dict_status = concat("Download failed: ", e.as_str());
                self.status_msg = concat("Download failed: ", e.as_str());
            },
            None => match outcome {
                DictLoad::Loaded => {
                    self.activate_spelling();
                    self.dict_status = quoted_text("Dictionary ", lang.as_str(), " downloaded and active");
                    self.status_msg = quoted_text("Dictionary ", lang.as_str(), " downloaded");
                },
                DictLoad::ParseFailed(e) => {
                    let mut tail = String::from_str(" but parse failed: ");
                    tail.append(e.as_str());
                    self.dict_status = quoted_text("Downloaded ", lang.as_str(), tail.as_str());
                },
                _ => {
                    self.dict_status = quoted_text(
                        "Downloaded ",
                        lang.as_str(),
                        " but could not read the files",
                    );
                },
            },
        }
    }

    /// The "enable spell checking" box was toggled to `enabled`: the spelling
    /// issues are to be recomputed (or cleared), and the spelling panel is shown
    /// exactly when checking is on and a dictionary is loaded.
    pub fn spell_checking_toggled(&mut self, enabled: bool, dictionary_loaded: bool)
        ensures
            *final(self) == (MdApp {
                spell_enabled: enabled,
                segments_dirty: true,
                show_spelling_panel: enabled && dictionary_loaded,
                ..*old(self)
            }),
    {
        self.spell_enabled = enabled;
        self.segments_dirty = true;
        self.show_spelling_panel = enabled && dictionary_loaded;
    }

    /// A dictionary found in the dictionaries folder at start-up was read and
    /// parsed: spell checking is switched on and its panel shown.
    pub fn dictionary_autoloaded(&mut self)
        ensures
            final(self).spell_enabled,
            final(self).show_spelling_panel,
            final(self).spell_sugg_cache == old(self).spell_sugg_cache,
            final(self).status_msg@ == old(self).status_msg@,
            final(self).dict_status@ == old(self).dict_status@,
            final(self).dict_dl == old(self).dict_dl,
            doc_same(&*old(self), &*final(self)),
            rest_same(&*old(self), &*final(self)),
    {
        self.spell_enabled = true;
        self.show_spelling_panel = true;
    }
}

} // verus!
