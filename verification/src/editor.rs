//! The editor's document state and its editing commands: inserting and
//! wrapping text at the selection, the link and comment dialogs, and
//! find / replace over the Markdown source.
use vstd::prelude::*;
use crate::format::{decimal, usize_to_decimal};
use crate::review::ReviewItem;
use crate::spell::SpellIssue;
use crate::state::{CommentDialog, LinkDialog, ViewMode};
use crate::replace::{rebuild, replace_ranges, to_ints};
use crate::search::{
    find_from, first_match_from, occurrences_from, offsets_match, search_offsets,
    search_text_offsets,
};
use crate::text::{
    byte_len, byte_offset_of_char, byte_pos, char_index_of_byte, char_of_byte_offset, chars_of,
    is_char_boundary_at, lemma_boundary_char, lemma_byte_pos_mono, max_int, min_int, splice,
    splice_chars, text_len,
};

verus! {

/// The editing state of the main window that the editing commands read and write.
pub struct MdApp {
    /// The Markdown document being edited.
    pub source: String,
    /// Path of the file the document was opened from or saved to.
    pub current_file: Option<String>,
    /// Unsaved changes exist.
    pub modified: bool,
    /// The rendered view must be rebuilt.
    pub segments_dirty: bool,
    /// Text of the status bar.
    pub status_msg: String,
    /// Cursor, as a character index into `source`.
    pub cursor_pos: usize,
    /// Other end of the selection, as a character index into `source`.
    pub selection_anchor: usize,
    /// Cursor and anchor to apply to the source editor on the next frame.
    pub pending_cursor: Option<(usize, usize)>,
    pub view_mode: ViewMode,
    /// The source editor should take keyboard focus on the next frame.
    pub request_source_focus: bool,
    pub link_dialog: LinkDialog,
    pub comment_dialog: CommentDialog,
    /// The find bar is shown.
    pub show_search: bool,
    /// The replace row of the find bar is shown.
    pub search_show_replace: bool,
    pub search_query: String,
    pub replace_query: String,
    pub search_case_sensitive: bool,
    /// Byte offsets of the matches of `search_query`.
    pub search_matches: Vec<usize>,
    /// Index into `search_matches` of the current match.
    pub search_match_idx: usize,
    /// Spell checking is switched on.
    pub spell_enabled: bool,
    /// The spelling panel is shown.
    pub show_spelling_panel: bool,
    /// Misspelled words found in the source.
    pub spell_issues: Vec<SpellIssue>,
    /// Suggestions already computed, per misspelled word.
    pub spell_sugg_cache: Vec<(String, Vec<String>)>,
    /// Tracked changes and comments recovered from an imported DOCX, or added in the editor.
    pub review_items: Vec<ReviewItem>,
    /// The review panel is shown.
    pub show_review_panel: bool,
    /// Passage framed in the editor while its review card is hovered.
    pub review_hl: Option<String>,
    /// Passage marked persistently by clicking its review card.
    pub review_mark: Option<String>,
    /// Last text colour picked in the toolbar.
    pub text_color: [u8; 3],
    /// Last highlight colour picked in the toolbar.
    pub highlight_color: [u8; 3],
    /// Status line of the dictionaries tab.
    pub dict_status: String,
    /// Language tag of the dictionary being downloaded, while a download runs.
    pub dict_dl: Option<String>,
}

/// Start of the selection (the smaller of cursor and anchor).
pub open spec fn sel_start(a: &MdApp) -> int {
    min_int(a.cursor_pos as int, a.selection_anchor as int)
}

/// End of the selection (the larger of cursor and anchor).
pub open spec fn sel_end(a: &MdApp) -> int {
    max_int(a.cursor_pos as int, a.selection_anchor as int)
}

/// The document fields (text, file, dirty flags) are equal.
pub open spec fn doc_same(a: &MdApp, b: &MdApp) -> bool {
    &&& a.source@ == b.source@
    &&& a.current_file == b.current_file
    &&& a.modified == b.modified
    &&& a.segments_dirty == b.segments_dirty
}

/// The cursor and view fields are equal.
pub open spec fn cursor_same(a: &MdApp, b: &MdApp) -> bool {
    &&& a.cursor_pos == b.cursor_pos
    &&& a.selection_anchor == b.selection_anchor
    &&& a.pending_cursor == b.pending_cursor
    &&& a.view_mode == b.view_mode
    &&& a.request_source_focus == b.request_source_focus
}

/// The find / replace fields are equal.
pub open spec fn search_same(a: &MdApp, b: &MdApp) -> bool {
    &&& a.show_search == b.show_search
    &&& a.search_show_replace == b.search_show_replace
    &&& a.search_query@ == b.search_query@
    &&& a.replace_query@ == b.replace_query@
    &&& a.search_case_sensitive == b.search_case_sensitive
    &&& a.search_matches@ == b.search_matches@
    &&& a.search_match_idx == b.search_match_idx
}

/// The dialogs are equal.
pub open spec fn panels_same(a: &MdApp, b: &MdApp) -> bool {
    &&& a.link_dialog == b.link_dialog
    &&& a.comment_dialog == b.comment_dialog
    &&& a.spell_enabled == b.spell_enabled
    &&& a.show_spelling_panel == b.show_spelling_panel
    &&& a.spell_issues == b.spell_issues
    &&& a.spell_sugg_cache == b.spell_sugg_cache
    &&& a.review_items == b.review_items
    &&& a.show_review_panel == b.show_review_panel
    &&& a.review_hl == b.review_hl
    &&& a.review_mark == b.review_mark
    &&& a.text_color == b.text_color
    &&& a.highlight_color == b.highlight_color
    &&& a.dict_status@ == b.dict_status@
    &&& a.dict_dl == b.dict_dl
}

/// Placeholder inserted between the markers when wrapping an empty selection.
pub open spec fn placeholder() -> Seq<char> {
    seq!['t', 'e', 'x', 't']
}

/// The text put between the markers when wrapping characters `[s, e)` of
/// `src`: that text (clamped to `src`), or the placeholder when `s == e`.
pub open spec fn wrap_inner_of(src: Seq<char>, s: int, e: int) -> Seq<char> {
    let n = src.len() as int;
    if s != e {
        src.subrange(min_int(s, n), min_int(e, n))
    } else {
        placeholder()
    }
}

/// The text that `wrap_text` puts between the markers: the selection, or the
/// placeholder when nothing is selected.
pub open spec fn wrap_inner(a: &MdApp) -> Seq<char> {
    wrap_inner_of(a.source@, sel_start(a), sel_end(a))
}

/// `b` is `a` after the selection was replaced by `text`: the cursor right
/// after the inserted text, nothing selected, the document modified.
pub open spec fn text_inserted(a: &MdApp, b: &MdApp, text: Seq<char>) -> bool {
    &&& b.source@ == splice(
        a.source@,
        min_int(sel_start(a), a.source@.len() as int),
        min_int(sel_end(a), a.source@.len() as int),
        text,
    )
    &&& b.cursor_pos == sel_start(a) + text.len()
    &&& b.selection_anchor == b.cursor_pos
    &&& b.pending_cursor == Some((b.cursor_pos, b.cursor_pos))
    &&& b.modified
    &&& b.segments_dirty
    &&& b.status_msg@ == "Modified"@
    &&& b.current_file == a.current_file
    &&& b.view_mode == a.view_mode
    &&& b.request_source_focus == a.request_source_focus
    &&& search_same(a, b)
    &&& panels_same(a, b)
}

/// `b` is `a` after the selection (or the placeholder, when nothing is
/// selected) was wrapped in `before` / `after`: a wrapped selection leaves the
/// cursor after the closing marker; an inserted placeholder is selected, so
/// that typing replaces it.
pub open spec fn text_wrapped(a: &MdApp, b: &MdApp, before: Seq<char>, after: Seq<char>) -> bool {
    &&& b.source@ == splice(
        a.source@,
        min_int(sel_start(a), a.source@.len() as int),
        min_int(sel_end(a), a.source@.len() as int),
        before + wrap_inner(a) + after,
    )
    &&& b.cursor_pos == (if sel_start(a) != sel_end(a) {
        sel_start(a) + before.len() + wrap_inner(a).len() + after.len()
    } else {
        sel_start(a) + before.len() + placeholder().len()
    })
    &&& b.selection_anchor == (if sel_start(a) != sel_end(a) {
        b.cursor_pos as int
    } else {
        sel_start(a) + before.len()
    })
    &&& b.pending_cursor == Some((b.cursor_pos, b.selection_anchor))
    &&& b.modified
    &&& b.segments_dirty
    &&& b.status_msg@ == "Modified"@
    &&& b.current_file == a.current_file
    &&& b.view_mode == a.view_mode
    &&& b.request_source_focus == a.request_source_focus
    &&& search_same(a, b)
    &&& panels_same(a, b)
}

/// Wrapping the selection in `before` / `after` keeps the cursor within `usize`.
pub open spec fn wrap_fits(a: &MdApp, before: Seq<char>, after: Seq<char>) -> bool {
    sel_start(a) + before.len() + wrap_inner(a).len() + after.len() <= usize::MAX
}

/// Wrap characters `[s, e)` of `src` (clamped) in `before` / `after`: the new
/// text, the cursor and the anchor. A wrapped selection leaves both after the
/// closing marker; when `s == e` the inserted placeholder is selected.
fn wrap_selection(src: &str, s: usize, e: usize, before: &str, after: &str) -> (r: (
    String,
    usize,
    usize,
))
    requires
        s <= e,
        s + before@.len() + wrap_inner_of(src@, s as int, e as int).len() + after@.len()
            <= usize::MAX,
    ensures
        r.0@ == splice(
            src@,
            min_int(s as int, src@.len() as int),
            min_int(e as int, src@.len() as int),
            before@ + wrap_inner_of(src@, s as int, e as int) + after@,
        ),
        r.1 == (if s != e {
            s + before@.len() + wrap_inner_of(src@, s as int, e as int).len() + after@.len()
        } else {
            s + before@.len() + placeholder().len()
        }),
        r.2 == (if s != e {
            r.1 as int
        } else {
            s + before@.len()
        }),
{
    let has_sel = s != e;
    let n = src.unicode_len();
    let cs = if s < n {
        s
    } else {
        n
    };
    let ce = if e < n {
        e
    } else {
        n
    };
    let inner = if has_sel {
        String::from_str(src.substring_char(cs, ce))
    } else {
        proof {
            reveal_strlit("text");
        }
        String::from_str("text")
    };
    let mut replacement = String::from_str(before);
    replacement.append(inner.as_str());
    replacement.append(after);
    let out = splice_chars(src, cs, ce, replacement.as_str());
    let before_len = before.unicode_len();
    let inner_len = inner.as_str().unicode_len();
    if has_sel {
        let new_end = s + before_len + inner_len + after.unicode_len();
        (out, new_end, new_end)
    } else {
        (out, s + before_len + inner_len, s + before_len)
    }
}

/// `b` is `a` after "new file": an empty, unsaved, unnamed document.
pub open spec fn document_cleared(a: &MdApp, b: &MdApp) -> bool {
    &&& b.source@ == Seq::<char>::empty()
    &&& b.current_file is None
    &&& !b.modified
    &&& b.segments_dirty
    &&& b.status_msg@ == "New file"@
    &&& *b == (MdApp {
        source: b.source,
        current_file: b.current_file,
        modified: b.modified,
        segments_dirty: b.segments_dirty,
        status_msg: b.status_msg,
        ..*a
    })
}

/// `b` is `a` with the link (or image) dialog opened, its text pre-filled
/// with the selection.
pub open spec fn link_dialog_opened(a: &MdApp, b: &MdApp, is_image: bool) -> bool {
    &&& b.link_dialog.visible
    &&& b.link_dialog.text@ == (if sel_start(a) != sel_end(a) {
        wrap_inner(a)
    } else {
        Seq::<char>::empty()
    })
    &&& b.link_dialog.url@ == Seq::<char>::empty()
    &&& b.link_dialog.is_image == is_image
    &&& *b == (MdApp { link_dialog: b.link_dialog, ..*a })
}

/// `b` is `a` with the matches of the query recomputed.
pub open spec fn matches_recomputed(a: &MdApp, b: &MdApp) -> bool {
    &&& offsets_match(
        b.search_matches@,
        search_offsets(a.source@, a.search_query@, a.search_case_sensitive),
    )
    &&& forall|k: int| 0 <= k < b.search_matches@.len() ==> b.search_matches@[k] <= isize::MAX
    &&& *b == (MdApp { search_matches: b.search_matches, ..*a })
}

/// `b` is `a` after "find next": the matches recomputed and the next one
/// (wrapping around) selected, "Not found" without matches.
pub open spec fn found_next(a: &MdApp, b: &MdApp) -> bool {
    &&& a.search_query@.len() == 0 ==> {
        &&& search_same(a, b)
        &&& cursor_same(a, b)
        &&& b.status_msg@ == a.status_msg@
    }
    &&& a.search_query@.len() > 0 ==> {
        let m = search_offsets(a.source@, a.search_query@, a.search_case_sensitive);
        &&& offsets_match(b.search_matches@, m)
        &&& m.len() == 0 ==> {
            &&& b.search_match_idx == a.search_match_idx
            &&& cursor_same(a, b)
            &&& b.status_msg@ == "Not found"@
        }
        &&& m.len() > 0 ==> {
            &&& b.search_match_idx == next_index(a.search_match_idx as int, m.len() as int)
            &&& jump_fields(
                a.source@,
                a.search_query@,
                a.search_case_sensitive,
                b.search_matches@,
                b.search_match_idx as int,
                a.view_mode,
                b,
            )
        }
    }
    &&& search_settings_same(a, b)
    &&& doc_same(a, b)
    &&& panels_same(a, b)
}

/// `b` is `a` after "find previous": the matches recomputed and the
/// previous one (wrapping around) selected, "Not found" without matches.
pub open spec fn found_prev(a: &MdApp, b: &MdApp) -> bool {
    &&& a.search_query@.len() == 0 ==> {
        &&& search_same(a, b)
        &&& cursor_same(a, b)
        &&& b.status_msg@ == a.status_msg@
    }
    &&& a.search_query@.len() > 0 ==> {
        let m = search_offsets(a.source@, a.search_query@, a.search_case_sensitive);
        &&& offsets_match(b.search_matches@, m)
        &&& m.len() == 0 ==> {
            &&& b.search_match_idx == a.search_match_idx
            &&& cursor_same(a, b)
            &&& b.status_msg@ == "Not found"@
        }
        &&& m.len() > 0 ==> {
            &&& b.search_match_idx == prev_index(a.search_match_idx as int, m.len() as int)
            &&& b.search_match_idx < m.len() ==> jump_fields(
                a.source@,
                a.search_query@,
                a.search_case_sensitive,
                b.search_matches@,
                b.search_match_idx as int,
                a.view_mode,
                b,
            )
            &&& b.search_match_idx >= m.len() ==> {
                &&& cursor_same(a, b)
                &&& b.status_msg@ == "No match"@
            }
        }
    }
    &&& search_settings_same(a, b)
    &&& doc_same(a, b)
    &&& panels_same(a, b)
}

impl MdApp {
    /// A blank document in Source view with an empty search.
    pub fn new() -> (app: Self)
        ensures
            app.source@ == Seq::<char>::empty(),
            app.current_file is None,
            !app.modified,
            !app.segments_dirty,
            app.status_msg@ == Seq::<char>::empty(),
            app.cursor_pos == 0,
            app.selection_anchor == 0,
            app.pending_cursor is None,
            app.view_mode == ViewMode::Source,
            !app.request_source_focus,
            !app.link_dialog.visible,
            !app.comment_dialog.visible,
            !app.show_search,
            !app.search_show_replace,
            app.search_query@ == Seq::<char>::empty(),
            app.replace_query@ == Seq::<char>::empty(),
            !app.search_case_sensitive,
            app.search_matches@.len() == 0,
            app.search_match_idx == 0,
            !app.spell_enabled,
            !app.show_spelling_panel,
            app.spell_issues@.len() == 0,
            app.spell_sugg_cache@.len() == 0,
            app.review_items@.len() == 0,
            !app.show_review_panel,
            app.review_hl is None,
            app.review_mark is None,
            app.text_color@ == seq![0u8, 0u8, 0u8],
            app.highlight_color@ == seq![255u8, 255u8, 0u8],
            app.dict_status@ == Seq::<char>::empty(),
            app.dict_dl is None,
    {
        MdApp {
            source: String::new(),
            current_file: None,
            modified: false,
            segments_dirty: false,
            status_msg: String::new(),
            cursor_pos: 0,
            selection_anchor: 0,
            pending_cursor: None,
            view_mode: ViewMode::Source,
            request_source_focus: false,
            link_dialog: LinkDialog {
                visible: false,
                text: String::new(),
                url: String::new(),
                is_image: false,
            },
            comment_dialog: CommentDialog {
                visible: false,
                anchor: String::new(),
                body: String::new(),
            },
            show_search: false,
            search_show_replace: false,
            search_query: String::new(),
            replace_query: String::new(),
            search_case_sensitive: false,
            search_matches: Vec::new(),
            search_match_idx: 0,
            spell_enabled: false,
            show_spelling_panel: false,
            spell_issues: Vec::new(),
            spell_sugg_cache: Vec::new(),
            review_items: Vec::new(),
            show_review_panel: false,
            review_hl: None,
            review_mark: None,
            text_color: [0, 0, 0],
            highlight_color: [255, 255, 0],
            dict_status: String::new(),
            dict_dl: None,
        }
    }

    /// Start a new, empty, unsaved document.
    pub fn do_new(&mut self)
        ensures
            document_cleared(&*old(self), &*final(self)),
    {
        self.source = String::new();
        self.current_file = None;
        self.modified = false;
        self.segments_dirty = true;
        self.status_msg = String::from_str("New file");
    }

    /// Schedule a cursor move for the next frame (applied by the source editor).
    pub fn apply_cursor_to_editor_state(&mut self)
        ensures
            *final(self) == (MdApp {
                pending_cursor: Some((old(self).cursor_pos, old(self).selection_anchor)),
                ..*old(self)
            }),
    {
        self.pending_cursor = Some((self.cursor_pos, self.selection_anchor));
    }

    /// Replace the selection with `text` and put the cursor right after it.
    pub fn insert_text(&mut self, text: &str)
        requires
            sel_start(&*old(self)) + text@.len() <= usize::MAX,
        ensures
            text_inserted(&*old(self), &*final(self), text@),
    {
        let s = if self.cursor_pos <= self.selection_anchor {
            self.cursor_pos
        } else {
            self.selection_anchor
        };
        let e = if self.cursor_pos <= self.selection_anchor {
            self.selection_anchor
        } else {
            self.cursor_pos
        };
        let n = self.source.unicode_len();
        let cs = if s < n {
            s
        } else {
            n
        };
        let ce = if e < n {
            e
        } else {
            n
        };
        self.source = splice_chars(self.source.as_str(), cs, ce, text);
        let new_pos = s + text.unicode_len();
        self.cursor_pos = new_pos;
        self.selection_anchor = new_pos;
        self.apply_cursor_to_editor_state();
        self.modified = true;
        self.segments_dirty = true;
        self.status_msg = String::from_str("Modified");
    }

    /// Wrap the selection in `before` / `after`: "hello" becomes "**hello**"
    /// and the cursor goes after the closing marker. With no selection, insert
    /// `before` + "text" + `after` and select the placeholder "text".
    pub fn wrap_text(&mut self, before: &str, after: &str)
        requires
            wrap_fits(&*old(self), before@, after@),
        ensures
            text_wrapped(&*old(self), &*final(self), before@, after@),
    {
        let s = if self.cursor_pos <= self.selection_anchor {
            self.cursor_pos
        } else {
            self.selection_anchor
        };
        let e = if self.cursor_pos <= self.selection_anchor {
            self.selection_anchor
        } else {
            self.cursor_pos
        };
        let (src, cursor, anchor) = wrap_selection(self.source.as_str(), s, e, before, after);
        self.source = src;
        self.cursor_pos = cursor;
        self.selection_anchor = anchor;
        self.apply_cursor_to_editor_state();
        self.modified = true;
        self.segments_dirty = true;
        self.status_msg = String::from_str("Modified");
    }

    /// Wrap the selection (or a placeholder) in an HTML alignment block;
    /// `align` is one of left | center | right | justify.
    pub fn wrap_block_align(&mut self, align: &str)
        requires
            sel_start(&*old(self)) + 27 + align@.len() + wrap_inner(&*old(self)).len() + 8
                <= usize::MAX,
        ensures
            text_wrapped(
                &*old(self),
                &*final(self),
                "<div style=\"text-align:"@ + align@ + "\">\n\n"@,
                "\n\n</div>"@,
            ),
    {
        proof {
            reveal_strlit("<div style=\"text-align:");
            reveal_strlit("\">\n\n");
            reveal_strlit("\n\n</div>");
        }
        let mut open = String::from_str("<div style=\"text-align:");
        open.append(align);
        open.append("\">\n\n");
        self.wrap_text(open.as_str(), "\n\n</div>");
        proof {
            assert(open@ + wrap_inner(&*old(self)) + "\n\n</div>"@ =~= "<div style=\"text-align:"@
                + align@ + "\">\n\n"@ + wrap_inner(&*old(self)) + "\n\n</div>"@);
        }
    }

    /// Open the link / image dialog with its text field pre-filled with the
    /// selected text, so that Insert keeps that text.
    pub fn open_link_dialog(&mut self, is_image: bool)
        ensures
            link_dialog_opened(&*old(self), &*final(self), is_image),
    {
        let s = if self.cursor_pos <= self.selection_anchor {
            self.cursor_pos
        } else {
            self.selection_anchor
        };
        let e = if self.cursor_pos <= self.selection_anchor {
            self.selection_anchor
        } else {
            self.cursor_pos
        };
        let text = if s != e {
            let n = self.source.unicode_len();
            let cs = if s < n {
                s
            } else {
                n
            };
            let ce = if e < n {
                e
            } else {
                n
            };
            String::from_str(self.source.as_str().substring_char(cs, ce))
        } else {
            String::new()
        };
        self.link_dialog = LinkDialog { visible: true, text, url: String::new(), is_image };
    }

    /// Open the comment-authoring dialog anchored to the given passage.
    pub fn open_comment_dialog(&mut self, anchor: String)
        ensures
            final(self).comment_dialog.visible,
            final(self).comment_dialog.anchor@ == anchor@,
            final(self).comment_dialog.body@ == Seq::<char>::empty(),
            final(self).link_dialog == old(self).link_dialog,
            final(self).status_msg@ == old(self).status_msg@,
            doc_same(&*old(self), &*final(self)),
            cursor_same(&*old(self), &*final(self)),
            search_same(&*old(self), &*final(self)),
            *final(self) == (MdApp { comment_dialog: final(self).comment_dialog, ..*old(self) }),
    {
        self.comment_dialog = CommentDialog { visible: true, anchor, body: String::new() };
    }
}


/// The find-bar settings (visibility, query, replacement, case) are equal.
pub open spec fn search_settings_same(a: &MdApp, b: &MdApp) -> bool {
    &&& a.show_search == b.show_search
    &&& a.search_show_replace == b.search_show_replace
    &&& a.search_query@ == b.search_query@
    &&& a.replace_query@ == b.replace_query@
    &&& a.search_case_sensitive == b.search_case_sensitive
}

/// Status text "Match i of n".
pub open spec fn match_status(i: nat, n: nat) -> Seq<char> {
    "Match "@ + decimal(i) + " of "@ + decimal(n)
}

/// Index of the next match, wrapping to the first after the last.
pub open spec fn next_index(i: int, n: int) -> int {
    (i + 1) % n
}

/// Index of the previous match, wrapping to the last before the first.
pub open spec fn prev_index(i: int, n: int) -> int {
    if i == 0 {
        n - 1
    } else {
        i - 1
    }
}

/// Byte offset where the match starting at byte `start` ends in `src`. A
/// case-sensitive match is as long as the query in bytes; a case-insensitive
/// one is as long as the query in characters (its bytes may differ). Both are
/// clamped to the end of `src`.
pub open spec fn match_end(src: Seq<char>, query: Seq<char>, start: int, cs: bool) -> int {
    if cs {
        min_int(start + byte_len(query), byte_len(src) as int)
    } else {
        byte_pos(
            src,
            min_int(char_index_of_byte(src, start) + query.len(), src.len() as int),
        ) as int
    }
}

/// The cursor fields of `b` select match `idx` of `matches` in `src`: the
/// anchor at its start, the cursor at its end (as character indices), the
/// view switched from Editor to Split, and the status "Match idx+1 of n".
pub open spec fn jump_fields(
    src: Seq<char>,
    query: Seq<char>,
    cs: bool,
    matches: Seq<usize>,
    idx: int,
    view: ViewMode,
    b: &MdApp,
) -> bool {
    &&& b.selection_anchor == char_index_of_byte(src, matches[idx] as int)
    &&& b.cursor_pos == char_index_of_byte(src, match_end(src, query, matches[idx] as int, cs))
    &&& b.pending_cursor == Some((b.cursor_pos, b.selection_anchor))
    &&& b.view_mode == (if view == ViewMode::Editor {
        ViewMode::Split
    } else {
        view
    })
    &&& b.request_source_focus
    &&& b.status_msg@ == match_status((idx + 1) as nat, matches.len())
}

/// The search results fit the offsets and the query in `usize` arithmetic.
pub open spec fn matches_in_range(a: &MdApp) -> bool {
    a.search_case_sensitive ==> forall|k: int|
        0 <= k < a.search_matches@.len() ==> a.search_matches@[k] + byte_len(a.search_query@)
            <= usize::MAX
}

fn match_status_text(i: usize, n: usize) -> (s: String)
    ensures
        s@ == match_status(i as nat, n as nat),
{
    let mut s = String::from_str("Match ");
    s.append(usize_to_decimal(i).as_str());
    s.append(" of ");
    s.append(usize_to_decimal(n).as_str());
    s
}

impl MdApp {
    /// Recompute the byte offsets of all matches of the query in the source
    /// (leftmost, non-overlapping; compared in lower case unless the search
    /// is case sensitive).
    pub fn compute_search_matches(&mut self)
        ensures
            matches_recomputed(&*old(self), &*final(self)),
    {
        self.search_matches = search_text_offsets(
            self.source.as_str(),
            self.search_query.as_str(),
            self.search_case_sensitive,
        );
    }

    /// Select the current match in the source (anchor at its start, cursor
    /// at its end), reveal it and report "Match i of n"; "No match" when the
    /// index is past the matches.
    pub fn jump_to_match(&mut self)
        requires
            matches_in_range(&*old(self)),
        ensures
            old(self).search_match_idx < old(self).search_matches@.len() ==> jump_fields(
                old(self).source@,
                old(self).search_query@,
                old(self).search_case_sensitive,
                old(self).search_matches@,
                old(self).search_match_idx as int,
                old(self).view_mode,
                &*final(self),
            ),
            old(self).search_match_idx >= old(self).search_matches@.len() ==> {
                &&& cursor_same(&*old(self), &*final(self))
                &&& final(self).status_msg@ == "No match"@
            },
            search_same(&*old(self), &*final(self)),
            doc_same(&*old(self), &*final(self)),
            panels_same(&*old(self), &*final(self)),
    {
        let idx = self.search_match_idx;
        if idx >= self.search_matches.len() {
            self.status_msg = String::from_str("No match");
            return;
        }
        let byte_start = self.search_matches[idx];
        let slen = text_len(self.source.as_str());
        let chars = chars_of(self.source.as_str());
        let byte_end = match_end_of(
            &chars,
            slen,
            self.search_query.as_str(),
            byte_start,
            self.search_case_sensitive,
        );
        let char_start = char_of_byte_offset(&chars, byte_start);
        let char_end = char_of_byte_offset(&chars, byte_end);
        self.cursor_pos = char_end;
        self.selection_anchor = char_start;
        self.apply_cursor_to_editor_state();
        match self.view_mode {
            ViewMode::Editor => {
                self.view_mode = ViewMode::Split;
            },
            _ => {},
        }
        self.request_source_focus = true;
        let total = self.search_matches.len();
        self.status_msg = match_status_text(idx + 1, total);
    }

    /// Go to the next match (wrapping around), after recomputing the matches.
    pub fn do_find_next(&mut self)
        requires
            old(self).search_query@.len() > 0 ==> old(self).search_match_idx < usize::MAX,
        ensures
            found_next(&*old(self), &*final(self)),
    {
        if self.search_query.as_str().is_empty() {
            return;
        }
        let _q = text_len(self.search_query.as_str());
        self.compute_search_matches();
        if self.search_matches.len() == 0 {
            self.status_msg = String::from_str("Not found");
            return;
        }
        self.search_match_idx = (self.search_match_idx + 1) % self.search_matches.len();
        self.jump_to_match();
    }

    /// Go to the previous match (wrapping around), after recomputing the matches.
    pub fn do_find_prev(&mut self)
        ensures
            found_prev(&*old(self), &*final(self)),
    {
        if self.search_query.as_str().is_empty() {
            return;
        }
        let _q = text_len(self.search_query.as_str());
        self.compute_search_matches();
        if self.search_matches.len() == 0 {
            self.status_msg = String::from_str("Not found");
            return;
        }
        let len = self.search_matches.len();
        self.search_match_idx = if self.search_match_idx == 0 {
            len - 1
        } else {
            self.search_match_idx - 1
        };
        self.jump_to_match();
    }
}


/// The cursor fields and status of `b` after jumping from `a` to the first
/// occurrence of `needle`: the occurrence selected (anchor at its start,
/// cursor after it) and revealed, or "Reviewed text not found in the
/// recovered document"; nothing for an empty needle.
pub open spec fn text_jump(a: &MdApp, needle: Seq<char>, b: &MdApp) -> bool {
    if needle.len() == 0 {
        &&& cursor_same(a, b)
        &&& b.status_msg@ == a.status_msg@
    } else {
        let j = first_match_from(a.source@, needle, 0, true);
        if j >= 0 {
            &&& b.selection_anchor == j
            &&& b.cursor_pos == j + needle.len()
            &&& b.pending_cursor == Some((b.cursor_pos, b.selection_anchor))
            &&& b.view_mode == (if a.view_mode == ViewMode::Editor {
                ViewMode::Split
            } else {
                a.view_mode
            })
            &&& b.request_source_focus
            &&& b.status_msg@ == "Jumped to reviewed text"@
        } else {
            &&& cursor_same(a, b)
            &&& b.status_msg@ == "Reviewed text not found in the recovered document"@
        }
    }
}

/// The current match can be replaced: the index is in range and the match's
/// start and (clamped) end bytes are character boundaries of the source.
pub open spec fn replace_current_ok(a: &MdApp) -> bool {
    a.search_matches@.len() > 0 ==> {
        let bs = a.search_matches@[a.search_match_idx as int] as int;
        let cs = a.search_case_sensitive;
        &&& a.search_match_idx < a.search_matches@.len()
        &&& cs ==> bs + byte_len(a.search_query@) <= usize::MAX
        &&& bs <= match_end(a.source@, a.search_query@, bs, cs)
        &&& is_char_boundary_at(a.source@, bs)
        &&& is_char_boundary_at(a.source@, match_end(a.source@, a.search_query@, bs, cs))
    }
}

/// The source with the current match replaced by the replacement text.
pub open spec fn replaced_current(a: &MdApp) -> Seq<char> {
    let bs = a.search_matches@[a.search_match_idx as int] as int;
    splice(
        a.source@,
        char_index_of_byte(a.source@, bs),
        char_index_of_byte(
            a.source@,
            match_end(a.source@, a.search_query@, bs, a.search_case_sensitive),
        ),
        a.replace_query@,
    )
}

/// The source with every match of the query replaced by the replacement
/// text: each occurrence, as many characters long as the query, becomes the
/// replacement.
pub open spec fn replaced_all(a: &MdApp) -> Seq<char> {
    let occ = occurrences_from(a.source@, a.search_query@, 0, a.search_case_sensitive);
    rebuild(
        a.source@,
        occ,
        occ.map_values(|o: int| o + a.search_query@.len()),
        a.replace_query@,
        0,
        0,
    )
}

/// Status text "Replaced n occurrence(s)".
pub open spec fn replaced_status(n: nat) -> Seq<char> {
    "Replaced "@ + decimal(n) + " occurrence"@ + (if n == 1 {
        Seq::<char>::empty()
    } else {
        "s"@
    })
}

/// What `do_replace_all` leaves behind, given the state before it.
pub open spec fn replace_all_effect(a: &MdApp, b: &MdApp) -> bool {
    let m = search_offsets(a.source@, a.search_query@, a.search_case_sensitive);
    &&& search_settings_same(a, b)
    &&& cursor_same(a, b)
    &&& panels_same(a, b)
    &&& b.current_file == a.current_file
    &&& a.search_query@.len() == 0 ==> {
        &&& doc_same(a, b)
        &&& search_same(a, b)
        &&& b.status_msg@ == a.status_msg@
    }
    &&& a.search_query@.len() > 0 && m.len() == 0 ==> {
        &&& doc_same(a, b)
        &&& b.search_matches@.len() == 0
        &&& b.search_match_idx == a.search_match_idx
        &&& b.status_msg@ == "Not found"@
    }
    &&& a.search_query@.len() > 0 && m.len() > 0 ==> {
        &&& b.source@ == replaced_all(a)
        &&& b.modified
        &&& b.segments_dirty
        &&& b.search_matches@.len() == 0
        &&& b.search_match_idx == 0
        &&& b.status_msg@ == replaced_status(m.len())
    }
}

fn replaced_status_text(n: usize) -> (s: String)
    ensures
        s@ == replaced_status(n as nat),
{
    let mut s = String::from_str("Replaced ");
    s.append(usize_to_decimal(n).as_str());
    s.append(" occurrence");
    if n != 1 {
        s.append("s");
    } else {
        proof {
            assert(s@ + Seq::<char>::empty() =~= s@);
        }
    }
    s
}

/// Byte offset where the match starting at byte `start` ends in the text
/// whose characters are `v` and byte length `slen` (see [`match_end`]).
fn match_end_of(v: &Vec<char>, slen: usize, query: &str, start: usize, cs: bool) -> (r: usize)
    requires
        slen == byte_len(v@),
        slen <= isize::MAX,
        cs ==> start + byte_len(query@) <= usize::MAX,
    ensures
        r == match_end(v@, query@, start as int, cs),
{
    let qlen = text_len(query);
    if cs {
        let reach = start + qlen;
        if reach < slen {
            reach
        } else {
            slen
        }
    } else {
        let n = v.len();
        let qn = query.unicode_len();
        let c = char_of_byte_offset(v, start);
        let e = if qn >= n - c {
            n
        } else {
            c + qn
        };
        byte_offset_of_char(v, e)
    }
}

impl MdApp {
    /// Replace the current match with the replacement text, recompute the
    /// matches and go to the match now at the same index (or the last one);
    /// with no match left, report "All occurrences replaced".
    pub fn do_replace_current(&mut self)
        requires
            replace_current_ok(&*old(self)),
        ensures
            old(self).search_matches@.len() == 0 ==> {
                &&& doc_same(&*old(self), &*final(self))
                &&& cursor_same(&*old(self), &*final(self))
                &&& search_same(&*old(self), &*final(self))
                &&& final(self).status_msg@ == old(self).status_msg@
            },
            old(self).search_matches@.len() > 0 ==> {
                let src2 = replaced_current(&*old(self));
                let m = search_offsets(src2, old(self).search_query@, old(self).search_case_sensitive);
                &&& final(self).source@ == src2
                &&& final(self).modified
                &&& final(self).segments_dirty
                &&& offsets_match(final(self).search_matches@, m)
                &&& m.len() > 0 ==> {
                    &&& final(self).search_match_idx == min_int(
                        old(self).search_match_idx as int,
                        m.len() - 1,
                    )
                    &&& jump_fields(
                        src2,
                        old(self).search_query@,
                        old(self).search_case_sensitive,
                        final(self).search_matches@,
                        final(self).search_match_idx as int,
                        old(self).view_mode,
                        &*final(self),
                    )
                }
                &&& m.len() == 0 ==> {
                    &&& final(self).search_match_idx == old(self).search_match_idx
                    &&& cursor_same(&*old(self), &*final(self))
                    &&& final(self).status_msg@ == "All occurrences replaced"@
                }
            },
            final(self).current_file == old(self).current_file,
            search_settings_same(&*old(self), &*final(self)),
            panels_same(&*old(self), &*final(self)),
    {
        if self.search_matches.len() == 0 {
            return;
        }
        let bs = self.search_matches[self.search_match_idx];
        let _qlen = text_len(self.search_query.as_str());
        let slen = text_len(self.source.as_str());
        let chars = chars_of(self.source.as_str());
        let be = match_end_of(
            &chars,
            slen,
            self.search_query.as_str(),
            bs,
            self.search_case_sensitive,
        );
        let cs = char_of_byte_offset(&chars, bs);
        let ce = char_of_byte_offset(&chars, be);
        proof {
            lemma_boundary_char(self.source@, bs as int);
            lemma_boundary_char(self.source@, be as int);
            if cs > ce {
                lemma_byte_pos_mono(self.source@, ce as int, cs as int);
            }
        }
        self.source = splice_chars(self.source.as_str(), cs, ce, self.replace_query.as_str());
        self.modified = true;
        self.segments_dirty = true;
        self.compute_search_matches();
        if self.search_matches.len() > 0 {
            let last = self.search_matches.len() - 1;
            if self.search_match_idx > last {
                self.search_match_idx = last;
            }
            self.jump_to_match();
        } else {
            self.status_msg = String::from_str("All occurrences replaced");
        }
    }

    /// Replace every match of the query with the replacement text (from the
    /// last match to the first, so that earlier byte offsets stay valid) and
    /// report how many were replaced.
    pub fn do_replace_all(&mut self)
        ensures
            replace_all_effect(&*old(self), &*final(self)),
    {
        if self.search_query.as_str().is_empty() {
            return;
        }
        self.compute_search_matches();
        let count = self.search_matches.len();
        if count == 0 {
            self.status_msg = String::from_str("Not found");
            return;
        }
        let slen = text_len(self.source.as_str());
        let _qlen = text_len(self.search_query.as_str());
        let ghost src = self.source@;
        let ghost q = self.search_query@;
        let ghost cs = self.search_case_sensitive;
        let ghost m = search_offsets(src, q, cs);
        proof {
            crate::laws::law_replace_all_ranges(src, q, cs);
            assert(to_ints(self.search_matches@) =~= m);
        }
        let v = chars_of(self.source.as_str());
        let mut ends: Vec<usize> = Vec::new();
        let mut k: usize = 0;
        while k < count
            invariant
                k <= count == self.search_matches@.len() == m.len(),
                v@ == src,
                self.source@ == src,
                self.search_query@ == q,
                self.search_case_sensitive == cs,
                slen == byte_len(src),
                slen <= isize::MAX,
                q.len() > 0,
                to_ints(self.search_matches@) == m,
                cs ==> forall|t: int|
                    0 <= t < m.len() ==> #[trigger] m[t] + byte_len(q) <= byte_len(src),
                ends@.len() == k,
                forall|t: int|
                    0 <= t < k ==> #[trigger] ends@[t] as int == match_end(src, q, m[t], cs),
            decreases count - k,
        {
            let b = self.search_matches[k];
            proof {
                assert(m[k as int] == b as int);
            }
            let e = match_end_of(&v, slen, self.search_query.as_str(), b, self.search_case_sensitive);
            ends.push(e);
            k = k + 1;
        }
        proof {
            assert(to_ints(ends@) =~= m.map_values(|b: int| match_end(src, q, b, cs)));
        }
        self.source = replace_ranges(
            self.source.as_str(),
            &self.search_matches,
            &ends,
            self.replace_query.as_str(),
        );
        self.modified = true;
        self.segments_dirty = true;
        self.search_matches = Vec::new();
        self.search_match_idx = 0;
        self.status_msg = replaced_status_text(count);
    }

    /// Select the first occurrence of `needle` in the source and reveal it
    /// (switching Editor-only view to Split).
    pub fn jump_to_text(&mut self, needle: &str)
        ensures
            text_jump(&*old(self), needle@, &*final(self)),
            doc_same(&*old(self), &*final(self)),
            search_same(&*old(self), &*final(self)),
            panels_same(&*old(self), &*final(self)),
            *final(self) == (MdApp {
                selection_anchor: final(self).selection_anchor,
                cursor_pos: final(self).cursor_pos,
                pending_cursor: final(self).pending_cursor,
                view_mode: final(self).view_mode,
                request_source_focus: final(self).request_source_focus,
                status_msg: final(self).status_msg,
                ..*old(self)
            }),
    {
        if needle.is_empty() {
            return;
        }
        let sv = chars_of(self.source.as_str());
        let nv = chars_of(needle);
        match find_from(self.source.as_str(), &sv, &nv, "", 0, true) {
            Some(j) => {
                let total = sv.len();
                proof {
                    crate::search::lemma_first_match(sv@, nv@, 0, true);
                    assert(total == sv@.len());
                    assert(j + nv@.len() <= sv@.len());
                }
                self.selection_anchor = j;
                self.cursor_pos = j + nv.len();
                match self.view_mode {
                    ViewMode::Editor => {
                        self.view_mode = ViewMode::Split;
                    },
                    _ => {},
                }
                self.request_source_focus = true;
                self.apply_cursor_to_editor_state();
                self.status_msg = String::from_str("Jumped to reviewed text");
            },
            None => {
                self.status_msg = String::from_str(
                    "Reviewed text not found in the recovered document",
                );
            },
        }
    }
}

} // verus!
