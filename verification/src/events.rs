//! What the editor does with the user's actions in its panels and find bar,
//! and which command a keyboard shortcut stands for.
use vstd::prelude::*;
use crate::commands::{
    format_markers, snippet_text, trim, trimmed, view_switched, InlineFormat, Snippet,
};
use crate::editor::{
    cursor_same, doc_same, document_cleared, found_next, found_prev, link_dialog_opened,
    matches_recomputed, search_same, sel_start, text_inserted, text_jump,
    text_wrapped, wrap_fits, MdApp,
};
use crate::format::{decimal, usize_to_decimal};
use crate::review::{ReviewItem, ReviewKind};
use crate::state::ViewMode;

verus! {

/// The review mark after clicking the card anchored to `a`: cleared when it
/// was already on that passage, set to it otherwise.
pub open spec fn toggled_mark(mark: Option<String>, a: Seq<char>) -> Option<Seq<char>> {
    match mark {
        Some(m) => if m@ == a {
            None
        } else {
            Some(a)
        },
        None => Some(a),
    }
}

/// The character view of an optional text.
pub open spec fn opt_text(o: Option<String>) -> Option<Seq<char>> {
    match o {
        Some(s) => Some(s@),
        None => None,
    }
}

/// The items of the review panel after "Dismiss" on item `dismiss`.
pub open spec fn dismissed(items: Seq<ReviewItem>, dismiss: Option<usize>) -> Seq<ReviewItem> {
    match dismiss {
        Some(i) => if i < items.len() {
            items.remove(i as int)
        } else {
            items
        },
        None => items,
    }
}

/// `b` is `a` after the comment dialog's buttons: "Add" with a non-blank
/// body appends a comment by "You" dated `date`, "Cancel" or a blank "Add"
/// closes the dialog.
pub open spec fn comment_submitted(
    a: &MdApp,
    b: &MdApp,
    add: bool,
    cancel: bool,
    date: Seq<char>,
) -> bool {
    &&& ({
        let body = trimmed(a.comment_dialog.body@);
        if !a.comment_dialog.visible {
            &&& b.comment_dialog == a.comment_dialog
            &&& b.review_items == a.review_items
            &&& b.show_review_panel == a.show_review_panel
            &&& b.status_msg@ == a.status_msg@
        } else if add && body.len() > 0 {
            let item = b.review_items@.last();
            &&& b.review_items@.len() == a.review_items@.len() + 1
            &&& b.review_items@.drop_last() =~= a.review_items@
            &&& item.kind == ReviewKind::Comment
            &&& item.author@ == "You"@
            &&& item.date@ == date
            &&& item.text@ == body
            &&& item.context@ == a.comment_dialog.anchor@
            &&& b.show_review_panel
            &&& !b.comment_dialog.visible
            &&& b.status_msg@ == "Comment added"@
        } else {
            &&& b.comment_dialog.visible == (a.comment_dialog.visible && !cancel && !add)
            &&& b.review_items == a.review_items
            &&& b.show_review_panel == a.show_review_panel
            &&& b.status_msg@ == a.status_msg@
        }
    })
    &&& b.comment_dialog.anchor == a.comment_dialog.anchor
    &&& b.comment_dialog.body == a.comment_dialog.body
    &&& *b == (MdApp {
        comment_dialog: b.comment_dialog,
        review_items: b.review_items,
        show_review_panel: b.show_review_panel,
        status_msg: b.status_msg,
        ..*a
    })
}

impl MdApp {
    /// Apply what the user did in the review panel this frame: close it,
    /// frame the hovered item's passage, toggle the mark on a clicked item's
    /// passage, jump to an item's passage, dismiss an item (the panel closes
    /// when none is left). Nothing happens while the panel is hidden or empty.
    #[verifier::spinoff_prover]
    #[verifier::rlimit(40)]
    pub fn apply_review_events(
        &mut self,
        close: bool,
        hover: Option<String>,
        click: Option<String>,
        jump: Option<String>,
        dismiss: Option<usize>,
    )
        ensures
            !old(self).show_review_panel || old(self).review_items@.len() == 0 ==> {
                &&& cursor_same(&*old(self), &*final(self))
                &&& final(self).status_msg@ == old(self).status_msg@
                &&& final(self).review_items == old(self).review_items
                &&& final(self).show_review_panel == old(self).show_review_panel
                &&& final(self).review_hl == old(self).review_hl
                &&& final(self).review_mark == old(self).review_mark
            },
            old(self).show_review_panel && old(self).review_items@.len() > 0 ==> {
                &&& final(self).review_items@ == dismissed(old(self).review_items@, dismiss)
                &&& final(self).show_review_panel == (!close && final(self).review_items@.len() > 0)
                &&& opt_text(final(self).review_hl) == opt_text(hover)
                &&& match click {
                    Some(a) => opt_text(final(self).review_mark) == toggled_mark(
                        old(self).review_mark,
                        a@,
                    ),
                    None => final(self).review_mark == old(self).review_mark,
                }
                &&& match jump {
                    Some(t) => text_jump(&*old(self), t@, &*final(self)),
                    None => cursor_same(&*old(self), &*final(self)) && final(self).status_msg@
                        == old(self).status_msg@,
                }
            },
            doc_same(&*old(self), &*final(self)),
            search_same(&*old(self), &*final(self)),
            *final(self) == (MdApp {
                review_items: final(self).review_items,
                show_review_panel: final(self).show_review_panel,
                review_hl: final(self).review_hl,
                review_mark: final(self).review_mark,
                cursor_pos: final(self).cursor_pos,
                selection_anchor: final(self).selection_anchor,
                pending_cursor: final(self).pending_cursor,
                view_mode: final(self).view_mode,
                request_source_focus: final(self).request_source_focus,
                status_msg: final(self).status_msg,
                ..*old(self)
            }),
    {
        if !self.show_review_panel || self.review_items.len() == 0 {
            return;
        }
        if close {
            self.show_review_panel = false;
        }
        self.review_hl = hover;
        match click {
            Some(a) => self.toggle_review_mark(a),
            None => {},
        }
        match jump {
            Some(t) => self.jump_to_text(t.as_str()),
            None => {},
        }
        self.dismiss_review_item(dismiss);
    }

    /// Toggle the mark on the passage `a` of a clicked review card.
    fn toggle_review_mark(&mut self, a: String)
        ensures
            opt_text(final(self).review_mark) == toggled_mark(old(self).review_mark, a@),
            *final(self) == (MdApp { review_mark: final(self).review_mark, ..*old(self) }),
    {
        let same = match &self.review_mark {
            Some(m) => crate::mcp::same_text(m.as_str(), a.as_str()),
            None => false,
        };
        self.review_mark = if same {
            None
        } else {
            Some(a)
        };
    }

    /// Dismiss review item `dismiss` when there is one; the panel closes once
    /// no item is left.
    fn dismiss_review_item(&mut self, dismiss: Option<usize>)
        requires
            old(self).review_items@.len() > 0,
        ensures
            final(self).review_items@ == dismissed(old(self).review_items@, dismiss),
            final(self).show_review_panel == (old(self).show_review_panel
                && final(self).review_items@.len() > 0),
            *final(self) == (MdApp {
                review_items: final(self).review_items,
                show_review_panel: final(self).show_review_panel,
                ..*old(self)
            }),
    {
        match dismiss {
            Some(i) => {
                if i < self.review_items.len() {
                    self.review_items.remove(i);
                }
                if self.review_items.len() == 0 {
                    self.show_review_panel = false;
                }
            },
            None => {},
        }
    }

    /// The comment dialog's buttons: "Add" with a non-blank body appends a
    /// comment by "You" dated `date` (body trimmed, anchored to the dialog's
    /// passage), opens the review panel and closes the dialog; "Cancel", or
    /// "Add" with a blank body, closes the dialog.
    pub fn submit_comment_dialog(&mut self, add: bool, cancel: bool, date: String)
        ensures
            comment_submitted(&*old(self), &*final(self), add, cancel, date@),
    {
        if !self.comment_dialog.visible {
            return;
        }
        let body = trim(self.comment_dialog.body.as_str());
        let blank = body.as_str().is_empty();
        if add && !blank {
            let item = ReviewItem {
                kind: ReviewKind::Comment,
                author: String::from_str("You"),
                date,
                text: body,
                context: self.comment_dialog.anchor.clone(),
            };
            self.review_items.push(item);
            self.show_review_panel = true;
            self.comment_dialog.visible = false;
            self.status_msg = String::from_str("Comment added");
        } else if cancel || (add && blank) {
            self.comment_dialog.visible = false;
        }
    }

    /// The find field was edited: go back to the first match and recompute
    /// the matches.
    pub fn search_query_changed(&mut self)
        ensures
            matches_recomputed(&(MdApp { search_match_idx: 0, ..*old(self) }), &*final(self)),
    {
        self.search_match_idx = 0;
        self.compute_search_matches();
    }

    /// The match counter of the find bar: nothing for an empty query, "No
    /// match" without matches, otherwise "i/n" for match `i` (from 1) of `n`.
    pub fn match_counter(&self) -> (r: Option<String>)
        requires
            self.search_query@.len() > 0 && self.search_matches@.len() > 0 ==> self.search_match_idx
                < usize::MAX,
        ensures
            self.search_query@.len() == 0 ==> r is None,
            self.search_query@.len() > 0 && self.search_matches@.len() == 0 ==> (r matches Some(t)
                && t@ == "No match"@),
            self.search_query@.len() > 0 && self.search_matches@.len() > 0 ==> (r matches Some(t)
                && t@ == decimal(self.search_match_idx as nat + 1) + "/"@ + decimal(
                self.search_matches@.len(),
            )),
    {
        if self.search_query.as_str().is_empty() {
            return None;
        }
        let count = self.search_matches.len();
        if count == 0 {
            return Some(String::from_str("No match"));
        }
        let mut t = usize_to_decimal(self.search_match_idx + 1);
        t.append("/");
        t.append(usize_to_decimal(count).as_str());
        Some(t)
    }

    /// The "Aa" toggle: flip case sensitivity, go back to the first match and
    /// recompute the matches.
    pub fn toggle_case_sensitive(&mut self)
        ensures
            matches_recomputed(
                &(MdApp {
                    search_case_sensitive: !old(self).search_case_sensitive,
                    search_match_idx: 0,
                    ..*old(self)
                }),
                &*final(self),
            ),
    {
        self.search_case_sensitive = !self.search_case_sensitive;
        self.search_match_idx = 0;
        self.compute_search_matches();
    }
}

/// A key the editor reacts to.
#[derive(PartialEq, Eq, Structural, Clone, Copy, Debug)]
pub enum Key {
    N,
    O,
    S,
    P,
    Q,
    D,
    B,
    I,
    U,
    K,
    E,
    F,
    H,
    Num0,
    Num1,
    Num2,
    Num3,
    Equals,
    Plus,
    Minus,
    F3,
    Escape,
    Other,
}

/// The command a keyboard shortcut stands for.
#[derive(PartialEq, Eq, Structural, Clone, Copy, Debug)]
pub enum ShortcutAction {
    NewFile,
    Open,
    Save,
    SaveAs,
    CommandPalette,
    Print,
    Quit,
    ToggleTheme,
    Format(InlineFormat),
    LinkDialog,
    InsertEquation,
    Find,
    FindReplace,
    View(ViewMode),
    ZoomIn,
    ZoomOut,
    ZoomReset,
    FindNext,
    FindPrev,
    CloseSearch,
    Nothing,
}

/// The shortcut table: Ctrl+N/O/S new, open, save (Ctrl+Shift+S save as),
/// Ctrl+P print (Ctrl+Shift+P command palette), Ctrl+Q quit, Ctrl+Shift+D
/// theme, Ctrl+B/I/U bold, italic, underline, Ctrl+K link, Ctrl+E equation
/// block, Ctrl+F find, Ctrl+H find and replace, Ctrl+1/2/3 Source, Split,
/// Editor, Ctrl+= / Ctrl++ / Ctrl+- / Ctrl+0 zoom; F3 (Shift+F3) next
/// (previous) match; Escape closes a shown find bar.
pub open spec fn shortcut_of(key: Key, ctrl: bool, shift: bool, search_shown: bool) -> ShortcutAction {
    if key == Key::F3 {
        if shift {
            ShortcutAction::FindPrev
        } else {
            ShortcutAction::FindNext
        }
    } else if key == Key::Escape {
        if search_shown {
            ShortcutAction::CloseSearch
        } else {
            ShortcutAction::Nothing
        }
    } else if !ctrl {
        ShortcutAction::Nothing
    } else {
        match key {
            Key::N => ShortcutAction::NewFile,
            Key::O => ShortcutAction::Open,
            Key::S => if shift {
                ShortcutAction::SaveAs
            } else {
                ShortcutAction::Save
            },
            Key::P => if shift {
                ShortcutAction::CommandPalette
            } else {
                ShortcutAction::Print
            },
            Key::Q => ShortcutAction::Quit,
            Key::D => if shift {
                ShortcutAction::ToggleTheme
            } else {
                ShortcutAction::Nothing
            },
            Key::B => ShortcutAction::Format(InlineFormat::Bold),
            Key::I => ShortcutAction::Format(InlineFormat::Italic),
            Key::U => ShortcutAction::Format(InlineFormat::Underline),
            Key::K => ShortcutAction::LinkDialog,
            Key::E => ShortcutAction::InsertEquation,
            Key::F => ShortcutAction::Find,
            Key::H => ShortcutAction::FindReplace,
            Key::Num1 => ShortcutAction::View(ViewMode::Source),
            Key::Num2 => ShortcutAction::View(ViewMode::Split),
            Key::Num3 => ShortcutAction::View(ViewMode::Editor),
            Key::Equals => ShortcutAction::ZoomIn,
            Key::Plus => ShortcutAction::ZoomIn,
            Key::Minus => ShortcutAction::ZoomOut,
            Key::Num0 => ShortcutAction::ZoomReset,
            _ => ShortcutAction::Nothing,
        }
    }
}

/// The command for a key press with the given modifiers (see [`shortcut_of`]).
pub fn shortcut_action(key: Key, ctrl: bool, shift: bool, search_shown: bool) -> (a: ShortcutAction)
    ensures
        a == shortcut_of(key, ctrl, shift, search_shown),
{
    match key {
        Key::F3 => if shift {
            ShortcutAction::FindPrev
        } else {
            ShortcutAction::FindNext
        },
        Key::Escape => if search_shown {
            ShortcutAction::CloseSearch
        } else {
            ShortcutAction::Nothing
        },
        _ => if !ctrl {
            ShortcutAction::Nothing
        } else {
            match key {
                Key::N => ShortcutAction::NewFile,
                Key::O => ShortcutAction::Open,
                Key::S => if shift {
                    ShortcutAction::SaveAs
                } else {
                    ShortcutAction::Save
                },
                Key::P => if shift {
                    ShortcutAction::CommandPalette
                } else {
                    ShortcutAction::Print
                },
                Key::Q => ShortcutAction::Quit,
                Key::D => if shift {
                    ShortcutAction::ToggleTheme
                } else {
                    ShortcutAction::Nothing
                },
                Key::B => ShortcutAction::Format(InlineFormat::Bold),
                Key::I => ShortcutAction::Format(InlineFormat::Italic),
                Key::U => ShortcutAction::Format(InlineFormat::Underline),
                Key::K => ShortcutAction::LinkDialog,
                Key::E => ShortcutAction::InsertEquation,
                Key::F => ShortcutAction::Find,
                Key::H => ShortcutAction::FindReplace,
                Key::Num1 => ShortcutAction::View(ViewMode::Source),
                Key::Num2 => ShortcutAction::View(ViewMode::Split),
                Key::Num3 => ShortcutAction::View(ViewMode::Editor),
                Key::Equals => ShortcutAction::ZoomIn,
                Key::Plus => ShortcutAction::ZoomIn,
                Key::Minus => ShortcutAction::ZoomOut,
                Key::Num0 => ShortcutAction::ZoomReset,
                _ => ShortcutAction::Nothing,
            }
        },
    }
}

/// What a shortcut needs of the editor state: the cursor positions that
/// its edit computes fit in `usize`, and "find next" can step the index.
pub open spec fn shortcut_fits(a: &MdApp, act: ShortcutAction) -> bool {
    match act {
        ShortcutAction::Format(f) => wrap_fits(a, format_markers(f).0, format_markers(f).1),
        ShortcutAction::InsertEquation => sel_start(a) + snippet_text(Snippet::EquationBlock).len()
            <= usize::MAX,
        ShortcutAction::FindNext => a.search_query@.len() > 0 ==> a.search_match_idx < usize::MAX,
        _ => true,
    }
}

/// `b` is `a` with the find bar shown (with its replace row when `replace`)
/// and the matches of the query recomputed.
pub open spec fn search_bar_opened(a: &MdApp, b: &MdApp, replace: bool) -> bool {
    &&& b.show_search
    &&& b.search_show_replace == replace
    &&& matches_recomputed(&(MdApp { show_search: true, search_show_replace: replace, ..*a }), b)
}

/// The action is carried out by the window rather than the editor state:
/// files, printing, quitting, the command palette, the theme and zoom.
pub open spec fn window_action(act: ShortcutAction) -> bool {
    match act {
        ShortcutAction::Open | ShortcutAction::Save | ShortcutAction::SaveAs
        | ShortcutAction::CommandPalette | ShortcutAction::Print | ShortcutAction::Quit
        | ShortcutAction::ToggleTheme | ShortcutAction::ZoomIn | ShortcutAction::ZoomOut
        | ShortcutAction::ZoomReset | ShortcutAction::Nothing => true,
        _ => false,
    }
}

impl MdApp {
    /// Carry out the editor's part of a shortcut: a new document, inline
    /// formats, the link dialog, the equation block, the find bar, the view
    /// and match navigation. What only the window can do is handed back,
    /// unchanged, for the window to carry out; otherwise `Nothing` is.
    pub fn run_shortcut(&mut self, act: ShortcutAction) -> (rest: ShortcutAction)
        requires
            shortcut_fits(&*old(self), act),
        ensures
            window_action(act) ==> rest == act && *final(self) == *old(self),
            !window_action(act) ==> rest == ShortcutAction::Nothing,
            act == ShortcutAction::NewFile ==> document_cleared(&*old(self), &*final(self)),
            act matches ShortcutAction::Format(f) ==> text_wrapped(
                &*old(self),
                &*final(self),
                format_markers(f).0,
                format_markers(f).1,
            ),
            act == ShortcutAction::LinkDialog ==> link_dialog_opened(&*old(self), &*final(self), false),
            act == ShortcutAction::InsertEquation ==> text_inserted(
                &*old(self),
                &*final(self),
                snippet_text(Snippet::EquationBlock),
            ),
            act == ShortcutAction::Find ==> search_bar_opened(&*old(self), &*final(self), false),
            act == ShortcutAction::FindReplace ==> search_bar_opened(&*old(self), &*final(self), true),
            act matches ShortcutAction::View(m) ==> view_switched(&*old(self), &*final(self), m),
            act == ShortcutAction::FindNext ==> found_next(&*old(self), &*final(self)),
            act == ShortcutAction::FindPrev ==> found_prev(&*old(self), &*final(self)),
            act == ShortcutAction::CloseSearch ==> *final(self) == (MdApp {
                show_search: false,
                ..*old(self)
            }),
    {
        match act {
            ShortcutAction::NewFile => {
                self.do_new();
                ShortcutAction::Nothing
            },
            ShortcutAction::Format(f) => {
                self.apply_inline_format(f);
                ShortcutAction::Nothing
            },
            ShortcutAction::LinkDialog => {
                self.open_link_dialog(false);
                ShortcutAction::Nothing
            },
            ShortcutAction::InsertEquation => {
                self.insert_snippet(Snippet::EquationBlock);
                ShortcutAction::Nothing
            },
            ShortcutAction::Find => {
                self.show_search = true;
                self.search_show_replace = false;
                self.compute_search_matches();
                ShortcutAction::Nothing
            },
            ShortcutAction::FindReplace => {
                self.show_search = true;
                self.search_show_replace = true;
                self.compute_search_matches();
                ShortcutAction::Nothing
            },
            ShortcutAction::View(m) => {
                self.set_view_mode(m);
                ShortcutAction::Nothing
            },
            ShortcutAction::FindNext => {
                self.do_find_next();
                ShortcutAction::Nothing
            },
            ShortcutAction::FindPrev => {
                self.do_find_prev();
                ShortcutAction::Nothing
            },
            ShortcutAction::CloseSearch => {
                self.show_search = false;
                ShortcutAction::Nothing
            },
            _ => act,
        }
    }
}

} // verus!
