//! What the file, export, print, import and review commands do to the editor
//! state once their dialogs and I/O have run, and the toolbar's formatting
//! commands.
use vstd::prelude::*;
use crate::editor::{
    cursor_same, doc_same, panels_same, search_same, sel_start, text_inserted,
    text_wrapped, wrap_fits, wrap_inner, MdApp,
};
use crate::format::{decimal, usize_to_decimal};
use crate::review::ReviewItem;
use crate::search::{lowercase, to_lowercase};
use crate::state::ViewMode;
use crate::text::{byte_len, chars_of, min_int, text_len};

verus! {

/// `c` is a Unicode `White_Space` character (what `char::is_whitespace` tests).
pub open spec fn is_white_space(c: char) -> bool {
    let u = c as u32;
    ||| 0x09 <= u <= 0x0D
    ||| u == 0x20
    ||| u == 0x85
    ||| u == 0xA0
    ||| u == 0x1680
    ||| 0x2000 <= u <= 0x200A
    ||| u == 0x2028
    ||| u == 0x2029
    ||| u == 0x202F
    ||| u == 0x205F
    ||| u == 0x3000
}

/// Index of the first non-white-space character at or after `i` (or `s.len()`).
pub open spec fn first_non_space(s: Seq<char>, i: int) -> int
    decreases s.len() - i,
{
    if i >= s.len() || !is_white_space(s[i]) {
        i
    } else {
        first_non_space(s, i + 1)
    }
}

/// End of `s.take(j)` without its trailing white space.
pub open spec fn end_non_space(s: Seq<char>, j: int) -> int
    decreases j,
{
    if j <= 0 || !is_white_space(s[j - 1]) {
        j
    } else {
        end_non_space(s, j - 1)
    }
}

/// `s` without leading and trailing white space (`str::trim`).
pub open spec fn trimmed(s: Seq<char>) -> Seq<char> {
    let a = first_non_space(s, 0);
    let b = end_non_space(s, s.len() as int);
    if a < b {
        s.subrange(a, b)
    } else {
        Seq::empty()
    }
}

/// `c` is white space.
pub fn is_whitespace_char(c: char) -> (r: bool)
    ensures
        r == is_white_space(c),
{
    let u = c as u32;
    (0x09 <= u && u <= 0x0D) || u == 0x20 || u == 0x85 || u == 0xA0 || u == 0x1680 || (0x2000 <= u
        && u <= 0x200A) || u == 0x2028 || u == 0x2029 || u == 0x202F || u == 0x205F || u == 0x3000
}

/// `s` without leading and trailing white space.
pub fn trim(s: &str) -> (r: String)
    ensures
        r@ == trimmed(s@),
{
    let v = chars_of(s);
    let n = v.len();
    let mut a: usize = 0;
    while a < n && is_whitespace_char(v[a])
        invariant
            a <= n == v@.len(),
            v@ == s@,
            first_non_space(s@, a as int) == first_non_space(s@, 0),
        decreases n - a,
    {
        a = a + 1;
    }
    let mut b: usize = n;
    while b > 0 && is_whitespace_char(v[b - 1])
        invariant
            b <= n == v@.len(),
            v@ == s@,
            end_non_space(s@, b as int) == end_non_space(s@, n as int),
        decreases b,
    {
        b = b - 1;
    }
    if a < b {
        String::from_str(s.substring_char(a, b))
    } else {
        String::new()
    }
}

/// `s` with every `'` doubled (quoting for a single-quoted PowerShell string).
pub open spec fn ps_escaped(s: Seq<char>) -> Seq<char>
    decreases s.len(),
{
    if s.len() == 0 {
        Seq::empty()
    } else {
        let rest = ps_escaped(s.drop_last());
        if s.last() == '\'' {
            rest + seq!['\'', '\'']
        } else {
            rest.push(s.last())
        }
    }
}

/// The PowerShell command that sends the PDF at `path` to the default printer.
pub fn print_command(path: &str) -> (r: String)
    ensures
        r@ == "Start-Process -FilePath '"@ + ps_escaped(path@) + "' -Verb Print"@,
{
    let v = chars_of(path);
    let mut esc = String::new();
    let mut i: usize = 0;
    while i < v.len()
        invariant
            i <= v.len(),
            v@ == path@,
            esc@ == ps_escaped(v@.take(i as int)),
        decreases v.len() - i,
    {
        proof {
            reveal_strlit("''");
            assert(v@.take(i + 1).drop_last() =~= v@.take(i as int));
            assert(v@.take(i + 1).last() == v@[i as int]);
        }
        if v[i] == '\'' {
            esc.append("''");
        } else {
            esc.append(path.substring_char(i, i + 1));
            proof {
                assert(path@.subrange(i as int, i + 1) =~= seq![v@[i as int]]);
            }
        }
        i = i + 1;
    }
    proof {
        assert(v@.take(v@.len() as int) =~= v@);
    }
    let mut r = String::from_str("Start-Process -FilePath '");
    r.append(esc.as_str());
    r.append("' -Verb Print");
    r
}

/// Kind of file a "Save As" writes, chosen by its extension.
#[derive(PartialEq, Eq, Structural, Clone, Copy, Debug)]
pub enum SaveTarget {
    Pdf,
    Html,
    Markdown,
}

/// The target for a lower-cased extension.
pub open spec fn save_target_of(ext: Seq<char>) -> SaveTarget {
    if ext == "pdf"@ {
        SaveTarget::Pdf
    } else if ext == "html"@ || ext == "htm"@ {
        SaveTarget::Html
    } else {
        SaveTarget::Markdown
    }
}

/// What "Save As" writes for a file with extension `ext` (none: Markdown):
/// PDF for "pdf", HTML for "html" / "htm", Markdown otherwise, in any case.
pub fn save_target(ext: Option<&str>) -> (t: SaveTarget)
    ensures
        t == match ext {
            Some(e) => save_target_of(lowercase(e@)),
            None => SaveTarget::Markdown,
        },
{
    match ext {
        None => SaveTarget::Markdown,
        Some(e) => {
            let low = to_lowercase(e);
            if crate::mcp::same_text(low.as_str(), "pdf") {
                SaveTarget::Pdf
            } else if crate::mcp::same_text(low.as_str(), "html") || crate::mcp::same_text(
                low.as_str(),
                "htm",
            ) {
                SaveTarget::Html
            } else {
                SaveTarget::Markdown
            }
        },
    }
}

/// Kind of export.
#[derive(PartialEq, Eq, Structural, Clone, Copy, Debug)]
pub enum ExportKind {
    Pdf,
    Html,
}

/// Label of an export kind in status messages.
pub open spec fn export_label(k: ExportKind) -> Seq<char> {
    match k {
        ExportKind::Pdf => "PDF"@,
        ExportKind::Html => "HTML"@,
    }
}

/// Extension of the files an export writes.
pub open spec fn export_ext(k: ExportKind) -> Seq<char> {
    match k {
        ExportKind::Pdf => "pdf"@,
        ExportKind::Html => "html"@,
    }
}

fn export_label_text(k: ExportKind) -> (s: &'static str)
    ensures
        s@ == export_label(k),
{
    match k {
        ExportKind::Pdf => "PDF",
        ExportKind::Html => "HTML",
    }
}

/// Suggested file name for exporting a document whose file stem is `stem`.
pub fn export_file_name(stem: &str, kind: ExportKind) -> (r: String)
    ensures
        r@ == stem@ + "."@ + export_ext(kind),
{
    let mut r = String::from_str(stem);
    r.append(".");
    match kind {
        ExportKind::Pdf => r.append("pdf"),
        ExportKind::Html => r.append("html"),
    }
    r
}

/// Status after an export: "<KIND> exported" when it succeeded and the file
/// exists, "<KIND> error: file not created" when it reported success but no
/// file exists, "<KIND> error: <message>" when it failed.
pub open spec fn export_status(kind: ExportKind, outcome: Result<(), String>, exists: bool) -> Seq<char> {
    match outcome {
        Ok(_) => if exists {
            export_label(kind) + " exported"@
        } else {
            export_label(kind) + " error: file not created"@
        },
        Err(e) => export_label(kind) + " error: "@ + e@,
    }
}

/// Status after a print: "Sent to printer" when the PDF exists and the print
/// command started, "Print error: <message>" when it did not start or the
/// export failed, "Print error: PDF not created" when no PDF exists.
pub open spec fn print_status(
    export: Result<(), String>,
    exists: bool,
    spawn: Result<(), String>,
) -> Seq<char> {
    match export {
        Ok(_) => if exists {
            match spawn {
                Ok(_) => "Sent to printer"@,
                Err(e) => "Print error: "@ + e@,
            }
        } else {
            "Print error: PDF not created"@
        },
        Err(e) => "Print error: "@ + e@,
    }
}

/// Label of a paragraph style in the toolbar for a heading level (0: none).
pub open spec fn paragraph_style(heading: u8) -> Seq<char> {
    if heading == 0 {
        "Normal"@
    } else if heading == 1 {
        "Heading 1"@
    } else if heading == 2 {
        "Heading 2"@
    } else if heading == 3 {
        "Heading 3"@
    } else if heading == 4 {
        "Heading 4"@
    } else if heading == 5 {
        "Heading 5"@
    } else {
        "Heading 6"@
    }
}

/// The toolbar's paragraph-style label: "Normal" outside a heading, else
/// "Heading n" (levels above 6 shown as 6).
pub fn paragraph_style_label(heading: u8) -> (s: &'static str)
    ensures
        s@ == paragraph_style(heading),
{
    if heading == 0 {
        "Normal"
    } else if heading == 1 {
        "Heading 1"
    } else if heading == 2 {
        "Heading 2"
    } else if heading == 3 {
        "Heading 3"
    } else if heading == 4 {
        "Heading 4"
    } else if heading == 5 {
        "Heading 5"
    } else {
        "Heading 6"
    }
}

/// An inline formatting command of the toolbar.
#[derive(PartialEq, Eq, Structural, Clone, Copy, Debug)]
pub enum InlineFormat {
    Bold,
    Italic,
    Underline,
    Strikethrough,
    Superscript,
    Subscript,
    InlineCode,
    Highlight,
    InlineEquation,
}

/// Opening and closing markers of an inline format.
pub open spec fn format_markers(f: InlineFormat) -> (Seq<char>, Seq<char>) {
    match f {
        InlineFormat::Bold => ("**"@, "**"@),
        InlineFormat::Italic => ("*"@, "*"@),
        InlineFormat::Underline => ("<u>"@, "</u>"@),
        InlineFormat::Strikethrough => ("~~"@, "~~"@),
        InlineFormat::Superscript => ("<sup>"@, "</sup>"@),
        InlineFormat::Subscript => ("<sub>"@, "</sub>"@),
        InlineFormat::InlineCode => ("`"@, "`"@),
        InlineFormat::Highlight => ("<mark>"@, "</mark>"@),
        InlineFormat::InlineEquation => ("$"@, "$"@),
    }
}

fn markers(f: InlineFormat) -> (r: (&'static str, &'static str))
    ensures
        r.0@ == format_markers(f).0,
        r.1@ == format_markers(f).1,
{
    match f {
        InlineFormat::Bold => ("**", "**"),
        InlineFormat::Italic => ("*", "*"),
        InlineFormat::Underline => ("<u>", "</u>"),
        InlineFormat::Strikethrough => ("~~", "~~"),
        InlineFormat::Superscript => ("<sup>", "</sup>"),
        InlineFormat::Subscript => ("<sub>", "</sub>"),
        InlineFormat::InlineCode => ("`", "`"),
        InlineFormat::Highlight => ("<mark>", "</mark>"),
        InlineFormat::InlineEquation => ("$", "$"),
    }
}

/// A block snippet the toolbar or the Insert menu inserts at the cursor.
#[derive(PartialEq, Eq, Structural, Clone, Copy, Debug)]
pub enum Snippet {
    /// Heading of level 1 to 6 (other levels insert a level-6 prefix).
    Heading(u8),
    BulletList,
    NumberedList,
    Blockquote,
    CodeBlock,
    HorizontalRule,
    Table,
    EquationBlock,
}

/// The text of a snippet.
pub open spec fn snippet_text(s: Snippet) -> Seq<char> {
    match s {
        Snippet::Heading(l) => if l <= 1 {
            "# "@
        } else if l == 2 {
            "## "@
        } else if l == 3 {
            "### "@
        } else if l == 4 {
            "#### "@
        } else if l == 5 {
            "##### "@
        } else {
            "###### "@
        },
        Snippet::BulletList => "- "@,
        Snippet::NumberedList => "1. "@,
        Snippet::Blockquote => "> "@,
        Snippet::CodeBlock => "```\n\n```\n"@,
        Snippet::HorizontalRule => "---\n"@,
        Snippet::Table => "| Col 1 | Col 2 | Col 3 |\n|--------|--------|--------|\n|  |  |  |\n"@,
        Snippet::EquationBlock => "$$\n\\sum_{i=0}^{n} x_i\n$$\n"@,
    }
}

fn snippet_str(s: Snippet) -> (r: &'static str)
    ensures
        r@ == snippet_text(s),
{
    match s {
        Snippet::Heading(l) => if l <= 1 {
            "# "
        } else if l == 2 {
            "## "
        } else if l == 3 {
            "### "
        } else if l == 4 {
            "#### "
        } else if l == 5 {
            "##### "
        } else {
            "###### "
        },
        Snippet::BulletList => "- ",
        Snippet::NumberedList => "1. ",
        Snippet::Blockquote => "> ",
        Snippet::CodeBlock => "```\n\n```\n",
        Snippet::HorizontalRule => "---\n",
        Snippet::Table => "| Col 1 | Col 2 | Col 3 |\n|--------|--------|--------|\n|  |  |  |\n",
        Snippet::EquationBlock => "$$\n\\sum_{i=0}^{n} x_i\n$$\n",
    }
}

/// Lower-case hexadecimal digit of `d` (0 to 15).
pub open spec fn hex_digit(d: nat) -> char {
    if d < 10 {
        crate::format::digit_char(d)
    } else if d == 10 {
        'a'
    } else if d == 11 {
        'b'
    } else if d == 12 {
        'c'
    } else if d == 13 {
        'd'
    } else if d == 14 {
        'e'
    } else {
        'f'
    }
}

/// Two lower-case hexadecimal digits of a byte.
pub open spec fn hex_byte(b: u8) -> Seq<char> {
    seq![hex_digit((b / 16) as nat), hex_digit((b % 16) as nat)]
}

/// Six lower-case hexadecimal digits of a colour (`format!("{:02x}{:02x}{:02x}")`).
pub open spec fn hex_color(rgb: Seq<u8>) -> Seq<char> {
    hex_byte(rgb[0]) + hex_byte(rgb[1]) + hex_byte(rgb[2])
}

/// Hexadecimal digit `d` as a one-character text.
fn hex_digit_str(d: u8) -> (r: &'static str)
    requires
        d < 16,
    ensures
        r@ == seq![hex_digit(d as nat)],
{
    let digits = "0123456789abcdef";
    proof {
        reveal_strlit("0123456789abcdef");
    }
    let r = digits.substring_char(d as usize, d as usize + 1);
    proof {
        assert(r@ =~= seq![hex_digit(d as nat)]);
    }
    r
}

fn push_hex_byte(s: &mut String, b: u8)
    ensures
        final(s)@ == old(s)@ + hex_byte(b),
{
    s.append(hex_digit_str(b / 16));
    s.append(hex_digit_str(b % 16));
    proof {
        assert(seq![hex_digit((b / 16) as nat)] + seq![hex_digit((b % 16) as nat)] =~= hex_byte(b));
    }
}

/// The colour as six lower-case hexadecimal digits, e.g. "ff8800".
pub fn color_hex(rgb: [u8; 3]) -> (r: String)
    ensures
        r@ == hex_color(rgb@),
{
    let mut r = String::new();
    push_hex_byte(&mut r, rgb[0]);
    push_hex_byte(&mut r, rgb[1]);
    push_hex_byte(&mut r, rgb[2]);
    proof {
        assert(Seq::<char>::empty() + hex_byte(rgb@[0]) =~= hex_byte(rgb@[0]));
    }
    r
}

/// Number of `'\n'` among the first `n` characters of `s`.
pub open spec fn newlines_before(s: Seq<char>, n: int) -> nat
    decreases n,
{
    if n <= 0 || s.len() == 0 {
        0
    } else if n > s.len() {
        newlines_before(s, s.len() as int)
    } else {
        newlines_before(s, n - 1) + (if s[n - 1] == '\n' {
            1nat
        } else {
            0nat
        })
    }
}

/// Status after importing a DOCX named `name`, recovering `md`, with
/// `reviews` review items.
pub open spec fn docx_import_status(name: Seq<char>, md: Seq<char>, reviews: nat) -> Seq<char> {
    "Imported from \u{201C}"@ + name + "\u{201D} - "@ + decimal(byte_len(md)) + " chars recovered"@
        + (if reviews == 0 {
        Seq::<char>::empty()
    } else {
        " - "@ + decimal(reviews) + " review item(s)"@
    })
}

/// The passage a review item is anchored to: its context, or its text when
/// it has no context.
pub open spec fn review_anchor(item: ReviewItem) -> Seq<char> {
    if item.context@.len() == 0 {
        item.text@
    } else {
        item.context@
    }
}

/// The passage a review item is anchored to.
pub fn review_item_anchor(item: &ReviewItem) -> (r: String)
    ensures
        r@ == review_anchor(*item),
{
    if item.context.as_str().is_empty() {
        item.text.clone()
    } else {
        item.context.clone()
    }
}

/// `b` is `a` with the main view switched to `mode`; entering the Editor
/// view marks the rendered view for rebuilding.
pub open spec fn view_switched(a: &MdApp, b: &MdApp, mode: ViewMode) -> bool {
    &&& b.view_mode == mode
    &&& b.segments_dirty == (a.segments_dirty || mode == ViewMode::Editor)
    &&& *b == (MdApp { view_mode: b.view_mode, segments_dirty: b.segments_dirty, ..*a })
}

impl MdApp {
    /// The document opened from `path`: on success its imported Markdown
    /// becomes the clean document (the Hub switches to the Editor view); on
    /// failure the status reports "Import error: <message>".
    pub fn finish_open(&mut self, path: String, result: Result<String, String>)
        ensures
            match result {
                Ok(content) => {
                    &&& final(self).source@ == content@
                    &&& final(self).current_file == Some(path)
                    &&& !final(self).modified
                    &&& final(self).segments_dirty
                    &&& final(self).status_msg@ == "Opened"@
                    &&& final(self).view_mode == (if old(self).view_mode == ViewMode::Converter {
                        ViewMode::Editor
                    } else {
                        old(self).view_mode
                    })
                },
                Err(e) => {
                    &&& doc_same(&*old(self), &*final(self))
                    &&& final(self).view_mode == old(self).view_mode
                    &&& final(self).status_msg@ == "Import error: "@ + e@
                },
            },
            final(self).cursor_pos == old(self).cursor_pos,
            final(self).selection_anchor == old(self).selection_anchor,
            search_same(&*old(self), &*final(self)),
            panels_same(&*old(self), &*final(self)),
            *final(self) == (MdApp {
                source: final(self).source,
                current_file: final(self).current_file,
                modified: final(self).modified,
                segments_dirty: final(self).segments_dirty,
                status_msg: final(self).status_msg,
                view_mode: final(self).view_mode,
                ..*old(self)
            }),
    {
        match result {
            Ok(content) => {
                self.source = content;
                self.current_file = Some(path);
                self.modified = false;
                self.segments_dirty = true;
                self.status_msg = String::from_str("Opened");
                match self.view_mode {
                    ViewMode::Converter => {
                        self.view_mode = ViewMode::Editor;
                    },
                    _ => {},
                }
            },
            Err(e) => {
                let mut m = String::from_str("Import error: ");
                m.append(e.as_str());
                self.status_msg = m;
            },
        }
    }

    /// The document was written to its file (Save): clean on success,
    /// "Save error: <message>" otherwise.
    pub fn finish_save(&mut self, result: Result<(), String>)
        ensures
            match result {
                Ok(_) => !final(self).modified && final(self).status_msg@ == "Saved"@,
                Err(e) => final(self).modified == old(self).modified && final(self).status_msg@
                    == "Save error: "@ + e@,
            },
            final(self).source@ == old(self).source@,
            final(self).current_file == old(self).current_file,
            final(self).segments_dirty == old(self).segments_dirty,
            cursor_same(&*old(self), &*final(self)),
            search_same(&*old(self), &*final(self)),
            panels_same(&*old(self), &*final(self)),
            *final(self) == (MdApp {
                modified: final(self).modified,
                status_msg: final(self).status_msg,
                ..*old(self)
            }),
    {
        match result {
            Ok(_) => {
                self.modified = false;
                self.status_msg = String::from_str("Saved");
            },
            Err(e) => {
                let mut m = String::from_str("Save error: ");
                m.append(e.as_str());
                self.status_msg = m;
            },
        }
    }

    /// The document was written as Markdown to `path` (Save As): on success
    /// `path` becomes the document's file and the document is clean.
    pub fn finish_save_as(&mut self, path: String, result: Result<(), String>)
        ensures
            match result {
                Ok(_) => {
                    &&& final(self).current_file == Some(path)
                    &&& !final(self).modified
                    &&& final(self).status_msg@ == "Saved"@
                },
                Err(e) => {
                    &&& final(self).current_file == old(self).current_file
                    &&& final(self).modified == old(self).modified
                    &&& final(self).status_msg@ == "Save error: "@ + e@
                },
            },
            final(self).source@ == old(self).source@,
            final(self).segments_dirty == old(self).segments_dirty,
            cursor_same(&*old(self), &*final(self)),
            search_same(&*old(self), &*final(self)),
            panels_same(&*old(self), &*final(self)),
            *final(self) == (MdApp {
                current_file: final(self).current_file,
                modified: final(self).modified,
                status_msg: final(self).status_msg,
                ..*old(self)
            }),
    {
        match result {
            Ok(_) => {
                self.current_file = Some(path);
                self.modified = false;
                self.status_msg = String::from_str("Saved");
            },
            Err(e) => {
                let mut m = String::from_str("Save error: ");
                m.append(e.as_str());
                self.status_msg = m;
            },
        }
    }

    /// Report the outcome of a PDF / HTML export; returns whether the
    /// exported file should be opened (success and the file exists).
    pub fn finish_export(&mut self, kind: ExportKind, outcome: Result<(), String>, exists: bool) -> (open_it: bool)
        ensures
            open_it == (outcome is Ok && exists),
            final(self).status_msg@ == export_status(kind, outcome, exists),
            doc_same(&*old(self), &*final(self)),
            cursor_same(&*old(self), &*final(self)),
            search_same(&*old(self), &*final(self)),
            panels_same(&*old(self), &*final(self)),
            *final(self) == (MdApp {
                status_msg: final(self).status_msg,
                ..*old(self)
            }),
    {
        let label = export_label_text(kind);
        let mut m = String::from_str(label);
        let open_it = match &outcome {
            Ok(_) => {
                if exists {
                    m.append(" exported");
                    true
                } else {
                    m.append(" error: file not created");
                    false
                }
            },
            Err(e) => {
                m.append(" error: ");
                m.append(e.as_str());
                false
            },
        };
        self.status_msg = m;
        open_it
    }

    /// Report the outcome of printing: the PDF export, whether the PDF
    /// exists, and whether the print command started.
    pub fn finish_print(&mut self, export: Result<(), String>, exists: bool, spawn: Result<(), String>)
        ensures
            final(self).status_msg@ == print_status(export, exists, spawn),
            doc_same(&*old(self), &*final(self)),
            cursor_same(&*old(self), &*final(self)),
            search_same(&*old(self), &*final(self)),
            panels_same(&*old(self), &*final(self)),
            *final(self) == (MdApp {
                status_msg: final(self).status_msg,
                ..*old(self)
            }),
    {
        let m = match export {
            Ok(_) => {
                if exists {
                    match spawn {
                        Ok(_) => String::from_str("Sent to printer"),
                        Err(e) => {
                            let mut m = String::from_str("Print error: ");
                            m.append(e.as_str());
                            m
                        },
                    }
                } else {
                    String::from_str("Print error: PDF not created")
                }
            },
            Err(e) => {
                let mut m = String::from_str("Print error: ");
                m.append(e.as_str());
                m
            },
        };
        self.status_msg = m;
    }

    /// Insert a Markdown image link to the picked image file.
    pub fn insert_image_link(&mut self, path: &str)
        requires
            sel_start(&*old(self)) + 10 + path@.len() <= usize::MAX,
        ensures
            text_inserted(&*old(self), &*final(self), "![image]("@ + path@ + ")"@),
            final(self).cursor_pos == sel_start(&*old(self)) + 10 + path@.len(),
    {
        proof {
            reveal_strlit("![image](");
            reveal_strlit(")");
        }
        let mut link = String::from_str("![image](");
        link.append(path);
        link.append(")");
        self.insert_text(link.as_str());
    }

    /// Apply an inline format of the toolbar to the selection.
    pub fn apply_inline_format(&mut self, f: InlineFormat)
        requires
            wrap_fits(&*old(self), format_markers(f).0, format_markers(f).1),
        ensures
            text_wrapped(&*old(self), &*final(self), format_markers(f).0, format_markers(f).1),
    {
        let (before, after) = markers(f);
        proof {
            reveal_strlit("**");
            reveal_strlit("*");
            reveal_strlit("<u>");
            reveal_strlit("</u>");
            reveal_strlit("~~");
            reveal_strlit("<sup>");
            reveal_strlit("</sup>");
            reveal_strlit("<sub>");
            reveal_strlit("</sub>");
            reveal_strlit("`");
            reveal_strlit("<mark>");
            reveal_strlit("</mark>");
            reveal_strlit("$");
        }
        self.wrap_text(before, after);
    }

    /// Insert a block snippet at the cursor, replacing the selection.
    pub fn insert_snippet(&mut self, s: Snippet)
        requires
            sel_start(&*old(self)) + snippet_text(s).len() <= usize::MAX,
        ensures
            text_inserted(&*old(self), &*final(self), snippet_text(s)),
    {
        let text = snippet_str(s);
        proof {
            reveal_strlit("# ");
            reveal_strlit("## ");
            reveal_strlit("### ");
            reveal_strlit("#### ");
            reveal_strlit("##### ");
            reveal_strlit("###### ");
            reveal_strlit("- ");
            reveal_strlit("1. ");
            reveal_strlit("> ");
            reveal_strlit("```\n\n```\n");
            reveal_strlit("---\n");
            reveal_strlit("| Col 1 | Col 2 | Col 3 |\n|--------|--------|--------|\n|  |  |  |\n");
            reveal_strlit("$$\n\\sum_{i=0}^{n} x_i\n$$\n");
        }
        self.insert_text(text);
    }

    /// Colour the selection (or a placeholder) with a text colour picked in
    /// the toolbar, remembering the colour.
    pub fn apply_text_color(&mut self, rgb: [u8; 3])
        requires
            sel_start(&*old(self)) + 35 + wrap_inner(&*old(self)).len() <= usize::MAX,
        ensures
            final(self).text_color == rgb,
            text_wrapped(
                &(MdApp { text_color: rgb, ..*old(self) }),
                &*final(self),
                "<span style=\"color:#"@ + hex_color(rgb@) + "\">"@,
                "</span>"@,
            ),
    {
        self.text_color = rgb;
        let hex = color_hex(rgb);
        proof {
            reveal_strlit("<span style=\"color:#");
            reveal_strlit("\">");
            reveal_strlit("</span>");
        }
        let mut open = String::from_str("<span style=\"color:#");
        open.append(hex.as_str());
        open.append("\">");
        self.wrap_text(open.as_str(), "</span>");
        proof {
            assert(open@ + wrap_inner(&*old(self)) + "</span>"@ =~= "<span style=\"color:#"@
                + hex_color(rgb@) + "\">"@ + wrap_inner(&*old(self)) + "</span>"@);
        }
    }

    /// Highlight the selection (or a placeholder) with a colour picked in the
    /// toolbar, remembering the colour.
    pub fn apply_highlight_color(&mut self, rgb: [u8; 3])
        requires
            sel_start(&*old(self)) + 40 + wrap_inner(&*old(self)).len() <= usize::MAX,
        ensures
            final(self).highlight_color == rgb,
            text_wrapped(
                &(MdApp { highlight_color: rgb, ..*old(self) }),
                &*final(self),
                "<mark style=\"background:#"@ + hex_color(rgb@) + "\">"@,
                "</mark>"@,
            ),
    {
        self.highlight_color = rgb;
        let hex = color_hex(rgb);
        proof {
            reveal_strlit("<mark style=\"background:#");
            reveal_strlit("\">");
            reveal_strlit("</mark>");
        }
        let mut open = String::from_str("<mark style=\"background:#");
        open.append(hex.as_str());
        open.append("\">");
        self.wrap_text(open.as_str(), "</mark>");
        proof {
            assert(open@ + wrap_inner(&*old(self)) + "</mark>"@ =~= "<mark style=\"background:#"@
                + hex_color(rgb@) + "\">"@ + wrap_inner(&*old(self)) + "</mark>"@);
        }
    }

    /// Switch the main view; entering the Editor view rebuilds the rendered view.
    pub fn set_view_mode(&mut self, mode: ViewMode)
        ensures
            view_switched(&*old(self), &*final(self), mode),
    {
        self.view_mode = mode;
        match mode {
            ViewMode::Editor => {
                self.segments_dirty = true;
            },
            _ => {},
        }
    }

    /// Line number of the cursor for the status bar: one more than the
    /// number of newlines among the characters before the cursor.
    pub fn cursor_line(&self) -> (line: usize)
        ensures
            line == newlines_before(self.source@, self.cursor_pos as int) + 1,
    {
        let _bytes = text_len(self.source.as_str());
        let v = chars_of(self.source.as_str());
        proof {
            crate::text::lemma_byte_pos_mono(v@, 0, v@.len() as int);
            crate::text::lemma_byte_pos_end(v@);
        }
        let n = if self.cursor_pos < v.len() {
            self.cursor_pos
        } else {
            v.len()
        };
        let mut count: usize = 0;
        let mut i: usize = 0;
        while i < n
            invariant
                i <= n <= v@.len(),
                v@ == self.source@,
                n == min_int(self.cursor_pos as int, v@.len() as int),
                count == newlines_before(v@, i as int),
                count <= i,
                v@.len() <= isize::MAX,
            decreases n - i,
        {
            if v[i] == '\n' {
                count = count + 1;
            }
            i = i + 1;
        }
        proof {
            if self.cursor_pos > v@.len() {
                assert(newlines_before(v@, self.cursor_pos as int) == newlines_before(
                    v@,
                    v@.len() as int,
                ));
            }
        }
        count + 1
    }

    /// Number of characters of the document, for the status bar.
    pub fn char_count(&self) -> (n: usize)
        ensures
            n == self.source@.len(),
    {
        self.source.as_str().unicode_len()
    }

    /// The DOCX named `file_name` was re-imported: on success the recovered
    /// Markdown becomes an unsaved document shown in the Editor view, with
    /// its review items (the review panel opens when there are any); on
    /// failure the status reports "Import failed: <message>".
    pub fn finish_docx_import(&mut self, file_name: &str, result: Result<String, String>, reviews: Vec<ReviewItem>)
        ensures
            match result {
                Ok(md) => {
                    &&& final(self).source@ == md@
                    &&& final(self).current_file is None
                    &&& final(self).modified
                    &&& final(self).segments_dirty
                    &&& final(self).view_mode == ViewMode::Editor
                    &&& final(self).review_items == reviews
                    &&& final(self).show_review_panel == (reviews@.len() > 0)
                    &&& final(self).status_msg@ == docx_import_status(
                        file_name@,
                        md@,
                        reviews@.len(),
                    )
                },
                Err(e) => {
                    &&& doc_same(&*old(self), &*final(self))
                    &&& final(self).view_mode == old(self).view_mode
                    &&& final(self).review_items == old(self).review_items
                    &&& final(self).show_review_panel == old(self).show_review_panel
                    &&& final(self).status_msg@ == "Import failed: "@ + e@
                },
            },
            final(self).cursor_pos == old(self).cursor_pos,
            final(self).selection_anchor == old(self).selection_anchor,
            search_same(&*old(self), &*final(self)),
            *final(self) == (MdApp {
                source: final(self).source,
                current_file: final(self).current_file,
                modified: final(self).modified,
                segments_dirty: final(self).segments_dirty,
                view_mode: final(self).view_mode,
                review_items: final(self).review_items,
                show_review_panel: final(self).show_review_panel,
                status_msg: final(self).status_msg,
                ..*old(self)
            }),
    {
        match result {
            Ok(md) => {
                let bytes = text_len(md.as_str());
                self.source = md;
                self.current_file = None;
                self.modified = true;
                self.segments_dirty = true;
                self.view_mode = ViewMode::Editor;
                let count = reviews.len();
                self.review_items = reviews;
                self.show_review_panel = count > 0;
                let mut m = String::from_str("Imported from \u{201C}");
                m.append(file_name);
                m.append("\u{201D} - ");
                m.append(usize_to_decimal(bytes).as_str());
                m.append(" chars recovered");
                if count > 0 {
                    m.append(" - ");
                    m.append(usize_to_decimal(count).as_str());
                    m.append(" review item(s)");
                } else {
                    proof {
                        assert(m@ + Seq::<char>::empty() =~= m@);
                    }
                }
                self.status_msg = m;
            },
            Err(e) => {
                let mut m = String::from_str("Import failed: ");
                m.append(e.as_str());
                self.status_msg = m;
            },
        }
    }
}

} // verus!
