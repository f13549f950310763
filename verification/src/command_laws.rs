//! What the find, formatting, snippet, shortcut and tool commands do, stated
//! over all inputs in terms of their results.
use vstd::prelude::*;
use crate::commands::{
    export_ext, export_label, format_markers, hex_byte, hex_color, paragraph_style,
    save_target_of, snippet_text, ExportKind, InlineFormat, SaveTarget, Snippet,
};
use crate::editor::{match_status, placeholder, replaced_status};
use crate::format::{decimal, digit_char};
use crate::editor::{found_next, found_prev, MdApp};
use crate::events::{shortcut_of, Key, ShortcutAction};
use crate::state::ViewMode;
use crate::laws::lemma_occurrence_span;
use crate::mcp::{
    arg_index, missing_arg_message, opt_arg, opt_view, planned_call, tool_name, tool_param_names,
    tool_description, tool_required, unknown_tool_message, CallParams, ToolInvocationView,
};
use crate::commands::{end_non_space, first_non_space, is_white_space, trimmed};
use crate::resources::{dict_state_of, DlState};
use crate::search::{lemma_occurrences, occurrences_from, occurs_at, search_offsets};

verus! {

/// Law: with `n > 0` matches, "find next" moves from match `i` to match
/// `(i + 1) mod n` (the one after it, or the first after the last) and
/// selects that occurrence of the query: anchor at its first character,
/// cursor after its last.
pub proof fn law_find_next_moves_forward(a: MdApp, b: MdApp)
    requires
        found_next(&a, &b),
        a.search_query@.len() > 0,
        search_offsets(a.source@, a.search_query@, a.search_case_sensitive).len() > 0,
    ensures
        ({
            let n = search_offsets(a.source@, a.search_query@, a.search_case_sensitive).len() as int;
            let i = a.search_match_idx as int;
            let occ = occurrences_from(a.source@, a.search_query@, 0, a.search_case_sensitive);
            &&& b.search_match_idx == (i + 1) % n
            &&& i < n ==> b.search_match_idx == (if i + 1 < n {
                i + 1
            } else {
                0
            })
            &&& b.selection_anchor == occ[b.search_match_idx as int]
            &&& b.cursor_pos == occ[b.search_match_idx as int] + a.search_query@.len()
        }),
{
    let src = a.source@;
    let q = a.search_query@;
    let cs = a.search_case_sensitive;
    let n = search_offsets(src, q, cs).len() as int;
    let i = a.search_match_idx as int;
    if i + 1 < n {
        vstd::arithmetic::div_mod::lemma_small_mod((i + 1) as nat, n as nat);
    } else if i + 1 == n {
        vstd::arithmetic::div_mod::lemma_mod_self_0(n);
    }
    vstd::arithmetic::div_mod::lemma_mod_bound(i + 1, n);
    let k = b.search_match_idx as int;
    lemma_occurrences(src, q, 0, cs);
    let o = occurrences_from(src, q, 0, cs)[k];
    assert(occurs_at(src, q, o, cs));
    lemma_occurrence_span(src, q, o, cs);
}

/// Law: with `n > 0` matches, "find previous" moves from match `i`
/// (`0 <= i < n`) to match `(i + n - 1) mod n` (the one before it, or the
/// last before the first) and selects that occurrence of the query; from an
/// index past the matches it steps back by one.
pub proof fn law_find_prev_moves_backward(a: MdApp, b: MdApp)
    requires
        found_prev(&a, &b),
        a.search_query@.len() > 0,
        search_offsets(a.source@, a.search_query@, a.search_case_sensitive).len() > 0,
    ensures
        ({
            let n = search_offsets(a.source@, a.search_query@, a.search_case_sensitive).len() as int;
            let i = a.search_match_idx as int;
            let occ = occurrences_from(a.source@, a.search_query@, 0, a.search_case_sensitive);
            &&& i < n ==> b.search_match_idx == (i + n - 1) % n
            &&& i < n ==> b.search_match_idx == (if i > 0 {
                i - 1
            } else {
                n - 1
            })
            &&& i >= n ==> b.search_match_idx == i - 1
            &&& i < n ==> b.selection_anchor == occ[b.search_match_idx as int]
            &&& i < n ==> b.cursor_pos == occ[b.search_match_idx as int] + a.search_query@.len()
        }),
{
    let src = a.source@;
    let q = a.search_query@;
    let cs = a.search_case_sensitive;
    let n = search_offsets(src, q, cs).len() as int;
    let i = a.search_match_idx as int;
    if i < n {
        if i == 0 {
            vstd::arithmetic::div_mod::lemma_small_mod((n - 1) as nat, n as nat);
        } else {
            vstd::arithmetic::div_mod::lemma_mod_add_multiples_vanish(i - 1, n);
            vstd::arithmetic::div_mod::lemma_small_mod((i - 1) as nat, n as nat);
            assert(n + (i - 1) == i + n - 1);
        }
        let k = b.search_match_idx as int;
        lemma_occurrences(src, q, 0, cs);
        let o = occurrences_from(src, q, 0, cs)[k];
        assert(occurs_at(src, q, o, cs));
        lemma_occurrence_span(src, q, o, cs);
    }
}

/// Law: the inline formats wrap the selection in these markers: bold in
/// `**`, italic in a single `*`, underline in `<u>`/`</u>`, strikethrough in
/// `~~`, superscript in `<sup>`/`</sup>`, subscript in `<sub>`/`</sub>`,
/// inline code in a backtick, highlight in `<mark>`/`</mark>`, an inline
/// equation in `$`; and no two formats use the same markers.
pub proof fn law_inline_format_markers()
    ensures
        format_markers(InlineFormat::Bold) == (seq!['*', '*'], seq!['*', '*']),
        format_markers(InlineFormat::Italic) == (seq!['*'], seq!['*']),
        format_markers(InlineFormat::Underline) == (seq!['<', 'u', '>'], seq!['<', '/', 'u', '>']),
        format_markers(InlineFormat::Strikethrough) == (seq!['~', '~'], seq!['~', '~']),
        format_markers(InlineFormat::Superscript) == (
            seq!['<', 's', 'u', 'p', '>'],
            seq!['<', '/', 's', 'u', 'p', '>'],
        ),
        format_markers(InlineFormat::Subscript) == (
            seq!['<', 's', 'u', 'b', '>'],
            seq!['<', '/', 's', 'u', 'b', '>'],
        ),
        format_markers(InlineFormat::InlineCode) == (seq!['`'], seq!['`']),
        format_markers(InlineFormat::Highlight) == (
            seq!['<', 'm', 'a', 'r', 'k', '>'],
            seq!['<', '/', 'm', 'a', 'r', 'k', '>'],
        ),
        format_markers(InlineFormat::InlineEquation) == (seq!['$'], seq!['$']),
        forall|f: InlineFormat, g: InlineFormat| f != g ==> format_markers(f) != format_markers(g),
{
    reveal_strlit("**");
    reveal_strlit("*");
    reveal_strlit("<u>");
    reveal_strlit("</u>");
    reveal_strlit("~~");
    reveal_strlit("<sup>");
    reveal_strlit("</sup>");
    reveal_strlit("<sub>");
    reveal_strlit("</sub>");
    reveal_strlit("`");
    reveal_strlit("<mark>");
    reveal_strlit("</mark>");
    reveal_strlit("$");
    assert(format_markers(InlineFormat::Bold).0 =~= seq!['*', '*']);
    assert(format_markers(InlineFormat::Bold).1 =~= seq!['*', '*']);
    assert(format_markers(InlineFormat::Italic).0 =~= seq!['*']);
    assert(format_markers(InlineFormat::Italic).1 =~= seq!['*']);
    assert(format_markers(InlineFormat::Underline).0 =~= seq!['<', 'u', '>']);
    assert(format_markers(InlineFormat::Underline).1 =~= seq!['<', '/', 'u', '>']);
    assert(format_markers(InlineFormat::Strikethrough).0 =~= seq!['~', '~']);
    assert(format_markers(InlineFormat::Strikethrough).1 =~= seq!['~', '~']);
    assert(format_markers(InlineFormat::Superscript).0 =~= seq!['<', 's', 'u', 'p', '>']);
    assert(format_markers(InlineFormat::Superscript).1 =~= seq!['<', '/', 's', 'u', 'p', '>']);
    assert(format_markers(InlineFormat::Subscript).0 =~= seq!['<', 's', 'u', 'b', '>']);
    assert(format_markers(InlineFormat::Subscript).1 =~= seq!['<', '/', 's', 'u', 'b', '>']);
    assert(format_markers(InlineFormat::InlineCode).0 =~= seq!['`']);
    assert(format_markers(InlineFormat::InlineCode).1 =~= seq!['`']);
    assert(format_markers(InlineFormat::Highlight).0 =~= seq!['<', 'm', 'a', 'r', 'k', '>']);
    assert(format_markers(InlineFormat::Highlight).1 =~= seq!['<', '/', 'm', 'a', 'r', 'k', '>']);
    assert(format_markers(InlineFormat::InlineEquation).0 =~= seq!['$']);
    assert(format_markers(InlineFormat::InlineEquation).1 =~= seq!['$']);
    assert forall|f: InlineFormat, g: InlineFormat| f != g implies format_markers(f)
        != format_markers(g) by {
        let (a, b) = (format_markers(f), format_markers(g));
        if a == b {
            assert(a.0.len() == b.0.len() && a.1.len() == b.1.len());
            assert(a.0[0] == b.0[0] && a.1[a.1.len() - 1] == b.1[b.1.len() - 1]);
            if a.0.len() > 2 {
                assert(a.0[1] == b.0[1] && a.0[3] == b.0[3]);
            }
        }
    }
}

/// `l` hash signs.
pub open spec fn hashes(l: nat) -> Seq<char> {
    Seq::new(l, |_i: int| '#')
}

/// Law: the heading snippet of level `l` is `l` hash signs and a space, the
/// level taken as 1 below 1 and as 6 above 6; the list, quote, code-block
/// and rule snippets are `- `, `1. `, `> `, a fenced empty code block and
/// `---` with a line break.
pub proof fn law_snippets(l: u8)
    ensures
        snippet_text(Snippet::Heading(l)) == hashes(
            (if l < 1 {
                1
            } else if l > 6 {
                6
            } else {
                l
            }) as nat,
        ).push(' '),
        snippet_text(Snippet::BulletList) == seq!['-', ' '],
        snippet_text(Snippet::NumberedList) == seq!['1', '.', ' '],
        snippet_text(Snippet::Blockquote) == seq!['>', ' '],
        snippet_text(Snippet::CodeBlock) == seq!['`', '`', '`', '\n', '\n', '`', '`', '`', '\n'],
        snippet_text(Snippet::HorizontalRule) == seq!['-', '-', '-', '\n'],
        snippet_text(Snippet::Table)
            == "| Col 1 | Col 2 | Col 3 |\n|--------|--------|--------|\n|  |  |  |\n"@,
        snippet_text(Snippet::EquationBlock) == "$$\n\\sum_{i=0}^{n} x_i\n$$\n"@,
{
    reveal_strlit("# ");
    reveal_strlit("## ");
    reveal_strlit("### ");
    reveal_strlit("#### ");
    reveal_strlit("##### ");
    reveal_strlit("###### ");
    reveal_strlit("- ");
    reveal_strlit("1. ");
    reveal_strlit("> ");
    reveal_strlit("```\n\n```\n");
    reveal_strlit("---\n");
    let k: nat = (if l < 1 {
        1
    } else if l > 6 {
        6
    } else {
        l
    }) as nat;
    assert(snippet_text(Snippet::Heading(l)) =~= hashes(k).push(' '));
    assert(snippet_text(Snippet::BulletList) =~= seq!['-', ' ']);
    assert(snippet_text(Snippet::NumberedList) =~= seq!['1', '.', ' ']);
    assert(snippet_text(Snippet::Blockquote) =~= seq!['>', ' ']);
    assert(snippet_text(Snippet::CodeBlock) =~= seq!['`', '`', '`', '\n', '\n', '`', '`', '`', '\n']);
    assert(snippet_text(Snippet::HorizontalRule) =~= seq!['-', '-', '-', '\n']);
}

/// Law: the keyboard shortcuts. With Ctrl: N new, O open, S save (with
/// Shift: save as), P print (with Shift: the command palette), Q quit,
/// Shift+D the theme, B bold, I italic, U underline, K the link dialog, E the
/// equation block, F find, H find and replace, 1 / 2 / 3 the Source, Split and
/// Editor views, = and + zoom in, - zoom out, 0 reset the zoom. F3 finds the
/// next match (with Shift: the previous one), with or without Ctrl; Escape
/// closes a shown find bar. Any other key, or a letter without Ctrl, does
/// nothing.
pub proof fn law_shortcut_table(key: Key, ctrl: bool, shift: bool, shown: bool)
    ensures
        key == Key::F3 ==> shortcut_of(key, ctrl, shift, shown) == (if shift {
            ShortcutAction::FindPrev
        } else {
            ShortcutAction::FindNext
        }),
        key == Key::Escape ==> shortcut_of(key, ctrl, shift, shown) == (if shown {
            ShortcutAction::CloseSearch
        } else {
            ShortcutAction::Nothing
        }),
        key != Key::F3 && key != Key::Escape && !ctrl ==> shortcut_of(key, ctrl, shift, shown)
            == ShortcutAction::Nothing,
        ctrl ==> {
            &&& shortcut_of(Key::N, ctrl, shift, shown) == ShortcutAction::NewFile
            &&& shortcut_of(Key::O, ctrl, shift, shown) == ShortcutAction::Open
            &&& shortcut_of(Key::S, ctrl, shift, shown) == (if shift {
                ShortcutAction::SaveAs
            } else {
                ShortcutAction::Save
            })
            &&& shortcut_of(Key::P, ctrl, shift, shown) == (if shift {
                ShortcutAction::CommandPalette
            } else {
                ShortcutAction::Print
            })
            &&& shortcut_of(Key::Q, ctrl, shift, shown) == ShortcutAction::Quit
            &&& shortcut_of(Key::D, ctrl, shift, shown) == (if shift {
                ShortcutAction::ToggleTheme
            } else {
                ShortcutAction::Nothing
            })
            &&& shortcut_of(Key::B, ctrl, shift, shown) == ShortcutAction::Format(InlineFormat::Bold)
            &&& shortcut_of(Key::I, ctrl, shift, shown) == ShortcutAction::Format(
                InlineFormat::Italic,
            )
            &&& shortcut_of(Key::U, ctrl, shift, shown) == ShortcutAction::Format(
                InlineFormat::Underline,
            )
            &&& shortcut_of(Key::K, ctrl, shift, shown) == ShortcutAction::LinkDialog
            &&& shortcut_of(Key::E, ctrl, shift, shown) == ShortcutAction::InsertEquation
            &&& shortcut_of(Key::F, ctrl, shift, shown) == ShortcutAction::Find
            &&& shortcut_of(Key::H, ctrl, shift, shown) == ShortcutAction::FindReplace
            &&& shortcut_of(Key::Num1, ctrl, shift, shown) == ShortcutAction::View(ViewMode::Source)
            &&& shortcut_of(Key::Num2, ctrl, shift, shown) == ShortcutAction::View(ViewMode::Split)
            &&& shortcut_of(Key::Num3, ctrl, shift, shown) == ShortcutAction::View(ViewMode::Editor)
            &&& shortcut_of(Key::Equals, ctrl, shift, shown) == ShortcutAction::ZoomIn
            &&& shortcut_of(Key::Plus, ctrl, shift, shown) == ShortcutAction::ZoomIn
            &&& shortcut_of(Key::Minus, ctrl, shift, shown) == ShortcutAction::ZoomOut
            &&& shortcut_of(Key::Num0, ctrl, shift, shown) == ShortcutAction::ZoomReset
            &&& shortcut_of(Key::Other, ctrl, shift, shown) == ShortcutAction::Nothing
        },
{
}

/// Entry `i` is the first argument named `key`.
pub open spec fn first_arg(args: Seq<(String, Option<String>)>, key: Seq<char>, i: int) -> bool {
    &&& 0 <= i < args.len()
    &&& args[i].0@ == key
    &&& forall|j: int| 0 <= j < i ==> args[j].0@ != key
}

/// No argument is named `key`.
pub open spec fn no_arg(args: Seq<(String, Option<String>)>, key: Seq<char>) -> bool {
    forall|j: int| 0 <= j < args.len() ==> args[j].0@ != key
}

proof fn lemma_arg_index_from(args: Seq<(String, Option<String>)>, key: Seq<char>, k: int)
    requires
        0 <= k <= args.len(),
    ensures
        forall|i: int|
            k <= i < args.len() && args[i].0@ == key && (forall|j: int|
                k <= j < i ==> args[j].0@ != key) ==> arg_index(args, key, k) == i,
        (forall|j: int| k <= j < args.len() ==> args[j].0@ != key) ==> arg_index(args, key, k)
            == -1,
    decreases args.len() - k,
{
    if k < args.len() {
        lemma_arg_index_from(args, key, k + 1);
        assert forall|i: int|
            k <= i < args.len() && args[i].0@ == key && (forall|j: int|
                k <= j < i ==> args[j].0@ != key) implies arg_index(args, key, k) == i by {
            if i > k {
                assert(args[k].0@ != key);
            }
        }
    }
}

/// The value a call gives argument `key`: that of its first entry named `key`
/// (`None` when that value is not a string), and `None` without such an entry.
pub proof fn lemma_arg_lookup(args: Seq<(String, Option<String>)>, key: Seq<char>)
    ensures
        forall|i: int| first_arg(args, key, i) ==> opt_arg(args, key) == opt_view(args[i].1),
        no_arg(args, key) ==> opt_arg(args, key) is None,
{
    lemma_arg_index_from(args, key, 0);
}

/// Law: an `export_md` call takes each argument from its own key: the
/// Markdown, the output path, the title, the author and the figure folder
/// are the values of the first arguments named `markdown`, `output`,
/// `title`, `author` and `base_dir`; an optional one that is absent (or not a
/// string) is `None`, whatever the other arguments are. With string values
/// for `markdown` and `output` the call is planned.
pub proof fn law_export_md_arguments(p: CallParams)
    requires
        p.name matches Some(n) && n@ == "export_md"@,
    ensures
        ({
            let args = p.args@;
            &&& (exists|i: int| first_arg(args, "markdown"@, i) && args[i].1 is Some) && (exists|
                j: int,
            | first_arg(args, "output"@, j) && args[j].1 is Some) ==> planned_call(p) is Ok
            &&& planned_call(p) matches Ok(c) ==> (c matches ToolInvocationView::ExportMd {
                markdown,
                output,
                title,
                author,
                base_dir,
            } && (forall|i: int|
                first_arg(args, "markdown"@, i) ==> opt_view(args[i].1) == Some(markdown)) && (
            forall|i: int| first_arg(args, "output"@, i) ==> opt_view(args[i].1) == Some(output))
                && (forall|i: int| first_arg(args, "title"@, i) ==> title == opt_view(args[i].1))
                && (no_arg(args, "title"@) ==> title is None) && (forall|i: int|
                first_arg(args, "author"@, i) ==> author == opt_view(args[i].1)) && (no_arg(
                args,
                "author"@,
            ) ==> author is None) && (forall|i: int|
                first_arg(args, "base_dir"@, i) ==> base_dir == opt_view(args[i].1)) && (no_arg(
                args,
                "base_dir"@,
            ) ==> base_dir is None))
        }),
{
    let args = p.args@;
    reveal_strlit("list_formats");
    reveal_strlit("convert_file");
    reveal_strlit("import_to_md");
    reveal_strlit("export_md");
    reveal_strlit("recover_source");
    assert("list_formats"@.len() == 12);
    assert("convert_file"@.len() == 12);
    assert("import_to_md"@.len() == 12);
    assert("export_md"@.len() == 9);
    assert("recover_source"@.len() == 14);
    lemma_arg_lookup(args, "markdown"@);
    lemma_arg_lookup(args, "output"@);
    lemma_arg_lookup(args, "title"@);
    lemma_arg_lookup(args, "author"@);
    lemma_arg_lookup(args, "base_dir"@);
}

/// Law: a `convert_file` call reads its input and output paths from the
/// first arguments named `input` and `output`, and is planned exactly when
/// both are strings.
pub proof fn law_convert_file_arguments(p: CallParams)
    requires
        p.name matches Some(n) && n@ == "convert_file"@,
    ensures
        ({
            let args = p.args@;
            &&& planned_call(p) is Ok <==> (exists|i: int|
                first_arg(args, "input"@, i) && args[i].1 is Some) && (exists|j: int|
                first_arg(args, "output"@, j) && args[j].1 is Some)
            &&& planned_call(p) matches Ok(c) ==> (c matches ToolInvocationView::ConvertFile {
                input,
                output,
            } && (forall|i: int| first_arg(args, "input"@, i) ==> opt_view(args[i].1) == Some(input))
                && (forall|i: int|
                first_arg(args, "output"@, i) ==> opt_view(args[i].1) == Some(output)))
        }),
{
    let args = p.args@;
    reveal_strlit("list_formats");
    reveal_strlit("convert_file");
    assert("list_formats"@.len() == 12 && "list_formats"@[0] == 'l');
    assert("convert_file"@.len() == 12 && "convert_file"@[0] == 'c');
    lemma_arg_lookup(args, "input"@);
    lemma_arg_lookup(args, "output"@);
    lemma_arg_index_from(args, "input"@, 0);
    lemma_arg_index_from(args, "output"@, 0);
    if opt_arg(args, "input"@) is Some {
        let i = arg_index(args, "input"@, 0);
        lemma_first_index(args, "input"@);
        assert(first_arg(args, "input"@, i) && args[i].1 is Some);
    }
    if opt_arg(args, "output"@) is Some {
        let j = arg_index(args, "output"@, 0);
        lemma_first_index(args, "output"@);
        assert(first_arg(args, "output"@, j) && args[j].1 is Some);
    }
}

/// The index that `arg_index` finds is the first entry with that name.
proof fn lemma_first_index(args: Seq<(String, Option<String>)>, key: Seq<char>)
    ensures
        arg_index(args, key, 0) >= 0 ==> first_arg(args, key, arg_index(args, key, 0)),
{
    lemma_arg_index_first(args, key, 0);
}

proof fn lemma_arg_index_first(args: Seq<(String, Option<String>)>, key: Seq<char>, k: int)
    requires
        0 <= k,
    ensures
        arg_index(args, key, k) >= 0 ==> {
            &&& k <= arg_index(args, key, k) < args.len()
            &&& args[arg_index(args, key, k)].0@ == key
            &&& forall|j: int| k <= j < arg_index(args, key, k) ==> args[j].0@ != key
        },
    decreases args.len() - k,
{
    if k < args.len() && args[k].0@ != key {
        lemma_arg_index_first(args, key, k + 1);
    }
}

/// The number a decimal digit character stands for.
pub open spec fn digit_value(c: char) -> int {
    c as int - '0' as int
}

/// `c` is one of the characters `0` to `9`.
pub open spec fn is_digit(c: char) -> bool {
    '0' <= c <= '9'
}

/// The number that a text of decimal digits stands for.
pub open spec fn decimal_value(s: Seq<char>) -> int
    decreases s.len(),
{
    if s.len() == 0 {
        0
    } else {
        decimal_value(s.drop_last()) * 10 + digit_value(s.last())
    }
}

proof fn lemma_digit_char(d: nat)
    requires
        d < 10,
    ensures
        is_digit(digit_char(d)),
        digit_value(digit_char(d)) == d,
{
}

/// Law: `decimal(n)` is the usual decimal writing of `n`: digits only, no
/// leading zero (except for 0 itself), and it stands for `n`.
pub proof fn law_decimal(n: nat)
    ensures
        forall|k: int| 0 <= k < decimal(n).len() ==> is_digit(#[trigger] decimal(n)[k]),
        decimal_value(decimal(n)) == n,
        decimal(n).len() >= 1,
        decimal(n)[0] == '0' ==> n == 0,
    decreases n,
{
    if n < 10 {
        lemma_digit_char(n);
        assert(decimal(n) == seq![digit_char(n)]);
        assert(seq![digit_char(n)].drop_last() =~= Seq::<char>::empty());
        assert(decimal_value(decimal(n)) == decimal_value(Seq::<char>::empty()) * 10 + digit_value(
            digit_char(n),
        ));
    } else {
        law_decimal(n / 10);
        lemma_digit_char(n % 10);
        let d = decimal(n / 10);
        assert(decimal(n) == d.push(digit_char(n % 10)));
        assert(d.push(digit_char(n % 10)).drop_last() =~= d);
        assert(decimal(n)[0] == d[0]);
        assert((n / 10) * 10 + n % 10 == n) by (nonlinear_arith);
        assert(decimal_value(decimal(n)) == decimal_value(d) * 10 + digit_value(digit_char(n % 10)));
        assert(n / 10 >= 1);
    }
}

/// The number a lower-case hexadecimal digit character stands for.
pub open spec fn hex_value(c: char) -> int {
    if '0' <= c <= '9' {
        c as int - '0' as int
    } else {
        c as int - 'a' as int + 10
    }
}

/// `c` is a lower-case hexadecimal digit.
pub open spec fn is_hex_digit(c: char) -> bool {
    ('0' <= c <= '9') || ('a' <= c <= 'f')
}

/// Law: a colour is written as six lower-case hexadecimal digits, two per
/// component, each pair standing for the component's value.
pub proof fn law_hex_color(rgb: Seq<u8>)
    requires
        rgb.len() == 3,
    ensures
        hex_color(rgb).len() == 6,
        forall|k: int| 0 <= k < 6 ==> is_hex_digit(#[trigger] hex_color(rgb)[k]),
        forall|c: int|
            0 <= c < 3 ==> hex_value(hex_color(rgb)[2 * c]) * 16 + hex_value(
                hex_color(rgb)[2 * c + 1],
            ) == #[trigger] rgb[c],
{
    assert forall|b: u8| #![trigger hex_byte(b)]
        hex_byte(b).len() == 2 && is_hex_digit(hex_byte(b)[0]) && is_hex_digit(hex_byte(b)[1])
            && hex_value(hex_byte(b)[0]) * 16 + hex_value(hex_byte(b)[1]) == b by {
        let hi = (b / 16) as nat;
        let lo = (b % 16) as nat;
        assert(hi < 16 && lo < 16);
        assert(hi * 16 + lo == b);
    }
    let h = hex_color(rgb);
    assert(hex_byte(rgb[0]).len() == 2 && hex_byte(rgb[1]).len() == 2 && hex_byte(rgb[2]).len() == 2);
    assert(h[0] == hex_byte(rgb[0])[0] && h[1] == hex_byte(rgb[0])[1]);
    assert(h[2] == hex_byte(rgb[1])[0] && h[3] == hex_byte(rgb[1])[1]);
    assert(h[4] == hex_byte(rgb[2])[0] && h[5] == hex_byte(rgb[2])[1]);
}

/// Law: the placeholder put between markers when nothing is selected is
/// the word `text`.
pub proof fn law_placeholder()
    ensures
        placeholder() == seq!['t', 'e', 'x', 't'],
{
}

/// Law: the toolbar's paragraph-style label is `Normal` outside a heading,
/// `Heading n` for levels 1 to 6, and `Heading 6` above.
pub proof fn law_paragraph_style(h: u8)
    ensures
        h == 0 ==> paragraph_style(h) == seq!['N', 'o', 'r', 'm', 'a', 'l'],
        h >= 1 ==> paragraph_style(h) == seq!['H', 'e', 'a', 'd', 'i', 'n', 'g', ' '].push(
            digit_char((if h > 6 {
                6
            } else {
                h
            }) as nat),
        ),
{
    reveal_strlit("Normal");
    reveal_strlit("Heading 1");
    reveal_strlit("Heading 2");
    reveal_strlit("Heading 3");
    reveal_strlit("Heading 4");
    reveal_strlit("Heading 5");
    reveal_strlit("Heading 6");
    let d = digit_char((if h > 6 {
        6
    } else {
        h
    }) as nat);
    if h == 0 {
        assert(paragraph_style(h) =~= seq!['N', 'o', 'r', 'm', 'a', 'l']);
    } else {
        assert(paragraph_style(h) =~= seq!['H', 'e', 'a', 'd', 'i', 'n', 'g', ' '].push(d));
    }
}

/// Law: "Save As" writes PDF for the (lower-cased) extension `pdf`, HTML for
/// `html` and `htm`, and Markdown for every other extension.
pub proof fn law_save_target(ext: Seq<char>)
    ensures
        save_target_of(ext) == (if ext == seq!['p', 'd', 'f'] {
            SaveTarget::Pdf
        } else if ext == seq!['h', 't', 'm', 'l'] || ext == seq!['h', 't', 'm'] {
            SaveTarget::Html
        } else {
            SaveTarget::Markdown
        }),
{
    reveal_strlit("pdf");
    reveal_strlit("html");
    reveal_strlit("htm");
    assert("pdf"@ =~= seq!['p', 'd', 'f']);
    assert("html"@ =~= seq!['h', 't', 'm', 'l']);
    assert("htm"@ =~= seq!['h', 't', 'm']);
}

/// Law: the two exports are labelled `PDF` and `HTML` and write `.pdf` and
/// `.html` files.
pub proof fn law_export_kinds()
    ensures
        export_label(ExportKind::Pdf) == seq!['P', 'D', 'F'],
        export_label(ExportKind::Html) == seq!['H', 'T', 'M', 'L'],
        export_ext(ExportKind::Pdf) == seq!['p', 'd', 'f'],
        export_ext(ExportKind::Html) == seq!['h', 't', 'm', 'l'],
{
    reveal_strlit("PDF");
    reveal_strlit("HTML");
    reveal_strlit("pdf");
    reveal_strlit("html");
    assert("PDF"@ =~= seq!['P', 'D', 'F']);
    assert("HTML"@ =~= seq!['H', 'T', 'M', 'L']);
    assert("pdf"@ =~= seq!['p', 'd', 'f']);
    assert("html"@ =~= seq!['h', 't', 'm', 'l']);
}

/// Law: the find status reads `Match i of n` and the replace-all status
/// `Replaced n occurrence`, with an `s` unless `n` is 1, the numbers written
/// in decimal.
pub proof fn law_search_statuses(i: nat, n: nat)
    ensures
        match_status(i, n) == seq!['M', 'a', 't', 'c', 'h', ' '] + decimal(i) + seq![
            ' ',
            'o',
            'f',
            ' ',
        ] + decimal(n),
        replaced_status(n) == seq!['R', 'e', 'p', 'l', 'a', 'c', 'e', 'd', ' '] + decimal(n)
            + seq![' ', 'o', 'c', 'c', 'u', 'r', 'r', 'e', 'n', 'c', 'e'] + (if n == 1 {
            Seq::<char>::empty()
        } else {
            seq!['s']
        }),
{
    reveal_strlit("Match ");
    reveal_strlit(" of ");
    reveal_strlit("Replaced ");
    reveal_strlit(" occurrence");
    reveal_strlit("s");
    assert("Match "@ =~= seq!['M', 'a', 't', 'c', 'h', ' ']);
    assert(" of "@ =~= seq![' ', 'o', 'f', ' ']);
    assert("Replaced "@ =~= seq!['R', 'e', 'p', 'l', 'a', 'c', 'e', 'd', ' ']);
    assert(" occurrence"@ =~= seq![' ', 'o', 'c', 'c', 'u', 'r', 'r', 'e', 'n', 'c', 'e']);
    assert("s"@ =~= seq!['s']);
}

/// Law: the server's five tools are, in order, `list_formats`,
/// `convert_file`, `import_to_md`, `export_md` and `recover_source`, with
/// pairwise different names; `convert_file` requires `input` and `output`,
/// `import_to_md` and `recover_source` require `input`, `export_md` requires
/// `markdown` and `output`, `list_formats` requires nothing; every required
/// argument is one of the tool's arguments.
pub proof fn law_tool_table()
    ensures
        tool_name(0) == "list_formats"@,
        tool_name(1) == "convert_file"@,
        tool_name(2) == "import_to_md"@,
        tool_name(3) == "export_md"@,
        tool_name(4) == "recover_source"@,
        forall|i: int, j: int| 0 <= i < j < 5 ==> tool_name(i) != tool_name(j),
        tool_description(0) == "List every import and export format the conversion engine supports."@,
        tool_description(1) == "Convert a document from one format to another, inferring both formats from the file extensions. Fully offline. DOCX export is reversible: the original Markdown + LaTeX is embedded for lossless recovery."@,
        tool_description(2) == "Import any supported document and return its Markdown representation (LaTeX equations preserved as $...$). Does not write a file."@,
        tool_description(3) == "Export inline Markdown to a file in the format implied by the output extension. Optional title/author metadata. Referenced figures are resolved relative to base_dir (default: the output folder)."@,
        tool_description(4) == "Recover the ORIGINAL editable Markdown + LaTeX from a DOCX previously exported by MD -> ALL. This is the reversibility differentiator: a supervisor can annotate the DOCX in Word and the author recovers their exact source. Returns the recovered Markdown."@,
        tool_param_names(0) == Seq::<Seq<char>>::empty(),
        tool_param_names(1) == seq!["input"@, "output"@],
        tool_param_names(2) == seq!["input"@],
        tool_param_names(3) == seq!["markdown"@, "output"@, "title"@, "author"@, "base_dir"@],
        tool_param_names(4) == seq!["input"@],
        tool_required(0) == Seq::<Seq<char>>::empty(),
        tool_required(1) == seq!["input"@, "output"@],
        tool_required(2) == seq!["input"@],
        tool_required(3) == seq!["markdown"@, "output"@],
        tool_required(4) == seq!["input"@],
        forall|i: int, k: int|
            0 <= i < 5 && 0 <= k < tool_required(i).len() ==> tool_param_names(i).contains(
                #[trigger] tool_required(i)[k],
            ),
{
    reveal_strlit("list_formats");
    reveal_strlit("convert_file");
    reveal_strlit("import_to_md");
    reveal_strlit("export_md");
    reveal_strlit("recover_source");
    assert("list_formats"@.len() == 12 && "list_formats"@[0] == 'l');
    assert("convert_file"@.len() == 12 && "convert_file"@[0] == 'c');
    assert("import_to_md"@.len() == 12 && "import_to_md"@[0] == 'i');
    assert("export_md"@.len() == 9);
    assert("recover_source"@.len() == 14);
    assert(tool_required(1) =~= seq!["input"@, "output"@]);
    assert(tool_param_names(1) =~= seq!["input"@, "output"@]);
    assert(tool_param_names(3) =~= seq!["markdown"@, "output"@, "title"@, "author"@, "base_dir"@]);
    assert(tool_required(3) =~= seq!["markdown"@, "output"@]);
    assert forall|i: int, k: int|
        0 <= i < 5 && 0 <= k < tool_required(i).len() implies tool_param_names(i).contains(
            #[trigger] tool_required(i)[k],
        ) by {
        assert(tool_param_names(i)[k] == tool_required(i)[k]);
    }
}

/// Law: the error texts of a tool call: `missing or non-string argument
/// '<key>'` and `unknown tool '<name>'`.
pub proof fn law_tool_error_messages(key: Seq<char>, name: Seq<char>)
    ensures
        missing_arg_message(key) == "missing or non-string argument '"@ + key + seq!['\''],
        unknown_tool_message(name) == "unknown tool '"@ + name + seq!['\''],
{
    reveal_strlit("'");
    assert("'"@ =~= seq!['\'']);
}

/// Law: a dictionary's row shows "downloading" while it is the one being
/// downloaded, otherwise "active" while it is the one in use, otherwise
/// "installed" when its files are on disk, and "not installed" otherwise.
pub proof fn law_dictionary_row(
    tag: Seq<char>,
    downloading: Option<Seq<char>>,
    active: Option<Seq<char>>,
    installed: bool,
)
    ensures
        downloading == Some(tag) ==> dict_state_of(tag, downloading, active, installed)
            == DlState::Downloading,
        downloading != Some(tag) && active == Some(tag) ==> dict_state_of(
            tag,
            downloading,
            active,
            installed,
        ) == DlState::Active,
        downloading != Some(tag) && active != Some(tag) ==> dict_state_of(
            tag,
            downloading,
            active,
            installed,
        ) == (if installed {
            DlState::Installed
        } else {
            DlState::NotInstalled
        }),
{
}

/// Law: trimming removes exactly the white space at both ends: the result
/// is a piece of the text, it neither starts nor ends with white space, and
/// everything cut off before and after it is white space. Tab, line feed,
/// carriage return and space are white space; letters and digits are not.
pub proof fn law_trim(s: Seq<char>)
    ensures
        exists|a: int, b: int|
            0 <= a <= b <= s.len() && trimmed(s) == s.subrange(a, b) && (forall|k: int|
                0 <= k < a ==> is_white_space(#[trigger] s[k])) && (forall|k: int|
                b <= k < s.len() ==> is_white_space(#[trigger] s[k])),
        trimmed(s).len() > 0 ==> !is_white_space(trimmed(s)[0]) && !is_white_space(
            trimmed(s).last(),
        ),
        is_white_space('\t') && is_white_space('\n') && is_white_space('\r') && is_white_space(' '),
        forall|c: char| ('a' <= c <= 'z' || 'A' <= c <= 'Z' || '0' <= c <= '9') ==> !is_white_space(c),
{
    lemma_first_non_space(s, 0);
    lemma_end_non_space(s, s.len() as int);
    let f = first_non_space(s, 0);
    let e = end_non_space(s, s.len() as int);
    if f < e {
        assert(trimmed(s) == s.subrange(f, e));
    } else {
        assert(trimmed(s) =~= s.subrange(e, e));
    }
}

proof fn lemma_first_non_space(s: Seq<char>, i: int)
    requires
        0 <= i <= s.len(),
    ensures
        i <= first_non_space(s, i) <= s.len(),
        forall|k: int| i <= k < first_non_space(s, i) ==> is_white_space(#[trigger] s[k]),
        first_non_space(s, i) < s.len() ==> !is_white_space(s[first_non_space(s, i)]),
    decreases s.len() - i,
{
    if i < s.len() && is_white_space(s[i]) {
        lemma_first_non_space(s, i + 1);
    }
}

proof fn lemma_end_non_space(s: Seq<char>, j: int)
    requires
        0 <= j <= s.len(),
    ensures
        0 <= end_non_space(s, j) <= j,
        forall|k: int| end_non_space(s, j) <= k < j ==> is_white_space(#[trigger] s[k]),
        end_non_space(s, j) > 0 ==> !is_white_space(s[end_non_space(s, j) - 1]),
    decreases j,
{
    if j > 0 && is_white_space(s[j - 1]) {
        lemma_end_non_space(s, j - 1);
    }
}

/// Law: `import_to_md` and `recover_source` read their input path from the
/// first argument named `input`, and are planned exactly when it is a string.
pub proof fn law_single_input_arguments(p: CallParams)
    requires
        p.name matches Some(n) && (n@ == "import_to_md"@ || n@ == "recover_source"@),
    ensures
        ({
            let args = p.args@;
            &&& planned_call(p) is Ok <==> (exists|i: int|
                first_arg(args, "input"@, i) && args[i].1 is Some)
            &&& planned_call(p) matches Ok(c) ==> ((c matches ToolInvocationView::ImportToMd {
                input,
            } && p.name->0@ == "import_to_md"@ && (forall|i: int|
                first_arg(args, "input"@, i) ==> opt_view(args[i].1) == Some(input))) || (
            c matches ToolInvocationView::RecoverSource { input } && p.name->0@
                == "recover_source"@ && (forall|i: int|
                first_arg(args, "input"@, i) ==> opt_view(args[i].1) == Some(input))))
        }),
{
    let args = p.args@;
    reveal_strlit("list_formats");
    reveal_strlit("convert_file");
    reveal_strlit("import_to_md");
    reveal_strlit("export_md");
    reveal_strlit("recover_source");
    assert("list_formats"@.len() == 12 && "list_formats"@[0] == 'l');
    assert("convert_file"@.len() == 12 && "convert_file"@[0] == 'c');
    assert("import_to_md"@.len() == 12 && "import_to_md"@[0] == 'i');
    assert("export_md"@.len() == 9);
    assert("recover_source"@.len() == 14);
    lemma_arg_lookup(args, "input"@);
    lemma_arg_index_from(args, "input"@, 0);
    if opt_arg(args, "input"@) is Some {
        let i = arg_index(args, "input"@, 0);
        lemma_first_index(args, "input"@);
        assert(first_arg(args, "input"@, i) && args[i].1 is Some);
    }
}

} // verus!
