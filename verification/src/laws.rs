//! Properties that relate several editing commands or hold of every input.
use vstd::prelude::*;
use crate::editor::{
    match_end, next_index, placeholder, prev_index, sel_end, sel_start, text_inserted, text_wrapped,
    wrap_inner, MdApp,
};
use crate::mcp::{
    missing_arg_message, opt_arg, planned_call, tool_name, tool_required, CallParams,
    ToolInvocationView,
};
use crate::replace::{lemma_rebuild_same, range_ends, range_starts, ranges_replaceable, rebuild};
use crate::search::{
    lemma_occurrences, lowercase, matches_at, occurrences_from, occurs_at, search_offsets,
};
use crate::text::{
    byte_len, byte_pos, char_index_of_byte, is_char_boundary_at, lemma_boundary_char,
    lemma_byte_len_concat, lemma_byte_pos_end, lemma_byte_pos_mono, lemma_char_index_of_byte_pos,
    min_int,
};

verus! {

/// Law: "find next" followed by "find previous" (and the other way round)
/// comes back to the same match, as long as the matches do not change.
pub proof fn law_find_next_prev_inverse(i: int, n: int)
    requires
        0 <= i < n,
    ensures
        prev_index(next_index(i, n), n) == i,
        next_index(prev_index(i, n), n) == i,
        0 <= next_index(i, n) < n,
        0 <= prev_index(i, n) < n,
{
    if i + 1 < n {
        vstd::arithmetic::div_mod::lemma_small_mod((i + 1) as nat, n as nat);
    } else {
        vstd::arithmetic::div_mod::lemma_mod_self_0(n);
    }
    if i == 0 {
        vstd::arithmetic::div_mod::lemma_mod_self_0(n);
    } else {
        vstd::arithmetic::div_mod::lemma_small_mod(i as nat, n as nat);
    }
}

/// Where `q` occurs at character `o`, it ends `byte_len(q)` bytes after it starts.
pub proof fn lemma_occurrence_bytes(src: Seq<char>, q: Seq<char>, o: int)
    requires
        matches_at(src, q, o),
    ensures
        byte_pos(src, o + q.len()) == byte_pos(src, o) + byte_len(q),
        byte_pos(src, o + q.len()) <= byte_len(src),
{
    assert(src.take(o + q.len()) =~= src.take(o) + src.subrange(o, o + q.len()));
    lemma_byte_len_concat(src.take(o), q);
    lemma_byte_pos_mono(src, o + q.len(), src.len() as int);
    lemma_byte_pos_end(src);
}

/// Byte offset and end of an occurrence: the match starting at the byte
/// position of occurrence `o` ends at the byte position of the character after
/// it, in both modes.
pub proof fn lemma_occurrence_span(src: Seq<char>, q: Seq<char>, o: int, cs: bool)
    requires
        occurs_at(src, q, o, cs),
    ensures
        match_end(src, q, byte_pos(src, o) as int, cs) == byte_pos(src, o + q.len()),
        byte_pos(src, o) <= byte_pos(src, o + q.len()) <= byte_len(src),
        char_index_of_byte(src, byte_pos(src, o) as int) == o,
        char_index_of_byte(src, byte_pos(src, o + q.len()) as int) == o + q.len(),
        is_char_boundary_at(src, byte_pos(src, o) as int),
        is_char_boundary_at(src, byte_pos(src, o + q.len()) as int),
        cs ==> byte_pos(src, o) + byte_len(q) <= byte_len(src),
{
    lemma_char_index_of_byte_pos(src, o);
    lemma_char_index_of_byte_pos(src, o + q.len());
    lemma_byte_pos_mono(src, o, o + q.len());
    lemma_byte_pos_mono(src, o + q.len(), src.len() as int);
    lemma_byte_pos_end(src);
    if cs {
        lemma_occurrence_bytes(src, q, o);
    }
}

/// Law: match `k` covers exactly the `k`-th occurrence of the query. Its
/// offset is a byte offset into the source that starts a character, its end
/// is the byte position of the character after the occurrence, and the text
/// it covers is the query (case-sensitive) or lower-cases to what the query
/// lower-cases to (case-insensitive). So find next / previous selects such a
/// text.
pub proof fn law_match_is_query(src: Seq<char>, q: Seq<char>, k: int, cs: bool)
    requires
        q.len() > 0,
        0 <= k < search_offsets(src, q, cs).len(),
    ensures
        ({
            let o = occurrences_from(src, q, 0, cs)[k];
            let b = search_offsets(src, q, cs)[k];
            let text = src.subrange(
                char_index_of_byte(src, b),
                char_index_of_byte(src, match_end(src, q, b, cs)),
            );
            &&& is_char_boundary_at(src, b)
            &&& char_index_of_byte(src, b) == o
            &&& char_index_of_byte(src, match_end(src, q, b, cs)) == o + q.len()
            &&& cs ==> text == q
            &&& !cs ==> lowercase(text) == lowercase(q)
        }),
{
    lemma_occurrences(src, q, 0, cs);
    let o = occurrences_from(src, q, 0, cs)[k];
    assert(occurs_at(src, q, o, cs));
    lemma_occurrence_span(src, q, o, cs);
}

/// Law: "replace all" never fails. Its ranges are the leftmost
/// non-overlapping occurrences of the query: range `k` runs from the `k`-th
/// occurrence to the character after it, its start and end bytes start
/// characters, and the ranges do not overlap.
pub proof fn law_replace_all_ranges(src: Seq<char>, q: Seq<char>, cs: bool)
    requires
        q.len() > 0,
    ensures
        ({
            let m = search_offsets(src, q, cs);
            let occ = occurrences_from(src, q, 0, cs);
            let e = m.map_values(|b: int| match_end(src, q, b, cs));
            &&& m.len() == occ.len()
            &&& forall|k: int| 0 <= k < m.len() ==> #[trigger] m[k] <= byte_len(src)
            &&& cs ==> forall|k: int|
                0 <= k < m.len() ==> #[trigger] m[k] + byte_len(q) <= byte_len(src)
            &&& ranges_replaceable(src, m, e)
            &&& range_starts(src, m) == occ
            &&& range_ends(src, e) == occ.map_values(|o: int| o + q.len())
        }),
{
    let m = search_offsets(src, q, cs);
    let occ = occurrences_from(src, q, 0, cs);
    let e = m.map_values(|b: int| match_end(src, q, b, cs));
    lemma_occurrences(src, q, 0, cs);
    assert forall|j: int| 0 <= j < m.len() implies {
        &&& #[trigger] m[j] == byte_pos(src, occ[j])
        &&& e[j] == byte_pos(src, occ[j] + q.len())
        &&& 0 <= m[j] <= e[j] <= byte_len(src)
        &&& cs ==> m[j] + byte_len(q) <= byte_len(src)
        &&& is_char_boundary_at(src, m[j])
        &&& is_char_boundary_at(src, e[j])
        &&& char_index_of_byte(src, m[j]) == occ[j]
        &&& char_index_of_byte(src, e[j]) == occ[j] + q.len()
    } by {
        assert(occurs_at(src, q, occ[j], cs));
        lemma_occurrence_span(src, q, occ[j], cs);
    }
    assert forall|j: int| 0 <= j < m.len() - 1 implies #[trigger] e[j] <= m[j + 1] by {
        assert(occurs_at(src, q, occ[j], cs));
        assert(occurs_at(src, q, occ[j + 1], cs));
        assert(occ[j] + q.len() <= occ[j + 1]);
        lemma_occurrence_span(src, q, occ[j], cs);
        lemma_occurrence_span(src, q, occ[j + 1], cs);
        lemma_byte_pos_mono(src, occ[j] + q.len(), occ[j + 1]);
    }
    assert(range_starts(src, m) =~= occ);
    assert(range_ends(src, e) =~= occ.map_values(|o: int| o + q.len()));
}

/// Index, in the tool list, of the tool that a planned call runs.
pub open spec fn invocation_tool(c: ToolInvocationView) -> int {
    match c {
        ToolInvocationView::ListFormats => 0,
        ToolInvocationView::ConvertFile { .. } => 1,
        ToolInvocationView::ImportToMd { .. } => 2,
        ToolInvocationView::ExportMd { .. } => 3,
        ToolInvocationView::RecoverSource { .. } => 4,
    }
}

/// Law: every tool that `tools/list` offers can be called. A `tools/call`
/// naming tool `i` with a string value for each argument that the tool's
/// schema marks required runs that tool; one that lacks a required argument
/// fails with the message naming one of the tool's required arguments.
pub proof fn law_listed_tools_are_callable(i: int, p: CallParams)
    requires
        0 <= i < 5,
        p.name matches Some(n) && n@ == tool_name(i),
    ensures
        (forall|k: int|
            0 <= k < tool_required(i).len() ==> opt_arg(p.args@, #[trigger] tool_required(i)[k])
                is Some) ==> (planned_call(p) matches Ok(c) && invocation_tool(c) == i),
        (exists|k: int|
            0 <= k < tool_required(i).len() && opt_arg(p.args@, #[trigger] tool_required(i)[k])
                is None) ==> exists|k: int|
            0 <= k < tool_required(i).len() && planned_call(p) == Err::<ToolInvocationView, Seq<char>>(
                missing_arg_message(#[trigger] tool_required(i)[k]),
            ),
{
    reveal_strlit("list_formats");
    reveal_strlit("convert_file");
    reveal_strlit("import_to_md");
    reveal_strlit("export_md");
    reveal_strlit("recover_source");
    assert("list_formats"@.len() == 12 && "list_formats"@[0] == 'l');
    assert("convert_file"@.len() == 12 && "convert_file"@[0] == 'c');
    assert("import_to_md"@.len() == 12 && "import_to_md"@[0] == 'i');
    assert("export_md"@.len() == 9);
    assert("recover_source"@.len() == 14);
    let req = tool_required(i);
    if i == 1 || i == 3 {
        assert(req.len() == 2);
        let a0 = req[0];
        let a1 = req[1];
        if opt_arg(p.args@, a0) is None {
            assert(planned_call(p) == Err::<ToolInvocationView, Seq<char>>(missing_arg_message(req[0])));
        } else if opt_arg(p.args@, a1) is None {
            assert(planned_call(p) == Err::<ToolInvocationView, Seq<char>>(missing_arg_message(req[1])));
        }
    } else if i == 2 || i == 4 {
        assert(req.len() == 1);
        let a0 = req[0];
        if opt_arg(p.args@, a0) is None {
            assert(planned_call(p) == Err::<ToolInvocationView, Seq<char>>(missing_arg_message(req[0])));
        }
    }
}

/// Law: character and byte indices convert into each other without loss.
/// Converting character index `i` to bytes (`char_to_byte_index`) and back
/// (`byte_to_char_index`) gives `i`, or the character count when `i` is past
/// the end; converting a byte offset that starts a character to a character
/// index and back gives the same offset.
pub proof fn law_char_byte_round_trip(s: Seq<char>, i: int, b: int)
    requires
        0 <= i,
    ensures
        char_index_of_byte(s, byte_pos(s, min_int(i, s.len() as int)) as int) == min_int(
            i,
            s.len() as int,
        ),
        is_char_boundary_at(s, b) ==> byte_pos(s, char_index_of_byte(s, b)) == b,
{
    lemma_char_index_of_byte_pos(s, min_int(i, s.len() as int));
    if is_char_boundary_at(s, b) {
        lemma_boundary_char(s, b);
    }
}

/// Law: a case-sensitive "replace all" whose replacement is the query itself
/// gives back the text it started from.
pub proof fn law_replace_all_by_query_keeps_text(src: Seq<char>, q: Seq<char>)
    requires
        q.len() > 0,
    ensures
        ({
            let occ = occurrences_from(src, q, 0, true);
            rebuild(src, occ, occ.map_values(|o: int| o + q.len()), q, 0, 0) == src
        }),
{
    let occ = occurrences_from(src, q, 0, true);
    let ds = occ.map_values(|o: int| o + q.len());
    lemma_occurrences(src, q, 0, true);
    assert forall|k: int| 0 <= k < occ.len() implies 0 <= #[trigger] occ[k] <= ds[k] <= src.len()
        && src.subrange(occ[k], ds[k]) == q by {
        assert(occurs_at(src, q, occ[k], true));
    }
    assert forall|k: int| 0 <= k < occ.len() - 1 implies #[trigger] ds[k] <= occ[k + 1] by {
        assert(occ[k] + q.len() <= occ[k + 1]);
    }
    lemma_rebuild_same(src, occ, ds, q, 0, 0);
    assert(src.subrange(0, src.len() as int) =~= src);
}

/// Law: text inserted over the selection reads back, unchanged, just before
/// the new cursor, and the text before the selection and after it is kept.
pub proof fn law_inserted_text_reads_back(a: MdApp, b: MdApp, text: Seq<char>)
    requires
        text_inserted(&a, &b, text),
        sel_start(&a) <= a.source@.len(),
    ensures
        b.source@.subrange(sel_start(&a), b.cursor_pos as int) == text,
        b.source@.take(sel_start(&a)) == a.source@.take(sel_start(&a)),
        b.source@.skip(b.cursor_pos as int) == a.source@.skip(
            min_int(sel_end(&a), a.source@.len() as int),
        ),
{
    let s = sel_start(&a);
    let e = min_int(sel_end(&a), a.source@.len() as int);
    assert(b.source@ == a.source@.take(s) + text + a.source@.skip(e));
    assert(b.source@.subrange(s, b.cursor_pos as int) =~= text);
    assert(b.source@.take(s) =~= a.source@.take(s));
    assert(b.source@.skip(b.cursor_pos as int) =~= a.source@.skip(e));
}

/// Law: wrapping reads back as the opening marker, the selected text (or the
/// placeholder) and the closing marker; the text around it is kept. A wrapped
/// selection leaves no selection, the cursor right after the closing marker;
/// an inserted placeholder is exactly what is selected afterwards.
pub proof fn law_wrapped_text_reads_back(a: MdApp, b: MdApp, before: Seq<char>, after: Seq<char>)
    requires
        text_wrapped(&a, &b, before, after),
        sel_start(&a) <= a.source@.len(),
    ensures
        ({
            let s = sel_start(&a);
            let w = before + wrap_inner(&a) + after;
            &&& b.source@.subrange(s, s + w.len()) == w
            &&& b.source@.take(s) == a.source@.take(s)
            &&& b.source@.skip(s + w.len()) == a.source@.skip(
                min_int(sel_end(&a), a.source@.len() as int),
            )
        }),
        sel_start(&a) != sel_end(&a) ==> {
            &&& wrap_inner(&a) == a.source@.subrange(
                sel_start(&a),
                min_int(sel_end(&a), a.source@.len() as int),
            )
            &&& b.cursor_pos == b.selection_anchor
            &&& b.cursor_pos == sel_start(&a) + before.len() + wrap_inner(&a).len() + after.len()
        },
        sel_start(&a) == sel_end(&a) ==> {
            &&& b.selection_anchor < b.cursor_pos
            &&& b.source@.subrange(b.selection_anchor as int, b.cursor_pos as int) == placeholder()
        },
{
    let s = sel_start(&a);
    let e = min_int(sel_end(&a), a.source@.len() as int);
    let w = before + wrap_inner(&a) + after;
    assert(b.source@ == a.source@.take(s) + w + a.source@.skip(e));
    assert(b.source@.subrange(s, s + w.len()) =~= w);
    assert(b.source@.take(s) =~= a.source@.take(s));
    assert(b.source@.skip(s + w.len()) =~= a.source@.skip(e));
    if s == sel_end(&a) {
        assert(b.source@.subrange(b.selection_anchor as int, b.cursor_pos as int) =~= placeholder());
    }
}

/// Law: wrapping a selection `[s, e)` that lies inside the text puts the
/// markers around exactly that text, with the cursor and the anchor both right
/// after the closing marker.
pub proof fn law_wrap_selection(a: MdApp, b: MdApp, before: Seq<char>, after: Seq<char>)
    requires
        text_wrapped(&a, &b, before, after),
        sel_start(&a) < sel_end(&a) <= a.source@.len(),
    ensures
        ({
            let s = sel_start(&a);
            let e = sel_end(&a);
            &&& b.source@ == a.source@.take(s) + before + a.source@.subrange(s, e) + after
                + a.source@.skip(e)
            &&& b.cursor_pos == e + before.len() + after.len()
            &&& b.selection_anchor == b.cursor_pos
            &&& b.pending_cursor == Some((b.cursor_pos, b.selection_anchor))
            &&& b.modified
            &&& b.segments_dirty
        }),
{
    let s = sel_start(&a);
    let e = sel_end(&a);
    assert(b.source@ =~= a.source@.take(s) + before + a.source@.subrange(s, e) + after
        + a.source@.skip(e));
}

} // verus!
