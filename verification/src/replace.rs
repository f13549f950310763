//! Replacing several byte ranges of a text at once. The ranges are given by
//! their start and end byte offsets; they are applied from the last to the
//! first so that the offsets of the earlier ones stay valid.
use vstd::prelude::*;
use crate::text::{
    byte_len, byte_pos, char_index_of_byte, char_of_byte_offset, chars_of, is_char_boundary_at,
    lemma_boundary_char, lemma_byte_len_concat, lemma_byte_pos_mono, lemma_byte_pos_prefix,
    lemma_char_index_of_byte_pos, splice_chars, text_len,
};

verus! {

/// The offsets as integers.
pub open spec fn to_ints(v: Seq<usize>) -> Seq<int> {
    v.map_values(|x: usize| x as int)
}

/// Character index at which range `j` (starting at byte `m[j]`) starts.
pub open spec fn range_starts(src: Seq<char>, m: Seq<int>) -> Seq<int> {
    Seq::new(m.len(), |j: int| char_index_of_byte(src, m[j]))
}

/// Character index at which range `j` (ending at byte `e[j]`) ends.
pub open spec fn range_ends(src: Seq<char>, e: Seq<int>) -> Seq<int> {
    Seq::new(e.len(), |j: int| char_index_of_byte(src, e[j]))
}

/// The ranges `[m[j], e[j])` can be replaced: each starts and ends on a
/// character boundary and does not end before it starts, and each ends
/// before the next one starts.
pub open spec fn ranges_replaceable(src: Seq<char>, m: Seq<int>, e: Seq<int>) -> bool {
    &&& m.len() == e.len()
    &&& forall|j: int|
        0 <= j < m.len() ==> {
            &&& 0 <= #[trigger] m[j] <= e[j]
            &&& is_char_boundary_at(src, m[j])
            &&& is_char_boundary_at(src, e[j])
        }
    &&& forall|j: int| 0 <= j < m.len() - 1 ==> #[trigger] e[j] <= m[j + 1]
}

/// `s` from character `pos` on, with the character ranges `[cs[k], ds[k])`
/// for `k >= i` replaced by `rep`: the text between consecutive ranges is
/// kept and each range becomes `rep`.
pub open spec fn rebuild(
    s: Seq<char>,
    cs: Seq<int>,
    ds: Seq<int>,
    rep: Seq<char>,
    i: int,
    pos: int,
) -> Seq<char>
    decreases cs.len() - i,
{
    if i < 0 || i >= cs.len() {
        s.subrange(pos, s.len() as int)
    } else {
        s.subrange(pos, cs[i]) + rep + rebuild(s, cs, ds, rep, i + 1, ds[i])
    }
}

/// When every range `[cs[k], ds[k])` from `i` on already reads `rep`, and the
/// ranges are ordered and lie after `pos`, rebuilding gives back the text
/// from `pos` on.
pub proof fn lemma_rebuild_same(
    s: Seq<char>,
    cs: Seq<int>,
    ds: Seq<int>,
    rep: Seq<char>,
    i: int,
    pos: int,
)
    requires
        0 <= i <= cs.len(),
        cs.len() == ds.len(),
        0 <= pos <= s.len(),
        i < cs.len() ==> pos <= cs[i],
        forall|k: int| i <= k < cs.len() ==> 0 <= #[trigger] cs[k] <= ds[k] <= s.len(),
        forall|k: int| i <= k < cs.len() ==> s.subrange(#[trigger] cs[k], ds[k]) == rep,
        forall|k: int| i <= k < cs.len() - 1 ==> #[trigger] ds[k] <= cs[k + 1],
    ensures
        rebuild(s, cs, ds, rep, i, pos) == s.subrange(pos, s.len() as int),
    decreases cs.len() - i,
{
    if i < cs.len() {
        lemma_rebuild_same(s, cs, ds, rep, i + 1, ds[i]);
        assert(s.subrange(pos, cs[i]) + s.subrange(cs[i], ds[i]) + s.subrange(ds[i], s.len() as int)
            =~= s.subrange(pos, s.len() as int));
    }
}

/// Character positions of range `j`: its start and end bytes are the byte
/// positions of its start and end characters, and the ranges are ordered.
pub proof fn lemma_range(src: Seq<char>, m: Seq<int>, e: Seq<int>, j: int)
    requires
        ranges_replaceable(src, m, e),
        0 <= j < m.len(),
    ensures
        0 <= range_starts(src, m)[j] <= range_ends(src, e)[j] <= src.len(),
        byte_pos(src, range_starts(src, m)[j]) == m[j],
        byte_pos(src, range_ends(src, e)[j]) == e[j],
        e[j] <= byte_len(src),
        j + 1 < m.len() ==> range_ends(src, e)[j] <= range_starts(src, m)[j + 1],
{
    let s = range_starts(src, m)[j];
    let d = range_ends(src, e)[j];
    assert(0 <= m[j]);
    lemma_boundary_char(src, m[j]);
    lemma_boundary_char(src, e[j]);
    if s > d {
        lemma_byte_pos_mono(src, d, s);
    }
    if j + 1 < m.len() {
        assert(e[j] <= m[j + 1]);
        assert(0 <= m[j + 1]);
        lemma_boundary_char(src, m[j + 1]);
        let s2 = range_starts(src, m)[j + 1];
        if d > s2 {
            lemma_byte_pos_mono(src, s2, d);
        }
    }
}

/// `src` with the byte ranges `[offsets[j], ends[j])` replaced by `rep`.
pub fn replace_ranges(src: &str, offsets: &Vec<usize>, ends: &Vec<usize>, rep: &str) -> (r: String)
    requires
        ranges_replaceable(src@, to_ints(offsets@), to_ints(ends@)),
    ensures
        r@ == rebuild(
            src@,
            range_starts(src@, to_ints(offsets@)),
            range_ends(src@, to_ints(ends@)),
            rep@,
            0,
            0,
        ),
{
    let ghost s0 = src@;
    let ghost m = to_ints(offsets@);
    let ghost cs = range_starts(s0, m);
    let ghost en = to_ints(ends@);
    let ghost ds = range_ends(s0, en);
    let count = offsets.len();
    let mut cur = String::from_str(src);
    let mut j = count;
    while j > 0
        invariant
            j <= count == offsets@.len() == m.len(),
            m == to_ints(offsets@),
            s0 == src@,
            cs == range_starts(s0, m),
            en == to_ints(ends@),
            ds == range_ends(s0, en),
            ranges_replaceable(s0, m, en),
            j == count ==> cur@ == s0,
            j < count ==> cur@ == s0.take(cs[j as int]) + rep@ + rebuild(
                s0,
                cs,
                ds,
                rep@,
                j + 1,
                ds[j as int],
            ),
        decreases j,
    {
        j = j - 1;
        let ghost jj = j as int;
        proof {
            lemma_range(s0, m, en, jj);
            if jj + 1 < count {
                lemma_range(s0, m, en, jj + 1);
                assert(s0.take(cs[jj + 1]) =~= s0.take(ds[jj]) + s0.subrange(ds[jj], cs[jj + 1]));
                assert(cur@ =~= s0.take(ds[jj]) + rebuild(s0, cs, ds, rep@, jj + 1, ds[jj]));
            } else {
                assert(cur@ =~= s0.take(ds[jj]) + rebuild(s0, cs, ds, rep@, jj + 1, ds[jj]));
            }
        }
        let ghost pre = s0.take(ds[jj]);
        let ghost tail = rebuild(s0, cs, ds, rep@, jj + 1, ds[jj]);
        let b = offsets[j];
        let e = ends[j];
        let _clen = text_len(cur.as_str());
        proof {
            assert(m[jj] == b as int);
            assert(s0 =~= pre + s0.skip(ds[jj]));
            lemma_byte_pos_prefix(pre, tail, cs[jj]);
            lemma_byte_pos_prefix(pre, s0.skip(ds[jj]), cs[jj]);
            lemma_byte_pos_prefix(pre, tail, ds[jj]);
            lemma_byte_pos_prefix(pre, s0.skip(ds[jj]), ds[jj]);
            lemma_char_index_of_byte_pos(cur@, cs[jj]);
            lemma_char_index_of_byte_pos(cur@, ds[jj]);
            lemma_byte_len_concat(pre, tail);
            assert(pre.take(pre.len() as int) =~= pre);
            assert(byte_len(pre) == byte_pos(s0, ds[jj]));
            assert(en[jj] == e as int);
        }
        let chars = chars_of(cur.as_str());
        let cstart = char_of_byte_offset(&chars, b);
        let cend = char_of_byte_offset(&chars, e);
        proof {
            assert(cstart as int == cs[jj]);
            assert(cend as int == ds[jj]);
        }
        cur = splice_chars(cur.as_str(), cstart, cend, rep);
        proof {
            assert(cur@ =~= s0.take(cs[jj]) + rep@ + tail);
        }
    }
    proof {
        if count == 0 {
            assert(cur@ =~= rebuild(s0, cs, ds, rep@, 0, 0));
        } else {
            assert(cur@ =~= rebuild(s0, cs, ds, rep@, 0, 0));
        }
    }
    cur
}

} // verus!
