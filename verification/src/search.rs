//! Finding a query in a text: the leftmost non-overlapping occurrences, as
//! character indices (spec) and as UTF-8 byte offsets into the text (what the
//! editor stores). A case-insensitive occurrence is a run of as many
//! characters as the query whose lower-case form is the query's.
use vstd::prelude::*;
use crate::mcp::same_text;
use crate::text::{
    byte_len, byte_pos, lemma_byte_pos_end, lemma_byte_pos_mono, lemma_byte_pos_next, utf8_width,
};

verus! {

/// `nd` occurs in `h` at character index `i`.
pub open spec fn matches_at(h: Seq<char>, nd: Seq<char>, i: int) -> bool {
    0 <= i && i + nd.len() <= h.len() && h.subrange(i, i + nd.len()) == nd
}

/// `nd` occurs in `h` at character index `i`: with `case_sensitive`, the
/// `nd.len()` characters from `i` are `nd`; without, their lower-case form is
/// the lower-case form of `nd`.
pub open spec fn occurs_at(h: Seq<char>, nd: Seq<char>, i: int, case_sensitive: bool) -> bool {
    if case_sensitive {
        matches_at(h, nd, i)
    } else {
        0 <= i && i + nd.len() <= h.len() && lowercase(h.subrange(i, i + nd.len())) == lowercase(
            nd,
        )
    }
}

/// The first character index at or after `i` at which `nd` occurs in `h`, or -1.
pub open spec fn first_match_from(h: Seq<char>, nd: Seq<char>, i: int, cs: bool) -> int
    decreases h.len() + 1 - i,
{
    if i < 0 || i + nd.len() > h.len() {
        -1
    } else if occurs_at(h, nd, i, cs) {
        i
    } else {
        first_match_from(h, nd, i + 1, cs)
    }
}

/// The leftmost non-overlapping occurrences of a non-empty `nd` in `h`,
/// scanning from character index `i`: each one is the first occurrence that
/// starts at or after the end of the previous one.
pub open spec fn occurrences_from(h: Seq<char>, nd: Seq<char>, i: int, cs: bool) -> Seq<int>
    decreases h.len() + 1 - i,
{
    if nd.len() == 0 || i < 0 || i >= h.len() {
        Seq::empty()
    } else {
        let j = first_match_from(h, nd, i, cs);
        if j < 0 {
            Seq::empty()
        } else {
            proof {
                lemma_first_match(h, nd, i, cs);
            }
            seq![j].add(occurrences_from(h, nd, j + nd.len(), cs))
        }
    }
}

/// The byte offsets in `h` of the characters at the indices `idx`.
pub open spec fn to_byte_offsets(h: Seq<char>, idx: Seq<int>) -> Seq<int> {
    idx.map_values(|j: int| byte_pos(h, j) as int)
}

/// Byte offsets of the leftmost non-overlapping occurrences of `nd` in `h`.
pub open spec fn match_offsets(h: Seq<char>, nd: Seq<char>, cs: bool) -> Seq<int> {
    to_byte_offsets(h, occurrences_from(h, nd, 0, cs))
}

pub proof fn lemma_first_match(h: Seq<char>, nd: Seq<char>, i: int, cs: bool)
    requires
        0 <= i,
    ensures
        first_match_from(h, nd, i, cs) == -1 || (i <= first_match_from(h, nd, i, cs) && occurs_at(
            h,
            nd,
            first_match_from(h, nd, i, cs),
            cs,
        )),
        forall|k: int|
            i <= k && (first_match_from(h, nd, i, cs) == -1 || k < first_match_from(h, nd, i, cs))
                ==> !occurs_at(h, nd, k, cs),
    decreases h.len() + 1 - i,
{
    if i + nd.len() > h.len() {
    } else if occurs_at(h, nd, i, cs) {
    } else {
        lemma_first_match(h, nd, i + 1, cs);
    }
}

/// Law: the occurrences are real occurrences, in increasing order and
/// pairwise non-overlapping, and every occurrence of `nd` at or after `i` lies
/// inside one of them (nothing is skipped).
pub proof fn lemma_occurrences(h: Seq<char>, nd: Seq<char>, i: int, cs: bool)
    requires
        0 <= i,
    ensures
        forall|k: int|
            0 <= k < occurrences_from(h, nd, i, cs).len() ==> #[trigger] occurs_at(
                h,
                nd,
                occurrences_from(h, nd, i, cs)[k],
                cs,
            ) && i <= occurrences_from(h, nd, i, cs)[k],
        forall|k: int, l: int|
            0 <= k < l < occurrences_from(h, nd, i, cs).len() ==> #[trigger] occurrences_from(h, nd, i, cs)[k] + nd.len() <= #[trigger] occurrences_from(h, nd, i, cs)[l],
        nd.len() > 0 ==> forall|p: int|
            i <= p && #[trigger] occurs_at(h, nd, p, cs) ==> exists|k: int|
                0 <= k < occurrences_from(h, nd, i, cs).len() && #[trigger] occurrences_from(h, nd, i, cs)[k] <= p
                    < occurrences_from(h, nd, i, cs)[k] + nd.len(),
    decreases h.len() + 1 - i,
{
    let occ = occurrences_from(h, nd, i, cs);
    if nd.len() == 0 || i >= h.len() {
    } else {
        lemma_first_match(h, nd, i, cs);
        let j = first_match_from(h, nd, i, cs);
        if j >= 0 {
            let rest = occurrences_from(h, nd, j + nd.len(), cs);
            lemma_occurrences(h, nd, j + nd.len(), cs);
            assert(occ == seq![j] + rest);
            assert forall|k: int| 0 <= k < occ.len() implies #[trigger] occurs_at(
                h,
                nd,
                occ[k],
                cs,
            ) && i <= occ[k] by {
                if k > 0 {
                    assert(occ[k] == rest[k - 1]);
                    assert(occurs_at(h, nd, rest[k - 1], cs));
                }
            }
            assert forall|k: int, l: int| 0 <= k < l < occ.len() implies #[trigger] occ[k]
                + nd.len() <= #[trigger] occ[l] by {
                assert(occ[l] == rest[l - 1]);
                assert(occurs_at(h, nd, rest[l - 1], cs));
                if k > 0 {
                    assert(occ[k] == rest[k - 1]);
                }
            }
            assert forall|p: int| i <= p && #[trigger] occurs_at(h, nd, p, cs) implies exists|k: int|
                0 <= k < occ.len() && #[trigger] occ[k] <= p < occ[k] + nd.len() by {
                if p < j + nd.len() {
                    assert(occ[0] == j);
                } else {
                    let k2 = choose|k2: int|
                        0 <= k2 < rest.len() && #[trigger] rest[k2] <= p < rest[k2] + nd.len();
                    assert(occ[k2 + 1] == rest[k2]);
                }
            }
        } else {
            assert forall|p: int| i <= p && #[trigger] occurs_at(h, nd, p, cs) implies exists|k: int|
                0 <= k < occ.len() && #[trigger] occ[k] <= p < occ[k] + nd.len() by {
                assert(!occurs_at(h, nd, p, cs));
            }
        }
    }
}

/// What `str::to_lowercase` gives for a text (Unicode lower-case mapping).
pub uninterp spec fn lowercase(s: Seq<char>) -> Seq<char>;

/// `str::to_lowercase`. The contract only names the result: it is the
/// Unicode lower-case mapping of the argument, which depends on nothing else.
#[verifier::external_body]
pub(crate) fn to_lowercase(s: &str) -> (r: String)
    ensures
        r@ == lowercase(s@),
{
    s.to_lowercase()
}

/// Byte offsets into `src` of the matches of `query`: the leftmost
/// non-overlapping occurrences (see [`occurs_at`]); none for an empty query.
pub open spec fn search_offsets(src: Seq<char>, query: Seq<char>, case_sensitive: bool) -> Seq<
    int,
> {
    if query.len() == 0 {
        Seq::empty()
    } else {
        match_offsets(src, query, case_sensitive)
    }
}

/// `v` holds exactly the offsets `x`.
pub open spec fn offsets_match(v: Seq<usize>, x: Seq<int>) -> bool {
    &&& v.len() == x.len()
    &&& forall|k: int| 0 <= k < v.len() ==> v[k] == x[k]
}

/// The byte offsets of the matches of `query` in `src` (see [`search_offsets`]).
pub fn search_text_offsets(src: &str, query: &str, case_sensitive: bool) -> (v: Vec<usize>)
    ensures
        offsets_match(v@, search_offsets(src@, query@, case_sensitive)),
        forall|k: int| 0 <= k < v@.len() ==> v@[k] <= isize::MAX,
{
    if query.is_empty() {
        return Vec::new();
    }
    let _src_len = crate::text::text_len(src);
    let hv = crate::text::chars_of(src);
    let nv = crate::text::chars_of(query);
    let lq = to_lowercase(query);
    find_all_byte_offsets(src, &hv, &nv, lq.as_str(), case_sensitive)
}

/// Whether `nd` occurs in `h` (the characters of `src`) at `p`; `lq` is the
/// lower-case form of `nd`, used when the case is ignored.
fn occurs_here(
    src: &str,
    h: &Vec<char>,
    nd: &Vec<char>,
    lq: &str,
    p: usize,
    cs: bool,
) -> (r: bool)
    requires
        h@ == src@,
        p + nd@.len() <= h@.len(),
        !cs ==> lq@ == lowercase(nd@),
    ensures
        r == occurs_at(h@, nd@, p as int, cs),
{
    let m = nd.len();
    let n = h.len();
    if cs {
        let mut k: usize = 0;
        let mut ok = true;
        while k < m
            invariant
                k <= m == nd@.len(),
                n == h@.len(),
                p + m <= n,
                ok == (forall|t: int| 0 <= t < k ==> h@[p + t] == nd@[t]),
            decreases m - k,
        {
            if h[p + k] != nd[k] {
                ok = false;
            }
            k = k + 1;
        }
        if ok {
            assert(h@.subrange(p as int, p + m) =~= nd@);
        } else {
            assert(!matches_at(h@, nd@, p as int)) by {
                if matches_at(h@, nd@, p as int) {
                    assert forall|t: int| 0 <= t < m implies h@[p + t] == nd@[t] by {
                        assert(h@.subrange(p as int, p + m)[t] == nd@[t]);
                    }
                }
            }
        }
        ok
    } else {
        let low = to_lowercase(src.substring_char(p, p + m));
        same_text(low.as_str(), lq)
    }
}

/// The first character index at or after `from` at which `nd` occurs in `h`
/// (the characters of `src`); `lq` is the lower-case form of `nd`, used when
/// the case is ignored.
pub fn find_from(
    src: &str,
    h: &Vec<char>,
    nd: &Vec<char>,
    lq: &str,
    from: usize,
    cs: bool,
) -> (r: Option<usize>)
    requires
        h@ == src@,
        !cs ==> lq@ == lowercase(nd@),
    ensures
        match r {
            Some(j) => j as int == first_match_from(h@, nd@, from as int, cs),
            None => first_match_from(h@, nd@, from as int, cs) == -1,
        },
{
    let n = h.len();
    let m = nd.len();
    let mut p = from;
    proof {
        lemma_first_match(h@, nd@, from as int, cs);
    }
    while p <= n && m <= n - p
        invariant
            from <= p,
            n == h.len(),
            m == nd.len(),
            h@ == src@,
            !cs ==> lq@ == lowercase(nd@),
            first_match_from(h@, nd@, p as int, cs) == first_match_from(h@, nd@, from as int, cs),
        decreases n + 1 - p,
    {
        if occurs_here(src, h, nd, lq, p, cs) {
            return Some(p);
        }
        if p >= n {
            assert(first_match_from(h@, nd@, p + 1, cs) == -1);
            return None;
        }
        p = p + 1;
    }
    None
}

/// The byte offsets in `h` (the characters of `src`) of the leftmost
/// non-overlapping occurrences of `nd` (none when `nd` is empty); `lq` is the
/// lower-case form of `nd`, used when the case is ignored.
pub fn find_all_byte_offsets(
    src: &str,
    h: &Vec<char>,
    nd: &Vec<char>,
    lq: &str,
    cs: bool,
) -> (out: Vec<usize>)
    requires
        h@ == src@,
        !cs ==> lq@ == lowercase(nd@),
        byte_len(h@) <= usize::MAX,
    ensures
        out@.len() == match_offsets(h@, nd@, cs).len(),
        forall|k: int| 0 <= k < out@.len() ==> out@[k] == match_offsets(h@, nd@, cs)[k],
        forall|k: int| 0 <= k < out@.len() ==> out@[k] <= byte_len(h@),
{
    let n = h.len();
    let m = nd.len();
    let mut out: Vec<usize> = Vec::new();
    if m == 0 {
        return out;
    }
    let ghost occ0 = occurrences_from(h@, nd@, 0, cs);
    let ghost mut done: Seq<int> = Seq::empty();
    let mut i: usize = 0;
    let mut bpos: usize = 0;
    let mut finished = false;
    proof {
        lemma_byte_pos_end(h@);
        assert(occ0 == done + occurrences_from(h@, nd@, 0, cs));
    }
    while !finished && i < n
        invariant
            i <= n == h.len(),
            m == nd.len() > 0,
            byte_len(h@) <= usize::MAX,
            h@ == src@,
            !cs ==> lq@ == lowercase(nd@),
            bpos == byte_pos(h@, i as int),
            occ0 == occurrences_from(h@, nd@, 0, cs),
            finished ==> occurrences_from(h@, nd@, i as int, cs).len() == 0,
            occ0 == done + occurrences_from(h@, nd@, i as int, cs),
            out@.len() == done.len(),
            forall|k: int| 0 <= k < out@.len() ==> out@[k] == byte_pos(h@, done[k]),
            forall|k: int| 0 <= k < out@.len() ==> out@[k] <= byte_len(h@),
        decreases n - i, (if finished { 0int } else { 1int }),
    {
        match find_from(src, h, nd, lq, i, cs) {
            None => {
                finished = true;
            },
            Some(j) => {
                proof {
                    lemma_first_match(h@, nd@, i as int, cs);
                }
                while i < j
                    invariant
                        i <= j,
                        j + m <= n == h.len(),
                        byte_len(h@) <= usize::MAX,
                        bpos == byte_pos(h@, i as int),
                    decreases j - i,
                {
                    proof {
                        lemma_byte_pos_next(h@, i as int);
                        lemma_byte_pos_mono(h@, i as int + 1, n as int);
                        lemma_byte_pos_end(h@);
                    }
                    bpos = bpos + utf8_width(h[i]);
                    i = i + 1;
                }
                proof {
                    lemma_byte_pos_mono(h@, j as int, n as int);
                    lemma_byte_pos_end(h@);
                    assert(bpos <= byte_len(h@));
                }
                out.push(bpos);
                proof {
                    assert(occurrences_from(h@, nd@, j as int, cs) == seq![j as int]
                        + occurrences_from(h@, nd@, j + m, cs));
                    done = done.push(j as int);
                    assert(occ0 == done + occurrences_from(h@, nd@, j + m, cs));
                }
                let end = j + m;
                while i < end
                    invariant
                        i <= end <= n == h.len(),
                        byte_len(h@) <= usize::MAX,
                        bpos == byte_pos(h@, i as int),
                    decreases end - i,
                {
                    proof {
                        lemma_byte_pos_next(h@, i as int);
                        lemma_byte_pos_mono(h@, i as int + 1, n as int);
                        lemma_byte_pos_end(h@);
                    }
                    bpos = bpos + utf8_width(h[i]);
                    i = i + 1;
                }
            },
        }
    }
    proof {
        assert(occurrences_from(h@, nd@, i as int, cs).len() == 0);
        assert(occ0 =~= done);
    }
    out
}

} // verus!
