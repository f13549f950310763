//! Spelling issues, the per-word suggestion cache and the spelling panel's
//! actions on the source.
use vstd::prelude::*;
use crate::editor::{cursor_same, doc_same, search_same, MdApp};
use crate::mcp::{same_text, texts_view};
use crate::state::ViewMode;
use crate::text::{
    byte_len, byte_to_char_index, char_index_of_byte, char_of_byte_offset, chars_of,
    is_char_boundary_at, lemma_boundary_char, lemma_byte_pos_mono, splice, splice_chars,
    text_len,
};

verus! {

/// A misspelled word and its byte range in the source.
pub struct SpellIssue {
    pub word: String,
    pub start: usize,
    pub end: usize,
}

/// Index of the first cache entry for `w` at or after `i`, or -1.
pub open spec fn cache_index(cache: Seq<(String, Vec<String>)>, w: Seq<char>, i: int) -> int
    decreases cache.len() - i,
{
    if i < 0 || i >= cache.len() {
        -1
    } else if cache[i].0@ == w {
        i
    } else {
        cache_index(cache, w, i + 1)
    }
}

/// No word occurs twice among the cache's keys.
pub open spec fn cache_keys_distinct(cache: Seq<(String, Vec<String>)>) -> bool {
    forall|i: int, j: int| 0 <= i < j < cache.len() ==> cache[i].0@ != cache[j].0@
}

/// The suggestions cached for `w`.
pub open spec fn cache_get(cache: Seq<(String, Vec<String>)>, w: Seq<char>) -> Option<Seq<Seq<char>>> {
    let i = cache_index(cache, w, 0);
    if i < 0 {
        None
    } else {
        Some(texts_view(cache[i].1@))
    }
}

/// The words of the first `n` issues that have no cached suggestions, in order.
pub open spec fn words_needing(issues: Seq<SpellIssue>, cache: Seq<(String, Vec<String>)>, n: int) -> Seq<Seq<char>>
    decreases n,
{
    if n <= 0 {
        Seq::empty()
    } else {
        let w = issues[n - 1].word@;
        if cache_get(cache, w) is None {
            words_needing(issues, cache, n - 1).push(w)
        } else {
            words_needing(issues, cache, n - 1)
        }
    }
}

pub proof fn lemma_cache_index(cache: Seq<(String, Vec<String>)>, w: Seq<char>, i: int)
    requires
        0 <= i,
    ensures
        cache_index(cache, w, i) == -1 || (i <= cache_index(cache, w, i) < cache.len()
            && cache[cache_index(cache, w, i)].0@ == w),
        forall|k: int|
            i <= k < cache.len() && (cache_index(cache, w, i) == -1 || k < cache_index(cache, w, i))
                ==> cache[k].0@ != w,
    decreases cache.len() - i,
{
    if i < cache.len() && cache[i].0@ != w {
        lemma_cache_index(cache, w, i + 1);
    }
}

/// Position of the cache entry for `w`.
fn find_cached(cache: &Vec<(String, Vec<String>)>, w: &str) -> (r: Option<usize>)
    ensures
        match r {
            Some(i) => i as int == cache_index(cache@, w@, 0),
            None => cache_index(cache@, w@, 0) == -1,
        },
{
    let mut i: usize = 0;
    while i < cache.len()
        invariant
            i <= cache.len(),
            cache_index(cache@, w@, i as int) == cache_index(cache@, w@, 0),
        decreases cache.len() - i,
    {
        if same_text(cache[i].0.as_str(), w) {
            return Some(i);
        }
        i = i + 1;
    }
    None
}

fn clone_texts(v: &Vec<String>) -> (r: Vec<String>)
    ensures
        texts_view(r@) == texts_view(v@),
{
    let mut r: Vec<String> = Vec::new();
    let mut i: usize = 0;
    while i < v.len()
        invariant
            i <= v.len(),
            r@.len() == i,
            forall|k: int| 0 <= k < i ==> r@[k]@ == v@[k]@,
        decreases v.len() - i,
    {
        let item = v[i].clone();
        assert(item == v@[i as int]);
        r.push(item);
        i = i + 1;
    }
    proof {
        assert(texts_view(r@) =~= texts_view(v@));
    }
    r
}

/// No word that needs suggestions has any cached yet.
pub proof fn lemma_words_needing_uncached(
    issues: Seq<SpellIssue>,
    cache: Seq<(String, Vec<String>)>,
    n: int,
)
    ensures
        forall|k: int|
            0 <= k < words_needing(issues, cache, n).len() ==> cache_get(
                cache,
                #[trigger] words_needing(issues, cache, n)[k],
            ) is None,
    decreases n,
{
    if n > 0 {
        lemma_words_needing_uncached(issues, cache, n - 1);
    }
}

/// `w` was suggested for: some call of `suggest` on a text reading `w`
/// returned suggestions whose texts are `sugg`.
pub open spec fn suggested<F: Fn(&str) -> Vec<String>>(
    suggest: F,
    w: Seq<char>,
    sugg: Seq<Seq<char>>,
) -> bool {
    exists|ws: &str, out: Vec<String>|
        #![trigger suggest.ensures((ws,), out)]
        ws@ == w && suggest.ensures((ws,), out) && texts_view(out@) == sugg
}

impl MdApp {
    /// The words of the first `limit` spelling issues that have no cached
    /// suggestions yet (in issue order), i.e. the words whose suggestions
    /// must be computed and stored with `store_spell_suggestions`.
    pub fn spell_words_needing_suggestions(&self, limit: usize) -> (r: Vec<String>)
        ensures
            texts_view(r@) == words_needing(
                self.spell_issues@,
                self.spell_sugg_cache@,
                if limit < self.spell_issues@.len() {
                    limit as int
                } else {
                    self.spell_issues@.len() as int
                },
            ),
    {
        let n = if limit < self.spell_issues.len() {
            limit
        } else {
            self.spell_issues.len()
        };
        let mut r: Vec<String> = Vec::new();
        let mut i: usize = 0;
        while i < n
            invariant
                i <= n <= self.spell_issues@.len(),
                texts_view(r@) == words_needing(self.spell_issues@, self.spell_sugg_cache@, i as int),
            decreases n - i,
        {
            let w = self.spell_issues[i].word.as_str();
            let cached = find_cached(&self.spell_sugg_cache, w);
            if cached.is_none() {
                r.push(String::from_str(w));
                proof {
                    assert(texts_view(r@) =~= words_needing(
                        self.spell_issues@,
                        self.spell_sugg_cache@,
                        i as int,
                    ).push(w@));
                }
            }
            i = i + 1;
        }
        r
    }

    /// Cache `suggestions` for `word`, replacing what was cached for it;
    /// the suggestions of every other word stay as they were.
    pub fn store_spell_suggestions(&mut self, word: String, suggestions: Vec<String>)
        ensures
            cache_keys_distinct(old(self).spell_sugg_cache@) ==> cache_keys_distinct(
                final(self).spell_sugg_cache@,
            ),
            cache_get(final(self).spell_sugg_cache@, word@) == Some(texts_view(suggestions@)),
            forall|w: Seq<char>|
                w != word@ ==> cache_get(final(self).spell_sugg_cache@, w) == cache_get(
                    old(self).spell_sugg_cache@,
                    w,
                ),
            final(self).spell_issues == old(self).spell_issues,
            final(self).status_msg@ == old(self).status_msg@,
            doc_same(&*old(self), &*final(self)),
            cursor_same(&*old(self), &*final(self)),
            search_same(&*old(self), &*final(self)),
            *final(self) == (MdApp { spell_sugg_cache: final(self).spell_sugg_cache, ..*old(self) }),
    {
        let ghost old_cache = self.spell_sugg_cache@;
        let ghost wv = word@;
        let ghost sv = suggestions@;
        match find_cached(&self.spell_sugg_cache, word.as_str()) {
            Some(i) => {
                proof {
                    lemma_cache_index(old_cache, word@, 0);
                }
                let key = self.spell_sugg_cache[i].0.clone();
                self.spell_sugg_cache.set(i, (key, suggestions));
                proof {
                    let c = self.spell_sugg_cache@;
                    assert(c[i as int].1@ == sv);
                    assert(c[i as int].0@ == wv);
                    assert forall|w: Seq<char>| w != word@ implies cache_get(c, w) == cache_get(
                        old_cache,
                        w,
                    ) by {
                        lemma_cache_index(old_cache, w, 0);
                        lemma_cache_index(c, w, 0);
                        assert forall|k: int| 0 <= k < c.len() implies c[k].0@ == old_cache[k].0@ by {
                            if k == i {
                                assert(c[k].0 == old_cache[k].0);
                            }
                        }
                        let a = cache_index(old_cache, w, 0);
                        let b = cache_index(c, w, 0);
                        if a != b {
                            if a == -1 {
                                assert(c[b].0@ == w);
                            } else if b == -1 {
                                assert(old_cache[a].0@ == w);
                            } else if a < b {
                                assert(c[a].0@ == w);
                            } else {
                                assert(old_cache[b].0@ == w);
                            }
                        }
                        if a != -1 {
                            assert(a != i as int);
                        }
                    }
                    assert forall|k: int| 0 <= k < c.len() implies c[k].0@ == old_cache[k].0@ by {
                        if k == i {
                            assert(c[k].0 == old_cache[k].0);
                        }
                    }
                    lemma_cache_index(c, word@, 0);
                    let b = cache_index(c, word@, 0);
                    if b != i as int {
                        if b == -1 {
                        } else if b < i {
                            assert(old_cache[b].0@ == word@);
                        } else {
                        }
                    }
                }
            },
            None => {
                proof {
                    lemma_cache_index(old_cache, word@, 0);
                }
                self.spell_sugg_cache.push((word, suggestions));
                proof {
                    let c = self.spell_sugg_cache@;
                    let last = old_cache.len() as int;
                    assert forall|k: int| 0 <= k < last implies c[k] == old_cache[k] by {}
                    assert forall|k: int| 0 <= k < last implies old_cache[k].0@ != wv by {}
                    assert(c[last].0@ == wv);
                    assert(c[last].1@ == sv);
                    assert forall|w: Seq<char>| w != final_word_view(c, last) implies cache_get(c, w)
                        == cache_get(old_cache, w) by {
                        lemma_cache_index(old_cache, w, 0);
                        lemma_cache_index(c, w, 0);
                        let a = cache_index(old_cache, w, 0);
                        let b = cache_index(c, w, 0);
                        if a != b {
                            if a == -1 {
                                assert(c[b].0@ == w);
                                if b < last {
                                    assert(old_cache[b].0@ == w);
                                }
                            } else if b == -1 {
                                assert(c[a].0@ == w);
                            } else if a < b {
                                assert(c[a].0@ == w);
                            } else {
                                assert(old_cache[b].0@ == w);
                            }
                        }
                    }
                    lemma_cache_index(c, final_word_view(c, last), 0);
                    let b = cache_index(c, final_word_view(c, last), 0);
                    if b != last {
                        if b != -1 {
                            assert(old_cache[b].0@ == final_word_view(c, last));
                        }
                    }
                }
            },
        }
    }

    /// Fill the suggestion cache for the words of the first `limit` issues
    /// that have none yet, asking `suggest` (the spell checker) for each of
    /// them. Cached words keep their suggestions, and no other word gets any.
    pub fn ensure_spell_suggestions<F: Fn(&str) -> Vec<String>>(&mut self, limit: usize, suggest: &F)
        requires
            forall|w: &str| #[trigger] suggest.requires((w,)),
        ensures
            ({
                let n = if limit < old(self).spell_issues@.len() {
                    limit as int
                } else {
                    old(self).spell_issues@.len() as int
                };
                let need = words_needing(old(self).spell_issues@, old(self).spell_sugg_cache@, n);
                &&& forall|w: Seq<char>|
                    #![trigger cache_get(final(self).spell_sugg_cache@, w)]
                    cache_get(old(self).spell_sugg_cache@, w) is Some ==> cache_get(
                        final(self).spell_sugg_cache@,
                        w,
                    ) == cache_get(old(self).spell_sugg_cache@, w)
                &&& forall|w: Seq<char>|
                    #![trigger cache_get(final(self).spell_sugg_cache@, w)]
                    cache_get(old(self).spell_sugg_cache@, w) is None && !need.contains(w)
                        ==> cache_get(final(self).spell_sugg_cache@, w) is None
                &&& forall|k: int|
                    0 <= k < need.len() ==> (cache_get(final(self).spell_sugg_cache@, #[trigger] need[k])
                        matches Some(sg) && suggested(*suggest, need[k], sg))
            }),
            cache_keys_distinct(old(self).spell_sugg_cache@) ==> cache_keys_distinct(
                final(self).spell_sugg_cache@,
            ),
            *final(self) == (MdApp { spell_sugg_cache: final(self).spell_sugg_cache, ..*old(self) }),
    {
        let ghost c0 = self.spell_sugg_cache@;
        let ghost a0 = *self;
        let words = self.spell_words_needing_suggestions(limit);
        let ghost need = texts_view(words@);
        proof {
            let n = if limit < self.spell_issues@.len() {
                limit as int
            } else {
                self.spell_issues@.len() as int
            };
            lemma_words_needing_uncached(self.spell_issues@, c0, n);
        }
        let mut i: usize = 0;
        while i < words.len()
            invariant
                i <= words@.len() == need.len(),
                need == texts_view(words@),
                forall|k: int| 0 <= k < need.len() ==> cache_get(c0, #[trigger] need[k]) is None,
                forall|w: &str| #[trigger] suggest.requires((w,)),
                cache_keys_distinct(c0) ==> cache_keys_distinct(self.spell_sugg_cache@),
                *self == (MdApp { spell_sugg_cache: self.spell_sugg_cache, ..a0 }),
                forall|w: Seq<char>|
                    #![trigger cache_get(self.spell_sugg_cache@, w)]
                    !need.take(i as int).contains(w) ==> cache_get(self.spell_sugg_cache@, w)
                        == cache_get(c0, w),
                forall|k: int|
                    0 <= k < i ==> (cache_get(self.spell_sugg_cache@, #[trigger] need[k]) matches Some(
                        sg,
                    ) && suggested(*suggest, need[k], sg)),
            decreases words@.len() - i,
        {
            let w = words[i].as_str();
            let out = suggest(w);
            proof {
                assert(w@ == need[i as int]);
                assert(suggested(*suggest, need[i as int], texts_view(out@)));
            }
            let ghost before = self.spell_sugg_cache@;
            self.store_spell_suggestions(words[i].clone(), out);
            proof {
                assert forall|w2: Seq<char>|
                    #![trigger cache_get(self.spell_sugg_cache@, w2)]
                    !need.take(i + 1).contains(w2) implies cache_get(self.spell_sugg_cache@, w2)
                        == cache_get(c0, w2) by {
                    if need.take(i as int).contains(w2) {
                        let k = choose|k: int| 0 <= k < i && need.take(i as int)[k] == w2;
                        assert(need.take(i + 1)[k] == w2);
                    }
                    if w2 == need[i as int] {
                        assert(need.take(i + 1)[i as int] == w2);
                    }
                }
                assert forall|k: int| 0 <= k < i + 1 implies (cache_get(
                    self.spell_sugg_cache@,
                    #[trigger] need[k],
                ) matches Some(sg) && suggested(*suggest, need[k], sg)) by {
                    if k < i && need[k] != need[i as int] {
                        assert(cache_get(before, need[k]) matches Some(sg) && suggested(
                            *suggest,
                            need[k],
                            sg,
                        ));
                    }
                }
            }
            i = i + 1;
        }
        proof {
            assert(need.take(need.len() as int) =~= need);
        }
    }

    /// Drop the cached suggestions of `word` (after it was added to the dictionary);
    /// the suggestions of every other word stay as they were.
    pub fn forget_spell_suggestions(&mut self, word: &str)
        ensures
            cache_keys_distinct(old(self).spell_sugg_cache@) ==> cache_keys_distinct(
                final(self).spell_sugg_cache@,
            ),
            cache_get(final(self).spell_sugg_cache@, word@) is None,
            forall|w: Seq<char>|
                w != word@ ==> cache_get(final(self).spell_sugg_cache@, w) == cache_get(
                    old(self).spell_sugg_cache@,
                    w,
                ),
            final(self).spell_issues == old(self).spell_issues,
            final(self).status_msg@ == old(self).status_msg@,
            doc_same(&*old(self), &*final(self)),
            cursor_same(&*old(self), &*final(self)),
            search_same(&*old(self), &*final(self)),
            *final(self) == (MdApp { spell_sugg_cache: final(self).spell_sugg_cache, ..*old(self) }),
    {
        let ghost old_cache = self.spell_sugg_cache@;
        let mut kept: Vec<(String, Vec<String>)> = Vec::new();
        let mut i: usize = 0;
        while i < self.spell_sugg_cache.len()
            invariant
                i <= old_cache.len(),
                self.spell_sugg_cache@ == old_cache,
                forall|k: int| 0 <= k < kept@.len() ==> kept@[k].0@ != word@,
                forall|k: int|
                    0 <= k < kept@.len() ==> exists|j: int|
                        0 <= j < i && #[trigger] old_cache[j].0@ == #[trigger] kept@[k].0@,
                cache_keys_distinct(old_cache) ==> cache_keys_distinct(kept@),
                forall|w: Seq<char>|
                    w != word@ ==> cache_get(kept@, w) == cache_get(old_cache.take(i as int), w),
            decreases old_cache.len() - i,
        {
            let entry = &self.spell_sugg_cache[i];
            if !same_text(entry.0.as_str(), word) {
                let cloned = (entry.0.clone(), clone_texts(&entry.1));
                let ghost pre_kept = kept@;
                kept.push(cloned);
                proof {
                    assert(kept@[pre_kept.len() as int].0@ == old_cache[i as int].0@);
                    assert forall|k: int| 0 <= k < kept@.len() implies exists|j: int|
                        0 <= j < i + 1 && #[trigger] old_cache[j].0@ == #[trigger] kept@[k].0@ by {
                        if k < pre_kept.len() {
                            assert(kept@[k] == pre_kept[k]);
                        } else {
                            assert(old_cache[i as int].0@ == kept@[k].0@);
                        }
                    }
                    if cache_keys_distinct(old_cache) {
                        assert forall|a: int, b: int| 0 <= a < b < kept@.len() implies kept@[a].0@
                            != kept@[b].0@ by {
                            assert(kept@[a] == pre_kept[a]);
                            if b < pre_kept.len() {
                                assert(kept@[b] == pre_kept[b]);
                            } else {
                                let j = choose|j: int|
                                    0 <= j < i && #[trigger] old_cache[j].0@ == #[trigger] pre_kept[a].0@;
                                assert(old_cache[j].0@ != old_cache[i as int].0@);
                            }
                        }
                    }
                    assert forall|w: Seq<char>| w != word@ implies cache_get(kept@, w) == cache_get(
                        old_cache.take(i + 1),
                        w,
                    ) by {
                        lemma_cache_index(pre_kept, w, 0);
                        lemma_cache_index(kept@, w, 0);
                        lemma_cache_index(old_cache.take(i as int), w, 0);
                        lemma_cache_index(old_cache.take(i + 1), w, 0);
                        lemma_prefix_get(pre_kept, kept@, w);
                        lemma_prefix_get(old_cache.take(i as int), old_cache.take(i + 1), w);
                    }
                }
            } else {
                proof {
                    assert forall|w: Seq<char>| w != word@ implies cache_get(kept@, w) == cache_get(
                        old_cache.take(i + 1),
                        w,
                    ) by {
                        lemma_prefix_get(old_cache.take(i as int), old_cache.take(i + 1), w);
                    }
                }
            }
            i = i + 1;
        }
        proof {
            assert(old_cache.take(old_cache.len() as int) =~= old_cache);
            lemma_cache_index(kept@, word@, 0);
        }
        self.spell_sugg_cache = kept;
    }

    /// The spelling panel's "add to dictionary" on `word` (once the spell
    /// checker knows the word): its cached suggestions are dropped and the
    /// spelling issues are to be recomputed.
    pub fn spelling_word_added(&mut self, word: &str)
        ensures
            cache_get(final(self).spell_sugg_cache@, word@) is None,
            forall|w: Seq<char>|
                w != word@ ==> cache_get(final(self).spell_sugg_cache@, w) == cache_get(
                    old(self).spell_sugg_cache@,
                    w,
                ),
            cache_keys_distinct(old(self).spell_sugg_cache@) ==> cache_keys_distinct(
                final(self).spell_sugg_cache@,
            ),
            *final(self) == (MdApp {
                spell_sugg_cache: final(self).spell_sugg_cache,
                segments_dirty: true,
                ..*old(self)
            }),
    {
        self.forget_spell_suggestions(word);
        self.segments_dirty = true;
    }

    /// Replace bytes `[start, end)` of the source by `text` (a suggestion
    /// picked in the spelling panel) when `end` is within the source and both
    /// ends are character boundaries; otherwise do nothing.
    pub fn apply_spelling_replacement(&mut self, start: usize, end: usize, text: &str)
        requires
            end <= byte_len(old(self).source@) && is_char_boundary_at(old(self).source@, start as int)
                && is_char_boundary_at(old(self).source@, end as int) ==> start <= end,
        ensures
            ({
                let src = old(self).source@;
                if end <= byte_len(src) && is_char_boundary_at(src, start as int)
                    && is_char_boundary_at(src, end as int) {
                    &&& final(self).source@ == splice(
                        src,
                        char_index_of_byte(src, start as int),
                        char_index_of_byte(src, end as int),
                        text@,
                    )
                    &&& final(self).modified
                    &&& final(self).segments_dirty
                } else {
                    doc_same(&*old(self), &*final(self))
                }
            }),
            final(self).current_file == old(self).current_file,
            final(self).status_msg@ == old(self).status_msg@,
            cursor_same(&*old(self), &*final(self)),
            search_same(&*old(self), &*final(self)),
            *final(self) == (MdApp {
                source: final(self).source,
                modified: final(self).modified,
                segments_dirty: final(self).segments_dirty,
                ..*old(self)
            }),
    {
        let slen = text_len(self.source.as_str());
        let chars = chars_of(self.source.as_str());
        if end <= slen {
            let cs = char_of_byte_offset(&chars, start);
            let ce = char_of_byte_offset(&chars, end);
            let start_ok = crate::text::byte_offset_of_char(&chars, cs) == start;
            let end_ok = crate::text::byte_offset_of_char(&chars, ce) == end;
            if start_ok && end_ok {
                proof {
                    lemma_boundary_char(self.source@, start as int);
                    lemma_boundary_char(self.source@, end as int);
                    if cs > ce {
                        lemma_byte_pos_mono(self.source@, ce as int, cs as int);
                    }
                }
                self.source = splice_chars(self.source.as_str(), cs, ce, text);
                self.modified = true;
                self.segments_dirty = true;
            }
        }
    }

    /// Select bytes `[start, end)` of the source (a misspelled word) and
    /// reveal them, switching Editor-only view to Split.
    pub fn apply_spelling_jump(&mut self, start: usize, end: usize)
        ensures
            final(self).selection_anchor == char_index_of_byte(old(self).source@, start as int),
            final(self).cursor_pos == char_index_of_byte(old(self).source@, end as int),
            final(self).pending_cursor == Some(
                (final(self).cursor_pos, final(self).selection_anchor),
            ),
            final(self).view_mode == (if old(self).view_mode == ViewMode::Editor {
                ViewMode::Split
            } else {
                old(self).view_mode
            }),
            final(self).request_source_focus,
            final(self).status_msg@ == old(self).status_msg@,
            doc_same(&*old(self), &*final(self)),
            search_same(&*old(self), &*final(self)),
            *final(self) == (MdApp {
                selection_anchor: final(self).selection_anchor,
                cursor_pos: final(self).cursor_pos,
                pending_cursor: final(self).pending_cursor,
                view_mode: final(self).view_mode,
                request_source_focus: final(self).request_source_focus,
                ..*old(self)
            }),
    {
        self.selection_anchor = byte_to_char_index(self.source.as_str(), start);
        self.cursor_pos = byte_to_char_index(self.source.as_str(), end);
        match self.view_mode {
            ViewMode::Editor => {
                self.view_mode = ViewMode::Split;
            },
            _ => {},
        }
        self.request_source_focus = true;
        self.apply_cursor_to_editor_state();
    }
}

/// The key of entry `i`.
pub open spec fn final_word_view(c: Seq<(String, Vec<String>)>, i: int) -> Seq<char> {
    c[i].0@
}

/// Appending one entry does not change what an earlier entry answers.
pub proof fn lemma_prefix_get(a: Seq<(String, Vec<String>)>, b: Seq<(String, Vec<String>)>, w: Seq<char>)
    requires
        b.len() == a.len() + 1,
        forall|k: int| 0 <= k < a.len() ==> b[k] == a[k],
    ensures
        cache_get(a, w) is Some ==> cache_get(b, w) == cache_get(a, w),
        cache_get(a, w) is None ==> (cache_get(b, w) is Some <==> b[a.len() as int].0@ == w),
        cache_get(a, w) is None && b[a.len() as int].0@ == w ==> cache_get(b, w) == Some(
            texts_view(b[a.len() as int].1@),
        ),
{
    lemma_cache_index(a, w, 0);
    lemma_cache_index(b, w, 0);
    let x = cache_index(a, w, 0);
    let y = cache_index(b, w, 0);
    if x != -1 {
        if y != x {
            if y == -1 {
                assert(b[x].0@ == w);
            } else if y < x {
                assert(a[y].0@ == w);
            } else {
                assert(b[x].0@ == w);
            }
        }
    } else {
        if y != -1 && y < a.len() {
            assert(a[y].0@ == w);
        }
        if b[a.len() as int].0@ == w {
            assert(y != -1);
        }
    }
}

} // verus!
