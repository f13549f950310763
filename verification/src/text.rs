//! Character and byte positions in UTF-8 text.
//!
//! The editor keeps its cursor as a *character* index while search results are
//! *byte* offsets into the UTF-8 encoding of the text. The spec functions here
//! describe both coordinate systems over the character view `Seq<char>` of a
//! string, and the executable functions convert between them.
use vstd::prelude::*;

verus! {

/// Number of bytes of the UTF-8 encoding of `c`.
pub open spec fn char_width(c: char) -> nat {
    if (c as u32) < 0x80 {
        1
    } else if (c as u32) < 0x800 {
        2
    } else if (c as u32) < 0x10000 {
        3
    } else {
        4
    }
}

/// Number of bytes of the UTF-8 encoding of `s`.
pub open spec fn byte_len(s: Seq<char>) -> nat
    decreases s.len(),
{
    if s.len() == 0 {
        0
    } else {
        char_width(s[0]) + byte_len(s.drop_first())
    }
}

/// Byte offset at which character `i` of `s` starts (for `i == s.len()`, the
/// byte length of `s`).
pub open spec fn byte_pos(s: Seq<char>, i: int) -> nat {
    byte_len(s.take(i))
}

/// Index of the first character, from `i` on, whose start byte is at or after
/// byte offset `b`; `s.len()` when there is none.
pub open spec fn char_index_from(s: Seq<char>, b: int, i: int) -> int
    decreases s.len() - i,
{
    if i >= s.len() || byte_pos(s, i) >= b {
        i
    } else {
        char_index_from(s, b, i + 1)
    }
}

/// Number of characters of `s` that start before byte offset `b`.
pub open spec fn char_index_of_byte(s: Seq<char>, b: int) -> int {
    char_index_from(s, b, 0)
}

/// `b` is the start of a character of `s`, or the end of `s`.
pub open spec fn is_char_boundary_at(s: Seq<char>, b: int) -> bool {
    byte_pos(s, char_index_of_byte(s, b)) == b
}

/// The smaller of two integers.
pub open spec fn min_int(a: int, b: int) -> int {
    if a <= b {
        a
    } else {
        b
    }
}

/// The larger of two integers.
pub open spec fn max_int(a: int, b: int) -> int {
    if a <= b {
        b
    } else {
        a
    }
}

/// Characters `[from, to)` of `s` replaced by `ins`.
pub open spec fn splice(s: Seq<char>, from: int, to: int, ins: Seq<char>) -> Seq<char> {
    s.take(from) + ins + s.skip(to)
}

pub proof fn lemma_byte_len_single(c: char)
    ensures
        byte_len(seq![c]) == char_width(c),
{
    assert(seq![c].drop_first() =~= Seq::<char>::empty());
    assert(seq![c][0] == c);
    assert(byte_len(Seq::<char>::empty()) == 0);
}

pub proof fn lemma_byte_len_concat(a: Seq<char>, b: Seq<char>)
    ensures
        byte_len(a + b) == byte_len(a) + byte_len(b),
    decreases a.len(),
{
    if a.len() == 0 {
        assert(a + b =~= b);
    } else {
        assert((a + b).drop_first() =~= a.drop_first() + b);
        lemma_byte_len_concat(a.drop_first(), b);
    }
}

pub proof fn lemma_byte_pos_next(s: Seq<char>, i: int)
    requires
        0 <= i < s.len(),
    ensures
        byte_pos(s, i + 1) == byte_pos(s, i) + char_width(s[i]),
{
    assert(s.take(i + 1) =~= s.take(i) + seq![s[i]]);
    lemma_byte_len_concat(s.take(i), seq![s[i]]);
    lemma_byte_len_single(s[i]);
}

/// Byte offsets grow by one to four bytes per character.
pub proof fn lemma_byte_pos_mono(s: Seq<char>, i: int, j: int)
    requires
        0 <= i <= j <= s.len(),
    ensures
        byte_pos(s, i) + (j - i) <= byte_pos(s, j),
        byte_pos(s, j) <= byte_pos(s, i) + 4 * (j - i),
    decreases j - i,
{
    if i < j {
        lemma_byte_pos_mono(s, i, j - 1);
        lemma_byte_pos_next(s, j - 1);
    }
}

pub proof fn lemma_byte_pos_end(s: Seq<char>)
    ensures
        byte_pos(s, s.len() as int) == byte_len(s),
        byte_pos(s, 0) == 0,
{
    assert(s.take(s.len() as int) =~= s);
    assert(s.take(0) =~= Seq::<char>::empty());
}

/// Byte positions inside a prefix do not depend on what follows it.
pub proof fn lemma_byte_pos_prefix(a: Seq<char>, b: Seq<char>, i: int)
    requires
        0 <= i <= a.len(),
    ensures
        byte_pos(a + b, i) == byte_pos(a, i),
{
    assert((a + b).take(i) =~= a.take(i));
}

/// `char_index_from` lands in `[i, s.len()]`, on the first character at or past byte `b`.
pub proof fn lemma_char_index_from(s: Seq<char>, b: int, i: int)
    requires
        0 <= i <= s.len(),
    ensures
        i <= char_index_from(s, b, i) <= s.len(),
        forall|k: int| i <= k < char_index_from(s, b, i) ==> byte_pos(s, k) < b,
        char_index_from(s, b, i) < s.len() ==> byte_pos(s, char_index_from(s, b, i)) >= b,
    decreases s.len() - i,
{
    if i < s.len() && byte_pos(s, i) < b {
        lemma_char_index_from(s, b, i + 1);
    }
}

/// The character index of the start byte of character `k` is `k`.
pub proof fn lemma_char_index_of_byte_pos(s: Seq<char>, k: int)
    requires
        0 <= k <= s.len(),
    ensures
        char_index_of_byte(s, byte_pos(s, k) as int) == k,
        is_char_boundary_at(s, byte_pos(s, k) as int),
{
    let b = byte_pos(s, k) as int;
    lemma_char_index_from(s, b, 0);
    let r = char_index_of_byte(s, b);
    if r < k {
        lemma_byte_pos_mono(s, r, k);
    } else if r > k {
        lemma_byte_pos_mono(s, k, k);
        assert(byte_pos(s, k) < b);
    }
}

/// Every boundary offset is the start byte of some character.
pub proof fn lemma_boundary_char(s: Seq<char>, b: int)
    requires
        is_char_boundary_at(s, b),
    ensures
        0 <= char_index_of_byte(s, b) <= s.len(),
        byte_pos(s, char_index_of_byte(s, b)) == b,
        b <= byte_len(s),
{
    lemma_char_index_from(s, b, 0);
    lemma_byte_pos_mono(s, char_index_of_byte(s, b), s.len() as int);
    lemma_byte_pos_end(s);
}

/// `byte_len` is the length of vstd's UTF-8 encoding of the characters.
pub proof fn lemma_byte_len_encoding(s: Seq<char>)
    ensures
        byte_len(s) == vstd::utf8::encode_utf8(s).len(),
    decreases s.len(),
{
    if s.len() > 0 {
        lemma_byte_len_encoding(s.drop_first());
        let c = s[0];
        let u = c as u32;
        vstd::utf8::char_is_scalar(c);
        if u < 0x80 {
        } else if u < 0x800 {
        } else if u < 0x10000 {
            assert(vstd::utf8::has_width_3_encoding(u));
        } else {
            assert(vstd::utf8::has_width_4_encoding(u));
        }
        assert(vstd::utf8::encode_scalar(u).len() == char_width(c));
    }
}

/// `str::len`, with the bound that the standard library keeps on every string:
/// at most `isize::MAX` bytes. vstd already specifies the length as that of
/// the UTF-8 encoding of the characters; the bound is what this item adds.
#[verifier::external_body]
fn str_len(s: &str) -> (n: usize)
    ensures
        n == vstd::utf8::encode_utf8(s@).len(),
        n <= isize::MAX,
{
    s.len()
}

/// The byte length of `s`, which is at most `isize::MAX`.
pub(crate) fn text_len(s: &str) -> (n: usize)
    ensures
        n == byte_len(s@),
        n <= isize::MAX,
{
    let n = str_len(s);
    proof {
        lemma_byte_len_encoding(s@);
    }
    n
}

/// Number of bytes of the UTF-8 encoding of `c` (`char::len_utf8`).
pub fn utf8_width(c: char) -> (w: usize)
    ensures
        w == char_width(c),
{
    let u = c as u32;
    if u < 0x80 {
        1
    } else if u < 0x800 {
        2
    } else if u < 0x10000 {
        3
    } else {
        4
    }
}

/// The characters of `s`, in order.
pub fn chars_of(s: &str) -> (v: Vec<char>)
    ensures
        v@ == s@,
{
    let mut v: Vec<char> = Vec::new();
    for c in it: s.chars()
        invariant
            v@ == it.seq().take(it.index() as int),
            it.seq() == s@,
    {
        v.push(c);
    }
    v
}

/// Byte offset of character `char_idx` of `v`, clamped to the byte length.
pub fn byte_offset_of_char(v: &Vec<char>, char_idx: usize) -> (b: usize)
    requires
        byte_len(v@) <= usize::MAX,
    ensures
        b == byte_pos(v@, min_int(char_idx as int, v@.len() as int)),
{
    let lim = if char_idx < v.len() {
        char_idx
    } else {
        v.len()
    };
    let mut i: usize = 0;
    let mut acc: usize = 0;
    proof {
        lemma_byte_pos_end(v@);
    }
    while i < lim
        invariant
            i <= lim <= v.len(),
            lim == min_int(char_idx as int, v@.len() as int),
            acc == byte_pos(v@, i as int),
            byte_len(v@) <= usize::MAX,
        decreases lim - i,
    {
        proof {
            lemma_byte_pos_next(v@, i as int);
            lemma_byte_pos_mono(v@, i as int + 1, v@.len() as int);
            lemma_byte_pos_end(v@);
        }
        acc = acc + utf8_width(v[i]);
        i = i + 1;
    }
    acc
}

/// Number of characters of `v` that start before byte offset `byte_idx`.
pub fn char_of_byte_offset(v: &Vec<char>, byte_idx: usize) -> (c: usize)
    requires
        byte_len(v@) <= usize::MAX,
    ensures
        c == char_index_of_byte(v@, byte_idx as int),
        c <= v@.len(),
{
    let mut i: usize = 0;
    let mut acc: usize = 0;
    proof {
        lemma_byte_pos_end(v@);
        lemma_char_index_from(v@, byte_idx as int, 0);
    }
    while i < v.len() && acc < byte_idx
        invariant
            i <= v.len(),
            acc == byte_pos(v@, i as int),
            char_index_from(v@, byte_idx as int, i as int) == char_index_of_byte(
                v@,
                byte_idx as int,
            ),
            byte_len(v@) <= usize::MAX,
        decreases v.len() - i,
    {
        proof {
            lemma_byte_pos_next(v@, i as int);
            lemma_byte_pos_mono(v@, i as int + 1, v@.len() as int);
            lemma_byte_pos_end(v@);
        }
        acc = acc + utf8_width(v[i]);
        i = i + 1;
    }
    proof {
        lemma_char_index_from(v@, byte_idx as int, i as int);
    }
    i
}

/// Byte offset of character `char_idx` of `text`, or the byte length of
/// `text` when it has no such character.
pub fn char_to_byte_index(text: &str, char_idx: usize) -> (b: usize)
    ensures
        b == byte_pos(text@, min_int(char_idx as int, text@.len() as int)),
{
    let _n = text_len(text);
    let v = chars_of(text);
    byte_offset_of_char(&v, char_idx)
}

/// Number of characters of `text` that start before byte offset `byte_idx`
/// (the character index of `byte_idx` when it is a character boundary).
pub fn byte_to_char_index(text: &str, byte_idx: usize) -> (c: usize)
    ensures
        c == char_index_of_byte(text@, byte_idx as int),
        c <= text@.len(),
{
    let _n = text_len(text);
    let v = chars_of(text);
    char_of_byte_offset(&v, byte_idx)
}

/// Characters `[from, to)` of `s` replaced by `ins`.
pub fn splice_chars(s: &str, from: usize, to: usize, ins: &str) -> (r: String)
    requires
        from <= to <= s@.len(),
    ensures
        r@ == splice(s@, from as int, to as int, ins@),
{
    let n = s.unicode_len();
    let mut r = String::from_str(s.substring_char(0, from));
    r.append(ins);
    r.append(s.substring_char(to, n));
    proof {
        assert(s@.take(from as int) =~= s@.subrange(0, from as int));
        assert(s@.skip(to as int) =~= s@.subrange(to as int, n as int));
    }
    r
}

} // verus!
