//! Byte-level text primitives: substring search, whole-word search,
//! ASCII lowercasing, whitespace trimming and line splitting.
//!
//! All analysis in this crate is done over raw bytes; these functions and
//! their specifications are the shared vocabulary of every validator.

use vstd::prelude::*;
use vstd::slice::{slice_subrange, slice_to_vec};
use vstd::string::StringSliceAdditionalSpecFns;

verus! {

/// Byte copy of a string literal.
pub fn bytes_of(s: &str) -> (r: Vec<u8>)
    ensures
        r@ == s.spec_bytes(),
{
    slice_to_vec(s.as_bytes())
}

/// `pat` occurs in `text` starting at index `i`.
pub open spec fn occurs_at(text: Seq<u8>, pat: Seq<u8>, i: int) -> bool {
    0 <= i && i + pat.len() <= text.len() && text.subrange(i, i + pat.len()) == pat
}

/// `pat` occurs somewhere in `text`.
pub open spec fn contains_seq(text: Seq<u8>, pat: Seq<u8>) -> bool {
    exists|i: int| occurs_at(text, pat, i)
}

/// Index of the first occurrence of `pat` in `text` at or after `from`.
pub open spec fn find_from(text: Seq<u8>, pat: Seq<u8>, from: int) -> Option<int>
    decreases text.len() + 1 - from,
{
    if from < 0 || from + pat.len() > text.len() {
        None
    } else if text.subrange(from, from + pat.len()) == pat {
        Some(from)
    } else {
        find_from(text, pat, from + 1)
    }
}

/// Index of the first occurrence of `pat` in `text`, if any.
pub open spec fn find_spec(text: Seq<u8>, pat: Seq<u8>) -> Option<int> {
    find_from(text, pat, 0)
}

/// A found index is an occurrence, and the earliest one at or after `from`.
pub proof fn lemma_find_from_some(text: Seq<u8>, pat: Seq<u8>, from: int, j: int)
    requires
        find_from(text, pat, from) == Some(j),
    ensures
        from <= j,
        occurs_at(text, pat, j),
        forall|k: int| from <= k < j ==> !occurs_at(text, pat, k),
    decreases text.len() + 1 - from,
{
    if !(from < 0 || from + pat.len() > text.len()) {
        if text.subrange(from, from + pat.len()) == pat {
        } else {
            lemma_find_from_some(text, pat, from + 1, j);
        }
    }
}

/// A search that finds nothing rules out every occurrence at or after `from`.
pub proof fn lemma_find_from_none(text: Seq<u8>, pat: Seq<u8>, from: int)
    requires
        0 <= from,
        find_from(text, pat, from) == None::<int>,
    ensures
        forall|k: int| from <= k ==> !occurs_at(text, pat, k),
    decreases text.len() + 1 - from,
{
    if from + pat.len() > text.len() {
        assert forall|k: int| from <= k implies !occurs_at(text, pat, k) by {
            assert(k + pat.len() > text.len());
        }
    } else {
        lemma_find_from_none(text, pat, from + 1);
    }
}

/// The first-occurrence search decides the containment predicate.
pub proof fn lemma_find_spec_characterizes(text: Seq<u8>, pat: Seq<u8>)
    ensures
        find_spec(text, pat) is Some <==> contains_seq(text, pat),
{
    match find_spec(text, pat) {
        Some(j) => {
            lemma_find_from_some(text, pat, 0, j);
        },
        None => {
            lemma_find_from_none(text, pat, 0);
        },
    }
}

/// Slice equality, byte for byte.
pub fn eq_bytes(a: &[u8], b: &[u8]) -> (r: bool)
    ensures
        r == (a@ == b@),
{
    if a.len() != b.len() {
        return false;
    }
    let mut i: usize = 0;
    while i < a.len()
        invariant
            a@.len() == b@.len(),
            0 <= i <= a@.len(),
            forall|k: int| 0 <= k < i ==> a@[k] == b@[k],
        decreases a@.len() - i,
    {
        if a[i] != b[i] {
            return false;
        }
        i = i + 1;
    }
    proof {
        assert(a@ =~= b@);
    }
    true
}

/// First occurrence of `pat` in `text`, scanning left to right.
pub fn find_first(text: &[u8], pat: &[u8]) -> (r: Option<usize>)
    ensures
        match r {
            Some(i) => find_spec(text@, pat@) == Some(i as int),
            None => find_spec(text@, pat@) is None,
        },
{
    if pat.len() > text.len() {
        return None;
    }
    if pat.len() == 0 {
        proof {
            assert(text@.subrange(0, 0) =~= pat@);
        }
        return Some(0);
    }
    let tlen: usize = text.len();
    let plen: usize = pat.len();
    let end: usize = tlen - plen;
    let mut i: usize = 0;
    while i <= end
        invariant
            tlen == text@.len(),
            plen == pat@.len(),
            1 <= plen <= tlen,
            end == tlen - plen,
            0 <= i <= end + 1,
            find_from(text@, pat@, 0) == find_from(text@, pat@, i as int),
        decreases end + 1 - i,
    {
        let window = slice_subrange(text, i, i + plen);
        if eq_bytes(window, pat) {
            return Some(i);
        }
        proof {
            assert(find_from(text@, pat@, i as int) == find_from(text@, pat@, i + 1));
        }
        i = i + 1;
    }
    proof {
        assert(find_from(text@, pat@, i as int) is None);
    }
    None
}

/// Whether `pat` occurs anywhere in `text`.
pub fn contains_bytes(text: &[u8], pat: &[u8]) -> (r: bool)
    ensures
        r == contains_seq(text@, pat@),
{
    proof {
        lemma_find_spec_characterizes(text@, pat@);
    }
    let r = find_first(text, pat);
    r.is_some()
}

/// ASCII lowercasing of a single byte.
pub open spec fn lower_byte(b: u8) -> u8 {
    if 65 <= b && b <= 90 {
        (b + 32) as u8
    } else {
        b
    }
}

/// ASCII lowercasing of a byte sequence.
pub open spec fn lower(s: Seq<u8>) -> Seq<u8> {
    s.map_values(|b: u8| lower_byte(b))
}

/// Copy of `s` with ASCII upper-case letters lowered.
pub fn to_lower(s: &[u8]) -> (r: Vec<u8>)
    ensures
        r@ == lower(s@),
{
    let mut r: Vec<u8> = Vec::new();
    let mut i: usize = 0;
    while i < s.len()
        invariant
            0 <= i <= s@.len(),
            r@.len() == i,
            forall|k: int| 0 <= k < i ==> r@[k] == lower_byte(s@[k]),
        decreases s@.len() - i,
    {
        let b = s[i];
        if 65 <= b && b <= 90 {
            r.push(b + 32);
        } else {
            r.push(b);
        }
        i = i + 1;
    }
    proof {
        assert(r@ =~= lower(s@));
    }
    r
}

/// Bytes that make up words: ASCII letters and digits.
pub open spec fn is_word_byte(b: u8) -> bool {
    (48 <= b && b <= 57) || (65 <= b && b <= 90) || (97 <= b && b <= 122)
}

fn word_byte(b: u8) -> (r: bool)
    ensures
        r == is_word_byte(b),
{
    (48 <= b && b <= 57) || (65 <= b && b <= 90) || (97 <= b && b <= 122)
}

/// `word` stands at index `i` of `text` as a whole word: the occurrence is
/// made of word bytes and is delimited on both sides by a boundary (start or
/// end of text, or a non-word byte).
pub open spec fn word_at(text: Seq<u8>, word: Seq<u8>, i: int) -> bool {
    &&& occurs_at(text, word, i)
    &&& (i == 0 || !is_word_byte(text[i - 1]))
    &&& (i + word.len() == text.len() || !is_word_byte(text[i + word.len()]))
    &&& forall|k: int| i <= k < i + word.len() ==> is_word_byte(text[k])
}

/// `word` occurs in `text` as a whole word.
pub open spec fn has_word(text: Seq<u8>, word: Seq<u8>) -> bool {
    exists|i: int| word_at(text, word, i)
}

fn token_at(text: &[u8], word: &[u8], i: usize) -> (r: bool)
    requires
        i + word@.len() <= text@.len(),
    ensures
        r == word_at(text@, word@, i as int),
{
    let tlen: usize = text.len();
    let wlen: usize = word.len();
    proof {
        assert(i + wlen <= tlen);
    }
    let window = slice_subrange(text, i, i + wlen);
    if !eq_bytes(window, word) {
        return false;
    }
    if i > 0 && word_byte(text[i - 1]) {
        return false;
    }
    if i + wlen < text.len() && word_byte(text[i + wlen]) {
        return false;
    }
    let mut k: usize = 0;
    while k < wlen
        invariant
            wlen == word@.len(),
            i + wlen <= text@.len(),
            0 <= k <= wlen,
            text@.subrange(i as int, i + wlen) == word@,
            forall|j: int| 0 <= j < k ==> is_word_byte(word@[j]),
        decreases wlen - k,
    {
        if !word_byte(word[k]) {
            proof {
                assert(text@[i + k] == text@.subrange(i as int, i + wlen)[k as int]);
            }
            return false;
        }
        k = k + 1;
    }
    proof {
        assert forall|j: int| i <= j < i + word@.len() implies is_word_byte(text@[j]) by {
            assert(text@[j] == text@.subrange(i as int, i + wlen)[j - i]);
        }
    }
    true
}

/// Whole-word search: `word` occurs in `text` delimited by non-word bytes
/// or the ends of `text`.
pub fn contains_word(text: &[u8], word: &[u8]) -> (r: bool)
    ensures
        r == has_word(text@, word@),
{
    let tlen: usize = text.len();
    let wlen: usize = word.len();
    if wlen > tlen {
        proof {
            assert forall|i: int| !word_at(text@, word@, i) by {
                if occurs_at(text@, word@, i) {
                    assert(i + word@.len() <= text@.len());
                }
            }
        }
        return false;
    }
    let end: usize = tlen - wlen;
    let mut i: usize = 0;
    while i < end
        invariant
            tlen == text@.len(),
            wlen == word@.len(),
            wlen <= tlen,
            end == tlen - wlen,
            0 <= i <= end,
            forall|k: int| 0 <= k < i ==> !word_at(text@, word@, k),
        decreases end - i,
    {
        if token_at(text, word, i) {
            return true;
        }
        i = i + 1;
    }
    if token_at(text, word, end) {
        return true;
    }
    proof {
        assert forall|k: int| !word_at(text@, word@, k) by {
            if 0 <= k <= end {
            } else if occurs_at(text@, word@, k) {
                assert(0 <= k && k + word@.len() <= text@.len());
            }
        }
    }
    false
}

/// Whitespace bytes: space, tab, line feed, vertical tab, form feed,
/// carriage return.
pub open spec fn is_space_byte(b: u8) -> bool {
    b == 32 || b == 9 || b == 10 || b == 11 || b == 12 || b == 13
}

fn space_byte(b: u8) -> (r: bool)
    ensures
        r == is_space_byte(b),
{
    b == 32 || b == 9 || b == 10 || b == 11 || b == 12 || b == 13
}

/// `s` without its leading whitespace.
pub open spec fn trim_start_spec(s: Seq<u8>) -> Seq<u8>
    decreases s.len(),
{
    if s.len() > 0 && is_space_byte(s[0]) {
        trim_start_spec(s.drop_first())
    } else {
        s
    }
}

/// `s` without its trailing whitespace.
pub open spec fn trim_end_spec(s: Seq<u8>) -> Seq<u8>
    decreases s.len(),
{
    if s.len() > 0 && is_space_byte(s[s.len() - 1]) {
        trim_end_spec(s.drop_last())
    } else {
        s
    }
}

/// `s` without leading and trailing whitespace.
pub open spec fn trim_spec(s: Seq<u8>) -> Seq<u8> {
    trim_end_spec(trim_start_spec(s))
}

proof fn lemma_trim_start_subrange(s: Seq<u8>, a: int)
    requires
        0 <= a <= s.len(),
        forall|k: int| 0 <= k < a ==> is_space_byte(s[k]),
        a == s.len() || !is_space_byte(s[a]),
    ensures
        trim_start_spec(s) == s.subrange(a, s.len() as int),
    decreases a,
{
    if a == 0 {
        assert(s.subrange(0, s.len() as int) =~= s);
    } else {
        let t = s.drop_first();
        assert(t =~= s.subrange(1, s.len() as int));
        lemma_trim_start_subrange(t, a - 1);
        assert(t.subrange(a - 1, t.len() as int) =~= s.subrange(a, s.len() as int));
    }
}

proof fn lemma_trim_end_subrange(s: Seq<u8>, b: int)
    requires
        0 <= b <= s.len(),
        forall|k: int| b <= k < s.len() ==> is_space_byte(s[k]),
        b == 0 || !is_space_byte(s[b - 1]),
    ensures
        trim_end_spec(s) == s.subrange(0, b),
    decreases s.len(),
{
    if b == s.len() {
        if s.len() > 0 && is_space_byte(s[s.len() - 1]) {
            assert(false);
        }
        assert(s.subrange(0, b) =~= s);
    } else {
        let t = s.drop_last();
        assert(t =~= s.subrange(0, s.len() - 1));
        lemma_trim_end_subrange(t, b);
        assert(t.subrange(0, b) =~= s.subrange(0, b));
    }
}

/// Copy of `s` with leading and trailing whitespace removed.
pub fn trim(s: &[u8]) -> (r: Vec<u8>)
    ensures
        r@ == trim_spec(s@),
{
    let len: usize = s.len();
    let mut a: usize = 0;
    while a < len && space_byte(s[a])
        invariant
            len == s@.len(),
            0 <= a <= len,
            forall|k: int| 0 <= k < a ==> is_space_byte(s@[k]),
        decreases len - a,
    {
        a = a + 1;
    }
    proof {
        lemma_trim_start_subrange(s@, a as int);
    }
    let mut b: usize = len;
    while b > a && space_byte(s[b - 1])
        invariant
            len == s@.len(),
            a <= b <= len,
            forall|k: int| b <= k < len ==> is_space_byte(s@[k]),
        decreases b,
    {
        b = b - 1;
    }
    proof {
        let t = s@.subrange(a as int, len as int);
        assert(forall|k: int| b - a <= k < t.len() ==> is_space_byte(#[trigger] t[k]));
        if b > a {
            assert(!is_space_byte(t[b - a - 1]));
        }
        lemma_trim_end_subrange(t, b - a);
        assert(t.subrange(0, b - a) =~= s@.subrange(a as int, b as int));
    }
    slice_to_vec(slice_subrange(s, a, b))
}

/// The trimmed content of `line` is empty: the line is blank.
pub open spec fn is_blank(line: Seq<u8>) -> bool {
    trim_spec(line).len() == 0
}

/// Whether `line` consists of whitespace alone.
pub fn is_blank_line(line: &[u8]) -> (r: bool)
    ensures
        r == is_blank(line@),
{
    let t = trim(line);
    t.len() == 0
}

/// `l` with one trailing carriage return removed, if present.
pub open spec fn strip_cr(l: Seq<u8>) -> Seq<u8> {
    if l.len() > 0 && l[l.len() - 1] == 13 {
        l.drop_last()
    } else {
        l
    }
}

/// The lines of `s`, split at line feeds. A carriage return just before a
/// line feed is dropped; a final line without a terminating line feed is
/// kept as it stands; a terminating line feed yields no extra empty line.
pub open spec fn lines_spec(s: Seq<u8>) -> Seq<Seq<u8>>
    decreases s.len(),
    via lines_spec_decreases
{
    if s.len() == 0 {
        Seq::empty()
    } else {
        match find_spec(s, seq![10u8]) {
            None => seq![s],
            Some(i) => seq![strip_cr(s.subrange(0, i))] + lines_spec(
                s.subrange(i + 1, s.len() as int),
            ),
        }
    }
}

#[via_fn]
proof fn lines_spec_decreases(s: Seq<u8>) {
    if s.len() > 0 {
        match find_spec(s, seq![10u8]) {
            None => {},
            Some(i) => {
                lemma_find_from_some(s, seq![10u8], 0, i);
            },
        }
    }
}

/// The lines of `s`, as fresh byte vectors.
pub fn split_lines(s: &[u8]) -> (r: Vec<Vec<u8>>)
    ensures
        r.deep_view() == lines_spec(s@),
{
    let mut r: Vec<Vec<u8>> = Vec::new();
    let mut nl: Vec<u8> = Vec::new();
    nl.push(10u8);
    proof {
        assert(nl@ =~= seq![10u8]);
    }
    let len: usize = s.len();
    let mut pos: usize = 0;
    proof {
        assert(s@.subrange(0, len as int) =~= s@);
        assert(r.deep_view() =~~= Seq::<Seq<u8>>::empty());
        assert(Seq::<Seq<u8>>::empty() + lines_spec(s@) =~~= lines_spec(s@));
    }
    while pos < len
        invariant
            len == s@.len(),
            nl@ == seq![10u8],
            0 <= pos <= len,
            lines_spec(s@) == r.deep_view() + lines_spec(s@.subrange(pos as int, len as int)),
        decreases len - pos,
    {
        let ghost rem = s@.subrange(pos as int, len as int);
        let rest = slice_subrange(s, pos, len);
        match find_first(rest, nl.as_slice()) {
            None => {
                let line = slice_to_vec(rest);
                let ghost old_dv = r.deep_view();
                r.push(line);
                proof {
                    assert(lines_spec(rem) =~= seq![rem]);
                    assert(line.deep_view() =~= line@);
                    assert(r.deep_view() =~~= old_dv.push(rem));
                    assert(old_dv.push(rem) =~~= old_dv + seq![rem]);
                    assert(lines_spec(s@.subrange(len as int, len as int)) =~= Seq::<
                        Seq<u8>,
                    >::empty());
                    assert(old_dv + seq![rem] + Seq::<Seq<u8>>::empty() =~~= old_dv + seq![rem]);
                }
                pos = len;
            },
            Some(i) => {
                proof {
                    lemma_find_from_some(rem, seq![10u8], 0, i as int);
                }
                let mut cut: usize = i;
                if i > 0 && rest[i - 1] == 13 {
                    cut = i - 1;
                    proof {
                        assert(rem.subrange(0, i as int).drop_last() =~= rem.subrange(0, i - 1));
                        assert(strip_cr(rem.subrange(0, i as int)) =~= rem.subrange(0, cut as int));
                    }
                } else {
                    proof {
                        assert(strip_cr(rem.subrange(0, i as int)) =~= rem.subrange(0, cut as int));
                    }
                }
                let line = slice_to_vec(slice_subrange(rest, 0, cut));
                let ghost old_dv = r.deep_view();
                r.push(line);
                proof {
                    assert(line@ =~= rem.subrange(0, cut as int));
                    assert(line.deep_view() =~= line@);
                    assert(r.deep_view() =~~= old_dv.push(line@));
                    assert(rem.subrange(i + 1, rem.len() as int) =~= s@.subrange(
                        pos + i + 1,
                        len as int,
                    ));
                    assert(old_dv.push(line@) + lines_spec(s@.subrange(pos + i + 1, len as int))
                        =~~= old_dv + lines_spec(rem));
                }
                pos = pos + i + 1;
            },
        }
    }
    proof {
        assert(lines_spec(s@.subrange(pos as int, len as int)) =~= Seq::<Seq<u8>>::empty());
        assert(r.deep_view() =~= r.deep_view() + Seq::<Seq<u8>>::empty());
    }
    r
}

} // verus!
