//! Text helpers over the character view of strings: comparing, trimming,
//! replacing and splitting.
//!
//! Positions are counted in characters, not bytes. Reaching a character by
//! its position takes time in proportion to the position, so these helpers
//! are meant for short texts such as a host list or a schema script.

use vstd::prelude::*;
use vstd::string::*;

verus! {

/// The result of `str::to_uppercase` on a text.
pub uninterp spec fn uppercase_of(text: Seq<char>) -> Seq<char>;

/// Whether `char::is_whitespace` holds of a character.
pub uninterp spec fn is_whitespace_char(c: char) -> bool;

/// Calls `str::to_uppercase`. Nothing is claimed of the result beyond that it
/// depends on the characters of `text` alone, under the name `uppercase_of`.
#[verifier::external_body]
pub(crate) fn to_uppercase(text: &str) -> (upper: String)
    ensures
        upper@ == uppercase_of(text@),
{
    text.to_uppercase()
}

/// Calls `char::is_whitespace`. Nothing is claimed of the result beyond that
/// it depends on the character alone, under the name `is_whitespace_char`.
#[verifier::external_body]
pub(crate) fn is_whitespace(c: char) -> (white: bool)
    ensures
        white == is_whitespace_char(c),
{
    c.is_whitespace()
}

/// The character views of a sequence of strings, in order.
pub open spec fn texts(strings: Seq<String>) -> Seq<Seq<char>> {
    strings.map_values(|s: String| s@)
}

/// Whether `text` begins with `prefix`.
pub open spec fn starts_with(text: Seq<char>, prefix: Seq<char>) -> bool {
    prefix.len() <= text.len() && text.take(prefix.len() as int) == prefix
}

/// Whether `pattern` stands in `text` at index `at`.
pub open spec fn occurs_at(text: Seq<char>, pattern: Seq<char>, at: int) -> bool {
    0 <= at && at + pattern.len() <= text.len() && text.subrange(at, at + pattern.len())
        == pattern
}

/// Whether `pattern` stands anywhere in `text`.
pub open spec fn contains_text(text: Seq<char>, pattern: Seq<char>) -> bool {
    exists|at: int| occurs_at(text, pattern, at)
}

/// The first index at or after `from` that holds `c`; the length of the text
/// if there is none.
pub open spec fn next_index_of(text: Seq<char>, c: char, from: int) -> int
    decreases text.len() - from,
{
    if from < 0 || from >= text.len() {
        text.len() as int
    } else if text[from] == c {
        from
    } else {
        next_index_of(text, c, from + 1)
    }
}

/// The pieces of `text` from index `from` on, cut at each `separator`. The
/// separators themselves are left out; a separator at the very end leaves an
/// empty last piece.
pub open spec fn pieces_from(text: Seq<char>, separator: char, from: int) -> Seq<Seq<char>>
    decreases text.len() - from,
{
    let to = next_index_of(text, separator, from);
    if from < 0 || to < from || to >= text.len() {
        seq![text.skip(from)]
    } else {
        seq![text.subrange(from, to)] + pieces_from(text, separator, to + 1)
    }
}

/// The pieces of `text` between its separators, in order: one more piece than
/// there are separators.
pub open spec fn split_on(text: Seq<char>, separator: char) -> Seq<Seq<char>> {
    pieces_from(text, separator, 0)
}

/// `text` from index `from` on, with each occurrence of `pattern` replaced by
/// `with`. Occurrences are taken from the left and do not overlap.
pub open spec fn replaced_from(
    text: Seq<char>,
    pattern: Seq<char>,
    with: Seq<char>,
    from: int,
) -> Seq<char>
    decreases text.len() - from,
{
    if from < 0 || from >= text.len() {
        Seq::empty()
    } else if pattern.len() > 0 && occurs_at(text, pattern, from) {
        with + replaced_from(text, pattern, with, from + pattern.len())
    } else {
        seq![text[from]] + replaced_from(text, pattern, with, from + 1)
    }
}

/// `text` with each occurrence of a non-empty `pattern` replaced by `with`.
pub open spec fn replace_all(text: Seq<char>, pattern: Seq<char>, with: Seq<char>) -> Seq<char> {
    replaced_from(text, pattern, with, 0)
}

/// `text` with each character `from` replaced by the text `to`.
pub open spec fn replace_char(text: Seq<char>, from: char, to: Seq<char>) -> Seq<char>
    decreases text.len(),
{
    if text.len() == 0 {
        Seq::empty()
    } else if text.last() == from {
        replace_char(text.drop_last(), from, to) + to
    } else {
        replace_char(text.drop_last(), from, to).push(text.last())
    }
}

/// The first index at or after `from` that holds no whitespace; the length of
/// the text if there is none.
pub open spec fn skip_whitespace(text: Seq<char>, from: int) -> int
    decreases text.len() - from,
{
    if from < 0 || from >= text.len() {
        text.len() as int
    } else if !is_whitespace_char(text[from]) {
        from
    } else {
        skip_whitespace(text, from + 1)
    }
}

/// The end of the text before `to` once trailing whitespace is dropped: the
/// index after the last character before `to` that is no whitespace, 0 if
/// there is none.
pub open spec fn drop_whitespace(text: Seq<char>, to: int) -> int
    decreases to,
{
    if to <= 0 || to > text.len() {
        0
    } else if !is_whitespace_char(text[to - 1]) {
        to
    } else {
        drop_whitespace(text, to - 1)
    }
}

/// `text` without its leading and trailing whitespace.
pub open spec fn trimmed(text: Seq<char>) -> Seq<char> {
    let start = skip_whitespace(text, 0);
    let end = drop_whitespace(text, text.len() as int);
    if start < end {
        text.subrange(start, end)
    } else {
        Seq::empty()
    }
}

/// A text that holds no `c` between `from` and `upto` has its next `c` after
/// `from` where it has its next `c` after `upto`.
pub proof fn lemma_next_index_skips(text: Seq<char>, c: char, from: int, upto: int)
    requires
        0 <= from <= upto <= text.len(),
        forall|j: int| from <= j < upto ==> text[j] != c,
    ensures
        next_index_of(text, c, from) == next_index_of(text, c, upto),
    decreases upto - from,
{
    if from < upto {
        lemma_next_index_skips(text, c, from + 1, upto);
    }
}

/// The next index of a character lies between the start and the end, holds
/// the character unless it is the end, and no index before it does.
pub proof fn lemma_next_index_is_first(text: Seq<char>, c: char, from: int)
    requires
        0 <= from <= text.len(),
    ensures
        from <= next_index_of(text, c, from) <= text.len(),
        next_index_of(text, c, from) < text.len() ==> text[next_index_of(text, c, from)] == c,
        forall|j: int| from <= j < next_index_of(text, c, from) ==> text[j] != c,
    decreases text.len() - from,
{
    if from < text.len() && text[from] != c {
        lemma_next_index_is_first(text, c, from + 1);
    }
}

/// Each piece of a text is a part of it that holds no separator: the piece
/// with index `k` lies between the two bounds that are returned.
pub proof fn lemma_piece_is_part(text: Seq<char>, separator: char, from: int, k: int) -> (bounds: (
    int,
    int,
))
    requires
        0 <= from <= text.len(),
        0 <= k < pieces_from(text, separator, from).len(),
    ensures
        from <= bounds.0 <= bounds.1 <= text.len(),
        pieces_from(text, separator, from)[k] == text.subrange(bounds.0, bounds.1),
        !pieces_from(text, separator, from)[k].contains(separator),
    decreases text.len() - from,
{
    let to = next_index_of(text, separator, from);
    lemma_next_index_is_first(text, separator, from);
    if to >= text.len() {
        assert(text.skip(from) == text.subrange(from, text.len() as int));
        (from, text.len() as int)
    } else if k == 0 {
        (from, to)
    } else {
        lemma_piece_is_part(text, separator, to + 1, k - 1)
    }
}

/// A text that holds only whitespace between `from` and `upto` has its first
/// other character after `from` where it has it after `upto`.
pub proof fn lemma_skip_whitespace_skips(text: Seq<char>, from: int, upto: int)
    requires
        0 <= from <= upto <= text.len(),
        forall|j: int| from <= j < upto ==> is_whitespace_char(text[j]),
    ensures
        skip_whitespace(text, from) == skip_whitespace(text, upto),
    decreases upto - from,
{
    if from < upto {
        lemma_skip_whitespace_skips(text, from + 1, upto);
    }
}

/// A text that holds only whitespace between `downto` and `to` ends, once
/// trailing whitespace is dropped, where its part before `downto` ends.
pub proof fn lemma_drop_whitespace_drops(text: Seq<char>, downto: int, to: int)
    requires
        0 <= downto <= to <= text.len(),
        forall|j: int| downto <= j < to ==> is_whitespace_char(text[j]),
    ensures
        drop_whitespace(text, to) == drop_whitespace(text, downto),
    decreases to - downto,
{
    if downto < to {
        lemma_drop_whitespace_drops(text, downto, to - 1);
    }
}

/// Whether two texts hold the same characters.
pub fn same_text(a: &str, b: &str) -> (same: bool)
    ensures
        same == (a@ == b@),
{
    let n: usize = a.unicode_len();
    if b.unicode_len() != n {
        return false;
    }
    let mut i: usize = 0;
    while i < n
        invariant
            n == a@.len(),
            n == b@.len(),
            i <= n,
            a@.take(i as int) == b@.take(i as int),
        decreases n - i,
    {
        if a.get_char(i) != b.get_char(i) {
            return false;
        }
        assert(a@.take(i + 1) == a@.take(i as int).push(a@[i as int]));
        assert(b@.take(i + 1) == b@.take(i as int).push(b@[i as int]));
        i += 1;
    }
    assert(a@.take(n as int) == a@);
    assert(b@.take(n as int) == b@);
    true
}

/// Whether `pattern` stands in `text` at the character index `at`.
pub fn matches_at(text: &str, pattern: &str, at: usize) -> (found: bool)
    ensures
        found == occurs_at(text@, pattern@, at as int),
{
    let n: usize = text.unicode_len();
    let m: usize = pattern.unicode_len();
    if at > n || m > n - at {
        return false;
    }
    let mut k: usize = 0;
    while k < m
        invariant
            n == text@.len(),
            m == pattern@.len(),
            at + m <= n,
            k <= m,
            text@.subrange(at as int, at + k) == pattern@.take(k as int),
        decreases m - k,
    {
        if text.get_char(at + k) != pattern.get_char(k) {
            assert(text@.subrange(at as int, at + m)[k as int] != pattern@[k as int]);
            return false;
        }
        assert(text@.subrange(at as int, at + k + 1) == text@.subrange(at as int, at + k).push(
            text@[at + k],
        ));
        assert(pattern@.take(k + 1) == pattern@.take(k as int).push(pattern@[k as int]));
        k += 1;
    }
    assert(pattern@.take(m as int) == pattern@);
    true
}

/// Whether `text` begins with `prefix`.
pub fn begins_with(text: &str, prefix: &str) -> (found: bool)
    ensures
        found == starts_with(text@, prefix@),
{
    let found = matches_at(text, prefix, 0);
    assert(prefix@.len() <= text@.len() ==> text@.take(prefix@.len() as int) == text@.subrange(
        0,
        0 + prefix@.len() as int,
    ));
    found
}

/// The pieces of `text` between its separators, in order.
pub fn split(text: &str, separator: char) -> (pieces: Vec<String>)
    ensures
        texts(pieces@) == split_on(text@, separator),
{
    let n: usize = text.unicode_len();
    let mut pieces: Vec<String> = Vec::new();
    let mut start: usize = 0;
    let mut i: usize = 0;
    assert(texts(pieces@) == Seq::<Seq<char>>::empty());
    while i < n
        invariant
            n == text@.len(),
            start <= i <= n,
            forall|j: int| start <= j < i ==> text@[j] != separator,
            texts(pieces@) + pieces_from(text@, separator, start as int) == split_on(
                text@,
                separator,
            ),
        decreases n - i,
    {
        if text.get_char(i) == separator {
            proof {
                lemma_next_index_skips(text@, separator, start as int, i as int);
            }
            let piece = String::from_str(text.substring_char(start, i));
            let ghost before = pieces@;
            pieces.push(piece);
            assert(texts(pieces@) == texts(before).push(piece@));
            assert(texts(before) + (seq![piece@] + pieces_from(text@, separator, i + 1)) == texts(
                pieces@,
            ) + pieces_from(text@, separator, i + 1));
            start = i + 1;
        }
        i += 1;
    }
    proof {
        lemma_next_index_skips(text@, separator, start as int, n as int);
    }
    let piece = String::from_str(text.substring_char(start, n));
    let ghost before = pieces@;
    pieces.push(piece);
    assert(piece@ == text@.skip(start as int));
    assert(texts(pieces@) == texts(before) + seq![piece@]);
    pieces
}

/// `text` with each character `from` replaced by the text `to`.
pub fn replace_each(text: &str, from: char, to: &str) -> (out: String)
    ensures
        out@ == replace_char(text@, from, to@),
{
    let n: usize = text.unicode_len();
    let mut out = String::new();
    let mut i: usize = 0;
    while i < n
        invariant
            n == text@.len(),
            i <= n,
            out@ == replace_char(text@.take(i as int), from, to@),
        decreases n - i,
    {
        if text.get_char(i) == from {
            out.append(to);
        } else {
            out.append(text.substring_char(i, i + 1));
        }
        assert(text@.take(i + 1).drop_last() == text@.take(i as int));
        assert(text@.subrange(i as int, i + 1) == seq![text@[i as int]]);
        i += 1;
    }
    assert(text@.take(n as int) == text@);
    out
}

/// `text` with each occurrence of `pattern` replaced by `with`, taken from
/// the left without overlap. An empty pattern replaces nothing.
pub fn replace(text: &str, pattern: &str, with: &str) -> (out: String)
    ensures
        out@ == replace_all(text@, pattern@, with@),
{
    let n: usize = text.unicode_len();
    let m: usize = pattern.unicode_len();
    let mut out = String::new();
    let mut i: usize = 0;
    while i < n
        invariant
            n == text@.len(),
            m == pattern@.len(),
            i <= n,
            out@ + replaced_from(text@, pattern@, with@, i as int) == replace_all(
                text@,
                pattern@,
                with@,
            ),
        decreases n - i,
    {
        let ghost before = out@;
        if m > 0 && matches_at(text, pattern, i) {
            out.append(with);
            assert(before + (with@ + replaced_from(text@, pattern@, with@, i + m)) == out@
                + replaced_from(text@, pattern@, with@, i + m));
            i += m;
        } else {
            out.append(text.substring_char(i, i + 1));
            assert(text@.subrange(i as int, i + 1) == seq![text@[i as int]]);
            assert(before + (seq![text@[i as int]] + replaced_from(
                text@,
                pattern@,
                with@,
                i + 1,
            )) == out@ + replaced_from(text@, pattern@, with@, i + 1));
            i += 1;
        }
    }
    assert(out@ + Seq::<char>::empty() == out@);
    out
}

/// `text` without its leading and trailing whitespace.
pub fn trim(text: &str) -> (out: &str)
    ensures
        out@ == trimmed(text@),
{
    let n: usize = text.unicode_len();
    let mut start: usize = 0;
    while start < n
        invariant
            n == text@.len(),
            start <= n,
            forall|j: int| 0 <= j < start ==> is_whitespace_char(text@[j]),
        ensures
            start == n || !is_whitespace_char(text@[start as int]),
        decreases n - start,
    {
        if !is_whitespace(text.get_char(start)) {
            break;
        }
        start += 1;
    }
    proof {
        lemma_skip_whitespace_skips(text@, 0, start as int);
    }
    if start == n {
        proof {
            lemma_drop_whitespace_drops(text@, 0, n as int);
        }
        return text.substring_char(n, n);
    }
    let mut end: usize = n;
    while end > start + 1
        invariant
            n == text@.len(),
            start < end <= n,
            !is_whitespace_char(text@[start as int]),
            forall|j: int| end <= j < n ==> is_whitespace_char(text@[j]),
        ensures
            !is_whitespace_char(text@[end - 1]),
        decreases end,
    {
        if !is_whitespace(text.get_char(end - 1)) {
            break;
        }
        end -= 1;
    }
    proof {
        lemma_drop_whitespace_drops(text@, end as int, n as int);
    }
    text.substring_char(start, end)
}

} // verus!
