//! Text as sequences of characters.
//!
//! Every parser in this crate first turns its input into a `Vec<char>` and then
//! works on indices, so that each step can be stated over `Seq<char>`.

use vstd::prelude::*;
use crate::base::list::{lemma_views_push, views};

verus! {

/// `String::push` appends one character to the end of the string.
pub assume_specification[ String::push ](s: &mut String, ch: char)
    ensures
        final(s)@ == old(s)@.push(ch),
;

/// The characters of `s`, in order.
pub fn to_chars(s: &str) -> (chars: Vec<char>)
    ensures
        chars@ == s@,
{
    let mut chars: Vec<char> = Vec::new();
    for c in it: s.chars()
        invariant
            chars@ == it.seq().take(it.index()),
            it.seq() == s@,
    {
        chars.push(c);
    }
    chars
}

/// The string made of `chars`, in order.
pub fn to_string(chars: &Vec<char>) -> (s: String)
    ensures
        s@ == chars@,
{
    let mut s = String::new();
    let mut i: usize = 0;
    while i < chars.len()
        invariant
            i <= chars.len(),
            s@ == chars@.take(i as int),
        decreases chars.len() - i,
    {
        s.push(chars[i]);
        i += 1;
    }
    s
}

/// The strings made of each element of `pieces`, in order.
pub fn to_strings(pieces: &Vec<Vec<char>>) -> (out: Vec<String>)
    ensures
        views(out@) == views(pieces@),
{
    let mut out: Vec<String> = Vec::new();
    let mut i: usize = 0;
    while i < pieces.len()
        invariant
            i <= pieces.len(),
            views(out@) == views(pieces@).take(i as int),
        decreases pieces.len() - i,
    {
        let s = to_string(&pieces[i]);
        proof {
            lemma_views_push(out@, s);
            assert(views(pieces@).take(i as int).push(s@) =~= views(pieces@).take(i + 1));
        }
        out.push(s);
        i += 1;
    }
    out
}

/// A copy of the characters of `chars` from index `from` up to, not including, `to`.
pub fn slice(chars: &Vec<char>, from: usize, to: usize) -> (piece: Vec<char>)
    requires
        from <= to <= chars.len(),
    ensures
        piece@ == chars@.subrange(from as int, to as int),
{
    let mut piece: Vec<char> = Vec::new();
    let mut i: usize = from;
    while i < to
        invariant
            from <= i <= to <= chars.len(),
            piece@ == chars@.subrange(from as int, i as int),
        decreases to - i,
    {
        piece.push(chars[i]);
        i += 1;
    }
    piece
}

/// Whether `a` and `b` hold the same characters.
pub fn same(a: &Vec<char>, b: &Vec<char>) -> (eq: bool)
    ensures
        eq == (a@ == b@),
{
    if a.len() != b.len() {
        return false;
    }
    let mut i: usize = 0;
    while i < a.len()
        invariant
            i <= a.len() == b.len(),
            a@.take(i as int) == b@.take(i as int),
        decreases a.len() - i,
    {
        if a[i] != b[i] {
            return false;
        }
        assert(a@.take(i + 1) =~= a@.take(i as int).push(a@[i as int]));
        assert(b@.take(i + 1) =~= b@.take(i as int).push(b@[i as int]));
        i += 1;
    }
    assert(a@ =~= a@.take(a.len() as int));
    assert(b@ =~= b@.take(b.len() as int));
    true
}

/// Whether `chars` spells exactly `word`.
pub fn is_word(chars: &Vec<char>, word: &str) -> (eq: bool)
    ensures
        eq == (chars@ == word@),
{
    let w = to_chars(word);
    same(chars, &w)
}

/// Whether `a` and `b` are the same text.
pub fn str_eq(a: &str, b: &str) -> (eq: bool)
    ensures
        eq == (a@ == b@),
{
    let x = to_chars(a);
    let y = to_chars(b);
    same(&x, &y)
}

/// ASCII whitespace: space, tab, line feed, form feed and carriage return.
pub open spec fn is_space(c: char) -> bool {
    c == ' ' || c == '\t' || c == '\n' || c == '\x0C' || c == '\r'
}

/// Whether `c` is ASCII whitespace.
pub fn space(c: char) -> (b: bool)
    ensures
        b == is_space(c),
{
    c == ' ' || c == '\t' || c == '\n' || c == '\x0C' || c == '\r'
}

/// Whitespace in the Unicode sense: the code points with the `White_Space`
/// property.
pub open spec fn is_whitespace(c: char) -> bool {
    let n = c as u32;
    ||| 0x09 <= n <= 0x0D
    ||| n == 0x20
    ||| n == 0x85
    ||| n == 0xA0
    ||| n == 0x1680
    ||| 0x2000 <= n <= 0x200A
    ||| n == 0x2028
    ||| n == 0x2029
    ||| n == 0x202F
    ||| n == 0x205F
    ||| n == 0x3000
}

/// Whether `c` is whitespace in the Unicode sense.
pub fn whitespace(c: char) -> (b: bool)
    ensures
        b == is_whitespace(c),
{
    let n: u32 = c as u32;
    (0x09 <= n && n <= 0x0D) || n == 0x20 || n == 0x85 || n == 0xA0 || n == 0x1680 || (0x2000 <= n
        && n <= 0x200A) || n == 0x2028 || n == 0x2029 || n == 0x202F || n == 0x205F || n == 0x3000
}

/// A line is blank when it holds nothing but whitespace.
pub open spec fn is_blank(s: Seq<char>) -> bool {
    forall|i: int| 0 <= i < s.len() ==> is_whitespace(#[trigger] s[i])
}

/// Whether `chars` holds nothing but whitespace.
pub fn blank(chars: &Vec<char>) -> (b: bool)
    ensures
        b == is_blank(chars@),
{
    let mut i: usize = 0;
    while i < chars.len()
        invariant
            i <= chars.len(),
            forall|k: int| 0 <= k < i ==> is_whitespace(#[trigger] chars@[k]),
        decreases chars.len() - i,
    {
        if !whitespace(chars[i]) {
            return false;
        }
        i += 1;
    }
    true
}

/// The first index at or after `i` that holds no whitespace, or the length of
/// `s` if there is none.
pub open spec fn first_nonblank(s: Seq<char>, i: int) -> int
    decreases s.len() - i,
{
    if 0 <= i < s.len() && is_whitespace(s[i]) {
        first_nonblank(s, i + 1)
    } else {
        i
    }
}

/// The end of the last run of non-whitespace before index `j`: the least `k`
/// such that everything from `k` up to `j` is whitespace.
pub open spec fn last_nonblank(s: Seq<char>, j: int) -> int
    decreases j,
{
    if 0 < j <= s.len() && is_whitespace(s[j - 1]) {
        last_nonblank(s, j - 1)
    } else {
        j
    }
}

/// `s` without its leading and trailing whitespace.
pub open spec fn spec_trim(s: Seq<char>) -> Seq<char> {
    let a = first_nonblank(s, 0);
    let b = last_nonblank(s, s.len() as int);
    if a < b {
        s.subrange(a, b)
    } else {
        Seq::empty()
    }
}

/// `chars` without its leading and trailing whitespace.
pub fn trim(chars: &Vec<char>) -> (out: Vec<char>)
    ensures
        out@ == spec_trim(chars@),
{
    let mut a: usize = 0;
    while a < chars.len() && whitespace(chars[a])
        invariant
            a <= chars.len(),
            first_nonblank(chars@, 0) == first_nonblank(chars@, a as int),
        decreases chars.len() - a,
    {
        a += 1;
    }
    let mut b: usize = chars.len();
    while b > 0 && whitespace(chars[b - 1])
        invariant
            b <= chars.len(),
            last_nonblank(chars@, chars@.len() as int) == last_nonblank(chars@, b as int),
        decreases b,
    {
        b -= 1;
    }
    if a < b {
        slice(chars, a, b)
    } else {
        Vec::new()
    }
}

/// `text` without its leading and trailing whitespace.
pub fn trimmed(text: &str) -> (out: String)
    ensures
        out@ == spec_trim(text@),
{
    let chars = to_chars(text);
    let inner = trim(&chars);
    to_string(&inner)
}

/// Whether `needle` stands in `hay` at index `k`.
pub open spec fn occurs_at(hay: Seq<char>, needle: Seq<char>, k: int) -> bool {
    0 <= k && k + needle.len() <= hay.len() && hay.subrange(k, k + needle.len()) == needle
}

/// Whether `hay` begins with `needle`.
pub open spec fn spec_starts_with(hay: Seq<char>, needle: Seq<char>) -> bool {
    occurs_at(hay, needle, 0)
}

/// Whether `needle` stands somewhere in `hay`.
pub open spec fn spec_contains(hay: Seq<char>, needle: Seq<char>) -> bool {
    exists|k: int| occurs_at(hay, needle, k)
}

/// Whether `needle` stands in `hay` at index `k`.
pub fn found_at(hay: &Vec<char>, needle: &Vec<char>, k: usize) -> (b: bool)
    ensures
        b == occurs_at(hay@, needle@, k as int),
{
    if needle.len() > hay.len() || k > hay.len() - needle.len() {
        return false;
    }
    let mut i: usize = 0;
    while i < needle.len()
        invariant
            i <= needle.len(),
            k + needle.len() <= hay.len(),
            forall|j: int| 0 <= j < i ==> hay@[k + j] == needle@[j],
        decreases needle.len() - i,
    {
        if hay[k + i] != needle[i] {
            assert(hay@.subrange(k as int, k + needle.len())[i as int] != needle@[i as int]);
            return false;
        }
        i += 1;
    }
    assert(hay@.subrange(k as int, k + needle.len()) =~= needle@);
    true
}

/// Whether `hay` begins with `needle`.
pub fn starts_with(hay: &Vec<char>, needle: &Vec<char>) -> (b: bool)
    ensures
        b == spec_starts_with(hay@, needle@),
{
    found_at(hay, needle, 0)
}

/// Whether `needle` stands somewhere in `hay`.
pub fn contains(hay: &Vec<char>, needle: &Vec<char>) -> (b: bool)
    ensures
        b == spec_contains(hay@, needle@),
{
    if needle.len() > hay.len() {
        return false;
    }
    let last: usize = hay.len() - needle.len();
    let mut k: usize = 0;
    while k < last
        invariant
            k <= last,
            last == hay.len() - needle.len(),
            needle.len() <= hay.len(),
            forall|j: int| 0 <= j < k ==> !occurs_at(hay@, needle@, j),
        decreases last - k,
    {
        if found_at(hay, needle, k) {
            return true;
        }
        k += 1;
    }
    found_at(hay, needle, last)
}

/// The index of the first `c` in `s` at or after `i`, or the length of `s` if
/// there is none.
pub open spec fn index_of(s: Seq<char>, c: char, i: int) -> int
    decreases s.len() - i,
{
    if 0 <= i < s.len() && s[i] != c {
        index_of(s, c, i + 1)
    } else {
        i
    }
}

/// Whether `c` occurs in `s`.
pub open spec fn has_char(s: Seq<char>, c: char) -> bool {
    index_of(s, c, 0) < s.len()
}

/// The index of the first `c` in `chars`, or the length of `chars` if there is
/// none.
pub fn find(chars: &Vec<char>, c: char) -> (k: usize)
    ensures
        k == index_of(chars@, c, 0),
        k <= chars.len(),
{
    let mut k: usize = 0;
    while k < chars.len() && chars[k] != c
        invariant
            k <= chars.len(),
            index_of(chars@, c, 0) == index_of(chars@, c, k as int),
        decreases chars.len() - k,
    {
        k += 1;
    }
    k
}

/// The pieces of `s` between occurrences of `sep`, where the piece being read
/// began at `start` and the scan stands at `i`.
pub open spec fn split_from(s: Seq<char>, sep: char, start: int, i: int) -> Seq<Seq<char>>
    decreases s.len() - i,
{
    if i < 0 || i >= s.len() {
        seq![s.subrange(start, s.len() as int)]
    } else if s[i] == sep {
        seq![s.subrange(start, i)] + split_from(s, sep, i + 1, i + 1)
    } else {
        split_from(s, sep, start, i + 1)
    }
}

/// The pieces of `s` between occurrences of `sep`: one more piece than there are
/// separators, empty pieces included.
pub open spec fn spec_split(s: Seq<char>, sep: char) -> Seq<Seq<char>> {
    split_from(s, sep, 0, 0)
}

/// The pieces of `chars` between occurrences of `sep`.
pub fn split(chars: &Vec<char>, sep: char) -> (pieces: Vec<Vec<char>>)
    ensures
        views(pieces@) == spec_split(chars@, sep),
{
    let mut pieces: Vec<Vec<char>> = Vec::new();
    let mut start: usize = 0;
    let mut i: usize = 0;
    proof {
        assert(views(pieces@) + split_from(chars@, sep, 0, 0) =~= split_from(chars@, sep, 0, 0));
    }
    while i < chars.len()
        invariant
            start <= i <= chars.len(),
            spec_split(chars@, sep) == views(pieces@) + split_from(
                chars@,
                sep,
                start as int,
                i as int,
            ),
        decreases chars.len() - i,
    {
        if chars[i] == sep {
            let piece = slice(chars, start, i);
            proof {
                lemma_views_push(pieces@, piece);
                let rest = split_from(chars@, sep, i + 1, i + 1);
                assert(views(pieces@) + (seq![piece@] + rest) =~= views(pieces@).push(piece@)
                    + rest);
            }
            pieces.push(piece);
            start = i + 1;
        }
        i += 1;
    }
    let piece = slice(chars, start, chars.len());
    proof {
        lemma_views_push(pieces@, piece);
        assert(views(pieces@) + seq![piece@] =~= views(pieces@).push(piece@));
    }
    pieces.push(piece);
    pieces
}

/// The maximal runs of characters other than ASCII whitespace, where the run
/// being read began at `start` and the scan stands at `i`.
pub open spec fn tokens_from(s: Seq<char>, start: int, i: int) -> Seq<Seq<char>>
    decreases s.len() - i,
{
    if i < 0 || i >= s.len() {
        if start < s.len() {
            seq![s.subrange(start, s.len() as int)]
        } else {
            Seq::empty()
        }
    } else if is_space(s[i]) {
        if start < i {
            seq![s.subrange(start, i)] + tokens_from(s, i + 1, i + 1)
        } else {
            tokens_from(s, i + 1, i + 1)
        }
    } else {
        tokens_from(s, start, i + 1)
    }
}

/// The maximal runs of characters other than ASCII whitespace, in order. No
/// token is empty.
pub open spec fn spec_tokens(s: Seq<char>) -> Seq<Seq<char>> {
    tokens_from(s, 0, 0)
}

/// The maximal runs of characters of `chars` other than ASCII whitespace.
pub fn tokens(chars: &Vec<char>) -> (pieces: Vec<Vec<char>>)
    ensures
        views(pieces@) == spec_tokens(chars@),
{
    let mut pieces: Vec<Vec<char>> = Vec::new();
    let mut start: usize = 0;
    let mut i: usize = 0;
    proof {
        assert(views(pieces@) + tokens_from(chars@, 0, 0) =~= tokens_from(chars@, 0, 0));
    }
    while i < chars.len()
        invariant
            start <= i <= chars.len(),
            spec_tokens(chars@) == views(pieces@) + tokens_from(chars@, start as int, i as int),
        decreases chars.len() - i,
    {
        if space(chars[i]) {
            if start < i {
                let piece = slice(chars, start, i);
                proof {
                    lemma_views_push(pieces@, piece);
                    let rest = tokens_from(chars@, i + 1, i + 1);
                    assert(views(pieces@) + (seq![piece@] + rest) =~= views(pieces@).push(piece@)
                        + rest);
                }
                pieces.push(piece);
            }
            start = i + 1;
        }
        i += 1;
    }
    if start < chars.len() {
        let piece = slice(chars, start, chars.len());
        proof {
            lemma_views_push(pieces@, piece);
            assert(views(pieces@) + seq![piece@] =~= views(pieces@).push(piece@));
        }
        pieces.push(piece);
    } else {
        proof {
            assert(views(pieces@) + Seq::<Seq<char>>::empty() =~= views(pieces@));
        }
    }
    pieces
}

/// A line without the carriage return that stood before its line feed.
pub open spec fn strip_cr(line: Seq<char>) -> Seq<char> {
    if line.len() > 0 && line.last() == '\r' {
        line.drop_last()
    } else {
        line
    }
}

/// The lines of `s`, where the line being read began at `start` and the scan
/// stands at `i`.
pub open spec fn lines_from(s: Seq<char>, start: int, i: int) -> Seq<Seq<char>>
    decreases s.len() - i,
{
    if i < 0 || i >= s.len() {
        if start < s.len() {
            seq![s.subrange(start, s.len() as int)]
        } else {
            Seq::empty()
        }
    } else if s[i] == '\n' {
        seq![strip_cr(s.subrange(start, i))] + lines_from(s, i + 1, i + 1)
    } else {
        lines_from(s, start, i + 1)
    }
}

/// The lines of `s`. A line ends at a line feed, or at a carriage return
/// directly followed by one; the ending is not part of the line. The last line
/// needs no ending, and an ending at the very end of `s` begins no further
/// line.
pub open spec fn spec_lines(s: Seq<char>) -> Seq<Seq<char>> {
    lines_from(s, 0, 0)
}

/// The lines of `chars`.
pub fn lines(chars: &Vec<char>) -> (out: Vec<Vec<char>>)
    ensures
        views(out@) == spec_lines(chars@),
{
    let mut out: Vec<Vec<char>> = Vec::new();
    let mut start: usize = 0;
    let mut i: usize = 0;
    proof {
        assert(views(out@) + lines_from(chars@, 0, 0) =~= lines_from(chars@, 0, 0));
    }
    while i < chars.len()
        invariant
            start <= i <= chars.len(),
            spec_lines(chars@) == views(out@) + lines_from(chars@, start as int, i as int),
        decreases chars.len() - i,
    {
        if chars[i] == '\n' {
            let end: usize = if start < i && chars[i - 1] == '\r' {
                i - 1
            } else {
                i
            };
            let line = slice(chars, start, end);
            proof {
                let whole = chars@.subrange(start as int, i as int);
                assert(line@ =~= strip_cr(whole));
                lemma_views_push(out@, line);
                let rest = lines_from(chars@, i + 1, i + 1);
                assert(views(out@) + (seq![line@] + rest) =~= views(out@).push(line@) + rest);
            }
            out.push(line);
            start = i + 1;
        }
        i += 1;
    }
    if start < chars.len() {
        let line = slice(chars, start, chars.len());
        proof {
            lemma_views_push(out@, line);
            assert(views(out@) + seq![line@] =~= views(out@).push(line@));
        }
        out.push(line);
    } else {
        proof {
            assert(views(out@) + Seq::<Seq<char>>::empty() =~= views(out@));
        }
    }
    out
}

} // verus!
