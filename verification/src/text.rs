//! Character-level text operations: conversion between strings and character
//! vectors, lowercase folding, whitespace trimming, word splitting and
//! substring search. Everything is stated over `Seq<char>`.

use vstd::prelude::*;
use vstd::string::*;

verus! {

/// The Unicode `White_Space` property, which decides what trimming and word
/// splitting treat as blank.
pub open spec fn is_whitespace(c: char) -> bool {
    let n = c as u32;
    (0x09 <= n && n <= 0x0D) || n == 0x20 || n == 0x85 || n == 0xA0 || n == 0x1680 || (0x2000 <= n
        && n <= 0x200A) || n == 0x2028 || n == 0x2029 || n == 0x202F || n == 0x205F || n == 0x3000
}

/// Whether `c` is blank.
pub fn char_is_whitespace(c: char) -> (b: bool)
    ensures
        b == is_whitespace(c),
{
    let n: u32 = c as u32;
    (0x09 <= n && n <= 0x0D) || n == 0x20 || n == 0x85 || n == 0xA0 || n == 0x1680 || (0x2000 <= n
        && n <= 0x200A) || n == 0x2028 || n == 0x2029 || n == 0x202F || n == 0x205F || n == 0x3000
}

/// The lowercase form of a text under the Unicode case mapping of the
/// standard library.
pub uninterp spec fn lowercase(text: Seq<char>) -> Seq<char>;

/// `str::to_lowercase`: the whole text mapped to lowercase. The mapping
/// itself is not restated here; the result is only given its name.
#[verifier::external_body]
pub(crate) fn to_lowercase(text: &str) -> (r: String)
    ensures
        r@ == lowercase(text@),
{
    text.to_lowercase()
}

/// `String::push`: appends one character.
#[verifier::external_body]
pub(crate) fn push_char(s: &mut String, c: char)
    ensures
        final(s)@ == old(s)@.push(c),
{
    s.push(c)
}

/// The characters of a string, in order.
pub fn to_chars(s: &str) -> (r: Vec<char>)
    ensures
        r@ == s@,
{
    let n = s.unicode_len();
    let mut out: Vec<char> = Vec::new();
    let mut i: usize = 0;
    while i < n
        invariant
            n == s@.len(),
            i <= n,
            out@ == s@.take(i as int),
        decreases n - i,
    {
        let c = s.get_char(i);
        out.push(c);
        proof {
            assert(s@.take(i as int).push(c) =~= s@.take(i + 1));
        }
        i += 1;
    }
    proof {
        assert(s@.take(n as int) =~= s@);
    }
    out
}

/// The string made of the given characters.
pub fn from_chars(v: &Vec<char>) -> (r: String)
    ensures
        r@ == v@,
{
    let mut s = String::new();
    let mut i: usize = 0;
    while i < v.len()
        invariant
            i <= v.len(),
            s@ == v@.take(i as int),
        decreases v.len() - i,
    {
        push_char(&mut s, v[i]);
        proof {
            assert(v@.take(i as int).push(v@[i as int]) =~= v@.take(i + 1));
        }
        i += 1;
    }
    proof {
        assert(v@.take(v.len() as int) =~= v@);
    }
    s
}

/// Whether two texts are the same.
pub fn same_text(a: &str, b: &str) -> (r: bool)
    ensures
        r == (a@ == b@),
{
    let x = String::from_str(a);
    let y = String::from_str(b);
    x == y
}

/// A copy of the characters at positions `from..to`.
pub fn copy_range(text: &Vec<char>, from: usize, to: usize) -> (r: Vec<char>)
    requires
        from <= to <= text.len(),
    ensures
        r@ == text@.subrange(from as int, to as int),
{
    let mut out: Vec<char> = Vec::new();
    let mut i: usize = from;
    while i < to
        invariant
            from <= i <= to,
            to <= text.len(),
            out@ == text@.subrange(from as int, i as int),
        decreases to - i,
    {
        out.push(text[i]);
        proof {
            assert(text@.subrange(from as int, i as int).push(text@[i as int]) =~= text@.subrange(
                from as int,
                i + 1,
            ));
        }
        i += 1;
    }
    out
}

/// `pat` stands in `text` starting at position `i`.
pub open spec fn occurs_at(text: Seq<char>, pat: Seq<char>, i: int) -> bool {
    0 <= i && i + pat.len() <= text.len() && text.subrange(i, i + pat.len()) == pat
}

/// `pat` stands somewhere in `text`.
pub open spec fn contains(text: Seq<char>, pat: Seq<char>) -> bool {
    exists|i: int| occurs_at(text, pat, i)
}

/// `i` is the leftmost position at which `pat` stands in `text`.
pub open spec fn is_first_occurrence(text: Seq<char>, pat: Seq<char>, i: int) -> bool {
    occurs_at(text, pat, i) && forall|j: int| 0 <= j < i ==> !occurs_at(text, pat, j)
}

/// The leftmost position at which `pat` stands in `text`, if any.
pub open spec fn first_occurrence(text: Seq<char>, pat: Seq<char>) -> Option<int> {
    if contains(text, pat) {
        Some(choose|i: int| is_first_occurrence(text, pat, i))
    } else {
        None
    }
}

/// A leftmost occurrence is the first occurrence.
pub proof fn lemma_first_occurrence(text: Seq<char>, pat: Seq<char>, i: int)
    requires
        is_first_occurrence(text, pat, i),
    ensures
        contains(text, pat),
        first_occurrence(text, pat) == Some(i),
{
    assert(occurs_at(text, pat, i));
    let j = choose|j: int| is_first_occurrence(text, pat, j);
    assert(is_first_occurrence(text, pat, j));
    if j < i {
        assert(!occurs_at(text, pat, j));
    } else if i < j {
        assert(!occurs_at(text, pat, i));
    }
}

/// Whether `pat` stands in `text` at position `i`.
pub fn matches_at(text: &Vec<char>, pat: &Vec<char>, i: usize) -> (b: bool)
    requires
        i + pat.len() <= text.len(),
    ensures
        b == occurs_at(text@, pat@, i as int),
{
    let m = pat.len();
    let mut k: usize = 0;
    while k < m
        invariant
            m == pat.len(),
            k <= m,
            i + m <= text.len(),
            forall|q: int| 0 <= q < k ==> text@[i + q] == pat@[q],
        decreases m - k,
    {
        if text[i + k] != pat[k] {
            proof {
                let sub = text@.subrange(i as int, i + m);
                assert(sub[k as int] == text@[i + k]);
            }
            return false;
        }
        k += 1;
    }
    proof {
        assert(text@.subrange(i as int, i + m) =~= pat@);
    }
    true
}

/// The leftmost position at which `pat` stands in `text`.
pub fn find_first(text: &Vec<char>, pat: &Vec<char>) -> (r: Option<usize>)
    ensures
        match r {
            Some(i) => first_occurrence(text@, pat@) == Some(i as int) && is_first_occurrence(
                text@,
                pat@,
                i as int,
            ),
            None => first_occurrence(text@, pat@) is None,
        },
{
    let n = text.len();
    let m = pat.len();
    if m > n {
        proof {
            assert forall|j: int| !occurs_at(text@, pat@, j) by {}
        }
        return None;
    }
    let last = n - m;
    let mut i: usize = 0;
    let mut done = false;
    while !done
        invariant
            n == text.len(),
            m == pat.len(),
            m <= n,
            last == n - m,
            i <= last,
            forall|j: int| 0 <= j < i ==> !occurs_at(text@, pat@, j),
            done ==> i == last && !occurs_at(text@, pat@, last as int),
        decreases (last - i) + (if done { 0int } else { 1int }),
    {
        if matches_at(text, pat, i) {
            proof {
                lemma_first_occurrence(text@, pat@, i as int);
            }
            return Some(i);
        }
        if i == last {
            done = true;
        } else {
            i += 1;
        }
    }
    proof {
        assert forall|j: int| !occurs_at(text@, pat@, j) by {}
    }
    None
}

/// Whether `pat` stands somewhere in `text`.
pub fn contains_chars(text: &Vec<char>, pat: &Vec<char>) -> (b: bool)
    ensures
        b == contains(text@, pat@),
{
    find_first(text, pat).is_some()
}

/// `text` with the leftmost occurrence of `pat` cut out; `text` itself where
/// `pat` does not occur.
pub open spec fn without_first(text: Seq<char>, pat: Seq<char>) -> Seq<char> {
    match first_occurrence(text, pat) {
        Some(i) => text.subrange(0, i) + text.subrange(i + pat.len(), text.len() as int),
        None => text,
    }
}

/// Cuts the leftmost occurrence of `pat` out of `text`.
pub fn remove_first(text: &Vec<char>, pat: &Vec<char>) -> (r: Vec<char>)
    ensures
        r@ == without_first(text@, pat@),
{
    match find_first(text, pat) {
        None => {
            let whole = copy_range(text, 0, text.len());
            proof {
                assert(text@.subrange(0, text.len() as int) =~= text@);
            }
            whole
        },
        Some(i) => {
            assert(occurs_at(text@, pat@, i as int));
            let mut out = copy_range(text, 0, i);
            let start = i + pat.len();
            let mut k: usize = start;
            while k < text.len()
                invariant
                    start <= k <= text.len(),
                    i <= start,
                    out@ == text@.subrange(0, i as int) + text@.subrange(start as int, k as int),
                decreases text.len() - k,
            {
                out.push(text[k]);
                proof {
                    assert(text@.subrange(start as int, k as int).push(text@[k as int])
                        =~= text@.subrange(start as int, k + 1));
                    assert((text@.subrange(0, i as int) + text@.subrange(
                        start as int,
                        k as int,
                    )).push(text@[k as int]) =~= text@.subrange(0, i as int) + text@.subrange(
                        start as int,
                        k + 1,
                    ));
                }
                k += 1;
            }
            out
        },
    }
}

/// `s` without its leading blanks.
pub open spec fn trim_start(s: Seq<char>) -> Seq<char>
    decreases s.len(),
{
    if s.len() > 0 && is_whitespace(s[0]) {
        trim_start(s.skip(1))
    } else {
        s
    }
}

/// `s` without its trailing blanks.
pub open spec fn trim_end(s: Seq<char>) -> Seq<char>
    decreases s.len(),
{
    if s.len() > 0 && is_whitespace(s.last()) {
        trim_end(s.drop_last())
    } else {
        s
    }
}

/// `s` without its leading and trailing blanks.
pub open spec fn trimmed(s: Seq<char>) -> Seq<char> {
    trim_end(trim_start(s))
}

/// Removes leading and trailing blanks.
pub fn trim(text: &Vec<char>) -> (r: Vec<char>)
    ensures
        r@ == trimmed(text@),
{
    let n = text.len();
    let mut a: usize = 0;
    proof {
        assert(text@.skip(0) =~= text@);
    }
    while a < n && char_is_whitespace(text[a])
        invariant
            n == text.len(),
            a <= n,
            trim_start(text@) == trim_start(text@.skip(a as int)),
        decreases n - a,
    {
        proof {
            assert(text@.skip(a as int).skip(1) =~= text@.skip(a + 1));
        }
        a += 1;
    }
    proof {
        assert(text@.skip(a as int) =~= text@.subrange(a as int, n as int));
        assert(trim_start(text@) == text@.subrange(a as int, n as int));
    }
    let mut b: usize = n;
    while b > a && char_is_whitespace(text[b - 1])
        invariant
            n == text.len(),
            a <= b <= n,
            trimmed(text@) == trim_end(text@.subrange(a as int, b as int)),
        decreases b,
    {
        proof {
            assert(text@.subrange(a as int, b as int).drop_last() =~= text@.subrange(
                a as int,
                b - 1,
            ));
        }
        b -= 1;
    }
    copy_range(text, a, b)
}

/// Whether nothing but blanks stands in `text`.
pub fn is_blank(text: &Vec<char>) -> (b: bool)
    ensures
        b == (trimmed(text@).len() == 0),
{
    trim(text).len() == 0
}

/// Length of the run of non-blank characters that `s` starts with.
pub open spec fn first_word_len(s: Seq<char>) -> nat
    decreases s.len(),
{
    if s.len() == 0 || is_whitespace(s[0]) {
        0
    } else {
        1 + first_word_len(s.skip(1))
    }
}

/// The maximal runs of non-blank characters of `s`, in order.
pub open spec fn words(s: Seq<char>) -> Seq<Seq<char>>
    decreases s.len(),
{
    if s.len() == 0 {
        Seq::empty()
    } else if is_whitespace(s[0]) {
        words(s.skip(1))
    } else {
        let n = first_word_len(s);
        if 0 < n <= s.len() {
            seq![s.take(n as int)] + words(s.skip(n as int))
        } else {
            Seq::empty()
        }
    }
}

/// The contents of each inner vector.
pub open spec fn views(v: Seq<Vec<char>>) -> Seq<Seq<char>> {
    Seq::new(v.len(), |i: int| v[i]@)
}

/// Splits a text at blanks into its words.
pub fn split_words(text: &Vec<char>) -> (r: Vec<Vec<char>>)
    ensures
        views(r@) == words(text@),
{
    let n = text.len();
    let mut out: Vec<Vec<char>> = Vec::new();
    let mut i: usize = 0;
    proof {
        assert(text@.skip(0) =~= text@);
        assert(views(out@) + words(text@.skip(0)) =~= words(text@));
    }
    while i < n
        invariant
            n == text.len(),
            i <= n,
            views(out@) + words(text@.skip(i as int)) == words(text@),
        decreases n - i,
    {
        if char_is_whitespace(text[i]) {
            proof {
                assert(text@.skip(i as int).skip(1) =~= text@.skip(i + 1));
            }
            i += 1;
        } else {
            let mut j: usize = i + 1;
            proof {
                assert(text@.skip(i as int).skip(1) =~= text@.skip(i + 1));
            }
            while j < n && !char_is_whitespace(text[j])
                invariant
                    n == text.len(),
                    i < j <= n,
                    first_word_len(text@.skip(i as int)) == (j - i) + first_word_len(
                        text@.skip(j as int),
                    ),
                decreases n - j,
            {
                proof {
                    assert(text@.skip(j as int).skip(1) =~= text@.skip(j + 1));
                }
                j += 1;
            }
            let word = copy_range(text, i, j);
            proof {
                let rest = text@.skip(i as int);
                assert(first_word_len(text@.skip(j as int)) == 0);
                assert(first_word_len(rest) == j - i);
                assert(rest.take(j - i) =~= text@.subrange(i as int, j as int));
                assert(rest.skip(j - i) =~= text@.skip(j as int));
                assert(words(rest) == seq![word@] + words(text@.skip(j as int)));
                let old_out = out@;
                assert(views(old_out.push(word)) =~= views(old_out) + seq![word@]);
                assert(views(old_out.push(word)) + words(text@.skip(j as int)) =~= views(old_out)
                    + words(rest));
            }
            out.push(word);
            i = j;
        }
    }
    proof {
        assert(text@.skip(n as int) =~= Seq::<char>::empty());
        assert(views(out@) + Seq::<Seq<char>>::empty() =~= views(out@));
    }
    out
}

/// How many characters stand before the first `sep` of `s`; the length of
/// `s` where it holds none.
pub open spec fn prefix_len(s: Seq<char>, sep: char) -> nat
    decreases s.len(),
{
    if s.len() == 0 || s[0] == sep {
        0
    } else {
        1 + prefix_len(s.skip(1), sep)
    }
}

/// The place of the first `sep` at or after `from`; the length of the text
/// where none follows.
pub fn find_char(text: &Vec<char>, from: usize, sep: char) -> (r: usize)
    requires
        from <= text.len(),
    ensures
        from <= r <= text.len(),
        r - from == prefix_len(text@.skip(from as int), sep),
{
    let n = text.len();
    let mut j: usize = from;
    while j < n && text[j] != sep
        invariant
            n == text.len(),
            from <= j <= n,
            prefix_len(text@.skip(from as int), sep) == (j - from) + prefix_len(
                text@.skip(j as int),
                sep,
            ),
        decreases n - j,
    {
        proof {
            assert(text@.skip(j as int).skip(1) =~= text@.skip(j + 1));
        }
        j += 1;
    }
    j
}

/// A line without the carriage return that it ends with, if it ends with
/// one.
pub open spec fn without_return(line: Seq<char>) -> Seq<char> {
    if line.len() > 0 && line.last() == '\r' {
        line.drop_last()
    } else {
        line
    }
}

/// The lines of a text, without their line endings. A line ends with a line
/// feed, or with a carriage return and a line feed. The last line needs no
/// ending: a line ending at the very end opens no further line. A carriage
/// return that no line feed follows belongs to its line.
pub open spec fn lines(s: Seq<char>) -> Seq<Seq<char>>
    decreases s.len(),
{
    if s.len() == 0 {
        Seq::empty()
    } else {
        let n = prefix_len(s, '\n');
        if n >= s.len() {
            seq![s]
        } else {
            seq![without_return(s.take(n as int))] + lines(s.skip(n as int + 1))
        }
    }
}

/// Splits a text into its lines.
pub fn split_lines(text: &Vec<char>) -> (r: Vec<Vec<char>>)
    ensures
        views(r@) == lines(text@),
{
    let n = text.len();
    let mut out: Vec<Vec<char>> = Vec::new();
    let mut i: usize = 0;
    proof {
        assert(text@.skip(0) =~= text@);
        assert(views(out@) + lines(text@.skip(0)) =~= lines(text@));
    }
    while i < n
        invariant
            n == text.len(),
            i <= n,
            views(out@) + lines(text@.skip(i as int)) == lines(text@),
        decreases n - i,
    {
        let j = find_char(text, i, '\n');
        let ghost rest = text@.skip(i as int);
        let ghost old_out = out@;
        proof {
            assert(rest.take(j - i) =~= text@.subrange(i as int, j as int));
        }
        if j == n {
            let line = copy_range(text, i, j);
            out.push(line);
            proof {
                assert(views(old_out.push(line)) =~= views(old_out) + seq![line@]);
                assert(rest.take(j - i) =~= rest);
                assert(lines(rest) == seq![rest]);
                assert(text@.skip(n as int) =~= Seq::<char>::empty());
                assert(views(out@) + lines(text@.skip(n as int)) =~= views(old_out) + lines(
                    rest,
                ));
            }
            i = n;
        } else {
            let end = if j > i && text[j - 1] == '\r' {
                j - 1
            } else {
                j
            };
            let line = copy_range(text, i, end);
            out.push(line);
            proof {
                let whole = text@.subrange(i as int, j as int);
                if j > i {
                    assert(whole.last() == text@[j - 1]);
                    assert(whole.drop_last() =~= text@.subrange(i as int, j - 1));
                }
                assert(line@ == without_return(whole));
                assert(views(old_out.push(line)) =~= views(old_out) + seq![line@]);
                assert(rest.skip(j - i + 1) =~= text@.skip(j + 1));
                assert(views(out@) + lines(text@.skip(j + 1)) =~= views(old_out) + lines(rest));
            }
            i = j + 1;
        }
    }
    proof {
        assert(text@.skip(n as int) =~= Seq::<char>::empty());
        assert(views(out@) + Seq::<Seq<char>>::empty() =~= views(out@));
    }
    out
}

/// The second of the fields that tabs divide a line into, where the line has
/// a tab.
pub open spec fn second_field(line: Seq<char>) -> Option<Seq<char>> {
    let a = prefix_len(line, '\t');
    if a >= line.len() {
        None
    } else {
        let rest = line.skip(a as int + 1);
        Some(rest.take(prefix_len(rest, '\t') as int))
    }
}

/// The second tab-separated field of a line.
pub fn get_second_field(line: &Vec<char>) -> (r: Option<Vec<char>>)
    ensures
        match r {
            Some(f) => second_field(line@) == Some(f@),
            None => second_field(line@) is None,
        },
{
    let a = find_char(line, 0, '\t');
    proof {
        assert(line@.skip(0) =~= line@);
    }
    if a >= line.len() {
        return None;
    }
    let b = find_char(line, a + 1, '\t');
    let field = copy_range(line, a + 1, b);
    proof {
        let rest = line@.skip(a + 1);
        assert(rest.take(b - (a + 1)) =~= line@.subrange(a + 1, b as int));
    }
    Some(field)
}

} // verus!
