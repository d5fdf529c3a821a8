//! Text as sequences of characters: scanning, slicing, trimming, lines.
//!
//! Every function here states its result over the characters of its argument.
//! The one thing taken on trust is which characters count as whitespace.

use vstd::prelude::*;

verus! {

/// What `char::is_whitespace` answers for a character: whether it has the
/// Unicode property `White_Space`.
pub uninterp spec fn white_space(c: char) -> bool;

/// Calls `char::is_whitespace` of the standard library. Trusted: the answer is
/// the one that [`white_space`] names; nothing more is claimed of it.
#[verifier::external_body]
pub(crate) fn is_whitespace(c: char) -> (res: bool)
    ensures
        res == white_space(c),
{
    c.is_whitespace()
}

/// The first position at or after `from` that holds no whitespace, or the
/// length of `s` when only whitespace follows.
pub open spec fn skip_spaces(s: Seq<char>, from: int) -> int
    decreases s.len() - from,
{
    if 0 <= from < s.len() && white_space(s[from]) {
        skip_spaces(s, from + 1)
    } else {
        from
    }
}

/// The first position at or after `from` that holds whitespace, or the length
/// of `s` when none follows.
pub open spec fn skip_word(s: Seq<char>, from: int) -> int
    decreases s.len() - from,
{
    if 0 <= from < s.len() && !white_space(s[from]) {
        skip_word(s, from + 1)
    } else {
        from
    }
}

/// The end of `s[..end]` once the whitespace at its end is taken away.
pub open spec fn skip_spaces_back(s: Seq<char>, end: int) -> int
    decreases end,
{
    if 0 < end <= s.len() && white_space(s[end - 1]) {
        skip_spaces_back(s, end - 1)
    } else {
        end
    }
}

/// `s` without the whitespace at its two ends.
pub open spec fn trimmed(s: Seq<char>) -> Seq<char> {
    let start = skip_spaces(s, 0);
    let end = skip_spaces_back(s, s.len() as int);
    if start < end {
        s.subrange(start, end)
    } else {
        Seq::empty()
    }
}

/// The first position at or after `from` that holds `c`, or the length of `s`.
pub open spec fn find_from(s: Seq<char>, c: char, from: int) -> int
    decreases s.len() - from,
{
    if 0 <= from < s.len() && s[from] != c {
        find_from(s, c, from + 1)
    } else {
        from
    }
}

/// The position just after the last `c` in `s[..end]`, or 0 when there is none.
pub open spec fn after_last(s: Seq<char>, c: char, end: int) -> int
    decreases end,
{
    if 0 < end <= s.len() && s[end - 1] != c {
        after_last(s, c, end - 1)
    } else {
        end
    }
}

/// What follows the last `/` of `s`; all of `s` when it holds none.
pub open spec fn last_segment_of(s: Seq<char>) -> Seq<char> {
    s.subrange(after_last(s, '/', s.len() as int), s.len() as int)
}

/// What precedes the first `/` of `s`; all of `s` when it holds none.
pub open spec fn first_segment_of(s: Seq<char>) -> Seq<char> {
    s.subrange(0, find_from(s, '/', 0))
}

/// A line without the carriage return that stood before its line feed.
pub open spec fn without_return(line: Seq<char>) -> Seq<char> {
    if line.len() > 0 && line.last() == '\r' {
        line.drop_last()
    } else {
        line
    }
}

/// The lines of `s` from position `from` on. A line ends at a line feed, which
/// is left out together with a carriage return just before it; what follows
/// the last line feed is a line of its own unless it is empty.
pub open spec fn lines_from(s: Seq<char>, from: int) -> Seq<Seq<char>>
    decreases s.len() - from,
{
    if 0 <= from < s.len() {
        let end = find_from(s, '\n', from);
        if from <= end < s.len() {
            seq![without_return(s.subrange(from, end))] + lines_from(s, end + 1)
        } else {
            seq![s.subrange(from, s.len() as int)]
        }
    } else {
        Seq::empty()
    }
}

/// The lines of `s`.
pub open spec fn lines_of(s: Seq<char>) -> Seq<Seq<char>> {
    lines_from(s, 0)
}

/// What [`find_from`] finds lies between `from` and the end, holds `c` unless
/// it is the end, and nothing before it does.
pub proof fn lemma_find_from_bounds(s: Seq<char>, c: char, from: int)
    requires
        0 <= from <= s.len(),
    ensures
        from <= find_from(s, c, from) <= s.len(),
        find_from(s, c, from) < s.len() ==> s[find_from(s, c, from)] == c,
        forall|i: int| from <= i < find_from(s, c, from) ==> s[i] != c,
    decreases s.len() - from,
{
    if from < s.len() && s[from] != c {
        lemma_find_from_bounds(s, c, from + 1);
    }
}

/// What [`after_last`] finds lies between the beginning and `end`, follows a
/// `c` unless it is the beginning, and nothing from it on holds `c`.
pub proof fn lemma_after_last_bounds(s: Seq<char>, c: char, end: int)
    requires
        0 <= end <= s.len(),
    ensures
        0 <= after_last(s, c, end) <= end,
        after_last(s, c, end) > 0 ==> s[after_last(s, c, end) - 1] == c,
        forall|i: int| after_last(s, c, end) <= i < end ==> s[i] != c,
    decreases end,
{
    if 0 < end && s[end - 1] != c {
        lemma_after_last_bounds(s, c, end - 1);
    }
}

/// The characters of `s`, one by one.
pub fn chars_of(s: &str) -> (out: Vec<char>)
    ensures
        out@ == s@,
{
    let mut out: Vec<char> = Vec::new();
    for c in it: s.chars()
        invariant
            out@ == it.seq().take(it.index()),
            it.seq() == s@,
    {
        out.push(c);
    }
    out
}

/// The part of `s` from character `from` up to, not including, character `to`.
pub(crate) fn slice(s: &str, from: usize, to: usize) -> (out: String)
    requires
        from <= to <= s@.len(),
    ensures
        out@ == s@.subrange(from as int, to as int),
{
    s.substring_char(from, to).to_owned()
}

/// Whether two texts hold the same characters.
pub fn same_text(a: &str, b: &str) -> (res: bool)
    ensures
        res == (a@ == b@),
{
    let x = chars_of(a);
    let y = chars_of(b);
    if x.len() != y.len() {
        return false;
    }
    let n: usize = x.len();
    let mut i: usize = 0;
    while i < n
        invariant
            n == x.len(),
            n == y.len(),
            x@ == a@,
            y@ == b@,
            i <= n,
            forall|k: int| 0 <= k < i ==> x@[k] == y@[k],
        decreases n - i,
    {
        if x[i] != y[i] {
            return false;
        }
        i += 1;
    }
    assert(x@ =~= y@);
    true
}

/// Whether `s` ends in `suffix`.
pub fn ends_with(s: &str, suffix: &str) -> (res: bool)
    ensures
        res == suffix@.is_suffix_of(s@),
{
    let x = chars_of(s);
    let y = chars_of(suffix);
    if y.len() > x.len() {
        return false;
    }
    let n: usize = y.len();
    let base: usize = x.len() - n;
    let mut i: usize = 0;
    while i < n
        invariant
            n == y.len(),
            base + n == x.len(),
            x@ == s@,
            y@ == suffix@,
            i <= n,
            forall|k: int| 0 <= k < i ==> x@[base + k] == y@[k],
        decreases n - i,
    {
        if x[base + i] != y[i] {
            assert(x@.subrange(base as int, x@.len() as int)[i as int] != y@[i as int]);
            return false;
        }
        i += 1;
    }
    assert(y@ =~= x@.subrange(base as int, x@.len() as int));
    true
}

/// Steps over whitespace from `from` on.
pub(crate) fn skip_spaces_in(chars: &Vec<char>, from: usize) -> (to: usize)
    requires
        from <= chars.len(),
    ensures
        to == skip_spaces(chars@, from as int),
        from <= to <= chars.len(),
{
    let mut i: usize = from;
    while i < chars.len() && is_whitespace(chars[i])
        invariant
            from <= i <= chars.len(),
            skip_spaces(chars@, from as int) == skip_spaces(chars@, i as int),
        decreases chars.len() - i,
    {
        i += 1;
    }
    i
}

/// Steps over what is not whitespace from `from` on.
pub(crate) fn skip_word_in(chars: &Vec<char>, from: usize) -> (to: usize)
    requires
        from <= chars.len(),
    ensures
        to == skip_word(chars@, from as int),
        from <= to <= chars.len(),
{
    let mut i: usize = from;
    while i < chars.len() && !is_whitespace(chars[i])
        invariant
            from <= i <= chars.len(),
            skip_word(chars@, from as int) == skip_word(chars@, i as int),
        decreases chars.len() - i,
    {
        i += 1;
    }
    i
}

/// Steps back over whitespace from `end` on.
pub(crate) fn skip_spaces_back_in(chars: &Vec<char>, end: usize) -> (to: usize)
    requires
        end <= chars.len(),
    ensures
        to == skip_spaces_back(chars@, end as int),
        to <= end,
{
    let mut i: usize = end;
    while i > 0 && is_whitespace(chars[i - 1])
        invariant
            i <= end <= chars.len(),
            skip_spaces_back(chars@, end as int) == skip_spaces_back(chars@, i as int),
        decreases i,
    {
        i -= 1;
    }
    i
}

/// Looks for `c` from `from` on.
pub(crate) fn find_in(chars: &Vec<char>, c: char, from: usize) -> (to: usize)
    requires
        from <= chars.len(),
    ensures
        to == find_from(chars@, c, from as int),
        from <= to <= chars.len(),
{
    let mut i: usize = from;
    while i < chars.len() && chars[i] != c
        invariant
            from <= i <= chars.len(),
            find_from(chars@, c, from as int) == find_from(chars@, c, i as int),
        decreases chars.len() - i,
    {
        i += 1;
    }
    i
}

/// `s` without the whitespace at its two ends.
pub fn trim(s: &str) -> (out: String)
    ensures
        out@ == trimmed(s@),
{
    let chars = chars_of(s);
    let start = skip_spaces_in(&chars, 0);
    let end = skip_spaces_back_in(&chars, chars.len());
    if start < end {
        slice(s, start, end)
    } else {
        String::new()
    }
}

/// What follows the last `/` of `s`; all of `s` when it holds none.
pub fn last_segment(s: &str) -> (out: String)
    ensures
        out@ == last_segment_of(s@),
        !out@.contains('/'),
        out@.is_suffix_of(s@),
        out@.len() < s@.len() ==> s@[s@.len() - out@.len() - 1] == '/',
        !s@.contains('/') ==> out@ == s@,
{
    let chars = chars_of(s);
    let n: usize = chars.len();
    let mut i: usize = n;
    while i > 0 && chars[i - 1] != '/'
        invariant
            i <= n,
            n == chars.len(),
            after_last(chars@, '/', n as int) == after_last(chars@, '/', i as int),
        decreases i,
    {
        i -= 1;
    }
    let out = slice(s, i, n);
    proof {
        lemma_after_last_bounds(s@, '/', n as int);
        if out@.contains('/') {
            let k = choose|k: int| 0 <= k < out@.len() && out@[k] == '/';
            assert(s@[i + k] == '/');
        }
        if !s@.contains('/') {
            if i > 0 {
                assert(s@[i - 1] == '/');
                assert(s@.contains('/'));
            }
            assert(out@ =~= s@);
        }
    }
    out
}

/// What precedes the first `/` of `s`; all of `s` when it holds none.
pub fn first_segment(s: &str) -> (out: String)
    ensures
        out@ == first_segment_of(s@),
        !out@.contains('/'),
        out@.is_prefix_of(s@),
        out@.len() < s@.len() ==> s@[out@.len() as int] == '/',
        !s@.contains('/') ==> out@ == s@,
{
    let chars = chars_of(s);
    let end = find_in(&chars, '/', 0);
    let out = slice(s, 0, end);
    proof {
        lemma_find_from_bounds(s@, '/', 0);
        if out@.contains('/') {
            let k = choose|k: int| 0 <= k < out@.len() && out@[k] == '/';
            assert(s@[k] == '/');
        }
        if !s@.contains('/') {
            if end < s@.len() {
                assert(s@[end as int] == '/');
                assert(s@.contains('/'));
            }
            assert(out@ =~= s@);
        }
    }
    out
}

/// A copy of `texts`.
pub fn copy_all(texts: &Vec<String>) -> (out: Vec<String>)
    ensures
        out.deep_view() == texts.deep_view(),
{
    let mut out: Vec<String> = Vec::new();
    let mut i: usize = 0;
    while i < texts.len()
        invariant
            i <= texts.len(),
            out.len() == i,
            forall|k: int| 0 <= k < i ==> out@[k]@ == texts@[k]@,
        decreases texts.len() - i,
    {
        out.push(texts[i].clone());
        i += 1;
    }
    assert(out.deep_view() =~= texts.deep_view());
    out
}

/// A copy of `pairs`.
pub fn copy_pairs(pairs: &Vec<(String, String)>) -> (out: Vec<(String, String)>)
    ensures
        out.deep_view() == pairs.deep_view(),
{
    let mut out: Vec<(String, String)> = Vec::new();
    let mut i: usize = 0;
    while i < pairs.len()
        invariant
            i <= pairs.len(),
            out.len() == i,
            forall|k: int| 0 <= k < i ==> out@[k].deep_view() == pairs@[k].deep_view(),
        decreases pairs.len() - i,
    {
        out.push((pairs[i].0.clone(), pairs[i].1.clone()));
        i += 1;
    }
    assert(out.deep_view() =~= pairs.deep_view());
    out
}

/// The lines of `s`, as [`lines_of`] defines them.
pub fn lines(s: &str) -> (out: Vec<String>)
    ensures
        out.deep_view() == lines_of(s@),
{
    let chars = chars_of(s);
    let n: usize = chars.len();
    let mut out: Vec<String> = Vec::new();
    let mut from: usize = 0;
    assert(out.deep_view() =~= Seq::<Seq<char>>::empty());
    while from < n
        invariant
            from <= n,
            n == chars.len(),
            chars@ == s@,
            out.deep_view() + lines_from(s@, from as int) == lines_of(s@),
        decreases n - from,
    {
        let end = find_in(&chars, '\n', from);
        let ghost before = out.deep_view();
        if end < n {
            let line = if end > from && chars[end - 1] == '\r' {
                slice(s, from, end - 1)
            } else {
                slice(s, from, end)
            };
            assert(line@ =~= without_return(s@.subrange(from as int, end as int)));
            out.push(line);
            assert(out.deep_view() =~= before.push(line@));
            assert(before.push(line@) + lines_from(s@, end + 1) =~= before + lines_from(
                s@,
                from as int,
            ));
            from = end + 1;
        } else {
            let line = slice(s, from, n);
            out.push(line);
            assert(out.deep_view() =~= before.push(line@));
            assert(before.push(line@) + lines_from(s@, n as int) =~= before + lines_from(
                s@,
                from as int,
            ));
            from = n;
        }
    }
    assert(out.deep_view() + lines_from(s@, from as int) =~= out.deep_view());
    out
}

} // verus!
