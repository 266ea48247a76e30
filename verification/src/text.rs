//! Character-level helpers shared by the line classifier, the hunk parser and
//! the report renderer. Text is modelled as `Seq<char>`.

use vstd::prelude::*;

verus! {

/// Whether `c` has the Unicode `White_Space` property: the characters
/// U+0009 to U+000D, U+0020, U+0085, U+00A0, U+1680, U+2000 to U+200A,
/// U+2028, U+2029, U+202F, U+205F and U+3000.
pub open spec fn white_space(c: char) -> bool {
    let n = c as u32;
    ||| 0x09 <= n <= 0x0D
    ||| n == 0x20
    ||| n == 0x85
    ||| n == 0xA0
    ||| n == 0x1680
    ||| 0x2000 <= n <= 0x200A
    ||| n == 0x2028
    ||| n == 0x2029
    ||| n == 0x202F
    ||| n == 0x205F
    ||| n == 0x3000
}

/// `char::is_whitespace` of std tells whether a character has the Unicode
/// `White_Space` property, which is what [`white_space`] states.
pub assume_specification[ char::is_whitespace ](c: char) -> (b: bool)
    ensures
        b == white_space(c),
;

/// `String::push` of std appends the given character to the end of the string.
pub assume_specification[ String::push ](s: &mut String, c: char)
    ensures
        final(s)@ == old(s)@.push(c),
;

/// The characters of `s`, in order.
pub fn chars_of(s: &str) -> (v: Vec<char>)
    ensures
        v@ == s@,
{
    let mut v: Vec<char> = Vec::new();
    for c in it: s.chars()
        invariant
            it.seq() == s@,
            v@ == it.seq().take(it.index()),
    {
        v.push(c);
    }
    v
}

/// The string made of the characters of `chars`, in order.
pub fn string_of(chars: &[char]) -> (s: String)
    ensures
        s@ == chars@,
{
    let mut s = String::new();
    let mut i: usize = 0;
    while i < chars.len()
        invariant
            i <= chars.len(),
            s@ == chars@.take(i as int),
        decreases chars.len() - i,
    {
        s.push(chars[i]);
        i += 1;
        assert(chars@.take(i as int) == chars@.take(i - 1).push(chars@[i - 1]));
    }
    s
}

/// The characters of `s` from position `from` up to, not including, `to`.
pub fn slice_of(s: &[char], from: usize, to: usize) -> (v: Vec<char>)
    requires
        from <= to <= s.len(),
    ensures
        v@ == s@.subrange(from as int, to as int),
{
    let mut v: Vec<char> = Vec::new();
    let mut i: usize = from;
    while i < to
        invariant
            from <= i <= to <= s.len(),
            v@ == s@.subrange(from as int, i as int),
        decreases to - i,
    {
        v.push(s[i]);
        i += 1;
        assert(s@.subrange(from as int, i as int) == s@.subrange(from as int, i - 1).push(
            s@[i - 1],
        ));
    }
    v
}

/// `s` without its leading white space.
pub open spec fn trim_start(s: Seq<char>) -> Seq<char>
    decreases s.len(),
{
    if s.len() > 0 && white_space(s[0]) {
        trim_start(s.drop_first())
    } else {
        s
    }
}

/// `s` without its trailing white space.
pub open spec fn trim_end(s: Seq<char>) -> Seq<char>
    decreases s.len(),
{
    if s.len() > 0 && white_space(s.last()) {
        trim_end(s.drop_last())
    } else {
        s
    }
}

/// `s` without leading and trailing white space.
pub open spec fn trim(s: Seq<char>) -> Seq<char> {
    trim_end(trim_start(s))
}

/// A line is blank when nothing is left of it after trimming.
pub open spec fn is_blank(s: Seq<char>) -> bool {
    trim(s).len() == 0
}

/// Trims a text: the text without leading and trailing white space.
pub fn trimmed(s: &[char]) -> (v: Vec<char>)
    ensures
        v@ == trim(s@),
{
    let n = s.len();
    let mut a: usize = 0;
    assert(s@.skip(0) == s@);
    while a < n && s[a].is_whitespace()
        invariant
            a <= n == s.len(),
            trim_start(s@) == trim_start(s@.skip(a as int)),
        decreases n - a,
    {
        assert(s@.skip(a as int).drop_first() == s@.skip(a + 1));
        a += 1;
    }
    assert(trim_start(s@) == s@.skip(a as int));
    let mut b: usize = n;
    while b > a && s[b - 1].is_whitespace()
        invariant
            a <= b <= n == s.len(),
            trim(s@) == trim_end(s@.subrange(a as int, b as int)),
        decreases b,
    {
        assert(s@.subrange(a as int, b as int).drop_last() == s@.subrange(a as int, b - 1));
        b -= 1;
    }
    slice_of(s, a, b)
}

/// Whether `pat` occurs in `s` at position `i`.
pub open spec fn occurs_at(s: Seq<char>, pat: Seq<char>, i: int) -> bool {
    0 <= i && i + pat.len() <= s.len() && s.subrange(i, i + pat.len()) == pat
}

/// Whether `pat` occurs in `s` at position `i`.
pub fn matches_at(s: &[char], pat: &[char], i: usize) -> (b: bool)
    ensures
        b == occurs_at(s@, pat@, i as int),
{
    if pat.len() > s.len() || i > s.len() - pat.len() {
        return false;
    }
    let mut k: usize = 0;
    while k < pat.len()
        invariant
            k <= pat.len(),
            i + pat.len() <= s.len(),
            s@.subrange(i as int, i + k) == pat@.take(k as int),
        decreases pat.len() - k,
    {
        if s[i + k] != pat[k] {
            proof {
                let w = s@.subrange(i as int, i + pat.len());
                assert(w[k as int] != pat@[k as int]);
            }
            return false;
        }
        k += 1;
        assert(s@.subrange(i as int, i + k) == s@.subrange(i as int, i + k - 1).push(
            s@[i + k - 1],
        ));
        assert(pat@.take(k as int) == pat@.take(k - 1).push(pat@[k - 1]));
    }
    assert(pat@.take(k as int) == pat@);
    true
}

/// Whether `s` starts with `pat`.
pub fn starts_with(s: &[char], pat: &[char]) -> (b: bool)
    ensures
        b == pat@.is_prefix_of(s@),
{
    let b = matches_at(s, pat, 0);
    proof {
        if pat@.len() <= s@.len() {
            assert(s@.subrange(0, pat@.len() as int) == s@.take(pat@.len() as int));
        }
    }
    b
}

/// Whether `s` ends with `pat`.
pub fn ends_with(s: &[char], pat: &[char]) -> (b: bool)
    ensures
        b == pat@.is_suffix_of(s@),
{
    if pat.len() > s.len() {
        return false;
    }
    let b = matches_at(s, pat, s.len() - pat.len());
    proof {
        assert(s@.subrange(s@.len() - pat@.len(), s@.len() as int) == s@.skip(
            s@.len() - pat@.len(),
        ));
    }
    b
}

/// The first position at or after `i` where `pat` occurs in `s`.
pub open spec fn find_from(s: Seq<char>, pat: Seq<char>, i: int) -> Option<int>
    decreases s.len() + 1 - i,
{
    if i < 0 || i > s.len() - pat.len() {
        None
    } else if occurs_at(s, pat, i) {
        Some(i)
    } else {
        find_from(s, pat, i + 1)
    }
}

/// The first position where `pat` occurs in `s`.
pub open spec fn find(s: Seq<char>, pat: Seq<char>) -> Option<int> {
    find_from(s, pat, 0)
}

/// Whether `pat` occurs somewhere in `s`.
pub open spec fn contains(s: Seq<char>, pat: Seq<char>) -> bool {
    find(s, pat) is Some
}

/// Finds the first position at or after `from` where `pat` occurs in `s`.
pub fn find_in(s: &[char], pat: &[char], from: usize) -> (r: Option<usize>)
    ensures
        r is Some == find_from(s@, pat@, from as int) is Some,
        r matches Some(p) ==> find_from(s@, pat@, from as int) == Some(p as int) && from <= p
            && p + pat.len() <= s.len(),
{
    if pat.len() > s.len() {
        return None;
    }
    let last = s.len() - pat.len();
    let mut i: usize = from;
    while i <= last
        invariant
            from <= i,
            last == s.len() - pat.len(),
            find_from(s@, pat@, from as int) == find_from(s@, pat@, i as int),
        decreases last + 1 - i,
    {
        if matches_at(s, pat, i) {
            return Some(i);
        }
        if i == last {
            assert(find_from(s@, pat@, i + 1) is None);
            return None;
        }
        i += 1;
    }
    None
}

/// Whether `pat` occurs somewhere in `s`.
pub fn includes(s: &[char], pat: &[char]) -> (b: bool)
    ensures
        b == contains(s@, pat@),
{
    find_in(s, pat, 0).is_some()
}

/// The lines of a file, each as its sequence of characters.
pub open spec fn texts(lines: Seq<String>) -> Seq<Seq<char>> {
    Seq::new(lines.len(), |i: int| lines[i]@)
}

/// The first position at or after `i` that holds `c`, or the length of `s`
/// where there is none.
pub open spec fn next_char(s: Seq<char>, c: char, i: int) -> int
    decreases s.len() - i,
{
    if i < 0 || i >= s.len() {
        s.len() as int
    } else if s[i] == c {
        i
    } else {
        next_char(s, c, i + 1)
    }
}

/// [`next_char`] lies between `i` and the length of `s`, and points at `c`
/// where it lies before the end.
pub proof fn lemma_next_char_bounds(s: Seq<char>, c: char, i: int)
    requires
        0 <= i <= s.len(),
    ensures
        i <= next_char(s, c, i) <= s.len(),
        next_char(s, c, i) < s.len() ==> s[next_char(s, c, i)] == c,
    decreases s.len() - i,
{
    if i < s.len() && s[i] != c {
        lemma_next_char_bounds(s, c, i + 1);
    }
}

/// Finds the first position at or after `from` that holds `c`.
pub fn position_of(s: &[char], c: char, from: usize) -> (p: usize)
    requires
        from <= s.len(),
    ensures
        p == next_char(s@, c, from as int),
        from <= p <= s.len(),
{
    let mut p: usize = from;
    while p < s.len() && s[p] != c
        invariant
            from <= p <= s.len(),
            next_char(s@, c, from as int) == next_char(s@, c, p as int),
        decreases s.len() - p,
    {
        p += 1;
    }
    p
}

/// `s` without one trailing carriage return.
pub open spec fn strip_cr(s: Seq<char>) -> Seq<char> {
    if s.len() > 0 && s.last() == '\r' {
        s.drop_last()
    } else {
        s
    }
}

/// The lines of `s` from position `start` on. A line ends at a line feed; the
/// line feed and a carriage return just before it are not part of the line.
/// What follows the last line feed is a line only if it is not empty.
pub open spec fn lines_from(s: Seq<char>, start: int) -> Seq<Seq<char>>
    decreases s.len() - start,
{
    if start < 0 || start >= s.len() {
        Seq::empty()
    } else {
        let end = next_char(s, '\n', start);
        if end >= s.len() {
            seq![s.subrange(start, s.len() as int)]
        } else {
            proof {
                lemma_next_char_bounds(s, '\n', start);
            }
            seq![strip_cr(s.subrange(start, end))] + lines_from(s, end + 1)
        }
    }
}

/// The lines of a text.
pub open spec fn text_lines(s: Seq<char>) -> Seq<Seq<char>> {
    lines_from(s, 0)
}

/// Splits a text into its lines.
pub fn split_lines(text: &str) -> (lines: Vec<String>)
    ensures
        texts(lines@) == text_lines(text@),
{
    let s = chars_of(text);
    let n = s.len();
    let mut lines: Vec<String> = Vec::new();
    let mut start: usize = 0;
    assert(texts(lines@) + lines_from(s@, 0) == lines_from(s@, 0));
    while start < n
        invariant
            start <= n == s.len(),
            texts(lines@) + lines_from(s@, start as int) == text_lines(s@),
        decreases n - start,
    {
        let end = position_of(s.as_slice(), '\n', start);
        let ghost before = texts(lines@);
        let ghost rest = lines_from(s@, start as int);
        if end == n {
            let piece = slice_of(s.as_slice(), start, n);
            lines.push(string_of(piece.as_slice()));
            assert(texts(lines@) == before.push(piece@));
            assert(rest == seq![piece@]);
            start = n;
            assert(before.push(piece@) + lines_from(s@, start as int) == before + rest);
        } else {
            let mut stop = end;
            if stop > start && s[stop - 1] == '\r' {
                stop -= 1;
            }
            let piece = slice_of(s.as_slice(), start, stop);
            assert(piece@ == strip_cr(s@.subrange(start as int, end as int)));
            lines.push(string_of(piece.as_slice()));
            assert(texts(lines@) == before.push(piece@));
            start = end + 1;
            assert(rest == seq![piece@] + lines_from(s@, start as int));
            assert(before.push(piece@) + lines_from(s@, start as int) == before + rest);
        }
    }
    assert(texts(lines@) + Seq::<Seq<char>>::empty() == texts(lines@));
    lines
}

/// Whether two texts hold the same characters.
pub fn same(a: &[char], b: &[char]) -> (r: bool)
    ensures
        r == (a@ == b@),
{
    if a.len() != b.len() {
        return false;
    }
    let mut i: usize = 0;
    while i < a.len()
        invariant
            i <= a.len() == b.len(),
            a@.take(i as int) == b@.take(i as int),
        decreases a.len() - i,
    {
        if a[i] != b[i] {
            return false;
        }
        i += 1;
        assert(a@.take(i as int) == a@.take(i - 1).push(a@[i - 1]));
        assert(b@.take(i as int) == b@.take(i - 1).push(b@[i - 1]));
    }
    assert(a@.take(i as int) == a@);
    assert(b@.take(i as int) == b@);
    true
}

/// Whether two strings hold the same characters.
pub fn same_text(a: &str, b: &str) -> (r: bool)
    ensures
        r == (a@ == b@),
{
    same(chars_of(a).as_slice(), chars_of(b).as_slice())
}

} // verus!
