//! Hunk headers of a unified diff: `@@ -old_start,old_count +new_start,new_count @@`.

use crate::text::{chars_of, find, find_in, next_char, position_of, slice_of, white_space};
use vstd::prelude::*;

verus! {

/// The value of a decimal digit, or `None` for any other character.
pub open spec fn digit_value(c: char) -> Option<nat> {
    if '0' <= c && c <= '9' {
        Some((c as int - '0' as int) as nat)
    } else {
        None
    }
}

/// Whether every character of `s` is a decimal digit.
pub open spec fn all_digits(s: Seq<char>) -> bool {
    forall|i: int| 0 <= i < s.len() ==> (#[trigger] digit_value(s[i])) is Some
}

/// The number that the digits of `s` write in base ten.
pub open spec fn decimal(s: Seq<char>) -> nat
    decreases s.len(),
{
    if s.len() == 0 {
        0
    } else {
        decimal(s.drop_last()) * 10 + match digit_value(s.last()) {
            Some(d) => d,
            None => 0,
        }
    }
}

/// The number that `s` writes: an optional `+`, then one or more decimal
/// digits and nothing else.
pub open spec fn parse_number(s: Seq<char>) -> Option<nat> {
    let digits = if s.len() > 0 && s[0] == '+' {
        s.drop_first()
    } else {
        s
    };
    if digits.len() > 0 && all_digits(digits) {
        Some(decimal(digits))
    } else {
        None
    }
}

/// The number that `s` writes, where it fits in a `usize`.
pub open spec fn parse_usize(s: Seq<char>) -> Option<usize> {
    match parse_number(s) {
        Some(v) => if v <= usize::MAX {
            Some(v as usize)
        } else {
            None
        },
        None => None,
    }
}

/// A number does not get smaller when more digits follow.
pub proof fn lemma_decimal_prefix(s: Seq<char>, k: int)
    requires
        0 <= k <= s.len(),
    ensures
        decimal(s.take(k)) <= decimal(s),
    decreases s.len() - k,
{
    if k == s.len() {
        assert(s.take(k) == s);
    } else {
        lemma_decimal_prefix(s.drop_last(), k);
        assert(s.drop_last().take(k) == s.take(k));
    }
}

/// The value of a decimal digit.
fn digit_of(c: char) -> (d: Option<usize>)
    ensures
        d is Some == digit_value(c) is Some,
        d matches Some(v) ==> digit_value(c) == Some(v as nat) && v <= 9,
{
    let x: u32 = c as u32;
    if 48 <= x && x <= 57 {
        Some((x - 48) as usize)
    } else {
        None
    }
}

/// Reads a number as [`parse_usize`] defines it.
pub fn read_usize(s: &[char]) -> (r: Option<usize>)
    ensures
        r == parse_usize(s@),
{
    let n = s.len();
    let first: usize = if n > 0 && s[0] == '+' {
        1
    } else {
        0
    };
    let ghost digits = if s@.len() > 0 && s@[0] == '+' {
        s@.drop_first()
    } else {
        s@
    };
    assert(digits == s@.skip(first as int));
    if first == n {
        return None;
    }
    let mut value: usize = 0;
    let mut i: usize = first;
    assert(digits.take(0) == Seq::<char>::empty());
    while i < n
        invariant
            first <= i <= n == s.len(),
            digits == s@.skip(first as int),
            digits.len() > 0,
            parse_number(s@) == if all_digits(digits) {
                Some(decimal(digits))
            } else {
                None
            },
            all_digits(digits.take(i - first)),
            value == decimal(digits.take(i - first)),
        decreases n - i,
    {
        let ghost seen = digits.take(i - first);
        let ghost more = digits.take(i + 1 - first);
        assert(more.drop_last() == seen);
        assert(more.last() == s@[i as int]);
        match digit_of(s[i]) {
            None => {
                assert(digit_value(digits[i - first]) is None);
                return None;
            },
            Some(d) => {
                assert(all_digits(more)) by {
                    assert forall|j: int| 0 <= j < more.len() implies (#[trigger] digit_value(
                        more[j],
                    )) is Some by {
                        if j < seen.len() {
                            assert(more[j] == seen[j]);
                        }
                    }
                }
                let next = match value.checked_mul(10) {
                    Some(m) => m.checked_add(d),
                    None => None,
                };
                match next {
                    Some(v) => {
                        value = v;
                    },
                    None => {
                        proof {
                            assert(decimal(more) > usize::MAX);
                            lemma_decimal_prefix(digits, i + 1 - first);
                        }
                        return None;
                    },
                }
                i += 1;
            },
        }
    }
    assert(digits.take(n - first) == digits);
    Some(value)
}

/// What stands between the first `@@` of a line and the next one, or the end
/// of the line where no second `@@` follows.
pub open spec fn hunk_details(line: Seq<char>) -> Option<Seq<char>> {
    match find(line, "@@"@) {
        None => None,
        Some(p) => {
            let rest = line.skip(p + "@@"@.len());
            match find(rest, "@@"@) {
                None => Some(rest),
                Some(q) => Some(rest.take(q)),
            }
        },
    }
}

/// The first position at or after `i` that holds white space, or the length
/// of `s` where there is none.
pub open spec fn token_end(s: Seq<char>, i: int) -> int
    decreases s.len() - i,
{
    if i < 0 || i >= s.len() {
        s.len() as int
    } else if white_space(s[i]) {
        i
    } else {
        token_end(s, i + 1)
    }
}

/// [`token_end`] lies between `i` and the length of `s`, and beyond `i` where
/// a word starts at `i`.
pub proof fn lemma_token_end_bounds(s: Seq<char>, i: int)
    requires
        0 <= i <= s.len(),
    ensures
        i <= token_end(s, i) <= s.len(),
        i < s.len() && !white_space(s[i]) ==> i < token_end(s, i),
    decreases s.len() - i,
{
    if i < s.len() && !white_space(s[i]) {
        lemma_token_end_bounds(s, i + 1);
    }
}

/// The first of the words of `s` found from position `i` on that starts with
/// `+`. Words are what white space separates.
pub open spec fn plus_token(s: Seq<char>, i: int) -> Option<Seq<char>>
    decreases s.len() - i,
{
    if i < 0 || i >= s.len() {
        None
    } else if white_space(s[i]) {
        plus_token(s, i + 1)
    } else if s[i] == '+' {
        Some(s.subrange(i, token_end(s, i)))
    } else {
        proof {
            lemma_token_end_bounds(s, i);
        }
        plus_token(s, token_end(s, i))
    }
}

/// `s` without its leading `+` signs.
pub open spec fn strip_plus(s: Seq<char>) -> Seq<char>
    decreases s.len(),
{
    if s.len() > 0 && s[0] == '+' {
        strip_plus(s.drop_first())
    } else {
        s
    }
}

/// The first line and the number of lines that a `+new_start[,new_count]`
/// word names, the `+` signs taken off: the count is 1 where no comma follows
/// the first number, and what follows a second comma is not read.
pub open spec fn range_of_word(info: Seq<char>) -> Option<(usize, usize)> {
    let comma = next_char(info, ',', 0);
    let start = parse_usize(info.take(comma));
    let count = if comma < info.len() {
        let rest = info.skip(comma + 1);
        parse_usize(rest.take(next_char(rest, ',', 0)))
    } else {
        Some(1usize)
    };
    match (start, count) {
        (Some(first), Some(n)) => if first + n <= usize::MAX {
            Some((first, n))
        } else {
            None
        },
        _ => None,
    }
}

/// The range of new lines that a hunk header names, as its first line and
/// its number of lines.
///
/// `None` where the line holds no `@@`, no word that starts with `+`, or
/// numbers that cannot be read, and where the last line of the range would
/// not fit in a `usize`.
pub open spec fn hunk_range(line: Seq<char>) -> Option<(usize, usize)> {
    match hunk_details(line) {
        None => None,
        Some(details) => match plus_token(details, 0) {
            None => None,
            Some(word) => range_of_word(strip_plus(word)),
        },
    }
}

/// Cuts out what stands between the first two `@@` of a line.
fn details_of(line: &[char]) -> (r: Option<Vec<char>>)
    ensures
        r is Some == hunk_details(line@) is Some,
        r matches Some(d) ==> hunk_details(line@) == Some(d@),
{
    let marker = chars_of("@@");
    match find_in(line, marker.as_slice(), 0) {
        None => None,
        Some(p) => {
            let rest = slice_of(line, p + marker.len(), line.len());
            assert(rest@ == line@.skip(p + marker@.len()));
            match find_in(rest.as_slice(), marker.as_slice(), 0) {
                None => Some(rest),
                Some(q) => {
                    let d = slice_of(rest.as_slice(), 0, q);
                    assert(d@ == rest@.take(q as int));
                    Some(d)
                },
            }
        },
    }
}

/// Finds the first word that starts with `+`.
fn plus_word(s: &[char]) -> (r: Option<Vec<char>>)
    ensures
        r is Some == plus_token(s@, 0) is Some,
        r matches Some(w) ==> plus_token(s@, 0) == Some(w@),
{
    let n = s.len();
    let mut i: usize = 0;
    while i < n
        invariant
            i <= n == s.len(),
            plus_token(s@, 0) == plus_token(s@, i as int),
        decreases n - i,
    {
        if s[i].is_whitespace() {
            i += 1;
        } else {
            let mut e: usize = i;
            while e < n && !s[e].is_whitespace()
                invariant
                    i <= e <= n == s.len(),
                    token_end(s@, i as int) == token_end(s@, e as int),
                decreases n - e,
            {
                e += 1;
            }
            if s[i] == '+' {
                return Some(slice_of(s, i, e));
            }
            proof {
                lemma_token_end_bounds(s@, i as int);
            }
            i = e;
        }
    }
    None
}

/// Takes the leading `+` signs off a word.
fn without_plus(s: &[char]) -> (r: Vec<char>)
    ensures
        r@ == strip_plus(s@),
{
    let n = s.len();
    let mut i: usize = 0;
    assert(s@.skip(0) == s@);
    while i < n && s[i] == '+'
        invariant
            i <= n == s.len(),
            strip_plus(s@) == strip_plus(s@.skip(i as int)),
        decreases n - i,
    {
        assert(s@.skip(i as int).drop_first() == s@.skip(i + 1));
        i += 1;
    }
    slice_of(s, i, n)
}

/// Reads the first line and the number of lines from a word.
fn word_range(info: &[char]) -> (r: Option<(usize, usize)>)
    ensures
        r == range_of_word(info@),
{
    let n = info.len();
    let comma = position_of(info, ',', 0);
    let start_text = slice_of(info, 0, comma);
    assert(start_text@ == info@.take(comma as int));
    let start = read_usize(start_text.as_slice());
    let count = if comma < n {
        let rest = slice_of(info, comma + 1, n);
        assert(rest@ == info@.skip(comma + 1));
        let stop = position_of(rest.as_slice(), ',', 0);
        let count_text = slice_of(rest.as_slice(), 0, stop);
        assert(count_text@ == rest@.take(stop as int));
        read_usize(count_text.as_slice())
    } else {
        Some(1)
    };
    match (start, count) {
        (Some(first), Some(k)) => match first.checked_add(k) {
            Some(_) => Some((first, k)),
            None => None,
        },
        _ => None,
    }
}

/// Reads the range of new lines that a hunk header names.
pub fn read_hunk_range(line: &[char]) -> (r: Option<(usize, usize)>)
    ensures
        r == hunk_range(line@),
{
    match details_of(line) {
        None => None,
        Some(details) => match plus_word(details.as_slice()) {
            None => None,
            Some(word) => {
                let info = without_plus(word.as_slice());
                word_range(info.as_slice())
            },
        },
    }
}

} // verus!
