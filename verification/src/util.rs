//! General helpers.

use crate::text::{chars_of, slice_of, string_of};
use vstd::prelude::*;

verus! {

/// `s` without one trailing line feed, and then without one trailing carriage
/// return.
pub open spec fn without_newline(s: Seq<char>) -> Seq<char> {
    let a = if s.len() > 0 && s.last() == '\n' {
        s.drop_last()
    } else {
        s
    };
    if a.len() > 0 && a.last() == '\r' {
        a.drop_last()
    } else {
        a
    }
}

/// Removes new line characters from the end of the given string.
pub fn trim_newline(line: &mut String)
    ensures
        final(line)@ == without_newline(old(line)@),
{
    let chars = chars_of(line.as_str());
    let mut end: usize = chars.len();
    if end > 0 && chars[end - 1] == '\n' {
        end -= 1;
    }
    if end > 0 && chars[end - 1] == '\r' {
        end -= 1;
    }
    if end < chars.len() {
        let kept = slice_of(chars.as_slice(), 0, end);
        *line = string_of(kept.as_slice());
        assert(chars@.subrange(0, end as int) == without_newline(chars@));
    }
}

} // verus!
