//! Line classifier: tells blank lines, comment lines and lines inside block
//! comments from executable ones.
//!
//! Only double-quoted string literals are tracked when looking for comment
//! markers; single-quoted and template literals are not.

use crate::text::{chars_of, ends_with, is_blank, starts_with, texts, trim, trimmed};
use vstd::prelude::*;

verus! {

/// What a physical source line is, as far as patch coverage is concerned.
#[derive(Clone, Copy, Debug, PartialEq, Eq, Structural)]
pub enum LineKind {
    /// Nothing but white space.
    Blank,
    /// A `//` comment, or a `/* .. */` comment that is alone on its line.
    CommentOnly,
    /// Inside a block comment, or opening or closing one.
    InBlockComment,
    /// Anything else.
    Executable,
}

/// The state of the comment scanner.
#[derive(Clone, Copy, Debug, PartialEq, Eq, Structural)]
pub struct Scan {
    /// Inside a double-quoted string literal.
    pub in_string: bool,
    /// Inside a block comment.
    pub in_block: bool,
    /// The previous character was a backslash inside a string literal.
    pub escaped: bool,
    /// The current line has opened a block comment.
    pub opened: bool,
    /// The current line has closed a block comment.
    pub closed: bool,
}

/// The scanner's state before the first line of a file.
pub open spec fn initial_scan() -> Scan {
    Scan { in_string: false, in_block: false, escaped: false, opened: false, closed: false }
}

/// The state in which the scan of a line starts when the line before it ended
/// in `prev`: string and block-comment state carry over, the rest is reset.
pub open spec fn line_start(prev: Scan) -> Scan {
    Scan {
        in_string: prev.in_string,
        in_block: prev.in_block,
        escaped: false,
        opened: false,
        closed: false,
    }
}

/// The state after scanning `line` from position `i` on, starting in `st`.
///
/// An escaped character is skipped. A backslash inside a string escapes the
/// next character. A double quote outside a block comment opens or closes a
/// string. Inside a string nothing else counts. Outside, `/*` opens a block
/// comment, `//` ends the scan of the line, and `*/` closes a block comment.
pub open spec fn scan_from(line: Seq<char>, i: int, st: Scan) -> Scan
    decreases line.len() - i,
{
    if i < 0 || i >= line.len() {
        st
    } else {
        let ch = line[i];
        let followed_by = |c: char| i + 1 < line.len() && line[i + 1] == c;
        if st.escaped {
            scan_from(line, i + 1, Scan { escaped: false, ..st })
        } else if ch == '\\' && st.in_string {
            scan_from(line, i + 1, Scan { escaped: true, ..st })
        } else if ch == '"' && !st.in_block {
            scan_from(line, i + 1, Scan { in_string: !st.in_string, ..st })
        } else if st.in_string {
            scan_from(line, i + 1, st)
        } else if !st.in_block && ch == '/' && followed_by('*') {
            scan_from(line, i + 2, Scan { in_block: true, opened: true, ..st })
        } else if !st.in_block && ch == '/' && followed_by('/') {
            st
        } else if st.in_block && ch == '*' && followed_by('/') {
            scan_from(line, i + 2, Scan { in_block: false, closed: true, ..st })
        } else {
            scan_from(line, i + 1, st)
        }
    }
}

/// The state after scanning the whole of `line`, the line before it having
/// ended in `prev`.
pub open spec fn scan_line(line: Seq<char>, prev: Scan) -> Scan {
    scan_from(line, 0, line_start(prev))
}

/// The state after scanning the first `n` lines of a file.
pub open spec fn scan_lines(lines: Seq<Seq<char>>, n: int) -> Scan
    decreases n,
{
    if n <= 0 || n > lines.len() {
        initial_scan()
    } else {
        scan_line(lines[n - 1], scan_lines(lines, n - 1))
    }
}

/// Whether line `index` (counted from 0) is inside a block comment when it
/// starts, or opens or closes one.
pub open spec fn in_block_comment(lines: Seq<Seq<char>>, index: int) -> bool {
    0 <= index < lines.len() && {
        let before = scan_lines(lines, index);
        let after = scan_line(lines[index], before);
        before.in_block || after.opened || after.closed
    }
}

/// Whether a line, once trimmed, is a `//` comment or a block comment that
/// opens and closes on it and holds more than the overlapping markers `/*/`.
pub open spec fn entirely_comment(line: Seq<char>) -> bool {
    let t = trim(line);
    "//"@.is_prefix_of(t) || ("/*"@.is_prefix_of(t) && "*/"@.is_suffix_of(t) && t.len() > 3)
}

/// The kind of line `index` (counted from 0) of a file, or `None` where the
/// file has no such line.
pub open spec fn line_kind(lines: Seq<Seq<char>>, index: int) -> Option<LineKind> {
    if !(0 <= index < lines.len()) {
        None
    } else if is_blank(lines[index]) {
        Some(LineKind::Blank)
    } else if entirely_comment(lines[index]) {
        Some(LineKind::CommentOnly)
    } else if in_block_comment(lines, index) {
        Some(LineKind::InBlockComment)
    } else {
        Some(LineKind::Executable)
    }
}

/// Scans one line.
pub fn scan_chars(line: &[char], prev: Scan) -> (st: Scan)
    ensures
        st == scan_line(line@, prev),
{
    let n = line.len();
    let mut st = Scan {
        in_string: prev.in_string,
        in_block: prev.in_block,
        escaped: false,
        opened: false,
        closed: false,
    };
    let mut i: usize = 0;
    while i < n
        invariant
            i <= n == line.len(),
            scan_line(line@, prev) == scan_from(line@, i as int, st),
        decreases n - i,
    {
        let ch = line[i];
        if st.escaped {
            st.escaped = false;
            i += 1;
        } else if ch == '\\' && st.in_string {
            st.escaped = true;
            i += 1;
        } else if ch == '"' && !st.in_block {
            st.in_string = !st.in_string;
            i += 1;
        } else if st.in_string {
            i += 1;
        } else if !st.in_block && ch == '/' && i + 1 < n && line[i + 1] == '*' {
            st.in_block = true;
            st.opened = true;
            i += 2;
        } else if !st.in_block && ch == '/' && i + 1 < n && line[i + 1] == '/' {
            return st;
        } else if st.in_block && ch == '*' && i + 1 < n && line[i + 1] == '/' {
            st.in_block = false;
            st.closed = true;
            i += 2;
        } else {
            i += 1;
        }
    }
    st
}

/// Check if a line is inside a block comment: whether line `line_index`
/// (counted from 0) starts inside one, opens one or closes one. A line that
/// the file does not have is in none.
pub fn is_line_in_block_comment(file_content_lines: &[String], line_index: usize) -> (r: bool)
    ensures
        r == in_block_comment(texts(file_content_lines@), line_index as int),
{
    if line_index >= file_content_lines.len() {
        return false;
    }
    let ghost lines = texts(file_content_lines@);
    let mut st = Scan {
        in_string: false,
        in_block: false,
        escaped: false,
        opened: false,
        closed: false,
    };
    let mut idx: usize = 0;
    while idx < line_index
        invariant
            idx <= line_index < file_content_lines.len(),
            lines == texts(file_content_lines@),
            st == scan_lines(lines, idx as int),
        decreases line_index - idx,
    {
        let chars = chars_of(file_content_lines[idx].as_str());
        st = scan_chars(chars.as_slice(), st);
        idx += 1;
    }
    let chars = chars_of(file_content_lines[line_index].as_str());
    let after = scan_chars(chars.as_slice(), st);
    st.in_block || after.opened || after.closed
}

/// Check if a line is entirely a comment (single-line or block comment on the
/// same line).
pub fn is_line_entirely_comment(line_content: &str) -> (r: bool)
    ensures
        r == entirely_comment(line_content@),
{
    let chars = chars_of(line_content);
    let t = trimmed(chars.as_slice());
    let line_marker = chars_of("//");
    let open_marker = chars_of("/*");
    let close_marker = chars_of("*/");
    if starts_with(t.as_slice(), line_marker.as_slice()) {
        return true;
    }
    starts_with(t.as_slice(), open_marker.as_slice()) && ends_with(
        t.as_slice(),
        close_marker.as_slice(),
    ) && t.len() > 3
}

/// Whether a line holds nothing but white space.
pub fn is_line_blank(line_content: &str) -> (r: bool)
    ensures
        r == is_blank(line_content@),
{
    let chars = chars_of(line_content);
    let t = trimmed(chars.as_slice());
    t.len() == 0
}

/// Classifies line `index` (counted from 0) of a file given as its lines.
pub fn classify(lines: &[String], index: usize) -> (kind: Option<LineKind>)
    ensures
        kind == line_kind(texts(lines@), index as int),
{
    if index >= lines.len() {
        None
    } else if is_line_blank(lines[index].as_str()) {
        Some(LineKind::Blank)
    } else if is_line_entirely_comment(lines[index].as_str()) {
        Some(LineKind::CommentOnly)
    } else if is_line_in_block_comment(lines, index) {
        Some(LineKind::InBlockComment)
    } else {
        Some(LineKind::Executable)
    }
}

} // verus!
