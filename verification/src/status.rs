//! Status of the development environment: how the state of the working tree
//! is shown.

use crate::style::{bold, in_bold};
use crate::text::{
    chars_of, contains, includes, same, slice_of, split_lines, string_of, text_lines, texts,
    trim, trimmed,
};
use vstd::prelude::*;
use vstd::string::StringExecFns;

verus! {

/// The symbol shown for a two-letter status code of `git status --porcelain`,
/// read without its white space.
pub open spec fn status_symbol(code: Seq<char>) -> Seq<char> {
    let letter = trim(code);
    if letter == "M"@ {
        "●"@
    } else if letter == "A"@ {
        "✚"@
    } else if letter == "D"@ {
        "✖"@
    } else if letter == "R"@ {
        "↻"@
    } else if letter == "C"@ {
        "⊕"@
    } else if letter == "U"@ {
        "⚠"@
    } else if letter == "?"@ {
        "?"@
    } else if letter == "!"@ {
        "!"@
    } else {
        " "@
    }
}

/// How one line of `git status --porcelain` is shown: indented by two
/// spaces, the symbol of its status code in bold, then the trimmed path. A
/// line of fewer than two characters is shown as it is, indented.
pub open spec fn status_row(line: Seq<char>) -> Seq<char> {
    if line.len() >= 2 {
        "  "@ + in_bold(status_symbol(line.take(2))) + " "@ + trim(line.skip(2))
    } else {
        "  "@ + line
    }
}

/// The first `n` of the rows, each but the first after a line feed.
pub open spec fn joined(rows: Seq<Seq<char>>, n: int) -> Seq<char>
    decreases n,
{
    if n <= 0 || n > rows.len() {
        Seq::empty()
    } else if n == 1 {
        rows[0]
    } else {
        joined(rows, n - 1) + "\n"@ + rows[n - 1]
    }
}

/// The state of the working tree as it is shown: one row for each line of
/// the output of `git status --porcelain`.
pub open spec fn git_status_text(status: Seq<char>) -> Seq<char> {
    let lines = text_lines(status);
    joined(Seq::new(lines.len(), |i: int| status_row(lines[i])), lines.len() as int)
}

/// The symbol shown for a status code.
fn symbol_of(code: &[char]) -> (r: &'static str)
    ensures
        r@ == status_symbol(code@),
{
    let letter = trimmed(code);
    if same(letter.as_slice(), chars_of("M").as_slice()) {
        "●"
    } else if same(letter.as_slice(), chars_of("A").as_slice()) {
        "✚"
    } else if same(letter.as_slice(), chars_of("D").as_slice()) {
        "✖"
    } else if same(letter.as_slice(), chars_of("R").as_slice()) {
        "↻"
    } else if same(letter.as_slice(), chars_of("C").as_slice()) {
        "⊕"
    } else if same(letter.as_slice(), chars_of("U").as_slice()) {
        "⚠"
    } else if same(letter.as_slice(), chars_of("?").as_slice()) {
        "?"
    } else if same(letter.as_slice(), chars_of("!").as_slice()) {
        "!"
    } else {
        " "
    }
}

/// How one line of the status is shown.
fn row_of(line: &str) -> (r: String)
    ensures
        r@ == status_row(line@),
{
    let chars = chars_of(line);
    let mut row = String::from_str("  ");
    if chars.len() >= 2 {
        let code = slice_of(chars.as_slice(), 0, 2);
        let rest = slice_of(chars.as_slice(), 2, chars.len());
        assert(code@ == chars@.take(2));
        assert(rest@ == chars@.skip(2));
        let symbol = bold(symbol_of(code.as_slice()));
        let path = string_of(trimmed(rest.as_slice()).as_slice());
        row.append(symbol.as_str());
        row.append(" ");
        row.append(path.as_str());
    } else {
        row.append(line);
    }
    row
}

/// Formats the output of `git status --porcelain` for display.
pub fn format_git_status(status: &str) -> (r: String)
    ensures
        r@ == git_status_text(status@),
{
    let lines = split_lines(status);
    let ghost rows = Seq::new(
        text_lines(status@).len(),
        |i: int| status_row(text_lines(status@)[i]),
    );
    let mut out = String::new();
    let mut i: usize = 0;
    while i < lines.len()
        invariant
            i <= lines.len(),
            texts(lines@) == text_lines(status@),
            rows == Seq::new(
                text_lines(status@).len(),
                |i: int| status_row(text_lines(status@)[i]),
            ),
            out@ == joined(rows, i as int),
        decreases lines.len() - i,
    {
        assert(texts(lines@)[i as int] == lines@[i as int]@);
        let row = row_of(lines[i].as_str());
        if i > 0 {
            out.append("\n");
        }
        out.append(row.as_str());
        i += 1;
    }
    out
}

/// How the value of an environment variable is shown: a variable whose name
/// holds `PASS` or `PAT` keeps a secret, which is masked.
pub open spec fn shown_value(name: Seq<char>, value: Seq<char>) -> Seq<char> {
    if contains(name, "PASS"@) || contains(name, "PAT"@) {
        "********"@
    } else {
        value
    }
}

/// The value of an environment variable as it is shown.
pub fn display_value(name: &str, value: String) -> (shown: String)
    ensures
        shown@ == shown_value(name@, value@),
{
    let chars = chars_of(name);
    if includes(chars.as_slice(), chars_of("PASS").as_slice()) || includes(
        chars.as_slice(),
        chars_of("PAT").as_slice(),
    ) {
        String::from_str("********")
    } else {
        value
    }
}

} // verus!
