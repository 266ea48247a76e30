//! Report renderer: the rows that show the uncovered lines of a patch, file
//! by file, each line with its number and its source text.

use crate::changes::{lines_of, paths_of, UncoveredLines};
use crate::diff::SourceFile;
use crate::order::{ascending, digits_of, pad_left, padded_number, sorted};
use crate::style::{
    bold, bright_black, dimmed, in_bold, in_bright_black, in_dim, in_red, in_yellow, red, yellow,
};
use crate::text::{chars_of, split_lines, string_of, text_lines, texts, trim, trimmed};
use vstd::prelude::*;
use vstd::string::StringExecFns;

verus! {

/// How the rows are written.
pub struct RenderOptions {
    /// Whether the terminal follows hyperlinks: each line then links to its
    /// place in the editor.
    pub hyperlinks: bool,
    /// The directory from which the paths of the files start.
    pub current_dir: String,
}

/// What is known of a source file when its lines are shown.
pub enum Excerpt {
    /// The file's lines.
    Lines(Seq<Seq<char>>),
    /// The reason why the file could not be read.
    Unread(Seq<char>),
}

/// What `sources` holds of the file at `path`. The first file of that path
/// counts; a file that `sources` does not hold counts as not loaded.
pub open spec fn excerpt_of(sources: Seq<SourceFile>, path: Seq<char>) -> Excerpt
    decreases sources.len(),
{
    if sources.len() == 0 {
        Excerpt::Unread("file was not loaded"@)
    } else if sources[0].path@ == path {
        match sources[0].content {
            Ok(text) => Excerpt::Lines(text_lines(text@)),
            Err(reason) => Excerpt::Unread(reason@),
        }
    } else {
        excerpt_of(sources.drop_first(), path)
    }
}

/// The two rows above the files: an empty one, and the title in bold yellow.
pub open spec fn title_rows() -> Seq<Seq<char>> {
    seq![Seq::<char>::empty(), in_yellow(in_bold("Uncovered lines in patch:"@))]
}

/// The row that names a file.
pub open spec fn file_row(path: Seq<char>) -> Seq<char> {
    "  "@ + in_dim(path)
}

/// The row that stands between two lines that do not follow each other.
pub open spec fn gap_row() -> Seq<char> {
    "     "@ + in_dim("···"@)
}

/// The number of a line, its text and what parts them.
pub open spec fn numbered(n: usize, content: Seq<char>) -> Seq<char> {
    in_dim(pad_left(digits_of(n as nat), 3)) + "  "@ + in_bright_black("│"@) + " "@ + in_red(
        trim(content),
    )
}

/// The row of a line without its text.
pub open spec fn bare_row(n: usize, note: Seq<char>) -> Seq<char> {
    "    "@ + in_red(digits_of(n as nat)) + ": "@ + in_red(note)
}

/// The row of line `n` of the file at `path`.
///
/// With the file's lines at hand, the row shows the number, dimmed and
/// right-aligned to three places, and the trimmed text of the line in red;
/// where the terminal follows hyperlinks, the row links to the line in the
/// editor. A line that the file does not have, and any line of a file that
/// could not be read, is shown by its number and a note.
pub open spec fn line_row(
    path: Seq<char>,
    n: usize,
    excerpt: Excerpt,
    options: RenderOptions,
) -> Seq<char> {
    match excerpt {
        Excerpt::Lines(lines) => if 1 <= n <= lines.len() {
            if options.hyperlinks {
                "  "@ + "\x1b]8;;vscode://file/"@ + options.current_dir@ + "/"@ + path + ":"@
                    + digits_of(n as nat) + "\x1b\\"@ + numbered(n, lines[n - 1])
                    + "\x1b]8;;\x1b\\"@
            } else {
                "  "@ + numbered(n, lines[n - 1])
            }
        } else {
            bare_row(n, "<LINE CONTENT UNAVAILABLE - INDEX OUT OF BOUNDS>"@)
        },
        Excerpt::Unread(reason) => bare_row(n, "<COULD NOT READ FILE: "@ + reason + ">"@),
    }
}

/// The rows of the first `k` of the lines `numbers` of a file, which are in
/// ascending order: one row for each line, and a gap row before a line that
/// does not follow the line before it.
pub open spec fn line_rows(
    path: Seq<char>,
    numbers: Seq<usize>,
    excerpt: Excerpt,
    options: RenderOptions,
    k: int,
) -> Seq<Seq<char>>
    decreases k,
{
    if k <= 0 || k > numbers.len() {
        Seq::empty()
    } else {
        let before = line_rows(path, numbers, excerpt, options, k - 1);
        let row = line_row(path, numbers[k - 1], excerpt, options);
        if k >= 2 && numbers[k - 1] > numbers[k - 2] + 1 {
            before.push(gap_row()).push(row)
        } else {
            before.push(row)
        }
    }
}

/// The rows of a file: its name, then its uncovered lines in ascending order.
pub open spec fn file_rows(
    path: Seq<char>,
    uncovered: Seq<(Seq<char>, usize)>,
    sources: Seq<SourceFile>,
    options: RenderOptions,
) -> Seq<Seq<char>> {
    let numbers = ascending(lines_of(uncovered, path));
    seq![file_row(path)] + line_rows(
        path,
        numbers,
        excerpt_of(sources, path),
        options,
        numbers.len() as int,
    )
}

/// The rows of the first `k` of the files `paths`.
pub open spec fn files_rows(
    paths: Seq<Seq<char>>,
    uncovered: Seq<(Seq<char>, usize)>,
    sources: Seq<SourceFile>,
    options: RenderOptions,
    k: int,
) -> Seq<Seq<char>>
    decreases k,
{
    if k <= 0 || k > paths.len() {
        Seq::empty()
    } else {
        files_rows(paths, uncovered, sources, options, k - 1) + file_rows(
            paths[k - 1],
            uncovered,
            sources,
            options,
        )
    }
}

/// The rows that show the uncovered lines: none where there is no uncovered
/// line, else the title and the rows of each file, the files in the order of
/// their first uncovered lines.
pub open spec fn uncovered_rows(
    uncovered: Seq<(Seq<char>, usize)>,
    sources: Seq<SourceFile>,
    options: RenderOptions,
) -> Seq<Seq<char>> {
    if uncovered.len() == 0 {
        Seq::empty()
    } else {
        title_rows() + files_rows(
            paths_of(uncovered),
            uncovered,
            sources,
            options,
            paths_of(uncovered).len() as int,
        )
    }
}

/// What `sources` holds of a file, for the exec side.
enum Loaded {
    Lines(Vec<String>),
    Unread(String),
}

impl Loaded {
    /// What is known of the file, as a plain value.
    spec fn excerpt(&self) -> Excerpt {
        match self {
            Loaded::Lines(lines) => Excerpt::Lines(texts(lines@)),
            Loaded::Unread(reason) => Excerpt::Unread(reason@),
        }
    }
}

/// Looks a file up in `sources`.
fn load(sources: &[SourceFile], path: &String) -> (r: Loaded)
    ensures
        r.excerpt() == excerpt_of(sources@, path@),
{
    let mut i: usize = 0;
    assert(sources@.skip(0) == sources@);
    while i < sources.len()
        invariant
            i <= sources.len(),
            excerpt_of(sources@, path@) == excerpt_of(sources@.skip(i as int), path@),
        decreases sources.len() - i,
    {
        if sources[i].path == *path {
            return match &sources[i].content {
                Ok(text) => Loaded::Lines(split_lines(text.as_str())),
                Err(reason) => Loaded::Unread(reason.clone()),
            };
        }
        assert(sources@.skip(i as int).drop_first() == sources@.skip(i + 1));
        i += 1;
    }
    Loaded::Unread(String::from_str("file was not loaded"))
}

/// The number of a line, its text and what parts them.
fn numbered_text(n: usize, content: &str) -> (r: String)
    ensures
        r@ == numbered(n, content@),
{
    let number = string_of(padded_number(n, 3).as_slice());
    let text = string_of(trimmed(chars_of(content).as_slice()).as_slice());
    let mut row = dimmed(number.as_str());
    row.append("  ");
    row.append(bright_black("│").as_str());
    row.append(" ");
    row.append(red(text.as_str()).as_str());
    row
}

/// The row of a line without its text.
fn bare(n: usize, note: &str) -> (r: String)
    ensures
        r@ == bare_row(n, note@),
{
    let number = string_of(padded_number(n, 0).as_slice());
    let mut row = String::from_str("    ");
    row.append(red(number.as_str()).as_str());
    row.append(": ");
    row.append(red(note).as_str());
    row
}

/// The row of one line of a file.
fn row_of_line(path: &String, n: usize, loaded: &Loaded, options: &RenderOptions) -> (r: String)
    ensures
        r@ == line_row(path@, n, loaded.excerpt(), *options),
{
    match loaded {
        Loaded::Lines(lines) => {
            if 1 <= n && n <= lines.len() {
                assert(texts(lines@)[n - 1] == lines@[n - 1]@);
                let text = numbered_text(n, lines[n - 1].as_str());
                let mut row = String::from_str("  ");
                if options.hyperlinks {
                    let number = string_of(padded_number(n, 0).as_slice());
                    row.append("\x1b]8;;vscode://file/");
                    row.append(options.current_dir.as_str());
                    row.append("/");
                    row.append(path.as_str());
                    row.append(":");
                    row.append(number.as_str());
                    row.append("\x1b\\");
                    row.append(text.as_str());
                    row.append("\x1b]8;;\x1b\\");
                } else {
                    row.append(text.as_str());
                }
                row
            } else {
                bare(n, "<LINE CONTENT UNAVAILABLE - INDEX OUT OF BOUNDS>")
            }
        },
        Loaded::Unread(reason) => {
            let mut note = String::from_str("<COULD NOT READ FILE: ");
            note.append(reason.as_str());
            note.append(">");
            bare(n, note.as_str())
        },
    }
}

/// Display uncovered lines with content: the rows to print.
pub fn display_uncovered_lines(
    uncovered_lines_details: &UncoveredLines,
    sources: &[SourceFile],
    options: &RenderOptions,
) -> (rows: Vec<String>)
    ensures
        texts(rows@) == uncovered_rows(uncovered_lines_details@, sources@, *options),
{
    let mut rows: Vec<String> = Vec::new();
    if uncovered_lines_details.is_empty() {
        assert(texts(rows@) == Seq::<Seq<char>>::empty());
        return rows;
    }
    rows.push(String::new());
    rows.push(yellow(bold("Uncovered lines in patch:").as_str()));
    assert(texts(rows@) == title_rows());
    let ghost uncovered = uncovered_lines_details@;
    let paths = uncovered_lines_details.paths();
    let ghost names = paths_of(uncovered);
    assert(texts(paths@) == names);
    let mut f: usize = 0;
    assert(texts(rows@) == title_rows() + files_rows(names, uncovered, sources@, *options, 0));
    while f < paths.len()
        invariant
            f <= paths.len(),
            uncovered == uncovered_lines_details@,
            names == paths_of(uncovered),
            texts(paths@) == names,
            texts(rows@) == title_rows() + files_rows(
                names,
                uncovered,
                sources@,
                *options,
                f as int,
            ),
        decreases paths.len() - f,
    {
        let path = &paths[f];
        assert(names[f as int] == path@);
        let ghost done = texts(rows@);
        let loaded = load(sources, path);
        let numbers = sorted(&uncovered_lines_details.lines_for(path));
        let mut name = String::from_str("  ");
        name.append(dimmed(path.as_str()).as_str());
        rows.push(name);
        assert(texts(rows@) == done.push(file_row(path@)));
        let ghost excerpt = loaded.excerpt();
        let mut k: usize = 0;
        assert(texts(rows@) == done + (seq![file_row(path@)] + line_rows(
            path@,
            numbers@,
            excerpt,
            *options,
            0,
        )));
        while k < numbers.len()
            invariant
                k <= numbers.len(),
                excerpt == loaded.excerpt(),
                texts(rows@) == done + (seq![file_row(path@)] + line_rows(
                    path@,
                    numbers@,
                    excerpt,
                    *options,
                    k as int,
                )),
            decreases numbers.len() - k,
        {
            let ghost shown = texts(rows@);
            let ghost before = line_rows(path@, numbers@, excerpt, *options, k as int);
            let n = numbers[k];
            if k >= 1 && n > numbers[k - 1] && n - numbers[k - 1] > 1 {
                let mut gap = String::from_str("     ");
                gap.append(dimmed("···").as_str());
                rows.push(gap);
                rows.push(row_of_line(path, n, &loaded, options));
                assert(texts(rows@) == shown.push(gap_row()).push(
                    line_row(path@, n, excerpt, *options),
                ));
                assert(n > numbers@[k - 1] + 1);
                assert(shown.push(gap_row()).push(line_row(path@, n, excerpt, *options)) == done
                    + (seq![file_row(path@)] + before.push(gap_row()).push(
                    line_row(path@, n, excerpt, *options),
                )));
            } else {
                rows.push(row_of_line(path, n, &loaded, options));
                assert(texts(rows@) == shown.push(line_row(path@, n, excerpt, *options)));
                assert(shown.push(line_row(path@, n, excerpt, *options)) == done + (seq![
                    file_row(path@),
                ] + before.push(line_row(path@, n, excerpt, *options))));
            }
            k += 1;
        }
        proof {
            let whole = file_rows(path@, uncovered, sources@, *options);
            assert(texts(rows@) == done + whole);
            assert(done + whole == title_rows() + (files_rows(
                names,
                uncovered,
                sources@,
                *options,
                f as int,
            ) + whole));
        }
        f += 1;
    }
    rows
}

} // verus!
