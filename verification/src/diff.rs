//! Hunk parser: from the text of a unified diff to the set of lines that the
//! diff has added or modified in the new revision of each source file.

use crate::changes::{record, ChangedLineSet};
use crate::classify::{classify, entirely_comment, in_block_comment, line_kind, LineKind};
use crate::hunk::{hunk_range, read_hunk_range};
use crate::order::{digits_of, padded_number};
use crate::text::{
    chars_of, ends_with, is_blank, slice_of, split_lines, starts_with, string_of, text_lines,
    texts,
};
use vstd::prelude::*;
use vstd::string::StringExecFns;

verus! {

/// Which changed files are looked at.
pub struct FileFilter {
    /// The directory of the tool's own sources, with its trailing slash:
    /// files below it are left out.
    pub tool_dir: String,
    /// The ending of the names of test files, which are left out.
    pub test_suffix: String,
    /// The ending of the names of the project's source files: files that end
    /// otherwise are left out.
    pub source_suffix: String,
}

impl FileFilter {
    /// Whether the file at `path` is looked at.
    pub open spec fn accepts(&self, path: Seq<char>) -> bool {
        &&& path.len() > 0
        &&& !self.tool_dir@.is_prefix_of(path)
        &&& !self.test_suffix@.is_suffix_of(path)
        &&& self.source_suffix@.is_suffix_of(path)
    }

    /// The filter of this project: TypeScript sources, without `.test.ts`
    /// files and without what lies under `zedc/`.
    pub fn project() -> (filter: FileFilter)
        ensures
            filter.tool_dir@ == "zedc/"@,
            filter.test_suffix@ == ".test.ts"@,
            filter.source_suffix@ == ".ts"@,
    {
        FileFilter {
            tool_dir: string_of(chars_of("zedc/").as_slice()),
            test_suffix: string_of(chars_of(".test.ts").as_slice()),
            source_suffix: string_of(chars_of(".ts").as_slice()),
        }
    }

    /// Whether the file at `path` is looked at.
    pub fn accept(&self, path: &[char]) -> (b: bool)
        ensures
            b == self.accepts(path@),
    {
        let tool_dir = chars_of(self.tool_dir.as_str());
        let test_suffix = chars_of(self.test_suffix.as_str());
        let source_suffix = chars_of(self.source_suffix.as_str());
        path.len() > 0 && !starts_with(path, tool_dir.as_slice()) && !ends_with(
            path,
            test_suffix.as_slice(),
        ) && ends_with(path, source_suffix.as_slice())
    }
}

/// A source file of the working tree as it was found there.
pub struct SourceFile {
    /// The file's path from the repository root, with forward slashes.
    pub path: String,
    /// The file's text, or the reason why the file could not be read.
    pub content: Result<String, String>,
}

/// The lines of the file at `path`, or `None` where `sources` has no such
/// file or has it without its text. The first file of that path counts.
pub open spec fn source_lines(sources: Seq<SourceFile>, path: Seq<char>) -> Option<
    Seq<Seq<char>>,
>
    decreases sources.len(),
{
    if sources.len() == 0 {
        None
    } else if sources[0].path@ == path {
        match sources[0].content {
            Ok(text) => Some(text_lines(text@)),
            Err(_) => None,
        }
    } else {
        source_lines(sources.drop_first(), path)
    }
}

/// Whether line `n` of a changed file is kept. Where the file was read, the
/// line must be one of its lines and be executable. Where it was not, every
/// line is kept: changed code is never dropped for want of its text.
pub open spec fn kept(source: Option<Seq<Seq<char>>>, n: int) -> bool {
    match source {
        None => true,
        Some(lines) => line_kind(lines, n - 1) == Some(LineKind::Executable),
    }
}

/// `set` after the first `k` lines of a hunk that starts at line `start` of
/// the file at `path`.
pub open spec fn record_range(
    set: Seq<(Seq<char>, usize)>,
    path: Seq<char>,
    source: Option<Seq<Seq<char>>>,
    start: usize,
    k: nat,
) -> Seq<(Seq<char>, usize)>
    decreases k,
{
    if k == 0 {
        set
    } else {
        let before = record_range(set, path, source, start, (k - 1) as nat);
        let n = start + k - 1;
        if kept(source, n) {
            record(before, path, n as usize)
        } else {
            before
        }
    }
}

/// What the parser knows between two lines of a diff.
pub struct ParseState {
    /// The file that the hunks to come belong to, if it is looked at.
    pub current: Option<Seq<char>>,
    /// The changed lines found so far.
    pub changed: Seq<(Seq<char>, usize)>,
}

/// The state after one more line of the diff.
///
/// A line that starts with `+++ b/` names the file of the hunks that follow;
/// where the filter leaves the file out, those hunks are passed over. A line
/// that starts with `@@` is a hunk header: the lines of its new range are
/// recorded for the current file. Any other line changes nothing.
pub open spec fn parse_step(
    st: ParseState,
    line: Seq<char>,
    filter: FileFilter,
    sources: Seq<SourceFile>,
) -> ParseState {
    if "+++ b/"@.is_prefix_of(line) {
        let path = line.skip("+++ b/"@.len() as int);
        ParseState {
            current: if filter.accepts(path) {
                Some(path)
            } else {
                None
            },
            changed: st.changed,
        }
    } else if "@@"@.is_prefix_of(line) {
        match (st.current, hunk_range(line)) {
            (Some(path), Some((start, count))) => ParseState {
                current: st.current,
                changed: record_range(
                    st.changed,
                    path,
                    source_lines(sources, path),
                    start,
                    count as nat,
                ),
            },
            _ => st,
        }
    } else {
        st
    }
}

/// The state after the given lines of a diff.
pub open spec fn parse_lines(
    lines: Seq<Seq<char>>,
    filter: FileFilter,
    sources: Seq<SourceFile>,
) -> ParseState
    decreases lines.len(),
{
    if lines.len() == 0 {
        ParseState { current: None, changed: Seq::empty() }
    } else {
        parse_step(parse_lines(lines.drop_last(), filter, sources), lines.last(), filter, sources)
    }
}

/// The changed lines of a diff: for each file that the filter accepts, the
/// lines of the new ranges of its hunks, in the diff's order and each once,
/// without those that are known not to be executable.
pub open spec fn changed_lines(
    diff: Seq<char>,
    filter: FileFilter,
    sources: Seq<SourceFile>,
) -> Seq<(Seq<char>, usize)> {
    parse_lines(text_lines(diff), filter, sources).changed
}

/// The paths of the files that a diff names and the filter accepts, in the
/// diff's order. These are the files whose text the parser asks for.
pub open spec fn named_files(lines: Seq<Seq<char>>, filter: FileFilter) -> Seq<Seq<char>>
    decreases lines.len(),
{
    if lines.len() == 0 {
        Seq::empty()
    } else {
        let before = named_files(lines.drop_last(), filter);
        let line = lines.last();
        let path = line.skip("+++ b/"@.len() as int);
        if "+++ b/"@.is_prefix_of(line) && filter.accepts(path) {
            before.push(path)
        } else {
            before
        }
    }
}

/// The files whose text is needed to parse `diff_text`.
pub fn changed_file_paths(diff_text: &str, filter: &FileFilter) -> (paths: Vec<String>)
    ensures
        texts(paths@) == named_files(text_lines(diff_text@), *filter),
{
    let lines = split_lines(diff_text);
    let marker = chars_of("+++ b/");
    let mut paths: Vec<String> = Vec::new();
    let mut i: usize = 0;
    let ghost all = texts(lines@);
    assert(all.take(0) == Seq::<Seq<char>>::empty());
    assert(texts(paths@) == Seq::<Seq<char>>::empty());
    while i < lines.len()
        invariant
            i <= lines.len(),
            all == texts(lines@),
            marker@ == "+++ b/"@,
            texts(paths@) == named_files(all.take(i as int), *filter),
        decreases lines.len() - i,
    {
        assert(all.take(i + 1).drop_last() == all.take(i as int));
        let line = chars_of(lines[i].as_str());
        if starts_with(line.as_slice(), marker.as_slice()) {
            let path = slice_of(line.as_slice(), marker.len(), line.len());
            assert(path@ == line@.skip(marker@.len() as int));
            if filter.accept(path.as_slice()) {
                let ghost before = texts(paths@);
                paths.push(string_of(path.as_slice()));
                assert(texts(paths@) == before.push(path@));
            }
        }
        i += 1;
    }
    assert(all.take(i as int) == all);
    paths
}

/// Parse a hunk header and record the lines of its new range for
/// `current_file`.
///
/// Nothing is recorded where the header cannot be read. Of a file whose lines
/// are at hand, the lines that it does not have and those that are blank,
/// comments or inside a block comment are passed over.
pub fn parse_hunk_header(
    line: &str,
    current_file: &String,
    changed_lines: &mut ChangedLineSet,
    current_file_content_lines: &Option<Vec<String>>,
)
    requires
        old(changed_lines).wf(),
    ensures
        final(changed_lines).wf(),
        final(changed_lines)@ == match hunk_range(line@) {
            Some((start, count)) => record_range(
                old(changed_lines)@,
                current_file@,
                match current_file_content_lines {
                    Some(lines) => Some(texts(lines@)),
                    None => None,
                },
                start,
                count as nat,
            ),
            None => old(changed_lines)@,
        },
{
    let header = chars_of(line);
    let ghost source: Option<Seq<Seq<char>>> = match current_file_content_lines {
        Some(lines) => Some(texts(lines@)),
        None => None,
    };
    match read_hunk_range(header.as_slice()) {
        None => {},
        Some((start, count)) => {
            let mut i: usize = 0;
            while i < count
                invariant
                    i <= count,
                    start + count <= usize::MAX,
                    changed_lines.wf(),
                    source == match current_file_content_lines {
                        Some(lines) => Some(texts(lines@)),
                        None => None,
                    },
                    changed_lines@ == record_range(
                        old(changed_lines)@,
                        current_file@,
                        source,
                        start,
                        i as nat,
                    ),
                decreases count - i,
            {
                let line_to_add = start + i;
                let keep = match current_file_content_lines {
                    None => true,
                    Some(lines) => line_to_add >= 1 && is_executable(
                        lines.as_slice(),
                        line_to_add - 1,
                    ),
                };
                if keep {
                    changed_lines.insert(current_file, line_to_add);
                }
                i += 1;
            }
        },
    }
}

/// Whether line `index` (counted from 0) of a file is one of its lines and
/// is executable.
pub fn is_executable(lines: &[String], index: usize) -> (b: bool)
    ensures
        b == (line_kind(texts(lines@), index as int) == Some(LineKind::Executable)),
{
    match classify(lines, index) {
        Some(LineKind::Executable) => true,
        _ => false,
    }
}

/// Get the changed files and lines from the text of a diff against the base
/// revision. `sources` holds the changed files as they stand in the working
/// tree.
pub fn get_changed_files_and_lines(
    diff_text: &str,
    filter: &FileFilter,
    sources: &[SourceFile],
) -> (changed: ChangedLineSet)
    ensures
        changed@ == changed_lines(diff_text@, *filter, sources@),
        changed.wf(),
{
    let lines = split_lines(diff_text);
    let file_marker = chars_of("+++ b/");
    let hunk_marker = chars_of("@@");
    let mut changed = ChangedLineSet::new();
    let mut current_file: Option<String> = None;
    let mut current_file_content_lines: Option<Vec<String>> = None;
    let ghost all = texts(lines@);
    let mut i: usize = 0;
    assert(all.take(0) == Seq::<Seq<char>>::empty());
    while i < lines.len()
        invariant
            i <= lines.len(),
            all == texts(lines@),
            file_marker@ == "+++ b/"@,
            hunk_marker@ == "@@"@,
            changed.wf(),
            changed@ == parse_lines(all.take(i as int), *filter, sources@).changed,
            match current_file {
                Some(path) => parse_lines(all.take(i as int), *filter, sources@).current == Some(
                    path@,
                ) && source_lines(sources@, path@) == match current_file_content_lines {
                    Some(content) => Some(texts(content@)),
                    None => None,
                },
                None => parse_lines(all.take(i as int), *filter, sources@).current is None,
            },
        decreases lines.len() - i,
    {
        assert(all.take(i + 1).drop_last() == all.take(i as int));
        assert(all.take(i + 1).last() == lines@[i as int]@);
        let line = chars_of(lines[i].as_str());
        if starts_with(line.as_slice(), file_marker.as_slice()) {
            let path = slice_of(line.as_slice(), file_marker.len(), line.len());
            assert(path@ == line@.skip(file_marker@.len() as int));
            if filter.accept(path.as_slice()) {
                let name = string_of(path.as_slice());
                current_file_content_lines = match read_source(sources, &name) {
                    Ok(content) => Some(content),
                    Err(_) => None,
                };
                current_file = Some(name);
            } else {
                current_file = None;
                current_file_content_lines = None;
            }
        } else if starts_with(line.as_slice(), hunk_marker.as_slice()) {
            match &current_file {
                Some(path) => {
                    parse_hunk_header(
                        lines[i].as_str(),
                        path,
                        &mut changed,
                        &current_file_content_lines,
                    );
                },
                None => {},
            }
        }
        i += 1;
    }
    assert(all.take(i as int) == all);
    changed
}

/// Whether `entry` is a line of a file that the filter accepts and is kept
/// given what `sources` holds of that file.
pub open spec fn sound(
    entry: (Seq<char>, usize),
    filter: FileFilter,
    sources: Seq<SourceFile>,
) -> bool {
    filter.accepts(entry.0) && kept(source_lines(sources, entry.0), entry.1 as int)
}

/// Whether every line of `set` is [`sound`].
pub open spec fn all_sound(
    set: Seq<(Seq<char>, usize)>,
    filter: FileFilter,
    sources: Seq<SourceFile>,
) -> bool {
    forall|i: int| 0 <= i < set.len() ==> sound(#[trigger] set[i], filter, sources)
}

/// Recording the lines of a hunk keeps every line sound.
proof fn lemma_record_range_sound(
    set: Seq<(Seq<char>, usize)>,
    path: Seq<char>,
    start: usize,
    k: nat,
    filter: FileFilter,
    sources: Seq<SourceFile>,
)
    requires
        all_sound(set, filter, sources),
        filter.accepts(path),
        start + k <= usize::MAX,
    ensures
        all_sound(
            record_range(set, path, source_lines(sources, path), start, k),
            filter,
            sources,
        ),
    decreases k,
{
    if k > 0 {
        lemma_record_range_sound(set, path, start, (k - 1) as nat, filter, sources);
    }
}

/// Every line that the parser has recorded is sound, and the current file
/// is one that the filter accepts.
proof fn lemma_parse_lines_sound(
    lines: Seq<Seq<char>>,
    filter: FileFilter,
    sources: Seq<SourceFile>,
)
    ensures
        all_sound(parse_lines(lines, filter, sources).changed, filter, sources),
        parse_lines(lines, filter, sources).current matches Some(path) ==> filter.accepts(path),
    decreases lines.len(),
{
    if lines.len() > 0 {
        lemma_parse_lines_sound(lines.drop_last(), filter, sources);
        let st = parse_lines(lines.drop_last(), filter, sources);
        match (st.current, hunk_range(lines.last())) {
            (Some(path), Some((start, count))) => {
                lemma_record_range_sound(st.changed, path, start, count as nat, filter, sources);
            },
            _ => {},
        }
    }
}

/// Every changed line belongs to a file that the filter accepts; where that
/// file was read, its number lies within the file: no changed line is
/// reported beyond the file's last line.
pub proof fn lemma_changed_lines_within_file(
    diff: Seq<char>,
    filter: FileFilter,
    sources: Seq<SourceFile>,
    i: int,
)
    requires
        0 <= i < changed_lines(diff, filter, sources).len(),
    ensures
        filter.accepts(changed_lines(diff, filter, sources)[i].0),
        source_lines(sources, changed_lines(diff, filter, sources)[i].0) matches Some(lines) ==> 1
            <= changed_lines(diff, filter, sources)[i].1 <= lines.len(),
{
    lemma_parse_lines_sound(text_lines(diff), filter, sources);
    assert(sound(changed_lines(diff, filter, sources)[i], filter, sources));
}

/// No changed line of a file that was read is blank, is a comment on its
/// own, or lies inside a block comment.
pub proof fn lemma_changed_lines_executable(
    diff: Seq<char>,
    filter: FileFilter,
    sources: Seq<SourceFile>,
    i: int,
)
    requires
        0 <= i < changed_lines(diff, filter, sources).len(),
    ensures
        source_lines(sources, changed_lines(diff, filter, sources)[i].0) matches Some(lines) ==> {
            let index = changed_lines(diff, filter, sources)[i].1 - 1;
            &&& line_kind(lines, index) == Some(LineKind::Executable)
            &&& !is_blank(lines[index])
            &&& !entirely_comment(lines[index])
            &&& !in_block_comment(lines, index)
        },
{
    lemma_parse_lines_sound(text_lines(diff), filter, sources);
    assert(sound(changed_lines(diff, filter, sources)[i], filter, sources));
}

/// Recording the lines of a hunk drops no line.
proof fn lemma_record_range_grows(
    set: Seq<(Seq<char>, usize)>,
    path: Seq<char>,
    source: Option<Seq<Seq<char>>>,
    start: usize,
    k: nat,
    entry: (Seq<char>, usize),
)
    requires
        set.contains(entry),
    ensures
        record_range(set, path, source, start, k).contains(entry),
    decreases k,
{
    if k > 0 {
        lemma_record_range_grows(set, path, source, start, (k - 1) as nat, entry);
        let before = record_range(set, path, source, start, (k - 1) as nat);
        let i = choose|i: int| 0 <= i < before.len() && before[i] == entry;
        let n = (start + k - 1) as usize;
        assert(before.push((path, n))[i] == entry);
    }
}

/// Without the text of its file, every line of a hunk is recorded.
proof fn lemma_record_range_unread(
    set: Seq<(Seq<char>, usize)>,
    path: Seq<char>,
    start: usize,
    k: nat,
    n: usize,
)
    requires
        start <= n < start + k <= usize::MAX,
    ensures
        record_range(set, path, None, start, k).contains((path, n)),
    decreases k,
{
    let before = record_range(set, path, None, start, (k - 1) as nat);
    if n == start + k - 1 {
        if !before.contains((path, n)) {
            assert(before.push((path, n))[before.len() as int] == (path, n));
        }
    } else {
        lemma_record_range_unread(set, path, start, (k - 1) as nat, n);
        let i = choose|i: int| 0 <= i < before.len() && before[i] == (path, n);
        let last = (start + k - 1) as usize;
        assert(before.push((path, last))[i] == (path, n));
    }
}

/// A line that the parser has recorded stays recorded.
proof fn lemma_parse_lines_grow(
    lines: Seq<Seq<char>>,
    filter: FileFilter,
    sources: Seq<SourceFile>,
    k: int,
    entry: (Seq<char>, usize),
)
    requires
        0 <= k <= lines.len(),
        parse_lines(lines.take(k), filter, sources).changed.contains(entry),
    ensures
        parse_lines(lines, filter, sources).changed.contains(entry),
    decreases lines.len() - k,
{
    if k == lines.len() {
        assert(lines.take(k) == lines);
    } else {
        let st = parse_lines(lines.take(k), filter, sources);
        assert(lines.take(k + 1).drop_last() == lines.take(k));
        match (st.current, hunk_range(lines[k])) {
            (Some(path), Some((start, count))) => {
                lemma_record_range_grows(
                    st.changed,
                    path,
                    source_lines(sources, path),
                    start,
                    count as nat,
                    entry,
                );
            },
            _ => {},
        }
        lemma_parse_lines_grow(lines, filter, sources, k + 1, entry);
    }
}

/// Where the file of a hunk could not be read, every line of the hunk's new
/// range is a changed line: none is dropped.
///
/// `k` is the position of the hunk header among the lines of the diff, and
/// `path` the file that the lines before it have made current.
pub proof fn lemma_unread_file_keeps_every_line(
    diff: Seq<char>,
    filter: FileFilter,
    sources: Seq<SourceFile>,
    k: int,
    path: Seq<char>,
    n: usize,
)
    requires
        0 <= k < text_lines(diff).len(),
        parse_lines(text_lines(diff).take(k), filter, sources).current == Some(path),
        source_lines(sources, path) is None,
        "@@"@.is_prefix_of(text_lines(diff)[k]),
        hunk_range(text_lines(diff)[k]) matches Some((start, count)) && start <= n < start + count,
    ensures
        changed_lines(diff, filter, sources).contains((path, n)),
{
    let lines = text_lines(diff);
    let st = parse_lines(lines.take(k), filter, sources);
    assert(lines.take(k + 1).drop_last() == lines.take(k));
    assert(!"+++ b/"@.is_prefix_of(lines[k])) by {
        reveal_strlit("+++ b/");
        reveal_strlit("@@");
        if "+++ b/"@.is_prefix_of(lines[k]) {
            assert(lines[k][0] == "+++ b/"@[0]);
            assert(lines[k][0] == "@@"@[0]);
        }
    }
    match hunk_range(lines[k]) {
        Some((start, count)) => {
            lemma_record_range_unread(st.changed, path, start, count as nat, n);
        },
        None => {},
    }
    lemma_parse_lines_grow(lines, filter, sources, k + 1, (path, n));
}

/// Why the text of the file at `path` is not at hand, or `None` where it is.
/// The first file of that path counts; a file that `sources` does not hold
/// counts as not loaded.
pub open spec fn read_failure(sources: Seq<SourceFile>, path: Seq<char>) -> Option<Seq<char>>
    decreases sources.len(),
{
    if sources.len() == 0 {
        Some("file was not loaded"@)
    } else if sources[0].path@ == path {
        match sources[0].content {
            Ok(_) => None,
            Err(reason) => Some(reason@),
        }
    } else {
        read_failure(sources.drop_first(), path)
    }
}

/// What is noted of a file that the diff names and the filter accepts: that
/// it was found, and whether its text could be read.
pub open spec fn file_notes(sources: Seq<SourceFile>, path: Seq<char>) -> Seq<Seq<char>> {
    seq![
        "Debug - Found changed file: "@ + path,
        match read_failure(sources, path) {
            None => "Debug - Successfully read file "@ + path + " for empty line checking."@,
            Some(reason) => "Warning: Could not read file "@ + path
                + " to check for empty lines: "@ + reason
                + ". Empty line check will be skipped for this file's hunks."@,
        },
    ]
}

/// What is noted of line `n` of a hunk: that it is recorded, or why it is
/// passed over.
pub open spec fn line_account(source: Option<Seq<Seq<char>>>, path: Seq<char>, n: usize) -> Seq<
    char,
> {
    let number = digits_of(n as nat);
    match source {
        None => "Debug - Empty line check skipped for line "@ + number + " in file "@ + path
            + " (file content not available)."@,
        Some(lines) => match line_kind(lines, n - 1) {
            None => "Debug - File "@ + path + " has no line "@ + number + ". Skipping."@,
            Some(LineKind::Blank) => "Debug - Skipping empty/whitespace line "@ + number
                + " in file "@ + path,
            Some(LineKind::CommentOnly) => "Debug - Skipping single-line comment line "@ + number
                + " in file "@ + path,
            Some(LineKind::InBlockComment) => "Debug - Skipping block comment line "@ + number
                + " in file "@ + path,
            Some(LineKind::Executable) => "Debug - Adding line "@ + number + " from "@ + path
                + " to changed_lines"@,
        },
    }
}

/// What is noted of the first `k` lines of a hunk that starts at line `start`.
pub open spec fn hunk_notes(
    source: Option<Seq<Seq<char>>>,
    path: Seq<char>,
    start: usize,
    k: nat,
) -> Seq<Seq<char>>
    decreases k,
{
    if k == 0 {
        Seq::empty()
    } else {
        hunk_notes(source, path, start, (k - 1) as nat).push(
            line_account(source, path, (start + k - 1) as usize),
        )
    }
}

/// What is noted of one line of a diff, `current` being the file that the
/// lines before it have made current: of a file header, whether the file is
/// looked at and read; of a hunk header, what becomes of each line of its new
/// range, or that the header cannot be read. Hunks without a file and other
/// lines are passed over in silence.
pub open spec fn step_notes(
    current: Option<Seq<char>>,
    line: Seq<char>,
    filter: FileFilter,
    sources: Seq<SourceFile>,
) -> Seq<Seq<char>> {
    if "+++ b/"@.is_prefix_of(line) {
        let path = line.skip("+++ b/"@.len() as int);
        if filter.accepts(path) {
            file_notes(sources, path)
        } else {
            seq!["Debug - Ignoring internal or test file: "@ + path]
        }
    } else if "@@"@.is_prefix_of(line) {
        match current {
            None => Seq::empty(),
            Some(path) => match hunk_range(line) {
                Some((start, count)) => hunk_notes(
                    source_lines(sources, path),
                    path,
                    start,
                    count as nat,
                ),
                None => seq!["Warning: Could not read the hunk header: "@ + line],
            },
        }
    } else {
        Seq::empty()
    }
}

/// What is noted of the given lines of a diff.
pub open spec fn notes_of_lines(
    lines: Seq<Seq<char>>,
    filter: FileFilter,
    sources: Seq<SourceFile>,
) -> Seq<Seq<char>>
    decreases lines.len(),
{
    if lines.len() == 0 {
        Seq::empty()
    } else {
        notes_of_lines(lines.drop_last(), filter, sources) + step_notes(
            parse_lines(lines.drop_last(), filter, sources).current,
            lines.last(),
            filter,
            sources,
        )
    }
}

/// What is noted of a diff when every step of the parser is to be told.
pub open spec fn change_notes(
    diff: Seq<char>,
    filter: FileFilter,
    sources: Seq<SourceFile>,
) -> Seq<Seq<char>> {
    notes_of_lines(text_lines(diff), filter, sources)
}

/// Looks a file up in `sources`: its lines, or why its text is not at hand.
fn read_source(sources: &[SourceFile], path: &String) -> (r: Result<Vec<String>, String>)
    ensures
        r matches Ok(lines) ==> source_lines(sources@, path@) == Some(texts(lines@))
            && read_failure(sources@, path@) is None,
        r matches Err(reason) ==> source_lines(sources@, path@) is None && read_failure(
            sources@,
            path@,
        ) == Some(reason@),
{
    let mut i: usize = 0;
    assert(sources@.skip(0) == sources@);
    while i < sources.len()
        invariant
            i <= sources.len(),
            source_lines(sources@, path@) == source_lines(sources@.skip(i as int), path@),
            read_failure(sources@, path@) == read_failure(sources@.skip(i as int), path@),
        decreases sources.len() - i,
    {
        if sources[i].path == *path {
            return match &sources[i].content {
                Ok(text) => Ok(split_lines(text.as_str())),
                Err(reason) => Err(reason.clone()),
            };
        }
        assert(sources@.skip(i as int).drop_first() == sources@.skip(i + 1));
        i += 1;
    }
    Err(String::from_str("file was not loaded"))
}

/// The lines of a file, where they are at hand, as plain values.
pub open spec fn plain_lines(content: Option<Vec<String>>) -> Option<Seq<Seq<char>>> {
    match content {
        Some(lines) => Some(texts(lines@)),
        None => None,
    }
}

/// Writes what is noted of a line of a hunk.
fn account_of(content: &Option<Vec<String>>, path: &String, n: usize) -> (r: String)
    ensures
        r@ == line_account(
            match content {
                Some(lines) => Some(texts(lines@)),
                None => None,
            },
            path@,
            n,
        ),
{
    let number = string_of(padded_number(n, 0).as_slice());
    match content {
        None => {
            let mut note = String::from_str("Debug - Empty line check skipped for line ");
            note.append(number.as_str());
            note.append(" in file ");
            note.append(path.as_str());
            note.append(" (file content not available).");
            note
        },
        Some(lines) => {
            let kind = if n >= 1 {
                classify(lines.as_slice(), n - 1)
            } else {
                None
            };
            match kind {
                None => {
                    let mut note = String::from_str("Debug - File ");
                    note.append(path.as_str());
                    note.append(" has no line ");
                    note.append(number.as_str());
                    note.append(". Skipping.");
                    note
                },
                Some(LineKind::Executable) => {
                    let mut note = String::from_str("Debug - Adding line ");
                    note.append(number.as_str());
                    note.append(" from ");
                    note.append(path.as_str());
                    note.append(" to changed_lines");
                    note
                },
                Some(skipped) => {
                    let mut note = String::from_str(
                        match skipped {
                            LineKind::Blank => "Debug - Skipping empty/whitespace line ",
                            LineKind::CommentOnly => "Debug - Skipping single-line comment line ",
                            _ => "Debug - Skipping block comment line ",
                        },
                    );
                    note.append(number.as_str());
                    note.append(" in file ");
                    note.append(path.as_str());
                    note
                },
            }
        },
    }
}

/// Tells every step of the parser on a diff, for a detailed account of a
/// run: which files are looked at, and what becomes of each line of each
/// hunk.
pub fn describe_changes(
    diff_text: &str,
    filter: &FileFilter,
    sources: &[SourceFile],
) -> (notes: Vec<String>)
    ensures
        texts(notes@) == change_notes(diff_text@, *filter, sources@),
{
    let lines = split_lines(diff_text);
    let file_marker = chars_of("+++ b/");
    let hunk_marker = chars_of("@@");
    let mut notes: Vec<String> = Vec::new();
    let mut current_file: Option<String> = None;
    let mut content: Option<Vec<String>> = None;
    let ghost all = texts(lines@);
    let mut i: usize = 0;
    assert(all.take(0) == Seq::<Seq<char>>::empty());
    assert(texts(notes@) == Seq::<Seq<char>>::empty());
    while i < lines.len()
        invariant
            i <= lines.len(),
            all == texts(lines@),
            file_marker@ == "+++ b/"@,
            hunk_marker@ == "@@"@,
            texts(notes@) == notes_of_lines(all.take(i as int), *filter, sources@),
            match current_file {
                Some(path) => parse_lines(all.take(i as int), *filter, sources@).current == Some(
                    path@,
                ) && source_lines(sources@, path@) == match content {
                    Some(text) => Some(texts(text@)),
                    None => None,
                },
                None => parse_lines(all.take(i as int), *filter, sources@).current is None,
            },
        decreases lines.len() - i,
    {
        assert(all.take(i + 1).drop_last() == all.take(i as int));
        assert(all.take(i + 1).last() == lines@[i as int]@);
        let ghost before = texts(notes@);
        let ghost current = parse_lines(all.take(i as int), *filter, sources@).current;
        let ghost step = step_notes(current, lines@[i as int]@, *filter, sources@);
        let line = chars_of(lines[i].as_str());
        if starts_with(line.as_slice(), file_marker.as_slice()) {
            let path = slice_of(line.as_slice(), file_marker.len(), line.len());
            assert(path@ == line@.skip(file_marker@.len() as int));
            let name = string_of(path.as_slice());
            if filter.accept(path.as_slice()) {
                let mut found = String::from_str("Debug - Found changed file: ");
                found.append(name.as_str());
                notes.push(found);
                let read = match read_source(sources, &name) {
                    Ok(text) => {
                        content = Some(text);
                        let mut note = String::from_str("Debug - Successfully read file ");
                        note.append(name.as_str());
                        note.append(" for empty line checking.");
                        note
                    },
                    Err(reason) => {
                        content = None;
                        let mut note = String::from_str("Warning: Could not read file ");
                        note.append(name.as_str());
                        note.append(" to check for empty lines: ");
                        note.append(reason.as_str());
                        note.append(". Empty line check will be skipped for this file's hunks.");
                        note
                    },
                };
                notes.push(read);
                assert(texts(notes@) == before.push(found@).push(read@));
                assert(before.push(found@).push(read@) == before + step);
                current_file = Some(name);
            } else {
                let mut note = String::from_str("Debug - Ignoring internal or test file: ");
                note.append(name.as_str());
                notes.push(note);
                assert(texts(notes@) == before.push(note@));
                assert(before.push(note@) == before + step);
                current_file = None;
                content = None;
            }
        } else if starts_with(line.as_slice(), hunk_marker.as_slice()) {
            match &current_file {
                None => {
                    assert(before == before + step);
                },
                Some(path) => match read_hunk_range(line.as_slice()) {
                    None => {
                        let mut note = String::from_str(
                            "Warning: Could not read the hunk header: ",
                        );
                        note.append(lines[i].as_str());
                        notes.push(note);
                        assert(texts(notes@) == before.push(note@));
                        assert(before.push(note@) == before + step);
                    },
                    Some((start, count)) => {
                        let ghost source = plain_lines(content);
                        let mut k: usize = 0;
                        assert(texts(notes@) == before + hunk_notes(source, path@, start, 0));
                        while k < count
                            invariant
                                k <= count,
                                start + count <= usize::MAX,
                                source == plain_lines(content),
                                texts(notes@) == before + hunk_notes(
                                    source,
                                    path@,
                                    start,
                                    k as nat,
                                ),
                            decreases count - k,
                        {
                            let ghost shown = texts(notes@);
                            let note = account_of(&content, path, start + k);
                            notes.push(note);
                            assert(texts(notes@) == shown.push(note@));
                            assert(shown.push(note@) == before + hunk_notes(
                                source,
                                path@,
                                start,
                                k as nat,
                            ).push(note@));
                            k += 1;
                        }
                    },
                },
            }
        } else {
            assert(before == before + step);
        }
        i += 1;
    }
    assert(all.take(i as int) == all);
    notes
}

} // verus!
