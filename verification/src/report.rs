//! Coverage reports: per instrumented source file, the line ranges of its
//! statements with their execution counts, and its branches with the
//! execution counts of their paths.

use crate::json::{as_u64, is_true, member, members, number, text, Json};
use vstd::prelude::*;

verus! {

/// A statement of a source file.
#[derive(Clone, Copy, Debug, PartialEq, Eq, Structural)]
pub struct Statement {
    /// The line on which it starts.
    pub start: u64,
    /// The line on which it ends.
    pub end: u64,
    /// How often it ran; `None` where the report gives no count for it,
    /// which is an error of the report: nothing then shows that the
    /// statement has run.
    pub count: Option<u64>,
}

/// A branch of a source file.
pub struct Branch {
    /// The line on which it is declared.
    pub line: u64,
    /// Whether the report marks it as deliberately left out.
    pub skip: bool,
    /// How often each of its paths ran; `None` for a count that the report
    /// does not give as a whole number.
    pub counts: Vec<Option<u64>>,
}

/// What a report says of one source file.
pub struct FileCoverage {
    /// The file's path as the report writes it.
    pub path: String,
    /// The file's statements.
    pub statements: Vec<Statement>,
    /// The file's branches.
    pub branches: Vec<Branch>,
}

/// The coverage report of one package.
pub struct CoverageReport {
    /// The files of the package.
    pub files: Vec<FileCoverage>,
}

/// A branch as a plain value.
pub struct BranchView {
    /// The line on which the branch is declared, whether it is skipped, and the
    /// counts of its paths.
    pub line: u64,
    pub skip: bool,
    pub counts: Seq<Option<u64>>,
}

/// What a report says of one file, as a plain value.
pub struct FileView {
    /// The path, the statements and the branches of the file.
    pub path: Seq<char>,
    pub statements: Seq<Statement>,
    pub branches: Seq<BranchView>,
}

impl View for Branch {
    type V = BranchView;

    open spec fn view(&self) -> BranchView {
        BranchView { line: self.line, skip: self.skip, counts: self.counts@ }
    }
}

impl View for FileCoverage {
    type V = FileView;

    open spec fn view(&self) -> FileView {
        FileView {
            path: self.path@,
            statements: self.statements@,
            branches: Seq::new(self.branches@.len(), |i: int| self.branches@[i]@),
        }
    }
}

impl View for CoverageReport {
    type V = Seq<FileView>;

    open spec fn view(&self) -> Seq<FileView> {
        Seq::new(self.files@.len(), |i: int| self.files@[i]@)
    }
}

/// The line that the member `key` of a statement's entry gives under `line`.
pub open spec fn line_at(entry: Json, key: Seq<char>) -> Option<u64> {
    match member(entry, key) {
        Some(position) => number(member(position, "line"@)),
        None => None,
    }
}

/// The statement that an entry of `statementMap` describes, with its count
/// from `s`. `None` where the entry lacks its first or its last line.
pub open spec fn statement_of(id: Seq<char>, entry: Json, counts: Option<Json>) -> Option<
    Statement,
> {
    match (line_at(entry, "start"@), line_at(entry, "end"@)) {
        (Some(start), Some(end)) => Some(
            Statement {
                start,
                end,
                count: match counts {
                    Some(by_id) => number(member(by_id, id)),
                    None => None,
                },
            },
        ),
        _ => None,
    }
}

/// The statements that the entries of `statementMap` describe, in their order.
pub open spec fn statements_in(entries: Seq<(String, Json)>, counts: Option<Json>) -> Seq<
    Statement,
>
    decreases entries.len(),
{
    if entries.len() == 0 {
        Seq::empty()
    } else {
        let before = statements_in(entries.drop_last(), counts);
        match statement_of(entries.last().0@, entries.last().1, counts) {
            Some(statement) => before.push(statement),
            None => before,
        }
    }
}

/// The counts that an array of `b` gives, in their order.
pub open spec fn path_counts(items: Seq<Json>) -> Seq<Option<u64>> {
    Seq::new(items.len(), |i: int| number(Some(items[i])))
}

/// The branch that an entry of `branchMap` describes, with the counts of its
/// paths from `b`: none where `b` has no array for it. `None` where the entry
/// does not give its line.
pub open spec fn branch_of(id: Seq<char>, entry: Json, counts: Json) -> Option<BranchView> {
    match number(member(entry, "line"@)) {
        Some(line) => Some(
            BranchView {
                line,
                skip: is_true(member(entry, "skip"@)),
                counts: match member(counts, id) {
                    Some(Json::Array(items)) => path_counts(items@),
                    _ => Seq::empty(),
                },
            },
        ),
        None => None,
    }
}

/// The branches that the entries of `branchMap` describe, in their order.
pub open spec fn branches_in(entries: Seq<(String, Json)>, counts: Json) -> Seq<BranchView>
    decreases entries.len(),
{
    if entries.len() == 0 {
        Seq::empty()
    } else {
        let before = branches_in(entries.drop_last(), counts);
        match branch_of(entries.last().0@, entries.last().1, counts) {
            Some(branch) => before.push(branch),
            None => before,
        }
    }
}

/// What an entry of a report says of its file: the statements of
/// `statementMap` with the counts of `s`, and the branches of `branchMap`
/// with the counts of `b`, which are read only where both are objects.
/// `None` where the entry does not give the file's path as a string.
pub open spec fn file_of(entry: Json) -> Option<FileView> {
    match text(member(entry, "path"@)) {
        Some(path) => Some(
            FileView {
                path,
                statements: match members(member(entry, "statementMap"@)) {
                    Some(entries) => statements_in(
                        entries,
                        match member(entry, "s"@) {
                            Some(Json::Object(m)) => Some(Json::Object(m)),
                            _ => None,
                        },
                    ),
                    None => Seq::empty(),
                },
                branches: match (members(member(entry, "branchMap"@)), member(entry, "b"@)) {
                    (Some(entries), Some(Json::Object(m))) => branches_in(
                        entries,
                        Json::Object(m),
                    ),
                    _ => Seq::empty(),
                },
            },
        ),
        None => None,
    }
}

/// The files that the entries of a report describe, in their order.
pub open spec fn files_in(entries: Seq<(String, Json)>) -> Seq<FileView>
    decreases entries.len(),
{
    if entries.len() == 0 {
        Seq::empty()
    } else {
        let before = files_in(entries.drop_last());
        match file_of(entries.last().1) {
            Some(file) => before.push(file),
            None => before,
        }
    }
}

/// The report that a JSON document holds: the entries of its member
/// `coverageMap` where that is an object, else its own where it is one.
pub open spec fn report_of(document: Json) -> Seq<FileView> {
    match members(member(document, "coverageMap"@)) {
        Some(entries) => files_in(entries),
        None => match document {
            Json::Object(entries) => files_in(entries@),
            _ => Seq::empty(),
        },
    }
}

/// Reads the line that the member `key` of a statement's entry gives.
fn read_line(entry: &Json, key: &str) -> (r: Option<u64>)
    ensures
        r == line_at(*entry, key@),
{
    match entry.get(key) {
        Some(position) => as_u64(position.get("line")),
        None => None,
    }
}

/// Reads the statements of a file.
fn read_statements(entries: &Vec<(String, Json)>, counts: Option<&Json>) -> (r: Vec<Statement>)
    ensures
        r@ == statements_in(
            entries@,
            match counts {
                Some(c) => Some(*c),
                None => None,
            },
        ),
{
    let ghost by_id: Option<Json> = match counts {
        Some(c) => Some(*c),
        None => None,
    };
    let mut out: Vec<Statement> = Vec::new();
    let mut i: usize = 0;
    assert(entries@.take(0) == Seq::<(String, Json)>::empty());
    while i < entries.len()
        invariant
            i <= entries.len(),
            by_id == match counts {
                Some(c) => Some(*c),
                None => None,
            },
            out@ == statements_in(entries@.take(i as int), by_id),
        decreases entries.len() - i,
    {
        assert(entries@.take(i + 1).drop_last() == entries@.take(i as int));
        let entry = &entries[i].1;
        match (read_line(entry, "start"), read_line(entry, "end")) {
            (Some(start), Some(end)) => {
                let count = match counts {
                    Some(c) => as_u64(c.get(entries[i].0.as_str())),
                    None => None,
                };
                out.push(Statement { start, end, count });
            },
            _ => {},
        }
        i += 1;
    }
    assert(entries@.take(i as int) == entries@);
    out
}

/// Reads the counts of the paths of a branch.
fn read_counts(items: &Vec<Json>) -> (r: Vec<Option<u64>>)
    ensures
        r@ == path_counts(items@),
{
    let mut out: Vec<Option<u64>> = Vec::new();
    let mut i: usize = 0;
    while i < items.len()
        invariant
            i <= items.len(),
            out@.len() == i,
            forall|j: int| 0 <= j < i ==> out@[j] == number(Some(items@[j])),
        decreases items.len() - i,
    {
        out.push(as_u64(Some(&items[i])));
        i += 1;
    }
    assert(out@ =~= path_counts(items@));
    out
}

/// Reads the branches of a file.
fn read_branches(entries: &Vec<(String, Json)>, counts: &Json) -> (r: Vec<Branch>)
    ensures
        Seq::new(r@.len(), |i: int| r@[i]@) == branches_in(entries@, *counts),
{
    let mut out: Vec<Branch> = Vec::new();
    let mut i: usize = 0;
    assert(entries@.take(0) == Seq::<(String, Json)>::empty());
    assert(Seq::new(out@.len(), |i: int| out@[i]@) == Seq::<BranchView>::empty());
    while i < entries.len()
        invariant
            i <= entries.len(),
            Seq::new(out@.len(), |i: int| out@[i]@) == branches_in(
                entries@.take(i as int),
                *counts,
            ),
        decreases entries.len() - i,
    {
        assert(entries@.take(i + 1).drop_last() == entries@.take(i as int));
        let entry = &entries[i].1;
        match as_u64(entry.get("line")) {
            Some(line) => {
                let skip = match entry.get("skip") {
                    Some(Json::Bool(b)) => *b,
                    _ => false,
                };
                let path_counts = match counts.get(entries[i].0.as_str()) {
                    Some(Json::Array(items)) => read_counts(items),
                    _ => Vec::new(),
                };
                let ghost before = Seq::new(out@.len(), |i: int| out@[i]@);
                let branch = Branch { line, skip, counts: path_counts };
                let ghost added = branch@;
                out.push(branch);
                assert(Seq::new(out@.len(), |i: int| out@[i]@) == before.push(added));
            },
            None => {},
        }
        i += 1;
    }
    assert(entries@.take(i as int) == entries@);
    out
}

/// Reads what an entry of a report says of its file.
fn read_file(entry: &Json) -> (r: Option<FileCoverage>)
    ensures
        r is Some == file_of(*entry) is Some,
        r matches Some(file) ==> file_of(*entry) == Some(file@),
{
    match entry.get("path") {
        Some(Json::Text(path)) => {
            let statements = match entry.get("statementMap") {
                Some(Json::Object(entries)) => {
                    let counts = match entry.get("s") {
                        Some(Json::Object(m)) => entry.get("s"),
                        _ => None,
                    };
                    read_statements(entries, counts)
                },
                _ => Vec::new(),
            };
            let branches = match (entry.get("branchMap"), entry.get("b")) {
                (Some(Json::Object(entries)), Some(by_id)) => match by_id {
                    Json::Object(_) => read_branches(entries, by_id),
                    _ => Vec::new(),
                },
                _ => Vec::new(),
            };
            let file = FileCoverage { path: path.clone(), statements, branches };
            assert(file@.branches == file_of(*entry).unwrap().branches);
            assert(file@.statements == file_of(*entry).unwrap().statements);
            Some(file)
        },
        _ => None,
    }
}

/// Reads the files of a report.
fn read_files(entries: &Vec<(String, Json)>) -> (r: CoverageReport)
    ensures
        r@ == files_in(entries@),
{
    let mut files: Vec<FileCoverage> = Vec::new();
    let mut i: usize = 0;
    assert(entries@.take(0) == Seq::<(String, Json)>::empty());
    assert(Seq::new(files@.len(), |i: int| files@[i]@) == Seq::<FileView>::empty());
    while i < entries.len()
        invariant
            i <= entries.len(),
            Seq::new(files@.len(), |i: int| files@[i]@) == files_in(entries@.take(i as int)),
        decreases entries.len() - i,
    {
        assert(entries@.take(i + 1).drop_last() == entries@.take(i as int));
        match read_file(&entries[i].1) {
            Some(file) => {
                let ghost before = Seq::new(files@.len(), |i: int| files@[i]@);
                let ghost added = file@;
                files.push(file);
                assert(Seq::new(files@.len(), |i: int| files@[i]@) == before.push(added));
            },
            None => {},
        }
        i += 1;
    }
    assert(entries@.take(i as int) == entries@);
    CoverageReport { files }
}

/// Reads the coverage report that a JSON document holds.
pub fn read_report(document: &Json) -> (r: CoverageReport)
    ensures
        r@ == report_of(*document),
{
    match document.get("coverageMap") {
        Some(Json::Object(entries)) => read_files(entries),
        _ => match document {
            Json::Object(entries) => read_files(entries),
            _ => CoverageReport { files: Vec::new() },
        },
    }
}

} // verus!
