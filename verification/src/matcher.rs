//! Coverage matcher: holds the changed lines against the coverage reports of
//! the packages and gives each line its verdict.

use crate::changes::{distinct, lemma_distinct, ChangedLineSet, LineSet, UncoveredLines};
use crate::json::{parse, parsed};
use crate::paths::{
    get_package_relative_path, is_rooted, is_under, lies_under, names_file, names_same_file,
    package_dir, parts, rooted, rows, split_path, PathRule,
};
use crate::report::{
    read_report, report_of, BranchView, CoverageReport, FileCoverage, FileView, Statement,
};
use crate::order::{digits_of, padded_number};
use crate::text::{chars_of, is_blank, string_of, texts, trimmed};
use vstd::string::StringExecFns;
use vstd::prelude::*;

verus! {

/// What the reports say of one changed line.
#[derive(Clone, Copy, Debug, PartialEq, Eq, Structural)]
pub enum LineVerdict {
    /// The line lies in no statement: it is structure, such as a bare
    /// `else {`, and counts neither for nor against coverage.
    NotExecutable,
    /// The line lies in a statement, and nothing says that it was missed.
    Covered,
    /// Nothing shows that a statement on the line has run, a branch declared
    /// on it has a path that was never taken, or there is no coverage data
    /// for it.
    Uncovered,
}

/// Whether line `n` lies in the range of `statement`.
pub open spec fn in_statement(statement: Statement, n: int) -> bool {
    statement.start <= n <= statement.end
}

/// Whether line `n` lies in the range of some statement of the file.
pub open spec fn is_executable_line(file: FileView, n: int) -> bool {
    exists|i: int|
        0 <= i < file.statements.len() && in_statement(#[trigger] file.statements[i], n)
}

/// Whether nothing shows that the statement has run: its count is zero, or
/// the report gives no count for it.
pub open spec fn not_run(statement: Statement) -> bool {
    match statement.count {
        Some(count) => count == 0,
        None => true,
    }
}

/// Whether line `n` lies in the range of a statement of which nothing shows
/// that it has run. A statement without a count is never taken as run:
/// coverage is not overstated.
pub open spec fn statement_missed(file: FileView, n: int) -> bool {
    exists|i: int|
        0 <= i < file.statements.len() && not_run(#[trigger] file.statements[i])
            && in_statement(file.statements[i], n)
}

/// Whether one of the branch's paths was never taken.
pub open spec fn has_untaken_path(branch: BranchView) -> bool {
    exists|k: int| 0 <= k < branch.counts.len() && #[trigger] branch.counts[k] == Some(0u64)
}

/// Whether a branch that is not skipped is declared on line `n` and has a
/// path that was never taken.
pub open spec fn branch_missed(file: FileView, n: int) -> bool {
    exists|j: int|
        0 <= j < file.branches.len() && !(#[trigger] file.branches[j]).skip
            && file.branches[j].line == n && has_untaken_path(file.branches[j])
}

/// The verdict on line `n` of a file with coverage data. A branch that was
/// not fully taken makes its line uncovered even where the statements on the
/// line ran.
pub open spec fn verdict(file: FileView, n: int) -> LineVerdict {
    if !is_executable_line(file, n) {
        LineVerdict::NotExecutable
    } else if statement_missed(file, n) || branch_missed(file, n) {
        LineVerdict::Uncovered
    } else {
        LineVerdict::Covered
    }
}

/// The coverage report of a package, with the package's directory from the
/// repository root.
pub struct PackageCoverage {
    /// The parts of the package's directory.
    pub dir: Vec<Vec<char>>,
    /// The report.
    pub report: CoverageReport,
}

/// A package's coverage as a plain value.
pub struct PackageView {
    /// The parts of the package's directory, and the report.
    pub dir: Seq<Seq<char>>,
    pub report: Seq<FileView>,
}

impl View for PackageCoverage {
    type V = PackageView;

    open spec fn view(&self) -> PackageView {
        PackageView { dir: rows(self.dir@), report: self.report@ }
    }
}

/// The packages of `v` as plain values.
pub open spec fn package_views(v: Seq<PackageCoverage>) -> Seq<PackageView> {
    Seq::new(v.len(), |i: int| v[i]@)
}

/// A coverage artifact as it was found on disk.
pub struct CoverageArtifact {
    /// The artifact's path.
    pub path: String,
    /// The artifact's text, or `None` where it is missing or unreadable.
    pub content: Option<String>,
}

/// Where the files of the working tree are and how their paths compare.
pub struct Workspace {
    /// The repository root.
    pub repo_root: String,
    /// The rule by which paths are compared.
    pub rule: PathRule,
}

/// Why a coverage artifact is passed over.
#[derive(Clone, Copy, Debug, PartialEq, Eq, Structural)]
pub enum Skipped {
    /// The artifact is missing or could not be read.
    Missing,
    /// The artifact holds nothing but white space.
    Empty,
    /// The artifact's text is not JSON.
    Malformed,
    /// The artifact's path does not show which package it belongs to.
    Misplaced,
}

/// The package coverage that an artifact yields, or why the artifact is
/// passed over: it has no text or only white space, its text is not JSON, or
/// its path does not show which package it belongs to.
pub open spec fn package_from(artifact: CoverageArtifact, ws: Workspace) -> Result<
    PackageView,
    Skipped,
> {
    match artifact.content {
        None => Err(Skipped::Missing),
        Some(content) => if is_blank(content@) {
            Err(Skipped::Empty)
        } else {
            match parsed(content@) {
                None => Err(Skipped::Malformed),
                Some(document) => match package_dir(artifact.path@, ws.repo_root@, ws.rule) {
                    None => Err(Skipped::Misplaced),
                    Some(dir) => Ok(PackageView { dir, report: report_of(document) }),
                },
            }
        },
    }
}

/// What is noted of an artifact that is passed over.
pub open spec fn skip_note(path: Seq<char>, why: Skipped) -> Seq<char> {
    match why {
        Skipped::Missing => "Warning: Coverage file not found at "@ + path + ", skipping."@,
        Skipped::Empty => "Warning: Coverage file "@ + path + " is empty, skipping."@,
        Skipped::Malformed => "Error parsing JSON from "@ + path + ". Skipping file."@,
        Skipped::Misplaced => "Warning: Could not determine package relative path for "@ + path
            + ", skipping coverage checks for this file."@,
    }
}

/// What is noted of the artifacts when they are loaded, in their order: the
/// artifact that is read, and the warning where it is passed over.
pub open spec fn artifact_notes(artifacts: Seq<CoverageArtifact>, ws: Workspace) -> Seq<
    Seq<char>,
>
    decreases artifacts.len(),
{
    if artifacts.len() == 0 {
        Seq::empty()
    } else {
        let before = artifact_notes(artifacts.drop_last(), ws).push(
            "Processing coverage file: "@ + artifacts.last().path@,
        );
        match package_from(artifacts.last(), ws) {
            Ok(_) => before,
            Err(why) => before.push(skip_note(artifacts.last().path@, why)),
        }
    }
}

/// The package coverages that the artifacts yield, in their order.
pub open spec fn packages_from(artifacts: Seq<CoverageArtifact>, ws: Workspace) -> Seq<
    PackageView,
>
    decreases artifacts.len(),
{
    if artifacts.len() == 0 {
        Seq::empty()
    } else {
        let before = packages_from(artifacts.drop_last(), ws);
        match package_from(artifacts.last(), ws) {
            Ok(package) => before.push(package),
            Err(_) => before,
        }
    }
}

/// The first package in whose directory the file with the parts `file` lies.
pub open spec fn package_of(packages: Seq<PackageView>, file: Seq<Seq<char>>) -> Option<
    PackageView,
>
    decreases packages.len(),
{
    if packages.len() == 0 {
        None
    } else if lies_under(file, packages[0].dir) {
        Some(packages[0])
    } else {
        package_of(packages.drop_first(), file)
    }
}

/// The first entry of a report whose path names the changed file `file`.
pub open spec fn coverage_of(report: Seq<FileView>, file: Seq<char>, ws: Workspace) -> Option<
    FileView,
>
    decreases report.len(),
{
    if report.len() == 0 {
        None
    } else if names_file(report[0].path, ws.repo_root@, file, ws.rule) {
        Some(report[0])
    } else {
        coverage_of(report.drop_first(), file, ws)
    }
}

/// The coverage data for the changed file `file`: what the report of the
/// file's package says of it. `None` without a report for the package and
/// without an entry for the file in that report.
pub open spec fn coverage_for(packages: Seq<PackageView>, ws: Workspace, file: Seq<char>) -> Option<
    FileView,
> {
    match package_of(packages, parts(file, ws.rule)) {
        None => None,
        Some(package) => coverage_of(package.report, file, ws),
    }
}

/// The verdict on a changed line. Without coverage data for its file the
/// line is uncovered: a lack of coverage data never counts as coverage.
pub open spec fn entry_verdict(
    packages: Seq<PackageView>,
    ws: Workspace,
    entry: (Seq<char>, usize),
) -> LineVerdict {
    match coverage_for(packages, ws, entry.0) {
        None => LineVerdict::Uncovered,
        Some(file) => verdict(file, entry.1 as int),
    }
}

/// The test that a changed line has the verdict `v`.
pub open spec fn has_verdict(packages: Seq<PackageView>, ws: Workspace, v: LineVerdict) -> spec_fn(
    (Seq<char>, usize),
) -> bool {
    |entry: (Seq<char>, usize)| entry_verdict(packages, ws, entry) == v
}

/// The changed lines that are uncovered, each once, in the order of the
/// changed lines.
pub open spec fn uncovered_lines(
    changed: Seq<(Seq<char>, usize)>,
    packages: Seq<PackageView>,
    ws: Workspace,
) -> Seq<(Seq<char>, usize)> {
    distinct(changed.filter(has_verdict(packages, ws, LineVerdict::Uncovered)))
}

/// The number of changed lines that are covered.
pub open spec fn covered_count(
    changed: Seq<(Seq<char>, usize)>,
    packages: Seq<PackageView>,
    ws: Workspace,
) -> nat {
    changed.filter(has_verdict(packages, ws, LineVerdict::Covered)).len()
}

/// What a run has found.
pub struct CoverageSummary {
    /// The number of changed lines that were looked at.
    pub total: usize,
    /// The number of them that are covered.
    pub covered: usize,
    /// Those that are uncovered.
    pub uncovered: UncoveredLines,
}

impl CoverageSummary {
    /// Whether this is what the reports `packages` say of the lines `changed`.
    pub open spec fn sums_up(
        &self,
        changed: Seq<(Seq<char>, usize)>,
        packages: Seq<PackageView>,
        ws: Workspace,
    ) -> bool {
        &&& self.total == changed.len()
        &&& self.covered == covered_count(changed, packages, ws)
        &&& self.uncovered@ == uncovered_lines(changed, packages, ws)
    }
}

/// Process the statements and branches of a file's coverage data: the
/// verdict on line `line` of the file.
pub fn process_file_statements(file_cov: &FileCoverage, line: usize) -> (v: LineVerdict)
    ensures
        v == verdict(file_cov@, line as int),
{
    let n = line as u64;
    let mut executable = false;
    let mut missed = false;
    let mut i: usize = 0;
    while i < file_cov.statements.len()
        invariant
            i <= file_cov.statements.len(),
            n == line,
            executable == exists|k: int|
                0 <= k < i && in_statement(#[trigger] file_cov@.statements[k], line as int),
            missed == exists|k: int|
                0 <= k < i && not_run(#[trigger] file_cov@.statements[k]) && in_statement(
                    file_cov@.statements[k],
                    line as int,
                ),
        decreases file_cov.statements.len() - i,
    {
        let statement = &file_cov.statements[i];
        assert(file_cov@.statements[i as int] == *statement);
        if statement.start <= n && n <= statement.end {
            executable = true;
            match statement.count {
                Some(count) => {
                    if count == 0 {
                        missed = true;
                    }
                },
                None => {
                    missed = true;
                },
            }
        }
        i += 1;
    }
    if !executable {
        LineVerdict::NotExecutable
    } else if missed || branch_was_missed(file_cov, line) {
        LineVerdict::Uncovered
    } else {
        LineVerdict::Covered
    }
}

/// Whether a branch that is not skipped is declared on line `line` and has a
/// path that was never taken.
fn branch_was_missed(file_cov: &FileCoverage, line: usize) -> (r: bool)
    ensures
        r == branch_missed(file_cov@, line as int),
{
    let n = line as u64;
    let mut j: usize = 0;
    while j < file_cov.branches.len()
        invariant
            j <= file_cov.branches.len(),
            n == line,
            !exists|k: int|
                0 <= k < j && !(#[trigger] file_cov@.branches[k]).skip
                    && file_cov@.branches[k].line == line && has_untaken_path(
                    file_cov@.branches[k],
                ),
        decreases file_cov.branches.len() - j,
    {
        let branch = &file_cov.branches[j];
        assert(branch@ == file_cov@.branches[j as int]);
        if !branch.skip && branch.line == n && untaken(branch.counts.as_slice()) {
            return true;
        }
        j += 1;
    }
    false
}

/// Whether one of the counts is zero.
fn untaken(counts: &[Option<u64>]) -> (r: bool)
    ensures
        r == exists|k: int| 0 <= k < counts@.len() && #[trigger] counts@[k] == Some(0u64),
{
    let mut k: usize = 0;
    while k < counts.len()
        invariant
            k <= counts.len(),
            forall|m: int| 0 <= m < k ==> #[trigger] counts@[m] != Some(0u64),
        decreases counts.len() - k,
    {
        match counts[k] {
            Some(count) => {
                if count == 0 {
                    return true;
                }
            },
            None => {},
        }
        k += 1;
    }
    false
}

/// Find the coverage data for a file: the first entry of the report whose
/// path names the changed file.
pub fn find_coverage_data<'a>(
    report: &'a CoverageReport,
    changed_file_rel_path: &str,
    ws: &Workspace,
) -> (r: Option<&'a FileCoverage>)
    ensures
        r is Some == coverage_of(report@, changed_file_rel_path@, *ws) is Some,
        r matches Some(file) ==> coverage_of(report@, changed_file_rel_path@, *ws) == Some(
            file@,
        ),
{
    let root = split_path(ws.repo_root.as_str(), &ws.rule);
    let file = split_path(changed_file_rel_path, &ws.rule);
    let root_is_rooted = rooted(ws.repo_root.as_str());
    let mut i: usize = 0;
    assert(report@.skip(0) == report@);
    while i < report.files.len()
        invariant
            i <= report.files.len(),
            rows(root@) == parts(ws.repo_root@, ws.rule),
            rows(file@) == parts(changed_file_rel_path@, ws.rule),
            root_is_rooted == is_rooted(ws.repo_root@),
            coverage_of(report@, changed_file_rel_path@, *ws) == coverage_of(
                report@.skip(i as int),
                changed_file_rel_path@,
                *ws,
            ),
        decreases report.files.len() - i,
    {
        assert(report@.skip(i as int)[0] == report.files@[i as int]@);
        if names_same_file(
            report.files[i].path.as_str(),
            root_is_rooted,
            &root,
            &file,
            &ws.rule,
        ) {
            return Some(&report.files[i]);
        }
        assert(report@.skip(i as int).drop_first() == report@.skip(i + 1));
        i += 1;
    }
    None
}

/// The first package in whose directory the file lies.
fn find_package<'a>(packages: &'a [PackageCoverage], file: &Vec<Vec<char>>) -> (r: Option<
    &'a PackageCoverage,
>)
    ensures
        r is Some == package_of(package_views(packages@), rows(file@)) is Some,
        r matches Some(package) ==> package_of(package_views(packages@), rows(file@)) == Some(
            package@,
        ),
{
    let ghost all = package_views(packages@);
    let mut i: usize = 0;
    assert(all.skip(0) == all);
    while i < packages.len()
        invariant
            i <= packages.len(),
            all == package_views(packages@),
            package_of(all, rows(file@)) == package_of(all.skip(i as int), rows(file@)),
        decreases packages.len() - i,
    {
        assert(all.skip(i as int)[0] == packages@[i as int]@);
        if is_under(file, &packages[i].dir) {
            return Some(&packages[i]);
        }
        assert(all.skip(i as int).drop_first() == all.skip(i + 1));
        i += 1;
    }
    None
}

/// Looks up the coverage data for a changed file.
pub fn find_file_coverage<'a>(
    file_from_diff: &str,
    packages: &'a [PackageCoverage],
    ws: &Workspace,
) -> (r: Option<&'a FileCoverage>)
    ensures
        r is Some == coverage_for(package_views(packages@), *ws, file_from_diff@) is Some,
        r matches Some(file) ==> coverage_for(package_views(packages@), *ws, file_from_diff@)
            == Some(file@),
{
    let file = split_path(file_from_diff, &ws.rule);
    match find_package(packages, &file) {
        None => None,
        Some(package) => find_coverage_data(&package.report, file_from_diff, ws),
    }
}

/// The verdict on line `line` of a file, given its coverage data if there
/// is any.
fn verdict_with(coverage: Option<&FileCoverage>, line: usize) -> (v: LineVerdict)
    ensures
        v == match coverage {
            None => LineVerdict::Uncovered,
            Some(file) => verdict(file@, line as int),
        },
{
    match coverage {
        None => LineVerdict::Uncovered,
        Some(file_cov) => process_file_statements(file_cov, line),
    }
}

/// Check coverage for one line of a changed file: its verdict, given the
/// coverage of the packages.
pub fn check_file_coverage(
    file_from_diff: &str,
    line: usize,
    packages: &[PackageCoverage],
    ws: &Workspace,
) -> (v: LineVerdict)
    ensures
        v == entry_verdict(package_views(packages@), *ws, (file_from_diff@, line)),
{
    verdict_with(find_file_coverage(file_from_diff, packages, ws), line)
}

/// Process a single coverage file: the coverage of its package, or why the
/// artifact is passed over.
pub fn process_coverage_file(artifact: &CoverageArtifact, ws: &Workspace) -> (r: Result<
    PackageCoverage,
    Skipped,
>)
    ensures
        r matches Ok(package) ==> package_from(*artifact, *ws) == Ok::<PackageView, Skipped>(
            package@,
        ),
        r matches Err(why) ==> package_from(*artifact, *ws) == Err::<PackageView, Skipped>(why),
{
    match &artifact.content {
        None => Err(Skipped::Missing),
        Some(content) => {
            let text = chars_of(content.as_str());
            if trimmed(text.as_slice()).len() == 0 {
                return Err(Skipped::Empty);
            }
            let document = match parse(content.as_str()) {
                Some(document) => document,
                None => {
                    return Err(Skipped::Malformed);
                },
            };
            match get_package_relative_path(
                artifact.path.as_str(),
                ws.repo_root.as_str(),
                &ws.rule,
            ) {
                None => Err(Skipped::Misplaced),
                Some(dir) => Ok(PackageCoverage { dir, report: read_report(&document) }),
            }
        },
    }
}

/// Writes what is noted of an artifact that is passed over.
fn note_on_skip(path: &String, why: Skipped) -> (r: String)
    ensures
        r@ == skip_note(path@, why),
{
    match why {
        Skipped::Missing => {
            let mut note = String::from_str("Warning: Coverage file not found at ");
            note.append(path.as_str());
            note.append(", skipping.");
            note
        },
        Skipped::Empty => {
            let mut note = String::from_str("Warning: Coverage file ");
            note.append(path.as_str());
            note.append(" is empty, skipping.");
            note
        },
        Skipped::Malformed => {
            let mut note = String::from_str("Error parsing JSON from ");
            note.append(path.as_str());
            note.append(". Skipping file.");
            note
        },
        Skipped::Misplaced => {
            let mut note = String::from_str(
                "Warning: Could not determine package relative path for ",
            );
            note.append(path.as_str());
            note.append(", skipping coverage checks for this file.");
            note
        },
    }
}

/// Reads the coverage of the packages from the artifacts that are usable,
/// and notes which artifacts are read and which are passed over, and why.
pub fn load_packages(artifacts: &[CoverageArtifact], ws: &Workspace) -> (r: (
    Vec<PackageCoverage>,
    Vec<String>,
))
    ensures
        package_views(r.0@) == packages_from(artifacts@, *ws),
        texts(r.1@) == artifact_notes(artifacts@, *ws),
{
    let mut packages: Vec<PackageCoverage> = Vec::new();
    let mut notes: Vec<String> = Vec::new();
    let mut a: usize = 0;
    assert(artifacts@.take(0) == Seq::<CoverageArtifact>::empty());
    assert(package_views(packages@) == Seq::<PackageView>::empty());
    assert(texts(notes@) == Seq::<Seq<char>>::empty());
    while a < artifacts.len()
        invariant
            a <= artifacts.len(),
            package_views(packages@) == packages_from(artifacts@.take(a as int), *ws),
            texts(notes@) == artifact_notes(artifacts@.take(a as int), *ws),
        decreases artifacts.len() - a,
    {
        assert(artifacts@.take(a + 1).drop_last() == artifacts@.take(a as int));
        let ghost noted = texts(notes@);
        let mut reading = String::from_str("Processing coverage file: ");
        reading.append(artifacts[a].path.as_str());
        notes.push(reading);
        assert(texts(notes@) == noted.push(reading@));
        match process_coverage_file(&artifacts[a], ws) {
            Ok(package) => {
                let ghost before = package_views(packages@);
                let ghost added = package@;
                packages.push(package);
                assert(package_views(packages@) == before.push(added));
            },
            Err(why) => {
                let ghost noted = texts(notes@);
                let note = note_on_skip(&artifacts[a].path, why);
                notes.push(note);
                assert(texts(notes@) == noted.push(note@));
            },
        }
        a += 1;
    }
    assert(artifacts@.take(a as int) == artifacts@);
    (packages, notes)
}

/// Holds the changed lines against the coverage of the packages: every
/// changed line gets its verdict from the first package in whose directory
/// its file lies. The covered lines are counted, the uncovered ones are
/// listed in the order of the changed lines.
pub fn match_lines(
    changed_lines: &ChangedLineSet,
    packages: &[PackageCoverage],
    ws: &Workspace,
) -> (summary: CoverageSummary)
    ensures
        summary.sums_up(changed_lines@, package_views(packages@), *ws),
        summary.uncovered.wf(),
        summary.covered + summary.uncovered@.len() <= summary.total,
{
    let ghost found = package_views(packages@);
    let ghost missed = has_verdict(found, *ws, LineVerdict::Uncovered);
    let ghost hit = has_verdict(found, *ws, LineVerdict::Covered);
    let mut covered: usize = 0;
    let mut uncovered = LineSet::new();
    let mut coverage: Option<&FileCoverage> = None;
    let mut i: usize = 0;
    assert(changed_lines@.take(0) == Seq::<(Seq<char>, usize)>::empty());
    while i < changed_lines.len()
        invariant
            i <= changed_lines@.len(),
            found == package_views(packages@),
            i > 0 ==> (match coverage {
                Some(file) => Some(file@),
                None => None,
            }) == coverage_for(found, *ws, changed_lines@[i - 1].0),
            missed == has_verdict(found, *ws, LineVerdict::Uncovered),
            hit == has_verdict(found, *ws, LineVerdict::Covered),
            uncovered.wf(),
            uncovered@ == distinct(changed_lines@.take(i as int).filter(missed)),
            covered == changed_lines@.take(i as int).filter(hit).len(),
            covered + changed_lines@.take(i as int).filter(missed).len() <= i,
        decreases changed_lines@.len() - i,
    {
        let ghost seen = changed_lines@.take(i as int);
        let ghost entry = changed_lines@[i as int];
        proof {
            assert(changed_lines@.take(i + 1) == seen.push(entry));
            seen.lemma_filter_push(entry, missed);
            seen.lemma_filter_push(entry, hit);
        }
        let path = changed_lines.path_at(i);
        let line = changed_lines.line_at(i);
        if i == 0 || *path != *changed_lines.path_at(i - 1) {
            coverage = find_file_coverage(path.as_str(), packages, ws);
        }
        match verdict_with(coverage, line) {
            LineVerdict::Covered => {
                covered += 1;
            },
            LineVerdict::Uncovered => {
                assert(seen.filter(missed).push(entry).drop_last() == seen.filter(missed));
                uncovered.insert(path, line);
            },
            LineVerdict::NotExecutable => {},
        }
        i += 1;
    }
    proof {
        assert(changed_lines@.take(i as int) == changed_lines@);
        lemma_distinct(changed_lines@.filter(missed));
    }
    CoverageSummary { total: changed_lines.len(), covered, uncovered }
}

/// Process coverage reports and compare them with the changed lines.
///
/// Every changed line gets its verdict from the first usable report of a
/// package in whose directory its file lies. The covered lines are counted,
/// the uncovered ones are listed in the order of the changed lines.
pub fn process_coverage_reports(
    changed_lines: &ChangedLineSet,
    artifacts: &[CoverageArtifact],
    ws: &Workspace,
) -> (summary: CoverageSummary)
    ensures
        summary.sums_up(changed_lines@, packages_from(artifacts@, *ws), *ws),
        summary.uncovered.wf(),
        summary.covered + summary.uncovered@.len() <= summary.total,
{
    let (packages, _) = load_packages(artifacts, ws);
    match_lines(changed_lines, packages.as_slice(), ws)
}

/// What is noted of a line of a file.
pub open spec fn line_note(entry: (Seq<char>, usize), what: Seq<char>) -> Seq<char> {
    "Debug - Line "@ + digits_of(entry.1 as nat) + " in "@ + entry.0 + what
}

/// What is noted of a changed line when every verdict is to be told: nothing
/// of a line that is not executable, unless an untaken branch is declared
/// on it.
pub open spec fn verdict_note(
    packages: Seq<PackageView>,
    ws: Workspace,
    entry: (Seq<char>, usize),
) -> Option<Seq<char>> {
    match coverage_for(packages, ws, entry.0) {
        None => Some(line_note(entry, " is NOT COVERED (file not in report)"@)),
        Some(file) => match verdict(file, entry.1 as int) {
            LineVerdict::Covered => Some(line_note(entry, " is COVERED"@)),
            LineVerdict::Uncovered => Some(
                line_note(entry, " is NOT COVERED (uncovered executable code)"@),
            ),
            LineVerdict::NotExecutable => if branch_missed(file, entry.1 as int) {
                Some(
                    line_note(
                        entry,
                        " is part of an uncovered block, but not executable. Ignoring."@,
                    ),
                )
            } else {
                None
            },
        },
    }
}

/// What is noted of the changed lines, in their order.
pub open spec fn verdict_notes(
    changed: Seq<(Seq<char>, usize)>,
    packages: Seq<PackageView>,
    ws: Workspace,
) -> Seq<Seq<char>>
    decreases changed.len(),
{
    if changed.len() == 0 {
        Seq::empty()
    } else {
        let before = verdict_notes(changed.drop_last(), packages, ws);
        match verdict_note(packages, ws, changed.last()) {
            Some(note) => before.push(note),
            None => before,
        }
    }
}

/// Writes a note on a line of a file.
fn note_on(path: &String, line: usize, what: &str) -> (r: String)
    ensures
        r@ == line_note((path@, line), what@),
{
    let mut note = String::from_str("Debug - Line ");
    note.append(string_of(padded_number(line, 0).as_slice()).as_str());
    note.append(" in ");
    note.append(path.as_str());
    note.append(what);
    note
}

/// Tells the verdict on every changed line, for a detailed account of a run.
pub fn describe_verdicts(
    changed_lines: &ChangedLineSet,
    packages: &[PackageCoverage],
    ws: &Workspace,
) -> (notes: Vec<String>)
    ensures
        texts(notes@) == verdict_notes(changed_lines@, package_views(packages@), *ws),
{
    let ghost found = package_views(packages@);
    let mut notes: Vec<String> = Vec::new();
    let mut i: usize = 0;
    assert(changed_lines@.take(0) == Seq::<(Seq<char>, usize)>::empty());
    assert(texts(notes@) == Seq::<Seq<char>>::empty());
    while i < changed_lines.len()
        invariant
            i <= changed_lines@.len(),
            found == package_views(packages@),
            texts(notes@) == verdict_notes(changed_lines@.take(i as int), found, *ws),
        decreases changed_lines@.len() - i,
    {
        assert(changed_lines@.take(i + 1).drop_last() == changed_lines@.take(i as int));
        let path = changed_lines.path_at(i);
        let line = changed_lines.line_at(i);
        let note = match find_file_coverage(path.as_str(), packages, ws) {
            None => Some(note_on(path, line, " is NOT COVERED (file not in report)")),
            Some(file_cov) => match process_file_statements(file_cov, line) {
                LineVerdict::Covered => Some(note_on(path, line, " is COVERED")),
                LineVerdict::Uncovered => Some(
                    note_on(path, line, " is NOT COVERED (uncovered executable code)"),
                ),
                LineVerdict::NotExecutable => if branch_was_missed(file_cov, line) {
                    Some(
                        note_on(
                            path,
                            line,
                            " is part of an uncovered block, but not executable. Ignoring.",
                        ),
                    )
                } else {
                    None
                },
            },
        };
        match note {
            Some(text) => {
                let ghost before = texts(notes@);
                notes.push(text);
                assert(texts(notes@) == before.push(text@));
            },
            None => {},
        }
        i += 1;
    }
    assert(changed_lines@.take(i as int) == changed_lines@);
    notes
}

/// No more lines are covered than were looked at: the covered and the
/// uncovered lines together are at most the changed lines.
pub proof fn lemma_covered_within_total(
    changed: Seq<(Seq<char>, usize)>,
    packages: Seq<PackageView>,
    ws: Workspace,
)
    ensures
        covered_count(changed, packages, ws) + uncovered_lines(changed, packages, ws).len()
            <= changed.len(),
    decreases changed.len(),
{
    lemma_verdicts_within_total(changed, packages, ws);
    lemma_distinct(changed.filter(has_verdict(packages, ws, LineVerdict::Uncovered)));
}

/// The lines with one verdict and those with another are together at most
/// all lines.
proof fn lemma_verdicts_within_total(
    changed: Seq<(Seq<char>, usize)>,
    packages: Seq<PackageView>,
    ws: Workspace,
)
    ensures
        changed.filter(has_verdict(packages, ws, LineVerdict::Covered)).len() + changed.filter(
            has_verdict(packages, ws, LineVerdict::Uncovered),
        ).len() <= changed.len(),
    decreases changed.len(),
{
    let missed = has_verdict(packages, ws, LineVerdict::Uncovered);
    let hit = has_verdict(packages, ws, LineVerdict::Covered);
    if changed.len() == 0 {
        changed.lemma_filter_len(missed);
        changed.lemma_filter_len(hit);
    } else {
        let before = changed.drop_last();
        lemma_verdicts_within_total(before, packages, ws);
        assert(changed == before.push(changed.last()));
        before.lemma_filter_push(changed.last(), missed);
        before.lemma_filter_push(changed.last(), hit);
    }
}

/// A line on which a branch is declared that is not skipped and has a path
/// that was never taken is never covered, however often the statements on
/// the line ran.
pub proof fn lemma_untaken_branch_never_covered(file: FileView, j: int)
    requires
        0 <= j < file.branches.len(),
        !file.branches[j].skip,
        has_untaken_path(file.branches[j]),
    ensures
        verdict(file, file.branches[j].line as int) != LineVerdict::Covered,
{
    assert(branch_missed(file, file.branches[j].line as int));
}

/// A line in the range of a statement for which the report gives no count is
/// uncovered: a missing count is never taken for a run.
pub proof fn lemma_statement_without_count_is_uncovered(file: FileView, i: int, n: int)
    requires
        0 <= i < file.statements.len(),
        file.statements[i].count is None,
        in_statement(file.statements[i], n),
    ensures
        verdict(file, n) == LineVerdict::Uncovered,
{
    assert(not_run(file.statements[i]));
}

/// Where the report of a file's package has no entry for the file, and where
/// no package has a report for it, every changed line of the file is
/// uncovered.
pub proof fn lemma_file_without_entry_is_uncovered(
    changed: Seq<(Seq<char>, usize)>,
    packages: Seq<PackageView>,
    ws: Workspace,
    i: int,
)
    requires
        0 <= i < changed.len(),
        coverage_for(packages, ws, changed[i].0) is None,
    ensures
        entry_verdict(packages, ws, changed[i]) == LineVerdict::Uncovered,
        uncovered_lines(changed, packages, ws).contains(changed[i]),
{
    let missed = has_verdict(packages, ws, LineVerdict::Uncovered);
    assert(missed(changed[i]));
    changed.lemma_filter_contains(missed, i);
    lemma_distinct(changed.filter(missed));
}

/// Two runs of the matcher on the same changed lines and the same artifacts
/// find the same: the same number of covered lines and the same uncovered
/// lines in the same order.
pub proof fn lemma_matcher_is_deterministic(
    first: CoverageSummary,
    second: CoverageSummary,
    changed: Seq<(Seq<char>, usize)>,
    artifacts: Seq<CoverageArtifact>,
    ws: Workspace,
)
    requires
        first.sums_up(changed, packages_from(artifacts, ws), ws),
        second.sums_up(changed, packages_from(artifacts, ws), ws),
    ensures
        first.total == second.total,
        first.covered == second.covered,
        first.uncovered@ == second.uncovered@,
{
}

} // verus!
