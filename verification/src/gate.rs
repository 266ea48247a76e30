//! Coverage orchestrator: the order of a patch-coverage check, from the diff
//! to the verdict. The check is a state machine: each step takes what the
//! outside has just delivered and says what is to be done next.

use crate::changes::{distinct, paths_of, ChangedLineSet, LineSet};
use crate::diff::{
    change_notes, changed_file_paths, changed_lines, describe_changes,
    get_changed_files_and_lines, named_files, FileFilter, SourceFile,
};
use crate::matcher::{
    artifact_notes, describe_verdicts, load_packages, match_lines, packages_from,
    verdict_notes, CoverageArtifact, CoverageSummary, Workspace,
};
use crate::order::{digits_of, padded_number, push_digits};
use crate::paths::PathRule;
use crate::pm::binary_name;
use crate::render::{display_uncovered_lines, uncovered_rows, RenderOptions};
use crate::runner::{run_tests, test_args, test_message, TestCommand};
use crate::style::{blue, in_blue, in_red, in_yellow, red, yellow};
use crate::text::{chars_of, contains, includes, starts_with, string_of, text_lines, texts};
use vstd::prelude::*;
use vstd::string::StringExecFns;

verus! {

/// What a check is run with.
pub struct CoverageConfig {
    /// The package to which the check is confined, if any.
    pub filter: Option<String>,
    /// The least share, in percent, that the covered lines must have among
    /// the changed lines that are covered or uncovered, if any. Lines that
    /// lie in no statement count neither for nor against it.
    pub threshold: Option<u8>,
    /// Whether every step is told on the way: what becomes of each file and
    /// each line of the diff, which artifacts are passed over and why, and
    /// the verdict on every changed line.
    pub verbose: bool,
    /// Which changed files are looked at.
    pub files: FileFilter,
    /// The rule by which paths are compared.
    pub rule: PathRule,
    /// Whether the check runs on Windows.
    pub windows: bool,
}

/// How a check ended.
#[derive(Clone, Copy, Debug, PartialEq, Eq, Structural)]
pub enum Outcome {
    /// No changed line is left to check: the tests were not run.
    NothingToCheck,
    /// The tests passed and the coverage of the patch is accepted.
    Passed,
    /// No directory with a `package.json` was found.
    RepoNotFound,
    /// The test run failed.
    TestsFailed,
    /// The coverage of the patch is below the threshold.
    BelowThreshold,
    /// A step was handed something that it had not asked for.
    OutOfOrder,
}

impl Outcome {
    /// Whether the check as a whole has succeeded.
    pub open spec fn is_success(&self) -> bool {
        *self == Outcome::NothingToCheck || *self == Outcome::Passed
    }

    /// What is said of a check that has failed; nothing of one that has
    /// succeeded.
    pub open spec fn failure_text(&self) -> Seq<char> {
        match self {
            Outcome::NothingToCheck => Seq::empty(),
            Outcome::Passed => Seq::empty(),
            Outcome::RepoNotFound => {
                "Could not find a repo folder containing package.json (used for resolving coverage paths)."@
            },
            Outcome::TestsFailed => "pnpm test failed."@,
            Outcome::BelowThreshold => "Patch coverage is below the threshold."@,
            Outcome::OutOfOrder => {
                "The coverage check was handed something that it had not asked for."@
            },
        }
    }

    /// What is said of a check that has failed.
    pub fn message(&self) -> (text: String)
        ensures
            text@ == self.failure_text(),
    {
        match self {
            Outcome::NothingToCheck => String::new(),
            Outcome::Passed => String::new(),
            Outcome::RepoNotFound => String::from_str(
                "Could not find a repo folder containing package.json (used for resolving coverage paths).",
            ),
            Outcome::TestsFailed => String::from_str("pnpm test failed."),
            Outcome::BelowThreshold => String::from_str("Patch coverage is below the threshold."),
            Outcome::OutOfOrder => String::from_str(
                "The coverage check was handed something that it had not asked for.",
            ),
        }
    }

    /// Whether the check as a whole has succeeded.
    pub fn succeeded(&self) -> (b: bool)
        ensures
            b == self.is_success(),
    {
        match self {
            Outcome::NothingToCheck => true,
            Outcome::Passed => true,
            _ => false,
        }
    }
}

/// Where a check stands.
pub enum CheckState {
    /// Nothing has been done yet.
    Start,
    /// The repository root was asked for.
    AwaitingRepoRoot,
    /// The diff against the base revision was asked for.
    AwaitingDiff { repo_root: String },
    /// The text of the changed files was asked for.
    AwaitingSources { repo_root: String, diff: String },
    /// The tests are running.
    AwaitingTests { repo_root: String, changed: ChangedLineSet },
    /// The coverage artifacts were asked for.
    AwaitingReports { repo_root: String, changed: ChangedLineSet },
    /// The text of the files with uncovered lines was asked for.
    AwaitingExcerpts { summary: CoverageSummary },
    /// The check is over.
    Finished,
}

/// What the outside has delivered.
pub enum CheckEvent {
    /// The check is to begin.
    Begin,
    /// The nearest directory with a `package.json`, if there is one.
    RepoRoot(Option<String>),
    /// The text of the diff.
    Diff(String),
    /// The files that were asked for.
    Sources(Vec<SourceFile>),
    /// The test run is over: whether its exit status was success, and what
    /// it wrote.
    TestsDone { success: bool, stdout_lines: Vec<String>, stderr_lines: Vec<String> },
    /// The coverage artifacts that were found.
    Reports(Vec<CoverageArtifact>),
    /// The files that were asked for, and how to write the rows.
    Excerpts { sources: Vec<SourceFile>, options: RenderOptions },
}

/// What is to be done next.
pub enum CheckAction {
    /// Find the nearest directory with a `package.json` and work from there.
    FindRepoRoot,
    /// Get the diff of the working tree against the base revision.
    ReadDiff,
    /// Read these files of the working tree.
    ReadSources { paths: Vec<String> },
    /// Print the notes and the announcement, and run the tests.
    RunTests { notes: Vec<String>, announcement: String, command: TestCommand },
    /// Print the announcement and read the artifacts that the pattern, a
    /// path from the repository root, names.
    ReadReports { announcement: String, pattern: String },
    /// Print the notes and read these files of the working tree.
    ReadExcerpts { notes: Vec<String>, paths: Vec<String> },
    /// Print the rows, the error rows to standard error, and end.
    Stop { rows: Vec<String>, error_rows: Vec<String>, outcome: Outcome },
}

/// `text` as an `Option` of plain text.
pub open spec fn plain(text: Option<String>) -> Option<Seq<char>> {
    match text {
        Some(t) => Some(t@),
        None => None,
    }
}

/// The start of the paths of the files of a package.
pub open spec fn package_prefix(package: Seq<char>) -> Seq<char> {
    "packages/"@ + package + "/"@
}

/// The test that a changed line is in the scope of the check: its file is
/// not under a `__tests__` directory and, with a filter, lies in the
/// filter's package.
pub open spec fn in_scope(filter: Option<Seq<char>>) -> spec_fn((Seq<char>, usize)) -> bool {
    |entry: (Seq<char>, usize)|
        !contains(entry.0, "__tests__"@) && match filter {
            Some(package) => package_prefix(package).is_prefix_of(entry.0),
            None => true,
        }
}

/// The changed lines that are in the scope of the check, each once.
pub open spec fn scoped(changed: Seq<(Seq<char>, usize)>, filter: Option<Seq<char>>) -> Seq<
    (Seq<char>, usize),
> {
    distinct(changed.filter(in_scope(filter)))
}

/// What is said where no changed line is in scope.
pub open spec fn out_of_scope_text(filter: Option<Seq<char>>) -> Seq<char> {
    match filter {
        Some(package) => in_yellow(
            "No changed lines found in package '"@ + package + "' to check for coverage."@,
        ),
        None => in_yellow("No changed lines found (excluding '__tests__') to check for coverage."@),
    }
}

/// What is said before the tests run.
pub open spec fn tests_announcement(filter: Option<Seq<char>>) -> Seq<char> {
    match filter {
        Some(package) => in_blue(
            "Running unit tests with coverage for package '"@ + package + "'..."@,
        ),
        None => in_blue("Running unit tests with coverage for all packages..."@),
    }
}

/// Where the coverage artifacts are, from the repository root: that of the
/// filter's package, or those of all packages.
pub open spec fn reports_pattern(filter: Option<Seq<char>>) -> Seq<char> {
    match filter {
        Some(package) => "packages/"@ + package + "/results/unit/coverage/coverage-final.json"@,
        None => "packages/*/results/unit/coverage/coverage-final.json"@,
    }
}

/// Whether the covered lines are at least `threshold` percent of the lines
/// that are covered or uncovered. Without such lines, and without a
/// threshold, there is nothing to fall short of.
pub open spec fn meets(covered: int, uncovered: int, threshold: Option<u8>) -> bool {
    match threshold {
        Some(percent) => covered * 100 >= percent * (covered + uncovered),
        None => true,
    }
}

/// The rows that end a check whose tests have passed: a note where no line
/// was looked at, else the uncovered lines.
pub open spec fn result_rows(
    total: int,
    uncovered: Seq<(Seq<char>, usize)>,
    sources: Seq<SourceFile>,
    options: RenderOptions,
) -> Seq<Seq<char>> {
    if total == 0 {
        seq![in_yellow("No relevant lines found in patch to calculate coverage against."@)]
    } else {
        uncovered_rows(uncovered, sources, options)
    }
}

/// The row that tells by how much a patch misses the threshold.
pub open spec fn shortfall_row(covered: nat, uncovered: nat, percent: nat) -> Seq<char> {
    in_red(
        "Patch coverage: "@ + digits_of(covered) + " of "@ + digits_of(covered + uncovered)
            + " changed lines are covered, "@ + digits_of(percent) + "% are required."@,
    )
}

/// The rows that end a check whose tests have passed, with the shortfall
/// where the coverage of the patch is below the threshold.
pub open spec fn final_rows(
    summary: CoverageSummary,
    threshold: Option<u8>,
    sources: Seq<SourceFile>,
    options: RenderOptions,
) -> Seq<Seq<char>> {
    let rows = result_rows(summary.total as int, summary.uncovered@, sources, options);
    match threshold {
        Some(percent) => if meets(
            summary.covered as int,
            summary.uncovered@.len() as int,
            threshold,
        ) {
            rows
        } else {
            rows.push(
                shortfall_row(
                    summary.covered as nat,
                    summary.uncovered@.len(),
                    percent as nat,
                ),
            )
        },
        None => rows,
    }
}

/// The rows that show what a failed test run wrote to its standard output.
pub open spec fn failure_rows(stdout_lines: Seq<Seq<char>>) -> Seq<Seq<char>> {
    seq!["pnpm test stdout:"@] + stdout_lines + seq!["pnpm test stderr:"@]
}

/// What is told on the way: the notes where the check is verbose, nothing
/// where it is not.
pub open spec fn told(config: CoverageConfig, notes: Seq<Seq<char>>) -> Seq<Seq<char>> {
    if config.verbose {
        notes
    } else {
        Seq::empty()
    }
}

/// Whether `action` ends the check with these rows and this outcome.
pub open spec fn stops_with(
    action: CheckAction,
    rows: Seq<Seq<char>>,
    error_rows: Seq<Seq<char>>,
    outcome: Outcome,
) -> bool {
    action matches CheckAction::Stop { rows: r, error_rows: e, outcome: o } && texts(r@) == rows
        && texts(e@) == error_rows && o == outcome
}

/// Whether, in the state `state` and on the event `event`, the check goes on
/// to the state `next` with the action `action`.
pub open spec fn steps_to(
    config: CoverageConfig,
    state: CheckState,
    event: CheckEvent,
    next: CheckState,
    action: CheckAction,
) -> bool {
    let filter = plain(config.filter);
    match (state, event) {
        (CheckState::Start, CheckEvent::Begin) => {
            next is AwaitingRepoRoot && action is FindRepoRoot
        },
        (CheckState::AwaitingRepoRoot, CheckEvent::RepoRoot(None)) => {
            next is Finished && stops_with(
                action,
                Seq::empty(),
                Seq::empty(),
                Outcome::RepoNotFound,
            )
        },
        (CheckState::AwaitingRepoRoot, CheckEvent::RepoRoot(Some(root))) => {
            &&& next matches CheckState::AwaitingDiff { repo_root }
            &&& repo_root@ == root@
            &&& action is ReadDiff
        },
        (CheckState::AwaitingDiff { repo_root: root }, CheckEvent::Diff(text)) => {
            &&& next matches CheckState::AwaitingSources { repo_root, diff }
            &&& repo_root@ == root@
            &&& diff@ == text@
            &&& action matches CheckAction::ReadSources { paths }
            &&& texts(paths@) == named_files(text_lines(text@), config.files)
        },
        (
            CheckState::AwaitingSources { repo_root: root, diff },
            CheckEvent::Sources(sources),
        ) => {
            let changed = changed_lines(diff@, config.files, sources@);
            let kept = scoped(changed, filter);
            let on_the_way = told(config, change_notes(diff@, config.files, sources@));
            if changed.len() == 0 {
                next is Finished && stops_with(
                    action,
                    on_the_way.push(in_yellow("No changes detected compared to main branch."@)),
                    Seq::empty(),
                    Outcome::NothingToCheck,
                )
            } else if kept.len() == 0 {
                next is Finished && stops_with(
                    action,
                    on_the_way.push(out_of_scope_text(filter)),
                    Seq::empty(),
                    Outcome::NothingToCheck,
                )
            } else {
                &&& next matches CheckState::AwaitingTests { repo_root, changed: lines }
                &&& repo_root@ == root@
                &&& lines@ == kept
                &&& action matches CheckAction::RunTests { notes, announcement, command }
                &&& texts(notes@) == on_the_way
                &&& announcement@ == tests_announcement(filter)
                &&& command.program@ == binary_name("pnpm"@, config.windows)
                &&& texts(command.args@) == test_args(filter)
                &&& command.message@ == test_message(filter)
            }
        },
        (
            CheckState::AwaitingTests { repo_root: root, changed },
            CheckEvent::TestsDone { success, stdout_lines, stderr_lines },
        ) => {
            if success {
                &&& next matches CheckState::AwaitingReports { repo_root, changed: lines }
                &&& repo_root@ == root@
                &&& lines@ == changed@
                &&& action matches CheckAction::ReadReports { announcement, pattern }
                &&& announcement@ == in_blue("\nProcessing coverage reports..."@)
                &&& pattern@ == reports_pattern(filter)
            } else {
                next is Finished && stops_with(
                    action,
                    failure_rows(texts(stdout_lines@)),
                    texts(stderr_lines@),
                    Outcome::TestsFailed,
                )
            }
        },
        (
            CheckState::AwaitingReports { repo_root: root, changed },
            CheckEvent::Reports(artifacts),
        ) => {
            let ws = Workspace { repo_root: root, rule: config.rule };
            &&& next matches CheckState::AwaitingExcerpts { summary }
            &&& summary.sums_up(changed@, packages_from(artifacts@, ws), ws)
            &&& action matches CheckAction::ReadExcerpts { notes, paths }
            &&& texts(notes@) == told(
                config,
                artifact_notes(artifacts@, ws) + verdict_notes(
                    changed@,
                    packages_from(artifacts@, ws),
                    ws,
                ),
            )
            &&& texts(paths@) == paths_of(summary.uncovered@)
        },
        (
            CheckState::AwaitingExcerpts { summary },
            CheckEvent::Excerpts { sources, options },
        ) => {
            next is Finished && stops_with(
                action,
                final_rows(summary, config.threshold, sources@, options),
                Seq::empty(),
                if meets(
                    summary.covered as int,
                    summary.uncovered@.len() as int,
                    config.threshold,
                ) {
                    Outcome::Passed
                } else {
                    Outcome::BelowThreshold
                },
            )
        },
        _ => {
            next is Finished && stops_with(
                action,
                Seq::empty(),
                Seq::empty(),
                Outcome::OutOfOrder,
            )
        },
    }
}

/// The changed lines that are in the scope of the check.
pub fn scope_changes(changed: &ChangedLineSet, filter: &Option<String>) -> (kept: ChangedLineSet)
    ensures
        kept@ == scoped(changed@, plain(*filter)),
        kept.wf(),
{
    let tests_dir = chars_of("__tests__");
    let prefix = match filter {
        Some(package) => {
            let mut p = String::from_str("packages/");
            p.append(package.as_str());
            p.append("/");
            Some(chars_of(p.as_str()))
        },
        None => None,
    };
    let ghost test = in_scope(plain(*filter));
    let mut kept = LineSet::new();
    let mut i: usize = 0;
    assert(changed@.take(0) == Seq::<(Seq<char>, usize)>::empty());
    while i < changed.len()
        invariant
            i <= changed@.len(),
            kept.wf(),
            tests_dir@ == "__tests__"@,
            test == in_scope(plain(*filter)),
            match (filter, prefix) {
                (Some(package), Some(p)) => p@ == package_prefix(package@),
                (None, None) => true,
                _ => false,
            },
            kept@ == distinct(changed@.take(i as int).filter(test)),
        decreases changed@.len() - i,
    {
        let ghost seen = changed@.take(i as int);
        let ghost entry = changed@[i as int];
        proof {
            assert(changed@.take(i + 1) == seen.push(entry));
            seen.lemma_filter_push(entry, test);
        }
        let path = changed.path_at(i);
        let line = changed.line_at(i);
        let name = chars_of(path.as_str());
        let inside = match &prefix {
            Some(p) => starts_with(name.as_slice(), p.as_slice()),
            None => true,
        };
        if !includes(name.as_slice(), tests_dir.as_slice()) && inside {
            assert(seen.filter(test).push(entry).drop_last() == seen.filter(test));
            kept.insert(path, line);
        }
        i += 1;
    }
    assert(changed@.take(i as int) == changed@);
    kept
}

/// Whether `covered` covered and `uncovered` uncovered changed lines satisfy
/// the threshold.
pub fn meets_threshold(covered: usize, uncovered: usize, threshold: Option<u8>) -> (b: bool)
    ensures
        b == meets(covered as int, uncovered as int, threshold),
{
    match threshold {
        Some(percent) => {
            let have: u128 = covered as u128 * 100;
            let measured: u128 = covered as u128 + uncovered as u128;
            assert(percent as int * measured as int <= 255 * 0x1_ffff_ffff_ffff_fffe) by (
                nonlinear_arith)
                requires
                    0 <= percent <= 255,
                    0 <= measured <= 0x1_ffff_ffff_ffff_fffe,
            ;
            let need: u128 = percent as u128 * measured;
            have >= need
        },
        None => true,
    }
}

/// Display coverage results: the rows that end a check whose tests have
/// passed.
pub fn display_coverage_results(
    total_lines_in_patch: usize,
    uncovered_lines_details: &LineSet,
    sources: &[SourceFile],
    options: &RenderOptions,
) -> (rows: Vec<String>)
    ensures
        texts(rows@) == result_rows(
            total_lines_in_patch as int,
            uncovered_lines_details@,
            sources@,
            *options,
        ),
{
    if total_lines_in_patch == 0 {
        let mut rows: Vec<String> = Vec::new();
        rows.push(yellow("No relevant lines found in patch to calculate coverage against."));
        assert(texts(rows@) == seq![
            in_yellow("No relevant lines found in patch to calculate coverage against."@),
        ]);
        return rows;
    }
    display_uncovered_lines(uncovered_lines_details, sources, options)
}

/// Ends the check.
fn stop(rows: Vec<String>, error_rows: Vec<String>, outcome: Outcome) -> (r: (
    CheckState,
    CheckAction,
))
    ensures
        r.0 is Finished,
        stops_with(r.1, texts(rows@), texts(error_rows@), outcome),
{
    (CheckState::Finished, CheckAction::Stop { rows, error_rows, outcome })
}

/// The given rows and one more.
fn with_row(rows: Vec<String>, row: String) -> (r: Vec<String>)
    ensures
        texts(r@) == texts(rows@).push(row@),
{
    let mut r = rows;
    r.push(row);
    assert(texts(r@) == texts(rows@).push(row@));
    r
}

/// No rows.
fn no_rows() -> (rows: Vec<String>)
    ensures
        texts(rows@) == Seq::<Seq<char>>::empty(),
{
    let rows: Vec<String> = Vec::new();
    assert(texts(rows@) == Seq::<Seq<char>>::empty());
    rows
}

/// The rows of `first`, then those of `second`.
fn joined_rows(first: Vec<String>, second: Vec<String>) -> (rows: Vec<String>)
    ensures
        texts(rows@) == texts(first@) + texts(second@),
{
    let mut rows = first;
    let mut i: usize = 0;
    assert(texts(second@).take(0) == Seq::<Seq<char>>::empty());
    assert(texts(rows@) == texts(first@) + texts(second@).take(0));
    while i < second.len()
        invariant
            i <= second.len(),
            texts(rows@) == texts(first@) + texts(second@).take(i as int),
        decreases second.len() - i,
    {
        let ghost before = texts(rows@);
        rows.push(second[i].clone());
        assert(texts(rows@) == before.push(second@[i as int]@));
        assert(texts(second@).take(i + 1) == texts(second@).take(i as int).push(
            second@[i as int]@,
        ));
        i += 1;
    }
    assert(texts(second@).take(i as int) == texts(second@));
    rows
}

/// What is said where no changed line is in scope.
fn out_of_scope_message(filter: &Option<String>) -> (r: String)
    ensures
        r@ == out_of_scope_text(plain(*filter)),
{
    match filter {
        Some(package) => {
            let mut text = String::from_str("No changed lines found in package '");
            text.append(package.as_str());
            text.append("' to check for coverage.");
            yellow(text.as_str())
        },
        None => yellow("No changed lines found (excluding '__tests__') to check for coverage."),
    }
}

/// What is said before the tests run.
fn announce_tests(filter: &Option<String>) -> (r: String)
    ensures
        r@ == tests_announcement(plain(*filter)),
{
    match filter {
        Some(package) => {
            let mut text = String::from_str("Running unit tests with coverage for package '");
            text.append(package.as_str());
            text.append("'...");
            blue(text.as_str())
        },
        None => blue("Running unit tests with coverage for all packages..."),
    }
}

/// Where the coverage artifacts are, from the repository root.
fn pattern_of_reports(filter: &Option<String>) -> (r: String)
    ensures
        r@ == reports_pattern(plain(*filter)),
{
    match filter {
        Some(package) => {
            let mut text = String::from_str("packages/");
            text.append(package.as_str());
            text.append("/results/unit/coverage/coverage-final.json");
            text
        },
        None => String::from_str("packages/*/results/unit/coverage/coverage-final.json"),
    }
}

/// The row that tells by how much a patch misses the threshold.
fn shortfall(covered: usize, uncovered: usize, percent: u8) -> (r: String)
    ensures
        r@ == shortfall_row(covered as nat, uncovered as nat, percent as nat),
{
    let mut measured: Vec<char> = Vec::new();
    push_digits(covered as u128 + uncovered as u128, &mut measured);
    let mut text = String::from_str("Patch coverage: ");
    text.append(string_of(padded_number(covered, 0).as_slice()).as_str());
    text.append(" of ");
    text.append(string_of(measured.as_slice()).as_str());
    text.append(" changed lines are covered, ");
    text.append(string_of(padded_number(percent as usize, 0).as_slice()).as_str());
    text.append("% are required.");
    red(text.as_str())
}

/// The rows that show what a failed test run wrote to its standard output.
fn rows_of_failure(stdout_lines: Vec<String>) -> (rows: Vec<String>)
    ensures
        texts(rows@) == failure_rows(texts(stdout_lines@)),
{
    let mut rows: Vec<String> = Vec::new();
    rows.push(String::from_str("pnpm test stdout:"));
    let mut i: usize = 0;
    while i < stdout_lines.len()
        invariant
            i <= stdout_lines.len(),
            texts(rows@) == seq!["pnpm test stdout:"@] + texts(stdout_lines@).take(i as int),
        decreases stdout_lines.len() - i,
    {
        let ghost before = texts(rows@);
        let row = stdout_lines[i].clone();
        rows.push(row);
        assert(texts(rows@) == before.push(stdout_lines@[i as int]@));
        assert(texts(stdout_lines@).take(i + 1) == texts(stdout_lines@).take(i as int).push(
            stdout_lines@[i as int]@,
        ));
        i += 1;
    }
    assert(texts(stdout_lines@).take(i as int) == texts(stdout_lines@));
    let ghost before = texts(rows@);
    rows.push(String::from_str("pnpm test stderr:"));
    assert(texts(rows@) == before.push("pnpm test stderr:"@));
    rows
}

/// Run the coverage check command, one step at a time: in the state `state`
/// and on the event `event`, the state in which the check goes on and what
/// is to be done next.
pub fn run_coverage_check(config: &CoverageConfig, state: CheckState, event: CheckEvent) -> (r: (
    CheckState,
    CheckAction,
))
    ensures
        steps_to(*config, state, event, r.0, r.1),
{
    match (state, event) {
        (CheckState::Start, CheckEvent::Begin) => (
            CheckState::AwaitingRepoRoot,
            CheckAction::FindRepoRoot,
        ),
        (CheckState::AwaitingRepoRoot, CheckEvent::RepoRoot(None)) => stop(
            no_rows(),
            no_rows(),
            Outcome::RepoNotFound,
        ),
        (CheckState::AwaitingRepoRoot, CheckEvent::RepoRoot(Some(root))) => (
            CheckState::AwaitingDiff { repo_root: root },
            CheckAction::ReadDiff,
        ),
        (CheckState::AwaitingDiff { repo_root }, CheckEvent::Diff(text)) => {
            let paths = changed_file_paths(text.as_str(), &config.files);
            (
                CheckState::AwaitingSources { repo_root, diff: text },
                CheckAction::ReadSources { paths },
            )
        },
        (CheckState::AwaitingSources { repo_root, diff }, CheckEvent::Sources(sources)) => {
            let changed = get_changed_files_and_lines(
                diff.as_str(),
                &config.files,
                sources.as_slice(),
            );
            let notes = if config.verbose {
                describe_changes(diff.as_str(), &config.files, sources.as_slice())
            } else {
                no_rows()
            };
            if changed.is_empty() {
                return stop(
                    with_row(notes, yellow("No changes detected compared to main branch.")),
                    no_rows(),
                    Outcome::NothingToCheck,
                );
            }
            let kept = scope_changes(&changed, &config.filter);
            if kept.is_empty() {
                return stop(
                    with_row(notes, out_of_scope_message(&config.filter)),
                    no_rows(),
                    Outcome::NothingToCheck,
                );
            }
            let command = run_tests(&config.filter, config.windows);
            (
                CheckState::AwaitingTests { repo_root, changed: kept },
                CheckAction::RunTests {
                    notes,
                    announcement: announce_tests(&config.filter),
                    command,
                },
            )
        },
        (
            CheckState::AwaitingTests { repo_root, changed },
            CheckEvent::TestsDone { success, stdout_lines, stderr_lines },
        ) => {
            if !success {
                return stop(rows_of_failure(stdout_lines), stderr_lines, Outcome::TestsFailed);
            }
            (
                CheckState::AwaitingReports { repo_root, changed },
                CheckAction::ReadReports {
                    announcement: blue("\nProcessing coverage reports..."),
                    pattern: pattern_of_reports(&config.filter),
                },
            )
        },
        (CheckState::AwaitingReports { repo_root, changed }, CheckEvent::Reports(artifacts)) => {
            let ws = Workspace { repo_root, rule: config.rule };
            let (packages, loaded) = load_packages(artifacts.as_slice(), &ws);
            let summary = match_lines(&changed, packages.as_slice(), &ws);
            let notes = if config.verbose {
                joined_rows(loaded, describe_verdicts(&changed, packages.as_slice(), &ws))
            } else {
                no_rows()
            };
            let paths = summary.uncovered.paths();
            (CheckState::AwaitingExcerpts { summary }, CheckAction::ReadExcerpts { notes, paths })
        },
        (
            CheckState::AwaitingExcerpts { summary },
            CheckEvent::Excerpts { sources, options },
        ) => {
            let mut rows = display_coverage_results(
                summary.total,
                &summary.uncovered,
                sources.as_slice(),
                &options,
            );
            let outcome = if meets_threshold(
                summary.covered,
                summary.uncovered.len(),
                config.threshold,
            ) {
                Outcome::Passed
            } else {
                match config.threshold {
                    Some(percent) => {
                        let ghost before = texts(rows@);
                        let row = shortfall(summary.covered, summary.uncovered.len(), percent);
                        rows.push(row);
                        assert(texts(rows@) == before.push(row@));
                    },
                    None => {},
                }
                Outcome::BelowThreshold
            };
            stop(rows, no_rows(), outcome)
        },
        _ => stop(no_rows(), no_rows(), Outcome::OutOfOrder),
    }
}

/// The tests are run only where a changed line is in scope: a step asks for
/// a test run only once the changed files are at hand, and then only if some
/// changed line is left to check. With none, the check ends at once and
/// reports that there is nothing to check.
pub proof fn lemma_no_lines_no_tests(
    config: CoverageConfig,
    state: CheckState,
    event: CheckEvent,
    next: CheckState,
    action: CheckAction,
)
    requires
        steps_to(config, state, event, next, action),
    ensures
        action is RunTests ==> (state matches CheckState::AwaitingSources { diff, .. }
            && event matches CheckEvent::Sources(sources) && scoped(
            changed_lines(diff@, config.files, sources@),
            plain(config.filter),
        ).len() > 0),
        (state matches CheckState::AwaitingSources { diff, .. }
            && event matches CheckEvent::Sources(sources) && scoped(
            changed_lines(diff@, config.files, sources@),
            plain(config.filter),
        ).len() == 0) ==> (action matches CheckAction::Stop { outcome, .. } && outcome
            == Outcome::NothingToCheck),
{
    match (state, event) {
        (CheckState::AwaitingSources { repo_root, diff }, CheckEvent::Sources(sources)) => {

        },
        _ => {},
    }
}

} // verus!
