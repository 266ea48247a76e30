use zedc::changes::LineSet;
use zedc::diff::{FileFilter, SourceFile};
use zedc::gate::{
    display_coverage_results, meets_threshold, run_coverage_check, scope_changes, CheckAction,
    CheckEvent, CheckState, CoverageConfig, Outcome,
};
use zedc::matcher::CoverageArtifact;
use zedc::paths::PathRule;
use zedc::render::RenderOptions;
use zedc::runner::{finish_message, process_stderr, process_stdout, run_tests};

fn config(filter: Option<&str>, threshold: Option<u8>) -> CoverageConfig {
    CoverageConfig {
        filter: filter.map(|f| f.to_string()),
        threshold,
        verbose: false,
        files: FileFilter::project(),
        rule: PathRule { ignore_case: false },
        windows: false,
    }
}

fn source(path: &str, content: &str) -> SourceFile {
    SourceFile { path: path.to_string(), content: Ok(content.to_string()) }
}

fn artifact(package: &str, content: &str) -> CoverageArtifact {
    CoverageArtifact {
        path: format!("/repo/packages/{}/results/unit/coverage/coverage-final.json", package),
        content: Some(content.to_string()),
    }
}

fn options() -> RenderOptions {
    RenderOptions { hyperlinks: false, current_dir: "/repo".to_string() }
}

/// Runs a check up to the point where the changed files have been read.
fn up_to_sources(
    config: &CoverageConfig,
    diff: &str,
    sources: Vec<SourceFile>,
) -> (CheckState, CheckAction) {
    let (state, action) = run_coverage_check(config, CheckState::Start, CheckEvent::Begin);
    assert!(matches!(action, CheckAction::FindRepoRoot));
    let (state, action) =
        run_coverage_check(config, state, CheckEvent::RepoRoot(Some("/repo".to_string())));
    assert!(matches!(action, CheckAction::ReadDiff));
    let (state, action) = run_coverage_check(config, state, CheckEvent::Diff(diff.to_string()));
    assert!(matches!(action, CheckAction::ReadSources { .. }));
    run_coverage_check(config, state, CheckEvent::Sources(sources))
}

fn tests_passed() -> CheckEvent {
    CheckEvent::TestsDone { success: true, stdout_lines: Vec::new(), stderr_lines: Vec::new() }
}

#[test]
fn seven_executable_lines_five_covered_two_uncovered() {
    let config = config(None, None);
    let content = "const a = 1;\n\n// note\nconst b = 2;\nconst c = 3;\n   \nconst d = 4;\nconst e = 5;\nconst f = 6;\nconst g = 7;\n";
    let diff = "+++ b/packages/pkg-a/src/a.ts\n@@ -0,0 +1,10 @@\n";
    let report = "{\"/repo/packages/pkg-a/src/a.ts\": {\"path\": \"/repo/packages/pkg-a/src/a.ts\", \"statementMap\": {\
        \"0\": {\"start\": {\"line\": 1}, \"end\": {\"line\": 1}},\
        \"1\": {\"start\": {\"line\": 4}, \"end\": {\"line\": 4}},\
        \"2\": {\"start\": {\"line\": 5}, \"end\": {\"line\": 5}},\
        \"3\": {\"start\": {\"line\": 7}, \"end\": {\"line\": 7}},\
        \"4\": {\"start\": {\"line\": 8}, \"end\": {\"line\": 8}},\
        \"5\": {\"start\": {\"line\": 9}, \"end\": {\"line\": 9}},\
        \"6\": {\"start\": {\"line\": 10}, \"end\": {\"line\": 10}}},\
        \"s\": {\"0\": 3, \"1\": 1, \"2\": 0, \"3\": 2, \"4\": 9, \"5\": 0, \"6\": 1},\
        \"branchMap\": {}, \"b\": {}}}";
    let sources = vec![source("packages/pkg-a/src/a.ts", content)];
    let (state, action) =
        up_to_sources(&config, diff, vec![source("packages/pkg-a/src/a.ts", content)]);
    match &action {
        CheckAction::RunTests { announcement, command, .. } => {
            assert_eq!(
                announcement,
                "\x1b[34mRunning unit tests with coverage for all packages...\x1b[39m"
            );
            assert_eq!(command.program, "pnpm");
            assert_eq!(command.args, vec!["-r", "test"]);
            assert_eq!(command.message, "Executing pnpm -r test...");
        }
        _ => panic!("the tests are to run"),
    }
    let (state, action) = run_coverage_check(&config, state, tests_passed());
    match &action {
        CheckAction::ReadReports { announcement, pattern } => {
            assert_eq!(announcement, "\x1b[34m\nProcessing coverage reports...\x1b[39m");
            assert_eq!(pattern, "packages/*/results/unit/coverage/coverage-final.json");
        }
        _ => panic!("the reports are to be read"),
    }
    let (state, action) = run_coverage_check(
        &config,
        state,
        CheckEvent::Reports(vec![artifact("pkg-a", report)]),
    );
    match &state {
        CheckState::AwaitingExcerpts { summary, .. } => {
            assert_eq!(summary.covered, 5);
            assert_eq!(summary.total, 7);
            assert_eq!(
                summary.uncovered.lines_for(&"packages/pkg-a/src/a.ts".to_string()),
                vec![5, 9]
            );
        }
        _ => panic!("the summary is at hand"),
    }
    match &action {
        CheckAction::ReadExcerpts { paths, .. } => {
            assert_eq!(paths, &vec!["packages/pkg-a/src/a.ts".to_string()])
        }
        _ => panic!("the excerpts are to be read"),
    }
    let (state, action) =
        run_coverage_check(&config, state, CheckEvent::Excerpts { sources, options: options() });
    assert!(matches!(state, CheckState::Finished));
    match action {
        CheckAction::Stop { rows, error_rows, outcome } => {
            assert_eq!(outcome, Outcome::Passed);
            assert!(error_rows.is_empty());
            assert_eq!(rows.len(), 6);
            assert_eq!(
                rows[3],
                "  \x1b[2m  5\x1b[0m  \x1b[90m│\x1b[39m \x1b[31mconst c = 3;\x1b[39m"
            );
            assert_eq!(rows[4], "     \x1b[2m···\x1b[0m");
            assert_eq!(
                rows[5],
                "  \x1b[2m  9\x1b[0m  \x1b[90m│\x1b[39m \x1b[31mconst f = 6;\x1b[39m"
            );
        }
        _ => panic!("the check is over"),
    }
}

#[test]
fn package_filter_confines_the_check() {
    let config = config(Some("pkg-a"), None);
    let diff = "+++ b/packages/pkg-a/src/a.ts\n@@ -1 +1,2 @@\n\
                +++ b/packages/pkg-b/src/b.ts\n@@ -1 +1,3 @@\n\
                +++ b/packages/pkg-a/__tests__/t.ts\n@@ -1 +1,4 @@\n\
                +++ b/packages/pkg-a-extra/src/c.ts\n@@ -1 +5 @@\n";
    let (state, action) = up_to_sources(&config, diff, Vec::new());
    match &state {
        CheckState::AwaitingTests { changed, .. } => {
            assert_eq!(changed.len(), 2);
            assert_eq!(changed.paths(), vec!["packages/pkg-a/src/a.ts"]);
        }
        _ => panic!("the tests are to run"),
    }
    match &action {
        CheckAction::RunTests { announcement, command, .. } => {
            assert_eq!(
                announcement,
                "\x1b[34mRunning unit tests with coverage for package 'pkg-a'...\x1b[39m"
            );
            assert_eq!(command.args, vec!["--filter", "pkg-a", "test"]);
        }
        _ => panic!("the tests are to run"),
    }
    let (state, action) = run_coverage_check(&config, state, tests_passed());
    match &action {
        CheckAction::ReadReports { pattern, .. } => {
            assert_eq!(pattern, "packages/pkg-a/results/unit/coverage/coverage-final.json")
        }
        _ => panic!("the reports are to be read"),
    }
    let (state, _) = run_coverage_check(&config, state, CheckEvent::Reports(Vec::new()));
    match &state {
        CheckState::AwaitingExcerpts { summary, .. } => {
            assert_eq!(summary.total, 2);
            assert_eq!(summary.covered, 0);
            assert_eq!(summary.uncovered.paths(), vec!["packages/pkg-a/src/a.ts"]);
        }
        _ => panic!("the summary is at hand"),
    }
}

#[test]
fn empty_artifact_counts_for_nothing_and_the_check_goes_on() {
    let config = config(None, None);
    let diff = "+++ b/packages/pkg-a/src/a.ts\n@@ -1 +1 @@\n\
                +++ b/packages/pkg-b/src/b.ts\n@@ -1 +1 @@\n";
    let report = "{\"x\": {\"path\": \"/repo/packages/pkg-b/src/b.ts\", \"statementMap\": {\
        \"0\": {\"start\": {\"line\": 1}, \"end\": {\"line\": 1}}}, \"s\": {\"0\": 1}}}";
    let (state, _) = up_to_sources(&config, diff, Vec::new());
    let (state, _) = run_coverage_check(&config, state, tests_passed());
    let artifacts = vec![artifact("pkg-a", ""), artifact("pkg-b", report)];
    let (state, _) = run_coverage_check(&config, state, CheckEvent::Reports(artifacts));
    match &state {
        CheckState::AwaitingExcerpts { summary, .. } => {
            assert_eq!(summary.total, 2);
            assert_eq!(summary.covered, 1);
            assert_eq!(
                summary.uncovered.lines_for(&"packages/pkg-a/src/a.ts".to_string()),
                vec![1]
            );
            assert_eq!(summary.uncovered.len(), 1);
        }
        _ => panic!("the summary is at hand"),
    }
}

#[test]
fn no_changes_ends_without_tests() {
    let config = config(None, None);
    let (state, action) = up_to_sources(&config, "", Vec::new());
    assert!(matches!(state, CheckState::Finished));
    match action {
        CheckAction::Stop { rows, outcome, .. } => {
            assert_eq!(outcome, Outcome::NothingToCheck);
            assert!(outcome.succeeded());
            assert_eq!(
                rows,
                vec!["\x1b[33mNo changes detected compared to main branch.\x1b[39m"]
            );
        }
        _ => panic!("the check is over"),
    }
}

#[test]
fn nothing_in_scope_ends_without_tests() {
    let diff = "+++ b/packages/pkg-b/__tests__/b.ts\n@@ -1 +1,3 @@\n";
    let (state, action) = up_to_sources(&config(None, None), diff, Vec::new());
    assert!(matches!(state, CheckState::Finished));
    match action {
        CheckAction::Stop { rows, outcome, .. } => {
            assert_eq!(outcome, Outcome::NothingToCheck);
            assert_eq!(
                rows,
                vec!["\x1b[33mNo changed lines found (excluding '__tests__') to check for coverage.\x1b[39m"]
            );
        }
        _ => panic!("the check is over"),
    }
    let diff = "+++ b/packages/pkg-b/src/b.ts\n@@ -1 +1,3 @@\n";
    let (_, action) = up_to_sources(&config(Some("pkg-a"), None), diff, Vec::new());
    match action {
        CheckAction::Stop { rows, outcome, .. } => {
            assert_eq!(outcome, Outcome::NothingToCheck);
            assert_eq!(
                rows,
                vec!["\x1b[33mNo changed lines found in package 'pkg-a' to check for coverage.\x1b[39m"]
            );
        }
        _ => panic!("the check is over"),
    }
}

#[test]
fn missing_repo_fails_the_check() {
    let config = config(None, None);
    let (state, _) = run_coverage_check(&config, CheckState::Start, CheckEvent::Begin);
    let (state, action) = run_coverage_check(&config, state, CheckEvent::RepoRoot(None));
    assert!(matches!(state, CheckState::Finished));
    match action {
        CheckAction::Stop { outcome, .. } => {
            assert_eq!(outcome, Outcome::RepoNotFound);
            assert!(!outcome.succeeded());
        }
        _ => panic!("the check is over"),
    }
}

#[test]
fn failed_tests_fail_the_check_and_show_the_output() {
    let config = config(None, None);
    let diff = "+++ b/packages/pkg-a/src/a.ts\n@@ -1 +1 @@\n";
    let (state, _) = up_to_sources(&config, diff, Vec::new());
    let event = CheckEvent::TestsDone {
        success: false,
        stdout_lines: vec!["one".to_string(), "two".to_string()],
        stderr_lines: vec!["oops".to_string()],
    };
    let (state, action) = run_coverage_check(&config, state, event);
    assert!(matches!(state, CheckState::Finished));
    match action {
        CheckAction::Stop { rows, error_rows, outcome } => {
            assert_eq!(outcome, Outcome::TestsFailed);
            assert_eq!(rows, vec!["pnpm test stdout:", "one", "two", "pnpm test stderr:"]);
            assert_eq!(error_rows, vec!["oops"]);
        }
        _ => panic!("the check is over"),
    }
}

#[test]
fn event_out_of_order_ends_the_check() {
    let config = config(None, None);
    let (state, action) = run_coverage_check(&config, CheckState::Start, tests_passed());
    assert!(matches!(state, CheckState::Finished));
    assert!(matches!(action, CheckAction::Stop { outcome: Outcome::OutOfOrder, .. }));
    let (_, action) = run_coverage_check(&config, CheckState::Finished, CheckEvent::Begin);
    assert!(matches!(action, CheckAction::Stop { outcome: Outcome::OutOfOrder, .. }));
}

#[test]
fn threshold_decides_the_outcome() {
    assert!(meets_threshold(5, 2, None));
    assert!(meets_threshold(5, 2, Some(71)));
    assert!(!meets_threshold(5, 2, Some(72)));
    assert!(meets_threshold(0, 0, Some(100)));
    assert!(meets_threshold(1, 1, Some(50)));
    assert!(!meets_threshold(1, 1, Some(51)));
    assert!(meets_threshold(usize::MAX, 0, Some(100)));
    assert!(!meets_threshold(usize::MAX, 1, Some(100)));
    assert!(meets_threshold(usize::MAX, usize::MAX, Some(50)));
    assert!(!meets_threshold(usize::MAX, usize::MAX, Some(51)));
    assert!(!meets_threshold(0, 1, Some(255)));

    let config = config(None, Some(80));
    let diff = "+++ b/packages/pkg-a/src/a.ts\n@@ -1 +1,2 @@\n";
    let report = "{\"x\": {\"path\": \"/repo/packages/pkg-a/src/a.ts\", \"statementMap\": {\
        \"0\": {\"start\": {\"line\": 1}, \"end\": {\"line\": 1}},\
        \"1\": {\"start\": {\"line\": 2}, \"end\": {\"line\": 2}}}, \"s\": {\"0\": 1, \"1\": 0}}}";
    let (state, _) = up_to_sources(&config, diff, Vec::new());
    let (state, _) = run_coverage_check(&config, state, tests_passed());
    let (state, _) =
        run_coverage_check(&config, state, CheckEvent::Reports(vec![artifact("pkg-a", report)]));
    let (_, action) = run_coverage_check(
        &config,
        state,
        CheckEvent::Excerpts { sources: Vec::new(), options: options() },
    );
    assert!(matches!(action, CheckAction::Stop { outcome: Outcome::BelowThreshold, .. }));
}

#[test]
fn scope_leaves_out_tests_directories() {
    let mut set = LineSet::new();
    set.insert(&"packages/a/src/x.ts".to_string(), 1);
    set.insert(&"packages/a/__tests__/x.ts".to_string(), 2);
    set.insert(&"packages/b/src/__tests__/y.ts".to_string(), 3);
    set.insert(&"packages/b/src/y.ts".to_string(), 4);
    let kept = scope_changes(&set, &None);
    assert_eq!(kept.paths(), vec!["packages/a/src/x.ts", "packages/b/src/y.ts"]);
    let kept = scope_changes(&set, &Some("b".to_string()));
    assert_eq!(kept.paths(), vec!["packages/b/src/y.ts"]);
    assert_eq!(kept.len(), 1);
}

#[test]
fn results_without_lines_say_so() {
    let rows = display_coverage_results(0, &LineSet::new(), &[], &options());
    assert_eq!(
        rows,
        vec!["\x1b[33mNo relevant lines found in patch to calculate coverage against.\x1b[39m"]
    );
    let rows = display_coverage_results(3, &LineSet::new(), &[], &options());
    assert!(rows.is_empty());
}

#[test]
fn test_command_names_the_package() {
    let command = run_tests(&Some("zowe-explorer".to_string()), false);
    assert_eq!(command.program, "pnpm");
    assert_eq!(command.args, vec!["--filter", "vscode-extension-for-zowe", "test"]);
    assert_eq!(command.message, "Executing pnpm --filter vscode-extension-for-zowe test...");
    let command = run_tests(&Some("zowe-explorer-api".to_string()), true);
    assert_eq!(command.program, "pnpm.cmd");
    assert_eq!(command.args, vec!["--filter", "zowe-explorer-api", "test"]);
    assert_eq!(command.message, "Executing pnpm --filter zowe-explorer-api test...");
    let command = run_tests(&None, false);
    assert_eq!(command.args, vec!["-r", "test"]);
    assert_eq!(command.message, "Executing pnpm -r test...");
}

#[test]
fn finish_message_follows_exit_status() {
    assert_eq!(
        finish_message(true),
        "\x1b[32m✓\x1b[39m \x1b[32m\x1b[1mTests passed\x1b[0m\x1b[39m"
    );
    assert_eq!(
        finish_message(false),
        "\x1b[31m✗\x1b[39m \x1b[31m\x1b[1mTests failed\x1b[0m\x1b[39m"
    );
}

#[test]
fn stdout_lines_report_test_files() {
    assert_eq!(
        process_stdout("packages/a test: PASS __tests__/a.test.ts (5.2 s)"),
        Some("✓ PASS __tests__/a.test.ts".to_string())
    );
    assert_eq!(
        process_stdout("packages/a test: FAIL  __tests__/b.test.ts"),
        Some("✗ FAIL __tests__/b.test.ts".to_string())
    );
    assert_eq!(
        process_stdout("x: FAIL one PASS two FAIL three"),
        Some("✓ PASS two".to_string())
    );
    assert_eq!(process_stdout("pkg: all tests PASS  "), Some("✓ all tests PASS".to_string()));
    assert_eq!(process_stdout("no colon PASS"), Some("✓ ".to_string()));
    assert_eq!(process_stdout("a::: b : FAIL"), Some("✗ b : FAIL".to_string()));
    assert_eq!(process_stdout("nothing of note"), None);
    assert_eq!(process_stdout(""), None);
    assert_eq!(process_stdout("PAS"), None);
}

#[test]
fn stderr_lines_report_failures_only() {
    assert_eq!(process_stderr("x: PASS a.test.ts"), None);
    assert_eq!(
        process_stderr("x: FAIL a.test.ts FAIL b.test.ts"),
        Some("✗ FAIL b.test.ts".to_string())
    );
    assert_eq!(process_stderr("x: it did FAIL"), Some("✗ it did FAIL".to_string()));
}

#[test]
fn lines_in_no_statement_do_not_count_against_the_threshold() {
    let config = config(None, Some(100));
    let diff = "+++ b/packages/pkg-a/src/a.ts\n@@ -1 +1,2 @@\n";
    let report = "{\"x\": {\"path\": \"/repo/packages/pkg-a/src/a.ts\", \"statementMap\": {\
        \"0\": {\"start\": {\"line\": 1}, \"end\": {\"line\": 1}}}, \"s\": {\"0\": 1}}}";
    let (state, _) = up_to_sources(&config, diff, Vec::new());
    let (state, _) = run_coverage_check(&config, state, tests_passed());
    let (state, _) =
        run_coverage_check(&config, state, CheckEvent::Reports(vec![artifact("pkg-a", report)]));
    match &state {
        CheckState::AwaitingExcerpts { summary } => {
            assert_eq!(summary.total, 2);
            assert_eq!(summary.covered, 1);
            assert!(summary.uncovered.is_empty());
        }
        _ => panic!("the summary is at hand"),
    }
    let (_, action) = run_coverage_check(
        &config,
        state,
        CheckEvent::Excerpts { sources: Vec::new(), options: options() },
    );
    match action {
        CheckAction::Stop { rows, outcome, .. } => {
            assert_eq!(outcome, Outcome::Passed);
            assert!(rows.is_empty());
        }
        _ => panic!("the check is over"),
    }
}

#[test]
fn shortfall_is_told_in_numbers() {
    let config = config(None, Some(90));
    let diff = "+++ b/packages/pkg-a/src/a.ts\n@@ -1 +1,3 @@\n";
    let report = "{\"x\": {\"path\": \"/repo/packages/pkg-a/src/a.ts\", \"statementMap\": {\
        \"0\": {\"start\": {\"line\": 1}, \"end\": {\"line\": 1}},\
        \"1\": {\"start\": {\"line\": 2}, \"end\": {\"line\": 2}}}, \"s\": {\"0\": 1, \"1\": 0}}}";
    let (state, _) = up_to_sources(&config, diff, Vec::new());
    let (state, _) = run_coverage_check(&config, state, tests_passed());
    let (state, _) =
        run_coverage_check(&config, state, CheckEvent::Reports(vec![artifact("pkg-a", report)]));
    let (_, action) = run_coverage_check(
        &config,
        state,
        CheckEvent::Excerpts { sources: Vec::new(), options: options() },
    );
    match action {
        CheckAction::Stop { rows, outcome, .. } => {
            assert_eq!(outcome, Outcome::BelowThreshold);
            assert_eq!(
                rows.last().unwrap(),
                "\x1b[31mPatch coverage: 1 of 2 changed lines are covered, 90% are required.\x1b[39m"
            );
        }
        _ => panic!("the check is over"),
    }
}

#[test]
fn verbose_check_tells_every_step() {
    let mut config = config(None, None);
    config.verbose = true;
    let diff = "+++ b/README.md\n@@ -1 +1 @@\n\
                +++ b/packages/pkg-a/src/a.ts\n@@ -1 +1,5 @@\n@@ nonsense\n\
                +++ b/packages/pkg-a/src/b.ts\n@@ -1 +7 @@\n";
    let sources = vec![source("packages/pkg-a/src/a.ts", "one();\n\n// c\n/* d */ x();\n")];
    let report = "{\"x\": {\"path\": \"/repo/packages/pkg-a/src/a.ts\", \"statementMap\": {\
        \"0\": {\"start\": {\"line\": 1}, \"end\": {\"line\": 1}}}, \"s\": {\"0\": 1},\
        \"branchMap\": {\"0\": {\"line\": 3}}, \"b\": {\"0\": [0, 1]}}}";
    let (state, action) = up_to_sources(&config, diff, sources);
    match &action {
        CheckAction::RunTests { notes, .. } => assert_eq!(
            notes,
            &vec![
                "Debug - Ignoring internal or test file: README.md",
                "Debug - Found changed file: packages/pkg-a/src/a.ts",
                "Debug - Successfully read file packages/pkg-a/src/a.ts for empty line checking.",
                "Debug - Adding line 1 from packages/pkg-a/src/a.ts to changed_lines",
                "Debug - Skipping empty/whitespace line 2 in file packages/pkg-a/src/a.ts",
                "Debug - Skipping single-line comment line 3 in file packages/pkg-a/src/a.ts",
                "Debug - Skipping block comment line 4 in file packages/pkg-a/src/a.ts",
                "Debug - File packages/pkg-a/src/a.ts has no line 5. Skipping.",
                "Warning: Could not read the hunk header: @@ nonsense",
                "Debug - Found changed file: packages/pkg-a/src/b.ts",
                "Warning: Could not read file packages/pkg-a/src/b.ts to check for empty lines: file was not loaded. Empty line check will be skipped for this file's hunks.",
                "Debug - Empty line check skipped for line 7 in file packages/pkg-a/src/b.ts (file content not available).",
            ]
        ),
        _ => panic!("the tests are to run"),
    }
    let (state, _) = run_coverage_check(&config, state, tests_passed());
    let artifacts = vec![
        artifact("pkg-b", ""),
        artifact("pkg-c", "{"),
        CoverageArtifact { path: "/repo/packages/pkg-d/results/unit/coverage/coverage-final.json".to_string(), content: None },
        CoverageArtifact { path: "/elsewhere/c.json".to_string(), content: Some("{}".to_string()) },
        artifact("pkg-a", report),
    ];
    let (_, action) = run_coverage_check(&config, state, CheckEvent::Reports(artifacts));
    match &action {
        CheckAction::ReadExcerpts { notes, .. } => assert_eq!(
            notes,
            &vec![
                "Processing coverage file: /repo/packages/pkg-b/results/unit/coverage/coverage-final.json",
                "Warning: Coverage file /repo/packages/pkg-b/results/unit/coverage/coverage-final.json is empty, skipping.",
                "Processing coverage file: /repo/packages/pkg-c/results/unit/coverage/coverage-final.json",
                "Error parsing JSON from /repo/packages/pkg-c/results/unit/coverage/coverage-final.json. Skipping file.",
                "Processing coverage file: /repo/packages/pkg-d/results/unit/coverage/coverage-final.json",
                "Warning: Coverage file not found at /repo/packages/pkg-d/results/unit/coverage/coverage-final.json, skipping.",
                "Processing coverage file: /elsewhere/c.json",
                "Warning: Could not determine package relative path for /elsewhere/c.json, skipping coverage checks for this file.",
                "Processing coverage file: /repo/packages/pkg-a/results/unit/coverage/coverage-final.json",
                "Debug - Line 1 in packages/pkg-a/src/a.ts is COVERED",
                "Debug - Line 7 in packages/pkg-a/src/b.ts is NOT COVERED (file not in report)",
            ]
        ),
        _ => panic!("the excerpts are to be read"),
    }
}

#[test]
fn quiet_check_tells_nothing_on_the_way() {
    let config = config(None, None);
    let diff = "+++ b/README.md\n+++ b/packages/pkg-a/src/a.ts\n@@ -1 +1 @@\n";
    let (state, action) = up_to_sources(&config, diff, Vec::new());
    assert!(matches!(&action, CheckAction::RunTests { notes, .. } if notes.is_empty()));
    let (state, _) = run_coverage_check(&config, state, tests_passed());
    let (_, action) =
        run_coverage_check(&config, state, CheckEvent::Reports(vec![artifact("pkg-a", "")]));
    assert!(matches!(&action, CheckAction::ReadExcerpts { notes, .. } if notes.is_empty()));
}

#[test]
fn verbose_check_without_changes_tells_why() {
    let mut config = config(None, None);
    config.verbose = true;
    let (_, action) = up_to_sources(&config, "+++ b/zedc/src/x.ts\n@@ -1 +1 @@\n", Vec::new());
    match action {
        CheckAction::Stop { rows, outcome, .. } => {
            assert_eq!(outcome, Outcome::NothingToCheck);
            assert_eq!(
                rows,
                vec![
                    "Debug - Ignoring internal or test file: zedc/src/x.ts",
                    "\x1b[33mNo changes detected compared to main branch.\x1b[39m",
                ]
            );
        }
        _ => panic!("the check is over"),
    }
}
