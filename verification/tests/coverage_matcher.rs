use zedc::changes::{ChangedLineSet, LineSet};
use zedc::json::{parse, Json};
use zedc::matcher::{
    check_file_coverage, find_coverage_data, process_coverage_file, process_coverage_reports,
    process_file_statements, CoverageArtifact, LineVerdict, Skipped, Workspace,
};
use zedc::paths::{get_package_relative_path, split_path, PathRule};
use zedc::report::{read_report, Branch, FileCoverage, Statement};

fn workspace() -> Workspace {
    Workspace { repo_root: "/repo".to_string(), rule: PathRule { ignore_case: false } }
}

fn changed(entries: &[(&str, usize)]) -> ChangedLineSet {
    let mut set = LineSet::new();
    for (path, line) in entries {
        set.insert(&path.to_string(), *line);
    }
    set
}

fn artifact(package: &str, content: Option<&str>) -> CoverageArtifact {
    CoverageArtifact {
        path: format!("/repo/packages/{}/results/unit/coverage/coverage-final.json", package),
        content: content.map(|c| c.to_string()),
    }
}

fn statement(start: u64, end: u64, count: Option<u64>) -> Statement {
    Statement { start, end, count }
}

fn file(statements: Vec<Statement>, branches: Vec<Branch>) -> FileCoverage {
    FileCoverage { path: "/repo/packages/p/src/a.ts".to_string(), statements, branches }
}

fn uncovered_of(set: &LineSet, path: &str) -> Vec<usize> {
    set.lines_for(&path.to_string())
}

fn parts(path: &str) -> Vec<String> {
    split_path(path, &PathRule { ignore_case: false })
        .iter()
        .map(|p| p.iter().collect::<String>())
        .collect()
}

#[test]
fn json_values_are_read_variant_by_variant() {
    let doc = parse("{\"a\": [1, -2, 1.5, \"x\", true, null], \"b\": {\"c\": 7}}").unwrap();
    match doc.get("a") {
        Some(Json::Array(items)) => {
            assert_eq!(items.len(), 6);
            assert!(matches!(items[0], Json::Number(Some(1))));
            assert!(matches!(items[1], Json::Number(None)));
            assert!(matches!(items[2], Json::Number(None)));
            assert!(matches!(&items[3], Json::Text(s) if s == "x"));
            assert!(matches!(items[4], Json::Bool(true)));
            assert!(matches!(items[5], Json::Null));
        }
        _ => panic!("a is an array"),
    }
    let b = doc.get("b").unwrap();
    assert!(matches!(b.get("c"), Some(Json::Number(Some(7)))));
    assert!(b.get("d").is_none());
    assert!(doc.get("a").unwrap().get("0").is_none());
}

#[test]
fn text_that_is_not_json_is_rejected() {
    assert!(parse("").is_none());
    assert!(parse("{").is_none());
    assert!(parse("{\"a\": }").is_none());
    assert!(parse("[1, 2] trailing").is_none());
}

#[test]
fn paths_are_cut_into_parts() {
    assert_eq!(parts("/repo/packages/a"), vec!["repo", "packages", "a"]);
    assert_eq!(parts("C:\\repo\\packages//a/"), vec!["C:", "repo", "packages", "a"]);
    assert_eq!(parts("./a/./b"), vec!["a", "b"]);
    assert_eq!(parts("a/../b"), vec!["a", "..", "b"]);
    assert_eq!(parts(""), Vec::<String>::new());
    let folded: Vec<String> = split_path("/Repo/SRC/a.TS", &PathRule { ignore_case: true })
        .iter()
        .map(|p| p.iter().collect::<String>())
        .collect();
    assert_eq!(folded, vec!["repo", "src", "a.ts"]);
}

#[test]
fn package_directory_is_four_levels_above_the_report() {
    let rule = PathRule { ignore_case: false };
    let dir = get_package_relative_path(
        "/repo/packages/zowe-explorer/results/unit/coverage/coverage-final.json",
        "/repo",
        &rule,
    )
    .unwrap();
    let dir: Vec<String> = dir.iter().map(|p| p.iter().collect()).collect();
    assert_eq!(dir, vec!["packages", "zowe-explorer"]);
    assert!(get_package_relative_path("/repo/a/b/c/d.json", "/repo", &rule).is_none());
    assert!(get_package_relative_path("/other/p/a/b/c/d.json", "/repo", &rule).is_none());
    assert!(get_package_relative_path("repo/p/a/b/c/d.json", "/repo", &rule).is_none());
}

#[test]
fn line_outside_every_statement_is_not_executable() {
    let f = file(vec![statement(3, 5, Some(1))], Vec::new());
    assert_eq!(process_file_statements(&f, 2), LineVerdict::NotExecutable);
    assert_eq!(process_file_statements(&f, 6), LineVerdict::NotExecutable);
    assert_eq!(process_file_statements(&f, 3), LineVerdict::Covered);
    assert_eq!(process_file_statements(&f, 5), LineVerdict::Covered);
}

#[test]
fn statement_that_never_ran_makes_its_lines_uncovered() {
    let f = file(vec![statement(1, 10, Some(4)), statement(3, 4, Some(0))], Vec::new());
    assert_eq!(process_file_statements(&f, 2), LineVerdict::Covered);
    assert_eq!(process_file_statements(&f, 3), LineVerdict::Uncovered);
    assert_eq!(process_file_statements(&f, 4), LineVerdict::Uncovered);
    assert_eq!(process_file_statements(&f, 5), LineVerdict::Covered);
}

#[test]
fn statement_without_count_is_never_covered() {
    let f = file(vec![statement(1, 1, None)], Vec::new());
    assert_eq!(process_file_statements(&f, 1), LineVerdict::Uncovered);
    let f = file(vec![statement(1, 3, Some(4)), statement(2, 2, None)], Vec::new());
    assert_eq!(process_file_statements(&f, 1), LineVerdict::Covered);
    assert_eq!(process_file_statements(&f, 2), LineVerdict::Uncovered);
    assert_eq!(process_file_statements(&f, 3), LineVerdict::Covered);
}

#[test]
fn report_without_counts_covers_nothing() {
    let text = "{\"x\": {\"path\": \"/repo/packages/p/src/a.ts\", \"statementMap\": {\
        \"0\": {\"start\": {\"line\": 1}, \"end\": {\"line\": 2}}}}}";
    let set = changed(&[("packages/p/src/a.ts", 1), ("packages/p/src/a.ts", 2)]);
    let summary = process_coverage_reports(&set, &[artifact("p", Some(text))], &workspace());
    assert_eq!(summary.covered, 0);
    assert_eq!(uncovered_of(&summary.uncovered, "packages/p/src/a.ts"), vec![1, 2]);
}

#[test]
fn untaken_branch_overrides_statement_coverage() {
    let branch = Branch { line: 7, skip: false, counts: vec![Some(3), Some(0)] };
    let f = file(vec![statement(7, 7, Some(3))], vec![branch]);
    assert_eq!(process_file_statements(&f, 7), LineVerdict::Uncovered);
}

#[test]
fn skipped_branch_is_left_out() {
    let branch = Branch { line: 7, skip: true, counts: vec![Some(3), Some(0)] };
    let f = file(vec![statement(7, 7, Some(3))], vec![branch]);
    assert_eq!(process_file_statements(&f, 7), LineVerdict::Covered);
}

#[test]
fn fully_taken_branch_leaves_line_covered() {
    let branch = Branch { line: 7, skip: false, counts: vec![Some(3), Some(1), None] };
    let f = file(vec![statement(7, 7, Some(3))], vec![branch]);
    assert_eq!(process_file_statements(&f, 7), LineVerdict::Covered);
}

#[test]
fn untaken_branch_outside_statements_is_not_executable() {
    let branch = Branch { line: 9, skip: false, counts: vec![Some(0)] };
    let f = file(vec![statement(7, 7, Some(3))], vec![branch]);
    assert_eq!(process_file_statements(&f, 9), LineVerdict::NotExecutable);
}

const REPORT: &str = r#"{
  "/repo/packages/p/src/a.ts": {
    "path": "/repo/packages/p/src/a.ts",
    "statementMap": {
      "0": {"start": {"line": 1, "column": 0}, "end": {"line": 1, "column": 9}},
      "1": {"start": {"line": 2, "column": 0}, "end": {"line": 3, "column": 9}},
      "2": {"start": {"line": 5, "column": 0}, "end": {"line": 5, "column": 9}},
      "3": {"start": {"line": 6}, "end": {}},
      "4": {"start": {"line": 8}, "end": {"line": 8}}
    },
    "s": {"0": 1, "1": 0, "2": 2},
    "branchMap": {
      "0": {"line": 5, "type": "if"},
      "1": {"line": 1, "skip": true}
    },
    "b": {"0": [1, 0], "1": [0, 0]}
  }
}"#;

#[test]
fn report_is_read_from_json() {
    let report = read_report(&parse(REPORT).unwrap());
    assert_eq!(report.files.len(), 1);
    let f = &report.files[0];
    assert_eq!(f.path, "/repo/packages/p/src/a.ts");
    assert_eq!(
        f.statements,
        vec![
            statement(1, 1, Some(1)),
            statement(2, 3, Some(0)),
            statement(5, 5, Some(2)),
            statement(8, 8, None),
        ]
    );
    assert_eq!(f.branches.len(), 2);
    assert_eq!(f.branches[0].line, 5);
    assert!(!f.branches[0].skip);
    assert_eq!(f.branches[0].counts, vec![Some(1), Some(0)]);
    assert!(f.branches[1].skip);
}

#[test]
fn report_under_coverage_map_is_read() {
    let text = format!("{{\"coverageMap\": {}, \"other\": 1}}", REPORT);
    let report = read_report(&parse(&text).unwrap());
    assert_eq!(report.files.len(), 1);
    let report = read_report(&parse("[1, 2]").unwrap());
    assert!(report.files.is_empty());
    let report = read_report(&parse("{\"x\": {\"statementMap\": {}}}").unwrap());
    assert!(report.files.is_empty());
}

#[test]
fn coverage_data_is_found_by_path() {
    let report = read_report(&parse(REPORT).unwrap());
    let ws = workspace();
    assert!(find_coverage_data(&report, "packages/p/src/a.ts", &ws).is_some());
    assert!(find_coverage_data(&report, "packages/p/src/b.ts", &ws).is_none());
    assert!(find_coverage_data(&report, "packages/p/src/A.ts", &ws).is_none());
    let folding = Workspace { repo_root: "/REPO".to_string(), rule: PathRule { ignore_case: true } };
    assert!(find_coverage_data(&report, "packages/p/src/A.ts", &folding).is_some());
}

#[test]
fn matcher_gives_each_line_its_verdict() {
    let set = changed(&[
        ("packages/p/src/a.ts", 1),
        ("packages/p/src/a.ts", 2),
        ("packages/p/src/a.ts", 3),
        ("packages/p/src/a.ts", 4),
        ("packages/p/src/a.ts", 5),
        ("packages/p/src/a.ts", 8),
    ]);
    let summary =
        process_coverage_reports(&set, &[artifact("p", Some(REPORT))], &workspace());
    assert_eq!(summary.total, 6);
    assert_eq!(summary.covered, 1);
    assert_eq!(uncovered_of(&summary.uncovered, "packages/p/src/a.ts"), vec![2, 3, 5, 8]);
}

#[test]
fn file_missing_from_report_is_uncovered() {
    let set = changed(&[("packages/p/src/b.ts", 1), ("packages/p/src/b.ts", 9)]);
    let summary =
        process_coverage_reports(&set, &[artifact("p", Some(REPORT))], &workspace());
    assert_eq!(summary.covered, 0);
    assert_eq!(uncovered_of(&summary.uncovered, "packages/p/src/b.ts"), vec![1, 9]);
}

#[test]
fn package_without_usable_report_is_uncovered() {
    let set = changed(&[("packages/q/src/c.ts", 4), ("packages/p/src/a.ts", 1)]);
    for content in [None, Some(""), Some("  \n"), Some("{ not json")] {
        let artifacts = [artifact("q", content), artifact("p", Some(REPORT))];
        let summary = process_coverage_reports(&set, &artifacts, &workspace());
        assert_eq!(summary.total, 2);
        assert_eq!(summary.covered, 1);
        assert_eq!(uncovered_of(&summary.uncovered, "packages/q/src/c.ts"), vec![4]);
        assert_eq!(summary.uncovered.len(), 1);
    }
}

#[test]
fn empty_artifact_is_passed_over() {
    let ws = workspace();
    assert_eq!(process_coverage_file(&artifact("p", Some("")), &ws).err(), Some(Skipped::Empty));
    assert_eq!(process_coverage_file(&artifact("p", Some(" \n")), &ws).err(), Some(Skipped::Empty));
    assert_eq!(process_coverage_file(&artifact("p", None), &ws).err(), Some(Skipped::Missing));
    assert_eq!(
        process_coverage_file(&artifact("p", Some("nonsense")), &ws).err(),
        Some(Skipped::Malformed)
    );
    let package = process_coverage_file(&artifact("p", Some(REPORT)), &ws).ok().unwrap();
    assert_eq!(package.report.files.len(), 1);
    let stray = CoverageArtifact {
        path: "/elsewhere/coverage-final.json".to_string(),
        content: Some(REPORT.to_string()),
    };
    assert_eq!(process_coverage_file(&stray, &ws).err(), Some(Skipped::Misplaced));
}

#[test]
fn package_directories_match_by_whole_parts() {
    let set = changed(&[("packages/p-api/src/a.ts", 1)]);
    let api_report = REPORT.replace("/packages/p/", "/packages/p-api/");
    let artifacts = [artifact("p", Some(REPORT)), artifact("p-api", Some(&api_report))];
    let summary = process_coverage_reports(&set, &artifacts, &workspace());
    assert_eq!(summary.covered, 1);
    assert!(summary.uncovered.is_empty());
}

#[test]
fn matcher_run_twice_finds_the_same() {
    let set = changed(&[
        ("packages/p/src/a.ts", 5),
        ("packages/p/src/a.ts", 1),
        ("packages/x/src/a.ts", 3),
    ]);
    let artifacts = [artifact("p", Some(REPORT))];
    let first = process_coverage_reports(&set, &artifacts, &workspace());
    let second = process_coverage_reports(&set, &artifacts, &workspace());
    assert_eq!(first.total, second.total);
    assert_eq!(first.covered, second.covered);
    assert_eq!(first.uncovered.len(), second.uncovered.len());
    for i in 0..first.uncovered.len() {
        assert_eq!(first.uncovered.path_at(i), second.uncovered.path_at(i));
        assert_eq!(first.uncovered.line_at(i), second.uncovered.line_at(i));
    }
    assert_eq!(first.covered, 1);
    assert_eq!(first.uncovered.len(), 2);
}

#[test]
fn covered_never_exceeds_total() {
    let set = changed(&[("packages/p/src/a.ts", 1), ("packages/p/src/a.ts", 8)]);
    let artifacts = [artifact("p", Some(REPORT)), artifact("p", Some(REPORT))];
    let summary = process_coverage_reports(&set, &artifacts, &workspace());
    assert_eq!(summary.covered, 1);
    assert!(summary.covered <= summary.total);
}

#[test]
fn check_file_coverage_without_packages_is_uncovered() {
    assert_eq!(
        check_file_coverage("packages/p/src/a.ts", 1, &[], &workspace()),
        LineVerdict::Uncovered
    );
}
