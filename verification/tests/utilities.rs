use zedc::pm::{corepack, detect_pkg_mgr, handle_cmd, npm, pkg_mgr, PmError, RepoDir};
use zedc::util::trim_newline;

fn trimmed(s: &str) -> String {
    let mut line = s.to_string();
    trim_newline(&mut line);
    line
}

#[test]
fn trim_newline_removes_line_ending() {
    assert_eq!(trimmed("v18.0.0\n"), "v18.0.0");
    assert_eq!(trimmed("v18.0.0\r\n"), "v18.0.0");
    assert_eq!(trimmed("v18.0.0\r"), "v18.0.0");
    assert_eq!(trimmed("v18.0.0"), "v18.0.0");
    assert_eq!(trimmed(""), "");
    assert_eq!(trimmed("\n"), "");
}

#[test]
fn trim_newline_removes_at_most_one_of_each() {
    assert_eq!(trimmed("a\n\n"), "a\n");
    assert_eq!(trimmed("a\n\r"), "a\n");
    assert_eq!(trimmed("a\r\r\n"), "a\r");
    assert_eq!(trimmed("é\r\n"), "é");
}

#[test]
fn detect_pkg_mgr_prefers_pnpm() {
    assert_eq!(detect_pkg_mgr(true, false), "pnpm");
    assert_eq!(detect_pkg_mgr(true, true), "pnpm");
    assert_eq!(detect_pkg_mgr(false, true), "yarn");
    assert_eq!(detect_pkg_mgr(false, false), "yarn");
}

#[test]
fn pkg_mgr_names_cmd_script_on_windows() {
    assert_eq!(pkg_mgr("pnpm", false), "pnpm");
    assert_eq!(pkg_mgr("pnpm", true), "pnpm.cmd");
    assert_eq!(npm(true), "npm.cmd");
    assert_eq!(npm(false), "npm");
    assert_eq!(corepack(true), "corepack.cmd");
    assert_eq!(corepack(false), "corepack");
}

#[test]
fn handle_cmd_forwards_arguments() {
    let repo = RepoDir { path: "/repo".to_string(), has_pnpm_lock: true, has_yarn_lock: false };
    let args = vec!["--version".to_string()];
    let call = handle_cmd(args.clone(), Some(repo), false).ok().unwrap();
    assert_eq!(call.program, "pnpm");
    assert_eq!(call.args, args);
    assert_eq!(call.dir, "/repo");
}

#[test]
fn handle_cmd_without_repo_fails() {
    let r = handle_cmd(Vec::new(), None, false);
    assert!(matches!(r, Err(PmError::RepoNotFound)));
    assert_eq!(
        PmError::RepoNotFound.message(),
        "Could not find a repo folder containing package.json."
    );
}
