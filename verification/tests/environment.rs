use zedc::cmd::{followup, Commands, Exit, Followup, TestConfig};
use zedc::github::{find_package, find_run, Artifact, WorkflowRun};
use zedc::setup::{confirms, install_arguments};
use zedc::status::display_value;
use zedc::vscode::{
    archive_of, build_url, cached_copy_policy, code_binary, code_cli_binary, download_name,
    is_vsix, version_or_latest, ArchiveKind, CachePolicy, UrlError,
};

#[test]
fn code_binary_depends_on_the_system() {
    assert_eq!(code_binary("macos"), "Visual Studio Code.app");
    assert_eq!(code_binary("windows"), "Code.exe");
    assert_eq!(code_binary("linux"), "code");
    assert_eq!(code_binary("freebsd"), "code");
}

#[test]
fn build_url_names_the_platform() {
    let v = "1.90.0".to_string();
    assert_eq!(
        build_url(&v, "linux", "x86_64").ok().unwrap(),
        "https://update.code.visualstudio.com/1.90.0/linux-x64/stable"
    );
    assert_eq!(
        build_url(&v, "linux", "aarch64").ok().unwrap(),
        "https://update.code.visualstudio.com/1.90.0/linux-arm64/stable"
    );
    assert_eq!(
        build_url(&"latest".to_string(), "macos", "aarch64").ok().unwrap(),
        "https://update.code.visualstudio.com/latest/darwin-universal/stable"
    );
    assert_eq!(
        build_url(&v, "windows", "x86_64").ok().unwrap(),
        "https://update.code.visualstudio.com/1.90.0/win32-x64-archive/stable"
    );
    assert_eq!(
        build_url(&v, "windows", "aarch64").ok().unwrap(),
        "https://update.code.visualstudio.com/1.90.0/win32-arm64-archive/stable"
    );
}

#[test]
fn build_url_rejects_other_systems() {
    let r = build_url(&"latest".to_string(), "freebsd", "x86_64");
    assert!(matches!(r, Err(UrlError::UnsupportedOs)));
    assert_eq!(UrlError::UnsupportedOs.message(), "OS is not supported.");
}

#[test]
fn code_cli_binary_lies_below_the_extracted_copy() {
    assert_eq!(code_cli_binary("windows", "x86_64"), vec!["bin", "code.cmd"]);
    assert_eq!(
        code_cli_binary("macos", "aarch64"),
        vec!["Visual Studio Code.app", "Contents/Resources/app/bin/code"]
    );
    assert_eq!(code_cli_binary("linux", "x86_64"), vec!["VSCode-linux-x64", "bin", "code"]);
    assert_eq!(code_cli_binary("linux", "aarch64"), vec!["VSCode-linux-aarch64", "bin", "code"]);
    assert_eq!(code_cli_binary("linux", "riscv64"), vec!["VSCode-linux-aarch64", "bin", "code"]);
}

#[test]
fn cached_copies_of_latest_are_refreshed() {
    assert_eq!(cached_copy_policy("latest", true), CachePolicy::Refresh);
    assert_eq!(cached_copy_policy("1.90.0", true), CachePolicy::UseCached);
    assert_eq!(cached_copy_policy("latest", false), CachePolicy::Download);
    assert_eq!(cached_copy_policy("1.90.0", false), CachePolicy::Download);
    assert_eq!(version_or_latest(None), "latest");
    assert_eq!(version_or_latest(Some("1.2.3".to_string())), "1.2.3");
}

#[test]
fn downloads_are_named_after_the_url() {
    assert_eq!(download_name(Some("VSCode-linux-x64.tar.gz")), "VSCode-linux-x64.tar.gz");
    assert_eq!(download_name(Some("")), "tmp-vscode.bin");
    assert_eq!(download_name(None), "tmp-vscode.bin");
}

#[test]
fn archives_are_told_by_extension() {
    assert_eq!(archive_of("zip", false), Some(ArchiveKind::Zip));
    assert_eq!(archive_of("zip", true), Some(ArchiveKind::Zip));
    assert_eq!(archive_of("tgz", false), Some(ArchiveKind::TarGz));
    assert_eq!(archive_of("gz", false), Some(ArchiveKind::TarGz));
    assert_eq!(archive_of("gz", true), None);
    assert_eq!(archive_of("bin", false), None);
    assert_eq!(archive_of("", false), None);
}

#[test]
fn extension_packages_are_told_by_extension() {
    assert!(is_vsix("vsix"));
    assert!(!is_vsix("gz"));
    assert!(!is_vsix("VSIX"));
}

#[test]
fn yes_is_said_in_three_ways() {
    assert!(confirms("y\n"));
    assert!(confirms("Y\r\n"));
    assert!(confirms("  yes  \n"));
    assert!(confirms("yes"));
    assert!(!confirms("\n"));
    assert!(!confirms("n\n"));
    assert!(!confirms("YES\n"));
    assert!(!confirms("yes please\n"));
}

#[test]
fn yarn_installs_without_arguments() {
    assert_eq!(install_arguments("yarn"), Vec::<String>::new());
    assert_eq!(install_arguments("pnpm"), vec!["install"]);
    assert_eq!(install_arguments("npm"), vec!["install"]);
}

#[test]
fn secrets_are_masked() {
    assert_eq!(display_value("ZOWE_OPT_PASS", "hunter2".to_string()), "********");
    assert_eq!(display_value("ZEDC_PAT", "ghp_x".to_string()), "********");
    assert_eq!(display_value("PATH", "/usr/bin".to_string()), "********");
    assert_eq!(display_value("NODE_ENV", "test".to_string()), "test");
    assert_eq!(display_value("HOME", "/home/me".to_string()), "/home/me");
}

fn run(id: u64, name: &str, conclusion: Option<&str>, branch: &str, sha: &str) -> WorkflowRun {
    WorkflowRun {
        id,
        name: name.to_string(),
        conclusion: conclusion.map(|c| c.to_string()),
        head_branch: branch.to_string(),
        head_sha: sha.to_string(),
    }
}

#[test]
fn first_good_run_of_the_reference_is_picked() {
    let runs = vec![
        run(1, "Zowe Explorer CI", Some("failure"), "main", "aaa"),
        run(2, "Other", Some("success"), "main", "bbb"),
        run(3, "Zowe Explorer CI", None, "main", "ccc"),
        run(4, "Zowe Explorer CI", Some("success"), "next", "ddd"),
        run(5, "Zowe Explorer CI", Some("success"), "main", "eee"),
        run(6, "Zowe Explorer CI", Some("success"), "main", "fff"),
    ];
    assert_eq!(find_run(&runs, "main"), Some(5));
    assert_eq!(find_run(&runs, "ddd"), Some(4));
    assert_eq!(find_run(&runs, "fff"), Some(6));
    assert_eq!(find_run(&runs, "aaa"), None);
    assert_eq!(find_run(&runs, "other"), None);
    assert_eq!(find_run(&[], "main"), None);
}

#[test]
fn extension_package_is_picked_among_artifacts() {
    let artifacts = vec![
        Artifact { id: 10, name: "logs".to_string() },
        Artifact { id: 11, name: "zowe-explorer-vsix".to_string() },
        Artifact { id: 12, name: "zowe-explorer-vsix".to_string() },
    ];
    assert_eq!(find_package(&artifacts), Some(11));
    assert_eq!(find_package(&artifacts[..1]), None);
}

#[test]
fn cli_is_installed_after_a_success() {
    let cmd = Commands::Coverage { verbose: false, filter: None };
    let config =
        TestConfig { install_cli: Some("latest".to_string()), vsc_version: None };
    assert!(matches!(followup(&cmd, true, config), Followup::InstallCli(v) if v == "latest"));
    let config = TestConfig { install_cli: None, vsc_version: None };
    assert!(matches!(followup(&cmd, true, config), Followup::Stop(Exit::Success)));
}

#[test]
fn only_a_failed_local_setup_is_forgiven() {
    let config = || TestConfig { install_cli: Some("1".to_string()), vsc_version: None };
    let local = Commands::Local { files: vec!["a.vsix".to_string()] };
    assert!(matches!(followup(&local, false, config()), Followup::Stop(Exit::Success)));
    let ghr = Commands::GhRepo { references: vec!["main".to_string()] };
    assert!(matches!(followup(&ghr, false, config()), Followup::Stop(Exit::Failure)));
    let coverage = Commands::Coverage { verbose: true, filter: Some("p".to_string()) };
    assert!(matches!(followup(&coverage, false, config()), Followup::Stop(Exit::Failure)));
}
