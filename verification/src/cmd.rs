//! The `test` command: its options, its subcommands and the order of its work.

use vstd::prelude::*;

verus! {

/// Configuration options for test commands.
pub struct TestConfig {
    /// Installs the given version of Zowe CLI once the subcommand is done.
    pub install_cli: Option<String>,
    /// The VS Code version to use for testing.
    pub vsc_version: Option<String>,
}

/// The subcommands of `test`.
pub enum Commands {
    /// Fetch one or more extension artifacts from a Git ref.
    GhRepo {
        /// The Git refs to grab the artifacts from (branch, commit hash or tag).
        references: Vec<String>,
    },
    /// Provide multiple .vsix files containing extensions.
    Local {
        /// The files.
        files: Vec<String>,
    },
    /// Run unit tests and compare patch coverage with the main branch.
    Coverage {
        /// Whether to print what is found on the way.
        verbose: bool,
        /// Filter tests to a specific package.
        filter: Option<String>,
    },
}

/// How the `test` command ended.
#[derive(Clone, Copy, Debug, PartialEq, Eq, Structural)]
pub enum Exit {
    /// The command succeeded.
    Success,
    /// The command failed, with the subcommand's error.
    Failure,
}

/// What the `test` command does once its subcommand has run.
pub enum Followup {
    /// Install this version of Zowe CLI, then succeed or fail with that.
    InstallCli(String),
    /// Stop.
    Stop(Exit),
}

impl Commands {
    /// Whether a failure of the subcommand is passed over: only the failure
    /// of a local setup is.
    pub open spec fn forgives_failure(&self) -> bool {
        self is Local
    }
}

/// What follows a subcommand that has run. After a success, Zowe CLI is
/// installed where a version was asked for. A failed local setup ends the
/// command at once, as a success; any other failure fails the command.
pub open spec fn followup_of(
    cmd: Commands,
    succeeded: bool,
    install_cli: Option<String>,
) -> Followup {
    if succeeded {
        match install_cli {
            Some(version) => Followup::InstallCli(version),
            None => Followup::Stop(Exit::Success),
        }
    } else if cmd.forgives_failure() {
        Followup::Stop(Exit::Success)
    } else {
        Followup::Stop(Exit::Failure)
    }
}

/// Decides what follows the subcommand `cmd`, which has run and has
/// succeeded or not.
pub fn followup(cmd: &Commands, succeeded: bool, config: TestConfig) -> (next: Followup)
    ensures
        next == followup_of(*cmd, succeeded, config.install_cli),
{
    if succeeded {
        match config.install_cli {
            Some(version) => Followup::InstallCli(version),
            None => Followup::Stop(Exit::Success),
        }
    } else {
        match cmd {
            Commands::Local { .. } => Followup::Stop(Exit::Success),
            _ => Followup::Stop(Exit::Failure),
        }
    }
}

} // verus!
