//! Patch-coverage gate: decides whether the source lines changed in a working
//! tree are exercised by the test suite, from a unified diff and the coverage
//! reports of a separate test run.

pub mod changes;
pub mod classify;
pub mod cmd;
pub mod diff;
pub mod gate;
pub mod github;
pub mod hunk;
pub mod json;
pub mod matcher;
pub mod order;
pub mod paths;
pub mod pm;
pub mod render;
pub mod report;
pub mod runner;
pub mod setup;
pub mod status;
pub mod style;
pub mod text;
pub mod util;
pub mod vscode;
