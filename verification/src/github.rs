//! Extension artifacts of the continuous integration: which workflow run and
//! which artifact belong to a Git reference.

use crate::text::same_text;
use vstd::prelude::*;

verus! {

/// A workflow run, as far as the choice of artifacts looks at it.
pub struct WorkflowRun {
    /// The run's number.
    pub id: u64,
    /// The name of the workflow.
    pub name: String,
    /// How the run ended, if it has.
    pub conclusion: Option<String>,
    /// The branch that the run was made for.
    pub head_branch: String,
    /// The commit that the run was made for.
    pub head_sha: String,
}

/// An artifact of a workflow run.
pub struct Artifact {
    /// The artifact's number.
    pub id: u64,
    /// The artifact's name.
    pub name: String,
}

/// Whether a run is a run of the project's CI workflow that has succeeded.
pub open spec fn is_good_run(run: WorkflowRun) -> bool {
    run.name@ == "Zowe Explorer CI"@ && (run.conclusion matches Some(how) && how@ == "success"@)
}

/// Whether a run was made for the Git reference `reference`, a branch or a
/// commit.
pub open spec fn is_run_of(run: WorkflowRun, reference: Seq<char>) -> bool {
    run.head_branch@ == reference || run.head_sha@ == reference
}

/// The number of the first successful CI run for a reference.
pub open spec fn run_for(runs: Seq<WorkflowRun>, reference: Seq<char>) -> Option<u64>
    decreases runs.len(),
{
    if runs.len() == 0 {
        None
    } else if is_good_run(runs[0]) && is_run_of(runs[0], reference) {
        Some(runs[0].id)
    } else {
        run_for(runs.drop_first(), reference)
    }
}

/// The number of the first artifact that holds the extension package.
pub open spec fn package_among(artifacts: Seq<Artifact>) -> Option<u64>
    decreases artifacts.len(),
{
    if artifacts.len() == 0 {
        None
    } else if artifacts[0].name@ == "zowe-explorer-vsix"@ {
        Some(artifacts[0].id)
    } else {
        package_among(artifacts.drop_first())
    }
}

/// Picks the workflow run whose artifacts are fetched for a Git reference:
/// the first successful run of the CI workflow for that branch or commit.
pub fn find_run(runs: &[WorkflowRun], reference: &str) -> (id: Option<u64>)
    ensures
        id == run_for(runs@, reference@),
{
    let mut i: usize = 0;
    assert(runs@.skip(0) == runs@);
    while i < runs.len()
        invariant
            i <= runs.len(),
            run_for(runs@, reference@) == run_for(runs@.skip(i as int), reference@),
        decreases runs.len() - i,
    {
        let run = &runs[i];
        let good = same_text(run.name.as_str(), "Zowe Explorer CI") && match &run.conclusion {
            Some(how) => same_text(how.as_str(), "success"),
            None => false,
        };
        if good && (same_text(run.head_branch.as_str(), reference) || same_text(
            run.head_sha.as_str(),
            reference,
        )) {
            return Some(run.id);
        }
        assert(runs@.skip(i as int).drop_first() == runs@.skip(i + 1));
        i += 1;
    }
    None
}

/// Picks the artifact that holds the extension package.
pub fn find_package(artifacts: &[Artifact]) -> (id: Option<u64>)
    ensures
        id == package_among(artifacts@),
{
    let mut i: usize = 0;
    assert(artifacts@.skip(0) == artifacts@);
    while i < artifacts.len()
        invariant
            i <= artifacts.len(),
            package_among(artifacts@) == package_among(artifacts@.skip(i as int)),
        decreases artifacts.len() - i,
    {
        if same_text(artifacts[i].name.as_str(), "zowe-explorer-vsix") {
            return Some(artifacts[i].id);
        }
        assert(artifacts@.skip(i as int).drop_first() == artifacts@.skip(i + 1));
        i += 1;
    }
    None
}

} // verus!
