//! Running commands the way the integration tests see them: the printed
//! output and the exit code.
use vstd::prelude::*;
use crate::base::text::owned;

verus! {

/// What a command left behind for a test: its output and exit code.
#[derive(Debug)]
pub struct TestCommandResult {
    pub stdout: String,
    pub stderr: String,
    pub exit_code: i32,
}

impl TestCommandResult {
    /// A successful run that printed `stdout`.
    pub fn success(stdout: String) -> (r: Self)
        ensures
            r.stdout == stdout,
            r.stderr@ == Seq::<char>::empty(),
            r.exit_code == 0,
    {
        Self { stdout, stderr: String::new(), exit_code: 0 }
    }

    /// A failed run that printed `stderr` and exited with `exit_code`.
    pub fn failure(stderr: String, exit_code: i32) -> (r: Self)
        ensures
            r.stdout@ == Seq::<char>::empty(),
            r.stderr == stderr,
            r.exit_code == exit_code,
    {
        Self { stdout: String::new(), stderr, exit_code }
    }

    pub fn is_success(&self) -> (r: bool)
        ensures
            r == (self.exit_code == 0),
    {
        self.exit_code == 0
    }

    pub fn is_failure(&self) -> (r: bool)
        ensures
            r == (self.exit_code != 0),
    {
        self.exit_code != 0
    }
}

/// A command that a test can run.
pub trait TestCommand {
    fn execute(&self) -> TestCommandResult;
}

/// The sync command as a test runs it.
pub struct SyncCommand {
    pub merge: bool,
}

/// What the sync command gives a test, from whether the directory is a
/// work tree and whether the current branch has an upstream.
pub fn sync_command_direct(_merge: bool, in_work_tree: bool, has_upstream: bool) -> (r: TestCommandResult)
    ensures
        !in_work_tree ==> r.exit_code == 1 && r.stderr@ == "❌ Git command failed"@ && r.stdout@ == Seq::<char>::empty(),
        in_work_tree && has_upstream ==> r.exit_code == 0 && r.stdout@ == "✅ Already up to date"@ && r.stderr@
            == Seq::<char>::empty(),
        in_work_tree && !has_upstream ==> r.exit_code == 1 && r.stderr@ == "❌ No upstream configured"@ && r.stdout@
            == Seq::<char>::empty(),
{
    if !in_work_tree {
        return TestCommandResult::failure(owned("❌ Git command failed"), 1);
    }
    if has_upstream {
        TestCommandResult::success(owned("✅ Already up to date"))
    } else {
        TestCommandResult::failure(owned("❌ No upstream configured"), 1)
    }
}

/// The sync command, merging or rebasing.
pub fn sync_command(merge: bool) -> (r: SyncCommand)
    ensures
        r.merge == merge,
{
    SyncCommand { merge }
}

} // verus!
