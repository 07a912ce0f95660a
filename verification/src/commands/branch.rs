//! Branch commands: cleaning and pruning merged branches, switching to a
//! recent branch, renaming the current branch, stashing work into a branch.
use vstd::prelude::*;
use crate::base::git::{BranchOperations, strings};
use crate::base::text::{decimal, decimal_of, join, join_of, owned};
use crate::base::traits::{Command, Destructive, DryRunnable, GitCommand};
use crate::base::validation::{Validate, branch_name_error, branch_name_ok};
use crate::commands::plan::{Plan, ok_run, runs, steps_view};
use crate::domain::branch_manager::{deletable, deletable_branches};
use crate::{GitXError, Result, is_git_error, is_parse_error};

verus! {

/// What cleaning merged branches does next.
pub enum CleanPlan {
    /// Nothing to delete, or a dry run: the report.
    Done(String),
    /// Ask for confirmation (`details` says what will be deleted), then
    /// delete `branches` one by one and report with `finish_clean`.
    Confirm { branches: Vec<String>, details: String },
}

/// The lines of a dry run: what would be deleted.
pub open spec fn dry_run_lines(bs: Seq<Seq<char>>) -> Seq<char>
    decreases bs.len(),
{
    if bs.len() == 0 {
        Seq::empty()
    } else {
        dry_run_lines(bs.drop_last()) + "(dry run) Would delete: "@ + bs.last() + "\n"@
    }
}

/// The branches of `bs` whose deletion succeeded (`ok[i]` for `bs[i]`).
pub open spec fn succeeded(bs: Seq<Seq<char>>, ok: Seq<bool>) -> Seq<Seq<char>>
    decreases bs.len(),
{
    if bs.len() == 0 || ok.len() != bs.len() {
        Seq::empty()
    } else {
        let rest = succeeded(bs.drop_last(), ok.drop_last());
        if ok.last() {
            rest.push(bs.last())
        } else {
            rest
        }
    }
}

/// What cleaning (or pruning) merged branches decides from git's answers:
/// the merged branches and the current branch (errors passed on in this
/// order). The current and the protected branches are kept; with none left
/// the report is `empty_msg`; a dry run reports what would be deleted;
/// otherwise confirmation is asked.
pub open spec fn clean_plan(
    dry_run: bool,
    empty_msg: Seq<char>,
    merged: Result<Vec<String>>,
    current: Result<String>,
    r: Result<CleanPlan>,
) -> bool {
    match merged {
        Err(e) => r == Err::<CleanPlan, GitXError>(e),
        Ok(m) => match current {
            Err(e) => r == Err::<CleanPlan, GitXError>(e),
            Ok(c) => {
                let bs = deletable(m.deep_view(), c@);
                if bs.len() == 0 {
                    r matches Ok(CleanPlan::Done(t)) && t@ == empty_msg
                } else if dry_run {
                    r matches Ok(CleanPlan::Done(t)) && t@ == "🧪 (dry run) "@ + decimal(bs.len()) + " branches would be deleted:\n"@
                        + dry_run_lines(bs)
                } else {
                    r matches Ok(CleanPlan::Confirm { branches, details }) && branches.deep_view() == bs && details@
                        == "This will delete "@ + decimal(bs.len()) + " merged branches: "@ + join(bs, ", "@)
                }
            },
        },
    }
}

/// Decides what cleaning merged branches does (see `clean_plan`).
fn plan_clean(dry_run: bool, empty_msg: &str, merged: Result<Vec<String>>, current: Result<String>) -> (r: Result<CleanPlan>)
    ensures
        clean_plan(dry_run, empty_msg@, merged, current, r),
{
    let m = match merged {
        Err(e) => return Err(e),
        Ok(m) => m,
    };
    let c = match current {
        Err(e) => return Err(e),
        Ok(c) => c,
    };
    let bs = deletable_branches(&m, c.as_str());
    if bs.len() == 0 {
        return Ok(CleanPlan::Done(owned(empty_msg)));
    }
    let n = decimal_of(bs.len() as u64);
    if dry_run {
        let mut t = String::from_str("🧪 (dry run) ");
        t.append(n.as_str());
        t.append(" branches would be deleted:\n");
        let ghost head = t@;
        for i in 0..bs.len()
            invariant
                t@ == head + dry_run_lines(bs.deep_view().take(i as int)),
        {
            proof {
                assert(bs.deep_view().take(i + 1).drop_last() =~= bs.deep_view().take(i as int));
                assert(bs.deep_view()[i as int] == bs@[i as int]@);
            }
            t.append("(dry run) Would delete: ");
            t.append(bs[i].as_str());
            t.append("\n");
        }
        assert(bs.deep_view().take(bs.len() as int) =~= bs.deep_view());
        return Ok(CleanPlan::Done(t));
    }
    let mut d = String::from_str("This will delete ");
    d.append(n.as_str());
    d.append(" merged branches: ");
    let j = join_of(&bs, ", ");
    d.append(j.as_str());
    Ok(CleanPlan::Confirm { branches: bs, details: d })
}

/// The report after deleting: the branches whose deletion succeeded
/// (`outcomes[i]` for `branches[i]`).
pub fn finish_clean(branches: &Vec<String>, outcomes: &Vec<bool>) -> (r: String)
    requires
        outcomes.len() == branches.len(),
    ensures
        ({
            let d = succeeded(branches.deep_view(), outcomes@);
            r@ == "🧹 Deleted "@ + decimal(d.len()) + " merged branches:\n"@ + join(d, "\n"@)
        }),
{
    let mut deleted: Vec<String> = Vec::new();
    for i in 0..branches.len()
        invariant
            outcomes.len() == branches.len(),
            deleted.deep_view() == succeeded(branches.deep_view().take(i as int), outcomes@.take(i as int)),
    {
        proof {
            assert(branches.deep_view().take(i + 1).drop_last() =~= branches.deep_view().take(i as int));
            assert(outcomes@.take(i + 1).drop_last() =~= outcomes@.take(i as int));
            assert(branches.deep_view()[i as int] == branches@[i as int]@);
        }
        if outcomes[i] {
            let ghost before = deleted.deep_view();
            deleted.push(owned(branches[i].as_str()));
            assert(deleted.deep_view() =~= before.push(branches@[i as int]@));
        }
    }
    assert(branches.deep_view().take(branches.len() as int) =~= branches.deep_view());
    assert(outcomes@.take(outcomes.len() as int) =~= outcomes@);
    let mut r = String::from_str("🧹 Deleted ");
    let n = decimal_of(deleted.len() as u64);
    r.append(n.as_str());
    r.append(" merged branches:\n");
    let j = join_of(&deleted, "\n");
    r.append(j.as_str());
    r
}

/// Branch-related commands grouped together
pub struct BranchCommands;

impl BranchCommands {
    /// Create a new branch (see `NewBranchCommand::plan`), from `name`, the
    /// base given, and git's answers on whether they exist and on the
    /// current branch.
    pub fn new_branch(
        name: &str,
        from: Option<&str>,
        exists: bool,
        from_is_branch: bool,
        from_is_ref: bool,
        current: Result<String>,
    ) -> (r: Result<Plan>)
        ensures
            crate::commands::repository::new_branch_plan(
                name@,
                match from {
                    Some(f) => Some(f@),
                    None => None,
                },
                exists,
                from_is_branch,
                from_is_ref,
                current,
                r,
            ),
    {
        let f = match from {
            Some(f) => Some(owned(f)),
            None => None,
        };
        crate::commands::repository::NewBranchCommand::new(owned(name), f).plan(exists, from_is_branch, from_is_ref, current)
    }

    /// Clean merged branches (see `CleanBranchesCommand::plan`).
    pub fn clean_branches(dry_run: bool, merged: Result<Vec<String>>, current: Result<String>) -> (r: Result<CleanPlan>)
        ensures
            clean_plan(dry_run, "No merged branches to delete."@, merged, current, r),
    {
        CleanBranchesCommand::new(dry_run).plan(merged, current)
    }

    /// Prune merged local branches (see `PruneBranchesCommand::plan`).
    pub fn prune_branches(dry_run: bool, merged: Result<Vec<String>>, current: Result<String>) -> (r: Result<CleanPlan>)
        ensures
            clean_plan(dry_run, "✅ No merged branches to prune."@, merged, current, r),
    {
        PruneBranchesCommand::new(dry_run).plan(merged, current)
    }

    /// The branches to choose from when switching to a recent branch (see
    /// `SwitchRecentCommand::candidates`).
    pub fn switch_recent(branches: Result<Vec<String>>) -> (r: Result<Vec<String>>)
        ensures
            recent_candidates(branches, r),
    {
        SwitchRecentCommand::new().candidates(branches)
    }

    /// Rename the current branch (see `RenameBranchCommand::plan`).
    pub fn rename_branch(new_name: &str, current: Result<String>, exists: Result<bool>) -> (r: Result<Plan>)
        ensures
            rename_plan(new_name@, current, exists, r),
    {
        RenameBranchCommand::new(owned(new_name)).plan(current, exists)
    }

    /// Stash current work into a branch (see `StashBranchCommand::plan`).
    pub fn stash_branch(branch_name: &str, exists: Result<bool>) -> (r: Result<Plan>)
        ensures
            stash_branch_plan(branch_name@, exists, r),
    {
        StashBranchCommand::new(owned(branch_name)).plan(exists)
    }
}

// ---------------------------------------------------------------------------
// Clean and prune
// ---------------------------------------------------------------------------

/// Command to clean merged branches
pub struct CleanBranchesCommand {
    dry_run: bool,
}

impl CleanBranchesCommand {
    pub closed spec fn dry_run_view(&self) -> bool {
        self.dry_run
    }

    pub fn new(dry_run: bool) -> (r: Self)
        ensures
            r.dry_run_view() == dry_run,
    {
        Self { dry_run }
    }

    /// What the command does from git's answers (see `clean_plan`); the
    /// confirmation asked is for "Clean merged branches".
    pub fn plan(&self, merged: Result<Vec<String>>, current: Result<String>) -> (r: Result<CleanPlan>)
        ensures
            clean_plan(self.dry_run_view(), "No merged branches to delete."@, merged, current, r),
    {
        plan_clean(self.dry_run, "No merged branches to delete.", merged, current)
    }
}

impl Command for CleanBranchesCommand {
    fn name(&self) -> (r: &'static str)
        ensures
            r@ == "clean-branches"@,
    {
        "clean-branches"
    }

    fn description(&self) -> (r: &'static str)
        ensures
            r@ == "Delete merged branches"@,
    {
        "Delete merged branches"
    }
}

impl GitCommand for CleanBranchesCommand {}

impl DryRunnable for CleanBranchesCommand {
    fn is_dry_run(&self) -> (r: bool)
        ensures
            r == self.dry_run_view(),
    {
        self.dry_run
    }
}

impl Destructive for CleanBranchesCommand {
    fn destruction_description(&self) -> (r: String)
        ensures
            r@ == "This will permanently delete merged branches"@,
    {
        String::from_str("This will permanently delete merged branches")
    }
}

/// Command to prune (delete) merged local branches
pub struct PruneBranchesCommand {
    dry_run: bool,
}

impl PruneBranchesCommand {
    pub closed spec fn dry_run_view(&self) -> bool {
        self.dry_run
    }

    pub fn new(dry_run: bool) -> (r: Self)
        ensures
            r.dry_run_view() == dry_run,
    {
        Self { dry_run }
    }

    /// What the command does from git's answers (see `clean_plan`); the
    /// confirmation asked is for "Delete merged branches".
    pub fn plan(&self, merged: Result<Vec<String>>, current: Result<String>) -> (r: Result<CleanPlan>)
        ensures
            clean_plan(self.dry_run_view(), "✅ No merged branches to prune."@, merged, current, r),
    {
        plan_clean(self.dry_run, "✅ No merged branches to prune.", merged, current)
    }
}

impl Command for PruneBranchesCommand {
    fn name(&self) -> (r: &'static str)
        ensures
            r@ == "prune-branches"@,
    {
        "prune-branches"
    }

    fn description(&self) -> (r: &'static str)
        ensures
            r@ == "Delete merged local branches (except protected ones)"@,
    {
        "Delete merged local branches (except protected ones)"
    }
}

impl GitCommand for PruneBranchesCommand {}

impl DryRunnable for PruneBranchesCommand {
    fn is_dry_run(&self) -> (r: bool)
        ensures
            r == self.dry_run_view(),
    {
        self.dry_run
    }
}

impl Destructive for PruneBranchesCommand {
    fn destruction_description(&self) -> (r: String)
        ensures
            r@ == "This will permanently delete merged branches"@,
    {
        String::from_str("This will permanently delete merged branches")
    }
}

// ---------------------------------------------------------------------------
// Switch to a recent branch
// ---------------------------------------------------------------------------

/// The recent branches are passed on when there are any; an empty list is
/// an error.
pub open spec fn recent_candidates(branches: Result<Vec<String>>, r: Result<Vec<String>>) -> bool {
    match branches {
        Err(e) => r == Err::<Vec<String>, GitXError>(e),
        Ok(b) => if b.len() == 0 {
            is_git_error(r, "No recent branches found"@)
        } else {
            r matches Ok(v) && v.deep_view() == b.deep_view()
        },
    }
}

/// Command to switch to a recent branch
pub struct SwitchRecentCommand;

impl SwitchRecentCommand {
    pub fn new() -> (r: Self) {
        Self
    }

    /// The branches to choose from (see `recent_candidates`). Interactively
    /// the user picks one; otherwise the first, the most recent, is taken.
    pub fn candidates(&self, branches: Result<Vec<String>>) -> (r: Result<Vec<String>>)
        ensures
            recent_candidates(branches, r),
    {
        match branches {
            Err(e) => Err(e),
            Ok(b) => {
                if b.len() == 0 {
                    Err(GitXError::GitCommand(String::from_str("No recent branches found")))
                } else {
                    Ok(b)
                }
            },
        }
    }

    /// Switching to the chosen branch.
    pub fn switch_to(&self, branch: &str) -> (r: Plan)
        ensures
            runs(r, seq![seq!["checkout"@, branch@]], "Switched to branch '"@ + branch@ + "'"@),
    {
        let mut m = String::from_str("Switched to branch '");
        m.append(branch);
        m.append("'");
        Plan::one(BranchOperations::switch(branch), m)
    }

    /// Without interaction: switching to the most recent branch, from the
    /// answer to `GitOperations::recent_branches` with a limit of one.
    pub fn execute_non_interactive(&self, branches: Result<Vec<String>>) -> (r: Result<Plan>)
        ensures
            match branches {
                Err(e) => r == Err::<Plan, GitXError>(e),
                Ok(b) => if b.len() == 0 {
                    is_git_error(r, "No recent branches found"@)
                } else {
                    ok_run(r, seq![seq!["checkout"@, b@[0]@]], "Switched to branch '"@ + b@[0]@ + "'"@)
                },
            },
    {
        let b = match branches {
            Err(e) => return Err(e),
            Ok(b) => b,
        };
        if b.len() == 0 {
            return Err(GitXError::GitCommand(String::from_str("No recent branches found")));
        }
        Ok(self.switch_to(b[0].as_str()))
    }
}

impl Default for SwitchRecentCommand {
    fn default() -> (r: Self) {
        Self::new()
    }
}

impl Command for SwitchRecentCommand {
    fn name(&self) -> (r: &'static str)
        ensures
            r@ == "switch-recent"@,
    {
        "switch-recent"
    }

    fn description(&self) -> (r: &'static str)
        ensures
            r@ == "Switch to a recently used branch"@,
    {
        "Switch to a recently used branch"
    }
}

impl GitCommand for SwitchRecentCommand {}

impl crate::base::traits::Interactive for SwitchRecentCommand {}

// ---------------------------------------------------------------------------
// Rename
// ---------------------------------------------------------------------------

/// What renaming the current branch to `new_name` decides from git's
/// answers: the current branch and whether `new_name` exists. The name is
/// validated first; then the answers are read in this order.
pub open spec fn rename_plan(new_name: Seq<char>, current: Result<String>, exists: Result<bool>, r: Result<Plan>) -> bool {
    if !branch_name_ok(new_name) {
        is_parse_error(r, branch_name_error(new_name))
    } else {
        match current {
            Err(e) => r == Err::<Plan, GitXError>(e),
            Ok(c) => match exists {
                Err(e) => r == Err::<Plan, GitXError>(e),
                Ok(true) => is_git_error(r, "Branch '"@ + new_name + "' already exists"@),
                Ok(false) => ok_run(
                    r,
                    seq![seq!["branch"@, "-m"@, new_name]],
                    "✅ Renamed branch '"@ + c@ + "' to '"@ + new_name + "'"@,
                ),
            },
        }
    }
}

/// Command to rename current branch
pub struct RenameBranchCommand {
    new_name: String,
}

/// A branch-name check, with its error as `Validate::branch_name` gives it.
fn check_branch_name(name: &str) -> (r: Result<()>)
    ensures
        branch_name_ok(name@) ==> r is Ok,
        !branch_name_ok(name@) ==> is_parse_error(r, branch_name_error(name@)),
{
    Validate::branch_name(name)
}

impl RenameBranchCommand {
    pub closed spec fn new_name_view(&self) -> Seq<char> {
        self.new_name@
    }

    pub fn new(new_name: String) -> (r: Self)
        ensures
            r.new_name_view() == new_name@,
    {
        Self { new_name }
    }

    /// What the command does (see `rename_plan`).
    pub fn plan(&self, current: Result<String>, exists: Result<bool>) -> (r: Result<Plan>)
        ensures
            rename_plan(self.new_name_view(), current, exists, r),
    {
        match check_branch_name(self.new_name.as_str()) {
            Err(e) => return Err(e),
            Ok(()) => {},
        }
        let c = match current {
            Err(e) => return Err(e),
            Ok(c) => c,
        };
        match exists {
            Err(e) => return Err(e),
            Ok(true) => {
                let mut m = String::from_str("Branch '");
                m.append(self.new_name.as_str());
                m.append("' already exists");
                return Err(GitXError::GitCommand(m));
            },
            Ok(false) => {},
        }
        let mut m = String::from_str("✅ Renamed branch '");
        m.append(c.as_str());
        m.append("' to '");
        m.append(self.new_name.as_str());
        m.append("'");
        Ok(Plan::one(BranchOperations::rename(self.new_name.as_str()), m))
    }
}

impl Command for RenameBranchCommand {
    fn name(&self) -> (r: &'static str)
        ensures
            r@ == "rename-branch"@,
    {
        "rename-branch"
    }

    fn description(&self) -> (r: &'static str)
        ensures
            r@ == "Rename the current branch"@,
    {
        "Rename the current branch"
    }
}

impl GitCommand for RenameBranchCommand {}

// ---------------------------------------------------------------------------
// Stash into a branch
// ---------------------------------------------------------------------------

/// What stashing work into branch `name` decides from whether the branch
/// exists: after validating the name, the branch is created from the current
/// state and the working directory reset.
pub open spec fn stash_branch_plan(name: Seq<char>, exists: Result<bool>, r: Result<Plan>) -> bool {
    if !branch_name_ok(name) {
        is_parse_error(r, branch_name_error(name))
    } else {
        match exists {
            Err(e) => r == Err::<Plan, GitXError>(e),
            Ok(true) => is_git_error(r, "Branch '"@ + name + "' already exists"@),
            Ok(false) => ok_run(
                r,
                seq![seq!["checkout"@, "-b"@, name], seq!["reset"@, "--hard"@, "HEAD"@]],
                "✅ Created branch '"@ + name + "' with current changes and reset working directory"@,
            ),
        }
    }
}

/// Command to stash work into a new branch
pub struct StashBranchCommand {
    branch_name: String,
}

impl StashBranchCommand {
    pub closed spec fn branch_name_view(&self) -> Seq<char> {
        self.branch_name@
    }

    pub fn new(branch_name: String) -> (r: Self)
        ensures
            r.branch_name_view() == branch_name@,
    {
        Self { branch_name }
    }

    /// What the command does (see `stash_branch_plan`).
    pub fn plan(&self, exists: Result<bool>) -> (r: Result<Plan>)
        ensures
            stash_branch_plan(self.branch_name_view(), exists, r),
    {
        match check_branch_name(self.branch_name.as_str()) {
            Err(e) => return Err(e),
            Ok(()) => {},
        }
        match exists {
            Err(e) => return Err(e),
            Ok(true) => {
                let mut m = String::from_str("Branch '");
                m.append(self.branch_name.as_str());
                m.append("' already exists");
                return Err(GitXError::GitCommand(m));
            },
            Ok(false) => {},
        }
        let create = BranchOperations::create(self.branch_name.as_str(), None);
        let reset = strings(&["reset", "--hard", "HEAD"]);
        let ghost v0 = create.deep_view();
        let ghost v1 = reset.deep_view();
        assert(v0 =~= seq!["checkout"@, "-b"@, self.branch_name_view()]);
        assert(v1 =~= seq!["reset"@, "--hard"@, "HEAD"@]);
        let mut steps: Vec<Vec<String>> = Vec::new();
        steps.push(create);
        steps.push(reset);
        assert(steps_view(steps@) =~= seq![v0, v1]);
        let mut m = String::from_str("✅ Created branch '");
        m.append(self.branch_name.as_str());
        m.append("' with current changes and reset working directory");
        Ok(Plan::Run { steps, then: m })
    }
}

impl Command for StashBranchCommand {
    fn name(&self) -> (r: &'static str)
        ensures
            r@ == "stash-branch"@,
    {
        "stash-branch"
    }

    fn description(&self) -> (r: &'static str)
        ensures
            r@ == "Create a branch with current changes and reset working directory"@,
    {
        "Create a branch with current changes and reset working directory"
    }
}

impl GitCommand for StashBranchCommand {}

impl Destructive for StashBranchCommand {
    fn destruction_description(&self) -> (r: String)
        ensures
            r@ == "This will reset your working directory to a clean state"@,
    {
        String::from_str("This will reset your working directory to a clean state")
    }
}

} // verus!
