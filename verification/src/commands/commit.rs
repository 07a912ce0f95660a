//! Commit commands: fixup commits, undoing the last commit, and the bisect
//! workflow.
use vstd::prelude::*;
use crate::base::git::{CommitOperations, strings, push_str_arg};
use crate::base::text::owned;
use crate::base::traits::{Command, Destructive, GitCommand};
use crate::base::validation::{Validate, commit_hash_checked, commit_hash_error, commit_hash_ok};
use crate::commands::plan::{Plan, ok_report, ok_run, runs};
use crate::{GitXError, Result, is_git_error, is_parse_error};

verus! {

/// Commit-related commands grouped together
pub struct CommitCommands;

impl CommitCommands {
    /// Create a fixup commit (see `FixupCommand::plan`).
    pub fn fixup(commit_hash: &str, auto_rebase: bool, exists: Result<bool>, staged: Result<Vec<String>>) -> (r: Result<Plan>)
        ensures
            fixup_plan(commit_hash@, exists, staged, r),
    {
        FixupCommand::new(owned(commit_hash), auto_rebase).plan(exists, staged)
    }

    /// Undo the last commit (see `UndoCommand::plan`).
    pub fn undo() -> (r: Plan)
        ensures
            runs(r, seq![seq!["reset"@, "--soft"@, "HEAD~1"@]], "✅ Undid last commit (soft reset)"@),
    {
        UndoCommand::new().plan()
    }

    /// Bisect workflow (see `BisectCommand::execute_bisect_action`).
    pub fn bisect(
        action: BisectAction,
        bisecting: bool,
        bad_exists: Result<bool>,
        good_exists: Result<bool>,
        log: Result<String>,
    ) -> (r: Result<Plan>)
        ensures
            bisect_plan(action, bisecting, bad_exists, good_exists, log, r),
    {
        let ghost a = action;
        let cmd = BisectCommand::new(action);
        cmd.execute_bisect_action(bisecting, bad_exists, good_exists, log)
    }
}

// ---------------------------------------------------------------------------
// Fixup
// ---------------------------------------------------------------------------

/// Command to create fixup commits
pub struct FixupCommand {
    commit_hash: String,
    auto_rebase: bool,
}

/// The report after a fixup commit that was not squashed.
pub open spec fn squash_hint(hash: Seq<char>) -> Seq<char> {
    "✅ Fixup commit created for "@ + hash + "\n💡 To squash the fixup commit, run: git rebase -i --autosquash "@
        + hash + "^"@
}

/// What the fixup command decides for `hash` from git's answers: whether the
/// commit exists (`GitOperations::commit_exists`) and the staged files. The
/// hash's format is checked first, then the commit's existence, then that
/// changes are staged; the first failure is the result. Otherwise the fixup
/// commit is created and the squash hint reported.
pub open spec fn fixup_plan(hash: Seq<char>, exists: Result<bool>, staged: Result<Vec<String>>, r: Result<Plan>) -> bool {
    if !commit_hash_ok(hash) {
        is_parse_error(r, commit_hash_error(hash))
    } else {
        match exists {
            Err(e) => r == Err::<Plan, GitXError>(e),
            Ok(false) => is_git_error(r, "Commit '"@ + hash + "' does not exist"@),
            Ok(true) => match staged {
                Err(e) => r == Err::<Plan, GitXError>(e),
                Ok(files) => if files.len() == 0 {
                    is_git_error(r, "No staged changes found. Please stage your changes first with 'git add'"@)
                } else {
                    ok_run(r, seq![seq!["commit"@, "--fixup"@, hash]], squash_hint(hash))
                },
            },
        }
    }
}

/// A fixup with nothing staged is refused with its message, and no commit
/// is made (no plan is returned).
pub proof fn law_fixup_needs_staged_changes(hash: Seq<char>, staged: Vec<String>, r: Result<Plan>)
    requires
        commit_hash_ok(hash),
        staged.len() == 0,
        fixup_plan(hash, Ok(true), Ok(staged), r),
    ensures
        is_git_error(r, "No staged changes found. Please stage your changes first with 'git add'"@),
        r is Err,
{
}

impl FixupCommand {
    pub closed spec fn hash_view(&self) -> Seq<char> {
        self.commit_hash@
    }

    pub closed spec fn auto_rebase_view(&self) -> bool {
        self.auto_rebase
    }

    pub fn new(commit_hash: String, auto_rebase: bool) -> (r: Self)
        ensures
            r.hash_view() == commit_hash@,
            r.auto_rebase_view() == auto_rebase,
    {
        Self { commit_hash, auto_rebase }
    }

    /// What the command does, from git's answers (see `fixup_plan`).
    pub fn plan(&self, exists: Result<bool>, staged: Result<Vec<String>>) -> (r: Result<Plan>)
        ensures
            fixup_plan(self.hash_view(), exists, staged, r),
    {
        match Validate::commit_hash(self.commit_hash.as_str()) {
            Err(e) => return Err(e),
            Ok(()) => {},
        }
        match exists {
            Err(e) => return Err(e),
            Ok(false) => {
                let mut m = String::from_str("Commit '");
                m.append(self.commit_hash.as_str());
                m.append("' does not exist");
                return Err(GitXError::GitCommand(m));
            },
            Ok(true) => {},
        }
        match staged {
            Err(e) => return Err(e),
            Ok(files) => {
                if files.len() == 0 {
                    return Err(
                        GitXError::GitCommand(
                            String::from_str("No staged changes found. Please stage your changes first with 'git add'"),
                        ),
                    );
                }
            },
        }
        let step = CommitOperations::fixup(self.commit_hash.as_str());
        Ok(Plan::one(step, self.squash_hint()))
    }

    /// The report when the fixup commit was not squashed.
    fn squash_hint(&self) -> (r: String)
        ensures
            r@ == squash_hint(self.hash_view()),
    {
        let mut r = String::from_str("✅ Fixup commit created for ");
        r.append(self.commit_hash.as_str());
        r.append("\n💡 To squash the fixup commit, run: git rebase -i --autosquash ");
        r.append(self.commit_hash.as_str());
        r.append("^");
        r
    }

    /// With auto-rebase, the rebase run after the fixup commit. Its failure
    /// is no error: the report is then the squash hint.
    pub fn rebase_step(&self) -> (r: Option<Vec<String>>)
        ensures
            self.auto_rebase_view() ==> (r matches Some(a) && a.deep_view() == seq![
                "rebase"@,
                "-i"@,
                "--autosquash"@,
                self.hash_view() + "^"@,
            ]),
            !self.auto_rebase_view() ==> r is None,
    {
        if self.auto_rebase {
            let mut target = owned(self.commit_hash.as_str());
            target.append("^");
            let mut a = strings(&["rebase", "-i", "--autosquash"]);
            push_str_arg(&mut a, target.as_str());
            assert(a.deep_view() =~= seq!["rebase"@, "-i"@, "--autosquash"@, self.hash_view() + "^"@]);
            Some(a)
        } else {
            None
        }
    }

    /// The report after a successful rebase.
    pub fn rebased_report(&self) -> (r: String)
        ensures
            r@ == "✅ Fixup commit created for "@ + self.hash_view() + "\n✅ Interactive rebase completed successfully"@,
    {
        let mut r = String::from_str("✅ Fixup commit created for ");
        r.append(self.commit_hash.as_str());
        r.append("\n✅ Interactive rebase completed successfully");
        r
    }
}

impl Command for FixupCommand {
    fn name(&self) -> (r: &'static str)
        ensures
            r@ == "fixup"@,
    {
        "fixup"
    }

    fn description(&self) -> (r: &'static str)
        ensures
            r@ == "Create fixup commits for easier interactive rebasing"@,
    {
        "Create fixup commits for easier interactive rebasing"
    }
}

impl GitCommand for FixupCommand {}

// ---------------------------------------------------------------------------
// Undo
// ---------------------------------------------------------------------------

/// Command to undo the last commit
pub struct UndoCommand;

impl UndoCommand {
    pub fn new() -> (r: Self) {
        Self
    }

    /// A soft reset of the last commit.
    pub fn plan(&self) -> (r: Plan)
        ensures
            runs(r, seq![seq!["reset"@, "--soft"@, "HEAD~1"@]], "✅ Undid last commit (soft reset)"@),
    {
        Plan::one(CommitOperations::undo_last(), String::from_str("✅ Undid last commit (soft reset)"))
    }
}

impl Default for UndoCommand {
    fn default() -> (r: Self) {
        Self::new()
    }
}

impl Command for UndoCommand {
    fn name(&self) -> (r: &'static str)
        ensures
            r@ == "undo"@,
    {
        "undo"
    }

    fn description(&self) -> (r: &'static str)
        ensures
            r@ == "Undo the last commit with a soft reset"@,
    {
        "Undo the last commit with a soft reset"
    }
}

impl GitCommand for UndoCommand {}

impl Destructive for UndoCommand {
    fn destruction_description(&self) -> (r: String)
        ensures
            r@ == "This will undo your last commit (but keep the changes staged)"@,
    {
        String::from_str("This will undo your last commit (but keep the changes staged)")
    }
}

// ---------------------------------------------------------------------------
// Bisect
// ---------------------------------------------------------------------------

/// Bisect workflow actions
pub enum BisectAction {
    Start { bad: String, good: String },
    Good,
    Bad,
    Skip,
    Reset,
    Status,
}

/// Command for Git bisect workflow
pub struct BisectCommand {
    action: BisectAction,
}

/// `p` runs `git bisect <word>` and then reports `msg`, if a session is on.
pub open spec fn bisect_step(bisecting: bool, word: Seq<char>, msg: Seq<char>, r: Result<Plan>) -> bool {
    if bisecting {
        ok_run(r, seq![seq!["bisect"@, word]], msg)
    } else {
        is_git_error(r, "Not currently bisecting"@)
    }
}

/// What the bisect command decides for `action`, from git's answers:
/// whether a bisect session is on, whether the bad and the good commit of a
/// start exist (`GitOperations::commit_exists`), and the bisect log. A start
/// takes any ref that git resolves to a commit (a hash, a branch, `HEAD`,
/// `HEAD~10`): git's answers alone decide whether it runs.
pub open spec fn bisect_plan(
    action: BisectAction,
    bisecting: bool,
    bad_exists: Result<bool>,
    good_exists: Result<bool>,
    log: Result<String>,
    r: Result<Plan>,
) -> bool {
    match action {
        BisectAction::Start { bad, good } => {
            match bad_exists {
                Err(e) => r == Err::<Plan, GitXError>(e),
                Ok(false) => is_git_error(r, "Bad commit '"@ + bad@ + "' does not exist"@),
                Ok(true) => match good_exists {
                    Err(e) => r == Err::<Plan, GitXError>(e),
                    Ok(false) => is_git_error(r, "Good commit '"@ + good@ + "' does not exist"@),
                    Ok(true) => ok_run(
                        r,
                        seq![seq!["bisect"@, "start"@], seq!["bisect"@, "bad"@, bad@], seq!["bisect"@, "good"@, good@]],
                        "🔍 Started bisect between "@ + bad@ + " (bad) and "@ + good@ + " (good)"@,
                    ),
                },
            }
        },
        BisectAction::Good => bisect_step(bisecting, "good"@, "✅ Marked current commit as good"@, r),
        BisectAction::Bad => bisect_step(bisecting, "bad"@, "❌ Marked current commit as bad"@, r),
        BisectAction::Skip => bisect_step(bisecting, "skip"@, "⏭️ Skipped current commit"@, r),
        BisectAction::Reset => bisect_step(bisecting, "reset"@, "🔄 Reset bisect and returned to original branch"@, r),
        BisectAction::Status => if !bisecting {
            ok_report(r, "Not currently bisecting"@)
        } else {
            match log {
                Ok(l) => ok_report(r, "🔍 Bisect status:\n"@ + l@),
                Err(_) => ok_report(r, "🔍 Bisect status:\n"@ + "No bisect log available"@),
            }
        },
    }
}

/// `p` with `/` and `q` joined (`Path::join` with a relative `q`).
pub open spec fn path_join(p: Seq<char>, q: Seq<char>) -> Seq<char> {
    if p.len() == 0 {
        q
    } else if p.last() == '/' {
        p + q
    } else {
        p + "/"@ + q
    }
}

/// `p` joined with `q` (see `path_join`).
fn join_path(p: &str, q: &str) -> (r: String)
    ensures
        r@ == path_join(p@, q@),
{
    if p.is_empty() {
        owned(q)
    } else {
        let v = crate::base::text::chars_of(p);
        let mut r = owned(p);
        if v[v.len() - 1] != '/' {
            r.append("/");
        }
        r.append(q);
        r
    }
}

impl BisectCommand {
    pub closed spec fn action_view(&self) -> BisectAction {
        self.action
    }

    pub fn new(action: BisectAction) -> (r: Self)
        ensures
            r.action_view() == action,
    {
        Self { action }
    }

    /// The file whose presence marks a bisect session, in the repository
    /// rooted at `root`: `<root>/.git/BISECT_HEAD`.
    pub fn bisect_head_path(root: &str) -> (r: String)
        ensures
            r@ == path_join(path_join(root@, ".git"@), "BISECT_HEAD"@),
    {
        let git_dir = join_path(root, ".git");
        join_path(git_dir.as_str(), "BISECT_HEAD")
    }

    /// Whether a bisect session is on: the repository root was found and
    /// its `BISECT_HEAD` exists.
    pub fn is_bisecting(root: Result<String>, head_exists: bool) -> (r: bool)
        ensures
            r == (root is Ok && head_exists),
    {
        match root {
            Ok(_) => head_exists,
            Err(_) => false,
        }
    }

    /// What the command does (see `bisect_plan`).
    pub fn execute_bisect_action(
        &self,
        bisecting: bool,
        bad_exists: Result<bool>,
        good_exists: Result<bool>,
        log: Result<String>,
    ) -> (r: Result<Plan>)
        ensures
            bisect_plan(self.action_view(), bisecting, bad_exists, good_exists, log, r),
    {
        match &self.action {
            BisectAction::Start { bad, good } => {
                match bad_exists {
                    Err(e) => return Err(e),
                    Ok(false) => {
                        let mut m = String::from_str("Bad commit '");
                        m.append(bad.as_str());
                        m.append("' does not exist");
                        return Err(GitXError::GitCommand(m));
                    },
                    Ok(true) => {},
                }
                match good_exists {
                    Err(e) => return Err(e),
                    Ok(false) => {
                        let mut m = String::from_str("Good commit '");
                        m.append(good.as_str());
                        m.append("' does not exist");
                        return Err(GitXError::GitCommand(m));
                    },
                    Ok(true) => {},
                }
                let s0 = strings(&["bisect", "start"]);
                assert(s0.deep_view() =~= seq!["bisect"@, "start"@]);
                let mut b = strings(&["bisect", "bad"]);
                push_str_arg(&mut b, bad.as_str());
                assert(b.deep_view() =~= seq!["bisect"@, "bad"@, bad@]);
                let mut g = strings(&["bisect", "good"]);
                push_str_arg(&mut g, good.as_str());
                assert(g.deep_view() =~= seq!["bisect"@, "good"@, good@]);
                let ghost v0 = s0.deep_view();
                let ghost v1 = b.deep_view();
                let ghost v2 = g.deep_view();
                let mut steps: Vec<Vec<String>> = Vec::new();
                steps.push(s0);
                steps.push(b);
                steps.push(g);
                let mut m = String::from_str("🔍 Started bisect between ");
                m.append(bad.as_str());
                m.append(" (bad) and ");
                m.append(good.as_str());
                m.append(" (good)");
                proof {
                    assert(crate::commands::plan::steps_view(steps@) =~= seq![v0, v1, v2]);
                }
                Ok(Plan::Run { steps, then: m })
            },
            BisectAction::Good => Self::step(bisecting, "good", "✅ Marked current commit as good"),
            BisectAction::Bad => Self::step(bisecting, "bad", "❌ Marked current commit as bad"),
            BisectAction::Skip => Self::step(bisecting, "skip", "⏭️ Skipped current commit"),
            BisectAction::Reset => Self::step(bisecting, "reset", "🔄 Reset bisect and returned to original branch"),
            BisectAction::Status => {
                if !bisecting {
                    return Ok(Plan::Report(String::from_str("Not currently bisecting")));
                }
                let mut m = String::from_str("🔍 Bisect status:\n");
                match log {
                    Ok(l) => m.append(l.as_str()),
                    Err(_) => m.append("No bisect log available"),
                }
                Ok(Plan::Report(m))
            },
        }
    }

    /// `git bisect <word>`, when a session is on.
    fn step(bisecting: bool, word: &str, msg: &str) -> (r: Result<Plan>)
        ensures
            bisect_step(bisecting, word@, msg@, r),
    {
        if !bisecting {
            return Err(GitXError::GitCommand(String::from_str("Not currently bisecting")));
        }
        let mut a = strings(&["bisect"]);
        push_str_arg(&mut a, word);
        assert(a.deep_view() =~= seq!["bisect"@, word@]);
        Ok(Plan::one(a, owned(msg)))
    }
}

impl Command for BisectCommand {
    fn name(&self) -> (r: &'static str)
        ensures
            r@ == "bisect"@,
    {
        "bisect"
    }

    fn description(&self) -> (r: &'static str)
        ensures
            r@ == "Simplified Git bisect workflow for finding bugs"@,
    {
        "Simplified Git bisect workflow for finding bugs"
    }
}

impl GitCommand for BisectCommand {}

impl Destructive for BisectCommand {
    fn destruction_description(&self) -> (r: String)
        ensures
            self.action_view() is Start ==> r@ == "This will start a bisect session and change your working directory"@,
            self.action_view() is Reset ==> r@ == "This will reset the bisect session and return to your original branch"@,
            !(self.action_view() is Start) && !(self.action_view() is Reset) ==> r@
                == "This will change your working directory to a different commit"@,
    {
        match &self.action {
            BisectAction::Start { .. } => String::from_str("This will start a bisect session and change your working directory"),
            BisectAction::Reset => String::from_str("This will reset the bisect session and return to your original branch"),
            _ => String::from_str("This will change your working directory to a different commit"),
        }
    }
}

} // verus!
