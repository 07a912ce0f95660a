//! Safety around destructive operations: backup branch names, checkpoints,
//! confirmations and the clean-up of old backups.
use vstd::prelude::*;
use crate::base::git::{ProcessOutput, kept_lines, select_lines, strings, push_str_arg};
use crate::base::text::{lines, owned, parse_i64, parse_i64_of, trim, trim_str};
use crate::base::validation::{Validate, branch_name_ok};
use crate::{GitXError, Result, is_git_error, is_parse_error};

verus! {

/// The name of a backup branch: `prefix/branch_timestamp`.
pub open spec fn backup_name(prefix: Option<Seq<char>>, branch: Seq<char>, timestamp: Seq<char>) -> Seq<char> {
    (match prefix {
        Some(p) => p,
        None => "backup"@,
    }) + "/"@ + branch + "_"@ + timestamp
}

/// Safety and backup utilities for destructive operations
pub struct Safety;

impl Safety {
    /// The backup branch name for the current branch at `timestamp`
    /// (formatted `%Y%m%d_%H%M%S`), checked as a branch name.
    pub fn create_backup_branch(prefix: Option<&str>, current_branch: &str, timestamp: &str) -> (r: Result<String>)
        ensures
            ({
                let name = backup_name(
                    match prefix {
                        Some(p) => Some(p@),
                        None => None,
                    },
                    current_branch@,
                    timestamp@,
                );
                match r {
                    Ok(n) => n@ == name && branch_name_ok(name),
                    Err(GitXError::Parse(_)) => !branch_name_ok(name),
                    _ => false,
                }
            }),
    {
        let mut name = match prefix {
            Some(p) => owned(p),
            None => owned("backup"),
        };
        name.append("/");
        name.append(current_branch);
        name.append("_");
        name.append(timestamp);
        match Validate::branch_name(name.as_str()) {
            Ok(()) => Ok(name),
            Err(e) => Err(e),
        }
    }

    /// The arguments that create the backup branch `name`.
    pub fn backup_branch_args(name: &str) -> (r: Vec<String>)
        ensures
            r.deep_view() == seq!["branch"@, name@],
    {
        let mut r = strings(&["branch"]);
        push_str_arg(&mut r, name);
        assert(r.deep_view() =~= seq!["branch"@, name@]);
        r
    }

    /// The outcome of creating the backup branch `name`.
    pub fn backup_created(name: String, success: bool) -> (r: Result<String>)
        ensures
            success ==> (r matches Ok(n) && n@ == name@),
            !success ==> is_git_error(r, "Failed to create backup branch '"@ + name@ + "'"@),
    {
        if success {
            Ok(name)
        } else {
            let mut m = owned("Failed to create backup branch '");
            m.append(name.as_str());
            m.append("'");
            Err(GitXError::GitCommand(m))
        }
    }

    /// Check that the working directory is clean before destructive
    /// operations (skipped in test environments), given git's answer.
    pub fn ensure_clean_working_directory(test_environment: bool, clean: Result<bool>) -> (r: Result<()>)
        ensures
            test_environment ==> r is Ok,
            !test_environment ==> match clean {
                Ok(true) => r is Ok,
                Ok(false) => is_git_error(
                    r,
                    "Working directory is not clean. Please commit or stash your changes first."@,
                ),
                Err(e) => r == Err::<(), GitXError>(e),
            },
    {
        if test_environment {
            return Ok(());
        }
        match clean {
            Ok(true) => Ok(()),
            Ok(false) => Err(GitXError::GitCommand(owned(
                "Working directory is not clean. Please commit or stash your changes first.",
            ))),
            Err(e) => Err(e),
        }
    }

    /// The question asked before a destructive operation.
    pub fn confirm_prompt(operation: &str, details: &str) -> (r: String)
        ensures
            r@ == "⚠️  "@ + operation@ + " This is a destructive operation.\n"@ + details@
                + "\nDo you want to continue?"@,
    {
        let mut r = owned("⚠️  ");
        r.append(operation);
        r.append(" This is a destructive operation.\n");
        r.append(details);
        r.append("\nDo you want to continue?");
        r
    }

    /// Confirm destructive operation with user: without a terminal the
    /// operation is allowed (`Some(true)`); else `None`, the user is asked.
    pub fn confirm_destructive_operation(interactive: bool) -> (r: Option<bool>)
        ensures
            !interactive ==> r == Some(true),
            interactive ==> r is None,
    {
        if interactive {
            None
        } else {
            Some(true)
        }
    }

    /// The message of a safety checkpoint.
    pub fn checkpoint_message<'a>(message: Option<&'a str>) -> (r: &'a str)
        ensures
            r@ == match message {
                Some(m) => m@,
                None => "git-x safety checkpoint"@,
            },
    {
        match message {
            Some(m) => m,
            None => "git-x safety checkpoint",
        }
    }

    /// The arguments that stash the work as a checkpoint.
    pub fn checkpoint_args(message: &str) -> (r: Vec<String>)
        ensures
            r.deep_view() == seq!["stash"@, "push"@, "-m"@, message@],
    {
        let mut r = strings(&["stash", "push", "-m"]);
        push_str_arg(&mut r, message);
        assert(r.deep_view() =~= seq!["stash"@, "push"@, "-m"@, message@]);
        r
    }

    /// Create a safety checkpoint: the outcome of stashing with `message`.
    pub fn create_checkpoint(message: &str, output: ProcessOutput) -> (r: Result<String>)
        ensures
            output.success ==> (r matches Ok(m) && m@ == message@),
            !output.success ==> is_git_error(r, "Failed to create safety checkpoint: "@ + output.stderr@),
    {
        if !output.success {
            let mut m = owned("Failed to create safety checkpoint: ");
            m.append(output.stderr.as_str());
            return Err(GitXError::GitCommand(m));
        }
        Ok(owned(message))
    }

    /// Restore from safety checkpoint: the outcome of `git stash pop`.
    pub fn restore_checkpoint(success: bool) -> (r: Result<()>)
        ensures
            success ==> r is Ok,
            !success ==> is_git_error(r, "Failed to restore from safety checkpoint"@),
    {
        if !success {
            return Err(GitXError::GitCommand(owned("Failed to restore from safety checkpoint")));
        }
        Ok(())
    }

    /// The arguments that list backup branches.
    pub fn list_backup_branches_args() -> (r: Vec<String>)
        ensures
            r.deep_view() == seq!["branch"@, "--list"@, "backup/*"@],
    {
        let r = strings(&["branch", "--list", "backup/*"]);
        assert(r.deep_view() =~= seq!["branch"@, "--list"@, "backup/*"@]);
        r
    }

    /// List recent backup branches created by git-x, from `git branch --list`.
    pub fn list_backup_branches(output: ProcessOutput) -> (r: Result<Vec<String>>)
        ensures
            output.success ==> (r matches Ok(v) && v.deep_view() == kept_lines(lines(output.stdout@), true, None)),
            !output.success ==> is_git_error(r, "Failed to list backup branches"@),
    {
        if !output.success {
            return Err(GitXError::GitCommand(owned("Failed to list backup branches")));
        }
        Ok(select_lines(output.stdout.as_str(), true, None))
    }

    /// The line reported for one old backup branch during clean-up.
    pub fn cleanup_line(branch: &str, dry_run: bool, deleted: bool) -> (r: String)
        ensures
            r@ == (if dry_run {
                "[DRY RUN] Would delete: "@
            } else if deleted {
                "Deleted: "@
            } else {
                "Failed to delete: "@
            }) + branch@,
    {
        let mut r = if dry_run {
            owned("[DRY RUN] Would delete: ")
        } else if deleted {
            owned("Deleted: ")
        } else {
            owned("Failed to delete: ")
        };
        r.append(branch);
        r
    }

    /// The arguments that print the commit time of a branch.
    pub fn branch_date_args(branch: &str) -> (r: Vec<String>)
        ensures
            r.deep_view() == seq!["log"@, "-1"@, "--format=%ct"@, branch@],
    {
        let mut r = strings(&["log", "-1", "--format=%ct"]);
        push_str_arg(&mut r, branch);
        assert(r.deep_view() =~= seq!["log"@, "-1"@, "--format=%ct"@, branch@]);
        r
    }

    /// Check if a branch is older than the cutoff (`now - days`, given as
    /// seconds and nanoseconds), from `git log -1 --format=%ct` on it.
    /// A commit time outside the dates chrono can hold is an invalid date.
    pub fn is_branch_older_than(
        branch: &str,
        output: ProcessOutput,
        cutoff_secs: i64,
        cutoff_nanos: u32,
    ) -> (r: Result<bool>)
        ensures
            !output.success ==> is_git_error(r, "Failed to get branch date for '"@ + branch@ + "'"@),
            output.success && parse_i64(trim(output.stdout@)) is None ==> is_parse_error(
                r,
                "Invalid timestamp for branch '"@ + branch@ + "'"@,
            ),
            output.success ==> (parse_i64(trim(output.stdout@)) matches Some(ts) ==> ({
                if date_in_range(ts) {
                    r == Ok::<bool, GitXError>(ts < cutoff_secs || (ts == cutoff_secs && cutoff_nanos > 0))
                } else {
                    is_parse_error(r, "Invalid date for branch '"@ + branch@ + "'"@)
                }
            })),
    {
        if !output.success {
            let mut m = owned("Failed to get branch date for '");
            m.append(branch);
            m.append("'");
            return Err(GitXError::GitCommand(m));
        }
        let t = trim_str(output.stdout.as_str());
        let ts = match parse_i64_of(t.as_str()) {
            Some(ts) => ts,
            None => {
                let mut m = owned("Invalid timestamp for branch '");
                m.append(branch);
                m.append("'");
                return Err(GitXError::Parse(m));
            },
        };
        if !timestamp_is_date(ts) {
            let mut m = owned("Invalid date for branch '");
            m.append(branch);
            m.append("'");
            return Err(GitXError::Parse(m));
        }
        Ok(ts < cutoff_secs || (ts == cutoff_secs && cutoff_nanos > 0))
    }
}

/// `secs` seconds after the epoch falls between chrono's first instant
/// (-262143-01-01T00:00:00Z) and its last (262142-12-31T23:59:59Z).
pub open spec fn date_in_range(secs: int) -> bool {
    -8334601228800 <= secs <= 8210266876799
}

/// Whether `secs` seconds after the epoch is an instant chrono's
/// `DateTime::from_timestamp(secs, 0)` can hold: `NaiveDate::MIN` to
/// `NaiveDate::MAX` at UTC (`date_in_range`).
fn timestamp_is_date(secs: i64) -> (r: bool)
    ensures
        r == date_in_range(secs as int),
{
    -8334601228800 <= secs && secs <= 8210266876799
}

/// Builder for creating safe operation workflows
pub struct SafetyBuilder {
    operation_name: String,
    backup_needed: bool,
    checkpoint_needed: bool,
    confirmation_needed: bool,
    clean_directory_needed: bool,
}

/// The checks a `SafetyBuilder` asks for, with its operation's name.
pub struct SafetyPlan {
    pub operation_name: Seq<char>,
    pub backup: bool,
    pub checkpoint: bool,
    pub confirmation: bool,
    pub clean_directory: bool,
}

impl SafetyBuilder {
    pub closed spec fn plan(&self) -> SafetyPlan {
        SafetyPlan {
            operation_name: self.operation_name@,
            backup: self.backup_needed,
            checkpoint: self.checkpoint_needed,
            confirmation: self.confirmation_needed,
            clean_directory: self.clean_directory_needed,
        }
    }

    pub fn new(operation_name: &str) -> (r: Self)
        ensures
            r.plan() == (SafetyPlan {
                operation_name: operation_name@,
                backup: false,
                checkpoint: false,
                confirmation: false,
                clean_directory: false,
            }),
    {
        Self {
            operation_name: owned(operation_name),
            backup_needed: false,
            checkpoint_needed: false,
            confirmation_needed: false,
            clean_directory_needed: false,
        }
    }

    pub fn with_backup(self) -> (r: Self)
        ensures
            r.plan() == (SafetyPlan { backup: true, ..self.plan() }),
    {
        let mut s = self;
        s.backup_needed = true;
        s
    }

    pub fn with_checkpoint(self) -> (r: Self)
        ensures
            r.plan() == (SafetyPlan { checkpoint: true, ..self.plan() }),
    {
        let mut s = self;
        s.checkpoint_needed = true;
        s
    }

    pub fn with_confirmation(self) -> (r: Self)
        ensures
            r.plan() == (SafetyPlan { confirmation: true, ..self.plan() }),
    {
        let mut s = self;
        s.confirmation_needed = true;
        s
    }

    pub fn with_clean_directory(self) -> (r: Self)
        ensures
            r.plan() == (SafetyPlan { clean_directory: true, ..self.plan() }),
    {
        let mut s = self;
        s.clean_directory_needed = true;
        s
    }

    /// The operation's name.
    pub fn operation_name(&self) -> (r: &str)
        ensures
            r@ == self.plan().operation_name,
    {
        self.operation_name.as_str()
    }

    /// Whether a backup branch is made first.
    pub fn backup_needed(&self) -> (r: bool)
        ensures
            r == self.plan().backup,
    {
        self.backup_needed
    }

    /// Whether the work is stashed as a checkpoint first.
    pub fn checkpoint_needed(&self) -> (r: bool)
        ensures
            r == self.plan().checkpoint,
    {
        self.checkpoint_needed
    }

    /// Whether the user confirms first.
    pub fn confirmation_needed(&self) -> (r: bool)
        ensures
            r == self.plan().confirmation,
    {
        self.confirmation_needed
    }

    /// Whether a clean working directory is required first.
    pub fn clean_directory_needed(&self) -> (r: bool)
        ensures
            r == self.plan().clean_directory,
    {
        self.clean_directory_needed
    }

    /// The checkpoint message: "Before <operation>".
    pub fn checkpoint_text(&self) -> (r: String)
        ensures
            r@ == "Before "@ + self.plan().operation_name,
    {
        let mut r = owned("Before ");
        r.append(self.operation_name.as_str());
        r
    }

    /// The details shown when confirming, naming the backup branch if one was made.
    pub fn confirmation_details(backup: Option<&str>) -> (r: String)
        ensures
            r@ == match backup {
                Some(b) => "A backup branch '"@ + b@ + "' has been created."@,
                None => "No backup will be created."@,
            },
    {
        match backup {
            Some(b) => {
                let mut r = owned("A backup branch '");
                r.append(b);
                r.append("' has been created.");
                r
            },
            None => owned("No backup will be created."),
        }
    }

    /// The answer when the user declines.
    pub fn cancelled() -> (r: Result<String>)
        ensures
            r matches Ok(s) && s@ == "Operation cancelled by user."@,
    {
        Ok(owned("Operation cancelled by user."))
    }
}

/// A step of a safe operation, in the order they are taken: the
/// clean-directory check, the backup branch, the checkpoint (with its
/// message), the confirmation (with its details), the operation itself.
pub enum SafetyStep {
    CheckClean,
    Backup,
    Checkpoint(String),
    Confirm(String),
    Run,
}

/// What came of the step just taken.
pub enum SafetyEvent {
    Start,
    Cleaned(Result<()>),
    BackedUp(Result<String>),
    Checkpointed(Result<String>),
    Confirmed(Result<bool>),
}

/// What a safe operation does next: a step, or stop with a result.
pub enum SafetyNext {
    Do(SafetyStep),
    Stop(Result<String>),
}

/// The position of a step in the order.
pub open spec fn stage_of(s: SafetyStep) -> int {
    match s {
        SafetyStep::CheckClean => 0,
        SafetyStep::Backup => 1,
        SafetyStep::Checkpoint(_) => 2,
        SafetyStep::Confirm(_) => 3,
        SafetyStep::Run => 4,
    }
}

/// The text a step carries (the checkpoint's message, the confirmation's
/// details), empty for the others.
pub open spec fn step_text(s: SafetyStep) -> Seq<char> {
    match s {
        SafetyStep::Checkpoint(m) => m@,
        SafetyStep::Confirm(d) => d@,
        _ => Seq::empty(),
    }
}

/// Whether the plan asks for the step at position `k`.
pub open spec fn asks_for(p: SafetyPlan, k: int) -> bool {
    if k == 0 {
        p.clean_directory
    } else if k == 1 {
        p.backup
    } else if k == 2 {
        p.checkpoint
    } else if k == 3 {
        p.confirmation
    } else {
        true
    }
}

/// The first step at position `k` or later that the plan asks for.
pub open spec fn first_asked(p: SafetyPlan, k: int) -> int
    decreases 4 - k,
{
    if k >= 4 {
        4
    } else if asks_for(p, k) {
        k
    } else {
        first_asked(p, k + 1)
    }
}

/// The text of the step at position `k`, `backup` being the backup branch
/// made, if any.
pub open spec fn stage_text(p: SafetyPlan, k: int, backup: Option<Seq<char>>) -> Seq<char> {
    if k == 2 {
        "Before "@ + p.operation_name
    } else if k == 3 {
        match backup {
            Some(b) => "A backup branch '"@ + b + "' has been created."@,
            None => "No backup will be created."@,
        }
    } else {
        Seq::empty()
    }
}

/// The next step is the first asked for from position `k`, with its text.
pub open spec fn next_is(r: SafetyNext, p: SafetyPlan, k: int, backup: Option<Seq<char>>) -> bool {
    r matches SafetyNext::Do(s) && stage_of(s) == first_asked(p, k) && step_text(s) == stage_text(p, first_asked(p, k), backup)
}

/// What a safe operation does after `event` (see `SafetyBuilder::execute`).
pub open spec fn safety_next(p: SafetyPlan, event: SafetyEvent, b: Option<Seq<char>>, r: SafetyNext) -> bool {
    match event {
        SafetyEvent::Start => next_is(r, p, 0, b),
        SafetyEvent::Cleaned(Ok(())) => next_is(r, p, 1, b),
        SafetyEvent::BackedUp(Ok(name)) => next_is(r, p, 2, Some(name@)),
        SafetyEvent::Checkpointed(Ok(_)) => next_is(r, p, 3, b),
        SafetyEvent::Confirmed(Ok(true)) => r matches SafetyNext::Do(SafetyStep::Run),
        SafetyEvent::Confirmed(Ok(false)) => r matches SafetyNext::Stop(Ok(m)) && m@ == "Operation cancelled by user."@,
        SafetyEvent::Cleaned(Err(e)) => r == SafetyNext::Stop(Err(e)),
        SafetyEvent::BackedUp(Err(e)) => r == SafetyNext::Stop(Err(e)),
        SafetyEvent::Checkpointed(Err(e)) => r == SafetyNext::Stop(Err(e)),
        SafetyEvent::Confirmed(Err(e)) => r == SafetyNext::Stop(Err(e)),
    }
}

/// The error a failed step gave, if it failed.
pub open spec fn event_error(event: SafetyEvent) -> Option<GitXError> {
    match event {
        SafetyEvent::Cleaned(Err(e)) => Some(e),
        SafetyEvent::BackedUp(Err(e)) => Some(e),
        SafetyEvent::Checkpointed(Err(e)) => Some(e),
        SafetyEvent::Confirmed(Err(e)) => Some(e),
        _ => None,
    }
}

/// A safe operation stops on the first step that fails, with that step's
/// error unchanged, and runs the operation only after every step it asked
/// for succeeded (the confirmation, when asked for, given).
pub proof fn law_safety_propagates_errors(p: SafetyPlan, event: SafetyEvent, b: Option<Seq<char>>, r: SafetyNext)
    requires
        safety_next(p, event, b, r),
    ensures
        event_error(event) matches Some(e) ==> r == SafetyNext::Stop(Err::<String, GitXError>(e)),
        r matches SafetyNext::Do(SafetyStep::Run) ==> event_error(event) is None && !(event matches SafetyEvent::Confirmed(
            Ok(false),
        )) && (p.confirmation ==> (event matches SafetyEvent::Confirmed(Ok(true)))),
{
    reveal_with_fuel(first_asked, 5);
}

impl SafetyBuilder {
    /// The step at position `k` or the first asked for after it.
    fn step_from(&self, k: u8, backup: &Option<String>) -> (r: SafetyNext)
        requires
            k <= 4,
        ensures
            next_is(r, self.plan(), k as int, match backup {
                Some(b) => Some(b@),
                None => None,
            }),
    {
        proof {
            reveal_with_fuel(first_asked, 5);
        }
        if k == 0 && self.clean_directory_needed {
            return SafetyNext::Do(SafetyStep::CheckClean);
        }
        if k <= 1 && self.backup_needed {
            return SafetyNext::Do(SafetyStep::Backup);
        }
        if k <= 2 && self.checkpoint_needed {
            return SafetyNext::Do(SafetyStep::Checkpoint(self.checkpoint_text()));
        }
        if k <= 3 && self.confirmation_needed {
            let d = match backup {
                Some(b) => SafetyBuilder::confirmation_details(Some(b.as_str())),
                None => SafetyBuilder::confirmation_details(None),
            };
            return SafetyNext::Do(SafetyStep::Confirm(d));
        }
        SafetyNext::Do(SafetyStep::Run)
    }

    /// What the safe operation does after `event`: each step in order, the
    /// ones not asked for skipped; a failed step stops it with its error; a
    /// declined confirmation stops it with "Operation cancelled by user.";
    /// `backup` is the backup branch made so far (named in the confirmation).
    pub fn execute(&self, event: SafetyEvent, backup: Option<String>) -> (r: SafetyNext)
        ensures
            safety_next(self.plan(), event, match backup {
                Some(x) => Some(x@),
                None => None::<Seq<char>>,
            }, r),
    {
        match event {
            SafetyEvent::Start => self.step_from(0, &backup),
            SafetyEvent::Cleaned(Ok(())) => self.step_from(1, &backup),
            SafetyEvent::BackedUp(Ok(name)) => self.step_from(2, &Some(name)),
            SafetyEvent::Checkpointed(Ok(_)) => self.step_from(3, &backup),
            SafetyEvent::Confirmed(Ok(true)) => SafetyNext::Do(SafetyStep::Run),
            SafetyEvent::Confirmed(Ok(false)) => SafetyNext::Stop(SafetyBuilder::cancelled()),
            SafetyEvent::Cleaned(Err(e)) => SafetyNext::Stop(Err(e)),
            SafetyEvent::BackedUp(Err(e)) => SafetyNext::Stop(Err(e)),
            SafetyEvent::Checkpointed(Err(e)) => SafetyNext::Stop(Err(e)),
            SafetyEvent::Confirmed(Err(e)) => SafetyNext::Stop(Err(e)),
        }
    }

    /// The outcome of the operation, and whether the checkpoint is restored
    /// (it failed and a checkpoint was made).
    pub fn finish(&self, outcome: Result<String>) -> (r: (Result<String>, bool))
        ensures
            r.0 == outcome,
            r.1 == (outcome is Err && self.plan().checkpoint),
    {
        let restore = outcome.is_err() && self.checkpoint_needed;
        (outcome, restore)
    }
}

} // verus!
