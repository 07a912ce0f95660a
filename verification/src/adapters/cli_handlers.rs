//! The CLI handlers: the requests each command makes of the domain layer and
//! the text each result becomes.
use vstd::prelude::*;
use crate::adapters::formatters::{
    BranchFormatter, RepositoryFormatter, clean_result_text, clean_text, health_status_text, is_creation_text, is_switch_text,
    repository_info_text, repository_tail, staged_line, upstream_line, working_line,
};
use crate::base::interactive::Interactive;
use crate::base::text::{contains, join, occurs_at, owned};
use crate::base::validation::branch_name_ok;
use crate::domain::branch_manager::{
    BranchCreationResult, BranchManager, BranchSwitchResult, CleanBranchesRequest,
    CleanBranchesResult, CreateBranchRequest, RecentBranchesRequest, RecentBranchesResult,
    SwitchBranchRequest, opt_view, split_deletions,
};
use crate::base::output::is_bold_of;
use crate::domain::git_repository::{GitRepository, HealthStatus, RepositoryInfo, status_parts};
use crate::{GitXError, Result, is_git_error};

verus! {

/// CLI handler for branch operations
pub struct BranchCliHandler {
    branch_manager: BranchManager,
    formatter: BranchFormatter,
}

impl BranchCliHandler {
    /// Create a new CLI handler for the repository whose root git reported.
    pub fn new(root: Result<String>) -> (r: Result<Self>)
        ensures
            root matches Ok(p) ==> (r matches Ok(h) && h.manager_view().repository_view().root_view() == p@),
            root matches Err(e) ==> r == Err::<Self, GitXError>(e),
    {
        let repository = match GitRepository::open(root) {
            Ok(r) => r,
            Err(e) => return Err(e),
        };
        Ok(Self { branch_manager: BranchManager::new(repository), formatter: BranchFormatter::new() })
    }

    /// The branch manager the handler was made with.
    pub closed spec fn manager_view(&self) -> BranchManager {
        self.branch_manager
    }

    pub fn branch_manager(&self) -> (r: &BranchManager)
        ensures
            *r == self.manager_view(),
    {
        &self.branch_manager
    }

    /// The request made for `git x new` (no backup branch).
    pub fn new_branch_request(name: String, from: Option<String>) -> (r: CreateBranchRequest)
        ensures
            r.name@ == name@,
            opt_view(r.from) == opt_view(from),
            !r.create_backup,
    {
        CreateBranchRequest { name, from, create_backup: false }
    }

    /// Handle new branch creation command: the text for the created branch.
    pub fn handle_new_branch(&self, result: &BranchCreationResult) -> (r: String)
        ensures
            is_creation_text(r@, *result),
    {
        self.formatter.format_creation_result(result)
    }

    /// The request made for `git x clean-branches` (confirmation only when
    /// really deleting).
    pub fn clean_branches_request(dry_run: bool) -> (r: CleanBranchesRequest)
        ensures
            r.dry_run == dry_run,
            r.confirm_deletion == !dry_run,
    {
        CleanBranchesRequest { dry_run, confirm_deletion: !dry_run }
    }

    /// Handle clean branches command: the text for the clean-up.
    pub fn handle_clean_branches(&self, result: &CleanBranchesResult) -> (r: String)
        ensures
            r@ == clean_result_text(*result),
    {
        self.formatter.format_clean_result(result)
    }

    /// The request made for `git x switch-recent`: ten branches, without the
    /// current one.
    pub fn switch_recent_request() -> (r: RecentBranchesRequest)
        ensures
            r.limit == Some(10usize),
            r.exclude_current,
            !r.exclude_protected,
    {
        RecentBranchesRequest { limit: Some(10), exclude_current: true, exclude_protected: false }
    }

    /// The branch to switch to among the recent ones: an error without any,
    /// the most recent one without a terminal, else `None` (the user picks).
    pub fn choose_recent(recent: &RecentBranchesResult, interactive: bool) -> (r: Result<Option<String>>)
        ensures
            recent.branches.len() == 0 ==> is_git_error(r, "No recent branches found"@),
            recent.branches.len() > 0 && !interactive ==> (r matches Ok(Some(b)) && b@ == recent.branches@[0]@),
            recent.branches.len() > 0 && interactive ==> r matches Ok(None::<String>),
    {
        if recent.branches.len() == 0 {
            return Err(GitXError::GitCommand(owned("No recent branches found")));
        }
        match Interactive::select_or_first(&recent.branches, interactive) {
            Ok(choice) => Ok(choice),
            Err(e) => Err(e),
        }
    }

    /// The request to switch to `branch_name` (not strict, no checkpoint).
    pub fn switch_request(branch_name: String) -> (r: SwitchBranchRequest)
        ensures
            r.branch_name@ == branch_name@,
            !r.strict_mode,
            !r.create_checkpoint,
    {
        SwitchBranchRequest { branch_name, strict_mode: false, create_checkpoint: false }
    }

    /// Handle switch recent command: the text for the switch.
    pub fn handle_switch_recent(&self, result: &BranchSwitchResult) -> (r: String)
        ensures
            is_switch_text(r@, *result),
    {
        self.formatter.format_switch_result(result)
    }
}

/// The checks before creating `name` (from `from`) pass on git's answers.
pub open spec fn create_checks_pass(
    name: Seq<char>,
    from: Option<Seq<char>>,
    base_exists: Result<bool>,
    branch_exists: Result<bool>,
) -> bool {
    branch_name_ok(name) && (from is None || (base_exists matches Ok(b) && b)) && (branch_exists matches Ok(e) && !e)
}

/// The report of a created branch `name`: the check mark, the branch, and
/// the base when one was given; no backup line.
pub open spec fn created_report(t: Seq<char>, name: Seq<char>, from: Option<Seq<char>>) -> bool {
    exists|b: Seq<char>| is_bold_of(b, "✅"@) && t == b + " "@ + "Created and switched to branch '"@ + name + "'"@
        + match from {
            Some(f) => "\n📍 Based on: "@ + f,
            None => Seq::empty(),
        }
}

/// The report of a switch to `name`: the check mark and the branch; no
/// checkpoint line.
pub open spec fn switched_report(t: Seq<char>, name: Seq<char>) -> bool {
    exists|b: Seq<char>| is_bold_of(b, "✅"@) && t == b + " "@ + "Switched to branch '"@ + name + "'"@
}

impl BranchCliHandler {
    /// `git x new` through the domain layer: the request, the checks on
    /// git's answers (the name first, then the base and whether the branch
    /// exists), the outcome of `git checkout -b` (consulted only once the
    /// checks pass), and the report. An invalid name is refused before any
    /// git step.
    pub fn new_branch_outcome(
        &self,
        name: String,
        from: Option<String>,
        base_exists: Result<bool>,
        branch_exists: Result<bool>,
        created: Result<()>,
    ) -> (r: Result<String>)
        ensures
            !branch_name_ok(name@) ==> r matches Err(GitXError::Parse(_)),
            !create_checks_pass(name@, opt_view(from), base_exists, branch_exists) ==> r is Err,
            create_checks_pass(name@, opt_view(from), base_exists, branch_exists) ==> match created {
                Err(e) => r == Err::<String, GitXError>(e),
                Ok(()) => r matches Ok(t) && created_report(t@, name@, opt_view(from)),
            },
    {
        let ghost nv = name@;
        let ghost fv = opt_view(from);
        let request = Self::new_branch_request(name, from);
        assert(request.from is None <==> fv is None);
        let ghost be = base_exists;
        let ghost ex = branch_exists;
        let checked = self.branch_manager.check_create_branch(&request, base_exists, branch_exists);
        match checked {
            Ok(()) => {},
            Err(e) => return Err(e),
        }
        assert(create_checks_pass(nv, fv, be, ex));
        match created {
            Ok(()) => {},
            Err(e) => return Err(e),
        }
        let result = self.branch_manager.create_branch(request, None);
        let t = self.handle_new_branch(&result);
        proof {
            assert(result.backup_branch is None);
            let b = choose|b: Seq<char>| is_bold_of(b, "✅"@) && t@ == b + " "@ + "Created and switched to branch '"@
                + result.branch_name@ + "'"@ + match result.backup_branch {
                    Some(x) => "\n💾 Backup created: "@ + x@,
                    None => Seq::empty(),
                } + match result.base_commit {
                    Some(x) => "\n📍 Based on: "@ + x@,
                    None => Seq::empty(),
                };
            assert(t@ =~= b + " "@ + "Created and switched to branch '"@ + nv + "'"@ + match fv {
                Some(f) => "\n📍 Based on: "@ + f,
                None => Seq::empty(),
            });
        }
        Ok(t)
    }

    /// `git x switch-recent` through the domain layer: no recent branch is an
    /// error; otherwise the branch picked (`selection`, or the most recent
    /// without a terminal) is checked to exist, checked out, and reported.
    pub fn switch_recent_outcome(
        &self,
        recent: &RecentBranchesResult,
        selection: Option<usize>,
        branch_exists: Result<bool>,
        checkout: Result<()>,
    ) -> (r: Result<String>)
        requires
            selection matches Some(i) ==> i < recent.branches.len(),
        ensures
            recent.branches.len() == 0 ==> is_git_error(r, "No recent branches found"@),
            recent.branches.len() > 0 ==> ({
                let b = match selection {
                    Some(i) => recent.branches@[i as int]@,
                    None => recent.branches@[0]@,
                };
                match branch_exists {
                    Err(e) => r == Err::<String, GitXError>(e),
                    Ok(false) => is_git_error(r, "Branch '"@ + b + "' does not exist"@),
                    Ok(true) => match checkout {
                        Err(e) => r == Err::<String, GitXError>(e),
                        Ok(()) => r matches Ok(t) && switched_report(t@, b),
                    },
                }
            }),
    {
        if recent.branches.len() == 0 {
            return Err(GitXError::GitCommand(owned("No recent branches found")));
        }
        let chosen = match selection {
            Some(i) => Interactive::branch_picker(&recent.branches, i),
            None => owned(recent.branches[0].as_str()),
        };
        let ghost bv = chosen@;
        let request = Self::switch_request(chosen);
        match self.branch_manager.check_switch_branch(&request, branch_exists, Ok(true)) {
            Ok(()) => {},
            Err(e) => return Err(e),
        }
        match checkout {
            Ok(()) => {},
            Err(e) => return Err(e),
        }
        let result = self.branch_manager.switch_branch(request, owned(recent.current_branch.as_str()), None);
        let t = self.handle_switch_recent(&result);
        proof {
            let x = choose|x: Seq<char>| is_bold_of(x, "✅"@) && t@ == x + " "@ + "Switched to branch '"@
                + result.new_branch@ + "'"@ + match result.checkpoint {
                    Some(c) => "\n💾 Checkpoint created: "@ + c@,
                    None => Seq::empty(),
                };
            assert(result.checkpoint is None);
            assert(t@ =~= x + " "@ + "Switched to branch '"@ + bv + "'"@);
        }
        Ok(t)
    }

    /// `git x clean-branches` through the domain layer: the request (a
    /// confirmation only when really deleting), the candidates (merged, not
    /// current, not protected), the answer to the confirmation, one deletion
    /// outcome per candidate, and the report.
    pub fn clean_branches_outcome(
        &self,
        dry_run: bool,
        candidates: Vec<String>,
        confirmed: bool,
        outcomes: Vec<bool>,
    ) -> (r: String)
        requires
            outcomes.len() == candidates.len(),
        ensures
            r@ == (if dry_run || confirmed {
                clean_text(
                    candidates.deep_view(),
                    dry_run,
                    split_deletions(candidates.deep_view(), outcomes@, false).0,
                    split_deletions(candidates.deep_view(), outcomes@, false).1,
                )
            } else {
                clean_text(candidates.deep_view(), false, Seq::empty(), Seq::empty())
            }),
    {
        let request = Self::clean_branches_request(dry_run);
        let ghost cv = candidates.deep_view();
        let result = self.branch_manager.clean_merged_branches(request, candidates, confirmed, outcomes);
        proof {
            if result.deleted.len() == 0 {
                assert(result.deleted.deep_view() =~= Seq::<Seq<char>>::empty());
            }
            if result.failed.len() == 0 {
                assert(result.failed.deep_view() =~= Seq::<Seq<char>>::empty());
            }
        }
        self.handle_clean_branches(&result)
    }
}

/// CLI handler for repository operations
pub struct RepositoryCliHandler {
    repository: GitRepository,
    formatter: RepositoryFormatter,
}

impl RepositoryCliHandler {
    /// Create a new CLI handler for the repository whose root git reported.
    pub fn new(root: Result<String>) -> (r: Result<Self>)
        ensures
            root matches Ok(p) ==> (r matches Ok(h) && h.repository_view().root_view() == p@),
            root matches Err(e) ==> r == Err::<Self, GitXError>(e),
    {
        let repository = match GitRepository::open(root) {
            Ok(r) => r,
            Err(e) => return Err(e),
        };
        Ok(Self { repository, formatter: RepositoryFormatter::new() })
    }

    /// The repository the handler was made with.
    pub closed spec fn repository_view(&self) -> GitRepository {
        self.repository
    }

    pub fn repository(&self) -> (r: &GitRepository)
        ensures
            *r == self.repository_view(),
    {
        &self.repository
    }

    /// Handle info command: the overview of the gathered information.
    pub fn handle_info(&self, info: Result<RepositoryInfo>, detailed: bool) -> (r: Result<String>)
        ensures
            match info {
                Ok(i) => r matches Ok(t) && repository_info_text(i, detailed, t@),
                Err(e) => r == Err::<String, GitXError>(e),
            },
    {
        match info {
            Ok(i) => Ok(self.formatter.format_repository_info(&i, detailed)),
            Err(e) => Err(e),
        }
    }

    /// Handle health command: the report of the health check.
    pub fn handle_health(&self, health: Result<HealthStatus>) -> (r: Result<String>)
        ensures
            match health {
                Ok(h) => r matches Ok(t) && health_status_text(h, t@),
                Err(e) => r == Err::<String, GitXError>(e),
            },
    {
        match health {
            Ok(h) => Ok(self.formatter.format_health_status(&h)),
            Err(e) => Err(e),
        }
    }
}

/// Factory for creating CLI handlers
pub struct CliHandlerFactory;

impl CliHandlerFactory {
    /// Create a branch CLI handler
    pub fn create_branch_handler(root: Result<String>) -> (r: Result<BranchCliHandler>)
        ensures
            root matches Ok(p) ==> (r matches Ok(h) && h.manager_view().repository_view().root_view() == p@),
            root matches Err(e) ==> r == Err::<BranchCliHandler, GitXError>(e),
    {
        BranchCliHandler::new(root)
    }

    /// Create a repository CLI handler
    pub fn create_repository_handler(root: Result<String>) -> (r: Result<RepositoryCliHandler>)
        ensures
            root matches Ok(p) ==> (r matches Ok(h) && h.repository_view().root_view() == p@),
            root matches Err(e) ==> r == Err::<RepositoryCliHandler, GitXError>(e),
    {
        RepositoryCliHandler::new(root)
    }
}

/// The detailed overview of a repository shows its root path: whatever the
/// styling, the text holds "📂 Root path: " followed by the root that git
/// reported for the handler (`RepositoryCliHandler::new`), which is the root
/// of the information gathered for it (`GitRepository::info`).
pub proof fn law_detailed_info_shows_root(info: RepositoryInfo, t: Seq<char>)
    requires
        repository_info_text(info, true, t),
    ensures
        contains(t, "📂 Root path: "@ + info.root_path@),
{
    let p = "📂 Root path: "@ + info.root_path@;
    let (n, c): (Seq<char>, Seq<char>) = choose|n: Seq<char>, c: Seq<char>|
        #![trigger is_bold_of(n, info.name@), is_bold_of(c, info.current_branch@)]
        is_bold_of(n, info.name@) && is_bold_of(c, info.current_branch@)
            && t == "🗂️  Repository: "@ + n + "\n"@ + "📍 Current branch: "@ + c + "\n"@ + repository_tail(info, true);
    let before = "🗂️  Repository: "@ + n + "\n"@ + "📍 Current branch: "@ + c + "\n"@ + upstream_line(info)
        + working_line(info) + staged_line(info) + "\n"@;
    let after = "\n"@ + "📊 Status: "@ + join(status_parts(info), ", "@) + "\n"@;
    reveal_strlit("\n📂 Root path: ");
    reveal_strlit("📂 Root path: ");
    reveal_strlit("\n");
    assert("\n📂 Root path: "@ =~= "\n"@ + "📂 Root path: "@);
    assert(t =~= before + p + after);
    assert((before + p + after).subrange(before.len() as int, (before.len() + p.len()) as int) =~= p);
    assert(occurs_at(t, p, before.len() as int));
}

} // verus!
