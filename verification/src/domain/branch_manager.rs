//! Branch management: the decisions around creating, deleting, switching,
//! renaming and cleaning branches. Each operation is split where git is asked
//! to act: a check on git's answers before, and the report after.
use vstd::prelude::*;
use crate::base::tally::{lemma_push_contains, occurrences};
use crate::base::text::{copy_strings, decimal, decimal_of, join, join_of, owned, push_copy, str_eq};
use crate::base::validation::{Validate, branch_name_ok};
use crate::domain::git_repository::GitRepository;
use crate::{GitXError, Result, is_git_error};

verus! {

/// The branches never deleted: main, master and develop.
pub open spec fn is_protected(b: Seq<char>) -> bool {
    b == "main"@ || b == "master"@ || b == "develop"@
}

/// Whether `b` is a protected branch.
pub fn is_protected_branch(b: &str) -> (r: bool)
    ensures
        r == is_protected(b@),
{
    str_eq(b, "main") || str_eq(b, "master") || str_eq(b, "develop")
}

/// The branches of `v` that are neither `current` nor protected.
pub open spec fn deletable(v: Seq<Seq<char>>, current: Seq<char>) -> Seq<Seq<char>>
    decreases v.len(),
{
    if v.len() == 0 {
        Seq::empty()
    } else {
        let rest = deletable(v.drop_last(), current);
        if v.last() != current && !is_protected(v.last()) {
            rest.push(v.last())
        } else {
            rest
        }
    }
}

/// The merged branches that may be deleted: not the current one, not protected.
pub fn deletable_branches(merged: &Vec<String>, current: &str) -> (r: Vec<String>)
    ensures
        r.deep_view() == deletable(merged.deep_view(), current@),
{
    let mut r: Vec<String> = Vec::new();
    for i in 0..merged.len()
        invariant
            r.deep_view() == deletable(merged.deep_view().take(i as int), current@),
    {
        let b = merged[i].as_str();
        proof {
            assert(merged.deep_view()[i as int] == merged@[i as int]@);
            assert(merged.deep_view().take(i + 1).drop_last() =~= merged.deep_view().take(i as int));
        }
        if !str_eq(b, current) && !is_protected_branch(b) {
            push_copy(&mut r, b);
        }
    }
    assert(merged.deep_view().take(merged.len() as int) =~= merged.deep_view());
    r
}

pub struct BranchManager {
    _repository: GitRepository,
}

pub struct CreateBranchRequest {
    pub name: String,
    pub from: Option<String>,
    pub create_backup: bool,
}

pub struct BranchCreationResult {
    pub branch_name: String,
    pub base_commit: Option<String>,
    pub backup_branch: Option<String>,
    pub switched: bool,
}

pub struct DeleteBranchesRequest {
    pub branches: Vec<String>,
    pub force: bool,
    pub dry_run: bool,
}

pub struct BranchDeletionResult {
    pub deleted: Vec<String>,
    pub failed: Vec<String>,
    pub protected: Vec<String>,
    pub dry_run: bool,
}

pub struct RecentBranchesRequest {
    pub limit: Option<usize>,
    pub exclude_current: bool,
    pub exclude_protected: bool,
}

pub struct RecentBranchesResult {
    pub branches: Vec<String>,
    pub current_branch: String,
}

pub struct SwitchBranchRequest {
    pub branch_name: String,
    pub strict_mode: bool,
    pub create_checkpoint: bool,
}

pub struct BranchSwitchResult {
    pub previous_branch: String,
    pub new_branch: String,
    pub checkpoint: Option<String>,
}

pub struct RenameBranchRequest {
    pub new_name: String,
    pub create_backup: bool,
}

pub struct BranchRenameResult {
    pub old_name: String,
    pub new_name: String,
    pub backup_branch: Option<String>,
}

pub struct CleanBranchesRequest {
    pub dry_run: bool,
    pub confirm_deletion: bool,
}

pub struct CleanBranchesResult {
    pub candidates: Vec<String>,
    pub deleted: Vec<String>,
    pub failed: Vec<String>,
    pub dry_run: bool,
}

/// The option's string view.
pub open spec fn opt_view(o: Option<String>) -> Option<Seq<char>> {
    match o {
        Some(s) => Some(s@),
        None => None,
    }
}

/// A copy of an optional string.
pub fn copy_opt(o: &Option<String>) -> (r: Option<String>)
    ensures
        opt_view(r) == opt_view(*o),
{
    match o {
        Some(s) => Some(owned(s.as_str())),
        None => None,
    }
}

/// The branches of `v` split by whether they are protected, with the
/// outcome of deleting each of the others (`true`: deleted).
pub open spec fn split_deletions(v: Seq<Seq<char>>, ok: Seq<bool>, dry_run: bool) -> (Seq<Seq<char>>, Seq<Seq<char>>, Seq<Seq<char>>)
    decreases v.len(),
{
    if v.len() == 0 || ok.len() < v.len() {
        (Seq::empty(), Seq::empty(), Seq::empty())
    } else {
        let (d, f, p) = split_deletions(v.drop_last(), ok.take(v.len() - 1), dry_run);
        let b = v.last();
        if is_protected(b) {
            (d, f, p.push(b))
        } else if dry_run || ok[v.len() - 1] {
            (d.push(b), f, p)
        } else {
            (d, f.push(b), p)
        }
    }
}

impl BranchManager {
    /// The repository the manager works on.
    pub closed spec fn repository_view(&self) -> GitRepository {
        self._repository
    }

    pub fn new(repository: GitRepository) -> (r: Self)
        ensures
            r.repository_view() == repository,
    {
        Self { _repository: repository }
    }

    /// The checks before creating a branch, given git's answers on whether
    /// the base ref (when one is given) and the new branch exist.
    pub fn check_create_branch(&self, request: &CreateBranchRequest, base_exists: Result<bool>, branch_exists: Result<bool>) -> (r: Result<()>)
        ensures
            !branch_name_ok(request.name@) ==> r matches Err(GitXError::Parse(_)),
            branch_name_ok(request.name@) && request.from is Some ==> (base_exists matches Err(e) ==> r == Err::<(), GitXError>(e)),
            request.from matches Some(b) ==> (branch_name_ok(request.name@) && base_exists == Ok::<bool, GitXError>(false)
                ==> is_git_error(r, "Base branch or ref '"@ + b@ + "' does not exist"@)),
            branch_name_ok(request.name@) && (request.from is None || base_exists == Ok::<bool, GitXError>(true)) ==> match branch_exists {
                Ok(true) => is_git_error(r, "Branch '"@ + request.name@ + "' already exists"@),
                Ok(false) => r is Ok,
                Err(e) => r == Err::<(), GitXError>(e),
            },
    {
        match Validate::branch_name(request.name.as_str()) {
            Ok(()) => {},
            Err(e) => return Err(e),
        }
        match &request.from {
            Some(base) => {
                match base_exists {
                    Ok(true) => {},
                    Ok(false) => {
                        let mut m = owned("Base branch or ref '");
                        m.append(base.as_str());
                        m.append("' does not exist");
                        return Err(GitXError::GitCommand(m));
                    },
                    Err(e) => return Err(e),
                }
            },
            None => {},
        }
        match branch_exists {
            Ok(true) => {
                let mut m = owned("Branch '");
                m.append(request.name.as_str());
                m.append("' already exists");
                Err(GitXError::GitCommand(m))
            },
            Ok(false) => Ok(()),
            Err(e) => Err(e),
        }
    }

    /// The report of a created (and checked out) branch.
    pub fn create_branch(&self, request: CreateBranchRequest, backup_branch: Option<String>) -> (r: BranchCreationResult)
        ensures
            r.branch_name@ == request.name@,
            opt_view(r.base_commit) == opt_view(request.from),
            opt_view(r.backup_branch) == opt_view(backup_branch),
            r.switched,
    {
        BranchCreationResult {
            branch_name: request.name,
            base_commit: request.from,
            backup_branch,
            switched: true,
        }
    }

    /// The deletion report, given for each requested branch the outcome of
    /// deleting it (consulted only for unprotected branches outside a dry run).
    pub fn delete_branches(&self, request: DeleteBranchesRequest, outcomes: Vec<bool>) -> (r: BranchDeletionResult)
        requires
            outcomes.len() == request.branches.len(),
        ensures
            (r.deleted.deep_view(), r.failed.deep_view(), r.protected.deep_view()) == split_deletions(
                request.branches.deep_view(),
                outcomes@,
                request.dry_run,
            ),
            r.dry_run == request.dry_run,
    {
        let mut deleted: Vec<String> = Vec::new();
        let mut failed: Vec<String> = Vec::new();
        let mut protected: Vec<String> = Vec::new();
        let ghost bv = request.branches.deep_view();
        for i in 0..request.branches.len()
            invariant
                outcomes.len() == request.branches.len(),
                bv == request.branches.deep_view(),
                (deleted.deep_view(), failed.deep_view(), protected.deep_view()) == split_deletions(
                    bv.take(i as int),
                    outcomes@.take(i as int),
                    request.dry_run,
                ),
        {
            let b = request.branches[i].as_str();
            proof {
                assert(bv[i as int] == request.branches@[i as int]@);
                assert(bv.take(i + 1).drop_last() =~= bv.take(i as int));
                assert(outcomes@.take(i + 1).take(i as int) =~= outcomes@.take(i as int));
            }
            if is_protected_branch(b) {
                push_copy(&mut protected, b);
            } else if request.dry_run || outcomes[i] {
                push_copy(&mut deleted, b);
            } else {
                push_copy(&mut failed, b);
            }
        }
        proof {
            assert(bv.take(request.branches.len() as int) =~= bv);
            assert(outcomes@.take(outcomes.len() as int) =~= outcomes@);
        }
        BranchDeletionResult { deleted, failed, protected, dry_run: request.dry_run }
    }

    /// Recent branches, from the recent-branch list git gave (already limited)
    /// and the current branch, without the current or protected branches as asked.
    pub fn get_recent_branches(&self, request: RecentBranchesRequest, all_recent: Vec<String>, current_branch: String) -> (r: RecentBranchesResult)
        ensures
            r.current_branch@ == current_branch@,
            r.branches.deep_view() == recent_kept(all_recent.deep_view(), current_branch@, request.exclude_current, request.exclude_protected),
    {
        let mut branches: Vec<String> = Vec::new();
        let ghost av = all_recent.deep_view();
        for i in 0..all_recent.len()
            invariant
                av == all_recent.deep_view(),
                branches.deep_view() == recent_kept(av.take(i as int), current_branch@, request.exclude_current, request.exclude_protected),
        {
            let b = all_recent[i].as_str();
            proof {
                assert(av[i as int] == all_recent@[i as int]@);
                assert(av.take(i + 1).drop_last() =~= av.take(i as int));
            }
            let skip = (request.exclude_current && str_eq(b, current_branch.as_str()))
                || (request.exclude_protected && is_protected_branch(b));
            if !skip {
                push_copy(&mut branches, b);
            }
        }
        assert(av.take(all_recent.len() as int) =~= av);
        RecentBranchesResult { branches, current_branch }
    }

    /// The checks before switching, given whether the branch exists and, in
    /// strict mode, whether the working directory is clean.
    pub fn check_switch_branch(&self, request: &SwitchBranchRequest, branch_exists: Result<bool>, is_clean: Result<bool>) -> (r: Result<()>)
        ensures
            branch_exists matches Err(e) ==> r == Err::<(), GitXError>(e),
            branch_exists == Ok::<bool, GitXError>(false) ==> is_git_error(r, "Branch '"@ + request.branch_name@ + "' does not exist"@),
            branch_exists == Ok::<bool, GitXError>(true) && !request.strict_mode ==> r is Ok,
            branch_exists == Ok::<bool, GitXError>(true) && request.strict_mode ==> match is_clean {
                Ok(true) => r is Ok,
                Ok(false) => is_git_error(r, "Working directory has uncommitted changes. Use --force or commit/stash changes."@),
                Err(e) => r == Err::<(), GitXError>(e),
            },
    {
        match branch_exists {
            Ok(true) => {},
            Ok(false) => {
                let mut m = owned("Branch '");
                m.append(request.branch_name.as_str());
                m.append("' does not exist");
                return Err(GitXError::GitCommand(m));
            },
            Err(e) => return Err(e),
        }
        if request.strict_mode {
            match is_clean {
                Ok(true) => {},
                Ok(false) => return Err(GitXError::GitCommand(owned(
                    "Working directory has uncommitted changes. Use --force or commit/stash changes.",
                ))),
                Err(e) => return Err(e),
            }
        }
        Ok(())
    }

    /// The checkpoint message used before switching.
    pub fn switch_checkpoint_message(&self, request: &SwitchBranchRequest) -> (r: String)
        ensures
            r@ == "Before switching to "@ + request.branch_name@,
    {
        let mut m = owned("Before switching to ");
        m.append(request.branch_name.as_str());
        m
    }

    /// The report of a switch from `previous_branch`.
    pub fn switch_branch(&self, request: SwitchBranchRequest, previous_branch: String, checkpoint: Option<String>) -> (r: BranchSwitchResult)
        ensures
            r.previous_branch@ == previous_branch@,
            r.new_branch@ == request.branch_name@,
            opt_view(r.checkpoint) == opt_view(checkpoint),
    {
        BranchSwitchResult { previous_branch, new_branch: request.branch_name, checkpoint }
    }

    /// The checks before renaming, given whether the new name is taken.
    pub fn check_rename_branch(&self, request: &RenameBranchRequest, branch_exists: Result<bool>) -> (r: Result<()>)
        ensures
            !branch_name_ok(request.new_name@) ==> r matches Err(GitXError::Parse(_)),
            branch_name_ok(request.new_name@) ==> match branch_exists {
                Ok(true) => is_git_error(r, "Branch '"@ + request.new_name@ + "' already exists"@),
                Ok(false) => r is Ok,
                Err(e) => r == Err::<(), GitXError>(e),
            },
    {
        match Validate::branch_name(request.new_name.as_str()) {
            Ok(()) => {},
            Err(e) => return Err(e),
        }
        match branch_exists {
            Ok(true) => {
                let mut m = owned("Branch '");
                m.append(request.new_name.as_str());
                m.append("' already exists");
                Err(GitXError::GitCommand(m))
            },
            Ok(false) => Ok(()),
            Err(e) => Err(e),
        }
    }

    /// The report of a rename of `old_name`.
    pub fn rename_branch(&self, request: RenameBranchRequest, old_name: String, backup_branch: Option<String>) -> (r: BranchRenameResult)
        ensures
            r.old_name@ == old_name@,
            r.new_name@ == request.new_name@,
            opt_view(r.backup_branch) == opt_view(backup_branch),
    {
        BranchRenameResult { old_name, new_name: request.new_name, backup_branch }
    }

    /// The confirmation details for cleaning `candidates`.
    pub fn clean_details(candidates: &Vec<String>) -> (r: String)
        ensures
            r@ == "This will delete "@ + decimal(candidates.len() as nat) + " merged branches: "@ + join(candidates.deep_view(), ", "@),
    {
        let mut m = owned("This will delete ");
        let d = decimal_of(candidates.len() as u64);
        m.append(d.as_str());
        m.append(" merged branches: ");
        let j = join_of(candidates, ", ");
        m.append(j.as_str());
        m
    }

    /// The clean-up report: the candidates (merged, not current, not
    /// protected), whether the user confirmed, and for each candidate the
    /// outcome of deleting it.
    pub fn clean_merged_branches(&self, request: CleanBranchesRequest, candidates: Vec<String>, confirmed: bool, outcomes: Vec<bool>) -> (r: CleanBranchesResult)
        requires
            outcomes.len() == candidates.len(),
        ensures
            r.candidates.deep_view() == candidates.deep_view(),
            candidates.len() == 0 ==> r.deleted.len() == 0 && r.failed.len() == 0 && r.dry_run == request.dry_run,
            candidates.len() > 0 && request.dry_run ==> r.deleted.deep_view() == candidates.deep_view() && r.failed.len() == 0 && r.dry_run,
            candidates.len() > 0 && !request.dry_run && request.confirm_deletion && !confirmed ==> r.deleted.len() == 0 && r.failed.len() == 0 && !r.dry_run,
            candidates.len() > 0 && !request.dry_run && (!request.confirm_deletion || confirmed) ==> ({
                let (d, f, p) = split_deletions(candidates.deep_view(), outcomes@, false);
                r.deleted.deep_view() == d && r.failed.deep_view() == f && !r.dry_run
            }),
    {
        if candidates.len() == 0 {
            return CleanBranchesResult { candidates, deleted: Vec::new(), failed: Vec::new(), dry_run: request.dry_run };
        }
        if request.dry_run {
            let deleted = copy_strings(&candidates);
            return CleanBranchesResult { candidates, deleted, failed: Vec::new(), dry_run: true };
        }
        if request.confirm_deletion && !confirmed {
            return CleanBranchesResult { candidates, deleted: Vec::new(), failed: Vec::new(), dry_run: false };
        }
        let req = DeleteBranchesRequest { branches: copy_strings(&candidates), force: false, dry_run: false };
        let res = self.delete_branches(req, outcomes);
        CleanBranchesResult { candidates, deleted: res.deleted, failed: res.failed, dry_run: false }
    }
}

/// The recent branches kept: without the current one and the protected
/// ones when those are excluded.
pub open spec fn recent_kept(v: Seq<Seq<char>>, current: Seq<char>, exclude_current: bool, exclude_protected: bool) -> Seq<Seq<char>>
    decreases v.len(),
{
    if v.len() == 0 {
        Seq::empty()
    } else {
        let rest = recent_kept(v.drop_last(), current, exclude_current, exclude_protected);
        let b = v.last();
        if (exclude_current && b == current) || (exclude_protected && is_protected(b)) {
            rest
        } else {
            rest.push(b)
        }
    }
}

impl CleanBranchesResult {
    pub fn summary(&self) -> (r: String)
        ensures
            r@ == if self.dry_run {
                "Would delete "@ + decimal(self.candidates.len() as nat) + " branches"@
            } else {
                "Deleted "@ + decimal(self.deleted.len() as nat) + " branches, "@ + decimal(self.failed.len() as nat) + " failed"@
            },
    {
        if self.dry_run {
            let mut s = owned("Would delete ");
            let d = decimal_of(self.candidates.len() as u64);
            s.append(d.as_str());
            s.append(" branches");
            s
        } else {
            let mut s = owned("Deleted ");
            let d = decimal_of(self.deleted.len() as u64);
            s.append(d.as_str());
            s.append(" branches, ");
            let f = decimal_of(self.failed.len() as u64);
            s.append(f.as_str());
            s.append(" failed");
            s
        }
    }
}

/// Cleaning spares the current and the protected branches and nothing
/// else: a merged branch is deleted exactly when it is neither.
pub proof fn law_clean_spares_current_and_protected(merged: Seq<Seq<char>>, current: Seq<char>)
    ensures
        forall|b: Seq<char>|
            #[trigger] deletable(merged, current).contains(b) <==> (merged.contains(b) && b != current
                && !is_protected(b)),
    decreases merged.len(),
{
    if merged.len() > 0 {
        let p = merged.drop_last();
        let x = merged.last();
        assert(merged =~= p.push(x));
        law_clean_spares_current_and_protected(p, current);
        assert forall|b: Seq<char>|
            #[trigger] deletable(merged, current).contains(b) <==> (merged.contains(b) && b != current
                && !is_protected(b)) by {
            lemma_push_contains(p, x, b);
            lemma_push_contains(deletable(p, current), x, b);
        }
    }
}

/// `occurrences` over a sequence with one more element.
proof fn lemma_occurrences_push(s: Seq<Seq<char>>, x: Seq<char>, b: Seq<char>)
    ensures
        occurrences(s.push(x), b) == occurrences(s, b) + if x == b {
            1nat
        } else {
            0nat
        },
{
    assert(s.push(x).drop_last() =~= s);
}

/// Cleaning deletes each merged branch that is neither current nor
/// protected, as often as it is listed, and no other branch.
pub proof fn law_clean_deletes_each_once(merged: Seq<Seq<char>>, current: Seq<char>)
    ensures
        forall|b: Seq<char>|
            #[trigger] occurrences(deletable(merged, current), b) == if b != current && !is_protected(b) {
                occurrences(merged, b)
            } else {
                0
            },
    decreases merged.len(),
{
    if merged.len() > 0 {
        let p = merged.drop_last();
        let x = merged.last();
        assert(merged =~= p.push(x));
        law_clean_deletes_each_once(p, current);
        assert forall|b: Seq<char>|
            #[trigger] occurrences(deletable(merged, current), b) == if b != current && !is_protected(b) {
                occurrences(merged, b)
            } else {
                0
            } by {
            lemma_occurrences_push(p, x, b);
            lemma_occurrences_push(deletable(p, current), x, b);
        }
    }
}

/// Deleting branches: every requested branch lands in exactly one of the
/// deleted, failed and protected lists, as often as it was requested;
/// protected branches are only ever listed as protected; in a dry run
/// nothing fails; otherwise a branch is deleted or failed as its outcome
/// says.
pub proof fn law_delete_branches_partition(v: Seq<Seq<char>>, ok: Seq<bool>, dry_run: bool)
    requires
        ok.len() == v.len(),
    ensures
        ({
            let (d, f, p) = split_deletions(v, ok, dry_run);
            &&& forall|b: Seq<char>|
                #[trigger] occurrences(v, b) == occurrences(d, b) + occurrences(f, b) + occurrences(p, b)
            &&& forall|b: Seq<char>|
                #[trigger] occurrences(p, b) == if is_protected(b) {
                    occurrences(v, b)
                } else {
                    0
                }
            &&& dry_run ==> f.len() == 0
            &&& d.len() + f.len() + p.len() == v.len()
        }),
    decreases v.len(),
{
    if v.len() > 0 {
        let q = v.drop_last();
        let x = v.last();
        assert(ok.take(v.len() - 1).len() == q.len());
        law_delete_branches_partition(q, ok.take(v.len() - 1), dry_run);
        let (d0, f0, p0) = split_deletions(q, ok.take(v.len() - 1), dry_run);
        assert(v =~= q.push(x));
        assert forall|b: Seq<char>|
            #[trigger] occurrences(v, b) == occurrences(split_deletions(v, ok, dry_run).0, b) + occurrences(
                split_deletions(v, ok, dry_run).1,
                b,
            ) + occurrences(split_deletions(v, ok, dry_run).2, b) by {
            lemma_occurrences_push(q, x, b);
            lemma_occurrences_push(d0, x, b);
            lemma_occurrences_push(f0, x, b);
            lemma_occurrences_push(p0, x, b);
        }
        assert forall|b: Seq<char>|
            #[trigger] occurrences(split_deletions(v, ok, dry_run).2, b) == if is_protected(b) {
                occurrences(v, b)
            } else {
                0
            } by {
            lemma_occurrences_push(q, x, b);
            lemma_occurrences_push(p0, x, b);
        }
    }
}

/// Switching to a recent branch without a choice takes the most recent one
/// that is not the current branch: the first kept branch is the first
/// listed branch other than the current one, and the current branch is
/// never kept.
pub proof fn law_recent_first_other_than_current(v: Seq<Seq<char>>, current: Seq<char>)
    ensures
        !recent_kept(v, current, true, false).contains(current),
        recent_kept(v, current, true, false).len() > 0 ==> exists|i: int|
            0 <= i < v.len() && v[i] != current && recent_kept(v, current, true, false)[0] == v[i] && forall|j: int|
                0 <= j < i ==> #[trigger] v[j] == current,
    decreases v.len(),
{
    if v.len() > 0 {
        let q = v.drop_last();
        let x = v.last();
        law_recent_first_other_than_current(q, current);
        let k = recent_kept(v, current, true, false);
        let k0 = recent_kept(q, current, true, false);
        lemma_push_contains(k0, x, current);
        if k.len() > 0 {
            if k0.len() > 0 {
                let i = choose|i: int|
                    0 <= i < q.len() && q[i] != current && k0[0] == q[i] && forall|j: int|
                        0 <= j < i ==> #[trigger] q[j] == current;
                assert(v[i] == q[i]);
                assert forall|j: int| 0 <= j < i implies #[trigger] v[j] == current by {
                    assert(v[j] == q[j]);
                }
            } else {
                assert(x != current);
                assert(k =~= seq![x]);
                assert forall|j: int| 0 <= j < v.len() - 1 implies #[trigger] v[j] == current by {
                    if v[j] != current {
                        lemma_recent_kept_keeps(q, current, j);
                    }
                }
            }
        }
    }
}

/// A listed branch other than the current one is kept.
proof fn lemma_recent_kept_keeps(v: Seq<Seq<char>>, current: Seq<char>, j: int)
    requires
        0 <= j < v.len(),
        v[j] != current,
    ensures
        recent_kept(v, current, true, false).len() > 0,
    decreases v.len(),
{
    if j < v.len() - 1 {
        lemma_recent_kept_keeps(v.drop_last(), current, j);
    }
}

} // verus!
