//! Repository facts read from git: the repository's name and the current
//! branch's tracking status.
use vstd::prelude::*;
use crate::base::git::{GitOperations, ProcessOutput};
use crate::base::text::{file_name, file_name_of, owned, trim};
use crate::{GitXError, Result, is_git_error};

verus! {

/// Reading what git printed for the common questions.
pub struct GitCommand;

impl GitCommand {
    /// Whether a commit exists, from git's answer to
    /// `GitOperations::commit_exists_args`: a git failure means it does not,
    /// another failure is passed on.
    pub fn commit_exists(answer: Result<String>) -> (r: Result<bool>)
        ensures
            answer is Ok ==> r == Ok::<bool, GitXError>(true),
            answer matches Err(e) ==> if e is GitCommand {
                r == Ok::<bool, GitXError>(false)
            } else {
                r == Err::<bool, GitXError>(e)
            },
    {
        GitOperations::commit_exists(answer)
    }

    /// Ahead/behind counts read from `git rev-list --left-right --count`
    /// (a missing or unreadable count is 0).
    pub fn ahead_behind_counts(output: &str) -> (r: (u32, u32))
        ensures
            (r.0 as nat, r.1 as nat) == crate::base::git::two_counts(output@),
    {
        GitOperations::ahead_behind_counts(output)
    }

    /// Branch information from the answers for the current branch, its
    /// upstream and the ahead/behind counts (unreadable counts are `(0, 0)`).
    pub fn branch_info_optimized(
        current: Result<String>,
        upstream: Result<String>,
        counts: Result<(u32, u32)>,
    ) -> (r: Result<(String, Option<String>, u32, u32)>)
        ensures
            current matches Err(e) ==> r == Err::<(String, Option<String>, u32, u32), GitXError>(e),
            current matches Ok(c) ==> (r matches Ok(t) && t.0 == c && match upstream {
                Ok(u) => t.1 == Some(u) && match counts {
                    Ok(ab) => t.2 == ab.0 && t.3 == ab.1,
                    Err(_) => t.2 == 0 && t.3 == 0,
                },
                Err(_) => t.1 is None && t.2 == 0 && t.3 == 0,
            }),
    {
        GitOperations::branch_info_optimized(current, upstream, counts)
    }

    /// The current branch name (`git rev-parse --abbrev-ref HEAD`).
    pub fn current_branch(output: ProcessOutput) -> (r: Result<String>)
        ensures
            output.success ==> (r matches Ok(s) && s@ == trim(output.stdout@)),
            !output.success ==> is_git_error(r, trim(output.stderr@)),
    {
        GitOperations::run(output)
    }

    /// The repository root (`git rev-parse --show-toplevel`).
    pub fn repo_root(output: ProcessOutput) -> (r: Result<String>)
        ensures
            output.success ==> (r matches Ok(s) && s@ == trim(output.stdout@)),
            !output.success ==> is_git_error(r, trim(output.stderr@)),
    {
        GitOperations::run(output)
    }

    /// The short hash of a commit (`git rev-parse --short <commit>`).
    pub fn short_hash(output: ProcessOutput) -> (r: Result<String>)
        ensures
            output.success ==> (r matches Ok(s) && s@ == trim(output.stdout@)),
            !output.success ==> is_git_error(r, trim(output.stderr@)),
    {
        GitOperations::run(output)
    }

    /// The upstream of the current branch
    /// (`git rev-parse --abbrev-ref --symbolic-full-name @{u}`).
    pub fn upstream_branch(output: ProcessOutput) -> (r: Result<String>)
        ensures
            output.success ==> (r matches Ok(s) && s@ == trim(output.stdout@)),
            !output.success ==> is_git_error(r, trim(output.stderr@)),
    {
        GitOperations::run(output)
    }
}

/// The name of the repository at `root`: the last component of its path,
/// empty when it has none.
pub open spec fn repo_name_of(root: Seq<char>) -> Seq<char> {
    match file_name(root) {
        Some(n) => n,
        None => Seq::empty(),
    }
}

/// Repository information utilities
pub struct RepoInfo;

impl RepoInfo {
    /// Get repository name from its root path (an error reading it is passed on).
    pub fn name(root: Result<String>) -> (r: Result<String>)
        ensures
            match root {
                Ok(p) => r matches Ok(n) && n@ == repo_name_of(p@),
                Err(e) => r == Err::<String, GitXError>(e),
            },
    {
        let p = root?;
        match file_name_of(p.as_str()) {
            Some(n) => Ok(n),
            None => Ok(String::new()),
        }
    }

    /// The current branch with its upstream and how far ahead and behind
    /// it is (an error reading them is passed on).
    pub fn branch_status(info: Result<(String, Option<String>, u32, u32)>) -> (r: Result<BranchStatus>)
        ensures
            match info {
                Ok(i) => r matches Ok(b) && b.current == i.0 && b.upstream == i.1 && b.ahead == i.2 && b.behind == i.3,
                Err(e) => r == Err::<BranchStatus, GitXError>(e),
            },
    {
        let (current, upstream, ahead, behind) = info?;
        Ok(BranchStatus { current, upstream, ahead, behind })
    }
}

/// Branch status information
#[derive(Debug)]
pub struct BranchStatus {
    pub current: String,
    pub upstream: Option<String>,
    pub ahead: u32,
    pub behind: u32,
}

impl BranchStatus {
    /// Format upstream tracking info
    pub fn format_tracking(&self) -> (r: String)
        ensures
            r@ == match self.upstream {
                Some(u) => u@,
                None => "(no upstream)"@,
            },
    {
        match &self.upstream {
            Some(u) => owned(u.as_str()),
            None => owned("(no upstream)"),
        }
    }
}

} // verus!
