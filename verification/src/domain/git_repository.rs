//! The repository as the domain layer sees it: its state and its health.
use vstd::prelude::*;
use crate::base::text::{decimal, decimal_of, file_name, file_name_of, join, join_of, owned};
use crate::{GitXError, Result, is_git_error};

verus! {

/// The name shown for a repository rooted at `root`.
pub open spec fn repo_name(root: Seq<char>) -> Seq<char> {
    match file_name(root) {
        Some(n) => n,
        None => "Unknown"@,
    }
}

/// The repository's name from its root path ("Unknown" without one).
pub fn repo_name_of(root: &str) -> (r: String)
    ensures
        r@ == repo_name(root@),
{
    match file_name_of(root) {
        Some(n) => n,
        None => owned("Unknown"),
    }
}

pub struct GitRepository {
    root_path: String,
}

impl GitRepository {
    pub closed spec fn root_view(&self) -> Seq<char> {
        self.root_path@
    }

    /// Open the repository whose root git reported.
    pub fn open(root: Result<String>) -> (r: Result<Self>)
        ensures
            root matches Ok(p) ==> (r matches Ok(g) && g.root_view() == p@),
            root matches Err(e) ==> r == Err::<GitRepository, GitXError>(e),
    {
        match root {
            Ok(root_path) => Ok(Self { root_path }),
            Err(e) => Err(e),
        }
    }

    /// Repository information from git's answers for the branch
    /// information, the working directory status and the staged files.
    pub fn info(
        &self,
        branch_info: Result<(String, Option<String>, u32, u32)>,
        is_clean: Result<bool>,
        staged_files: Result<Vec<String>>,
    ) -> (r: Result<RepositoryInfo>)
        ensures
            branch_info matches Err(e) ==> r == Err::<RepositoryInfo, GitXError>(e),
            branch_info is Ok ==> (is_clean matches Err(e) ==> r == Err::<RepositoryInfo, GitXError>(e)),
            branch_info is Ok && is_clean is Ok ==> (staged_files matches Err(e) ==> r == Err::<
                RepositoryInfo,
                GitXError,
            >(e)),
            branch_info matches Ok(b) ==> (is_clean matches Ok(c) ==> (staged_files matches Ok(s) ==> (
                r matches Ok(info) && info.name@ == repo_name(self.root_view()) && info.root_path@
                    == self.root_view() && info.current_branch == b.0 && info.upstream_branch == b.1
                    && info.ahead_count == b.2 && info.behind_count == b.3 && info.is_clean == c
                    && info.staged_files_count == s.len()))),
    {
        let name = repo_name_of(self.root_path.as_str());
        let (current_branch, upstream, ahead, behind) = match branch_info {
            Ok(b) => b,
            Err(e) => return Err(e),
        };
        let clean = match is_clean {
            Ok(c) => c,
            Err(e) => return Err(e),
        };
        let staged = match staged_files {
            Ok(s) => s,
            Err(e) => return Err(e),
        };
        Ok(RepositoryInfo {
            name,
            root_path: owned(self.root_path.as_str()),
            current_branch,
            upstream_branch: upstream,
            ahead_count: ahead,
            behind_count: behind,
            is_clean: clean,
            staged_files_count: staged.len(),
        })
    }

    /// Repository health from git's answers: whether `user.name` and
    /// `user.email` are set, the remotes and the local branches.
    pub fn health(
        &self,
        has_user_name: bool,
        has_user_email: bool,
        remotes: Result<Vec<String>>,
        branches: Result<Vec<String>>,
    ) -> (r: Result<HealthStatus>)
        ensures
            r matches Ok(h) && h.issues.deep_view() == health_issues(
                has_user_name,
                has_user_email,
                remotes is Err,
                branches is Err,
            ) && h.warnings.deep_view() == health_warnings(
                match remotes {
                    Ok(v) => Some(v.len() as nat),
                    Err(_) => None,
                },
                match branches {
                    Ok(v) => Some(v.len() as nat),
                    Err(_) => None,
                },
            ) && h.level == health_level(h.issues.len() as nat, h.warnings.len() as nat),
    {
        let mut issues: Vec<String> = Vec::new();
        let mut warnings: Vec<String> = Vec::new();
        let ghost iv0 = issues.deep_view();
        if !has_user_name {
            issues.push(owned("Git user.name not configured"));
        }
        if !has_user_email {
            issues.push(owned("Git user.email not configured"));
        }
        match &remotes {
            Ok(v) => {
                if v.len() == 0 {
                    warnings.push(owned("No remotes configured"));
                }
            },
            Err(_) => {
                issues.push(owned("Could not check remotes"));
            },
        }
        match &branches {
            Ok(v) => {
                if v.len() > 20 {
                    let mut w = owned("Many local branches (");
                    let d = decimal_of(v.len() as u64);
                    w.append(d.as_str());
                    w.append(") - consider cleaning up");
                    warnings.push(w);
                }
            },
            Err(_) => {
                issues.push(owned("Could not check branches"));
            },
        }
        let level = if issues.len() == 0 && warnings.len() == 0 {
            HealthLevel::Healthy
        } else if issues.len() == 0 {
            HealthLevel::Warning
        } else {
            HealthLevel::Unhealthy
        };
        let h = HealthStatus { level, issues, warnings };
        proof {
            assert(h.issues.deep_view() =~= health_issues(
                has_user_name,
                has_user_email,
                remotes is Err,
                branches is Err,
            ));
            assert(h.warnings.deep_view() =~= health_warnings(
                match remotes {
                    Ok(v) => Some(v.len() as nat),
                    Err(_) => None,
                },
                match branches {
                    Ok(v) => Some(v.len() as nat),
                    Err(_) => None,
                },
            ));
        }
        Ok(h)
    }

    /// The check before an operation, from git's answers: whether we are in
    /// a repository, whether the working directory is clean and the staged
    /// files. "destructive" needs a clean directory, "commit" staged changes.
    pub fn validate_for_operation(
        &self,
        operation: &str,
        in_repo: Result<()>,
        is_clean: Result<bool>,
        staged_files: Result<Vec<String>>,
    ) -> (r: Result<()>)
        ensures
            in_repo matches Err(e) ==> r == Err::<(), GitXError>(e),
            in_repo is Ok && operation@ == "destructive"@ ==> match is_clean {
                Ok(true) => r is Ok,
                Ok(false) => is_git_error(r, "Working directory must be clean for destructive operations"@),
                Err(e) => r == Err::<(), GitXError>(e),
            },
            in_repo is Ok && operation@ == "commit"@ ==> match staged_files {
                Ok(s) => if s.len() == 0 { is_git_error(r, "No staged changes found"@) } else { r is Ok },
                Err(e) => r == Err::<(), GitXError>(e),
            },
            in_repo is Ok && operation@ != "destructive"@ && operation@ != "commit"@ ==> r is Ok,
    {
        proof {
            reveal_strlit("destructive");
            reveal_strlit("commit");
            assert("destructive"@.len() != "commit"@.len());
        }
        match in_repo {
            Ok(()) => {},
            Err(e) => return Err(e),
        }
        if crate::base::text::str_eq(operation, "destructive") {
            match is_clean {
                Ok(true) => {},
                Ok(false) => return Err(GitXError::GitCommand(owned(
                    "Working directory must be clean for destructive operations",
                ))),
                Err(e) => return Err(e),
            }
        } else if crate::base::text::str_eq(operation, "commit") {
            match staged_files {
                Ok(s) => {
                    if s.len() == 0 {
                        return Err(GitXError::GitCommand(owned("No staged changes found")));
                    }
                },
                Err(e) => return Err(e),
            }
        }
        Ok(())
    }

    pub fn root_path(&self) -> (r: &str)
        ensures
            r@ == self.root_view(),
    {
        self.root_path.as_str()
    }
}

/// The issues a health check reports.
pub open spec fn health_issues(no_name: bool, no_email: bool, remotes_failed: bool, branches_failed: bool) -> Seq<Seq<char>>
    recommends
        true,
{
    (if !no_name { seq!["Git user.name not configured"@] } else { Seq::empty() })
        + (if !no_email { seq!["Git user.email not configured"@] } else { Seq::empty() })
        + (if remotes_failed { seq!["Could not check remotes"@] } else { Seq::empty() })
        + (if branches_failed { seq!["Could not check branches"@] } else { Seq::empty() })
}

/// The warnings a health check reports, from the number of remotes and of
/// local branches (`None` when they could not be listed).
pub open spec fn health_warnings(remotes: Option<nat>, branches: Option<nat>) -> Seq<Seq<char>> {
    (if remotes == Some(0nat) { seq!["No remotes configured"@] } else { Seq::empty() }) + (match branches {
        Some(n) => if n > 20 {
            seq!["Many local branches ("@ + decimal(n) + ") - consider cleaning up"@]
        } else {
            Seq::empty()
        },
        None => Seq::empty(),
    })
}

/// The health level for the numbers of issues and warnings.
pub open spec fn health_level(issues: nat, warnings: nat) -> HealthLevel {
    if issues == 0 && warnings == 0 {
        HealthLevel::Healthy
    } else if issues == 0 {
        HealthLevel::Warning
    } else {
        HealthLevel::Unhealthy
    }
}

pub struct RepositoryInfo {
    pub name: String,
    pub root_path: String,
    pub current_branch: String,
    pub upstream_branch: Option<String>,
    pub ahead_count: u32,
    pub behind_count: u32,
    pub is_clean: bool,
    pub staged_files_count: usize,
}

/// How a repository stands against its upstream and working directory.
pub open spec fn status_parts(info: RepositoryInfo) -> Seq<Seq<char>> {
    (match info.upstream_branch {
        Some(u) => if info.ahead_count == 0 && info.behind_count == 0 {
            seq!["up to date with "@ + u@]
        } else {
            (if info.ahead_count > 0 { seq![decimal(info.ahead_count as nat) + " ahead"@] } else { Seq::empty() })
                + (if info.behind_count > 0 { seq![decimal(info.behind_count as nat) + " behind"@] } else { Seq::empty() })
        },
        None => seq!["no upstream configured"@],
    }) + (if !info.is_clean || info.staged_files_count > 0 {
        seq!["has local changes"@]
    } else {
        seq!["clean"@]
    })
}

impl RepositoryInfo {
    pub fn is_in_sync(&self) -> (r: bool)
        ensures
            r == (self.ahead_count == 0 && self.behind_count == 0),
    {
        self.ahead_count == 0 && self.behind_count == 0
    }

    pub fn has_local_changes(&self) -> (r: bool)
        ensures
            r == (!self.is_clean || self.staged_files_count > 0),
    {
        !self.is_clean || self.staged_files_count > 0
    }

    pub fn status_description(&self) -> (r: String)
        ensures
            r@ == join(status_parts(*self), ", "@),
    {
        let mut parts: Vec<String> = Vec::new();
        match &self.upstream_branch {
            Some(upstream) => {
                if self.is_in_sync() {
                    let mut s = owned("up to date with ");
                    s.append(upstream.as_str());
                    parts.push(s);
                } else {
                    if self.ahead_count > 0 {
                        let mut s = decimal_of(self.ahead_count as u64);
                        s.append(" ahead");
                        parts.push(s);
                    }
                    if self.behind_count > 0 {
                        let mut s = decimal_of(self.behind_count as u64);
                        s.append(" behind");
                        parts.push(s);
                    }
                }
            },
            None => {
                parts.push(owned("no upstream configured"));
            },
        }
        if self.has_local_changes() {
            parts.push(owned("has local changes"));
        } else {
            parts.push(owned("clean"));
        }
        assert(parts.deep_view() =~= status_parts(*self));
        join_of(&parts, ", ")
    }
}

pub struct HealthStatus {
    pub level: HealthLevel,
    pub issues: Vec<String>,
    pub warnings: Vec<String>,
}

impl HealthStatus {
    pub fn is_healthy(&self) -> (r: bool)
        ensures
            r == (self.level == HealthLevel::Healthy),
    {
        match self.level {
            HealthLevel::Healthy => true,
            _ => false,
        }
    }

    pub fn summary(&self) -> (r: String)
        ensures
            r@ == match self.level {
                HealthLevel::Healthy => "Repository is healthy"@,
                HealthLevel::Warning => "Repository has "@ + decimal(self.warnings.len() as nat) + " warning(s)"@,
                HealthLevel::Unhealthy => "Repository has "@ + decimal(self.issues.len() as nat) + " issue(s)"@,
            },
    {
        match self.level {
            HealthLevel::Healthy => owned("Repository is healthy"),
            HealthLevel::Warning => {
                let mut s = owned("Repository has ");
                let d = decimal_of(self.warnings.len() as u64);
                s.append(d.as_str());
                s.append(" warning(s)");
                s
            },
            HealthLevel::Unhealthy => {
                let mut s = owned("Repository has ");
                let d = decimal_of(self.issues.len() as u64);
                s.append(d.as_str());
                s.append(" issue(s)");
                s
            },
        }
    }

    pub fn all_problems(&self) -> (r: Vec<String>)
        ensures
            r.deep_view() == self.issues.deep_view() + self.warnings.deep_view(),
    {
        let mut problems: Vec<String> = Vec::new();
        for i in 0..self.issues.len()
            invariant
                problems.deep_view() == self.issues.deep_view().take(i as int),
        {
            let ghost before = problems.deep_view();
            problems.push(owned(self.issues[i].as_str()));
            assert(self.issues.deep_view()[i as int] == self.issues@[i as int]@);
            assert(problems.deep_view() =~= before.push(self.issues@[i as int]@));
            assert(self.issues.deep_view().take(i + 1) =~= self.issues.deep_view().take(i as int).push(self.issues@[i as int]@));
        }
        let ghost mid = problems.deep_view();
        assert(mid =~= self.issues.deep_view());
        for i in 0..self.warnings.len()
            invariant
                mid == self.issues.deep_view(),
                problems.deep_view() == mid + self.warnings.deep_view().take(i as int),
        {
            let ghost before = problems.deep_view();
            problems.push(owned(self.warnings[i].as_str()));
            assert(self.warnings.deep_view()[i as int] == self.warnings@[i as int]@);
            assert(problems.deep_view() =~= before.push(self.warnings@[i as int]@));
            assert(self.warnings.deep_view().take(i + 1) =~= self.warnings.deep_view().take(i as int).push(self.warnings@[i as int]@));
            assert(problems.deep_view() =~= mid + self.warnings.deep_view().take(i + 1));
        }
        assert(self.warnings.deep_view().take(self.warnings.len() as int) =~= self.warnings.deep_view());
        problems
    }
}

#[derive(PartialEq, Eq, Structural)]
pub enum HealthLevel {
    Healthy,
    Warning,
    Unhealthy,
}

} // verus!
