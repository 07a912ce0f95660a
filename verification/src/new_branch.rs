//! `git x new <branch> [--from <base>]`: creating a branch and switching to
//! it. The checks are made first (`run`), then git creates and switches
//! (`finish`).
use vstd::prelude::*;
use crate::base::git::ProcessOutput;
use crate::base::text::{owned, trim, trim_str};
use crate::base::validation::{Validate, branch_name_error, branch_name_ok};
use crate::{GitXError, Result, is_git_error, is_parse_error, shows};

verus! {

/// The base the new branch is created from, checked from git's answers:
/// the name must be valid and new; the base given must be a branch or a
/// ref; without one the current branch is the base.
pub fn run(
    branch_name: &str,
    from: Option<&str>,
    exists: bool,
    from_is_branch: bool,
    from_is_ref: bool,
    current: Result<String>,
) -> (r: Result<String>)
    ensures
        !branch_name_ok(branch_name@) ==> is_parse_error(r, branch_name_error(branch_name@)),
        branch_name_ok(branch_name@) && exists ==> is_git_error(r, "Branch '"@ + branch_name@ + "' already exists"@),
        branch_name_ok(branch_name@) && !exists ==> match from {
            Some(f) => if !from_is_branch && !from_is_ref {
                is_git_error(r, "Base branch or ref '"@ + f@ + "' does not exist"@)
            } else {
                r matches Ok(b) && b@ == f@
            },
            None => match current {
                Ok(c) => r matches Ok(b) && b@ == c@,
                Err(e) => r matches Err(GitXError::GitCommand(m)) && exists|t: Seq<char>|
                    shows(e, t) && m@ == "Failed to get current branch: "@ + t,
            },
        },
{
    Validate::branch_name(branch_name)?;
    if exists {
        let mut m = owned("Branch '");
        m.append(branch_name);
        m.append("' already exists");
        return Err(GitXError::GitCommand(m));
    }
    match from {
        Some(f) => {
            if !from_is_branch && !from_is_ref {
                let mut m = owned("Base branch or ref '");
                m.append(f);
                m.append("' does not exist");
                return Err(GitXError::GitCommand(m));
            }
            Ok(owned(f))
        },
        None => match current {
            Ok(c) => Ok(c),
            Err(e) => {
                let t = e.to_string();
                let mut m = owned("Failed to get current branch: ");
                m.append(t.as_str());
                Err(GitXError::GitCommand(m))
            },
        },
    }
}

/// The arguments that create `branch_name` at `base`.
pub fn create_args(branch_name: &str, base: &str) -> (r: Vec<String>)
    ensures
        r.deep_view() == seq!["branch"@, branch_name@, base@],
{
    let mut r: Vec<String> = Vec::new();
    r.push(owned("branch"));
    r.push(owned(branch_name));
    r.push(owned(base));
    assert(r.deep_view() =~= seq!["branch"@, branch_name@, base@]);
    r
}

/// The arguments that switch to `branch_name`.
pub fn switch_args(branch_name: &str) -> (r: Vec<String>)
    ensures
        r.deep_view() == seq!["switch"@, branch_name@],
{
    let mut r: Vec<String> = Vec::new();
    r.push(owned("switch"));
    r.push(owned(branch_name));
    assert(r.deep_view() =~= seq!["switch"@, branch_name@]);
    r
}

/// The outcome of creating the branch (first) and switching to it (run
/// only after it was created): the branch name twice, or what failed with
/// git's trimmed error.
pub fn finish(branch_name: &str, created: ProcessOutput, switched: ProcessOutput) -> (r: Result<String>)
    ensures
        !created.success ==> is_git_error(r, "Failed to create branch: "@ + trim(created.stderr@)),
        created.success && !switched.success ==> is_git_error(
            r,
            "Failed to switch to new branch: "@ + trim(switched.stderr@),
        ),
        created.success && switched.success ==> (r matches Ok(t) && t@ == branch_name@ + "\n"@ + branch_name@),
{
    if !created.success {
        let mut m = owned("Failed to create branch: ");
        let t = trim_str(created.stderr.as_str());
        m.append(t.as_str());
        return Err(GitXError::GitCommand(m));
    }
    if !switched.success {
        let mut m = owned("Failed to switch to new branch: ");
        let t = trim_str(switched.stderr.as_str());
        m.append(t.as_str());
        return Err(GitXError::GitCommand(m));
    }
    let mut r = owned(branch_name);
    r.append("\n");
    r.append(branch_name);
    Ok(r)
}

} // verus!
