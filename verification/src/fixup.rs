//! `git x fixup <commit> [--rebase]`: a fixup commit of the staged changes
//! for a given commit, optionally squashed in right away. The checks come
//! first (`check_fixup`); git commits (and rebases); `finish_fixup` says
//! what is printed.
use vstd::prelude::*;
use crate::base::git::ProcessOutput;
use crate::base::text::{owned, trim, trim_str};
use crate::base::validation::{Validate, commit_hash_error, commit_hash_ok};
use crate::{GitXError, Result, is_git_error, is_parse_error};

verus! {

/// The arguments that check that `commit_hash` names a commit.
pub fn verify_args(commit_hash: &str) -> (r: Vec<String>)
    ensures
        r.deep_view() == seq!["rev-parse"@, "--verify"@, commit_hash@ + "^{commit}"@],
{
    let mut spec = owned(commit_hash);
    spec.append("^{commit}");
    let mut r: Vec<String> = Vec::new();
    r.push(owned("rev-parse"));
    r.push(owned("--verify"));
    r.push(spec);
    assert(r.deep_view() =~= seq!["rev-parse"@, "--verify"@, commit_hash@ + "^{commit}"@]);
    r
}

/// The checks before the fixup commit, from git's answers in order: the
/// hash's format, `rev-parse --verify <hash>^{commit}`, whether `git diff
/// --cached --quiet` and `git diff --quiet` found nothing (the latter asked
/// only when nothing is staged), and `rev-parse --short <hash>`. The short
/// hash is returned; a failure is reported as git-x reports an error.
pub fn check_fixup(
    commit_hash: &str,
    verified: ProcessOutput,
    nothing_staged: bool,
    worktree_clean: bool,
    short: ProcessOutput,
) -> (r: Result<String>)
    ensures
        !commit_hash_ok(commit_hash@) ==> is_parse_error(r, commit_hash_error(commit_hash@)),
        commit_hash_ok(commit_hash@) ==> if !verified.success {
            is_git_error(r, "Git command failed: Commit hash does not exist"@)
        } else if nothing_staged && !worktree_clean {
            is_git_error(r, "Git command failed: You have unstaged changes. Please stage them first with 'git add'"@)
        } else if nothing_staged {
            is_git_error(r, "No staged changes found. Please stage your changes first with 'git add'"@)
        } else if !short.success {
            is_git_error(r, "Git command failed: Failed to resolve commit hash"@)
        } else {
            r matches Ok(s) && s@ == trim(short.stdout@)
        },
{
    Validate::commit_hash(commit_hash)?;
    if !verified.success {
        return Err(GitXError::GitCommand(owned("Git command failed: Commit hash does not exist")));
    }
    if nothing_staged {
        if !worktree_clean {
            return Err(
                GitXError::GitCommand(
                    owned("Git command failed: You have unstaged changes. Please stage them first with 'git add'"),
                ),
            );
        }
        return Err(GitXError::GitCommand(owned("No staged changes found. Please stage your changes first with 'git add'")));
    }
    if !short.success {
        return Err(GitXError::GitCommand(owned("Git command failed: Failed to resolve commit hash")));
    }
    Ok(trim_str(short.stdout.as_str()))
}

/// The arguments of the fixup commit.
pub fn fixup_args(commit_hash: &str) -> (r: Vec<String>)
    ensures
        r.deep_view() == seq!["commit"@, "--fixup="@ + commit_hash@],
{
    let mut f = owned("--fixup=");
    f.append(commit_hash);
    let mut r: Vec<String> = Vec::new();
    r.push(owned("commit"));
    r.push(f);
    assert(r.deep_view() =~= seq!["commit"@, "--fixup="@ + commit_hash@]);
    r
}

/// The arguments that find the commit's parent.
pub fn parent_args(commit_hash: &str) -> (r: Vec<String>)
    ensures
        r.deep_view() == seq!["rev-parse"@, commit_hash@ + "^"@],
{
    let mut p = owned(commit_hash);
    p.append("^");
    let mut r: Vec<String> = Vec::new();
    r.push(owned("rev-parse"));
    r.push(p);
    assert(r.deep_view() =~= seq!["rev-parse"@, commit_hash@ + "^"@]);
    r
}

/// The arguments of the autosquash rebase onto `parent`, from what
/// `parent_args` printed.
pub fn rebase_args(parent_output: &str) -> (r: Vec<String>)
    ensures
        r.deep_view() == seq!["rebase"@, "-i"@, "--autosquash"@, trim(parent_output@)],
{
    let parent = trim_str(parent_output);
    let mut r: Vec<String> = Vec::new();
    r.push(owned("rebase"));
    r.push(owned("-i"));
    r.push(owned("--autosquash"));
    r.push(parent);
    assert(r.deep_view() =~= seq!["rebase"@, "-i"@, "--autosquash"@, trim(parent_output@)]);
    r
}

/// What the rebase step printed (standard output, standard error): a
/// missing parent or a failed rebase is reported on standard error with
/// the commit and is no failure of the command.
pub open spec fn rebase_report(commit_hash: Seq<char>, parent_found: bool, rebased: bool) -> (Seq<Seq<char>>, Seq<Seq<char>>) {
    if !parent_found {
        (
            seq!["🔄 Starting interactive rebase with autosquash..."@],
            seq!["Git command failed: Cannot rebase - commit has no parent"@, commit_hash],
        )
    } else if !rebased {
        (
            seq!["🔄 Starting interactive rebase with autosquash..."@],
            seq!["Git command failed: Interactive rebase failed"@, commit_hash],
        )
    } else {
        (
            seq!["🔄 Starting interactive rebase with autosquash..."@, "✅ Interactive rebase completed successfully"@],
            Seq::empty(),
        )
    }
}

/// What is printed once the checks passed (standard output, standard
/// error): the short hash, and after the fixup commit the short hash again,
/// then the rebase's lines or the commit hash. A failed fixup commit fails
/// the command after the first line.
pub fn finish_fixup(
    commit_hash: &str,
    short: &str,
    committed: bool,
    rebase: bool,
    parent_found: bool,
    rebased: bool,
) -> (r: (Vec<String>, Vec<String>, Result<()>))
    ensures
        !committed ==> r.0.deep_view() == seq![short@] && r.1.deep_view() == Seq::<Seq<char>>::empty() && is_git_error(
            r.2,
            "Git command failed: Failed to create fixup commit"@,
        ),
        committed && !rebase ==> r.0.deep_view() == seq![short@, short@, commit_hash@] && r.1.deep_view() == Seq::<
            Seq<char>,
        >::empty() && r.2 is Ok,
        committed && rebase ==> r.0.deep_view() == seq![short@, short@] + rebase_report(
            commit_hash@,
            parent_found,
            rebased,
        ).0 && r.1.deep_view() == rebase_report(commit_hash@, parent_found, rebased).1 && r.2 is Ok,
{
    let mut out: Vec<String> = Vec::new();
    let mut err: Vec<String> = Vec::new();
    out.push(owned(short));
    if !committed {
        assert(out.deep_view() =~= seq![short@]);
        assert(err.deep_view() =~= Seq::<Seq<char>>::empty());
        return (out, err, Err(GitXError::GitCommand(owned("Git command failed: Failed to create fixup commit"))));
    }
    out.push(owned(short));
    if !rebase {
        out.push(owned(commit_hash));
        assert(out.deep_view() =~= seq![short@, short@, commit_hash@]);
        assert(err.deep_view() =~= Seq::<Seq<char>>::empty());
        return (out, err, Ok(()));
    }
    out.push(owned("🔄 Starting interactive rebase with autosquash..."));
    if !parent_found {
        err.push(owned("Git command failed: Cannot rebase - commit has no parent"));
        err.push(owned(commit_hash));
    } else if !rebased {
        err.push(owned("Git command failed: Interactive rebase failed"));
        err.push(owned(commit_hash));
    } else {
        out.push(owned("✅ Interactive rebase completed successfully"));
    }
    let ghost rep = rebase_report(commit_hash@, parent_found, rebased);
    assert(out.deep_view() =~= seq![short@, short@] + rep.0);
    assert(err.deep_view() =~= rep.1);
    (out, err, Ok(()))
}

} // verus!
