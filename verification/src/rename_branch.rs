//! `git x rename-branch <new>`: renaming the current branch locally and on
//! origin. The decision comes first (`run_rename_branch`); git renames,
//! pushes and deletes the old remote branch; `finish_rename` reports.
use vstd::prelude::*;
use crate::base::git::{BranchOperations, RemoteOperations};
use crate::base::text::{owned, str_eq};
use crate::command::Command;
use crate::{GitXError, Result, shows};

verus! {

/// What renaming does next.
pub enum RenameStep {
    /// The branch already has the name: print it, nothing to do.
    AlreadyNamed(String),
    /// Print `current`; then rename it with `rename`, push the new name
    /// with `push`, delete the old name on origin with `delete_remote`, and
    /// report with `finish_rename`.
    Rename { current: String, rename: Vec<String>, push: Vec<String>, delete_remote: Vec<String> },
}

/// The current branch already has the new name.
pub fn is_branch_already_named(current_branch: &str, new_name: &str) -> (r: bool)
    ensures
        r == (current_branch@ == new_name@),
{
    str_eq(current_branch, new_name)
}

/// What renaming decides from the current branch (a failure to read it is
/// named): nothing when it already has the new name, else the rename, the
/// push of the new name to origin and the deletion of the old one there.
pub open spec fn rename_step(new_name: Seq<char>, current: Result<String>, r: Result<RenameStep>) -> bool {
    match current {
        Err(e) => r matches Err(GitXError::GitCommand(m)) && exists|t: Seq<char>|
            shows(e, t) && m@ == "Failed to get current branch: "@ + t,
        Ok(c) => if c@ == new_name {
            r matches Ok(RenameStep::AlreadyNamed(n)) && n@ == new_name
        } else {
            r matches Ok(RenameStep::Rename { current, rename, push, delete_remote }) && current@ == c@
                && rename.deep_view() == seq!["branch"@, "-m"@, new_name] && push.deep_view() == seq![
                "push"@,
                "origin"@,
                new_name,
            ] && delete_remote.deep_view() == seq!["push"@, "origin"@, "--delete"@, c@]
        },
    }
}

/// Decides what renaming does (see `rename_step`).
pub fn run_rename_branch(new_name: &str, current: Result<String>) -> (r: Result<RenameStep>)
    ensures
        rename_step(new_name@, current, r),
{
    let c = match current {
        Ok(c) => c,
        Err(e) => {
            let t = e.to_string();
            let mut m = owned("Failed to get current branch: ");
            m.append(t.as_str());
            return Err(GitXError::GitCommand(m));
        },
    };
    if is_branch_already_named(c.as_str(), new_name) {
        return Ok(RenameStep::AlreadyNamed(owned(new_name)));
    }
    let rename = BranchOperations::rename(new_name);
    let push = RemoteOperations::push(Some("origin"), Some(new_name));
    assert(push.deep_view() =~= seq!["push"@, "origin"@, new_name@]);
    assert(rename.deep_view() =~= seq!["branch"@, "-m"@, new_name@]);
    let mut delete_remote: Vec<String> = Vec::new();
    delete_remote.push(owned("push"));
    delete_remote.push(owned("origin"));
    delete_remote.push(owned("--delete"));
    delete_remote.push(owned(c.as_str()));
    assert(delete_remote.deep_view() =~= seq!["push"@, "origin"@, "--delete"@, c@]);
    Ok(RenameStep::Rename { current: c, rename, push, delete_remote })
}

/// What is printed after renaming `old` (standard output, standard error),
/// from the outcomes of the rename, the push (each failure named and fatal)
/// and the deletion of the old remote branch (a warning when it failed).
pub fn finish_rename(old: &str, renamed: Result<()>, pushed: Result<()>, deleted: bool) -> (r: Result<(Vec<String>, Vec<String>)>)
    ensures
        renamed matches Err(e) ==> (r matches Err(GitXError::GitCommand(m)) && exists|t: Seq<char>|
            shows(e, t) && m@ == "Failed to rename local branch: "@ + t),
        renamed is Ok ==> (pushed matches Err(e) ==> (r matches Err(GitXError::GitCommand(m)) && exists|t: Seq<char>|
            shows(e, t) && m@ == "Failed to push new branch: "@ + t)),
        renamed is Ok && pushed is Ok ==> (r matches Ok(out) && if deleted {
            out.0.deep_view() == seq!["Deleted old branch '"@ + old@ + "' from origin."@, "Branch renamed successfully."@]
                && out.1.deep_view() == Seq::<Seq<char>>::empty()
        } else {
            out.0.deep_view() == seq!["Branch renamed successfully."@] && out.1.deep_view() == seq![
                "Warning: Failed to delete old branch '"@ + old@ + "' from origin."@,
            ]
        }),
{
    if let Err(e) = renamed {
        let t = e.to_string();
        let mut m = owned("Failed to rename local branch: ");
        m.append(t.as_str());
        return Err(GitXError::GitCommand(m));
    }
    if let Err(e) = pushed {
        let t = e.to_string();
        let mut m = owned("Failed to push new branch: ");
        m.append(t.as_str());
        return Err(GitXError::GitCommand(m));
    }
    let mut out: Vec<String> = Vec::new();
    let mut err: Vec<String> = Vec::new();
    if deleted {
        let mut l = owned("Deleted old branch '");
        l.append(old);
        l.append("' from origin.");
        out.push(l);
    } else {
        let mut l = owned("Warning: Failed to delete old branch '");
        l.append(old);
        l.append("' from origin.");
        err.push(l);
    }
    out.push(owned("Branch renamed successfully."));
    proof {
        if deleted {
            assert(out.deep_view() =~= seq!["Deleted old branch '"@ + old@ + "' from origin."@, "Branch renamed successfully."@]);
            assert(err.deep_view() =~= Seq::<Seq<char>>::empty());
        } else {
            assert(out.deep_view() =~= seq!["Branch renamed successfully."@]);
            assert(err.deep_view() =~= seq!["Warning: Failed to delete old branch '"@ + old@ + "' from origin."@]);
        }
    }
    Ok((out, err))
}

/// The rename-branch command.
pub struct RenameBranchCommand;

impl Command for RenameBranchCommand {
    /// The new name and the current branch.
    type Input = (String, Result<String>);

    type Output = RenameStep;

    open spec fn executes(&self, input: (String, Result<String>), r: Result<RenameStep>) -> bool {
        rename_step(input.0@, input.1, r)
    }

    fn execute(&self, input: (String, Result<String>)) -> (r: Result<RenameStep>)
        ensures
            rename_step(input.0@, input.1, r),
    {
        let (new_name, current) = input;
        run_rename_branch(new_name.as_str(), current)
    }

    fn name(&self) -> (r: &'static str)
        ensures
            r@ == "rename-branch"@,
    {
        "rename-branch"
    }

    fn description(&self) -> (r: &'static str)
        ensures
            r@ == "Rename the current branch both locally and remotely"@,
    {
        "Rename the current branch both locally and remotely"
    }

    fn is_destructive(&self) -> (r: bool)
        ensures
            r,
    {
        true
    }
}

} // verus!
