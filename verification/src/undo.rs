//! `git x undo`: undoing the last commit, its changes kept.
use vstd::prelude::*;
use crate::base::git::strings;
use crate::base::output::{Format, is_bold_of};
use crate::base::text::owned;
use crate::{GitXError, Result, is_git_error};

verus! {

/// The arguments of the soft reset.
pub fn undo_args() -> (r: Vec<String>)
    ensures
        r.deep_view() == seq!["reset"@, "--soft"@, "HEAD~1"@],
{
    let r = strings(&["reset", "--soft", "HEAD~1"]);
    assert(r.deep_view() =~= seq!["reset"@, "--soft"@, "HEAD~1"@]);
    r
}

/// What the command reports once the reset ran: the success message, or
/// the failed command.
pub fn run(success: bool) -> (r: Result<String>)
    ensures
        !success ==> is_git_error(r, "Git command failed: git reset --soft HEAD~1"@),
        success ==> (r matches Ok(t) && exists|b: Seq<char>|
            is_bold_of(b, "✅"@) && t@ == b + " "@ + "Last commit undone (soft reset). Changes kept in working directory."@),
{
    if !success {
        return Err(GitXError::GitCommand(owned("Git command failed: git reset --soft HEAD~1")));
    }
    Ok(Format::success("Last commit undone (soft reset). Changes kept in working directory."))
}

} // verus!
