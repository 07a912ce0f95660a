//! `git x graph`: the plain commit graph of all branches.
use vstd::prelude::*;
use crate::base::git::{GitOperations, ProcessOutput, strings};
use crate::base::text::trim;
use crate::{Result, is_git_error};

verus! {

/// The arguments of the graph log.
pub fn graph_args() -> (r: Vec<String>)
    ensures
        r.deep_view() == seq!["log"@, "--oneline"@, "--graph"@, "--decorate"@, "--all"@],
{
    let r = strings(&["log", "--oneline", "--graph", "--decorate", "--all"]);
    assert(r.deep_view() =~= seq!["log"@, "--oneline"@, "--graph"@, "--decorate"@, "--all"@]);
    r
}

/// The graph, from the finished log of `graph_args`: its trimmed output,
/// or git's trimmed error.
pub fn run(output: ProcessOutput) -> (r: Result<String>)
    ensures
        output.success ==> (r matches Ok(s) && s@ == trim(output.stdout@)),
        !output.success ==> is_git_error(r, trim(output.stderr@)),
{
    GitOperations::run(output)
}

} // verus!
