//! `git x since <ref>`: the commits made after a reference.
use vstd::prelude::*;
use crate::base::text::{owned, trim, trim_str};
use crate::{GitXError, Result};

verus! {

/// The arguments of the log of `reference..HEAD`.
pub fn since_args(reference: &str) -> (r: Vec<String>)
    ensures
        r.deep_view() == seq!["log"@, reference@ + "..HEAD"@, "--pretty=format:- %h %s"@],
{
    let mut range = owned(reference);
    range.append("..HEAD");
    let mut r: Vec<String> = Vec::new();
    r.push(owned("log"));
    r.push(range);
    r.push(owned("--pretty=format:- %h %s"));
    assert(r.deep_view() =~= seq!["log"@, reference@ + "..HEAD"@, "--pretty=format:- %h %s"@]);
    r
}

/// The report from the log of `since_args` (a failure to read it is passed
/// on): the commits, or that there are none.
pub fn run(reference: &str, log: Result<String>) -> (r: Result<String>)
    ensures
        match log {
            Err(e) => r == Err::<String, GitXError>(e),
            Ok(l) => r matches Ok(t) && t@ == if trim(l@).len() == 0 {
                "✅ No new commits since "@ + reference@
            } else {
                "🔍 Commits since "@ + reference@ + ":\n"@ + l@
            },
        },
{
    let l = log?;
    let t = trim_str(l.as_str());
    if t.as_str().is_empty() {
        let mut r = owned("✅ No new commits since ");
        r.append(reference);
        Ok(r)
    } else {
        let mut r = owned("🔍 Commits since ");
        r.append(reference);
        r.append(":\n");
        r.append(l.as_str());
        Ok(r)
    }
}

} // verus!
