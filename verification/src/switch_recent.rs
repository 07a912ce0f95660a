//! Switching to a recently used branch: reading the recent branches and
//! the current branch from git, and the outcome of the checkout.
use vstd::prelude::*;
use crate::base::git::ProcessOutput;
use crate::base::text::{lines, lines_of, owned, str_eq, trim, trim_str};
use crate::{GitXError, Result, is_git_error};

verus! {

/// The trimmed, non-empty lines of `ls` other than `current`, in order.
pub open spec fn other_recent(ls: Seq<Seq<char>>, current: Seq<char>) -> Seq<Seq<char>>
    decreases ls.len(),
{
    if ls.len() == 0 {
        Seq::empty()
    } else {
        let rest = other_recent(ls.drop_last(), current);
        let t = trim(ls.last());
        if t.len() > 0 && t != current {
            rest.push(t)
        } else {
            rest
        }
    }
}

/// The recently used branches, most recent first, from `git for-each-ref
/// --sort=-committerdate --format=%(refname:short) refs/heads/` and the
/// current branch (none when it could not be read): at most ten, the
/// current one left out.
pub fn get_recent_branches(output: ProcessOutput, current: Result<String>) -> (r: Result<Vec<String>>)
    ensures
        !output.success ==> is_git_error(r, "Failed to get recent branches: "@ + output.stderr@),
        output.success ==> (r matches Ok(v) && ({
            let all = other_recent(
                lines(output.stdout@),
                match current {
                    Ok(c) => c@,
                    Err(_) => Seq::empty(),
                },
            );
            v.deep_view() == all.take(if all.len() < 10 { all.len() as int } else { 10 })
        })),
{
    if !output.success {
        let mut m = String::from_str("Failed to get recent branches: ");
        m.append(output.stderr.as_str());
        return Err(GitXError::GitCommand(m));
    }
    let cur = match current {
        Ok(c) => c,
        Err(_) => String::new(),
    };
    let ghost cv = cur@;
    let ls = lines_of(output.stdout.as_str());
    let mut v: Vec<String> = Vec::new();
    let mut i: usize = 0;
    while i < ls.len() && v.len() < 10
        invariant
            i <= ls.len(),
            v.len() <= 10,
            cv == cur@,
            v.deep_view() == other_recent(ls.deep_view().take(i as int), cv),
        decreases ls.len() - i,
    {
        proof {
            assert(ls.deep_view().take(i + 1).drop_last() =~= ls.deep_view().take(i as int));
            assert(ls.deep_view()[i as int] == ls@[i as int]@);
        }
        let t = trim_str(ls[i].as_str());
        if !t.as_str().is_empty() && !str_eq(t.as_str(), cur.as_str()) {
            let ghost before = v.deep_view();
            let ghost tv = t@;
            v.push(t);
            assert(v.deep_view() =~= before.push(tv));
        }
        i = i + 1;
    }
    proof {
        let all = other_recent(ls.deep_view(), cv);
        lemma_other_recent_prefix(ls.deep_view(), i as int, cv);
        if i < ls.len() {
            assert(v.len() == 10);
        } else {
            assert(ls.deep_view().take(i as int) =~= ls.deep_view());
        }
        assert(v.deep_view() =~= all.take(if all.len() < 10 { all.len() as int } else { 10 }));
    }
    Ok(v)
}

/// What the first lines give is a prefix of what all the lines give.
proof fn lemma_other_recent_prefix(ls: Seq<Seq<char>>, i: int, current: Seq<char>)
    requires
        0 <= i <= ls.len(),
    ensures
        other_recent(ls.take(i), current).len() <= other_recent(ls, current).len(),
        other_recent(ls, current).take(other_recent(ls.take(i), current).len() as int) == other_recent(ls.take(i), current),
    decreases ls.len(),
{
    if i == ls.len() {
        assert(ls.take(i) =~= ls);
        assert(other_recent(ls, current).take(other_recent(ls, current).len() as int) =~= other_recent(ls, current));
    } else {
        lemma_other_recent_prefix(ls.drop_last(), i, current);
        assert(ls.drop_last().take(i) =~= ls.take(i));
        let a = other_recent(ls.drop_last(), current);
        let b = other_recent(ls.take(i), current);
        assert(other_recent(ls, current).take(b.len() as int) =~= a.take(b.len() as int));
    }
}

/// The current branch, from `git branch --show-current`.
pub fn get_current_branch(output: ProcessOutput) -> (r: Result<String>)
    ensures
        !output.success ==> is_git_error(r, "Failed to get current branch: "@ + output.stderr@),
        output.success ==> (r matches Ok(b) && b@ == trim(output.stdout@)),
{
    if !output.success {
        let mut m = String::from_str("Failed to get current branch: ");
        m.append(output.stderr.as_str());
        return Err(GitXError::GitCommand(m));
    }
    Ok(trim_str(output.stdout.as_str()))
}

/// The outcome of `git checkout <branch>`.
pub fn switch_to_branch(branch: &str, success: bool) -> (r: Result<()>)
    ensures
        success ==> r is Ok,
        !success ==> is_git_error(r, "Failed to switch to branch '"@ + branch@ + "'"@),
{
    if success {
        Ok(())
    } else {
        let mut m = String::from_str("Failed to switch to branch '");
        m.append(branch);
        m.append("'");
        Err(GitXError::GitCommand(m))
    }
}

/// The recent branches offered never include the current branch or an
/// empty name, and each is one of the listed branches (trimmed).
pub proof fn law_recent_never_offers_current(ls: Seq<Seq<char>>, current: Seq<char>)
    ensures
        forall|i: int| 0 <= i < other_recent(ls, current).len() ==> {
            let b = #[trigger] other_recent(ls, current)[i];
            &&& b != current
            &&& b.len() > 0
            &&& exists|k: int| 0 <= k < ls.len() && trim(ls[k]) == b
        },
    decreases ls.len(),
{
    if ls.len() > 0 {
        let p = ls.drop_last();
        law_recent_never_offers_current(p, current);
        let rest = other_recent(p, current);
        assert forall|i: int| 0 <= i < other_recent(ls, current).len() implies {
            let b = #[trigger] other_recent(ls, current)[i];
            &&& b != current
            &&& b.len() > 0
            &&& exists|k: int| 0 <= k < ls.len() && trim(ls[k]) == b
        } by {
            if i < rest.len() {
                assert(other_recent(ls, current)[i] == rest[i]);
                let k = choose|k: int| 0 <= k < p.len() && trim(p[k]) == rest[i];
                assert(ls[k] == p[k]);
            } else {
                assert(trim(ls[ls.len() - 1]) == other_recent(ls, current)[i]);
            }
        }
    }
}

} // verus!
