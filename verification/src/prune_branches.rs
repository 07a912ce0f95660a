//! `git x prune-branches`: deleting the local branches merged into the
//! current one, sparing the current branch, main, master, develop and the
//! branches named with `--except`. The decisions are made here; the caller
//! asks git, asks for confirmation and deletes.
use vstd::prelude::*;
use crate::base::text::{decimal, decimal_of, join, join_of, owned, split, split_of, str_eq, trim, trim_str};
use crate::command::Command;
use crate::commands::branch::succeeded;
use crate::{GitXError, Result, shows};

verus! {

/// The trimmed, non-empty names among `parts`, in order.
pub open spec fn named(parts: Seq<Seq<char>>) -> Seq<Seq<char>>
    decreases parts.len(),
{
    if parts.len() == 0 {
        Seq::empty()
    } else {
        let rest = named(parts.drop_last());
        let t = trim(parts.last());
        if t.len() > 0 {
            rest.push(t)
        } else {
            rest
        }
    }
}

/// The protected branches: main, master and develop, then the
/// comma-separated names of `except`.
pub open spec fn protected_list(except: Option<Seq<char>>) -> Seq<Seq<char>> {
    seq!["main"@, "master"@, "develop"@] + match except {
        Some(s) => named(split(s, ',')),
        None => Seq::empty(),
    }
}

/// Get all protected branches (defaults plus the names in `except`).
pub fn get_all_protected_branches(except: Option<&str>) -> (r: Vec<String>)
    ensures
        r.deep_view() == protected_list(
            match except {
                Some(s) => Some(s@),
                None => None,
            },
        ),
{
    let mut r: Vec<String> = Vec::new();
    r.push(owned("main"));
    r.push(owned("master"));
    r.push(owned("develop"));
    let ghost head = r.deep_view();
    assert(head =~= seq!["main"@, "master"@, "develop"@]);
    if let Some(s) = except {
        let parts = split_of(s, ',');
        for i in 0..parts.len()
            invariant
                r.deep_view() == head + named(parts.deep_view().take(i as int)),
        {
            proof {
                assert(parts.deep_view()[i as int] == parts@[i as int]@);
                assert(parts.deep_view().take(i + 1).drop_last() =~= parts.deep_view().take(i as int));
            }
            let t = trim_str(parts[i].as_str());
            if !t.as_str().is_empty() {
                let ghost before = r.deep_view();
                let ghost tv = t@;
                r.push(t);
                assert(r.deep_view() =~= before.push(tv));
            }
        }
        assert(parts.deep_view().take(parts.len() as int) =~= parts.deep_view());
    } else {
        assert(r.deep_view() =~= head + Seq::<Seq<char>>::empty());
    }
    r
}

/// `branch` is spared: it is the current branch or a protected one.
pub open spec fn spared(branch: Seq<char>, current: Seq<char>, protected: Seq<Seq<char>>) -> bool {
    branch == current || protected.contains(branch)
}

/// Whether `branch` is the current branch or among `protected_branches`.
pub fn is_branch_protected(branch: &str, current_branch: &str, protected_branches: &[String]) -> (r: bool)
    ensures
        r == spared(branch@, current_branch@, protected_branches@.map_values(|s: String| s@)),
{
    let ghost ps = protected_branches@.map_values(|s: String| s@);
    if str_eq(branch, current_branch) {
        return true;
    }
    let mut i: usize = 0;
    while i < protected_branches.len()
        invariant
            0 <= i <= protected_branches.len(),
            ps == protected_branches@.map_values(|s: String| s@),
            forall|k: int| 0 <= k < i ==> ps[k] != branch@,
        decreases protected_branches.len() - i,
    {
        if str_eq(protected_branches[i].as_str(), branch) {
            assert(ps[i as int] == branch@);
            return true;
        }
        i = i + 1;
    }
    proof {
        if ps.contains(branch@) {
            let k = choose|k: int| 0 <= k < ps.len() && ps[k] == branch@;
            assert(ps[k] != branch@);
        }
    }
    false
}

/// The branches of `v` that are not spared, in order.
pub open spec fn prunable(v: Seq<Seq<char>>, current: Seq<char>, protected: Seq<Seq<char>>) -> Seq<Seq<char>>
    decreases v.len(),
{
    if v.len() == 0 {
        Seq::empty()
    } else {
        let rest = prunable(v.drop_last(), current, protected);
        if spared(v.last(), current, protected) {
            rest
        } else {
            rest.push(v.last())
        }
    }
}

/// What pruning does next.
pub enum PruneStep {
    /// Print these lines on standard output; nothing is to be deleted (or
    /// it is a dry run).
    Report(Vec<String>),
    /// Ask for confirmation with `details`; then delete `branches` one by
    /// one and print `finish_prune_branches`. Declining prints "Operation
    /// cancelled by user.".
    Confirm { branches: Vec<String>, details: String },
}

/// The lines of a dry run.
pub open spec fn dry_run_report(bs: Seq<Seq<char>>) -> Seq<Seq<char>> {
    seq!["🧪 (dry run) "@ + decimal(bs.len()) + " branches would be deleted:"@] + bs
}

/// What pruning decides from the current branch and the merged branches
/// (errors passed on in this order, with what failed named).
pub open spec fn prune_step(
    except: Option<Seq<char>>,
    dry_run: bool,
    current: Result<String>,
    merged: Result<Vec<String>>,
    r: Result<PruneStep>,
) -> bool {
    match current {
        Err(e) => r matches Err(GitXError::GitCommand(m)) && exists|t: Seq<char>|
            shows(e, t) && m@ == "Failed to get current branch: "@ + t,
        Ok(c) => match merged {
            Err(e) => r matches Err(GitXError::GitCommand(m)) && exists|t: Seq<char>|
                shows(e, t) && m@ == "Failed to get merged branches: "@ + t,
            Ok(v) => {
                let bs = prunable(v.deep_view(), c@, protected_list(except));
                if bs.len() == 0 {
                    r matches Ok(PruneStep::Report(lines)) && lines.deep_view() == seq!["✅ No merged branches to prune."@]
                } else if dry_run {
                    r matches Ok(PruneStep::Report(lines)) && lines.deep_view() == dry_run_report(bs)
                } else {
                    r matches Ok(PruneStep::Confirm { branches, details }) && branches.deep_view() == bs
                        && details@ == "This will delete "@ + decimal(bs.len()) + " merged branches: "@ + join(bs, ", "@)
                }
            },
        },
    }
}

/// A failure to read something from git, with what failed named.
fn failed_to(what: &str, e: GitXError) -> (r: GitXError)
    ensures
        r matches GitXError::GitCommand(m) && exists|t: Seq<char>| shows(e, t) && m@ == what@ + t,
{
    let t = e.to_string();
    let mut m = owned(what);
    m.append(t.as_str());
    GitXError::GitCommand(m)
}

/// Decides what pruning does (see `prune_step`).
pub fn run_prune_branches(
    except: Option<&str>,
    dry_run: bool,
    current: Result<String>,
    merged: Result<Vec<String>>,
) -> (r: Result<PruneStep>)
    ensures
        prune_step(
            match except {
                Some(s) => Some(s@),
                None => None,
            },
            dry_run,
            current,
            merged,
            r,
        ),
{
    let protected = get_all_protected_branches(except);
    let c = match current {
        Err(e) => return Err(failed_to("Failed to get current branch: ", e)),
        Ok(c) => c,
    };
    let v = match merged {
        Err(e) => return Err(failed_to("Failed to get merged branches: ", e)),
        Ok(v) => v,
    };
    let ghost ps = protected.deep_view();
    assert(protected@.map_values(|s: String| s@) =~= ps);
    let mut bs: Vec<String> = Vec::new();
    for i in 0..v.len()
        invariant
            ps == protected.deep_view(),
            protected@.map_values(|s: String| s@) == ps,
            bs.deep_view() == prunable(v.deep_view().take(i as int), c@, ps),
    {
        proof {
            assert(v.deep_view()[i as int] == v@[i as int]@);
            assert(v.deep_view().take(i + 1).drop_last() =~= v.deep_view().take(i as int));
        }
        if !is_branch_protected(v[i].as_str(), c.as_str(), protected.as_slice()) {
            let ghost before = bs.deep_view();
            bs.push(owned(v[i].as_str()));
            assert(bs.deep_view() =~= before.push(v@[i as int]@));
        }
    }
    assert(v.deep_view().take(v.len() as int) =~= v.deep_view());
    if bs.len() == 0 {
        let mut lines: Vec<String> = Vec::new();
        lines.push(owned("✅ No merged branches to prune."));
        assert(lines.deep_view() =~= seq!["✅ No merged branches to prune."@]);
        return Ok(PruneStep::Report(lines));
    }
    let n = decimal_of(bs.len() as u64);
    if dry_run {
        let mut head = owned("🧪 (dry run) ");
        head.append(n.as_str());
        head.append(" branches would be deleted:");
        let mut lines: Vec<String> = Vec::new();
        lines.push(head);
        let ghost first = lines.deep_view();
        for i in 0..bs.len()
            invariant
                lines.deep_view() == first + bs.deep_view().take(i as int),
        {
            let ghost before = lines.deep_view();
            lines.push(owned(bs[i].as_str()));
            proof {
                assert(bs.deep_view()[i as int] == bs@[i as int]@);
                assert(bs.deep_view().take(i + 1) =~= bs.deep_view().take(i as int).push(bs@[i as int]@));
                assert(lines.deep_view() =~= before.push(bs@[i as int]@));
            }
        }
        assert(bs.deep_view().take(bs.len() as int) =~= bs.deep_view());
        assert(lines.deep_view() =~= dry_run_report(bs.deep_view()));
        return Ok(PruneStep::Report(lines));
    }
    let mut d = owned("This will delete ");
    d.append(n.as_str());
    d.append(" merged branches: ");
    let j = join_of(&bs, ", ");
    d.append(j.as_str());
    Ok(PruneStep::Confirm { branches: bs, details: d })
}

/// The branches of `bs` whose deletion failed (`ok[i]` false for `bs[i]`).
pub open spec fn failed(bs: Seq<Seq<char>>, ok: Seq<bool>) -> Seq<Seq<char>>
    decreases bs.len(),
{
    if bs.len() == 0 || ok.len() != bs.len() {
        Seq::empty()
    } else {
        let rest = failed(bs.drop_last(), ok.drop_last());
        if ok.last() {
            rest
        } else {
            rest.push(bs.last())
        }
    }
}

/// After deleting: the deleted branches (printed on standard output) and
/// the ones whose deletion failed (printed on standard error), in order.
pub fn finish_prune_branches(branches: &Vec<String>, outcomes: &Vec<bool>) -> (r: (Vec<String>, Vec<String>))
    requires
        outcomes.len() == branches.len(),
    ensures
        r.0.deep_view() == succeeded(branches.deep_view(), outcomes@),
        r.1.deep_view() == failed(branches.deep_view(), outcomes@),
{
    let mut ok: Vec<String> = Vec::new();
    let mut bad: Vec<String> = Vec::new();
    for i in 0..branches.len()
        invariant
            outcomes.len() == branches.len(),
            ok.deep_view() == succeeded(branches.deep_view().take(i as int), outcomes@.take(i as int)),
            bad.deep_view() == failed(branches.deep_view().take(i as int), outcomes@.take(i as int)),
    {
        proof {
            assert(branches.deep_view().take(i + 1).drop_last() =~= branches.deep_view().take(i as int));
            assert(outcomes@.take(i + 1).drop_last() =~= outcomes@.take(i as int));
            assert(branches.deep_view()[i as int] == branches@[i as int]@);
        }
        if outcomes[i] {
            let ghost before = ok.deep_view();
            ok.push(owned(branches[i].as_str()));
            assert(ok.deep_view() =~= before.push(branches@[i as int]@));
        } else {
            let ghost before = bad.deep_view();
            bad.push(owned(branches[i].as_str()));
            assert(bad.deep_view() =~= before.push(branches@[i as int]@));
        }
    }
    assert(branches.deep_view().take(branches.len() as int) =~= branches.deep_view());
    assert(outcomes@.take(outcomes.len() as int) =~= outcomes@);
    (ok, bad)
}

/// The prune-branches command.
pub struct PruneBranchesCommand;

impl Command for PruneBranchesCommand {
    /// The exceptions, whether it is a dry run, the current branch, the
    /// merged branches.
    type Input = (Option<String>, bool, Result<String>, Result<Vec<String>>);

    type Output = PruneStep;

    open spec fn executes(
        &self,
        input: (Option<String>, bool, Result<String>, Result<Vec<String>>),
        r: Result<PruneStep>,
    ) -> bool {
        prune_step(
            match input.0 {
                Some(s) => Some(s@),
                None => None,
            },
            input.1,
            input.2,
            input.3,
            r,
        )
    }

    fn execute(&self, input: (Option<String>, bool, Result<String>, Result<Vec<String>>)) -> (r: Result<PruneStep>)
        ensures
            prune_step(
                match input.0 {
                    Some(s) => Some(s@),
                    None => None,
                },
                input.1,
                input.2,
                input.3,
                r,
            ),
    {
        let (except, dry_run, current, merged) = input;
        match except {
            Some(s) => run_prune_branches(Some(s.as_str()), dry_run, current, merged),
            None => run_prune_branches(None, dry_run, current, merged),
        }
    }

    fn name(&self) -> (r: &'static str)
        ensures
            r@ == "prune-branches"@,
    {
        "prune-branches"
    }

    fn description(&self) -> (r: &'static str)
        ensures
            r@ == "Prune merged branches with optional exceptions"@,
    {
        "Prune merged branches with optional exceptions"
    }

    fn is_destructive(&self) -> (r: bool)
        ensures
            r,
    {
        true
    }
}

/// Pruning spares the current branch, main, master, develop and every
/// branch named in `--except`, and deletes every other merged branch.
pub proof fn law_prune_spares_current_and_protected(
    merged: Seq<Seq<char>>,
    current: Seq<char>,
    except: Option<Seq<char>>,
)
    ensures
        forall|b: Seq<char>|
            #[trigger] prunable(merged, current, protected_list(except)).contains(b) <==> (merged.contains(b) && b
                != current && b != "main"@ && b != "master"@ && b != "develop"@ && !(except matches Some(s) && named(
                split(s, ','),
            ).contains(b))),
    decreases merged.len(),
{
    let ps = protected_list(except);
    let extra = match except {
        Some(s) => named(split(s, ',')),
        None => Seq::<Seq<char>>::empty(),
    };
    assert forall|b: Seq<char>| ps.contains(b) <==> (b == "main"@ || b == "master"@ || b == "develop"@ || extra.contains(b)) by {
        if ps.contains(b) {
            let k = choose|k: int| 0 <= k < ps.len() && ps[k] == b;
            if k >= 3 {
                assert(extra[k - 3] == b);
            }
        }
        if extra.contains(b) {
            let k = choose|k: int| 0 <= k < extra.len() && extra[k] == b;
            assert(ps[k + 3] == b);
        }
        if b == "main"@ {
            assert(ps[0] == b);
        }
        if b == "master"@ {
            assert(ps[1] == b);
        }
        if b == "develop"@ {
            assert(ps[2] == b);
        }
    }
    if merged.len() > 0 {
        let p = merged.drop_last();
        let x = merged.last();
        assert(merged =~= p.push(x));
        law_prune_spares_current_and_protected(p, current, except);
        assert forall|b: Seq<char>|
            #[trigger] prunable(merged, current, ps).contains(b) <==> (merged.contains(b) && b != current && b
                != "main"@ && b != "master"@ && b != "develop"@ && !(except matches Some(s) && named(split(s, ',')).contains(
                b,
            ))) by {
            crate::base::tally::lemma_push_contains(p, x, b);
            crate::base::tally::lemma_push_contains(prunable(p, current, ps), x, b);
        }
    }
}

} // verus!
