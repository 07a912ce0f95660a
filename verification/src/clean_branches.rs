//! `git x clean-branches`: deleting the local branches already merged into
//! the current one, main, master and develop excepted. The decisions are
//! made here; the caller asks git, asks for confirmation and deletes.
use vstd::prelude::*;
use crate::base::text::{decimal, decimal_of, join, join_of, owned};
use crate::command::Command;
use crate::commands::branch::succeeded;
use crate::domain::branch_manager::{is_protected, is_protected_branch};
use crate::{GitXError, Result};

verus! {

/// The branches of `v` that are not protected, in order.
pub open spec fn unprotected(v: Seq<Seq<char>>) -> Seq<Seq<char>>
    decreases v.len(),
{
    if v.len() == 0 {
        Seq::empty()
    } else {
        let rest = unprotected(v.drop_last());
        if is_protected(v.last()) {
            rest
        } else {
            rest.push(v.last())
        }
    }
}

/// The heading of the report: how many branches were (or would be) deleted.
pub open spec fn deletion_summary(count: nat, dry_run: bool) -> Seq<char> {
    if dry_run {
        "🧪 (dry run) "@ + decimal(count) + " branches would be deleted:"@
    } else {
        "🧹 Deleted "@ + decimal(count) + " merged branches:"@
    }
}

/// One deleted branch as the report lists it.
pub open spec fn listed(b: Seq<char>, dry_run: bool) -> Seq<char> {
    if dry_run {
        b
    } else {
        "  "@ + b
    }
}

/// The lines printed at the end: the heading and the deleted branches, or
/// a note that there was nothing to delete.
pub open spec fn report_lines(deleted: Seq<Seq<char>>, dry_run: bool) -> Seq<Seq<char>> {
    if deleted.len() == 0 {
        seq!["No merged branches to delete."@]
    } else {
        seq![deletion_summary(deleted.len(), dry_run)] + deleted.map_values(|b: Seq<char>| listed(b, dry_run))
    }
}

/// What is asked before deleting `bs`.
pub open spec fn deletion_details(bs: Seq<Seq<char>>) -> Seq<char> {
    "This will delete "@ + decimal(bs.len()) + " merged branches: "@ + join(bs, ", "@)
}

/// What cleaning does next.
pub enum CleanStep {
    /// Print these lines; nothing is to be deleted (or it is a dry run).
    Report(Vec<String>),
    /// Ask for confirmation with `details`; then delete `branches` one by
    /// one and print `finish_clean_branches`. Declining prints "Operation
    /// cancelled by user.".
    Confirm { branches: Vec<String>, details: String },
}

/// The heading of the report.
pub fn format_deletion_summary(count: usize, dry_run: bool) -> (r: String)
    ensures
        r@ == deletion_summary(count as nat, dry_run),
{
    let n = decimal_of(count as u64);
    let mut r = if dry_run {
        owned("🧪 (dry run) ")
    } else {
        owned("🧹 Deleted ")
    };
    r.append(n.as_str());
    if dry_run {
        r.append(" branches would be deleted:");
    } else {
        r.append(" merged branches:");
    }
    r
}

/// The lines of the report on the deleted branches.
pub fn report(deleted: &Vec<String>, dry_run: bool) -> (r: Vec<String>)
    ensures
        r.deep_view() == report_lines(deleted.deep_view(), dry_run),
{
    let mut r: Vec<String> = Vec::new();
    if deleted.len() == 0 {
        r.push(owned("No merged branches to delete."));
        assert(r.deep_view() =~= report_lines(deleted.deep_view(), dry_run));
        return r;
    }
    r.push(format_deletion_summary(deleted.len(), dry_run));
    let ghost head = r.deep_view();
    for i in 0..deleted.len()
        invariant
            r.deep_view() == head + deleted.deep_view().take(i as int).map_values(|b: Seq<char>| listed(b, dry_run)),
            head == seq![deletion_summary(deleted.len() as nat, dry_run)],
    {
        let line = if dry_run {
            owned(deleted[i].as_str())
        } else {
            let mut l = owned("  ");
            l.append(deleted[i].as_str());
            l
        };
        let ghost before = r.deep_view();
        r.push(line);
        proof {
            assert(deleted.deep_view()[i as int] == deleted@[i as int]@);
            assert(deleted.deep_view().take(i + 1) =~= deleted.deep_view().take(i as int).push(deleted@[i as int]@));
            assert(r.deep_view() =~= before.push(listed(deleted@[i as int]@, dry_run)));
            assert(deleted.deep_view().take(i + 1).map_values(|b: Seq<char>| listed(b, dry_run)) =~= deleted.deep_view().take(
                i as int,
            ).map_values(|b: Seq<char>| listed(b, dry_run)).push(listed(deleted@[i as int]@, dry_run)));
        }
    }
    assert(deleted.deep_view().take(deleted.len() as int) =~= deleted.deep_view());
    assert(r.deep_view() =~= report_lines(deleted.deep_view(), dry_run));
    r
}

/// The merged branches that may be cleaned: all but the protected ones.
pub fn cleanable(merged: &Vec<String>) -> (r: Vec<String>)
    ensures
        r.deep_view() == unprotected(merged.deep_view()),
{
    let mut r: Vec<String> = Vec::new();
    for i in 0..merged.len()
        invariant
            r.deep_view() == unprotected(merged.deep_view().take(i as int)),
    {
        proof {
            assert(merged.deep_view()[i as int] == merged@[i as int]@);
            assert(merged.deep_view().take(i + 1).drop_last() =~= merged.deep_view().take(i as int));
        }
        if !is_protected_branch(merged[i].as_str()) {
            let ghost before = r.deep_view();
            r.push(owned(merged[i].as_str()));
            assert(r.deep_view() =~= before.push(merged@[i as int]@));
        }
    }
    assert(merged.deep_view().take(merged.len() as int) =~= merged.deep_view());
    r
}

/// What cleaning decides from the check that the working directory is
/// clean (made only when it is no dry run) and the merged branches, errors
/// passed on in this order: a dry run reports every unprotected merged
/// branch; otherwise, with none, it reports that, and else it asks.
pub open spec fn clean_step(dry_run: bool, clean: Result<()>, merged: Result<Vec<String>>, r: Result<CleanStep>) -> bool {
    if !dry_run && clean is Err {
        r == Err::<CleanStep, GitXError>(clean->Err_0)
    } else {
        match merged {
            Err(e) => r == Err::<CleanStep, GitXError>(e),
            Ok(m) => {
                let bs = unprotected(m.deep_view());
                if dry_run || bs.len() == 0 {
                    r matches Ok(CleanStep::Report(lines)) && lines.deep_view() == report_lines(bs, dry_run)
                } else {
                    r matches Ok(CleanStep::Confirm { branches, details }) && branches.deep_view() == bs
                        && details@ == deletion_details(bs)
                }
            },
        }
    }
}

/// Decides what cleaning does (see `clean_step`).
pub fn run_clean_branches(dry_run: bool, clean: Result<()>, merged: Result<Vec<String>>) -> (r: Result<CleanStep>)
    ensures
        clean_step(dry_run, clean, merged, r),
{
    if !dry_run {
        if let Err(e) = clean {
            return Err(e);
        }
    }
    let m = match merged {
        Err(e) => return Err(e),
        Ok(m) => m,
    };
    let bs = cleanable(&m);
    if dry_run || bs.len() == 0 {
        return Ok(CleanStep::Report(report(&bs, dry_run)));
    }
    let mut d = owned("This will delete ");
    let n = decimal_of(bs.len() as u64);
    d.append(n.as_str());
    d.append(" merged branches: ");
    let j = join_of(&bs, ", ");
    d.append(j.as_str());
    Ok(CleanStep::Confirm { branches: bs, details: d })
}

/// The report after deleting: the branches whose deletion succeeded
/// (`outcomes[i]` for `branches[i]`); failures are left out silently.
pub fn finish_clean_branches(branches: &Vec<String>, outcomes: &Vec<bool>) -> (r: Vec<String>)
    requires
        outcomes.len() == branches.len(),
    ensures
        r.deep_view() == report_lines(succeeded(branches.deep_view(), outcomes@), false),
{
    let mut deleted: Vec<String> = Vec::new();
    for i in 0..branches.len()
        invariant
            outcomes.len() == branches.len(),
            deleted.deep_view() == succeeded(branches.deep_view().take(i as int), outcomes@.take(i as int)),
    {
        proof {
            assert(branches.deep_view().take(i + 1).drop_last() =~= branches.deep_view().take(i as int));
            assert(outcomes@.take(i + 1).drop_last() =~= outcomes@.take(i as int));
            assert(branches.deep_view()[i as int] == branches@[i as int]@);
        }
        if outcomes[i] {
            let ghost before = deleted.deep_view();
            deleted.push(owned(branches[i].as_str()));
            assert(deleted.deep_view() =~= before.push(branches@[i as int]@));
        }
    }
    assert(branches.deep_view().take(branches.len() as int) =~= branches.deep_view());
    assert(outcomes@.take(outcomes.len() as int) =~= outcomes@);
    report(&deleted, false)
}

/// The clean-branches command.
pub struct CleanBranchesCommand;

impl Command for CleanBranchesCommand {
    /// Whether it is a dry run, the clean-directory check, the merged branches.
    type Input = (bool, Result<()>, Result<Vec<String>>);

    type Output = CleanStep;

    open spec fn executes(&self, input: (bool, Result<()>, Result<Vec<String>>), r: Result<CleanStep>) -> bool {
        clean_step(input.0, input.1, input.2, r)
    }

    fn execute(&self, input: (bool, Result<()>, Result<Vec<String>>)) -> (r: Result<CleanStep>)
        ensures
            clean_step(input.0, input.1, input.2, r),
    {
        let (dry_run, clean, merged) = input;
        run_clean_branches(dry_run, clean, merged)
    }

    fn name(&self) -> (r: &'static str)
        ensures
            r@ == "clean-branches"@,
    {
        "clean-branches"
    }

    fn description(&self) -> (r: &'static str)
        ensures
            r@ == "Clean up merged branches"@,
    {
        "Clean up merged branches"
    }

    fn is_destructive(&self) -> (r: bool)
        ensures
            r,
    {
        true
    }
}

/// Cleaning never deletes a protected branch, and a dry run lists every
/// other merged branch.
pub proof fn law_clean_never_deletes_protected(merged: Seq<Seq<char>>)
    ensures
        forall|b: Seq<char>| #[trigger] unprotected(merged).contains(b) <==> (merged.contains(b) && !is_protected(b)),
    decreases merged.len(),
{
    if merged.len() > 0 {
        let p = merged.drop_last();
        let x = merged.last();
        assert(merged =~= p.push(x));
        law_clean_never_deletes_protected(p);
        assert forall|b: Seq<char>| #[trigger] unprotected(merged).contains(b) <==> (merged.contains(b) && !is_protected(b)) by {
            crate::base::tally::lemma_push_contains(p, x, b);
            crate::base::tally::lemma_push_contains(unprotected(p), x, b);
        }
    }
}

} // verus!
