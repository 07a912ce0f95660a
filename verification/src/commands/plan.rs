//! What a command does once it has read git's answers.
use vstd::prelude::*;
use crate::base::git::GitOperations;
use crate::base::text::{join, owned};
use crate::{GitXError, Result, is_git_error};

verus! {

/// What a command does next.
pub enum Plan {
    /// Nothing to run: the command's report.
    Report(String),
    /// Run git with each argument list in turn, stopping at the first that
    /// fails; when all succeed the report is `then`.
    Run { steps: Vec<Vec<String>>, then: String },
}

/// The argument lists of a plan's steps, as plain values.
pub open spec fn steps_view(steps: Seq<Vec<String>>) -> Seq<Seq<Seq<char>>> {
    steps.map_values(|s: Vec<String>| s.deep_view())
}

/// `p` reports `msg` without running anything.
pub open spec fn reports(p: Plan, msg: Seq<char>) -> bool {
    p matches Plan::Report(m) && m@ == msg
}

/// `p` runs `steps` and then reports `msg`.
pub open spec fn runs(p: Plan, steps: Seq<Seq<Seq<char>>>, msg: Seq<char>) -> bool {
    p matches Plan::Run { steps: s, then } && steps_view(s@) == steps && then@ == msg
}

/// `r` is `Ok` holding `p`, and `p` reports `msg`.
pub open spec fn ok_report(r: Result<Plan>, msg: Seq<char>) -> bool {
    r matches Ok(p) && reports(p, msg)
}

/// `r` is `Ok` holding `p`, and `p` runs `steps` and then reports `msg`.
pub open spec fn ok_run(r: Result<Plan>, steps: Seq<Seq<Seq<char>>>, msg: Seq<char>) -> bool {
    r matches Ok(p) && runs(p, steps, msg)
}

impl Plan {
    /// A plan of one step.
    pub fn one(step: Vec<String>, then: String) -> (r: Plan)
        ensures
            runs(r, seq![step.deep_view()], then@),
    {
        let mut steps: Vec<Vec<String>> = Vec::new();
        let ghost sv = step.deep_view();
        steps.push(step);
        assert(steps_view(steps@) =~= seq![sv]);
        Plan::Run { steps, then }
    }

    /// The command's result once the plan was carried out: `failed_at` is the
    /// index of the step that failed, if one did (steps after it are not
    /// run). A failed step gives the error of `GitOperations::run_status`;
    /// otherwise the result is the report.
    pub fn outcome(&self, failed_at: Option<usize>) -> (r: Result<String>)
        requires
            self matches Plan::Run { steps, .. } ==> (failed_at matches Some(i) ==> (i < steps.len())),
            self is Report ==> failed_at is None,
        ensures
            self matches Plan::Report(m) ==> (r matches Ok(s) && s@ == m@),
            self matches Plan::Run { steps, then } ==> match failed_at {
                Some(i) => is_git_error(r, "Git command failed: git "@ + join(steps@[i as int].deep_view(), " "@)),
                None => (r matches Ok(s) && s@ == then@),
            },
    {
        match self {
            Plan::Report(m) => Ok(owned(m.as_str())),
            Plan::Run { steps, then } => match failed_at {
                Some(i) => match GitOperations::run_status(&steps[i], false) {
                    Ok(()) => Ok(owned(then.as_str())),
                    Err(e) => Err(e),
                },
                None => Ok(owned(then.as_str())),
            },
        }
    }
}

} // verus!
