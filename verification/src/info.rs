//! `git x info` (the short form): the repository, the branch and its
//! tracking, and the last commit, the values in bold.
use vstd::prelude::*;
use crate::base::output::{Format, is_bold_of};
use crate::base::text::{decimal, decimal_of, join, join_of, owned};
use crate::{GitXError, Result};

verus! {

/// The report's lines, with the bold renderings `b` of the repository, the
/// branch, the tracked upstream, the two counts and the last commit.
pub open spec fn info_lines(b: Seq<Seq<char>>) -> Seq<Seq<char>> {
    seq![
        "Repo: "@ + b[0],
        "Branch: "@ + b[1],
        "Tracking: "@ + b[2],
        "Ahead: "@ + b[3] + " Behind: "@ + b[4],
        "Last Commit: \""@ + b[5] + "\""@,
    ]
}

/// The plain values shown: the repository root, the branch, what it tracks
/// ("(no upstream)" without one), the counts and the last commit.
pub open spec fn info_values(root: Seq<char>, info: (String, Option<String>, u32, u32), last: Seq<char>) -> Seq<Seq<char>> {
    seq![
        root,
        info.0@,
        match info.1 {
            Some(u) => u@,
            None => "(no upstream)"@,
        },
        decimal(info.2 as nat),
        decimal(info.3 as nat),
        last,
    ]
}

/// The report from git's answers: the repository root, the branch
/// information and the last commit (`git log -1 --pretty=format:%s (%cr)`),
/// the first failure passed on.
pub fn run_info(
    root: Result<String>,
    info: Result<(String, Option<String>, u32, u32)>,
    last_commit: Result<String>,
) -> (r: Result<String>)
    ensures
        root matches Err(e) ==> r == Err::<String, GitXError>(e),
        root is Ok ==> (info matches Err(e) ==> r == Err::<String, GitXError>(e)),
        root is Ok && info is Ok ==> (last_commit matches Err(e) ==> r == Err::<String, GitXError>(e)),
        root matches Ok(p) ==> (info matches Ok(i) ==> (last_commit matches Ok(l) ==> (r matches Ok(t)
            && exists|b: Seq<Seq<char>>|
            #![trigger info_lines(b)]
            b.len() == 6 && (forall|k: int| 0 <= k < 6 ==> is_bold_of(#[trigger] b[k], info_values(p@, i, l@)[k]))
                && t@ == join(info_lines(b), "\n"@)))),
{
    let p = root?;
    let i = info?;
    let l = last_commit?;
    let tracking = match &i.1 {
        Some(u) => owned(u.as_str()),
        None => owned("(no upstream)"),
    };
    let ghost vals = info_values(p@, i, l@);
    let b0 = Format::bold(p.as_str());
    let b1 = Format::bold(i.0.as_str());
    let b2 = Format::bold(tracking.as_str());
    let a = decimal_of(i.2 as u64);
    let b3 = Format::bold(a.as_str());
    let be = decimal_of(i.3 as u64);
    let b4 = Format::bold(be.as_str());
    let b5 = Format::bold(l.as_str());
    let ghost b = seq![b0@, b1@, b2@, b3@, b4@, b5@];
    let mut lines: Vec<String> = Vec::new();
    let mut l0 = owned("Repo: ");
    l0.append(b0.as_str());
    lines.push(l0);
    let mut l1 = owned("Branch: ");
    l1.append(b1.as_str());
    lines.push(l1);
    let mut l2 = owned("Tracking: ");
    l2.append(b2.as_str());
    lines.push(l2);
    let mut l3 = owned("Ahead: ");
    l3.append(b3.as_str());
    l3.append(" Behind: ");
    l3.append(b4.as_str());
    lines.push(l3);
    let mut l4 = owned("Last Commit: \"");
    l4.append(b5.as_str());
    l4.append("\"");
    lines.push(l4);
    assert(lines.deep_view() =~= info_lines(b));
    assert forall|k: int| 0 <= k < 6 implies is_bold_of(#[trigger] b[k], vals[k]) by {
        assert(vals[0] == p@ && vals[1] == i.0@ && vals[2] == tracking@ && vals[3] == a@ && vals[4] == be@ && vals[5]
            == l@);
    }
    Ok(join_of(&lines, "\n"))
}

/// The arguments of the last commit's subject and age.
pub fn last_commit_args() -> (r: Vec<String>)
    ensures
        r.deep_view() == seq!["log"@, "-1"@, "--pretty=format:%s (%cr)"@],
{
    let r = crate::base::git::strings(&["log", "-1", "--pretty=format:%s (%cr)"]);
    assert(r.deep_view() =~= seq!["log"@, "-1"@, "--pretty=format:%s (%cr)"@]);
    r
}

} // verus!
