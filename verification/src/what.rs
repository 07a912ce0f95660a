//! `git x what`: how the current branch differs from a target branch (main
//! by default): the commits ahead and behind and the changed files.
use vstd::prelude::*;
use crate::base::git::ProcessOutput;
use crate::base::text::{join, join_of, lines, lines_of, owned, str_eq, words, words_of};
use crate::{GitXError, Result, is_git_error, shows};

verus! {

/// The branch compared with when none is given.
pub fn get_default_target() -> (r: String)
    ensures
        r@ == "main"@,
{
    owned("main")
}

/// The heading of the comparison.
pub fn format_branch_comparison(current: &str, target: &str) -> (r: String)
    ensures
        r@ == "Branch: "@ + current@ + " vs "@ + target@,
{
    let mut r = owned("Branch: ");
    r.append(current);
    r.append(" vs ");
    r.append(target);
    r
}

/// The lines of the counts.
pub fn format_commit_counts(ahead: &str, behind: &str) -> (r: (String, String))
    ensures
        r.0@ == "+ "@ + ahead@ + " commits ahead"@,
        r.1@ == "- "@ + behind@ + " commits behind"@,
{
    let mut a = owned("+ ");
    a.append(ahead);
    a.append(" commits ahead");
    let mut b = owned("- ");
    b.append(behind);
    b.append(" commits behind");
    (a, b)
}

/// The symmetric range `target...current`.
pub fn format_rev_list_range(target: &str, current: &str) -> (r: String)
    ensures
        r@ == target@ + "..."@ + current@,
{
    let mut r = owned(target);
    r.append("...");
    r.append(current);
    r
}

/// The (ahead, behind) counts of `rev-list --left-right --count`: its
/// second and first word, each "0" when missing.
pub open spec fn counts_of(output: Seq<char>) -> (Seq<char>, Seq<char>) {
    let w = words(output);
    (if w.len() >= 2 { w[1] } else { "0"@ }, if w.len() >= 1 { w[0] } else { "0"@ })
}

/// The (ahead, behind) counts (see `counts_of`).
pub fn parse_commit_counts(output: &str) -> (r: (String, String))
    ensures
        (r.0@, r.1@) == counts_of(output@),
{
    let w = words_of(output);
    let behind = if w.len() >= 1 {
        assert(w.deep_view()[0] == w@[0]@);
        owned(w[0].as_str())
    } else {
        owned("0")
    };
    let ahead = if w.len() >= 2 {
        assert(w.deep_view()[1] == w@[1]@);
        owned(w[1].as_str())
    } else {
        owned("0")
    };
    (ahead, behind)
}

/// The symbol of a `--name-status` status: `+` added, `~` modified, `-`
/// deleted, any other status as it is.
pub open spec fn symbol_of(status: Seq<char>) -> Seq<char> {
    if status == "A"@ {
        "+"@
    } else if status == "M"@ {
        "~"@
    } else if status == "D"@ {
        "-"@
    } else {
        status
    }
}

/// The symbol of a status (see `symbol_of`).
pub fn git_status_to_symbol(status: &str) -> (r: &str)
    ensures
        r@ == symbol_of(status@),
{
    if str_eq(status, "A") {
        "+"
    } else if str_eq(status, "M") {
        "~"
    } else if str_eq(status, "D") {
        "-"
    } else {
        status
    }
}

/// A `--name-status` line as shown, when it has at least two words.
pub open spec fn changed_line(line: Seq<char>) -> Option<Seq<char>> {
    let w = words(line);
    if w.len() >= 2 {
        Some(" - "@ + symbol_of(w[0]) + " "@ + w[1])
    } else {
        None
    }
}

/// A `--name-status` line as shown (see `changed_line`).
pub fn format_diff_line(line: &str) -> (r: Option<String>)
    ensures
        match changed_line(line@) {
            Some(l) => r matches Some(s) && s@ == l,
            None => r is None,
        },
{
    let w = words_of(line);
    if w.len() < 2 {
        return None;
    }
    proof {
        assert(w.deep_view()[0] == w@[0]@);
        assert(w.deep_view()[1] == w@[1]@);
    }
    let mut r = owned(" - ");
    r.append(git_status_to_symbol(w[0].as_str()));
    r.append(" ");
    r.append(w[1].as_str());
    Some(r)
}

/// The shown lines of a `--name-status` listing, in order.
pub open spec fn changed_lines(ls: Seq<Seq<char>>) -> Seq<Seq<char>>
    decreases ls.len(),
{
    if ls.len() == 0 {
        Seq::empty()
    } else {
        let rest = changed_lines(ls.drop_last());
        match changed_line(ls.last()) {
            Some(l) => rest.push(l),
            None => rest,
        }
    }
}

/// The report: the heading, the counts, then the changed files.
pub open spec fn what_report(current: Seq<char>, target: Seq<char>, counts: Seq<char>, diff: Seq<char>) -> Seq<char> {
    let (ahead, behind) = counts_of(counts);
    join(
        seq![
            "Branch: "@ + current + " vs "@ + target,
            "+ "@ + ahead + " commits ahead"@,
            "- "@ + behind + " commits behind"@,
            "Changes:"@,
        ] + changed_lines(lines(diff)),
        "\n"@,
    )
}

/// What `what` reports from git's answers: the current branch, then the
/// finished `rev-list --left-right --count <target>...<current>` and
/// `diff --name-status <target>...<current>` (failures in this order).
pub fn run(
    target: Option<String>,
    current: Result<String>,
    rev_list: ProcessOutput,
    diff: ProcessOutput,
) -> (r: Result<String>)
    ensures
        match current {
            Err(e) => r matches Err(GitXError::GitCommand(m)) && exists|t: Seq<char>|
                shows(e, t) && m@ == "Failed to get current branch: "@ + t,
            Ok(c) => if !rev_list.success {
                is_git_error(r, "Failed to compare branches"@)
            } else if !diff.success {
                is_git_error(r, "Failed to get file changes"@)
            } else {
                r matches Ok(s) && s@ == what_report(
                    c@,
                    match target {
                        Some(t) => t@,
                        None => "main"@,
                    },
                    rev_list.stdout@,
                    diff.stdout@,
                )
            },
        },
{
    let target_branch = match target {
        Some(t) => t,
        None => get_default_target(),
    };
    let current_branch = match current {
        Ok(c) => c,
        Err(e) => {
            let t = e.to_string();
            let mut m = owned("Failed to get current branch: ");
            m.append(t.as_str());
            return Err(GitXError::GitCommand(m));
        },
    };
    let mut output: Vec<String> = Vec::new();
    output.push(format_branch_comparison(current_branch.as_str(), target_branch.as_str()));
    if !rev_list.success {
        return Err(GitXError::GitCommand(owned("Failed to compare branches")));
    }
    let (ahead, behind) = parse_commit_counts(rev_list.stdout.as_str());
    let (ahead_msg, behind_msg) = format_commit_counts(ahead.as_str(), behind.as_str());
    output.push(ahead_msg);
    output.push(behind_msg);
    if !diff.success {
        return Err(GitXError::GitCommand(owned("Failed to get file changes")));
    }
    output.push(owned("Changes:"));
    let ghost head = output.deep_view();
    let ls = lines_of(diff.stdout.as_str());
    for i in 0..ls.len()
        invariant
            output.deep_view() == head + changed_lines(ls.deep_view().take(i as int)),
    {
        proof {
            assert(ls.deep_view()[i as int] == ls@[i as int]@);
            assert(ls.deep_view().take(i + 1).drop_last() =~= ls.deep_view().take(i as int));
        }
        match format_diff_line(ls[i].as_str()) {
            Some(l) => {
                let ghost before = output.deep_view();
                let ghost lv = l@;
                output.push(l);
                assert(output.deep_view() =~= before.push(lv));
            },
            None => {},
        }
    }
    assert(ls.deep_view().take(ls.len() as int) =~= ls.deep_view());
    assert(head =~= seq![
        "Branch: "@ + current_branch@ + " vs "@ + target_branch@,
        "+ "@ + counts_of(rev_list.stdout@).0 + " commits ahead"@,
        "- "@ + counts_of(rev_list.stdout@).1 + " commits behind"@,
        "Changes:"@,
    ]);
    Ok(join_of(&output, "\n"))
}

} // verus!
