//! `git x health` (the short form): one line per check of the repository,
//! marked ✓ (good), ! (worth a look) or ✗ (a problem).
use vstd::prelude::*;
use crate::base::git::ProcessOutput;
use crate::base::output::{fg_green, fg_red, fg_yellow, sgr_bold, styled_as, styled_bold, styled_green_bold, styled_red_bold, styled_yellow_bold, is_bold_of};
use crate::base::text::{
    contains, decimal, decimal_of, ends_with, has_suffix, is_digit, join, join_of, lines, lines_of, owned, str_contains,
    trim, trim_str, words, words_of, chars_of,
};
use crate::{GitXError, Result, is_git_error};

verus! {

/// The bold colour a check's mark is shown in: green for ✓, yellow for !,
/// red otherwise.
pub open spec fn mark_style(mark: Seq<char>) -> Seq<char> {
    if mark == "✓"@ {
        fg_green() + sgr_bold()
    } else if mark == "!"@ {
        fg_yellow() + sgr_bold()
    } else {
        fg_red() + sgr_bold()
    }
}

/// A check's line: the mark in its style, a space and the message.
pub open spec fn marked(r: Seq<char>, mark: Seq<char>, msg: Seq<char>) -> bool {
    exists|m: Seq<char>| styled_as(m, mark_style(mark), mark) && r == m + " "@ + msg
}

/// The line of a passed check.
fn good(msg: &str) -> (r: String)
    ensures
        marked(r@, "✓"@, msg@),
{
    proof {
        reveal_strlit("✓");
        reveal_strlit("!");
        reveal_strlit("✗");
    }
    let mut r = styled_green_bold("✓");
    let ghost m = r@;
    r.append(" ");
    r.append(msg);
    assert(mark_style("✓"@) == fg_green() + sgr_bold());
    assert(r@ =~= m + " "@ + msg@);
    r
}

/// The line of a check that found something worth a look.
fn notice(msg: &str) -> (r: String)
    ensures
        marked(r@, "!"@, msg@),
{
    proof {
        reveal_strlit("✓");
        reveal_strlit("!");
        reveal_strlit("✗");
    }
    let mut r = styled_yellow_bold("!");
    let ghost m = r@;
    r.append(" ");
    r.append(msg);
    assert("!"@[0] != "✓"@[0]);
    assert(mark_style("!"@) == fg_yellow() + sgr_bold());
    assert(r@ =~= m + " "@ + msg@);
    r
}

/// The line of a failed check.
fn problem(msg: &str) -> (r: String)
    ensures
        marked(r@, "✗"@, msg@),
{
    proof {
        reveal_strlit("✓");
        reveal_strlit("!");
        reveal_strlit("✗");
    }
    let mut r = styled_red_bold("✗");
    let ghost m = r@;
    r.append(" ");
    r.append(msg);
    assert("✗"@[0] != "✓"@[0] && "✗"@[0] != "!"@[0]);
    assert(mark_style("✗"@) == fg_red() + sgr_bold());
    assert(r@ =~= m + " "@ + msg@);
    r
}

/// The line on the working directory, from what `git status --porcelain` printed.
pub open spec fn status_line(stdout: Seq<char>, t: Seq<char>) -> bool {
    if trim(stdout).len() == 0 {
        marked(t, "✓"@, "Working directory is clean"@)
    } else {
        marked(t, "✗"@, "Working directory has changes"@)
    }
}

/// The working directory's state, from `git status --porcelain`.
pub fn check_repo_status(output: ProcessOutput) -> (r: Result<String>)
    ensures
        !output.success ==> is_git_error(r, "Failed to get repository status"@),
        output.success ==> (r matches Ok(t) && status_line(output.stdout@, t@)),
{
    if !output.success {
        return Err(GitXError::GitCommand(owned("Failed to get repository status")));
    }
    let t = trim_str(output.stdout.as_str());
    if t.as_str().is_empty() {
        Ok(good("Working directory is clean"))
    } else {
        Ok(problem("Working directory has changes"))
    }
}

/// The line on untracked files, one per line of what git printed.
pub open spec fn untracked_line(stdout: Seq<char>, t: Seq<char>) -> bool {
    let n = lines(stdout).len();
    if n == 0 {
        marked(t, "✓"@, "No untracked files"@)
    } else {
        marked(t, "!"@, decimal(n) + " untracked files found"@)
    }
}

/// The untracked files, from `git ls-files --others --exclude-standard`.
pub fn check_untracked_files(output: ProcessOutput) -> (r: Result<String>)
    ensures
        !output.success ==> is_git_error(r, "Failed to get untracked files"@),
        output.success ==> (r matches Ok(t) && untracked_line(output.stdout@, t@)),
{
    if !output.success {
        return Err(GitXError::GitCommand(owned("Failed to get untracked files")));
    }
    let ls = lines_of(output.stdout.as_str());
    if ls.len() == 0 {
        Ok(good("No untracked files"))
    } else {
        let mut m = decimal_of(ls.len() as u64);
        m.append(" untracked files found");
        Ok(notice(m.as_str()))
    }
}

/// A branch line shows a last commit months or years ago.
pub open spec fn is_stale_line(l: Seq<char>) -> bool {
    contains(l, "months ago"@) || contains(l, "year"@)
}

/// How many of the lines are stale.
pub open spec fn stale_count(ls: Seq<Seq<char>>) -> nat
    decreases ls.len(),
{
    if ls.len() == 0 {
        0
    } else {
        stale_count(ls.drop_last()) + if is_stale_line(ls.last()) {
            1nat
        } else {
            0nat
        }
    }
}

proof fn lemma_stale_count_bound(ls: Seq<Seq<char>>)
    ensures
        stale_count(ls) <= ls.len(),
    decreases ls.len(),
{
    if ls.len() > 0 {
        lemma_stale_count_bound(ls.drop_last());
    }
}

/// The line on stale branches, from the branch listing.
pub open spec fn stale_branches_line(stdout: Seq<char>, t: Seq<char>) -> bool {
    let n = stale_count(lines(stdout));
    if n == 0 {
        marked(t, "✓"@, "No stale branches (older than 1 month)"@)
    } else {
        marked(t, "!"@, decimal(n) + " potentially stale branches found"@)
    }
}

/// The stale branches, from `git for-each-ref --format=%(refname:short)
/// %(committerdate:relative) refs/heads/`.
pub fn check_stale_branches(output: ProcessOutput) -> (r: Result<String>)
    ensures
        !output.success ==> is_git_error(r, "Failed to get branch information"@),
        output.success ==> (r matches Ok(t) && stale_branches_line(output.stdout@, t@)),
{
    if !output.success {
        return Err(GitXError::GitCommand(owned("Failed to get branch information")));
    }
    let ls = lines_of(output.stdout.as_str());
    let mut n: usize = 0;
    for i in 0..ls.len()
        invariant
            n == stale_count(ls.deep_view().take(i as int)),
            n <= i,
    {
        proof {
            assert(ls.deep_view().take(i + 1).drop_last() =~= ls.deep_view().take(i as int));
            assert(ls.deep_view()[i as int] == ls@[i as int]@);
        }
        if str_contains(ls[i].as_str(), "months ago") || str_contains(ls[i].as_str(), "year") {
            n = n + 1;
        }
    }
    assert(ls.deep_view().take(ls.len() as int) =~= ls.deep_view());
    if n == 0 {
        Ok(good("No stale branches (older than 1 month)"))
    } else {
        let mut m = decimal_of(n as u64);
        m.append(" potentially stale branches found");
        Ok(notice(m.as_str()))
    }
}

/// The value of the first character of `s` as a decimal digit, 0 when it
/// is none or `s` is empty.
pub open spec fn leading_digit(s: Seq<char>) -> nat {
    if s.len() > 0 && is_digit(s[0]) {
        ((s[0] as u32) - ('0' as u32)) as nat
    } else {
        0
    }
}

/// How large a repository of the size `size` (as `du -sh` prints it) is:
/// 0 healthy (kilobytes, or under 5 megabytes by its first digit), 1
/// moderate (other megabytes, or under 1 gigabyte by its first digit), 2
/// large.
pub open spec fn size_class(size: Seq<char>) -> nat {
    if has_suffix(size, "K"@) || (has_suffix(size, "M"@) && leading_digit(size) < 5) {
        0
    } else if has_suffix(size, "M"@) || (has_suffix(size, "G"@) && leading_digit(size) < 1) {
        1
    } else {
        2
    }
}

/// The size of the `.git` directory: the first word of `du -sh .git`, or
/// "unknown".
pub open spec fn size_word(output: Seq<char>) -> Seq<char> {
    if words(output).len() > 0 {
        words(output)[0]
    } else {
        "unknown"@
    }
}

/// The first digit's value (see `leading_digit`).
fn leading_digit_of(s: &str) -> (r: u32)
    ensures
        r == leading_digit(s@),
{
    let v = chars_of(s);
    if v.len() > 0 && '0' <= v[0] && v[0] <= '9' {
        (v[0] as u32) - ('0' as u32)
    } else {
        0
    }
}

/// The line on the repository size, from what `du -sh .git` printed.
pub open spec fn size_line(stdout: Seq<char>, t: Seq<char>) -> bool {
    let size = size_word(stdout);
    let c = size_class(size);
    if c == 0 {
        marked(t, "✓"@, "Repository size: "@ + size + " (healthy)"@)
    } else if c == 1 {
        marked(t, "!"@, "Repository size: "@ + size + " (moderate)"@)
    } else {
        marked(t, "✗"@, "Repository size: "@ + size + " (large - consider cleanup)"@)
    }
}

/// The repository size, from `du -sh .git`.
pub fn check_repo_size(output: ProcessOutput) -> (r: Result<String>)
    ensures
        !output.success ==> is_git_error(r, "Failed to get repository size"@),
        output.success ==> (r matches Ok(t) && size_line(output.stdout@, t@)),
{
    if !output.success {
        return Err(GitXError::GitCommand(owned("Failed to get repository size")));
    }
    let w = words_of(output.stdout.as_str());
    let size = if w.len() > 0 {
        assert(w.deep_view()[0] == w@[0]@);
        owned(w[0].as_str())
    } else {
        owned("unknown")
    };
    let d = leading_digit_of(size.as_str());
    let mut m = owned("Repository size: ");
    m.append(size.as_str());
    if ends_with(size.as_str(), "K") || (ends_with(size.as_str(), "M") && d < 5) {
        m.append(" (healthy)");
        Ok(good(m.as_str()))
    } else if ends_with(size.as_str(), "M") || (ends_with(size.as_str(), "G") && d < 1) {
        m.append(" (moderate)");
        Ok(notice(m.as_str()))
    } else {
        m.append(" (large - consider cleanup)");
        Ok(problem(m.as_str()))
    }
}

/// How many of the lines are not empty.
pub open spec fn non_empty_count(ls: Seq<Seq<char>>) -> nat
    decreases ls.len(),
{
    if ls.len() == 0 {
        0
    } else {
        non_empty_count(ls.drop_last()) + if ls.last().len() > 0 {
            1nat
        } else {
            0nat
        }
    }
}

/// The line on staged files, one per non-empty line of what git printed.
pub open spec fn staged_line(stdout: Seq<char>, t: Seq<char>) -> bool {
    let n = non_empty_count(lines(stdout));
    if n == 0 {
        marked(t, "✓"@, "No staged changes"@)
    } else {
        marked(t, "!"@, decimal(n) + " files staged for commit"@)
    }
}

/// The staged files, from `git diff --cached --name-only`.
pub fn check_uncommitted_changes(output: ProcessOutput) -> (r: Result<String>)
    ensures
        !output.success ==> is_git_error(r, "Failed to get staged changes"@),
        output.success ==> (r matches Ok(t) && staged_line(output.stdout@, t@)),
{
    if !output.success {
        return Err(GitXError::GitCommand(owned("Failed to get staged changes")));
    }
    let ls = lines_of(output.stdout.as_str());
    let mut n: usize = 0;
    for i in 0..ls.len()
        invariant
            n == non_empty_count(ls.deep_view().take(i as int)),
            n <= i,
    {
        proof {
            assert(ls.deep_view().take(i + 1).drop_last() =~= ls.deep_view().take(i as int));
            assert(ls.deep_view()[i as int] == ls@[i as int]@);
        }
        if !ls[i].as_str().is_empty() {
            n = n + 1;
        }
    }
    assert(ls.deep_view().take(ls.len() as int) =~= ls.deep_view());
    if n == 0 {
        Ok(good("No staged changes"))
    } else {
        let mut m = decimal_of(n as u64);
        m.append(" files staged for commit");
        Ok(notice(m.as_str()))
    }
}

/// The report: a bold heading, then (in a repository) the line of each
/// check in turn and a bold closing line; outside a repository a ✗ line.
pub open spec fn health_report(heading: Seq<Seq<char>>, body: Seq<Seq<char>>, t: Seq<char>) -> bool {
    exists|h1: Seq<char>, h2: Seq<char>|
        is_bold_of(h1, "Repository Health Check"@) && is_bold_of(h2, "========================="@) && heading
            == seq![h1, h2, Seq::<char>::empty()] && t == join(heading + body, "\n"@)
}

/// The checks' lines followed by a blank line and the closing line.
pub open spec fn with_closing(c: Seq<Seq<char>>, last: Seq<char>) -> Seq<Seq<char>> {
    c + seq![Seq::<char>::empty(), last]
}

/// A body of one line.
pub open spec fn single(l: Seq<char>) -> Seq<Seq<char>> {
    seq![l]
}

/// The report outside a repository.
pub open spec fn outside_report(t: Seq<char>) -> bool {
    exists|heading: Seq<Seq<char>>, l: Seq<char>|
        #![trigger health_report(heading, single(l), t)]
        marked(l, "✗"@, "Not in a Git repository"@) && health_report(heading, single(l), t)
}

/// The report in a repository, from what the checks' commands printed.
pub open spec fn checked_report(
    status: Seq<char>,
    untracked: Seq<char>,
    branches: Seq<char>,
    size: Seq<char>,
    staged: Seq<char>,
    t: Seq<char>,
) -> bool {
    exists|heading: Seq<Seq<char>>, c: Seq<Seq<char>>, last: Seq<char>|
        #![trigger health_report(heading, with_closing(c, last), t)]
        c.len() == 5 && status_line(status, c[0]) && untracked_line(untracked, c[1]) && stale_branches_line(branches, c[2])
            && size_line(size, c[3]) && staged_line(staged, c[4]) && is_bold_of(last, "Health check complete!"@)
            && health_report(heading, with_closing(c, last), t)
}

/// The health report from whether the directory is a repository and the
/// finished commands of the checks, in order: status, untracked files,
/// branches, size, staged files. The first failed check fails the report.
pub fn run(
    in_repo: bool,
    status: ProcessOutput,
    untracked: ProcessOutput,
    branches: ProcessOutput,
    size: ProcessOutput,
    staged: ProcessOutput,
) -> (r: Result<String>)
    ensures
        !in_repo ==> (r matches Ok(t) && outside_report(t@)),
        in_repo && !status.success ==> is_git_error(r, "Failed to get repository status"@),
        in_repo && status.success && !untracked.success ==> is_git_error(r, "Failed to get untracked files"@),
        in_repo && status.success && untracked.success && !branches.success ==> is_git_error(
            r,
            "Failed to get branch information"@,
        ),
        in_repo && status.success && untracked.success && branches.success && !size.success ==> is_git_error(
            r,
            "Failed to get repository size"@,
        ),
        in_repo && status.success && untracked.success && branches.success && size.success && !staged.success
            ==> is_git_error(r, "Failed to get staged changes"@),
        in_repo && status.success && untracked.success && branches.success && size.success && staged.success ==> (
        r matches Ok(t) && checked_report(status.stdout@, untracked.stdout@, branches.stdout@, size.stdout@, staged.stdout@, t@)),
{
    let mut output: Vec<String> = Vec::new();
    let h1 = styled_bold("Repository Health Check");
    let h2 = styled_bold("=========================");
    let ghost h1v = h1@;
    let ghost h2v = h2@;
    output.push(h1);
    output.push(h2);
    output.push(String::new());
    let ghost heading = output.deep_view();
    assert(heading =~= seq![h1v, h2v, Seq::<char>::empty()]);
    if !in_repo {
        let l = problem("Not in a Git repository");
        let ghost lv = l@;
        output.push(l);
        assert(output.deep_view() =~= heading + seq![lv]);
        let t = join_of(&output, "\n");
        assert(is_bold_of(h1v, "Repository Health Check"@) && is_bold_of(h2v, "========================="@));
        assert(health_report(heading, single(lv), t@));
        assert(outside_report(t@));
        return Ok(t);
    }
    let ghost (st, un, br, sz, sg) = (status.stdout@, untracked.stdout@, branches.stdout@, size.stdout@, staged.stdout@);
    let a = check_repo_status(status)?;
    let b = check_untracked_files(untracked)?;
    let c = check_stale_branches(branches)?;
    let d = check_repo_size(size)?;
    let e = check_uncommitted_changes(staged)?;
    let ghost checks = seq![a@, b@, c@, d@, e@];
    output.push(a);
    output.push(b);
    output.push(c);
    output.push(d);
    output.push(e);
    output.push(String::new());
    let last = styled_bold("Health check complete!");
    let ghost lastv = last@;
    output.push(last);
    assert(output.deep_view() =~= heading + (checks + seq![Seq::<char>::empty(), lastv]));
    let t = join_of(&output, "\n");
    assert(is_bold_of(h1v, "Repository Health Check"@) && is_bold_of(h2v, "========================="@));
    assert(health_report(heading, with_closing(checks, lastv), t@));
    assert(checks[0] == a@ && checks[1] == b@ && checks[2] == c@ && checks[3] == d@ && checks[4] == e@);
    assert(checked_report(st, un, br, sz, sg, t@));
    Ok(t)
}

} // verus!
