//! The bisect workflow as git-x reports it: starting a session, marking
//! commits good, bad or untestable, resetting, and the session's status.
use vstd::prelude::*;
use crate::base::git::{ProcessOutput, strings, push_str_arg};
use crate::base::output::{
    fg_cyan, fg_green, fg_red, fg_yellow, is_bold_of, sgr_bold, sgr_dim, styled_as, styled_bold, styled_cyan, styled_dim, styled_green, styled_green_bold, styled_red,
    styled_red_bold, styled_yellow, styled_yellow_bold,
};
use crate::base::text::{contains, decimal, decimal_of, join, join_of, lines, lines_of, owned, str_contains, trim, trim_str, words, words_of};
use crate::{GitXError, Result, is_git_error};

verus! {

/// Each piece `ps[i]` is a rendering of the text `ts[i]` in the style
/// `ss[i]`.
pub open spec fn renders(ps: Seq<Seq<char>>, ss: Seq<Seq<char>>, ts: Seq<Seq<char>>) -> bool {
    ps.len() == ts.len() && ss.len() == ts.len() && forall|i: int|
        0 <= i < ps.len() ==> styled_as(#[trigger] ps[i], ss[i], ts[i])
}

/// Each piece `ps[i]` is a rendering of the text `ts[i]` in the one style
/// `style`.
pub open spec fn renders_in(ps: Seq<Seq<char>>, style: Seq<char>, ts: Seq<Seq<char>>) -> bool {
    ps.len() == ts.len() && forall|i: int| 0 <= i < ps.len() ==> styled_as(#[trigger] ps[i], style, ts[i])
}

/// `text` in bold, as a styled piece.
fn bold_piece(text: &str) -> (r: String)
    ensures
        styled_as(r@, sgr_bold(), text@),
{
    styled_bold(text)
}

// ---------------------------------------------------------------------------
// Session state and git's answers
// ---------------------------------------------------------------------------

/// The file whose presence marks a bisect session: `BISECT_START` in the
/// git directory that `git rev-parse --git-dir` printed.
pub fn bisect_start_path(git_dir_output: &str) -> (r: String)
    ensures
        r@ == trim(git_dir_output@) + "/BISECT_START"@,
{
    let mut r = trim_str(git_dir_output);
    r.append("/BISECT_START");
    r
}

/// Whether a bisect session is on: the git directory was found (its
/// `rev-parse` succeeded) and its `BISECT_START` exists.
pub fn is_bisecting(git_dir_found: bool, start_exists: bool) -> (r: Result<bool>)
    ensures
        r == Ok::<bool, GitXError>(git_dir_found && start_exists),
{
    Ok(git_dir_found && start_exists)
}

/// A session must be on.
pub fn ensure_bisecting(bisecting: Result<bool>) -> (r: Result<()>)
    ensures
        match bisecting {
            Err(e) => r == Err::<(), GitXError>(e),
            Ok(true) => r is Ok,
            Ok(false) => is_git_error(r, "Not currently in bisect mode. Use 'git x bisect start <good> <bad>' first."@),
        },
{
    match bisecting {
        Err(e) => Err(e),
        Ok(true) => Ok(()),
        Ok(false) => Err(
            GitXError::GitCommand(
                String::from_str("Not currently in bisect mode. Use 'git x bisect start <good> <bad>' first."),
            ),
        ),
    }
}

/// The commit must exist, from the success of its `rev-parse --verify`.
pub fn validate_commit_exists(commit: &str, found: bool) -> (r: Result<()>)
    ensures
        found ==> r is Ok,
        !found ==> is_git_error(r, "Commit '"@ + commit@ + "' does not exist"@),
{
    if found {
        Ok(())
    } else {
        let mut m = String::from_str("Commit '");
        m.append(commit);
        m.append("' does not exist");
        Err(GitXError::GitCommand(m))
    }
}

/// The current commit's hash and subject, from `git log -1
/// --pretty=format:%h %s`.
pub fn get_current_commit_info(output: ProcessOutput) -> (r: Result<String>)
    ensures
        output.success ==> (r matches Ok(s) && s@ == trim(output.stdout@)),
        !output.success ==> is_git_error(r, "Failed to get current commit info"@),
{
    if !output.success {
        return Err(GitXError::GitCommand(String::from_str("Failed to get current commit info")));
    }
    Ok(trim_str(output.stdout.as_str()))
}

/// The remaining steps as text: `steps` when `git bisect view` succeeded
/// (the caller computes them as the ceiling of the base-2 logarithm of the
/// number of commits listed), else "unknown".
pub fn get_remaining_steps(view_succeeded: bool, steps: usize) -> (r: Result<String>)
    ensures
        view_succeeded ==> (r matches Ok(s) && s@ == decimal(steps as nat)),
        !view_succeeded ==> (r matches Ok(s) && s@ == "unknown"@),
{
    if view_succeeded {
        Ok(decimal_of(steps as u64))
    } else {
        Ok(String::from_str("unknown"))
    }
}

/// The bisect log, from `git bisect log`.
pub fn get_bisect_log(output: ProcessOutput) -> (r: Result<String>)
    ensures
        output.success ==> (r matches Ok(s) && s@ == output.stdout@),
        !output.success ==> is_git_error(r, "Failed to get bisect log"@),
{
    if !output.success {
        return Err(GitXError::GitCommand(String::from_str("Failed to get bisect log")));
    }
    Ok(owned(output.stdout.as_str()))
}

/// The first line of `ls` that announces the first bad commit, if any.
pub open spec fn first_bad_line(ls: Seq<Seq<char>>) -> Option<Seq<char>>
    decreases ls.len(),
{
    if ls.len() == 0 {
        None
    } else if contains(ls[0], "is the first bad commit"@) && words(ls[0]).len() > 0 {
        Some(words(ls[0])[0])
    } else {
        first_bad_line(ls.drop_first())
    }
}

/// The result line of a finished bisect: the first bad commit's hash (from
/// the first line announcing it), or "Bisect completed".
pub open spec fn bisect_result(output: Seq<char>, r: Seq<char>) -> bool {
    match first_bad_line(lines(output)) {
        Some(h) => exists|p0: Seq<char>, p1: Seq<char>|
            styled_as(p0, sgr_bold(), "🎯"@) && styled_as(p1, fg_red() + sgr_bold(), h) && r == p0
                + " First bad commit: "@ + p1,
        None => r == "Bisect completed"@,
    }
}

/// The result line of a finished bisect (see `bisect_result`).
pub fn parse_bisect_result(output: &str) -> (r: String)
    ensures
        bisect_result(output@, r@),
{
    let ls = lines_of(output);
    let mut i: usize = 0;
    assert(ls.deep_view().skip(0) =~= ls.deep_view());
    while i < ls.len()
        invariant
            i <= ls.len(),
            first_bad_line(ls.deep_view()) == first_bad_line(ls.deep_view().skip(i as int)),
            ls.deep_view() == lines(output@),
        decreases ls.len() - i,
    {
        let ghost rest = ls.deep_view().skip(i as int);
        proof {
            assert(rest[0] == ls@[i as int]@);
            assert(rest.drop_first() =~= ls.deep_view().skip(i + 1));
        }
        if str_contains(ls[i].as_str(), "is the first bad commit") {
            let w = words_of(ls[i].as_str());
            if w.len() > 0 {
                assert(w.deep_view()[0] == w@[0]@);
                let p0 = bold_piece("🎯");
                let p1 = styled_red_bold(w[0].as_str());
                let mut r = owned(p0.as_str());
                r.append(" First bad commit: ");
                r.append(p1.as_str());
                return r;
            }
        }
        i = i + 1;
    }
    assert(ls.deep_view().skip(i as int).len() == 0);
    String::from_str("Bisect completed")
}

// ---------------------------------------------------------------------------
// Starting
// ---------------------------------------------------------------------------

/// The checks before a bisect session starts: none may be on, and both
/// commits must exist (the good one checked first).
pub fn start_bisect(good: &str, bad: &str, bisecting: Result<bool>, good_found: bool, bad_found: bool) -> (r: Result<()>)
    ensures
        match bisecting {
            Err(e) => r == Err::<(), GitXError>(e),
            Ok(true) => is_git_error(r, "Already in bisect mode. Use 'git x bisect reset' to exit first."@),
            Ok(false) => if !good_found {
                is_git_error(r, "Commit '"@ + good@ + "' does not exist"@)
            } else if !bad_found {
                is_git_error(r, "Commit '"@ + bad@ + "' does not exist"@)
            } else {
                r is Ok
            },
        },
{
    match bisecting {
        Err(e) => return Err(e),
        Ok(true) => {
            return Err(
                GitXError::GitCommand(String::from_str("Already in bisect mode. Use 'git x bisect reset' to exit first.")),
            );
        },
        Ok(false) => {},
    }
    validate_commit_exists(good, good_found)?;
    validate_commit_exists(bad, bad_found)
}

/// The arguments that start the session: `git bisect start <bad> <good>`.
pub fn start_args(good: &str, bad: &str) -> (r: Vec<String>)
    ensures
        r.deep_view() == seq!["bisect"@, "start"@, bad@, good@],
{
    let mut r = strings(&["bisect", "start"]);
    push_str_arg(&mut r, bad);
    push_str_arg(&mut r, good);
    assert(r.deep_view() =~= seq!["bisect"@, "start"@, bad@, good@]);
    r
}

/// The lines of a started session from its styled pieces.
pub open spec fn start_lines(ps: Seq<Seq<char>>) -> Seq<Seq<char>> {
    seq![
        ps[0] + " Starting bisect between "@ + ps[1] + " (good) and "@ + ps[2] + " (bad)"@,
        ps[3] + " Checked out commit: "@ + ps[4],
        ps[5] + " Approximately "@ + ps[6] + " steps remaining"@,
        "\n"@ + ps[7] + " Test this commit and run:"@,
        "  "@ + ps[8] + " if commit is good"@,
        "  "@ + ps[9] + " if commit is bad"@,
        "  "@ + ps[10] + " if commit is untestable"@,
    ]
}

/// The texts the pieces of a started session render.
pub open spec fn start_texts(good: Seq<char>, bad: Seq<char>, commit: Seq<char>, remaining: Seq<char>) -> Seq<Seq<char>> {
    seq![
        "🔍"@,
        good,
        bad,
        "📍"@,
        commit,
        "⏳"@,
        remaining,
        "💡"@,
        "git x bisect good"@,
        "git x bisect bad"@,
        "git x bisect skip"@,
    ]
}

/// The styles of the pieces of a started session.
pub open spec fn start_styles() -> Seq<Seq<char>> {
    seq![
        sgr_bold(),
        fg_green() + sgr_bold(),
        fg_red() + sgr_bold(),
        sgr_bold(),
        fg_cyan(),
        sgr_bold(),
        fg_yellow() + sgr_bold(),
        sgr_bold(),
        fg_green(),
        fg_red(),
        fg_yellow(),
    ]
}

/// The report after starting the session, from the answers of `git bisect
/// start`, then of the current commit and of the remaining steps.
pub fn start_report(
    good: &str,
    bad: &str,
    started: ProcessOutput,
    commit: Result<String>,
    remaining: Result<String>,
) -> (r: Result<String>)
    ensures
        !started.success ==> is_git_error(r, "Failed to start bisect: "@ + trim(started.stderr@)),
        started.success ==> match commit {
            Err(e) => r == Err::<String, GitXError>(e),
            Ok(c) => match remaining {
                Err(e) => r == Err::<String, GitXError>(e),
                Ok(n) => r matches Ok(t) && exists|ps: Seq<Seq<char>>|
                    renders(ps, start_styles(), start_texts(good@, bad@, c@, n@)) && t@ == join(start_lines(ps), "\n"@),
            },
        },
{
    let p0 = bold_piece("🔍");
    let p1 = styled_green_bold(good);
    let p2 = styled_red_bold(bad);
    if !started.success {
        let mut m = String::from_str("Failed to start bisect: ");
        let e = trim_str(started.stderr.as_str());
        m.append(e.as_str());
        return Err(GitXError::GitCommand(m));
    }
    let c = match commit {
        Err(e) => return Err(e),
        Ok(c) => c,
    };
    let p3 = bold_piece("📍");
    let p4 = styled_cyan(c.as_str());
    let n = match remaining {
        Err(e) => return Err(e),
        Ok(n) => n,
    };
    let p5 = bold_piece("⏳");
    let p6 = styled_yellow_bold(n.as_str());
    let p7 = bold_piece("💡");
    let p8 = styled_green("git x bisect good");
    let p9 = styled_red("git x bisect bad");
    let p10 = styled_yellow("git x bisect skip");
    let ghost ps = seq![p0@, p1@, p2@, p3@, p4@, p5@, p6@, p7@, p8@, p9@, p10@];
    let mut out: Vec<String> = Vec::new();
    let mut l0 = owned(p0.as_str());
    l0.append(" Starting bisect between ");
    l0.append(p1.as_str());
    l0.append(" (good) and ");
    l0.append(p2.as_str());
    l0.append(" (bad)");
    out.push(l0);
    let mut l1 = owned(p3.as_str());
    l1.append(" Checked out commit: ");
    l1.append(p4.as_str());
    out.push(l1);
    let mut l2 = owned(p5.as_str());
    l2.append(" Approximately ");
    l2.append(p6.as_str());
    l2.append(" steps remaining");
    out.push(l2);
    let mut l3 = String::from_str("\n");
    l3.append(p7.as_str());
    l3.append(" Test this commit and run:");
    out.push(l3);
    let mut l4 = String::from_str("  ");
    l4.append(p8.as_str());
    l4.append(" if commit is good");
    out.push(l4);
    let mut l5 = String::from_str("  ");
    l5.append(p9.as_str());
    l5.append(" if commit is bad");
    out.push(l5);
    let mut l6 = String::from_str("  ");
    l6.append(p10.as_str());
    l6.append(" if commit is untestable");
    out.push(l6);
    proof {
        assert(renders(ps, start_styles(), start_texts(good@, bad@, c@, n@)));
        assert(out.deep_view() =~= start_lines(ps));
    }
    Ok(join_of(&out, "\n"))
}

// ---------------------------------------------------------------------------
// Marking commits
// ---------------------------------------------------------------------------

/// The report of marking the current commit: `mark` names the mark and
/// `icon` its symbol; once git found the first bad commit, the result and a
/// hint to reset; otherwise the next commit and the remaining steps.
pub open spec fn mark_lines(
    first_line: Seq<char>,
    stdout: Seq<char>,
    result: Seq<char>,
    ps: Seq<Seq<char>>,
) -> Seq<Seq<char>> {
    if contains(stdout, "is the first bad commit"@) {
        seq![
            first_line,
            "\n"@ + ps[0] + " Found the first bad commit!"@,
            result,
            "\n"@ + ps[1] + " Run "@ + ps[2] + " to return to your original branch"@,
        ]
    } else {
        seq![first_line, ps[0] + " Checked out commit: "@ + ps[1], ps[2] + " Approximately "@ + ps[3] + " steps remaining"@]
    }
}

/// The texts the pieces of `mark_lines` render.
pub open spec fn mark_texts(stdout: Seq<char>, next: Seq<char>, remaining: Seq<char>) -> Seq<Seq<char>> {
    if contains(stdout, "is the first bad commit"@) {
        seq!["🎯"@, "💡"@, "git x bisect reset"@]
    } else {
        seq!["📍"@, next, "⏳"@, remaining]
    }
}

/// The styles of the pieces of `mark_lines`.
pub open spec fn mark_styles(stdout: Seq<char>) -> Seq<Seq<char>> {
    if contains(stdout, "is the first bad commit"@) {
        seq![sgr_bold(), sgr_bold(), fg_cyan()]
    } else {
        seq![sgr_bold(), fg_cyan(), sgr_bold(), fg_yellow() + sgr_bold()]
    }
}

/// What marking the current commit `word` (good, bad) reports, from the
/// current commit read before, the answer of `git bisect <word>`, and the
/// next commit and remaining steps read after it (when git did not finish).
pub open spec fn mark_report(
    verb: Seq<char>,
    icon: Seq<char>,
    color: Seq<char>,
    current: Result<String>,
    marked: ProcessOutput,
    next: Result<String>,
    remaining: Result<String>,
    r: Result<String>,
) -> bool {
    match current {
        Err(e) => r == Err::<String, GitXError>(e),
        Ok(c) => if !marked.success {
            is_git_error(r, "Failed to mark commit as "@ + verb + ": "@ + trim(marked.stderr@))
        } else if contains(marked.stdout@, "is the first bad commit"@) {
            r matches Ok(t) && exists|h: Seq<Seq<char>>, res: Seq<char>, ps: Seq<Seq<char>>|
                renders(h, seq![sgr_bold(), color], seq![icon, c@]) && bisect_result(marked.stdout@, res) && renders(
                    ps,
                    mark_styles(marked.stdout@),
                    mark_texts(marked.stdout@, Seq::empty(), Seq::empty()),
                ) && t@ == join(
                    mark_lines(h[0] + " Marked "@ + h[1] + " as "@ + verb, marked.stdout@, res, ps),
                    "\n"@,
                )
        } else {
            match next {
                Err(e) => r == Err::<String, GitXError>(e),
                Ok(n) => match remaining {
                    Err(e) => r == Err::<String, GitXError>(e),
                    Ok(m) => r matches Ok(t) && exists|h: Seq<Seq<char>>, ps: Seq<Seq<char>>|
                        renders(h, seq![sgr_bold(), color], seq![icon, c@]) && renders(ps, mark_styles(marked.stdout@), mark_texts(marked.stdout@, n@, m@)) && t@ == join(
                            mark_lines(h[0] + " Marked "@ + h[1] + " as "@ + verb, marked.stdout@, Seq::empty(), ps),
                            "\n"@,
                        ),
                },
            }
        },
    }
}

/// Marks the current commit good or bad (see `mark_report`).
fn mark(
    good: bool,
    current: Result<String>,
    marked: ProcessOutput,
    next: Result<String>,
    remaining: Result<String>,
) -> (r: Result<String>)
    ensures
        good ==> mark_report("good"@, "✅"@, fg_green(), current, marked, next, remaining, r),
        !good ==> mark_report("bad"@, "❌"@, fg_red(), current, marked, next, remaining, r),
{
    let c = match current {
        Err(e) => return Err(e),
        Ok(c) => c,
    };
    let verb = if good { "good" } else { "bad" };
    let icon = if good { "✅" } else { "❌" };
    let h0 = bold_piece(icon);
    let h1 = if good { styled_green(c.as_str()) } else { styled_red(c.as_str()) };
    let ghost h = seq![h0@, h1@];
    let mut first = owned(h0.as_str());
    first.append(" Marked ");
    first.append(h1.as_str());
    first.append(" as ");
    first.append(verb);
    if !marked.success {
        let mut m = String::from_str("Failed to mark commit as ");
        m.append(verb);
        m.append(": ");
        let e = trim_str(marked.stderr.as_str());
        m.append(e.as_str());
        return Err(GitXError::GitCommand(m));
    }
    let mut out: Vec<String> = Vec::new();
    let ghost fl = first@;
    out.push(first);
    if str_contains(marked.stdout.as_str(), "is the first bad commit") {
        let p0 = bold_piece("🎯");
        let mut l1 = String::from_str("\n");
        l1.append(p0.as_str());
        l1.append(" Found the first bad commit!");
        out.push(l1);
        let res = parse_bisect_result(marked.stdout.as_str());
        let ghost rv = res@;
        out.push(res);
        let p1 = bold_piece("💡");
        let p2 = styled_cyan("git x bisect reset");
        let mut l3 = String::from_str("\n");
        l3.append(p1.as_str());
        l3.append(" Run ");
        l3.append(p2.as_str());
        l3.append(" to return to your original branch");
        out.push(l3);
        proof {
            let ps = seq![p0@, p1@, p2@];
            assert(renders(h, seq![sgr_bold(), if good { fg_green() } else { fg_red() }], seq![icon@, c@]));
            assert(renders(ps, mark_styles(marked.stdout@), mark_texts(marked.stdout@, Seq::empty(), Seq::empty())));
            assert(out.deep_view() =~= mark_lines(fl, marked.stdout@, rv, ps));
        }
        return Ok(join_of(&out, "\n"));
    }
    let n = match next {
        Err(e) => return Err(e),
        Ok(n) => n,
    };
    let m = match remaining {
        Err(e) => return Err(e),
        Ok(m) => m,
    };
    let p0 = bold_piece("📍");
    let p1 = styled_cyan(n.as_str());
    let p2 = bold_piece("⏳");
    let p3 = styled_yellow_bold(m.as_str());
    let mut l1 = owned(p0.as_str());
    l1.append(" Checked out commit: ");
    l1.append(p1.as_str());
    out.push(l1);
    let mut l2 = owned(p2.as_str());
    l2.append(" Approximately ");
    l2.append(p3.as_str());
    l2.append(" steps remaining");
    out.push(l2);
    proof {
        let ps = seq![p0@, p1@, p2@, p3@];
        assert(renders(h, seq![sgr_bold(), if good { fg_green() } else { fg_red() }], seq![icon@, c@]));
        assert(renders(ps, mark_styles(marked.stdout@), mark_texts(marked.stdout@, n@, m@)));
        assert(out.deep_view() =~= mark_lines(fl, marked.stdout@, Seq::empty(), ps));
    }
    Ok(join_of(&out, "\n"))
}

/// Marks the current commit good (see `mark_report`).
pub fn mark_good(current: Result<String>, marked: ProcessOutput, next: Result<String>, remaining: Result<String>) -> (r: Result<String>)
    ensures
        mark_report("good"@, "✅"@, fg_green(), current, marked, next, remaining, r),
{
    mark(true, current, marked, next, remaining)
}

/// Marks the current commit bad (see `mark_report`).
pub fn mark_bad(current: Result<String>, marked: ProcessOutput, next: Result<String>, remaining: Result<String>) -> (r: Result<String>)
    ensures
        mark_report("bad"@, "❌"@, fg_red(), current, marked, next, remaining, r),
{
    mark(false, current, marked, next, remaining)
}

/// The styles of the pieces of a skip's report.
pub open spec fn skip_styles() -> Seq<Seq<char>> {
    seq![sgr_bold(), fg_yellow(), sgr_bold(), fg_cyan(), sgr_bold(), fg_yellow() + sgr_bold()]
}

/// The report of skipping the current commit, from the current commit read
/// before, the answer of `git bisect skip`, and the next commit and the
/// remaining steps read after it.
pub fn skip_commit(current: Result<String>, skipped: ProcessOutput, next: Result<String>, remaining: Result<String>) -> (r: Result<String>)
    ensures
        match current {
            Err(e) => r == Err::<String, GitXError>(e),
            Ok(c) => if !skipped.success {
                is_git_error(r, "Failed to skip commit: "@ + trim(skipped.stderr@))
            } else {
                match next {
                    Err(e) => r == Err::<String, GitXError>(e),
                    Ok(n) => match remaining {
                        Err(e) => r == Err::<String, GitXError>(e),
                        Ok(m) => r matches Ok(t) && exists|ps: Seq<Seq<char>>|
                            renders(ps, skip_styles(), seq!["⏭️"@, c@, "📍"@, n@, "⏳"@, m@]) && t@ == join(
                                seq![
                                    ps[0] + " Skipped "@ + ps[1] + " (untestable)"@,
                                    ps[2] + " Checked out commit: "@ + ps[3],
                                    ps[4] + " Approximately "@ + ps[5] + " steps remaining"@,
                                ],
                                "\n"@,
                            ),
                    },
                }
            },
        },
{
    let c = match current {
        Err(e) => return Err(e),
        Ok(c) => c,
    };
    let p0 = bold_piece("⏭️");
    let p1 = styled_yellow(c.as_str());
    if !skipped.success {
        let mut m = String::from_str("Failed to skip commit: ");
        let e = trim_str(skipped.stderr.as_str());
        m.append(e.as_str());
        return Err(GitXError::GitCommand(m));
    }
    let n = match next {
        Err(e) => return Err(e),
        Ok(n) => n,
    };
    let m = match remaining {
        Err(e) => return Err(e),
        Ok(m) => m,
    };
    let p2 = bold_piece("📍");
    let p3 = styled_cyan(n.as_str());
    let p4 = bold_piece("⏳");
    let p5 = styled_yellow_bold(m.as_str());
    let mut out: Vec<String> = Vec::new();
    let mut l0 = owned(p0.as_str());
    l0.append(" Skipped ");
    l0.append(p1.as_str());
    l0.append(" (untestable)");
    out.push(l0);
    let mut l1 = owned(p2.as_str());
    l1.append(" Checked out commit: ");
    l1.append(p3.as_str());
    out.push(l1);
    let mut l2 = owned(p4.as_str());
    l2.append(" Approximately ");
    l2.append(p5.as_str());
    l2.append(" steps remaining");
    out.push(l2);
    proof {
        let ps = seq![p0@, p1@, p2@, p3@, p4@, p5@];
        assert(renders(ps, skip_styles(), seq!["⏭️"@, c@, "📍"@, n@, "⏳"@, m@]));
        assert(out.deep_view() =~= seq![
            ps[0] + " Skipped "@ + ps[1] + " (untestable)"@,
            ps[2] + " Checked out commit: "@ + ps[3],
            ps[4] + " Approximately "@ + ps[5] + " steps remaining"@,
        ]);
    }
    Ok(join_of(&out, "\n"))
}

/// The report of ending the session: when none is on, a note; otherwise the
/// answer of `git bisect reset` decides.
pub fn reset_bisect(bisecting: Result<bool>, reset: ProcessOutput) -> (r: Result<String>)
    ensures
        match bisecting {
            Err(e) => r == Err::<String, GitXError>(e),
            Ok(false) => r matches Ok(t) && exists|p: Seq<char>|
                is_bold_of(p, "ℹ️"@) && t@ == p + " Not currently in bisect mode"@,
            Ok(true) => if !reset.success {
                is_git_error(r, "Failed to reset bisect: "@ + trim(reset.stderr@))
            } else {
                r matches Ok(t) && exists|p: Seq<char>|
                    is_bold_of(p, "🏁"@) && t@ == p + " Bisect session ended, returned to original branch"@
            },
        },
{
    match bisecting {
        Err(e) => return Err(e),
        Ok(false) => {
            let mut t = styled_bold("ℹ️");
            t.append(" Not currently in bisect mode");
            return Ok(t);
        },
        Ok(true) => {},
    }
    if !reset.success {
        let mut m = String::from_str("Failed to reset bisect: ");
        let e = trim_str(reset.stderr.as_str());
        m.append(e.as_str());
        return Err(GitXError::GitCommand(m));
    }
    let mut t = styled_bold("🏁");
    t.append(" Bisect session ended, returned to original branch");
    Ok(t)
}

// ---------------------------------------------------------------------------
// Status
// ---------------------------------------------------------------------------

/// The non-blank lines among the first five of the log, trimmed.
pub open spec fn log_entries(ls: Seq<Seq<char>>) -> Seq<Seq<char>>
    decreases ls.len(),
{
    if ls.len() == 0 {
        Seq::empty()
    } else {
        let rest = log_entries(ls.drop_last());
        if trim(ls.last()).len() > 0 {
            rest.push(trim(ls.last()))
        } else {
            rest
        }
    }
}

/// The five first lines of `s`, at most.
pub open spec fn first_five(ls: Seq<Seq<char>>) -> Seq<Seq<char>> {
    ls.take(if ls.len() < 5 { ls.len() as int } else { 5 })
}

/// The lines of the status report, from its styled pieces (`ps`) and the
/// rendered log entries (`es`, absent when the log could not be read).
pub open spec fn status_lines(ps: Seq<Seq<char>>, es: Option<Seq<Seq<char>>>) -> Seq<Seq<char>> {
    seq![ps[0] + " Bisect Status"@, ps[1] + " Current commit: "@ + ps[2], ps[3] + " Approximately "@ + ps[4] + " steps remaining"@]
        + (match es {
        Some(e) => seq!["\n"@ + ps[5] + " Bisect log:"@] + e.map_values(|x: Seq<char>| "  "@ + x),
        None => Seq::empty(),
    }) + seq![
        "\n"@ + ps[6] + " Available commands:"@,
        "  "@ + ps[7] + " - Mark current commit as good"@,
        "  "@ + ps[8] + " - Mark current commit as bad"@,
        "  "@ + ps[9] + " - Skip current commit"@,
        "  "@ + ps[10] + " - End bisect session"@,
    ]
}

/// The styles of the pieces of the status report.
pub open spec fn status_styles() -> Seq<Seq<char>> {
    seq![
        sgr_bold(),
        sgr_bold(),
        fg_cyan(),
        sgr_bold(),
        fg_yellow() + sgr_bold(),
        sgr_bold(),
        sgr_bold(),
        fg_green(),
        fg_red(),
        fg_yellow(),
        fg_cyan(),
    ]
}

/// The status of the session, from whether one is on, the current commit,
/// the remaining steps and the bisect log (its first five lines shown, blank
/// ones left out; a failed read leaves the section out).
pub fn show_status(bisecting: Result<bool>, commit: Result<String>, remaining: Result<String>, log: Result<String>) -> (r: Result<String>)
    ensures
        match bisecting {
            Err(e) => r == Err::<String, GitXError>(e),
            Ok(false) => r matches Ok(t) && exists|p: Seq<char>|
                is_bold_of(p, "ℹ️"@) && t@ == p + " Not currently in bisect mode"@,
            Ok(true) => match commit {
                Err(e) => r == Err::<String, GitXError>(e),
                Ok(c) => match remaining {
                    Err(e) => r == Err::<String, GitXError>(e),
                    Ok(m) => r matches Ok(t) && exists|ps: Seq<Seq<char>>, es: Option<Seq<Seq<char>>>|
                        renders(
                            ps,
                            status_styles(),
                            seq![
                                "📊"@,
                                "📍"@,
                                c@,
                                "⏳"@,
                                m@,
                                "📝"@,
                                "💡"@,
                                "git x bisect good"@,
                                "git x bisect bad"@,
                                "git x bisect skip"@,
                                "git x bisect reset"@,
                            ],
                        ) && (match log {
                            Ok(l) => es matches Some(e) && renders_in(e, sgr_dim(), log_entries(first_five(lines(l@)))),
                            Err(_) => es is None,
                        }) && t@ == join(status_lines(ps, es), "\n"@),
                },
            },
        },
{
    match bisecting {
        Err(e) => return Err(e),
        Ok(false) => {
            let mut t = styled_bold("ℹ️");
            t.append(" Not currently in bisect mode");
            return Ok(t);
        },
        Ok(true) => {},
    }
    let p0 = bold_piece("📊");
    let c = match commit {
        Err(e) => return Err(e),
        Ok(c) => c,
    };
    let p1 = bold_piece("📍");
    let p2 = styled_cyan(c.as_str());
    let m = match remaining {
        Err(e) => return Err(e),
        Ok(m) => m,
    };
    let p3 = bold_piece("⏳");
    let p4 = styled_yellow_bold(m.as_str());
    let mut out: Vec<String> = Vec::new();
    let mut l = owned(p0.as_str());
    l.append(" Bisect Status");
    out.push(l);
    let mut l = owned(p1.as_str());
    l.append(" Current commit: ");
    l.append(p2.as_str());
    out.push(l);
    let mut l = owned(p3.as_str());
    l.append(" Approximately ");
    l.append(p4.as_str());
    l.append(" steps remaining");
    out.push(l);
    let ghost top = out.deep_view();
    assert(top =~= seq![p0@ + " Bisect Status"@, p1@ + " Current commit: "@ + p2@, p3@ + " Approximately "@ + p4@ + " steps remaining"@]);
    let p5 = bold_piece("📝");
    let ghost es: Option<Seq<Seq<char>>>;
    match &log {
        Ok(lg) => {
            let mut h = String::from_str("\n");
            h.append(p5.as_str());
            h.append(" Bisect log:");
            out.push(h);
            let ls = lines_of(lg.as_str());
            let n = if ls.len() < 5 { ls.len() } else { 5 };
            let ghost mid = out.deep_view();
            let ghost mut pieces: Seq<Seq<char>> = Seq::empty();
            for i in 0..n
                invariant
                    n <= ls.len(),
                    n == if ls.len() < 5 { ls.len() } else { 5 },
                    renders_in(pieces, sgr_dim(), log_entries(ls.deep_view().take(i as int))),
                    out.deep_view() == mid + pieces.map_values(|x: Seq<char>| "  "@ + x),
            {
                proof {
                    assert(ls.deep_view().take(i + 1).drop_last() =~= ls.deep_view().take(i as int));
                    assert(ls.deep_view()[i as int] == ls@[i as int]@);
                }
                let t = trim_str(ls[i].as_str());
                if !t.as_str().is_empty() {
                    let d = styled_dim(t.as_str());
                    let mut e = String::from_str("  ");
                    e.append(d.as_str());
                    let ghost before = out.deep_view();
                    let ghost old_pieces = pieces;
                    out.push(e);
                    proof {
                        pieces = pieces.push(d@);
                        assert(out.deep_view() =~= before.push("  "@ + d@));
                        assert(pieces.map_values(|x: Seq<char>| "  "@ + x) =~= old_pieces.map_values(
                            |x: Seq<char>| "  "@ + x,
                        ).push("  "@ + d@));
                        assert(renders_in(pieces, sgr_dim(), log_entries(ls.deep_view().take(i + 1))));
                    }
                }
            }
            proof {
                assert(ls.deep_view().take(n as int) =~= first_five(lines(lg@)));
                es = Some(pieces);
                assert(out.deep_view() =~= top + seq!["\n"@ + p5@ + " Bisect log:"@] + pieces.map_values(
                    |x: Seq<char>| "  "@ + x,
                ));
            }
        },
        Err(_) => {
            proof {
                es = None;
                assert(out.deep_view() =~= top);
            }
        },
    }
    assert(out.deep_view() =~= top + match es {
        Some(e) => seq!["\n"@ + p5@ + " Bisect log:"@] + e.map_values(|x: Seq<char>| "  "@ + x),
        None => Seq::empty(),
    });
    let p6 = bold_piece("💡");
    let p7 = styled_green("git x bisect good");
    let p8 = styled_red("git x bisect bad");
    let p9 = styled_yellow("git x bisect skip");
    let p10 = styled_cyan("git x bisect reset");
    let ghost body = out.deep_view();
    let mut l = String::from_str("\n");
    l.append(p6.as_str());
    l.append(" Available commands:");
    out.push(l);
    let mut l = String::from_str("  ");
    l.append(p7.as_str());
    l.append(" - Mark current commit as good");
    out.push(l);
    let mut l = String::from_str("  ");
    l.append(p8.as_str());
    l.append(" - Mark current commit as bad");
    out.push(l);
    let mut l = String::from_str("  ");
    l.append(p9.as_str());
    l.append(" - Skip current commit");
    out.push(l);
    let mut l = String::from_str("  ");
    l.append(p10.as_str());
    l.append(" - End bisect session");
    out.push(l);
    proof {
        let ps = seq![p0@, p1@, p2@, p3@, p4@, p5@, p6@, p7@, p8@, p9@, p10@];
        assert(renders(
            ps,
            status_styles(),
            seq![
                "📊"@,
                "📍"@,
                c@,
                "⏳"@,
                m@,
                "📝"@,
                "💡"@,
                "git x bisect good"@,
                "git x bisect bad"@,
                "git x bisect skip"@,
                "git x bisect reset"@,
            ],
        ));
        assert(out.deep_view() =~= status_lines(ps, es));
    }
    Ok(join_of(&out, "\n"))
}

} // verus!
