//! What git-x asks git, and how it reads git's answers.
//!
//! Each operation is split in two: the argument list handed to `git`
//! (the `*_args` functions and the operations that only run a command), and
//! the reading of what `git` printed. Running the process is left to the
//! caller, who hands the finished command's output back here.
use vstd::prelude::*;
use crate::base::text::{
    decimal_of, has_prefix, join, join_of, lines, lines_of, owned, parse_u32, parse_u32_of,
    starts_with, str_eq, string_of, chars_of, strip_prefixes, trim, trim_str, words, words_of,
    lemma_skip_first, contains, str_contains, decimal,
};
use crate::{GitXError, Result, is_git_error};

verus! {

/// What a finished `git` process left behind: whether it succeeded and its
/// output streams (decoded as UTF-8, invalid sequences replaced).
pub struct ProcessOutput {
    pub success: bool,
    pub stdout: String,
    pub stderr: String,
}

/// A git argument list written as its views.
pub open spec fn args_view(v: Seq<String>) -> Seq<Seq<char>> {
    v.map_values(|s: String| s@)
}

/// One step of removing leading `"* "`.
pub proof fn lemma_strip_star_step(t: Seq<char>)
    ensures
        (t.len() >= 2 && t[0] == '*' && t[1] == ' ') ==> strip_prefixes(t, "* "@) == strip_prefixes(
            t.skip(2),
            "* "@,
        ),
        !(t.len() >= 2 && t[0] == '*' && t[1] == ' ') ==> strip_prefixes(t, "* "@) == t,
{
    reveal_strlit("* ");
    if t.len() >= 2 && t[0] == '*' && t[1] == ' ' {
        assert(t.take(2) =~= "* "@);
    } else if t.len() >= 2 {
        assert(!has_prefix(t, "* "@)) by {
            if t.take(2) == "* "@ {
                assert(t.take(2)[0] == '*');
                assert(t.take(2)[1] == ' ');
            }
        }
    }
}

/// `s` with every leading `"* "` removed (`trim_start_matches("* ")`).
pub fn strip_star_prefixes(s: &str) -> (r: String)
    ensures
        r@ == strip_prefixes(s@, "* "@),
{
    let v = chars_of(s);
    let n = v.len();
    let mut i: usize = 0;
    assert(v@.skip(0) =~= v@);
    while i < n && n - i >= 2 && v[i] == '*' && v[i + 1] == ' '
        invariant
            v@ == s@,
            n == v.len(),
            i <= n,
            strip_prefixes(s@, "* "@) == strip_prefixes(v@.skip(i as int), "* "@),
        decreases n - i,
    {
        proof {
            let t = v@.skip(i as int);
            lemma_strip_star_step(t);
            assert(t.skip(2) =~= v@.skip(i + 2));
        }
        i = i + 2;
    }
    proof {
        let t = v@.skip(i as int);
        lemma_strip_star_step(t);
        assert(t =~= v@.subrange(i as int, n as int));
    }
    string_of(&v, i, n)
}

/// One line of git output as git-x reads it: trimmed, and for branch
/// listings without the `* ` that marks the current branch.
pub open spec fn clean_line(l: Seq<char>, strip_star: bool) -> Seq<char> {
    if strip_star {
        strip_prefixes(trim(l), "* "@)
    } else {
        trim(l)
    }
}

/// The cleaned lines of `ls` that are not empty and differ from `exclude`.
pub open spec fn kept_lines(ls: Seq<Seq<char>>, strip_star: bool, exclude: Option<Seq<char>>) -> Seq<Seq<char>>
    decreases ls.len(),
{
    if ls.len() == 0 {
        Seq::empty()
    } else {
        let rest = kept_lines(ls.drop_last(), strip_star, exclude);
        let t = clean_line(ls.last(), strip_star);
        if t.len() > 0 && exclude != Some(t) {
            rest.push(t)
        } else {
            rest
        }
    }
}

/// No kept line is empty or excluded, and there are no more kept lines than
/// listed ones.
pub proof fn lemma_kept_lines(ls: Seq<Seq<char>>, strip_star: bool, exclude: Option<Seq<char>>)
    ensures
        kept_lines(ls, strip_star, exclude).len() <= ls.len(),
        forall|i: int|
            0 <= i < kept_lines(ls, strip_star, exclude).len() ==> (#[trigger] kept_lines(ls, strip_star, exclude)[i]).len()
                > 0 && exclude != Some(kept_lines(ls, strip_star, exclude)[i]),
    decreases ls.len(),
{
    if ls.len() > 0 {
        lemma_kept_lines(ls.drop_last(), strip_star, exclude);
    }
}

/// Recent branches: the branches listed, trimmed, without empty lines and
/// without the current branch, in their order (most recent first), and at
/// most `n` of them when limited to `n`.
pub proof fn law_recent_branches(ls: Seq<Seq<char>>, current: Seq<char>, limit: Option<usize>)
    ensures
        ({
            let k = kept_lines(ls, false, Some(current));
            let r = match limit {
                Some(n) => if n < k.len() {
                    k.take(n as int)
                } else {
                    k
                },
                None => k,
            };
            &&& !r.contains(current)
            &&& forall|i: int| 0 <= i < r.len() ==> #[trigger] r[i] == k[i] && r[i].len() > 0
            &&& limit matches Some(n) ==> r.len() <= n
        }),
{
    lemma_kept_lines(ls, false, Some(current));
    let k = kept_lines(ls, false, Some(current));
    let r = match limit {
        Some(n) => if n < k.len() {
            k.take(n as int)
        } else {
            k
        },
        None => k,
    };
    assert forall|i: int| 0 <= i < r.len() implies #[trigger] r[i] == k[i] && r[i].len() > 0 by {
        assert(k[i].len() > 0);
    }
    if r.contains(current) {
        let i = choose|i: int| 0 <= i < r.len() && r[i] == current;
        assert(r[i] == k[i]);
        assert(Some(current) != Some(k[i]));
    }
}

/// The names listed one per line in `output` (empty lines and `exclude` left out).
pub fn select_lines(output: &str, strip_star: bool, exclude: Option<&str>) -> (r: Vec<String>)
    ensures
        r.deep_view() == kept_lines(
            lines(output@),
            strip_star,
            match exclude {
                Some(e) => Some(e@),
                None => None,
            },
        ),
{
    let ls = lines_of(output);
    let ghost ex = match exclude {
        Some(e) => Some(e@),
        None => None::<Seq<char>>,
    };
    let mut out: Vec<String> = Vec::new();
    for i in 0..ls.len()
        invariant
            ls.deep_view() == lines(output@),
            ex == match exclude {
                Some(e) => Some(e@),
                None => None::<Seq<char>>,
            },
            out.deep_view() == kept_lines(ls.deep_view().take(i as int), strip_star, ex),
    {
        let t0 = trim_str(ls[i].as_str());
        let t = if strip_star { strip_star_prefixes(t0.as_str()) } else { t0 };
        let excluded = match exclude {
            Some(e) => str_eq(t.as_str(), e),
            None => false,
        };
        proof {
            let tk = ls.deep_view().take(i + 1);
            assert(tk.drop_last() =~= ls.deep_view().take(i as int));
            assert(tk.last() == ls.deep_view()[i as int]);
            assert(t@ == clean_line(ls.deep_view()[i as int], strip_star));
            assert(excluded == (ex == Some(t@)));
        }
        if !t.as_str().is_empty() && !excluded {
            let ghost old_out = out.deep_view();
            out.push(t);
            proof {
                assert(out.deep_view() =~= old_out.push(t@));
            }
        }
    }
    assert(ls.deep_view().take(ls.len() as int) =~= ls.deep_view());
    out
}

/// A count printed by git, read as `parse().unwrap_or(0)` reads it.
pub open spec fn count_or_zero(w: Seq<char>) -> nat {
    match parse_u32(w) {
        Some(n) => n,
        None => 0,
    }
}

/// The first two words of `output` read as counts, a missing word read as `0`.
pub open spec fn two_counts(output: Seq<char>) -> (nat, nat) {
    let ws = words(output);
    (
        if ws.len() > 0 { count_or_zero(ws[0]) } else { 0 },
        if ws.len() > 1 { count_or_zero(ws[1]) } else { 0 },
    )
}

/// A count word read as `parse().unwrap_or(0)`.
pub fn count_of(w: &str) -> (n: u32)
    ensures
        n as nat == count_or_zero(w@),
{
    match parse_u32_of(w) {
        Some(n) => n,
        None => 0,
    }
}

/// The first two whitespace-separated counts of `output` (missing or
/// unreadable counts are `0`).
pub fn read_two_counts(output: &str) -> (r: (u32, u32))
    ensures
        (r.0 as nat, r.1 as nat) == two_counts(output@),
{
    let ws = words_of(output);
    let a = if ws.len() > 0 { count_of(ws[0].as_str()) } else { 0 };
    let b = if ws.len() > 1 { count_of(ws[1].as_str()) } else { 0 };
    proof {
        if ws.len() > 0 {
            assert(ws.deep_view()[0] == ws@[0]@);
        }
        if ws.len() > 1 {
            assert(ws.deep_view()[1] == ws@[1]@);
        }
    }
    (a, b)
}

/// A vector of owned strings from literals.
pub fn strings(v: &[&str]) -> (r: Vec<String>)
    ensures
        r.deep_view() == v@.map_values(|s: &str| s@),
{
    let mut out: Vec<String> = Vec::new();
    for i in 0..v.len()
        invariant
            out.deep_view() == v@.take(i as int).map_values(|s: &str| s@),
    {
        let ghost old_out = out.deep_view();
        out.push(owned(v[i]));
        proof {
            assert(v@.take(i + 1).map_values(|s: &str| s@) =~= v@.take(i as int).map_values(
                |s: &str| s@,
            ).push(v@[i as int]@));
            assert(out.deep_view() =~= old_out.push(v@[i as int]@));
        }
    }
    assert(v@.take(v.len() as int) =~= v@);
    out
}

/// Appends an owned copy of `s` to `v`.
pub fn push_str_arg(v: &mut Vec<String>, s: &str)
    ensures
        final(v).deep_view() == old(v).deep_view().push(s@),
{
    let ghost old_v = v.deep_view();
    v.push(owned(s));
    assert(v.deep_view() =~= old_v.push(s@));
}

/// Core git operations abstraction
pub struct GitOperations;

impl GitOperations {
    /// The outcome of a finished git command: its trimmed standard output on
    /// success, else a git-command error holding its trimmed error output.
    pub fn run(output: ProcessOutput) -> (r: Result<String>)
        ensures
            output.success ==> (r matches Ok(s) && s@ == trim(output.stdout@)),
            !output.success ==> is_git_error(r, trim(output.stderr@)),
    {
        if output.success {
            Ok(trim_str(output.stdout.as_str()))
        } else {
            Err(GitXError::GitCommand(trim_str(output.stderr.as_str())))
        }
    }

    /// The outcome of a git command run for its exit status alone.
    pub fn run_status(args: &Vec<String>, success: bool) -> (r: Result<()>)
        ensures
            success ==> r is Ok,
            !success ==> is_git_error(r, "Git command failed: git "@ + join(args.deep_view(), " "@)),
    {
        if success {
            Ok(())
        } else {
            let mut m = String::from_str("Git command failed: git ");
            let j = join_of(args, " ");
            m.append(j.as_str());
            Err(GitXError::GitCommand(m))
        }
    }

    /// The current branch name, from git's answer to `current_branch_args`.
    pub fn current_branch(output: ProcessOutput) -> (r: Result<String>)
        ensures
            output.success ==> (r matches Ok(s) && s@ == trim(output.stdout@)),
            !output.success ==> is_git_error(r, trim(output.stderr@)),
    {
        Self::run(output)
    }

    /// The repository root, from git's answer to `repo_root_args`.
    pub fn repo_root(output: ProcessOutput) -> (r: Result<String>)
        ensures
            output.success ==> (r matches Ok(s) && s@ == trim(output.stdout@)),
            !output.success ==> is_git_error(r, trim(output.stderr@)),
    {
        Self::run(output)
    }

    /// The short hash of a commit, from git's answer to `short_hash_args`.
    pub fn short_hash(output: ProcessOutput) -> (r: Result<String>)
        ensures
            output.success ==> (r matches Ok(s) && s@ == trim(output.stdout@)),
            !output.success ==> is_git_error(r, trim(output.stderr@)),
    {
        Self::run(output)
    }

    /// The upstream of the current branch, from git's answer to
    /// `upstream_branch_args`.
    pub fn upstream_branch(output: ProcessOutput) -> (r: Result<String>)
        ensures
            output.success ==> (r matches Ok(s) && s@ == trim(output.stdout@)),
            !output.success ==> is_git_error(r, trim(output.stderr@)),
    {
        Self::run(output)
    }

    /// The arguments that print the current branch name.
    pub fn current_branch_args() -> (r: Vec<String>)
        ensures
            r.deep_view() == seq!["rev-parse"@, "--abbrev-ref"@, "HEAD"@],
    {
        let r = strings(&["rev-parse", "--abbrev-ref", "HEAD"]);
        assert(r.deep_view() =~= seq!["rev-parse"@, "--abbrev-ref"@, "HEAD"@]);
        r
    }

    /// The arguments that print the repository root.
    pub fn repo_root_args() -> (r: Vec<String>)
        ensures
            r.deep_view() == seq!["rev-parse"@, "--show-toplevel"@],
    {
        let r = strings(&["rev-parse", "--show-toplevel"]);
        assert(r.deep_view() =~= seq!["rev-parse"@, "--show-toplevel"@]);
        r
    }

    /// The arguments that check that `commit` names a commit.
    pub fn commit_exists_args(commit: &str) -> (r: Vec<String>)
        ensures
            r.deep_view() == seq!["rev-parse"@, "--verify"@, commit@ + "^{commit}"@],
    {
        let mut spec = owned(commit);
        spec.append("^{commit}");
        let mut r = strings(&["rev-parse", "--verify"]);
        push_str_arg(&mut r, spec.as_str());
        assert(r.deep_view() =~= seq!["rev-parse"@, "--verify"@, commit@ + "^{commit}"@]);
        r
    }

    /// Whether a commit exists, from git's answer to `commit_exists_args`:
    /// a git failure means it does not, another failure is passed on.
    pub fn commit_exists(answer: Result<String>) -> (r: Result<bool>)
        ensures
            answer is Ok ==> r == Ok::<bool, GitXError>(true),
            answer matches Err(e) ==> if e is GitCommand {
                r == Ok::<bool, GitXError>(false)
            } else {
                r == Err::<bool, GitXError>(e)
            },
    {
        match answer {
            Ok(_) => Ok(true),
            Err(GitXError::GitCommand(_)) => Ok(false),
            Err(e) => Err(e),
        }
    }

    /// The arguments that print the short hash of `commit`.
    pub fn short_hash_args(commit: &str) -> (r: Vec<String>)
        ensures
            r.deep_view() == seq!["rev-parse"@, "--short"@, commit@],
    {
        let mut r = strings(&["rev-parse", "--short"]);
        push_str_arg(&mut r, commit);
        assert(r.deep_view() =~= seq!["rev-parse"@, "--short"@, commit@]);
        r
    }

    /// The arguments that print the upstream of the current branch.
    pub fn upstream_branch_args() -> (r: Vec<String>)
        ensures
            r.deep_view() == seq!["rev-parse"@, "--abbrev-ref"@, "--symbolic-full-name"@, "@{u}"@],
    {
        let r = strings(&["rev-parse", "--abbrev-ref", "--symbolic-full-name", "@{u}"]);
        assert(r.deep_view() =~= seq![
            "rev-parse"@,
            "--abbrev-ref"@,
            "--symbolic-full-name"@,
            "@{u}"@,
        ]);
        r
    }

    /// The arguments that count commits ahead of and behind the upstream.
    pub fn ahead_behind_args() -> (r: Vec<String>)
        ensures
            r.deep_view() == seq!["rev-list"@, "--left-right"@, "--count"@, "HEAD...@{u}"@],
    {
        let r = strings(&["rev-list", "--left-right", "--count", "HEAD...@{u}"]);
        assert(r.deep_view() =~= seq![
            "rev-list"@,
            "--left-right"@,
            "--count"@,
            "HEAD...@{u}"@,
        ]);
        r
    }

    /// Ahead/behind counts read from `git rev-list --left-right --count`.
    pub fn ahead_behind_counts(output: &str) -> (r: (u32, u32))
        ensures
            (r.0 as nat, r.1 as nat) == two_counts(output@),
    {
        read_two_counts(output)
    }

    /// Branch information from the answers for the current branch, its
    /// upstream and the ahead/behind counts (unreadable counts are `(0, 0)`).
    pub fn branch_info_optimized(
        current: Result<String>,
        upstream: Result<String>,
        counts: Result<(u32, u32)>,
    ) -> (r: Result<(String, Option<String>, u32, u32)>)
        ensures
            current matches Err(e) ==> r == Err::<(String, Option<String>, u32, u32), GitXError>(e),
            current matches Ok(c) ==> (r matches Ok(t) && t.0 == c && match upstream {
                Ok(u) => t.1 == Some(u) && match counts {
                    Ok(ab) => t.2 == ab.0 && t.3 == ab.1,
                    Err(_) => t.2 == 0 && t.3 == 0,
                },
                Err(_) => t.1 is None && t.2 == 0 && t.3 == 0,
            }),
    {
        let c = match current {
            Ok(c) => c,
            Err(e) => return Err(e),
        };
        match upstream {
            Ok(u) => {
                let (ahead, behind) = match counts {
                    Ok(ab) => ab,
                    Err(_) => (0, 0),
                };
                Ok((c, Some(u), ahead, behind))
            },
            Err(_) => Ok((c, None, 0, 0)),
        }
    }

    /// The arguments that list local branch names.
    pub fn local_branches_args() -> (r: Vec<String>)
        ensures
            r.deep_view() == seq!["branch"@, "--format=%(refname:short)"@],
    {
        let r = strings(&["branch", "--format=%(refname:short)"]);
        assert(r.deep_view() =~= seq!["branch"@, "--format=%(refname:short)"@]);
        r
    }

    /// All local branches, read from `git branch --format=%(refname:short)`.
    pub fn local_branches(output: &str) -> (r: Vec<String>)
        ensures
            r.deep_view() == kept_lines(lines(output@), false, None),
    {
        select_lines(output, false, None)
    }

    /// The arguments that list branches, most recently committed first.
    pub fn recent_branches_args() -> (r: Vec<String>)
        ensures
            r.deep_view() == seq![
                "for-each-ref"@,
                "--sort=-committerdate"@,
                "--format=%(refname:short)"@,
                "refs/heads/"@,
            ],
    {
        let r = strings(&["for-each-ref", "--sort=-committerdate", "--format=%(refname:short)", "refs/heads/"]);
        assert(r.deep_view() =~= seq![
            "for-each-ref"@,
            "--sort=-committerdate"@,
            "--format=%(refname:short)"@,
            "refs/heads/"@,
        ]);
        r
    }

    /// Recent branches read from `git for-each-ref`, without the current
    /// branch, at most `limit` of them.
    pub fn recent_branches(output: &str, current_branch: &str, limit: Option<usize>) -> (r: Vec<String>)
        ensures
            r.deep_view() == match limit {
                Some(n) => if n < kept_lines(lines(output@), false, Some(current_branch@)).len() {
                    kept_lines(lines(output@), false, Some(current_branch@)).take(n as int)
                } else {
                    kept_lines(lines(output@), false, Some(current_branch@))
                },
                None => kept_lines(lines(output@), false, Some(current_branch@)),
            },
    {
        let mut branches = select_lines(output, false, Some(current_branch));
        match limit {
            Some(n) => {
                if n < branches.len() {
                    let ghost before = branches.deep_view();
                    branches.truncate(n);
                    assert(branches.deep_view() =~= before.take(n as int));
                }
            },
            None => {},
        }
        branches
    }

    /// The arguments that list branches merged into the current one.
    pub fn merged_branches_args() -> (r: Vec<String>)
        ensures
            r.deep_view() == seq!["branch"@, "--merged"@],
    {
        let r = strings(&["branch", "--merged"]);
        assert(r.deep_view() =~= seq!["branch"@, "--merged"@]);
        r
    }

    /// Merged branches read from `git branch --merged`.
    pub fn merged_branches(output: &str) -> (r: Vec<String>)
        ensures
            r.deep_view() == kept_lines(lines(output@), true, None),
    {
        select_lines(output, true, None)
    }

    /// The arguments that show the working directory status.
    pub fn status_args() -> (r: Vec<String>)
        ensures
            r.deep_view() == seq!["status"@, "--porcelain"@],
    {
        let r = strings(&["status", "--porcelain"]);
        assert(r.deep_view() =~= seq!["status"@, "--porcelain"@]);
        r
    }

    /// Whether the working directory is clean, from `git status --porcelain`.
    pub fn is_working_directory_clean(output: &str) -> (r: bool)
        ensures
            r == (trim(output@).len() == 0),
    {
        let t = trim_str(output);
        t.as_str().is_empty()
    }

    /// The arguments that list staged files.
    pub fn staged_files_args() -> (r: Vec<String>)
        ensures
            r.deep_view() == seq!["diff"@, "--cached"@, "--name-only"@],
    {
        let r = strings(&["diff", "--cached", "--name-only"]);
        assert(r.deep_view() =~= seq!["diff"@, "--cached"@, "--name-only"@]);
        r
    }

    /// Staged files read from `git diff --cached --name-only`.
    pub fn staged_files(output: &str) -> (r: Vec<String>)
        ensures
            r.deep_view() == kept_lines(lines(output@), false, None),
    {
        select_lines(output, false, None)
    }
}

/// Branch operations
pub struct BranchOperations;

impl BranchOperations {
    /// The arguments that create and check out branch `name`, from `from` if given.
    pub fn create(name: &str, from: Option<&str>) -> (r: Vec<String>)
        ensures
            r.deep_view() == seq!["checkout"@, "-b"@, name@] + match from {
                Some(b) => seq![b@],
                None => Seq::<Seq<char>>::empty(),
            },
    {
        let mut r = strings(&["checkout", "-b"]);
        push_str_arg(&mut r, name);
        match from {
            Some(b) => push_str_arg(&mut r, b),
            None => {},
        }
        assert(r.deep_view() =~= seq!["checkout"@, "-b"@, name@] + match from {
            Some(b) => seq![b@],
            None => Seq::<Seq<char>>::empty(),
        });
        r
    }

    /// The arguments that delete branch `name` (`-D` when forced, else `-d`).
    pub fn delete(name: &str, force: bool) -> (r: Vec<String>)
        ensures
            r.deep_view() == seq!["branch"@, if force { "-D"@ } else { "-d"@ }, name@],
    {
        let mut r = strings(&["branch"]);
        push_str_arg(&mut r, if force { "-D" } else { "-d" });
        push_str_arg(&mut r, name);
        assert(r.deep_view() =~= seq!["branch"@, if force { "-D"@ } else { "-d"@ }, name@]);
        r
    }

    /// The arguments that rename the current branch.
    pub fn rename(new_name: &str) -> (r: Vec<String>)
        ensures
            r.deep_view() == seq!["branch"@, "-m"@, new_name@],
    {
        let mut r = strings(&["branch", "-m"]);
        push_str_arg(&mut r, new_name);
        assert(r.deep_view() =~= seq!["branch"@, "-m"@, new_name@]);
        r
    }

    /// The arguments that switch to a branch.
    pub fn switch(name: &str) -> (r: Vec<String>)
        ensures
            r.deep_view() == seq!["checkout"@, name@],
    {
        let mut r = strings(&["checkout"]);
        push_str_arg(&mut r, name);
        assert(r.deep_view() =~= seq!["checkout"@, name@]);
        r
    }

    /// The arguments that check that branch `name` exists.
    pub fn exists_args(name: &str) -> (r: Vec<String>)
        ensures
            r.deep_view() == seq!["rev-parse"@, "--verify"@, "refs/heads/"@ + name@],
    {
        let mut refname = owned("refs/heads/");
        refname.append(name);
        let mut r = strings(&["rev-parse", "--verify"]);
        push_str_arg(&mut r, refname.as_str());
        assert(r.deep_view() =~= seq!["rev-parse"@, "--verify"@, "refs/heads/"@ + name@]);
        r
    }

    /// Whether a branch exists, from git's answer to `exists_args`.
    pub fn does_exist(answer: Result<String>) -> (r: Result<bool>)
        ensures
            answer is Ok ==> r == Ok::<bool, GitXError>(true),
            answer matches Err(e) ==> if e is GitCommand {
                r == Ok::<bool, GitXError>(false)
            } else {
                r == Err::<bool, GitXError>(e)
            },
    {
        GitOperations::commit_exists(answer)
    }
}

/// Commit operations
pub struct CommitOperations;

impl CommitOperations {
    /// The arguments that create a fixup commit for `commit_hash`.
    pub fn fixup(commit_hash: &str) -> (r: Vec<String>)
        ensures
            r.deep_view() == seq!["commit"@, "--fixup"@, commit_hash@],
    {
        let mut r = strings(&["commit", "--fixup"]);
        push_str_arg(&mut r, commit_hash);
        assert(r.deep_view() =~= seq!["commit"@, "--fixup"@, commit_hash@]);
        r
    }

    /// The arguments that undo the last commit (soft reset).
    pub fn undo_last() -> (r: Vec<String>)
        ensures
            r.deep_view() == seq!["reset"@, "--soft"@, "HEAD~1"@],
    {
        let r = strings(&["reset", "--soft", "HEAD~1"]);
        assert(r.deep_view() =~= seq!["reset"@, "--soft"@, "HEAD~1"@]);
        r
    }

    /// The arguments that print the subject of a commit.
    pub fn get_message(commit_hash: &str) -> (r: Vec<String>)
        ensures
            r.deep_view() == seq!["log"@, "-1"@, "--pretty=format:%s"@, commit_hash@],
    {
        let mut r = strings(&["log", "-1", "--pretty=format:%s"]);
        push_str_arg(&mut r, commit_hash);
        assert(r.deep_view() =~= seq!["log"@, "-1"@, "--pretty=format:%s"@, commit_hash@]);
        r
    }

    /// The arguments that print the author of a commit.
    pub fn get_author(commit_hash: &str) -> (r: Vec<String>)
        ensures
            r.deep_view() == seq!["log"@, "-1"@, "--pretty=format:%an <%ae>"@, commit_hash@],
    {
        let mut r = strings(&["log", "-1", "--pretty=format:%an <%ae>"]);
        push_str_arg(&mut r, commit_hash);
        assert(r.deep_view() =~= seq!["log"@, "-1"@, "--pretty=format:%an <%ae>"@, commit_hash@]);
        r
    }
}

/// Remote operations
pub struct RemoteOperations;

impl RemoteOperations {
    /// The arguments that set the upstream of the current branch to `remote/branch`.
    pub fn set_upstream(remote: &str, branch: &str) -> (r: Vec<String>)
        ensures
            r.deep_view() == seq!["branch"@, "--set-upstream-to"@, remote@ + "/"@ + branch@],
    {
        let mut target = owned(remote);
        target.append("/");
        target.append(branch);
        let mut r = strings(&["branch", "--set-upstream-to"]);
        push_str_arg(&mut r, target.as_str());
        assert(r.deep_view() =~= seq!["branch"@, "--set-upstream-to"@, remote@ + "/"@ + branch@]);
        r
    }

    /// The arguments that push, to `remote` and `branch` when given.
    pub fn push(remote: Option<&str>, branch: Option<&str>) -> (r: Vec<String>)
        ensures
            r.deep_view() == seq!["push"@] + match remote {
                Some(x) => seq![x@],
                None => Seq::<Seq<char>>::empty(),
            } + match branch {
                Some(x) => seq![x@],
                None => Seq::<Seq<char>>::empty(),
            },
    {
        let mut r = strings(&["push"]);
        match remote {
            Some(x) => push_str_arg(&mut r, x),
            None => {},
        }
        match branch {
            Some(x) => push_str_arg(&mut r, x),
            None => {},
        }
        assert(r.deep_view() =~= seq!["push"@] + match remote {
            Some(x) => seq![x@],
            None => Seq::<Seq<char>>::empty(),
        } + match branch {
            Some(x) => seq![x@],
            None => Seq::<Seq<char>>::empty(),
        });
        r
    }

    /// The arguments that fetch, from `remote` when given.
    pub fn fetch(remote: Option<&str>) -> (r: Vec<String>)
        ensures
            r.deep_view() == seq!["fetch"@] + match remote {
                Some(x) => seq![x@],
                None => Seq::<Seq<char>>::empty(),
            },
    {
        let mut r = strings(&["fetch"]);
        match remote {
            Some(x) => push_str_arg(&mut r, x),
            None => {},
        }
        assert(r.deep_view() =~= seq!["fetch"@] + match remote {
            Some(x) => seq![x@],
            None => Seq::<Seq<char>>::empty(),
        });
        r
    }

    /// The remotes, read from `git remote`.
    pub fn list(output: &str) -> (r: Vec<String>)
        ensures
            r.deep_view() == kept_lines(lines(output@), false, None),
    {
        select_lines(output, false, None)
    }
}

// ---------------------------------------------------------------------------
// Comparisons run side by side
// ---------------------------------------------------------------------------

/// The main branches the current branch is compared with: main, master and
/// develop, in this order, the current branch itself left out.
pub open spec fn comparison_bases(current: Seq<char>) -> Seq<Seq<char>> {
    (if current != "main"@ { seq!["main"@] } else { Seq::empty() }) + (if current != "master"@ {
        seq!["master"@]
    } else {
        Seq::empty()
    }) + (if current != "develop"@ { seq!["develop"@] } else { Seq::empty() })
}

/// The parts of an ahead/behind status: "N ahead", then "M behind", each
/// only when not zero.
pub open spec fn status_parts(ahead: nat, behind: nat) -> Seq<Seq<char>> {
    (if ahead > 0 { seq![decimal(ahead) + " ahead"@] } else { Seq::empty() }) + (if behind > 0 {
        seq![decimal(behind) + " behind"@]
    } else {
        Seq::empty()
    })
}

/// The line comparing the current branch with `base`, from the output of
/// `git rev-list --left-right --count <base>...<current>` (the commits only
/// on `base`, then those only on the current branch); none unless that
/// output is exactly two words.
pub open spec fn difference_line(base: Seq<char>, counts: Seq<char>) -> Option<Seq<char>> {
    let ws = words(counts);
    if ws.len() != 2 {
        None
    } else {
        let behind = count_or_zero(ws[0]);
        let ahead = count_or_zero(ws[1]);
        if ahead > 0 || behind > 0 {
            Some("📊 vs "@ + base + ": "@ + join(status_parts(ahead, behind), ", "@))
        } else {
            Some("✅ vs "@ + base + ": Up to date"@)
        }
    }
}

/// The first line among `checks`, if any.
pub open spec fn first_found(checks: Seq<Option<Seq<char>>>) -> Seq<Seq<char>>
    decreases checks.len(),
{
    if checks.len() == 0 {
        Seq::empty()
    } else {
        match checks[0] {
            Some(l) => seq![l],
            None => first_found(checks.drop_first()),
        }
    }
}

/// What `gh pr status --json currentBranch` tells of the current branch:
/// nothing when gh could not be run or failed; else no open PR when its
/// output is blank or holds `null`, an open PR otherwise.
pub open spec fn pr_status_line(output: Option<ProcessOutput>) -> Option<Seq<char>> {
    match output {
        Some(o) => if !o.success {
            None
        } else if trim(o.stdout@).len() == 0 || contains(o.stdout@, "null"@) {
            Some("❌ No open PR for current branch"@)
        } else {
            Some("✅ Open PR found for current branch"@)
        },
        None => None,
    }
}

/// Git operations whose commands the caller runs side by side.
pub struct AsyncGitOperations;

impl AsyncGitOperations {
    /// The main branches to compare the current branch with.
    pub fn branch_difference_bases(current_branch: &str) -> (r: Vec<String>)
        ensures
            r.deep_view() == comparison_bases(current_branch@),
    {
        let mut r: Vec<String> = Vec::new();
        if !str_eq(current_branch, "main") {
            r.push(owned("main"));
        }
        if !str_eq(current_branch, "master") {
            r.push(owned("master"));
        }
        if !str_eq(current_branch, "develop") {
            r.push(owned("develop"));
        }
        assert(r.deep_view() =~= comparison_bases(current_branch@));
        r
    }

    /// The arguments that check that the local branch `base` exists.
    pub fn base_exists_args(base: &str) -> (r: Vec<String>)
        ensures
            r.deep_view() == seq!["rev-parse"@, "--verify"@, "refs/heads/"@ + base@],
    {
        let mut refname = owned("refs/heads/");
        refname.append(base);
        let mut r = strings(&["rev-parse", "--verify"]);
        push_str_arg(&mut r, refname.as_str());
        assert(r.deep_view() =~= seq!["rev-parse"@, "--verify"@, "refs/heads/"@ + base@]);
        r
    }

    /// The arguments that count the commits only on `base` and only on `current`.
    pub fn difference_args(base: &str, current: &str) -> (r: Vec<String>)
        ensures
            r.deep_view() == seq!["rev-list"@, "--left-right"@, "--count"@, base@ + "..."@ + current@],
    {
        let mut range = owned(base);
        range.append("...");
        range.append(current);
        let mut r = strings(&["rev-list", "--left-right", "--count"]);
        push_str_arg(&mut r, range.as_str());
        assert(r.deep_view() =~= seq!["rev-list"@, "--left-right"@, "--count"@, base@ + "..."@ + current@]);
        r
    }

    /// The comparison with `base`: none when `base` does not exist or its
    /// counts could not be read, else `difference_line`.
    pub fn branch_difference(base: &str, exists: bool, counts: Result<String>) -> (r: Option<String>)
        ensures
            !exists ==> r is None,
            exists && counts is Err ==> r is None,
            exists ==> (counts matches Ok(c) ==> match difference_line(base@, c@) {
                Some(l) => r matches Some(t) && t@ == l,
                None => r is None,
            }),
    {
        if !exists {
            return None;
        }
        let c = match counts {
            Ok(c) => c,
            Err(_) => return None,
        };
        let ws = words_of(c.as_str());
        if ws.len() != 2 {
            return None;
        }
        proof {
            assert(ws.deep_view()[0] == ws@[0]@);
            assert(ws.deep_view()[1] == ws@[1]@);
        }
        let behind = count_of(ws[0].as_str());
        let ahead = count_of(ws[1].as_str());
        let mut line;
        if ahead > 0 || behind > 0 {
            let mut parts: Vec<String> = Vec::new();
            if ahead > 0 {
                let mut p = decimal_of(ahead as u64);
                p.append(" ahead");
                parts.push(p);
            }
            if behind > 0 {
                let mut p = decimal_of(behind as u64);
                p.append(" behind");
                parts.push(p);
            }
            assert(parts.deep_view() =~= status_parts(ahead as nat, behind as nat));
            line = owned("📊 vs ");
            line.append(base);
            line.append(": ");
            let j = join_of(&parts, ", ");
            line.append(j.as_str());
        } else {
            line = owned("✅ vs ");
            line.append(base);
            line.append(": Up to date");
        }
        Some(line)
    }

    /// The branch differences: the first comparison found, if any.
    pub fn get_branch_differences(checks: Vec<Option<String>>) -> (r: Result<Vec<String>>)
        ensures
            r matches Ok(v) && v.deep_view() == first_found(checks@.map_values(|c: Option<String>| match c {
                Some(t) => Some(t@),
                None => None,
            })),
    {
        let ghost cs = checks@.map_values(|c: Option<String>| match c {
            Some(t) => Some(t@),
            None => None,
        });
        let mut i: usize = 0;
        assert(cs.skip(0) =~= cs);
        while i < checks.len()
            invariant
                0 <= i <= checks.len(),
                cs == checks@.map_values(|c: Option<String>| match c {
                    Some(t) => Some(t@),
                    None => None,
                }),
                first_found(cs) == first_found(cs.skip(i as int)),
            decreases checks.len() - i,
        {
            assert(cs.skip(i as int).drop_first() =~= cs.skip(i + 1));
            assert(cs.skip(i as int)[0] == cs[i as int]);
            match &checks[i] {
                Some(t) => {
                    let mut v: Vec<String> = Vec::new();
                    v.push(owned(t.as_str()));
                    assert(v.deep_view() =~= seq![t@]);
                    return Ok(v);
                },
                None => {},
            }
            i = i + 1;
        }
        let v: Vec<String> = Vec::new();
        assert(v.deep_view() =~= first_found(cs.skip(i as int)));
        Ok(v)
    }

    /// The pull-request line of the current branch (see `pr_status_line`);
    /// `output` is none when gh could not be run.
    pub fn check_github_pr_status(output: Option<ProcessOutput>) -> (r: Result<Option<String>>)
        ensures
            r matches Ok(l) && match pr_status_line(output) {
                Some(t) => l matches Some(s) && s@ == t,
                None => l is None,
            },
    {
        match output {
            Some(o) => {
                if !o.success {
                    return Ok(None);
                }
                let t = trim_str(o.stdout.as_str());
                if t.as_str().is_empty() || str_contains(o.stdout.as_str(), "null") {
                    Ok(Some(owned("❌ No open PR for current branch")))
                } else {
                    Ok(Some(owned("✅ Open PR found for current branch")))
                }
            },
            None => Ok(None),
        }
    }
}

} // verus!
