//! Repository commands: information, health check, syncing with the
//! upstream, upstream management and creating branches.
use vstd::prelude::*;
use crate::base::git::{BranchOperations, RemoteOperations, strings, push_str_arg};
use crate::base::output::{BufferedOutput, Format, is_bold_of};
use crate::base::text::{
    contains, decimal, decimal_of, ends_with, has_prefix, repeat, has_suffix, join, join_of, lines, lines_of, owned,
    starts_with, str_contains, str_eq, trim, trim_str, words, words_of,
};
use crate::base::traits::{Command, GitCommand};
use crate::commands::plan::{Plan, ok_report, ok_run, runs, steps_view};
use crate::domain::git_repository::{repo_name, repo_name_of};
use crate::base::validation::{Validate, branch_name_error, branch_name_ok};
use crate::{GitXError, Result, is_git_error, is_parse_error};

verus! {

// ---------------------------------------------------------------------------
// Info
// ---------------------------------------------------------------------------

/// Command to show repository information
pub struct InfoCommand {
    pub show_detailed: bool,
}

/// The ahead/behind parts of a branch status.
pub open spec fn ahead_behind_parts(ahead: u32, behind: u32) -> Seq<Seq<char>> {
    (if ahead > 0 {
        seq![decimal(ahead as nat) + " ahead"@]
    } else {
        Seq::empty()
    }) + (if behind > 0 {
        seq![decimal(behind as nat) + " behind"@]
    } else {
        Seq::empty()
    })
}

/// What follows the current branch in the branch information.
pub open spec fn branch_info_tail(upstream: Option<Seq<char>>, ahead: u32, behind: u32) -> Seq<char> {
    match upstream {
        Some(u) => "\n🔗 Upstream: "@ + u + if ahead > 0 || behind > 0 {
            "\n📊 Status: "@ + join(ahead_behind_parts(ahead, behind), ", "@)
        } else {
            "\n✅ Status: Up to date"@
        },
        None => "\n❌ No upstream configured"@,
    }
}

/// The branch information with the current branch rendered as `b`.
pub open spec fn branch_info_text(b: Seq<char>, upstream: Option<Seq<char>>, ahead: u32, behind: u32) -> Seq<char> {
    "📍 Current branch: "@ + b + branch_info_tail(upstream, ahead, behind)
}

/// The lines of the staged-files section.
pub open spec fn staged_lines(staged: Seq<Seq<char>>, detailed: bool) -> Seq<Seq<char>> {
    if staged.len() == 0 {
        seq!["📋 Staged files: None"@]
    } else {
        seq!["📋 Staged files: "@ + decimal(staged.len()) + " file(s)"@] + if detailed {
            staged.map_values(|f: Seq<char>| "   • "@ + f)
        } else {
            Seq::empty()
        }
    }
}

/// The lines listing recent branches, the most recent first.
pub open spec fn recent_lines(recent: Seq<Seq<char>>) -> Seq<Seq<char>> {
    if recent.len() == 0 {
        Seq::empty()
    } else {
        seq!["\n🕒 Recent branches:"@] + Seq::new(
            recent.len(),
            |i: int| if i == 0 { "   🌟 "@ + recent[i] } else { "   📁 "@ + recent[i] },
        )
    }
}

/// The lines of the repository information, with the repository name
/// rendered as `bn` and the current branch as `bc`.
pub open spec fn info_lines(
    bn: Seq<char>,
    bc: Seq<char>,
    info: (String, Option<String>, u32, u32),
    clean: bool,
    staged: Seq<Seq<char>>,
    detailed: bool,
    recent: Seq<Seq<char>>,
) -> Seq<Seq<char>> {
    seq![
        "🗂️  Repository: "@ + bn,
        branch_info_text(
            bc,
            match info.1 {
                Some(u) => Some(u@),
                None => None,
            },
            info.2,
            info.3,
        ),
        if clean { "✅ Working directory: Clean"@ } else { "⚠️  Working directory: Has changes"@ },
    ] + staged_lines(staged, detailed) + if detailed {
        recent_lines(recent)
    } else {
        Seq::empty()
    }
}

/// The recent branches read, none when reading them failed.
pub open spec fn recent_view(recent: Result<Vec<String>>) -> Seq<Seq<char>> {
    match recent {
        Ok(v) => v.deep_view(),
        Err(_) => Seq::empty(),
    }
}

/// What the info command reports from git's answers: the repository root
/// (its absence is "Not in a git repository"), the branch information, the
/// working directory's cleanliness, the staged files and, when detailed,
/// the recent branches (whose failure only leaves their section out).
pub open spec fn info_report(
    detailed: bool,
    root: Result<String>,
    info: Result<(String, Option<String>, u32, u32)>,
    clean: Result<bool>,
    staged: Result<Vec<String>>,
    recent: Seq<Seq<char>>,
    r: Result<String>,
) -> bool {
    match root {
        Err(_) => is_git_error(r, "Not in a git repository"@),
        Ok(root) => match info {
            Err(e) => r == Err::<String, GitXError>(e),
            Ok(i) => match clean {
                Err(e) => r == Err::<String, GitXError>(e),
                Ok(c) => match staged {
                    Err(e) => r == Err::<String, GitXError>(e),
                    Ok(s) => r matches Ok(t) && exists|bn: Seq<char>, bc: Seq<char>|
                        is_bold_of(bn, repo_name(root@)) && is_bold_of(bc, i.0@) && t@ == join(
                            info_lines(bn, bc, i, c, s.deep_view(), detailed, recent),
                            "\n"@,
                        ),
                },
            },
        },
    }
}

impl InfoCommand {
    pub fn new() -> (r: Self)
        ensures
            !r.show_detailed,
    {
        Self { show_detailed: false }
    }

    pub fn with_details(self) -> (r: Self)
        ensures
            r.show_detailed,
    {
        Self { show_detailed: true }
    }

    /// The branch information: the current branch (in bold), its upstream
    /// and how far ahead and behind it is.
    pub fn format_branch_info(current: &str, upstream: Option<&str>, ahead: u32, behind: u32) -> (r: String)
        ensures
            exists|b: Seq<char>|
                is_bold_of(b, current@) && r@ == branch_info_text(
                    b,
                    match upstream {
                        Some(u) => Some(u@),
                        None => None,
                    },
                    ahead,
                    behind,
                ),
    {
        let mut info = String::from_str("📍 Current branch: ");
        let b = Format::bold(current);
        info.append(b.as_str());
        let ghost head = info@;
        match upstream {
            Some(u) => {
                info.append("\n🔗 Upstream: ");
                info.append(u);
                if ahead > 0 || behind > 0 {
                    let mut parts: Vec<String> = Vec::new();
                    if ahead > 0 {
                        let mut p = decimal_of(ahead as u64);
                        p.append(" ahead");
                        parts.push(p);
                    }
                    if behind > 0 {
                        let mut p = decimal_of(behind as u64);
                        p.append(" behind");
                        parts.push(p);
                    }
                    assert(parts.deep_view() =~= ahead_behind_parts(ahead, behind));
                    info.append("\n📊 Status: ");
                    let j = join_of(&parts, ", ");
                    info.append(j.as_str());
                } else {
                    info.append("\n✅ Status: Up to date");
                }
            },
            None => {
                info.append("\n❌ No upstream configured");
            },
        }
        assert(info@ == branch_info_text(
            b@,
            match upstream {
                Some(u) => Some(u@),
                None => None,
            },
            ahead,
            behind,
        ));
        info
    }

    /// The report (see `info_report`).
    pub fn execute(
        &self,
        root: Result<String>,
        info: Result<(String, Option<String>, u32, u32)>,
        clean: Result<bool>,
        staged: Result<Vec<String>>,
        recent: Result<Vec<String>>,
    ) -> (r: Result<String>)
        ensures
            info_report(self.show_detailed, root, info, clean, staged, recent_view(recent), r),
    {
        let root = match root {
            Err(_) => return Err(GitXError::GitCommand(String::from_str("Not in a git repository"))),
            Ok(p) => p,
        };
        let i = match info {
            Err(e) => return Err(e),
            Ok(i) => i,
        };
        let c = match clean {
            Err(e) => return Err(e),
            Ok(c) => c,
        };
        let s = match staged {
            Err(e) => return Err(e),
            Ok(s) => s,
        };
        let mut output = BufferedOutput::new();
        let name = repo_name_of(root.as_str());
        let bn = Format::bold(name.as_str());
        let mut l1 = String::from_str("🗂️  Repository: ");
        l1.append(bn.as_str());
        output.add_line(l1);
        let up: Option<&str> = match &i.1 {
            Some(u) => Some(u.as_str()),
            None => None,
        };
        let bi = Self::format_branch_info(i.0.as_str(), up, i.2, i.3);
        let ghost bc = choose|b: Seq<char>| is_bold_of(b, i.0@) && bi@ == branch_info_text(
            b,
            match up {
                Some(u) => Some(u@),
                None => None,
            },
            i.2,
            i.3,
        );
        output.add_line(bi);
        if c {
            output.add_line(String::from_str("✅ Working directory: Clean"));
        } else {
            output.add_line(String::from_str("⚠️  Working directory: Has changes"));
        }
        let ghost top = output@;
        if s.len() == 0 {
            output.add_line(String::from_str("📋 Staged files: None"));
        } else {
            let mut l = String::from_str("📋 Staged files: ");
            let n = decimal_of(s.len() as u64);
            l.append(n.as_str());
            l.append(" file(s)");
            output.add_line(l);
            if self.show_detailed {
                let ghost mid = output@;
                for k in 0..s.len()
                    invariant
                        output@ == mid + s.deep_view().take(k as int).map_values(|f: Seq<char>| "   • "@ + f),
                {
                    let mut l = String::from_str("   • ");
                    l.append(s[k].as_str());
                    output.add_line(l);
                    proof {
                        assert(s.deep_view()[k as int] == s@[k as int]@);
                        assert(s.deep_view().take(k + 1).map_values(|f: Seq<char>| "   • "@ + f) =~= s.deep_view().take(
                            k as int,
                        ).map_values(|f: Seq<char>| "   • "@ + f).push("   • "@ + s@[k as int]@));
                    }
                }
                assert(s.deep_view().take(s.len() as int) =~= s.deep_view());
            }
        }
        assert(output@ =~= top + staged_lines(s.deep_view(), self.show_detailed));
        let ghost before_recent = output@;
        if self.show_detailed {
            match &recent {
                Ok(v) => {
                    if v.len() > 0 {
                        output.add_line(String::from_str("\n🕒 Recent branches:"));
                        let ghost mid = output@;
                        for k in 0..v.len()
                            invariant
                                output@ == mid + recent_lines(v.deep_view()).skip(1).take(k as int),
                                v.len() > 0,
                        {
                            let mut l = if k == 0 {
                                String::from_str("   🌟 ")
                            } else {
                                String::from_str("   📁 ")
                            };
                            l.append(v[k].as_str());
                            output.add_line(l);
                            proof {
                                assert(v.deep_view()[k as int] == v@[k as int]@);
                                assert(recent_lines(v.deep_view()).skip(1).take(k + 1) =~= recent_lines(
                                    v.deep_view(),
                                ).skip(1).take(k as int).push(l@));
                            }
                        }
                        assert(recent_lines(v.deep_view()) =~= seq!["\n🕒 Recent branches:"@] + recent_lines(
                            v.deep_view(),
                        ).skip(1).take(v.len() as int));
                    }
                },
                Err(_) => {},
            }
        }
        proof {
            let lines = info_lines(bn@, bc, i, c, s.deep_view(), self.show_detailed, recent_view(recent));
            assert(output@ =~= lines);
        }
        Ok(output.content())
    }
}

impl Default for InfoCommand {
    fn default() -> (r: Self)
        ensures
            !r.show_detailed,
    {
        Self::new()
    }
}

impl Command for InfoCommand {
    fn name(&self) -> (r: &'static str)
        ensures
            r@ == "info"@,
    {
        "info"
    }

    fn description(&self) -> (r: &'static str)
        ensures
            r@ == "Show repository information and status"@,
    {
        "Show repository information and status"
    }
}

impl GitCommand for InfoCommand {}

// ---------------------------------------------------------------------------
// Health
// ---------------------------------------------------------------------------

/// Command to check repository health
pub struct HealthCommand;

/// The lines of `ls` that mention an old date ("months ago" or "year").
pub open spec fn stale_count(ls: Seq<Seq<char>>) -> nat
    decreases ls.len(),
{
    if ls.len() == 0 {
        0
    } else {
        stale_count(ls.drop_last()) + if contains(ls.last(), "months ago"@) || contains(ls.last(), "year"@) {
            1nat
        } else {
            0nat
        }
    }
}

/// The lines of `ls` that are not blank.
pub open spec fn nonblank_count(ls: Seq<Seq<char>>) -> nat
    decreases ls.len(),
{
    if ls.len() == 0 {
        0
    } else {
        nonblank_count(ls.drop_last()) + if trim(ls.last()).len() > 0 {
            1nat
        } else {
            0nat
        }
    }
}

/// The repository-size issues of the `git count-objects -vH` lines: a
/// `size-pack` line whose second word is in GiB or mentions 1024.
pub open spec fn size_issues(ls: Seq<Seq<char>>) -> Seq<Seq<char>>
    decreases ls.len(),
{
    if ls.len() == 0 {
        Seq::empty()
    } else {
        let rest = size_issues(ls.drop_last());
        let l = ls.last();
        let w = words(l);
        if has_prefix(l, "size-pack"@) && w.len() >= 2 && (has_suffix(w[1], "GiB"@) || contains(w[1], "1024"@)) {
            rest.push("⚠️  Repository size: "@ + w[1] + " (consider cleanup)"@)
        } else {
            rest
        }
    }
}

/// The issues of the git configuration, from the answers for `user.name`
/// and `user.email`.
pub open spec fn config_issues(name: Result<String>, email: Result<String>) -> Seq<Seq<char>> {
    (if name is Err { seq!["❌ Git user.name not configured"@] } else { Seq::empty() }) + (if email is Err {
        seq!["❌ Git user.email not configured"@]
    } else {
        Seq::empty()
    })
}

/// The issues of the remotes.
pub open spec fn remote_issues(remotes: Result<Vec<String>>) -> Seq<Seq<char>> {
    match remotes {
        Ok(v) => if v.len() == 0 { seq!["⚠️  No remotes configured"@] } else { Seq::empty() },
        Err(_) => seq!["❌ Could not check remotes"@],
    }
}

/// The issues of the branches: many local branches, stale branches.
pub open spec fn branch_issues(local: Result<Vec<String>>, stale: Result<usize>) -> Seq<Seq<char>> {
    (match local {
        Ok(v) => if v.len() > 20 {
            seq!["⚠️  Many local branches ("@ + decimal(v.len() as nat) + ") - consider cleaning up"@]
        } else {
            Seq::empty()
        },
        Err(_) => seq!["❌ Could not check branches"@],
    }) + (match stale {
        Ok(n) => if n > 0 { seq!["⚠️  "@ + decimal(n as nat) + " potentially stale branches found"@] } else { Seq::empty() },
        Err(_) => Seq::empty(),
    })
}

/// The notes on the working directory: many untracked files, staged files.
pub open spec fn working_directory_issues(untracked: Result<String>, staged: Result<String>) -> Seq<Seq<char>> {
    (match untracked {
        Ok(o) => if nonblank_count(lines(o@)) > 5 {
            seq!["⚠️  "@ + decimal(nonblank_count(lines(o@))) + " untracked files found"@]
        } else {
            Seq::empty()
        },
        Err(_) => Seq::empty(),
    }) + (match staged {
        Ok(o) => if nonblank_count(lines(o@)) > 0 {
            seq!["ℹ️  "@ + decimal(nonblank_count(lines(o@))) + " files staged for commit"@]
        } else {
            Seq::empty()
        },
        Err(_) => Seq::empty(),
    })
}

/// The issues of the repository size.
pub open spec fn repository_size_issues(output: Result<String>) -> Seq<Seq<char>> {
    match output {
        Ok(o) => size_issues(lines(o@)),
        Err(_) => Seq::empty(),
    }
}

/// A section's status line: `ok` without issues, else `bad`.
pub open spec fn section(issues: Seq<Seq<char>>, ok: Seq<char>, bad: Seq<char>) -> Seq<char> {
    if issues.len() == 0 { ok } else { bad }
}

/// The lines of the health report for these issues.
pub open spec fn health_lines(
    c: Seq<Seq<char>>,
    rm: Seq<Seq<char>>,
    b: Seq<Seq<char>>,
    w: Seq<Seq<char>>,
    s: Seq<Seq<char>>,
) -> Seq<Seq<char>> {
    let all = c + rm + b + w + s;
    seq![
        "🏥 Repository Health Check"@,
        repeat("="@, 30),
        section(c, "✅ Git configuration: OK"@, "❌ Git configuration: Issues found"@),
        section(rm, "✅ Remotes: OK"@, "⚠️  Remotes: Issues found"@),
        section(b, "✅ Branches: OK"@, "⚠️  Branches: Issues found"@),
        section(w, "✅ Working directory: Clean"@, "ℹ️  Working directory: Has notes"@),
        section(s, "✅ Repository size: OK"@, "⚠️  Repository size: Large"@),
    ] + if all.len() == 0 {
        seq!["\n🎉 Repository is healthy!"@]
    } else {
        seq!["\n🔧 Found "@ + decimal(all.len()) + " issue(s):"@] + all.map_values(|i: Seq<char>| "   "@ + i)
    }
}

/// The lines of `v` that are not blank, counted.
fn count_nonblank(output: &str) -> (r: usize)
    ensures
        r == nonblank_count(lines(output@)),
{
    let ls = lines_of(output);
    let mut n: usize = 0;
    for i in 0..ls.len()
        invariant
            n == nonblank_count(ls.deep_view().take(i as int)),
            n <= i,
    {
        proof {
            assert(ls.deep_view().take(i + 1).drop_last() =~= ls.deep_view().take(i as int));
            assert(ls.deep_view()[i as int] == ls@[i as int]@);
        }
        let t = trim_str(ls[i].as_str());
        if !t.as_str().is_empty() {
            n = n + 1;
        }
    }
    assert(ls.deep_view().take(ls.len() as int) =~= ls.deep_view());
    n
}

/// Pushes `"<prefix><n><suffix>"`.
fn push_counted(v: &mut Vec<String>, prefix: &str, n: usize, suffix: &str)
    ensures
        final(v).deep_view() == old(v).deep_view().push(prefix@ + decimal(n as nat) + suffix@),
{
    let mut m = owned(prefix);
    let d = decimal_of(n as u64);
    m.append(d.as_str());
    m.append(suffix);
    let ghost before = v.deep_view();
    v.push(m);
    assert(v.deep_view() =~= before.push(prefix@ + decimal(n as nat) + suffix@));
}

/// Pushes a literal line.
fn push_line(v: &mut Vec<String>, s: &str)
    ensures
        final(v).deep_view() == old(v).deep_view().push(s@),
{
    let ghost before = v.deep_view();
    v.push(owned(s));
    assert(v.deep_view() =~= before.push(s@));
}

impl HealthCommand {
    pub fn new() -> (r: Self) {
        Self
    }

    /// Issues of the git configuration (see `config_issues`).
    pub fn check_git_config(name: &Result<String>, email: &Result<String>) -> (r: Vec<String>)
        ensures
            r.deep_view() == config_issues(*name, *email),
    {
        let mut v: Vec<String> = Vec::new();
        if name.is_err() {
            push_line(&mut v, "❌ Git user.name not configured");
        }
        if email.is_err() {
            push_line(&mut v, "❌ Git user.email not configured");
        }
        assert(v.deep_view() =~= config_issues(*name, *email));
        v
    }

    /// Issues of the remotes (see `remote_issues`).
    pub fn check_remotes(remotes: &Result<Vec<String>>) -> (r: Vec<String>)
        ensures
            r.deep_view() == remote_issues(*remotes),
    {
        let mut v: Vec<String> = Vec::new();
        match remotes {
            Ok(rs) => {
                if rs.len() == 0 {
                    push_line(&mut v, "⚠️  No remotes configured");
                }
            },
            Err(_) => push_line(&mut v, "❌ Could not check remotes"),
        }
        assert(v.deep_view() =~= remote_issues(*remotes));
        v
    }

    /// The number of stale branches in the output of `git for-each-ref
    /// --format=%(refname:short) %(committerdate:relative) refs/heads/`.
    pub fn count_stale_branches(output: Result<String>) -> (r: Result<usize>)
        ensures
            match output {
                Ok(o) => r matches Ok(n) && n == stale_count(lines(o@)),
                Err(e) => r == Err::<usize, GitXError>(e),
            },
    {
        let o = match output {
            Err(e) => return Err(e),
            Ok(o) => o,
        };
        let ls = lines_of(o.as_str());
        let mut n: usize = 0;
        for i in 0..ls.len()
            invariant
                n == stale_count(ls.deep_view().take(i as int)),
                n <= i,
        {
            proof {
                assert(ls.deep_view().take(i + 1).drop_last() =~= ls.deep_view().take(i as int));
                assert(ls.deep_view()[i as int] == ls@[i as int]@);
            }
            if str_contains(ls[i].as_str(), "months ago") || str_contains(ls[i].as_str(), "year") {
                n = n + 1;
            }
        }
        assert(ls.deep_view().take(ls.len() as int) =~= ls.deep_view());
        Ok(n)
    }

    /// Issues of the branches (see `branch_issues`).
    pub fn check_branches(local: &Result<Vec<String>>, stale: &Result<usize>) -> (r: Vec<String>)
        ensures
            r.deep_view() == branch_issues(*local, *stale),
    {
        let mut v: Vec<String> = Vec::new();
        match local {
            Ok(bs) => {
                if bs.len() > 20 {
                    push_counted(&mut v, "⚠️  Many local branches (", bs.len(), ") - consider cleaning up");
                }
            },
            Err(_) => push_line(&mut v, "❌ Could not check branches"),
        }
        match stale {
            Ok(n) => {
                if *n > 0 {
                    push_counted(&mut v, "⚠️  ", *n, " potentially stale branches found");
                }
            },
            Err(_) => {},
        }
        assert(v.deep_view() =~= branch_issues(*local, *stale));
        v
    }

    /// Notes on the working directory (see `working_directory_issues`).
    pub fn check_working_directory(untracked: &Result<String>, staged: &Result<String>) -> (r: Vec<String>)
        ensures
            r.deep_view() == working_directory_issues(*untracked, *staged),
    {
        let mut v: Vec<String> = Vec::new();
        match untracked {
            Ok(o) => {
                let n = count_nonblank(o.as_str());
                if n > 5 {
                    push_counted(&mut v, "⚠️  ", n, " untracked files found");
                }
            },
            Err(_) => {},
        }
        match staged {
            Ok(o) => {
                let n = count_nonblank(o.as_str());
                if n > 0 {
                    push_counted(&mut v, "ℹ️  ", n, " files staged for commit");
                }
            },
            Err(_) => {},
        }
        assert(v.deep_view() =~= working_directory_issues(*untracked, *staged));
        v
    }

    /// Issues of the repository size (see `repository_size_issues`).
    pub fn check_repository_size(output: &Result<String>) -> (r: Vec<String>)
        ensures
            r.deep_view() == repository_size_issues(*output),
    {
        let mut v: Vec<String> = Vec::new();
        match output {
            Ok(o) => {
                let ls = lines_of(o.as_str());
                for i in 0..ls.len()
                    invariant
                        v.deep_view() == size_issues(ls.deep_view().take(i as int)),
                {
                    proof {
                        assert(ls.deep_view().take(i + 1).drop_last() =~= ls.deep_view().take(i as int));
                        assert(ls.deep_view()[i as int] == ls@[i as int]@);
                    }
                    let l = ls[i].as_str();
                    if starts_with(l, "size-pack") {
                        let w = words_of(l);
                        if w.len() >= 2 {
                            assert(w.deep_view()[1] == w@[1]@);
                            if ends_with(w[1].as_str(), "GiB") || str_contains(w[1].as_str(), "1024") {
                                let mut m = String::from_str("⚠️  Repository size: ");
                                m.append(w[1].as_str());
                                m.append(" (consider cleanup)");
                                let ghost before = v.deep_view();
                                v.push(m);
                                assert(v.deep_view() =~= before.push(
                                    "⚠️  Repository size: "@ + w@[1]@ + " (consider cleanup)"@,
                                ));
                            }
                        }
                    }
                }
                assert(ls.deep_view().take(ls.len() as int) =~= ls.deep_view());
            },
            Err(_) => {},
        }
        v
    }

    /// The health report from git's answers: `user.name`, `user.email`, the
    /// remotes, the local branches, the `for-each-ref` listing for stale
    /// branches, the untracked files, the staged files and
    /// `count-objects -vH` (see `health_lines`).
    pub fn execute(
        &self,
        name: Result<String>,
        email: Result<String>,
        remotes: Result<Vec<String>>,
        local: Result<Vec<String>>,
        refs: Result<String>,
        untracked: Result<String>,
        staged: Result<String>,
        size: Result<String>,
    ) -> (r: String)
        ensures
            ({
                let stale = match refs {
                    Ok(o) => Ok::<usize, GitXError>(stale_count(lines(o@)) as usize),
                    Err(e) => Err(e),
                };
                r@ == join(
                    health_lines(
                        config_issues(name, email),
                        remote_issues(remotes),
                        branch_issues(local, stale),
                        working_directory_issues(untracked, staged),
                        repository_size_issues(size),
                    ),
                    "\n"@,
                )
            }),
    {
        let c = Self::check_git_config(&name, &email);
        let rm = Self::check_remotes(&remotes);
        let stale = Self::count_stale_branches(refs);
        let b = Self::check_branches(&local, &stale);
        let w = Self::check_working_directory(&untracked, &staged);
        let s = Self::check_repository_size(&size);
        let mut out: Vec<String> = Vec::new();
        push_line(&mut out, "🏥 Repository Health Check");
        let rule = crate::base::text::repeat_of("=", 30);
        let ghost before_rule = out.deep_view();
        out.push(rule);
        assert(out.deep_view() =~= before_rule.push(repeat("="@, 30)));
        let mut all: Vec<String> = Vec::new();
        assert(all.deep_view() =~= Seq::<Seq<char>>::empty());
        Self::section(&mut out, &mut all, &c, "✅ Git configuration: OK", "❌ Git configuration: Issues found");
        Self::section(&mut out, &mut all, &rm, "✅ Remotes: OK", "⚠️  Remotes: Issues found");
        Self::section(&mut out, &mut all, &b, "✅ Branches: OK", "⚠️  Branches: Issues found");
        Self::section(&mut out, &mut all, &w, "✅ Working directory: Clean", "ℹ️  Working directory: Has notes");
        Self::section(&mut out, &mut all, &s, "✅ Repository size: OK", "⚠️  Repository size: Large");
        assert(all.deep_view() =~= c.deep_view() + rm.deep_view() + b.deep_view() + w.deep_view() + s.deep_view());
        assert(out.deep_view() =~= seq![
            "🏥 Repository Health Check"@,
            repeat("="@, 30),
            section(c.deep_view(), "✅ Git configuration: OK"@, "❌ Git configuration: Issues found"@),
            section(rm.deep_view(), "✅ Remotes: OK"@, "⚠️  Remotes: Issues found"@),
            section(b.deep_view(), "✅ Branches: OK"@, "⚠️  Branches: Issues found"@),
            section(w.deep_view(), "✅ Working directory: Clean"@, "ℹ️  Working directory: Has notes"@),
            section(s.deep_view(), "✅ Repository size: OK"@, "⚠️  Repository size: Large"@),
        ]);
        if all.len() == 0 {
            push_line(&mut out, "\n🎉 Repository is healthy!");
        } else {
            push_counted(&mut out, "\n🔧 Found ", all.len(), " issue(s):");
            let ghost mid = out.deep_view();
            for k in 0..all.len()
                invariant
                    out.deep_view() == mid + all.deep_view().take(k as int).map_values(|i: Seq<char>| "   "@ + i),
            {
                let mut l = String::from_str("   ");
                l.append(all[k].as_str());
                let ghost before = out.deep_view();
                out.push(l);
                proof {
                    assert(all.deep_view()[k as int] == all@[k as int]@);
                    assert(out.deep_view() =~= before.push("   "@ + all@[k as int]@));
                    assert(all.deep_view().take(k + 1).map_values(|i: Seq<char>| "   "@ + i) =~= all.deep_view().take(
                        k as int,
                    ).map_values(|i: Seq<char>| "   "@ + i).push("   "@ + all@[k as int]@));
                }
            }
            assert(all.deep_view().take(all.len() as int) =~= all.deep_view());
        }
        proof {
            assert(out.deep_view() =~= health_lines(
                c.deep_view(),
                rm.deep_view(),
                b.deep_view(),
                w.deep_view(),
                s.deep_view(),
            ));
        }
        join_of(&out, "\n")
    }

    /// Adds a section's status line and gathers its issues.
    fn section(out: &mut Vec<String>, all: &mut Vec<String>, issues: &Vec<String>, ok: &str, bad: &str)
        ensures
            final(out).deep_view() == old(out).deep_view().push(section(issues.deep_view(), ok@, bad@)),
            final(all).deep_view() == old(all).deep_view() + issues.deep_view(),
    {
        if issues.len() == 0 {
            push_line(out, ok);
        } else {
            push_line(out, bad);
        }
        let ghost before = all.deep_view();
        let mut more = crate::base::text::copy_strings(issues);
        all.append(&mut more);
        assert(all.deep_view() =~= before + issues.deep_view());
    }
}

impl Default for HealthCommand {
    fn default() -> (r: Self) {
        Self::new()
    }
}

impl Command for HealthCommand {
    fn name(&self) -> (r: &'static str)
        ensures
            r@ == "health"@,
    {
        "health"
    }

    fn description(&self) -> (r: &'static str)
        ensures
            r@ == "Check repository health and configuration"@,
    {
        "Check repository health and configuration"
    }
}

impl GitCommand for HealthCommand {}

// ---------------------------------------------------------------------------
// Sync
// ---------------------------------------------------------------------------

/// Sync strategies
pub enum SyncStrategy {
    Merge,
    Rebase,
    Auto,
}

/// Command to sync with upstream
pub struct SyncCommand {
    strategy: SyncStrategy,
}

/// Whether syncing merges (else it rebases): as asked, or automatically a
/// merge when there are no local commits.
pub open spec fn sync_merges(strategy: SyncStrategy, ahead: u32) -> bool {
    match strategy {
        SyncStrategy::Merge => true,
        SyncStrategy::Rebase => false,
        SyncStrategy::Auto => ahead == 0,
    }
}

/// What syncing decides from the branch information read after fetching:
/// without an upstream it fails, with nothing to take in it is done, else
/// it merges or rebases onto the upstream.
pub open spec fn sync_plan(strategy: SyncStrategy, info: Result<(String, Option<String>, u32, u32)>, r: Result<Plan>) -> bool {
    match info {
        Err(e) => r == Err::<Plan, GitXError>(e),
        Ok(i) => match i.1 {
            None => is_git_error(r, "No upstream configured for branch '"@ + i.0@ + "'"@),
            Some(u) => if i.3 == 0 {
                ok_report(r, "✅ Already up to date with upstream"@)
            } else if sync_merges(strategy, i.2) {
                ok_run(r, seq![seq!["merge"@, u@]], "✅ Merged "@ + decimal(i.3 as nat) + " commits from "@ + u@)
            } else {
                ok_run(r, seq![seq!["rebase"@, u@]], "✅ Rebased "@ + decimal(i.2 as nat) + " commits onto "@ + u@)
            },
        },
    }
}

impl SyncCommand {
    pub closed spec fn strategy_view(&self) -> SyncStrategy {
        self.strategy
    }

    pub fn new(strategy: SyncStrategy) -> (r: Self)
        ensures
            r.strategy_view() == strategy,
    {
        Self { strategy }
    }

    /// The fetch run first; its failure is the command's error.
    pub fn fetch_step(&self) -> (r: Vec<String>)
        ensures
            r.deep_view() == seq!["fetch"@],
    {
        let r = RemoteOperations::fetch(None);
        assert(r.deep_view() =~= seq!["fetch"@]);
        r
    }

    /// What the command does once fetched (see `sync_plan`).
    pub fn plan(&self, info: Result<(String, Option<String>, u32, u32)>) -> (r: Result<Plan>)
        ensures
            sync_plan(self.strategy_view(), info, r),
    {
        let (current, upstream, ahead, behind) = match info {
            Err(e) => return Err(e),
            Ok(i) => i,
        };
        let u = match upstream {
            None => {
                let mut m = String::from_str("No upstream configured for branch '");
                m.append(current.as_str());
                m.append("'");
                return Err(GitXError::GitCommand(m));
            },
            Some(u) => u,
        };
        if behind == 0 {
            return Ok(Plan::Report(String::from_str("✅ Already up to date with upstream")));
        }
        let merge = match self.strategy {
            SyncStrategy::Merge => true,
            SyncStrategy::Rebase => false,
            SyncStrategy::Auto => ahead == 0,
        };
        if merge {
            let mut a = strings(&["merge"]);
            push_str_arg(&mut a, u.as_str());
            assert(a.deep_view() =~= seq!["merge"@, u@]);
            let mut m = String::from_str("✅ Merged ");
            let n = decimal_of(behind as u64);
            m.append(n.as_str());
            m.append(" commits from ");
            m.append(u.as_str());
            Ok(Plan::one(a, m))
        } else {
            let mut a = strings(&["rebase"]);
            push_str_arg(&mut a, u.as_str());
            assert(a.deep_view() =~= seq!["rebase"@, u@]);
            let mut m = String::from_str("✅ Rebased ");
            let n = decimal_of(ahead as u64);
            m.append(n.as_str());
            m.append(" commits onto ");
            m.append(u.as_str());
            Ok(Plan::one(a, m))
        }
    }
}

impl Command for SyncCommand {
    fn name(&self) -> (r: &'static str)
        ensures
            r@ == "sync"@,
    {
        "sync"
    }

    fn description(&self) -> (r: &'static str)
        ensures
            r@ == "Sync current branch with upstream"@,
    {
        "Sync current branch with upstream"
    }
}

impl GitCommand for SyncCommand {}

// ---------------------------------------------------------------------------
// Upstream
// ---------------------------------------------------------------------------

/// Upstream actions
pub enum UpstreamAction {
    SetTo { remote: String, branch: String },
    Status,
    SyncAll,
}

/// Command to manage upstream configuration
pub struct UpstreamCommand {
    action: UpstreamAction,
}

/// The lines of the upstream status for these local branches.
pub open spec fn upstream_status_lines(bs: Seq<Seq<char>>) -> Seq<Seq<char>> {
    seq!["🔗 Upstream Status:"@] + bs.map_values(|b: Seq<char>| "📁 "@ + b + ": (checking...)"@)
}

/// The local branches other than `current`, in order.
pub open spec fn other_branches(bs: Seq<Seq<char>>, current: Seq<char>) -> Seq<Seq<char>>
    decreases bs.len(),
{
    if bs.len() == 0 {
        Seq::empty()
    } else {
        let rest = other_branches(bs.drop_last(), current);
        if bs.last() != current {
            rest.push(bs.last())
        } else {
            rest
        }
    }
}

/// How many of the flags are set.
pub open spec fn count_true(v: Seq<bool>) -> nat
    decreases v.len(),
{
    if v.len() == 0 {
        0
    } else {
        count_true(v.drop_last()) + if v.last() {
            1nat
        } else {
            0nat
        }
    }
}

impl UpstreamCommand {
    pub closed spec fn action_view(&self) -> UpstreamAction {
        self.action
    }

    pub fn new(action: UpstreamAction) -> (r: Self)
        ensures
            r.action_view() == action,
    {
        Self { action }
    }

    /// Setting the upstream of the current branch to `remote/branch`.
    pub fn set_plan(remote: &str, branch: &str) -> (r: Plan)
        ensures
            runs(
                r,
                seq![seq!["branch"@, "--set-upstream-to"@, remote@ + "/"@ + branch@]],
                "✅ Set upstream to "@ + remote@ + "/"@ + branch@,
            ),
    {
        let mut m = String::from_str("✅ Set upstream to ");
        m.append(remote);
        m.append("/");
        m.append(branch);
        Plan::one(RemoteOperations::set_upstream(remote, branch), m)
    }

    /// The upstream status of the local branches.
    pub fn status(local: Result<Vec<String>>) -> (r: Result<String>)
        ensures
            match local {
                Err(e) => r == Err::<String, GitXError>(e),
                Ok(bs) => r matches Ok(t) && t@ == join(upstream_status_lines(bs.deep_view()), "\n"@),
            },
    {
        let bs = match local {
            Err(e) => return Err(e),
            Ok(bs) => bs,
        };
        let mut output = BufferedOutput::new();
        output.add_line(String::from_str("🔗 Upstream Status:"));
        for k in 0..bs.len()
            invariant
                output@ == upstream_status_lines(bs.deep_view().take(k as int)),
        {
            let mut l = String::from_str("📁 ");
            l.append(bs[k].as_str());
            l.append(": (checking...)");
            output.add_line(l);
            proof {
                assert(bs.deep_view()[k as int] == bs@[k as int]@);
                assert(upstream_status_lines(bs.deep_view().take(k + 1)) =~= upstream_status_lines(
                    bs.deep_view().take(k as int),
                ).push("📁 "@ + bs@[k as int]@ + ": (checking...)"@));
            }
        }
        assert(bs.deep_view().take(bs.len() as int) =~= bs.deep_view());
        Ok(output.content())
    }

    /// The branches that syncing all visits: every local branch but the
    /// current one. Each is checked out and synced automatically; afterwards
    /// the current branch is checked out again.
    pub fn sync_all_targets(current: Result<String>, local: Result<Vec<String>>) -> (r: Result<Vec<String>>)
        ensures
            match current {
                Err(e) => r == Err::<Vec<String>, GitXError>(e),
                Ok(c) => match local {
                    Err(e) => r == Err::<Vec<String>, GitXError>(e),
                    Ok(bs) => r matches Ok(v) && v.deep_view() == other_branches(bs.deep_view(), c@),
                },
            },
    {
        let c = match current {
            Err(e) => return Err(e),
            Ok(c) => c,
        };
        let bs = match local {
            Err(e) => return Err(e),
            Ok(bs) => bs,
        };
        let mut v: Vec<String> = Vec::new();
        for k in 0..bs.len()
            invariant
                v.deep_view() == other_branches(bs.deep_view().take(k as int), c@),
        {
            proof {
                assert(bs.deep_view().take(k + 1).drop_last() =~= bs.deep_view().take(k as int));
                assert(bs.deep_view()[k as int] == bs@[k as int]@);
            }
            if !str_eq(bs[k].as_str(), c.as_str()) {
                let ghost before = v.deep_view();
                v.push(owned(bs[k].as_str()));
                assert(v.deep_view() =~= before.push(bs@[k as int]@));
            }
        }
        assert(bs.deep_view().take(bs.len() as int) =~= bs.deep_view());
        Ok(v)
    }

    /// The report of syncing all: `synced[i]` tells whether the i-th branch
    /// was checked out and synced.
    pub fn sync_all_report(synced: &Vec<bool>) -> (r: String)
        ensures
            r@ == "✅ Synced "@ + decimal(count_true(synced@)) + " branches"@,
    {
        let mut n: usize = 0;
        for k in 0..synced.len()
            invariant
                n == count_true(synced@.take(k as int)),
                n <= k,
        {
            assert(synced@.take(k + 1).drop_last() =~= synced@.take(k as int));
            if synced[k] {
                n = n + 1;
            }
        }
        assert(synced@.take(synced.len() as int) =~= synced@);
        let mut m = String::from_str("✅ Synced ");
        let d = decimal_of(n as u64);
        m.append(d.as_str());
        m.append(" branches");
        m
    }
}

impl Command for UpstreamCommand {
    fn name(&self) -> (r: &'static str)
        ensures
            r@ == "upstream"@,
    {
        "upstream"
    }

    fn description(&self) -> (r: &'static str)
        ensures
            r@ == "Manage upstream branch configuration"@,
    {
        "Manage upstream branch configuration"
    }
}

impl GitCommand for UpstreamCommand {}

// ---------------------------------------------------------------------------
// New branch
// ---------------------------------------------------------------------------

/// Command to create a new branch
pub struct NewBranchCommand {
    branch_name: String,
    from: Option<String>,
}

/// What creating branch `name` from `from` decides from git's answers:
/// whether the branch exists, whether `from` names a branch or a valid ref,
/// and the current branch (the base when no `from` is given). An empty name
/// is refused as "Branch name cannot be empty"; another name that
/// `Validate::branch_name` refuses is refused with its error; both before
/// any step. The report's
/// lines hold the names in bold (`bn` the new branch in the first line,
/// `bb` the base, `bn2` the new branch in the second line).
pub open spec fn new_branch_plan(
    name: Seq<char>,
    from: Option<Seq<char>>,
    exists: bool,
    from_is_branch: bool,
    from_is_ref: bool,
    current: Result<String>,
    r: Result<Plan>,
) -> bool {
    if name.len() == 0 {
        is_git_error(r, "Branch name cannot be empty"@)
    } else if !branch_name_ok(name) {
        is_parse_error(r, branch_name_error(name))
    } else if exists {
        is_git_error(r, "Branch '"@ + name + "' already exists"@)
    } else {
        match from {
            Some(b) => if !from_is_branch && !from_is_ref {
                is_git_error(r, "Base branch or ref '"@ + b + "' does not exist"@)
            } else {
                new_branch_steps(name, b, r)
            },
            None => match current {
                Err(e) => r == Err::<Plan, GitXError>(e),
                Ok(c) => new_branch_steps(name, c@, r),
            },
        }
    }
}

/// Creating `name` at `base`, then checking it out.
pub open spec fn new_branch_steps(name: Seq<char>, base: Seq<char>, r: Result<Plan>) -> bool {
    exists|bn: Seq<char>, bb: Seq<char>, bn2: Seq<char>|
        is_bold_of(bn, name) && is_bold_of(bb, base) && is_bold_of(bn2, name) && ok_run(
            r,
            seq![seq!["branch"@, name, base], seq!["checkout"@, name]],
            "🌿 Creating new branch '"@ + bn + "' from '"@ + bb + "'"@ + "\n"@
                + "✅ Successfully created and switched to branch '"@ + bn2 + "'"@,
        )
}

/// `git x new` refuses a name that is not a valid branch name before any
/// git step: an empty name as "Branch name cannot be empty", another as
/// the validation's parse error.
pub proof fn law_new_branch_refuses_bad_names(
    name: Seq<char>,
    from: Option<Seq<char>>,
    exists: bool,
    from_is_branch: bool,
    from_is_ref: bool,
    current: Result<String>,
    r: Result<Plan>,
)
    requires
        !branch_name_ok(name),
        new_branch_plan(name, from, exists, from_is_branch, from_is_ref, current, r),
    ensures
        r is Err,
        name.len() == 0 ==> is_git_error(r, "Branch name cannot be empty"@),
        name.len() > 0 ==> is_parse_error(r, branch_name_error(name)),
{
}

impl NewBranchCommand {
    pub closed spec fn name_view(&self) -> Seq<char> {
        self.branch_name@
    }

    pub closed spec fn from_view(&self) -> Option<Seq<char>> {
        match self.from {
            Some(f) => Some(f@),
            None => None,
        }
    }

    pub fn new(branch_name: String, from: Option<String>) -> (r: Self)
        ensures
            r.name_view() == branch_name@,
            r.from_view() == match from {
                Some(f) => Some(f@),
                None => None::<Seq<char>>,
            },
    {
        Self { branch_name, from }
    }

    /// The arguments that succeed exactly when branch `name` exists.
    pub fn branch_exists_args(name: &str) -> (r: Vec<String>)
        ensures
            r.deep_view() == seq!["show-ref"@, "--verify"@, "--quiet"@, "refs/heads/"@ + name@],
    {
        let mut target = String::from_str("refs/heads/");
        target.append(name);
        let mut r = strings(&["show-ref", "--verify", "--quiet"]);
        push_str_arg(&mut r, target.as_str());
        assert(r.deep_view() =~= seq!["show-ref"@, "--verify"@, "--quiet"@, "refs/heads/"@ + name@]);
        r
    }

    /// The arguments that succeed exactly when `name` is a valid ref.
    pub fn valid_ref_args(name: &str) -> (r: Vec<String>)
        ensures
            r.deep_view() == seq!["rev-parse"@, "--verify"@, "--quiet"@, name@],
    {
        let mut r = strings(&["rev-parse", "--verify", "--quiet"]);
        push_str_arg(&mut r, name);
        assert(r.deep_view() =~= seq!["rev-parse"@, "--verify"@, "--quiet"@, name@]);
        r
    }

    /// What the command does (see `new_branch_plan`).
    pub fn plan(&self, exists: bool, from_is_branch: bool, from_is_ref: bool, current: Result<String>) -> (r: Result<Plan>)
        ensures
            new_branch_plan(self.name_view(), self.from_view(), exists, from_is_branch, from_is_ref, current, r),
    {
        if self.branch_name.as_str().is_empty() {
            return Err(GitXError::GitCommand(owned("Branch name cannot be empty")));
        }
        match Validate::branch_name(self.branch_name.as_str()) {
            Err(e) => return Err(e),
            Ok(()) => {},
        }
        if exists {
            let mut m = String::from_str("Branch '");
            m.append(self.branch_name.as_str());
            m.append("' already exists");
            return Err(GitXError::GitCommand(m));
        }
        let base = match &self.from {
            Some(b) => {
                if !from_is_branch && !from_is_ref {
                    let mut m = String::from_str("Base branch or ref '");
                    m.append(b.as_str());
                    m.append("' does not exist");
                    return Err(GitXError::GitCommand(m));
                }
                owned(b.as_str())
            },
            None => match current {
                Err(e) => return Err(e),
                Ok(c) => c,
            },
        };
        let name = self.branch_name.as_str();
        let bn = Format::bold(name);
        let bb = Format::bold(base.as_str());
        let bn2 = Format::bold(name);
        let mut m = String::from_str("🌿 Creating new branch '");
        m.append(bn.as_str());
        m.append("' from '");
        m.append(bb.as_str());
        m.append("'");
        m.append("\n");
        m.append("✅ Successfully created and switched to branch '");
        m.append(bn2.as_str());
        m.append("'");
        let mut create = strings(&["branch"]);
        push_str_arg(&mut create, name);
        push_str_arg(&mut create, base.as_str());
        let checkout = BranchOperations::switch(name);
        let ghost v0 = create.deep_view();
        let ghost v1 = checkout.deep_view();
        assert(v0 =~= seq!["branch"@, self.name_view(), base@]);
        let mut steps: Vec<Vec<String>> = Vec::new();
        steps.push(create);
        steps.push(checkout);
        assert(steps_view(steps@) =~= seq![v0, v1]);
        let r = Ok(Plan::Run { steps, then: m });
        assert(new_branch_steps(self.name_view(), base@, r));
        r
    }
}

impl Command for NewBranchCommand {
    fn name(&self) -> (r: &'static str)
        ensures
            r@ == "new-branch"@,
    {
        "new-branch"
    }

    fn description(&self) -> (r: &'static str)
        ensures
            r@ == "Create and switch to a new branch"@,
    {
        "Create and switch to a new branch"
    }
}

impl GitCommand for NewBranchCommand {}

// ---------------------------------------------------------------------------
// Grouped
// ---------------------------------------------------------------------------

/// Repository-level commands grouped together
pub struct RepositoryCommands;

impl RepositoryCommands {
    /// Repository information (see `InfoCommand::execute`).
    pub fn info(
        root: Result<String>,
        info: Result<(String, Option<String>, u32, u32)>,
        clean: Result<bool>,
        staged: Result<Vec<String>>,
    ) -> (r: Result<String>)
        ensures
            info_report(false, root, info, clean, staged, Seq::empty(), r),
    {
        InfoCommand::new().execute(root, info, clean, staged, Err(GitXError::GitCommand(String::new())))
    }

    /// Repository health check (see `HealthCommand::execute`).
    pub fn health(
        name: Result<String>,
        email: Result<String>,
        remotes: Result<Vec<String>>,
        local: Result<Vec<String>>,
        refs: Result<String>,
        untracked: Result<String>,
        staged: Result<String>,
        size: Result<String>,
    ) -> (r: String)
        ensures
            ({
                let stale = match refs {
                    Ok(o) => Ok::<usize, GitXError>(stale_count(lines(o@)) as usize),
                    Err(e) => Err(e),
                };
                r@ == join(
                    health_lines(
                        config_issues(name, email),
                        remote_issues(remotes),
                        branch_issues(local, stale),
                        working_directory_issues(untracked, staged),
                        repository_size_issues(size),
                    ),
                    "\n"@,
                )
            }),
    {
        HealthCommand::new().execute(name, email, remotes, local, refs, untracked, staged, size)
    }

    /// Sync with upstream, after fetching (see `SyncCommand::plan`).
    pub fn sync(strategy: SyncStrategy, info: Result<(String, Option<String>, u32, u32)>) -> (r: Result<Plan>)
        ensures
            sync_plan(strategy, info, r),
    {
        SyncCommand::new(strategy).plan(info)
    }

    /// Set the upstream (the other upstream actions read more of git: see
    /// `UpstreamCommand`).
    pub fn upstream(remote: &str, branch: &str) -> (r: Plan)
        ensures
            runs(
                r,
                seq![seq!["branch"@, "--set-upstream-to"@, remote@ + "/"@ + branch@]],
                "✅ Set upstream to "@ + remote@ + "/"@ + branch@,
            ),
    {
        UpstreamCommand::set_plan(remote, branch)
    }

    /// Create a new branch (see `NewBranchCommand::plan`).
    pub fn new_branch(
        branch_name: String,
        from: Option<String>,
        exists: bool,
        from_is_branch: bool,
        from_is_ref: bool,
        current: Result<String>,
    ) -> (r: Result<Plan>)
        ensures
            new_branch_plan(
                branch_name@,
                match from {
                    Some(f) => Some(f@),
                    None => None,
                },
                exists,
                from_is_branch,
                from_is_ref,
                current,
                r,
            ),
    {
        NewBranchCommand::new(branch_name, from).plan(exists, from_is_branch, from_is_ref, current)
    }
}

} // verus!
