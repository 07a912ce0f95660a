//! Analysis commands: commit graphs, commits since a reference, branch
//! comparison, contributors, summaries and technical debt.
use vstd::prelude::*;
use crate::adapters::formatters::{medal, medal_of};
use crate::base::git::{strings, push_str_arg};
use crate::base::output::{BufferedOutput, Format, is_bold_of};
use crate::base::text::{
    decimal, decimal_of, join, join_of, lines, lines_of, owned, repeat, repeat_of, trim, trim_str, words, words_of,
    str_eq,
};
use crate::base::traits::{Command, GitCommand};
use crate::contributors::{ContributorStats, StatsView, commit_records, contributors_of, ranked_contributors};
use crate::base::rank::{is_ranking, rank_desc};
use crate::base::tally::{firsts, lemma_firsts_contains, lemma_firsts_distinct, lemma_firsts_push};
use crate::base::text::{chars_of, find, find_in, parse_u32, parse_u32_of, splitn, splitn_of, string_of};
use crate::domain::git_repository::{repo_name, repo_name_of};
use crate::{GitXError, Result, is_git_error};
use crate::technical_debt::{lemma_ranked_descending, rank_files_by_count, ranked_by_count, hotspots};
use chrono::Datelike;

verus! {

// ---------------------------------------------------------------------------
// Graphs
// ---------------------------------------------------------------------------

/// Command to show colored commit graph
pub struct ColorGraphCommand;

impl ColorGraphCommand {
    pub fn new() -> (r: Self) {
        Self
    }

    /// The arguments of the colored graph: the 20 latest commits of all
    /// branches, hashes, refs, subjects and relative dates.
    pub fn args(&self) -> (r: Vec<String>)
        ensures
            r.deep_view() == seq![
                "log"@,
                "--graph"@,
                "--pretty=format:%C(auto)%h%d %s %C(black)%C(bold)%cr"@,
                "--abbrev-commit"@,
                "--all"@,
                "-20"@,
            ],
    {
        let r = strings(
            &["log", "--graph", "--pretty=format:%C(auto)%h%d %s %C(black)%C(bold)%cr", "--abbrev-commit", "--all", "-20"],
        );
        assert(r.deep_view() =~= seq![
            "log"@,
            "--graph"@,
            "--pretty=format:%C(auto)%h%d %s %C(black)%C(bold)%cr"@,
            "--abbrev-commit"@,
            "--all"@,
            "-20"@,
        ]);
        r
    }
}

impl Default for ColorGraphCommand {
    fn default() -> (r: Self) {
        Self::new()
    }
}

impl Command for ColorGraphCommand {
    fn name(&self) -> (r: &'static str)
        ensures
            r@ == "color-graph"@,
    {
        "color-graph"
    }

    fn description(&self) -> (r: &'static str)
        ensures
            r@ == "Show a colored commit graph"@,
    {
        "Show a colored commit graph"
    }
}

impl GitCommand for ColorGraphCommand {}

/// Command to show simple commit graph
pub struct GraphCommand;

impl GraphCommand {
    pub fn new() -> (r: Self) {
        Self
    }

    /// The arguments of the simple graph: the 20 latest commits of all
    /// branches, one line each.
    pub fn args(&self) -> (r: Vec<String>)
        ensures
            r.deep_view() == seq!["log"@, "--graph"@, "--oneline"@, "--all"@, "-20"@],
    {
        let r = strings(&["log", "--graph", "--oneline", "--all", "-20"]);
        assert(r.deep_view() =~= seq!["log"@, "--graph"@, "--oneline"@, "--all"@, "-20"@]);
        r
    }
}

impl Default for GraphCommand {
    fn default() -> (r: Self) {
        Self::new()
    }
}

impl Command for GraphCommand {
    fn name(&self) -> (r: &'static str)
        ensures
            r@ == "graph"@,
    {
        "graph"
    }

    fn description(&self) -> (r: &'static str)
        ensures
            r@ == "Show a simple commit graph"@,
    {
        "Show a simple commit graph"
    }
}

impl GitCommand for GraphCommand {}

// ---------------------------------------------------------------------------
// Since
// ---------------------------------------------------------------------------

/// Command to show commits since a certain time or reference
pub struct SinceCommand {
    reference: String,
}

/// `• <line>\n` for each line.
pub open spec fn bullet_lines(ls: Seq<Seq<char>>) -> Seq<char>
    decreases ls.len(),
{
    if ls.len() == 0 {
        Seq::empty()
    } else {
        bullet_lines(ls.drop_last()) + "• "@ + ls.last() + "\n"@
    }
}

/// What `since` reports for `reference` from git's answers: the log of the
/// range `reference..HEAD` and, when that fails, the log since the time
/// `reference`.
pub open spec fn since_report(reference: Seq<char>, range_log: Result<String>, time_log: Result<String>, r: Result<String>) -> bool {
    match range_log {
        Ok(o) => if trim(o@).len() > 0 {
            r matches Ok(t) && t@ == "🔍 Commits since "@ + reference + ":\n"@ + o@
        } else {
            r matches Ok(t) && t@ == "✅ No new commits since "@ + reference
        },
        Err(_) => match time_log {
            Err(e) => r == Err::<String, GitXError>(e),
            Ok(o) => if trim(o@).len() == 0 {
                r matches Ok(t) && t@ == "✅ No commits found since '"@ + reference + "'"@
            } else {
                r matches Ok(t) && t@ == "📅 Commits since '"@ + reference + "':\n"@ + repeat("="@, 50) + "\n"@
                    + bullet_lines(lines(o@))
            },
        },
    }
}

impl SinceCommand {
    pub closed spec fn reference_view(&self) -> Seq<char> {
        self.reference@
    }

    pub fn new(reference: String) -> (r: Self)
        ensures
            r.reference_view() == reference@,
    {
        Self { reference }
    }

    /// The arguments of the log of the range `reference..HEAD`.
    pub fn range_args(&self) -> (r: Vec<String>)
        ensures
            r.deep_view() == seq!["log"@, self.reference_view() + "..HEAD"@, "--pretty=format:- %h %s"@],
    {
        let mut range = owned(self.reference.as_str());
        range.append("..HEAD");
        let mut r = strings(&["log"]);
        push_str_arg(&mut r, range.as_str());
        push_str_arg(&mut r, "--pretty=format:- %h %s");
        assert(r.deep_view() =~= seq!["log"@, self.reference_view() + "..HEAD"@, "--pretty=format:- %h %s"@]);
        r
    }

    /// The arguments of the log since the time `reference`.
    pub fn time_args(&self) -> (r: Vec<String>)
        ensures
            r.deep_view() == seq!["log"@, "--oneline"@, "--since"@, self.reference_view()],
    {
        let mut r = strings(&["log", "--oneline", "--since"]);
        push_str_arg(&mut r, self.reference.as_str());
        assert(r.deep_view() =~= seq!["log"@, "--oneline"@, "--since"@, self.reference_view()]);
        r
    }

    /// The report (see `since_report`).
    pub fn execute(&self, range_log: Result<String>, time_log: Result<String>) -> (r: Result<String>)
        ensures
            since_report(self.reference_view(), range_log, time_log, r),
    {
        match range_log {
            Ok(o) => {
                let t = trim_str(o.as_str());
                if !t.as_str().is_empty() {
                    let mut m = String::from_str("🔍 Commits since ");
                    m.append(self.reference.as_str());
                    m.append(":\n");
                    m.append(o.as_str());
                    return Ok(m);
                } else {
                    let mut m = String::from_str("✅ No new commits since ");
                    m.append(self.reference.as_str());
                    return Ok(m);
                }
            },
            Err(_) => {},
        }
        let o = match time_log {
            Err(e) => return Err(e),
            Ok(o) => o,
        };
        let t = trim_str(o.as_str());
        if t.as_str().is_empty() {
            let mut m = String::from_str("✅ No commits found since '");
            m.append(self.reference.as_str());
            m.append("'");
            return Ok(m);
        }
        let mut m = String::from_str("📅 Commits since '");
        m.append(self.reference.as_str());
        m.append("':\n");
        let rule = repeat_of("=", 50);
        m.append(rule.as_str());
        m.append("\n");
        let ghost head = m@;
        let ls = lines_of(o.as_str());
        for i in 0..ls.len()
            invariant
                m@ == head + bullet_lines(ls.deep_view().take(i as int)),
        {
            proof {
                assert(ls.deep_view().take(i + 1).drop_last() =~= ls.deep_view().take(i as int));
                assert(ls.deep_view()[i as int] == ls@[i as int]@);
            }
            m.append("• ");
            m.append(ls[i].as_str());
            m.append("\n");
        }
        assert(ls.deep_view().take(ls.len() as int) =~= ls.deep_view());
        Ok(m)
    }
}

impl Command for SinceCommand {
    fn name(&self) -> (r: &'static str)
        ensures
            r@ == "since"@,
    {
        "since"
    }

    fn description(&self) -> (r: &'static str)
        ensures
            r@ == "Show commits since a reference (e.g., cb676ec, origin/main) or time"@,
    {
        "Show commits since a reference (e.g., cb676ec, origin/main) or time"
    }
}

impl GitCommand for SinceCommand {}

// ---------------------------------------------------------------------------
// What
// ---------------------------------------------------------------------------

/// Command to analyze what changed between branches
pub struct WhatCommand {
    target: Option<String>,
}

/// The symbol of a `--name-status` status letter.
pub open spec fn status_symbol(status: Seq<char>) -> Seq<char> {
    if status == "A"@ {
        "➕"@
    } else if status == "M"@ {
        "🔄"@
    } else if status == "D"@ {
        "➖"@
    } else {
        "❓"@
    }
}

/// A `--name-status` line as git-x shows it, when it has two words.
pub open spec fn diff_line(line: Seq<char>) -> Option<Seq<char>> {
    let w = words(line);
    if w.len() >= 2 {
        Some(" "@ + status_symbol(w[0]) + " "@ + w[1])
    } else {
        None
    }
}

/// The shown lines of a `--name-status` listing.
pub open spec fn diff_lines(ls: Seq<Seq<char>>) -> Seq<Seq<char>>
    decreases ls.len(),
{
    if ls.len() == 0 {
        Seq::empty()
    } else {
        let rest = diff_lines(ls.drop_last());
        match diff_line(ls.last()) {
            Some(l) => rest.push(l),
            None => rest,
        }
    }
}

/// The (ahead, behind) counts of `rev-list --left-right --count`: behind
/// first, each "0" when missing.
pub open spec fn commit_counts_of(output: Seq<char>) -> (Seq<char>, Seq<char>) {
    let w = words(output);
    (if w.len() >= 2 { w[1] } else { "0"@ }, if w.len() >= 1 { w[0] } else { "0"@ })
}

/// What `what` reports from git's answers: the current branch, the counts
/// of `rev-list --left-right --count target...current` and the
/// `diff --name-status` of that range. Branch names are in bold
/// (`bc`, `bt`).
pub open spec fn what_lines(bc: Seq<char>, bt: Seq<char>, counts: Seq<char>, diff: Seq<char>) -> Seq<Seq<char>> {
    let (ahead, behind) = commit_counts_of(counts);
    seq![
        "🔍 Branch: "@ + bc + " vs "@ + bt,
        "📈 "@ + ahead + " commits ahead"@,
        "📉 "@ + behind + " commits behind"@,
    ] + if trim(diff).len() > 0 {
        seq!["📝 Changes:"@] + diff_lines(lines(diff))
    } else {
        seq!["✅ No file changes"@]
    }
}

impl WhatCommand {
    pub closed spec fn target_view(&self) -> Option<Seq<char>> {
        match self.target {
            Some(t) => Some(t@),
            None => None,
        }
    }

    pub fn new(target: Option<String>) -> (r: Self)
        ensures
            r.target_view() == match target {
                Some(t) => Some(t@),
                None => None::<Seq<char>>,
            },
    {
        Self { target }
    }

    /// The branch compared with when none is given.
    pub fn get_default_target(&self) -> (r: String)
        ensures
            r@ == "main"@,
    {
        String::from_str("main")
    }

    /// The branch compared with.
    pub fn target_branch(&self) -> (r: String)
        ensures
            r@ == match self.target_view() {
                Some(t) => t,
                None => "main"@,
            },
    {
        match &self.target {
            Some(t) => owned(t.as_str()),
            None => self.get_default_target(),
        }
    }

    /// The heading: both branches in bold.
    pub fn format_branch_comparison(&self, current: &str, target: &str) -> (r: String)
        ensures
            exists|bc: Seq<char>, bt: Seq<char>|
                is_bold_of(bc, current@) && is_bold_of(bt, target@) && r@ == "🔍 Branch: "@ + bc + " vs "@ + bt,
    {
        let mut m = String::from_str("🔍 Branch: ");
        let bc = Format::bold(current);
        m.append(bc.as_str());
        m.append(" vs ");
        let bt = Format::bold(target);
        m.append(bt.as_str());
        m
    }

    /// The (ahead, behind) counts (see `commit_counts_of`).
    pub fn parse_commit_counts(&self, output: &str) -> (r: (String, String))
        ensures
            (r.0@, r.1@) == commit_counts_of(output@),
    {
        let w = words_of(output);
        let behind = if w.len() >= 1 {
            assert(w.deep_view()[0] == w@[0]@);
            owned(w[0].as_str())
        } else {
            String::from_str("0")
        };
        let ahead = if w.len() >= 2 {
            assert(w.deep_view()[1] == w@[1]@);
            owned(w[1].as_str())
        } else {
            String::from_str("0")
        };
        (ahead, behind)
    }

    /// The lines of the counts.
    pub fn format_commit_counts(&self, ahead: &str, behind: &str) -> (r: (String, String))
        ensures
            r.0@ == "📈 "@ + ahead@ + " commits ahead"@,
            r.1@ == "📉 "@ + behind@ + " commits behind"@,
    {
        let mut a = String::from_str("📈 ");
        a.append(ahead);
        a.append(" commits ahead");
        let mut b = String::from_str("📉 ");
        b.append(behind);
        b.append(" commits behind");
        (a, b)
    }

    /// The symmetric range `target...current`.
    pub fn format_rev_list_range(&self, target: &str, current: &str) -> (r: String)
        ensures
            r@ == target@ + "..."@ + current@,
    {
        let mut r = owned(target);
        r.append("...");
        r.append(current);
        r
    }

    /// The symbol of a status letter (see `status_symbol`).
    pub fn git_status_to_symbol(&self, status: &str) -> (r: &'static str)
        ensures
            r@ == status_symbol(status@),
    {
        if str_eq(status, "A") {
            "➕"
        } else if str_eq(status, "M") {
            "🔄"
        } else if str_eq(status, "D") {
            "➖"
        } else {
            "❓"
        }
    }

    /// A `--name-status` line as shown (see `diff_line`).
    pub fn format_diff_line(&self, line: &str) -> (r: Option<String>)
        ensures
            match diff_line(line@) {
                Some(l) => r matches Some(s) && s@ == l,
                None => r is None,
            },
    {
        let w = words_of(line);
        if w.len() >= 2 {
            assert(w.deep_view()[0] == w@[0]@);
            assert(w.deep_view()[1] == w@[1]@);
            let mut m = String::from_str(" ");
            m.append(self.git_status_to_symbol(w[0].as_str()));
            m.append(" ");
            m.append(w[1].as_str());
            Some(m)
        } else {
            None
        }
    }

    /// The report (see `what_lines`): the current branch's error is passed
    /// on, then those of the two git answers.
    pub fn execute(&self, current: Result<String>, counts: Result<String>, diff: Result<String>) -> (r: Result<String>)
        ensures
            match current {
                Err(e) => r == Err::<String, GitXError>(e),
                Ok(c) => match counts {
                    Err(e) => r == Err::<String, GitXError>(e),
                    Ok(n) => match diff {
                        Err(e) => r == Err::<String, GitXError>(e),
                        Ok(d) => r matches Ok(t) && exists|bc: Seq<char>, bt: Seq<char>|
                            is_bold_of(bc, c@) && is_bold_of(
                                bt,
                                match self.target_view() {
                                    Some(t) => t,
                                    None => "main"@,
                                },
                            ) && t@ == join(what_lines(bc, bt, n@, d@), "\n"@),
                    },
                },
            },
    {
        let target = self.target_branch();
        let c = match current {
            Err(e) => return Err(e),
            Ok(c) => c,
        };
        let mut out: Vec<String> = Vec::new();
        let heading = self.format_branch_comparison(c.as_str(), target.as_str());
        let ghost (bc, bt) = choose|bc: Seq<char>, bt: Seq<char>|
            is_bold_of(bc, c@) && is_bold_of(bt, target@) && heading@ == "🔍 Branch: "@ + bc + " vs "@ + bt;
        out.push(heading);
        let n = match counts {
            Err(e) => return Err(e),
            Ok(n) => n,
        };
        let (ahead, behind) = self.parse_commit_counts(n.as_str());
        let (am, bm) = self.format_commit_counts(ahead.as_str(), behind.as_str());
        out.push(am);
        out.push(bm);
        let d = match diff {
            Err(e) => return Err(e),
            Ok(d) => d,
        };
        let t = trim_str(d.as_str());
        let ghost top = out.deep_view();
        if !t.as_str().is_empty() {
            out.push(String::from_str("📝 Changes:"));
            let ghost mid = out.deep_view();
            let ls = lines_of(d.as_str());
            for i in 0..ls.len()
                invariant
                    out.deep_view() == mid + diff_lines(ls.deep_view().take(i as int)),
            {
                proof {
                    assert(ls.deep_view().take(i + 1).drop_last() =~= ls.deep_view().take(i as int));
                    assert(ls.deep_view()[i as int] == ls@[i as int]@);
                }
                match self.format_diff_line(ls[i].as_str()) {
                    Some(l) => {
                        let ghost before = out.deep_view();
                        let ghost lv = l@;
                        out.push(l);
                        assert(out.deep_view() =~= before.push(lv));
                    },
                    None => {},
                }
            }
            assert(ls.deep_view().take(ls.len() as int) =~= ls.deep_view());
        } else {
            out.push(String::from_str("✅ No file changes"));
        }
        assert(out.deep_view() =~= what_lines(bc, bt, n@, d@));
        Ok(join_of(&out, "\n"))
    }
}

impl Command for WhatCommand {
    fn name(&self) -> (r: &'static str)
        ensures
            r@ == "what"@,
    {
        "what"
    }

    fn description(&self) -> (r: &'static str)
        ensures
            r@ == "Analyze what changed between current branch and target"@,
    {
        "Analyze what changed between current branch and target"
    }
}

impl GitCommand for WhatCommand {}

// ---------------------------------------------------------------------------
// Contributors
// ---------------------------------------------------------------------------

/// The period a report covers: the `since` value, or "all time".
pub open spec fn period_of(since: Option<Seq<char>>) -> Seq<char> {
    match since {
        Some(s) => s,
        None => "all time"@,
    }
}

/// The two lines of a contributor in the parallel report.
pub open spec fn contributor_entry(i: int, c: StatsView) -> Seq<Seq<char>> {
    seq![
        medal(i) + " "@ + c.0 + " "@ + decimal(c.2) + " commits"@,
        "   📧 "@ + c.1 + " | 📅 "@ + c.3 + " to "@ + c.4,
    ]
}

/// The entries of the first `n` contributors.
pub open spec fn contributor_entries(v: Seq<StatsView>, n: nat) -> Seq<Seq<char>>
    decreases n,
{
    if n == 0 {
        Seq::empty()
    } else {
        contributor_entries(v, (n - 1) as nat) + contributor_entry(n - 1, v[n - 1])
    }
}

/// The lines of the parallel contributors report: the 20 most active.
pub open spec fn parallel_contributor_lines(period: Seq<char>, v: Seq<StatsView>) -> Seq<Seq<char>> {
    seq!["👥 Contributors ("@ + period + ")"@, repeat("="@, 50)] + contributor_entries(
        v,
        if v.len() < 20 { v.len() } else { 20 },
    )
}

/// The contributor statistics as plain values.
pub open spec fn stats_views(v: Seq<ContributorStats>) -> Seq<StatsView> {
    v.map_values(|c: ContributorStats| c@)
}

/// Parallel version of ContributorsCommand: the same statistics, lines with
/// more or fewer than three fields skipped.
pub struct ParallelContributorsCommand {
    since: Option<String>,
}

impl ParallelContributorsCommand {
    pub closed spec fn since_view(&self) -> Option<Seq<char>> {
        match self.since {
            Some(s) => Some(s@),
            None => None,
        }
    }

    pub fn new(since: Option<String>) -> (r: Self)
        ensures
            r.since_view() == match since {
                Some(s) => Some(s@),
                None => None::<Seq<char>>,
            },
    {
        Self { since }
    }

    /// The arguments of the commit log read (with `--since` when given).
    pub fn log_args(&self) -> (r: Vec<String>)
        ensures
            r.deep_view() == seq!["log"@, "--all"@, "--format=%ae|%an|%ad"@, "--date=short"@] + match self.since_view() {
                Some(s) => seq!["--since"@, s],
                None => Seq::empty(),
            },
    {
        contributor_log_args(&self.since)
    }

    /// The report from the commit log (see `parallel_contributor_lines`;
    /// an empty log is "No commits found").
    pub fn execute_parallel(&self, output: Result<String>) -> (r: Result<String>)
        ensures
            match output {
                Err(e) => r == Err::<String, GitXError>(e),
                Ok(o) => if trim(o@).len() == 0 {
                    r matches Ok(t) && t@ == "No commits found"@
                } else {
                    r matches Ok(t) && exists|v: Seq<StatsView>|
                        ranked_contributors(commit_records(lines(o@), true), v) && t@ == join(
                            parallel_contributor_lines(period_of(self.since_view()), v),
                            "\n"@,
                        )
                },
            },
    {
        let o = match output {
            Err(e) => return Err(e),
            Ok(o) => o,
        };
        let t = trim_str(o.as_str());
        if t.as_str().is_empty() {
            return Ok(String::from_str("No commits found"));
        }
        let cs = contributors_of(o.as_str(), true);
        let ghost v = stats_views(cs@);
        let mut output = BufferedOutput::new();
        let mut head = String::from_str("👥 Contributors (");
        match &self.since {
            Some(s) => head.append(s.as_str()),
            None => head.append("all time"),
        }
        head.append(")");
        output.add_line(head);
        output.add_line(repeat_of("=", 50));
        let ghost top = output@;
        let n = if cs.len() < 20 { cs.len() } else { 20 };
        for i in 0..n
            invariant
                n <= cs.len(),
                v == stats_views(cs@),
                output@ == top + contributor_entries(v, i as nat),
        {
            let c = &cs[i];
            let mut l1 = String::from_str(medal_of(i));
            l1.append(" ");
            l1.append(c.name.as_str());
            l1.append(" ");
            let d = decimal_of(c.commit_count as u64);
            l1.append(d.as_str());
            l1.append(" commits");
            let mut l2 = String::from_str("   📧 ");
            l2.append(c.email.as_str());
            l2.append(" | 📅 ");
            l2.append(c.first_commit.as_str());
            l2.append(" to ");
            l2.append(c.last_commit.as_str());
            let ghost before = output@;
            output.add_line(l1);
            output.add_line(l2);
            proof {
                assert(v[i as int] == cs@[i as int]@);
                assert(output@ =~= before + contributor_entry(i as int, v[i as int]));
                assert(contributor_entries(v, (i + 1) as nat) == contributor_entries(v, i as nat) + contributor_entry(
                    i as int,
                    v[i as int],
                ));
                assert(output@ =~= top + contributor_entries(v, (i + 1) as nat));
            }
        }
        assert(output@ =~= parallel_contributor_lines(period_of(self.since_view()), v));
        Ok(output.content())
    }
}

/// The arguments of the contributors' commit log read.
fn contributor_log_args(since: &Option<String>) -> (r: Vec<String>)
    ensures
        r.deep_view() == seq!["log"@, "--all"@, "--format=%ae|%an|%ad"@, "--date=short"@] + match since {
            Some(s) => seq!["--since"@, s@],
            None => Seq::empty(),
        },
{
    let mut r = strings(&["log", "--all", "--format=%ae|%an|%ad", "--date=short"]);
    match since {
        Some(s) => {
            push_str_arg(&mut r, "--since");
            push_str_arg(&mut r, s.as_str());
        },
        None => {},
    }
    assert(r.deep_view() =~= seq!["log"@, "--all"@, "--format=%ae|%an|%ad"@, "--date=short"@] + match since {
        Some(s) => seq!["--since"@, s@],
        None => Seq::empty(),
    });
    r
}

/// Command to show contributors
pub struct ContributorsCommand {
    since: Option<String>,
}

/// The sum of the commit counts.
pub open spec fn total_commits(v: Seq<StatsView>) -> nat
    decreases v.len(),
{
    if v.len() == 0 {
        0
    } else {
        total_commits(v.drop_last()) + v.last().2
    }
}

/// Whether the contributors' commits add up to at most `u64::MAX`: the
/// check to make before `ContributorsCommand::report` and
/// `format_contributors_output`.
pub fn contributors_total_fits(contributors: &Vec<ContributorStats>) -> (r: bool)
    ensures
        r == (total_commits(stats_views(contributors@)) <= u64::MAX),
{
    let ghost v = stats_views(contributors@);
    let mut total: u64 = 0;
    for i in 0..contributors.len()
        invariant
            v == stats_views(contributors@),
            total == total_commits(v.take(i as int)),
    {
        proof {
            assert(v.take(i + 1).drop_last() =~= v.take(i as int));
            assert(v[i as int] == contributors@[i as int]@);
            lemma_total_prefix(v, i + 1);
        }
        match total.checked_add(contributors[i].commit_count as u64) {
            Some(t) => total = t,
            None => return false,
        }
    }
    assert(v.take(contributors.len() as int) =~= v);
    true
}

/// The lines of a contributor in the report, `pct` its share in percent.
pub open spec fn contributor_block(i: int, c: StatsView, pct: Seq<char>, last: bool) -> Seq<char> {
    medal(i) + " "@ + c.0 + " "@ + decimal(c.2) + " commits ("@ + pct + "%)\n"@ + "   📧 "@ + c.1 + " | 📅 "@ + c.3
        + " to "@ + c.4 + "\n"@ + if last {
        Seq::empty()
    } else {
        "\n"@
    }
}

/// The blocks of the first `n` contributors.
pub open spec fn contributor_blocks(v: Seq<StatsView>, pcts: Seq<Seq<char>>, n: nat) -> Seq<char>
    decreases n,
{
    if n == 0 {
        Seq::empty()
    } else {
        contributor_blocks(v, pcts, (n - 1) as nat) + contributor_block(n - 1, v[n - 1], pcts[n - 1], n == v.len())
    }
}

/// The contributors report; `pcts[i]` is the share of the i-th contributor
/// in percent, rendered with one decimal.
pub open spec fn contributors_text(period: Seq<char>, v: Seq<StatsView>, pcts: Seq<Seq<char>>) -> Seq<char> {
    if v.len() == 0 {
        "📊 No contributors found in this repository"@
    } else {
        "📊 Repository Contributors ("@ + decimal(total_commits(v)) + " total commits, "@ + period + "):\n"@ + repeat(
            "="@,
            60,
        ) + "\n"@ + contributor_blocks(v, pcts, v.len())
    }
}

impl ContributorsCommand {
    pub closed spec fn since_view(&self) -> Option<Seq<char>> {
        match self.since {
            Some(s) => Some(s@),
            None => None,
        }
    }

    pub fn new(since: Option<String>) -> (r: Self)
        ensures
            r.since_view() == match since {
                Some(s) => Some(s@),
                None => None::<Seq<char>>,
            },
    {
        Self { since }
    }

    /// The arguments of the commit log read (with `--since` when given).
    pub fn log_args(&self) -> (r: Vec<String>)
        ensures
            r.deep_view() == seq!["log"@, "--all"@, "--format=%ae|%an|%ad"@, "--date=short"@] + match self.since_view() {
                Some(s) => seq!["--since"@, s],
                None => Seq::empty(),
            },
    {
        contributor_log_args(&self.since)
    }

    /// The contributors of the commit log, most commits first; none for an
    /// empty log.
    pub fn get_detailed_contributors(&self, output: Result<String>) -> (r: Result<Vec<ContributorStats>>)
        ensures
            match output {
                Err(e) => r == Err::<Vec<ContributorStats>, GitXError>(e),
                Ok(o) => r matches Ok(v) && if trim(o@).len() == 0 {
                    v.len() == 0
                } else {
                    ranked_contributors(commit_records(lines(o@), false), stats_views(v@))
                },
            },
    {
        let o = match output {
            Err(e) => return Err(e),
            Ok(o) => o,
        };
        let t = trim_str(o.as_str());
        if t.as_str().is_empty() {
            return Ok(Vec::new());
        }
        Ok(contributors_of(o.as_str(), false))
    }

    /// The report of these contributors (see `contributors_text`); their
    /// shares in percent are rendered by the caller, one per contributor.
    pub fn report(&self, contributors: &Vec<ContributorStats>, percentages: &Vec<String>) -> (r: String)
        requires
            percentages.len() == contributors.len(),
            total_commits(stats_views(contributors@)) <= u64::MAX,
        ensures
            r@ == contributors_text(period_of(self.since_view()), stats_views(contributors@), percentages.deep_view()),
    {
        let ghost v = stats_views(contributors@);
        if contributors.len() == 0 {
            return String::from_str("📊 No contributors found in this repository");
        }
        let mut total: u64 = 0;
        for i in 0..contributors.len()
            invariant
                v == stats_views(contributors@),
                total == total_commits(v.take(i as int)),
                total_commits(v) <= u64::MAX,
        {
            proof {
                assert(v.take(i + 1).drop_last() =~= v.take(i as int));
                assert(v[i as int] == contributors@[i as int]@);
                lemma_total_prefix(v, i + 1);
            }
            total = total + contributors[i].commit_count as u64;
        }
        assert(v.take(contributors.len() as int) =~= v);
        let mut r = String::from_str("📊 Repository Contributors (");
        let d = decimal_of(total);
        r.append(d.as_str());
        r.append(" total commits, ");
        match &self.since {
            Some(s) => r.append(s.as_str()),
            None => r.append("all time"),
        }
        r.append("):\n");
        let rule = repeat_of("=", 60);
        r.append(rule.as_str());
        r.append("\n");
        let ghost head = r@;
        for i in 0..contributors.len()
            invariant
                v == stats_views(contributors@),
                percentages.len() == contributors.len(),
                r@ == head + contributor_blocks(v, percentages.deep_view(), i as nat),
        {
            let ghost before = r@;
            let block = contributor_block_of(i, &contributors[i], percentages[i].as_str(), i + 1 == contributors.len());
            r.append(block.as_str());
            proof {
                assert(v[i as int] == contributors@[i as int]@);
                assert(percentages.deep_view()[i as int] == percentages@[i as int]@);
                assert(contributor_blocks(v, percentages.deep_view(), (i + 1) as nat) == contributor_blocks(
                    v,
                    percentages.deep_view(),
                    i as nat,
                ) + contributor_block(i as int, v[i as int], percentages.deep_view()[i as int], i + 1 == v.len()));
            }
        }
        r
    }
}

/// One contributor's block (see `contributor_block`).
fn contributor_block_of(i: usize, c: &ContributorStats, pct: &str, last: bool) -> (r: String)
    ensures
        r@ == contributor_block(i as int, c@, pct@, last),
{
    let mut r = String::from_str(medal_of(i));
    r.append(" ");
    r.append(c.name.as_str());
    r.append(" ");
    let d = decimal_of(c.commit_count as u64);
    r.append(d.as_str());
    r.append(" commits (");
    r.append(pct);
    r.append("%)\n");
    r.append("   📧 ");
    r.append(c.email.as_str());
    r.append(" | 📅 ");
    r.append(c.first_commit.as_str());
    r.append(" to ");
    r.append(c.last_commit.as_str());
    r.append("\n");
    if !last {
        r.append("\n");
    }
    r
}

/// A prefix's total is at most the whole total.
pub proof fn lemma_total_prefix(v: Seq<StatsView>, i: int)
    requires
        0 <= i <= v.len(),
    ensures
        total_commits(v.take(i)) <= total_commits(v),
    decreases v.len(),
{
    if i < v.len() {
        lemma_total_prefix(v.drop_last(), i);
        assert(v.drop_last().take(i) =~= v.take(i));
    } else {
        assert(v.take(i) =~= v);
    }
}

impl Command for ContributorsCommand {
    fn name(&self) -> (r: &'static str)
        ensures
            r@ == "contributors"@,
    {
        "contributors"
    }

    fn description(&self) -> (r: &'static str)
        ensures
            r@ == "Show repository contributors and their commit statistics"@,
    {
        "Show repository contributors and their commit statistics"
    }
}

impl GitCommand for ContributorsCommand {}

// ---------------------------------------------------------------------------
// Summary
// ---------------------------------------------------------------------------

/// The date `s` in the format `%Y-%m-%d`, as chrono reads it: year, month,
/// day and the date's text.
pub uninterp spec fn parsed_date(s: Seq<char>) -> Option<(i32, u32, u32, Seq<char>)>;

/// `n` in decimal, zero-padded on the left to `w` digits.
pub open spec fn zero_padded(n: nat, w: nat) -> Seq<char> {
    let s = decimal(n);
    if s.len() < w {
        Seq::new((w - s.len()) as nat, |i: int| '0') + s
    } else {
        s
    }
}

/// How chrono shows a date (`Display` of `NaiveDate`): the year in four
/// digits (signed when outside 0..=9999), then the month and the day in two.
pub open spec fn date_text(y: i32, m: u32, d: u32) -> Seq<char> {
    (if 0 <= y <= 9999 {
        zero_padded(y as nat, 4)
    } else if y < 0 {
        "-"@ + zero_padded((-y) as nat, 4)
    } else {
        "+"@ + zero_padded(y as nat, 4)
    }) + "-"@ + zero_padded(m as nat, 2) + "-"@ + zero_padded(d as nat, 2)
}

/// `chrono::NaiveDate::parse_from_str(s, "%Y-%m-%d")`, the date given as its
/// year, month and day and its `Display` text. Claimed: the result is
/// `parsed_date(s)`; a month lies in 1..=12 and a day in 1..=31 (chrono's
/// `month()` and `day()`); the text is `date_text` of the three. Which
/// strings parse is left to chrono.
#[verifier::external_body]
pub(crate) fn parse_ymd(s: &str) -> (r: Option<(i32, u32, u32, String)>)
    ensures
        r matches Some(d) ==> (parsed_date(s@) == Some((d.0, d.1, d.2, d.3@)) && 1 <= d.1 <= 12 && 1 <= d.2 <= 31
            && d.3@ == date_text(d.0, d.1, d.2)),
        r is None ==> parsed_date(s@) is None,
{
    match chrono::NaiveDate::parse_from_str(s, "%Y-%m-%d") {
        Ok(d) => Some((d.year(), d.month(), d.day(), d.to_string())),
        Err(_) => None,
    }
}

/// A date as a number that orders dates: `yyyymmdd` for valid months and days.
pub open spec fn date_key(y: i32, m: u32, d: u32) -> i128 {
    (y as int * 10000 + m as int * 100 + d as int) as i128
}

/// `c` in lower case, for ASCII letters.
pub open spec fn ascii_lower(c: char) -> char {
    if 'A' <= c && c <= 'Z' {
        ((c as u32) + 32) as char
    } else {
        c
    }
}

/// The `n` characters of `s` from `i` on, in lower case.
pub open spec fn lower_window(s: Seq<char>, i: int, n: int) -> Seq<char> {
    s.subrange(i, i + n).map_values(|c: char| ascii_lower(c))
}

/// The lower-case pattern `p` occurs in `s`, ignoring ASCII case.
pub open spec fn contains_ci(s: Seq<char>, p: Seq<char>) -> bool {
    exists|i: int| 0 <= i && i + p.len() <= s.len() && #[trigger] lower_window(s, i, p.len() as int) == p
}

/// The emoji of a commit message: a bug fix, a feature, a removal, a
/// refactoring, or other.
pub open spec fn commit_emoji(m: Seq<char>) -> Seq<char> {
    if contains_ci(m, "fix"@) || contains_ci(m, "bug"@) {
        "🐛"@
    } else if contains_ci(m, "feat"@) || contains_ci(m, "add"@) {
        "✨"@
    } else if contains_ci(m, "remove"@) || contains_ci(m, "delete"@) {
        "🔥"@
    } else if contains_ci(m, "refactor"@) {
        "🛠"@
    } else {
        "🔹"@
    }
}

/// The emoji of a commit message by what it mentions, ignoring ASCII case,
/// in this order of precedence: a fix or bug 🐛; else a feature or an
/// addition ✨; else a removal or deletion 🔥; else a refactoring 🛠;
/// otherwise 🔹.
pub proof fn law_commit_emoji(m: Seq<char>)
    ensures
        contains_ci(m, "fix"@) || contains_ci(m, "bug"@) ==> commit_emoji(m) == "🐛"@,
        !(contains_ci(m, "fix"@) || contains_ci(m, "bug"@)) && (contains_ci(m, "feat"@) || contains_ci(m, "add"@))
            ==> commit_emoji(m) == "✨"@,
        !(contains_ci(m, "fix"@) || contains_ci(m, "bug"@) || contains_ci(m, "feat"@) || contains_ci(m, "add"@))
            && (contains_ci(m, "remove"@) || contains_ci(m, "delete"@)) ==> commit_emoji(m) == "🔥"@,
        !(contains_ci(m, "fix"@) || contains_ci(m, "bug"@) || contains_ci(m, "feat"@) || contains_ci(m, "add"@)
            || contains_ci(m, "remove"@) || contains_ci(m, "delete"@)) && contains_ci(m, "refactor"@) ==> commit_emoji(m)
            == "🛠"@,
        !(contains_ci(m, "fix"@) || contains_ci(m, "bug"@) || contains_ci(m, "feat"@) || contains_ci(m, "add"@)
            || contains_ci(m, "remove"@) || contains_ci(m, "delete"@) || contains_ci(m, "refactor"@)) ==> commit_emoji(m)
            == "🔹"@,
{
}

/// A word written in any ASCII case is found by `contains_ci` under its
/// lower-case spelling: if the characters of `m` at `i` lower-case to `p`,
/// `m` contains `p` ignoring case.
pub proof fn law_contains_ci_ignores_case(m: Seq<char>, p: Seq<char>, i: int)
    requires
        0 <= i && i + p.len() <= m.len(),
        forall|k: int| 0 <= k < p.len() ==> ascii_lower(#[trigger] m[i + k]) == p[k],
    ensures
        contains_ci(m, p),
{
    assert forall|k: int| 0 <= k < p.len() implies #[trigger] lower_window(m, i, p.len() as int)[k] == p[k] by {
        assert(m.subrange(i, i + p.len())[k] == m[i + k]);
    }
    assert(lower_window(m, i, p.len() as int) =~= p);
}

/// Whether `c` in lower case (for ASCII letters) is `p`.
fn eq_lower(c: char, p: char) -> (b: bool)
    ensures
        b == (ascii_lower(c) == p),
{
    if 'A' <= c && c <= 'Z' {
        let u = (c as u32) + 32;
        proof {
            assert(0x61 <= u <= 0x7a);
            assert((u as char) as u32 == u);
        }
        u == (p as u32)
    } else {
        c == p
    }
}

/// Whether the lower-case pattern occurs in `s`, ignoring ASCII case.
fn contains_ignore_case(s: &str, p: &str) -> (b: bool)
    ensures
        b == contains_ci(s@, p@),
{
    let v = chars_of(s);
    let pv = chars_of(p);
    if pv.len() > v.len() {
        return false;
    }
    let mut i: usize = 0;
    while i <= v.len() - pv.len()
        invariant
            v@ == s@,
            pv@ == p@,
            pv.len() <= v.len(),
            i <= v.len() - pv.len() + 1,
            forall|j: int| 0 <= j < i ==> #[trigger] lower_window(v@, j, pv@.len() as int) != pv@,
        decreases v.len() - i,
    {
        let mut k: usize = 0;
        let mut same = true;
        while k < pv.len()
            invariant
                i + pv.len() <= v.len(),
                k <= pv.len(),
                same == forall|m: int| 0 <= m < k ==> ascii_lower(v@[i + m]) == pv@[m],
            decreases pv.len() - k,
        {
            if !eq_lower(v[i + k], pv[k]) {
                same = false;
            }
            k = k + 1;
        }
        let ghost w = lower_window(v@, i as int, pv@.len() as int);
        if same {
            assert(w =~= pv@);
            return true;
        }
        proof {
            if w == pv@ {
                let m = choose|m: int| 0 <= m < pv@.len() && ascii_lower(v@[i + m]) != pv@[m];
                assert(w[m] == ascii_lower(v@[i + m]));
            }
        }
        i = i + 1;
    }
    proof {
        assert forall|j: int| 0 <= j && j + p@.len() <= s@.len() implies #[trigger] lower_window(s@, j, p@.len() as int)
            != p@ by {
            assert(j < i);
        }
    }
    false
}

/// The emoji of a commit message (see `commit_emoji`).
pub fn get_commit_emoji_public(message: &str) -> (r: &'static str)
    ensures
        r@ == commit_emoji(message@),
{
    if contains_ignore_case(message, "fix") || contains_ignore_case(message, "bug") {
        "🐛"
    } else if contains_ignore_case(message, "feat") || contains_ignore_case(message, "add") {
        "✨"
    } else if contains_ignore_case(message, "remove") || contains_ignore_case(message, "delete") {
        "🔥"
    } else if contains_ignore_case(message, "refactor") {
        "🛠"
    } else {
        "🔹"
    }
}

/// A commit of the detailed summary: (date key, date text, shown line).
pub type DatedEntry = (i128, Seq<char>, Seq<char>);

/// The date of a commit line, or `today` when it does not parse.
pub open spec fn commit_date(s: Seq<char>, today: (i32, u32, u32, Seq<char>)) -> (i32, u32, u32, Seq<char>) {
    match parsed_date(s) {
        Some(d) => d,
        None => today,
    }
}

/// The entry of a log line `hash|date|subject|author|relative date`.
pub open spec fn summary_entry(line: Seq<char>, today: (i32, u32, u32, Seq<char>)) -> Option<DatedEntry> {
    let p = splitn(line, 5, '|');
    if p.len() == 5 {
        let d = commit_date(p[1], today);
        Some((
            date_key(d.0, d.1, d.2),
            d.3,
            " - "@ + commit_emoji(p[2]) + " "@ + trim(p[2]) + " "@ + "(by "@ + p[3] + ", "@ + p[4] + ")"@,
        ))
    } else {
        None
    }
}

/// The entries of the log lines, in order.
pub open spec fn summary_entries(ls: Seq<Seq<char>>, today: (i32, u32, u32, Seq<char>)) -> Seq<DatedEntry>
    decreases ls.len(),
{
    if ls.len() == 0 {
        Seq::empty()
    } else {
        let rest = summary_entries(ls.drop_last(), today);
        match summary_entry(ls.last(), today) {
            Some(e) => rest.push(e),
            None => rest,
        }
    }
}

/// The date keys of the entries.
pub open spec fn entry_keys(es: Seq<DatedEntry>) -> Seq<i128> {
    es.map_values(|e: DatedEntry| e.0)
}

/// The text of the first entry with date key `k`.
pub open spec fn group_text(es: Seq<DatedEntry>, k: i128) -> Seq<char>
    decreases es.len(),
{
    if es.len() == 0 {
        Seq::empty()
    } else if entry_keys(es.drop_last()).contains(k) {
        group_text(es.drop_last(), k)
    } else if es.last().0 == k {
        es.last().1
    } else {
        Seq::empty()
    }
}

/// The lines of the entries with date key `k`, in order.
pub open spec fn group_lines(es: Seq<DatedEntry>, k: i128) -> Seq<char>
    decreases es.len(),
{
    if es.len() == 0 {
        Seq::empty()
    } else {
        group_lines(es.drop_last(), k) + if es.last().0 == k {
            es.last().2 + "\n"@
        } else {
            Seq::empty()
        }
    }
}

/// The groups of the first `n` dates in the order `p` of the distinct dates `f`.
pub open spec fn summary_body(es: Seq<DatedEntry>, f: Seq<i128>, p: Seq<usize>, n: nat) -> Seq<char>
    decreases n,
{
    if n == 0 {
        Seq::empty()
    } else {
        let k = f[p[n - 1] as int];
        summary_body(es, f, p, (n - 1) as nat) + "\n📆 "@ + group_text(es, k) + "\n"@ + group_lines(es, k)
    }
}

/// The detailed summary of the entries since `since`: their dates, newest
/// first, each with its commits in log order.
pub open spec fn detailed_summary(since: Seq<char>, es: Seq<DatedEntry>, t: Seq<char>) -> bool {
    let f = firsts(entry_keys(es));
    exists|p: Seq<usize>|
        #![trigger is_ranking(f, p)]
        is_ranking(f, p) && t == "📅 Commit Summary since "@ + since + ":\n"@ + repeat("="@, 50) + "\n"@
            + summary_body(es, f, p, f.len())
}

/// The entry of a log line (see `summary_entry`).
fn read_summary_entry(line: &str, today: &(i32, u32, u32, String)) -> (r: Option<(i128, String, String)>)
    ensures
        match summary_entry(line@, (today.0, today.1, today.2, today.3@)) {
            Some(e) => r matches Some(x) && x.0 == e.0 && x.1@ == e.1 && x.2@ == e.2,
            None => r is None,
        },
{
    let p = splitn_of(line, 5, '|');
    if p.len() != 5 {
        return None;
    }
    proof {
        assert(p.deep_view()[1] == p@[1]@);
        assert(p.deep_view()[2] == p@[2]@);
        assert(p.deep_view()[3] == p@[3]@);
        assert(p.deep_view()[4] == p@[4]@);
    }
    let (y, m, d, text) = match parse_ymd(p[1].as_str()) {
        Some(x) => x,
        None => (today.0, today.1, today.2, owned(today.3.as_str())),
    };
    let key = y as i128 * 10000 + m as i128 * 100 + d as i128;
    let mut e = String::from_str(" - ");
    e.append(get_commit_emoji_public(p[2].as_str()));
    e.append(" ");
    let msg = trim_str(p[2].as_str());
    e.append(msg.as_str());
    e.append(" ");
    e.append("(by ");
    e.append(p[3].as_str());
    e.append(", ");
    e.append(p[4].as_str());
    e.append(")");
    Some((key, text, e))
}

/// The detailed summary of the log lines (see `detailed_summary`).
pub fn format_commit_summary(since: &str, output: &str, today: &(i32, u32, u32, String)) -> (r: String)
    ensures
        detailed_summary(since@, summary_entries(lines(output@), (today.0, today.1, today.2, today.3@)), r@),
{
    let ghost tv = (today.0, today.1, today.2, today.3@);
    let ls = lines_of(output);
    let mut keys: Vec<i128> = Vec::new();
    let mut texts: Vec<String> = Vec::new();
    let mut shown: Vec<String> = Vec::new();
    let ghost mut es: Seq<DatedEntry> = Seq::empty();
    for i in 0..ls.len()
        invariant
            tv == (today.0, today.1, today.2, today.3@),
            es == summary_entries(ls.deep_view().take(i as int), tv),
            keys.len() == es.len(),
            texts.len() == es.len(),
            shown.len() == es.len(),
            forall|k: int| 0 <= k < es.len() ==> #[trigger] es[k] == (keys@[k], texts@[k]@, shown@[k]@),
    {
        proof {
            assert(ls.deep_view().take(i + 1).drop_last() =~= ls.deep_view().take(i as int));
            assert(ls.deep_view()[i as int] == ls@[i as int]@);
        }
        match read_summary_entry(ls[i].as_str(), today) {
            Some((k, t, e)) => {
                proof {
                    es = es.push((k, t@, e@));
                }
                keys.push(k);
                texts.push(t);
                shown.push(e);
            },
            None => {},
        }
    }
    assert(ls.deep_view().take(ls.len() as int) =~= ls.deep_view());
    assert(entry_keys(es) =~= keys@);
    // The distinct dates, in the order in which they first appear, with the
    // text of each one's first entry.
    let mut f: Vec<i128> = Vec::new();
    let mut ft: Vec<String> = Vec::new();
    for i in 0..keys.len()
        invariant
            keys.len() == es.len(),
            texts.len() == es.len(),
            forall|k: int| 0 <= k < es.len() ==> #[trigger] es[k] == (keys@[k], texts@[k]@, shown@[k]@),
            entry_keys(es) == keys@,
            f@ == firsts(keys@.take(i as int)),
            ft.len() == f.len(),
            forall|j: int| 0 <= j < f.len() ==> #[trigger] ft@[j]@ == group_text(es.take(i as int), f@[j]),
    {
        let ghost pre = keys@.take(i as int);
        let x = keys[i];
        proof {
            assert(keys@.take(i + 1) =~= pre.push(x));
            lemma_firsts_push(pre, x);
            lemma_firsts_contains(pre, x);
            assert(es.take(i + 1).drop_last() =~= es.take(i as int));
            assert(entry_keys(es.take(i as int)) =~= pre);
            assert(es[i as int] == (keys@[i as int], texts@[i as int]@, shown@[i as int]@));
        }
        let mut found = false;
        let mut j: usize = 0;
        while j < f.len()
            invariant
                j <= f.len(),
                found == exists|m: int| 0 <= m < j && f@[m] == x,
            decreases f.len() - j,
        {
            if f[j] == x {
                found = true;
            }
            j = j + 1;
        }
        proof {
            if found {
                let m = choose|m: int| 0 <= m < f.len() && f@[m] == x;
                assert(f@.contains(x));
            } else {
                assert(!f@.contains(x));
            }
        }
        if !found {
            f.push(x);
            ft.push(owned(texts[i].as_str()));
        }
        proof {
            assert forall|j: int| 0 <= j < f.len() implies #[trigger] ft@[j]@ == group_text(es.take(i + 1), f@[j]) by {
                assert(entry_keys(es.take(i + 1).drop_last()) == pre);
                if j < f.len() - 1 || found {
                    lemma_firsts_contains(pre, f@[j]);
                    assert(firsts(pre).contains(f@[j]));
                }
            }
        }
    }
    assert(keys@.take(keys.len() as int) =~= keys@);
    assert(es.take(keys.len() as int) =~= es);
    let ghost fv = firsts(entry_keys(es));
    let p = rank_desc(&f);
    let mut r = String::from_str("📅 Commit Summary since ");
    r.append(since);
    r.append(":\n");
    let rule = repeat_of("=", 50);
    r.append(rule.as_str());
    r.append("\n");
    let ghost head = r@;
    for g in 0..p.len()
        invariant
            fv == f@,
            p.len() == f.len(),
            ft.len() == f.len(),
            is_ranking(f@, p@),
            keys.len() == es.len(),
            shown.len() == es.len(),
            forall|k: int| 0 <= k < es.len() ==> #[trigger] es[k] == (keys@[k], texts@[k]@, shown@[k]@),
            forall|j: int| 0 <= j < f.len() ==> #[trigger] ft@[j]@ == group_text(es, f@[j]),
            r@ == head + summary_body(es, fv, p@, g as nat),
    {
        let q = p[g];
        assert(p@[g as int] < f.len());
        let k = f[q];
        let ghost before = r@;
        r.append("\n📆 ");
        r.append(ft[q].as_str());
        r.append("\n");
        let ghost mid = r@;
        for e in 0..keys.len()
            invariant
                keys.len() == es.len(),
                shown.len() == es.len(),
                forall|m: int| 0 <= m < es.len() ==> #[trigger] es[m] == (keys@[m], texts@[m]@, shown@[m]@),
                r@ == mid + group_lines(es.take(e as int), k),
        {
            proof {
                assert(es.take(e + 1).drop_last() =~= es.take(e as int));
                assert(es[e as int] == (keys@[e as int], texts@[e as int]@, shown@[e as int]@));
            }
            if keys[e] == k {
                r.append(shown[e].as_str());
                r.append("\n");
            }
        }
        proof {
            assert(es.take(keys.len() as int) =~= es);
            assert(r@ =~= before + ("\n📆 "@ + group_text(es, k) + "\n"@ + group_lines(es, k)));
        }
    }
    assert(is_ranking(fv, p@));
    r
}

/// (name, commits) of a `git shortlog -sn` line: the count, a tab, the name.
pub open spec fn author_line(line: Seq<char>) -> Option<(Seq<char>, nat)> {
    let t = trim(line);
    match find(t, "\t"@) {
        Some(i) => match parse_u32(trim(t.take(i))) {
            Some(c) => Some((t.skip(i + 1), c)),
            None => None,
        },
        None => None,
    }
}

/// The authors of a shortlog, in order.
pub open spec fn author_lines(ls: Seq<Seq<char>>) -> Seq<(Seq<char>, nat)>
    decreases ls.len(),
{
    if ls.len() == 0 {
        Seq::empty()
    } else {
        let rest = author_lines(ls.drop_last());
        match author_line(ls.last()) {
            Some(a) => rest.push(a),
            None => rest,
        }
    }
}

/// The authors as plain values.
pub open spec fn authors_view(v: Seq<(String, u32)>) -> Seq<(Seq<char>, nat)> {
    v.map_values(|a: (String, u32)| (a.0@, a.1 as nat))
}

/// The authors of the output of `git shortlog -sn`: lines that do not read
/// as a count, a tab and a name are skipped.
pub fn parse_author_stats(output: &str) -> (r: Vec<(String, u32)>)
    ensures
        authors_view(r@) == author_lines(lines(output@)),
{
    let ls = lines_of(output);
    let mut v: Vec<(String, u32)> = Vec::new();
    let tab = chars_of("\t");
    for i in 0..ls.len()
        invariant
            tab@ == "\t"@,
            authors_view(v@) == author_lines(ls.deep_view().take(i as int)),
    {
        proof {
            assert(ls.deep_view().take(i + 1).drop_last() =~= ls.deep_view().take(i as int));
            assert(ls.deep_view()[i as int] == ls@[i as int]@);
        }
        let t = trim_str(ls[i].as_str());
        let tv = chars_of(t.as_str());
        match find_in(&tv, &tab) {
            Some(k) => {
                proof {
                    reveal_strlit("\t");
                    crate::base::text::lemma_find_bound(tv@, tab@);
                    assert(k + 1 <= tv.len());
                }
                let count_str = string_of(&tv, 0, k);
                let ct = trim_str(count_str.as_str());
                match parse_u32_of(ct.as_str()) {
                    Some(c) => {
                        let name = string_of(&tv, k + 1, tv.len());
                        let ghost before = authors_view(v@);
                        let ghost entry = (name@, c as nat);
                        v.push((name, c));
                        assert(authors_view(v@) =~= before.push(entry));
                    },
                    None => {},
                }
            },
            None => {},
        }
    }
    assert(ls.deep_view().take(ls.len() as int) =~= ls.deep_view());
    v
}

/// The lines of the top contributors: the first five authors with medals.
pub open spec fn author_entries(v: Seq<(Seq<char>, nat)>, n: nat) -> Seq<Seq<char>>
    decreases n,
{
    if n == 0 {
        Seq::empty()
    } else {
        author_entries(v, (n - 1) as nat).push(
            "   "@ + medal(n - 1) + " "@ + v[n - 1].0 + " ("@ + decimal(v[n - 1].1) + " commits)"@,
        )
    }
}

/// The upstream line of a summary.
pub open spec fn upstream_line(u: Seq<char>, ahead: u32, behind: u32) -> Seq<char> {
    if ahead > 0 || behind > 0 {
        "🔗 Upstream: "@ + u + " ("@ + decimal(ahead as nat) + " ahead, "@ + decimal(behind as nat) + " behind)"@
    } else {
        "🔗 Upstream: "@ + u + " (up to date)"@
    }
}

/// The lines of the repository summary from its parts: the repository name
/// rendered `bn` (when the root was found), the current branch rendered
/// `bc`, the branch information, the commit statistics (count and period),
/// the authors and the number of files (each `None` when unavailable).
pub open spec fn summary_lines(
    bn: Option<Seq<char>>,
    bc: Seq<char>,
    info: (String, Option<String>, u32, u32),
    stats: Option<(u32, Seq<char>)>,
    period: Seq<char>,
    authors: Option<Seq<(Seq<char>, nat)>>,
    files: Option<usize>,
) -> Seq<Seq<char>> {
    seq!["📊 Repository Summary"@, repeat("="@, 50)] + (match bn {
        Some(b) => seq!["🗂️  Repository: "@ + b],
        None => Seq::empty(),
    }) + seq!["📍 Current branch: "@ + bc] + (match info.1 {
        Some(u) => seq![upstream_line(u@, info.2, info.3)],
        None => Seq::empty(),
    }) + (match stats {
        Some(st) => seq!["📈 Commits ("@ + st.1 + "): "@ + decimal(st.0 as nat)],
        None => seq!["📈 Commits: Unable to retrieve"@],
    }) + (match authors {
        Some(a) => if a.len() > 0 {
            seq!["👥 Top contributors ("@ + period + "): "@] + author_entries(a, if a.len() < 5 { a.len() } else { 5 })
        } else {
            Seq::empty()
        },
        None => seq!["👥 Contributors: Unable to retrieve"@],
    }) + (match files {
        Some(n) => seq!["📁 Files: "@ + decimal(n as nat) + " total"@],
        None => seq!["📁 Files: Unable to retrieve"@],
    })
}

/// What the detailed summary since `since` reports from the log.
pub open spec fn detailed_report(since: Seq<char>, log: Result<String>, today: (i32, u32, u32, Seq<char>), r: Result<String>) -> bool {
    match log {
        Err(e) => r == Err::<String, GitXError>(e),
        Ok(o) => r matches Ok(t) && if trim(o@).len() == 0 {
            t@ == "📅 No commits found since "@ + since
        } else {
            detailed_summary(since, summary_entries(lines(o@), today), t@)
        },
    }
}

/// What the repository summary reports from its parts (see `summary_text`).
pub open spec fn repository_report(
    period: Seq<char>,
    root: Result<String>,
    info: Result<(String, Option<String>, u32, u32)>,
    stats: Result<(u32, String)>,
    authors: Result<Vec<(String, u32)>>,
    files: Result<usize>,
    r: Result<String>,
) -> bool {
    match info {
        Err(e) => r == Err::<String, GitXError>(e),
        Ok(i) => r matches Ok(t) && summary_text(
            match root {
                Ok(rt) => Some(rt@),
                Err(_) => None,
            },
            i,
            match stats {
                Ok(st) => Some((st.0, st.1@)),
                Err(_) => None,
            },
            period,
            match authors {
                Ok(a) => Some(authors_view(a@)),
                Err(_) => None,
            },
            match files {
                Ok(n) => Some(n),
                Err(_) => None,
            },
            t@,
        ),
    }
}

/// Command to generate repository summary
pub struct SummaryCommand {
    since: Option<String>,
}

/// The `since` argument, "1 month ago" when none is given.
pub open spec fn since_arg(since: Option<Seq<char>>) -> Seq<char> {
    match since {
        Some(s) => s,
        None => "1 month ago"@,
    }
}

/// The summary's lines and text, once the parts are read: `summary_lines`
/// joined, for some bold renderings of the names.
pub open spec fn summary_text(
    root: Option<Seq<char>>,
    info: (String, Option<String>, u32, u32),
    stats: Option<(u32, Seq<char>)>,
    period: Seq<char>,
    authors: Option<Seq<(Seq<char>, nat)>>,
    files: Option<usize>,
    t: Seq<char>,
) -> bool {
    exists|bn: Option<Seq<char>>, bc: Seq<char>|
        (match root {
            Some(rt) => bn matches Some(b) && is_bold_of(b, repo_name(rt)),
            None => bn is None,
        }) && is_bold_of(bc, info.0@) && t == join(summary_lines(bn, bc, info, stats, period, authors, files), "\n"@)
}

impl SummaryCommand {
    pub closed spec fn since_view(&self) -> Option<Seq<char>> {
        match self.since {
            Some(s) => Some(s@),
            None => None,
        }
    }

    pub fn new(since: Option<String>) -> (r: Self)
        ensures
            r.since_view() == match since {
                Some(s) => Some(s@),
                None => None::<Seq<char>>,
            },
    {
        Self { since }
    }

    /// The `since` argument (see `since_arg`).
    pub fn since_arg(&self) -> (r: String)
        ensures
            r@ == since_arg(self.since_view()),
    {
        match &self.since {
            Some(s) => owned(s.as_str()),
            None => String::from_str("1 month ago"),
        }
    }

    /// The arguments counting the commits (since `since` when given).
    pub fn commit_count_args(&self) -> (r: Vec<String>)
        ensures
            r.deep_view() == match self.since_view() {
                Some(s) => seq!["rev-list"@, "--count"@, "--since"@, s, "HEAD"@],
                None => seq!["rev-list"@, "--count"@, "HEAD"@],
            },
    {
        match &self.since {
            Some(s) => {
                let mut r = strings(&["rev-list", "--count", "--since"]);
                push_str_arg(&mut r, s.as_str());
                push_str_arg(&mut r, "HEAD");
                assert(r.deep_view() =~= seq!["rev-list"@, "--count"@, "--since"@, s@, "HEAD"@]);
                r
            },
            None => {
                let r = strings(&["rev-list", "--count", "HEAD"]);
                assert(r.deep_view() =~= seq!["rev-list"@, "--count"@, "HEAD"@]);
                r
            },
        }
    }

    /// The commit statistics from the count: (commits, period); an
    /// unreadable count is 0.
    pub fn get_commit_stats(&self, count_output: Result<String>) -> (r: Result<(u32, String)>)
        ensures
            match count_output {
                Err(e) => r == Err::<(u32, String), GitXError>(e),
                Ok(o) => r matches Ok(st) && st.1@ == since_arg(self.since_view()) && st.0 as nat == match parse_u32(
                    trim(o@),
                ) {
                    Some(n) => n,
                    None => 0,
                },
            },
    {
        let o = match count_output {
            Err(e) => return Err(e),
            Ok(o) => o,
        };
        let t = trim_str(o.as_str());
        let n = match parse_u32_of(t.as_str()) {
            Some(n) => n,
            None => 0,
        };
        Ok((n, self.since_arg()))
    }

    /// The arguments of the shortlog of authors.
    pub fn author_args(&self) -> (r: Vec<String>)
        ensures
            r.deep_view() == seq!["shortlog"@, "-sn"@, "--since"@, since_arg(self.since_view())],
    {
        let mut r = strings(&["shortlog", "-sn", "--since"]);
        let a = self.since_arg();
        push_str_arg(&mut r, a.as_str());
        assert(r.deep_view() =~= seq!["shortlog"@, "-sn"@, "--since"@, since_arg(self.since_view())]);
        r
    }

    /// The authors from the shortlog.
    pub fn get_author_stats(&self, output: Result<String>) -> (r: Result<Vec<(String, u32)>>)
        ensures
            match output {
                Err(e) => r == Err::<Vec<(String, u32)>, GitXError>(e),
                Ok(o) => r matches Ok(v) && authors_view(v@) == author_lines(lines(o@)),
            },
    {
        match output {
            Err(e) => Err(e),
            Ok(o) => Ok(parse_author_stats(o.as_str())),
        }
    }

    /// The number of files listed by `git ls-files`.
    pub fn get_file_stats(&self, output: Result<String>) -> (r: Result<usize>)
        ensures
            match output {
                Err(e) => r == Err::<usize, GitXError>(e),
                Ok(o) => r == Ok::<usize, GitXError>(lines(o@).len() as usize),
            },
    {
        match output {
            Err(e) => Err(e),
            Ok(o) => {
                let ls = lines_of(o.as_str());
                Ok(ls.len())
            },
        }
    }

    /// The arguments of the log of the detailed summary.
    pub fn log_args(&self) -> (r: Vec<String>)
        ensures
            r.deep_view() == seq![
                "log"@,
                "--since"@,
                since_arg(self.since_view()),
                "--pretty=format:%h|%ad|%s|%an|%cr"@,
                "--date=short"@,
            ],
    {
        let mut r = strings(&["log", "--since"]);
        let a = self.since_arg();
        push_str_arg(&mut r, a.as_str());
        push_str_arg(&mut r, "--pretty=format:%h|%ad|%s|%an|%cr");
        push_str_arg(&mut r, "--date=short");
        assert(r.deep_view() =~= seq![
            "log"@,
            "--since"@,
            since_arg(self.since_view()),
            "--pretty=format:%h|%ad|%s|%an|%cr"@,
            "--date=short"@,
        ]);
        r
    }

    /// The detailed summary from the log; `today` is the date taken for
    /// commits whose date does not parse.
    pub fn get_detailed_commit_summary(&self, log: Result<String>, today: &(i32, u32, u32, String)) -> (r: Result<String>)
        ensures
            detailed_report(since_arg(self.since_view()), log, (today.0, today.1, today.2, today.3@), r),
    {
        let o = match log {
            Err(e) => return Err(e),
            Ok(o) => o,
        };
        let a = self.since_arg();
        let t = trim_str(o.as_str());
        if t.as_str().is_empty() {
            let mut m = String::from_str("📅 No commits found since ");
            m.append(a.as_str());
            return Ok(m);
        }
        Ok(format_commit_summary(a.as_str(), o.as_str(), today))
    }

    /// The repository summary from its parts (see `summary_text`): the
    /// branch information's error is passed on; the repository name is left
    /// out without a root; the other parts say when they are unavailable.
    #[verifier::spinoff_prover]
    #[verifier::rlimit(40)]
    pub fn repository_summary(
        &self,
        root: Result<String>,
        info: Result<(String, Option<String>, u32, u32)>,
        stats: Result<(u32, String)>,
        authors: Result<Vec<(String, u32)>>,
        files: Result<usize>,
    ) -> (r: Result<String>)
        ensures
            repository_report(period_of(self.since_view()), root, info, stats, authors, files, r),
    {
        let mut out = BufferedOutput::new();
        out.add_line(String::from_str("📊 Repository Summary"));
        out.add_line(repeat_of("=", 50));
        let ghost bn: Option<Seq<char>>;
        match &root {
            Ok(rt) => {
                let name = repo_name_of(rt.as_str());
                let b = Format::bold(name.as_str());
                let mut l = String::from_str("🗂️  Repository: ");
                l.append(b.as_str());
                out.add_line(l);
                proof {
                    bn = Some(b@);
                }
            },
            Err(_) => {
                proof {
                    bn = None;
                }
            },
        }
        let i = match info {
            Err(e) => return Err(e),
            Ok(i) => i,
        };
        let bc = Format::bold(i.0.as_str());
        let mut l = String::from_str("📍 Current branch: ");
        l.append(bc.as_str());
        out.add_line(l);
        match &i.1 {
            Some(u) => out.add_line(summary_upstream_line(u.as_str(), i.2, i.3)),
            None => {},
        }
        match &stats {
            Ok(st) => {
                let mut l = String::from_str("📈 Commits (");
                l.append(st.1.as_str());
                l.append("): ");
                let d = decimal_of(st.0 as u64);
                l.append(d.as_str());
                out.add_line(l);
            },
            Err(_) => out.add_line(String::from_str("📈 Commits: Unable to retrieve")),
        }
        match &authors {
            Ok(a) => {
                if a.len() > 0 {
                    let mut l = String::from_str("👥 Top contributors (");
                    match &self.since {
                        Some(s) => l.append(s.as_str()),
                        None => l.append("all time"),
                    }
                    l.append("): ");
                    out.add_line(l);
                    add_author_entries(&mut out, a);
                }
            },
            Err(_) => out.add_line(String::from_str("👥 Contributors: Unable to retrieve")),
        }
        match &files {
            Ok(n) => {
                let mut l = String::from_str("📁 Files: ");
                let d = decimal_of(*n as u64);
                l.append(d.as_str());
                l.append(" total");
                out.add_line(l);
            },
            Err(_) => out.add_line(String::from_str("📁 Files: Unable to retrieve")),
        }
        proof {
            let st = match stats {
                Ok(st) => Some((st.0, st.1@)),
                Err(_) => None,
            };
            let au = match authors {
                Ok(a) => Some(authors_view(a@)),
                Err(_) => None,
            };
            let fl = match files {
                Ok(n) => Some(n),
                Err(_) => None,
            };
            assert(out@ =~= summary_lines(bn, bc@, i, st, period_of(self.since_view()), au, fl));
        }
        Ok(out.content())
    }

    /// What the summary command reports: with `since`, the detailed summary
    /// of the log; otherwise the repository summary of the other answers.
    pub fn execute(
        &self,
        log: Result<String>,
        today: &(i32, u32, u32, String),
        root: Result<String>,
        info: Result<(String, Option<String>, u32, u32)>,
        stats: Result<(u32, String)>,
        authors: Result<Vec<(String, u32)>>,
        files: Result<usize>,
    ) -> (r: Result<String>)
        ensures
            self.since_view() is Some ==> detailed_report(
                since_arg(self.since_view()),
                log,
                (today.0, today.1, today.2, today.3@),
                r,
            ),
            self.since_view() is None ==> repository_report(period_of(self.since_view()), root, info, stats, authors, files, r),
    {
        if self.since.is_some() {
            self.get_detailed_commit_summary(log, today)
        } else {
            self.repository_summary(root, info, stats, authors, files)
        }
    }
}

/// The upstream line of a summary (see `upstream_line`).
fn summary_upstream_line(u: &str, ahead: u32, behind: u32) -> (r: String)
    ensures
        r@ == upstream_line(u@, ahead, behind),
{
    let mut l = String::from_str("🔗 Upstream: ");
    l.append(u);
    if ahead > 0 || behind > 0 {
        l.append(" (");
        let a = decimal_of(ahead as u64);
        l.append(a.as_str());
        l.append(" ahead, ");
        let b = decimal_of(behind as u64);
        l.append(b.as_str());
        l.append(" behind)");
    } else {
        l.append(" (up to date)");
    }
    l
}

/// Adds the lines of the first five authors.
fn add_author_entries(out: &mut BufferedOutput, a: &Vec<(String, u32)>)
    ensures
        final(out)@ == old(out)@ + author_entries(authors_view(a@), if a.len() < 5 { a.len() as nat } else { 5 }),
{
    let ghost av = authors_view(a@);
    let ghost start = out@;
    let n = if a.len() < 5 { a.len() } else { 5 };
    for i in 0..n
        invariant
            n <= a.len(),
            av == authors_view(a@),
            out@ == start + author_entries(av, i as nat),
    {
        let mut l = String::from_str("   ");
        l.append(medal_of(i));
        l.append(" ");
        l.append(a[i].0.as_str());
        l.append(" (");
        let d = decimal_of(a[i].1 as u64);
        l.append(d.as_str());
        l.append(" commits)");
        out.add_line(l);
        proof {
            assert(av[i as int] == (a@[i as int].0@, a@[i as int].1 as nat));
            assert(out@ =~= start + author_entries(av, (i + 1) as nat));
        }
    }
}

impl Command for SummaryCommand {
    fn name(&self) -> (r: &'static str)
        ensures
            r@ == "summary"@,
    {
        "summary"
    }

    fn description(&self) -> (r: &'static str)
        ensures
            r@ == "Generate a summary of repository activity"@,
    {
        "Generate a summary of repository activity"
    }
}

impl GitCommand for SummaryCommand {}

/// Async parallel version of SummaryCommand: all parts are read at once,
/// and the failure of any one of them is the command's failure.
pub struct AsyncSummaryCommand {
    since: Option<String>,
}

impl AsyncSummaryCommand {
    pub closed spec fn since_view(&self) -> Option<Seq<char>> {
        match self.since {
            Some(s) => Some(s@),
            None => None,
        }
    }

    pub fn new(since: Option<String>) -> (r: Self)
        ensures
            r.since_view() == match since {
                Some(s) => Some(s@),
                None => None::<Seq<char>>,
            },
    {
        Self { since }
    }

    /// The summary from the parts read together: with `since`, the detailed
    /// summary of the log; otherwise, when every part was read, the
    /// repository summary (a failed part fails the command, whichever it is).
    pub fn execute_parallel(
        &self,
        log: Result<String>,
        today: &(i32, u32, u32, String),
        root: Result<String>,
        info: Result<(String, Option<String>, u32, u32)>,
        stats: Result<(u32, String)>,
        authors: Result<Vec<(String, u32)>>,
        files: Result<usize>,
    ) -> (r: Result<String>)
        ensures
            self.since_view() is Some ==> detailed_report(
                since_arg(self.since_view()),
                log,
                (today.0, today.1, today.2, today.3@),
                r,
            ),
            self.since_view() is None ==> if root is Err || info is Err || stats is Err || authors is Err || files is Err {
                r is Err
            } else {
                repository_report(period_of(self.since_view()), root, info, stats, authors, files, r)
            },
    {
        let cmd = SummaryCommand::new(
            match &self.since {
                Some(s) => Some(owned(s.as_str())),
                None => None,
            },
        );
        if self.since.is_some() {
            return cmd.get_detailed_commit_summary(log, today);
        }
        let root = match root {
            Err(e) => return Err(e),
            Ok(r) => Ok(r),
        };
        let info = match info {
            Err(e) => return Err(e),
            Ok(i) => Ok(i),
        };
        let stats = match stats {
            Err(e) => return Err(e),
            Ok(s) => Ok(s),
        };
        let authors = match authors {
            Err(e) => return Err(e),
            Ok(a) => Ok(a),
        };
        let files = match files {
            Err(e) => return Err(e),
            Ok(n) => Ok(n),
        };
        cmd.repository_summary(root, info, stats, authors, files)
    }
}

// ---------------------------------------------------------------------------
// Technical debt
// ---------------------------------------------------------------------------

/// The file names of `git log --name-only --pretty=format:` that count as
/// changes: trimmed lines that are not empty and do not start with "commit".
pub open spec fn changed_files(ls: Seq<Seq<char>>) -> Seq<Seq<char>>
    decreases ls.len(),
{
    if ls.len() == 0 {
        Seq::empty()
    } else {
        let rest = changed_files(ls.drop_last());
        let t = trim(ls.last());
        if t.len() > 0 && !crate::base::text::has_prefix(t, "commit"@) {
            rest.push(t)
        } else {
            rest
        }
    }
}

/// No file changed more often than a `u32` counts.
pub open spec fn change_counts_fit(output: Seq<char>) -> bool {
    forall|k: Seq<char>| #[trigger] crate::base::tally::occurrences(changed_files(lines(output)), k) <= u32::MAX
}

/// The changed files of the log output.
fn read_changed_files(output: &str) -> (r: Vec<String>)
    ensures
        r.deep_view() == changed_files(lines(output@)),
{
    let ls = lines_of(output);
    let mut v: Vec<String> = Vec::new();
    for i in 0..ls.len()
        invariant
            v.deep_view() == changed_files(ls.deep_view().take(i as int)),
    {
        proof {
            assert(ls.deep_view().take(i + 1).drop_last() =~= ls.deep_view().take(i as int));
            assert(ls.deep_view()[i as int] == ls@[i as int]@);
        }
        let t = trim_str(ls[i].as_str());
        if !t.as_str().is_empty() && !crate::base::text::starts_with(t.as_str(), "commit") {
            let ghost before = v.deep_view();
            let ghost tv = t@;
            v.push(t);
            assert(v.deep_view() =~= before.push(tv));
        }
    }
    assert(ls.deep_view().take(ls.len() as int) =~= ls.deep_view());
    v
}

/// The files and change counts as plain values.
pub open spec fn counts_view(v: Seq<(String, u32)>) -> Seq<(Seq<char>, nat)> {
    v.map_values(|e: (String, u32)| (e.0@, e.1 as nat))
}

/// The arguments of the log of changed files of the last three months.
pub fn churn_args() -> (r: Vec<String>)
    ensures
        r.deep_view() == seq!["log"@, "--name-only"@, "--pretty=format:"@, "--since=3 months ago"@],
{
    let r = strings(&["log", "--name-only", "--pretty=format:", "--since=3 months ago"]);
    assert(r.deep_view() =~= seq!["log"@, "--name-only"@, "--pretty=format:"@, "--since=3 months ago"@]);
    r
}

/// `(files changes)` lines: `<prefix><file> (<n> changes)`.
pub open spec fn churn_lines(v: Seq<(Seq<char>, nat)>, prefix: Seq<char>) -> Seq<Seq<char>> {
    v.map_values(|e: (Seq<char>, nat)| prefix + e.0 + " ("@ + decimal(e.1) + " changes)"@)
}

/// The lines of the technical-debt report: the churn (when read and not
/// empty) and the large files (lines rendered by the caller).
pub open spec fn debt_lines(churn: Option<Seq<(Seq<char>, nat)>>, large: Option<Seq<Seq<char>>>) -> Seq<Seq<char>> {
    seq!["🔧 Technical Debt Analysis"@, repeat("="@, 50)] + (match churn {
        Some(c) => if c.len() > 0 {
            seq!["📊 Most frequently changed files (last 3 months):"@] + churn_lines(c, "   📁 "@) + seq![""@]
        } else {
            seq!["📊 File churn: No data available"@]
        },
        None => seq!["📊 File churn: No data available"@],
    }) + (match large {
        Some(l) => if l.len() > 0 {
            seq!["📦 Large files (>1MB):"@] + l
        } else {
            seq!["📦 Large files: None found"@]
        },
        None => seq!["📦 Large files: None found"@],
    })
}

/// Adds `<prefix><file> (<n> changes)` for each entry.
fn add_churn_lines(out: &mut BufferedOutput, v: &Vec<(String, u32)>, prefix: &str, limit: usize)
    ensures
        final(out)@ == old(out)@ + churn_lines(counts_view(v@).take(if limit < v.len() { limit as int } else { v.len() as int }), prefix@),
{
    let n = if limit < v.len() { limit } else { v.len() };
    let ghost cv = counts_view(v@);
    let ghost start = out@;
    for i in 0..n
        invariant
            n <= v.len(),
            cv == counts_view(v@),
            out@ == start + churn_lines(cv.take(i as int), prefix@),
    {
        let mut l = owned(prefix);
        l.append(v[i].0.as_str());
        l.append(" (");
        let d = decimal_of(v[i].1 as u64);
        l.append(d.as_str());
        l.append(" changes)");
        out.add_line(l);
        proof {
            assert(cv[i as int] == (v@[i as int].0@, v@[i as int].1 as nat));
            assert(churn_lines(cv.take(i + 1), prefix@) =~= churn_lines(cv.take(i as int), prefix@).push(
                prefix@ + cv[i as int].0 + " ("@ + decimal(cv[i as int].1) + " changes)"@,
            ));
        }
    }
}

/// Command to analyze technical debt
pub struct TechnicalDebtCommand;

impl TechnicalDebtCommand {
    pub fn new() -> (r: Self) {
        Self
    }

    /// The ten most changed files of the last three months, most changed
    /// first, from the log of changed files.
    pub fn analyze_file_churn(&self, output: Result<String>) -> (r: Result<Vec<(String, u32)>>)
        requires
            output matches Ok(o) ==> change_counts_fit(o@),
        ensures
            match output {
                Err(e) => r == Err::<Vec<(String, u32)>, GitXError>(e),
                Ok(o) => r matches Ok(v) && exists|w: Seq<(Seq<char>, nat)>|
                    ranked_by_count(changed_files(lines(o@)), w) && counts_view(v@) == w.take(
                        if w.len() < 10 { w.len() as int } else { 10 },
                    ),
            },
    {
        let o = match output {
            Err(e) => return Err(e),
            Ok(o) => o,
        };
        let files = read_changed_files(o.as_str());
        let ranked = rank_files_by_count(&files);
        let ghost w = ranked@.map_values(|e: (String, usize)| (e.0@, e.1 as nat));
        let n = if ranked.len() < 10 { ranked.len() } else { 10 };
        let mut v: Vec<(String, u32)> = Vec::new();
        for i in 0..n
            invariant
                n <= ranked.len(),
                w == ranked@.map_values(|e: (String, usize)| (e.0@, e.1 as nat)),
                ranked_by_count(files.deep_view(), w),
                change_counts_fit(o@),
                files.deep_view() == changed_files(lines(o@)),
                counts_view(v@) == w.take(i as int),
        {
            proof {
                let f = firsts(files.deep_view());
                let c = crate::technical_debt::modification_counts(files.deep_view());
                let p = choose|p: Seq<usize>|
                    #![trigger is_ranking(c, p)]
                    is_ranking(c, p) && w.len() == f.len() && forall|j: int|
                        0 <= j < w.len() ==> #[trigger] w[j] == (f[p[j] as int], crate::base::tally::occurrences(
                            files.deep_view(),
                            f[p[j] as int],
                        ));
                assert(w[i as int] == (f[p[i as int] as int], crate::base::tally::occurrences(
                    files.deep_view(),
                    f[p[i as int] as int],
                )));
                assert(crate::base::tally::occurrences(changed_files(lines(o@)), f[p[i as int] as int]) <= u32::MAX);
                assert(w[i as int] == (ranked@[i as int].0@, ranked@[i as int].1 as nat));
            }
            let c = ranked[i].1 as u32;
            let ghost before = counts_view(v@);
            v.push((owned(ranked[i].0.as_str()), c));
            proof {
                assert(counts_view(v@) =~= before.push((ranked@[i as int].0@, c as nat)));
                assert(w.take(i + 1) =~= w.take(i as int).push(w[i as int]));
            }
        }
        Ok(v)
    }

    /// The report from the churn and the rendered large-file lines (see
    /// `debt_lines`); a failed part reads as having no data.
    pub fn execute(&self, churn: Result<Vec<(String, u32)>>, large: Result<Vec<String>>) -> (r: String)
        ensures
            r@ == join(
                debt_lines(
                    match churn {
                        Ok(c) => Some(counts_view(c@)),
                        Err(_) => None,
                    },
                    match large {
                        Ok(l) => Some(l.deep_view()),
                        Err(_) => None,
                    },
                ),
                "\n"@,
            ),
    {
        let mut out = BufferedOutput::new();
        out.add_line(String::from_str("🔧 Technical Debt Analysis"));
        out.add_line(repeat_of("=", 50));
        let mut churn_shown = false;
        match &churn {
            Ok(c) => {
                if c.len() > 0 {
                    out.add_line(String::from_str("📊 Most frequently changed files (last 3 months):"));
                    add_churn_lines(&mut out, c, "   📁 ", c.len());
                    out.add_line(String::from_str(""));
                    churn_shown = true;
                }
            },
            Err(_) => {},
        }
        if !churn_shown {
            out.add_line(String::from_str("📊 File churn: No data available"));
        }
        let mut large_shown = false;
        match large {
            Ok(l) => {
                if l.len() > 0 {
                    out.add_line(String::from_str("📦 Large files (>1MB):"));
                    out.add_lines(l);
                    large_shown = true;
                }
            },
            Err(_) => {},
        }
        if !large_shown {
            out.add_line(String::from_str("📦 Large files: None found"));
        }
        proof {
            match churn {
                Ok(c) => {
                    assert(counts_view(c@).take(c.len() as int) =~= counts_view(c@));
                },
                Err(_) => {},
            }
        }
        assert(out@ =~= debt_lines(
            match churn {
                Ok(c) => Some(counts_view(c@)),
                Err(_) => None,
            },
            match large {
                Ok(l) => Some(l.deep_view()),
                Err(_) => None,
            },
        ));
        out.content()
    }
}

impl Default for TechnicalDebtCommand {
    fn default() -> (r: Self) {
        Self::new()
    }
}

impl Command for TechnicalDebtCommand {
    fn name(&self) -> (r: &'static str)
        ensures
            r@ == "technical-debt"@,
    {
        "technical-debt"
    }

    fn description(&self) -> (r: &'static str)
        ensures
            r@ == "Analyze technical debt indicators"@,
    {
        "Analyze technical debt indicators"
    }
}

impl GitCommand for TechnicalDebtCommand {}

/// The lines of the parallel technical-debt report (large-file lines
/// rendered by the caller); each part shows at most ten entries.
pub open spec fn parallel_debt_lines(c: Seq<(Seq<char>, nat)>, l: Seq<Seq<char>>, o: Seq<Seq<char>>) -> Seq<Seq<char>> {
    seq!["🔧 Technical Debt Analysis"@, repeat("="@, 40)] + (if c.len() > 0 {
        seq!["\n📈 High-churn files (frequently modified):"@] + churn_lines(
            c.take(if c.len() < 10 { c.len() as int } else { 10 }),
            "   🔄 "@,
        )
    } else {
        Seq::empty()
    }) + (if l.len() > 0 {
        seq!["\n📦 Large files:"@] + l.take(if l.len() < 10 { l.len() as int } else { 10 })
    } else {
        Seq::empty()
    }) + (if o.len() > 0 {
        seq!["\n⏰ Potentially stale files (not modified recently):"@] + o.take(
            if o.len() < 10 { o.len() as int } else { 10 },
        ).map_values(|f: Seq<char>| "   📅 "@ + f)
    } else {
        Seq::empty()
    }) + (if c.len() == 0 && l.len() == 0 && o.len() == 0 {
        seq!["✅ No significant technical debt detected"@]
    } else {
        Seq::empty()
    })
}

/// Adds `<prefix><item>` for each of the first ten items.
fn add_first_ten(out: &mut BufferedOutput, items: &Vec<String>, prefix: &str)
    ensures
        final(out)@ == old(out)@ + items.deep_view().take(if items.len() < 10 { items.len() as int } else { 10 }).map_values(
            |f: Seq<char>| prefix@ + f,
        ),
{
    let n = if items.len() < 10 { items.len() } else { 10 };
    let ghost start = out@;
    for i in 0..n
        invariant
            n <= items.len(),
            out@ == start + items.deep_view().take(i as int).map_values(|f: Seq<char>| prefix@ + f),
    {
        let mut t = owned(prefix);
        t.append(items[i].as_str());
        out.add_line(t);
        proof {
            assert(items.deep_view()[i as int] == items@[i as int]@);
            assert(items.deep_view().take(i + 1).map_values(|f: Seq<char>| prefix@ + f) =~= items.deep_view().take(
                i as int,
            ).map_values(|f: Seq<char>| prefix@ + f).push(prefix@ + items@[i as int]@));
        }
    }
}

/// Parallel version of TechnicalDebtCommand
pub struct ParallelTechnicalDebtCommand;

impl ParallelTechnicalDebtCommand {
    pub fn new() -> (r: Self) {
        Self
    }

    /// The files changed more than five times in the last three months,
    /// most changed first, from the log of changed files.
    pub fn analyze_file_churn_parallel(&self, output: Result<String>) -> (r: Result<Vec<(String, u32)>>)
        requires
            output matches Ok(o) ==> change_counts_fit(o@),
        ensures
            match output {
                Err(e) => r == Err::<Vec<(String, u32)>, GitXError>(e),
                Ok(o) => r matches Ok(v) && exists|w: Seq<(Seq<char>, nat)>|
                    #![trigger ranked_by_count(changed_files(lines(o@)), w)]
                    ranked_by_count(changed_files(lines(o@)), w) && v.len() <= w.len() && counts_view(v@) == w.take(
                        v.len() as int,
                    ) && (forall|j: int| 0 <= j < v.len() ==> #[trigger] w[j].1 > 5) && (forall|j: int|
                        v.len() <= j < w.len() ==> #[trigger] w[j].1 <= 5),
            },
    {
        let o = match output {
            Err(e) => return Err(e),
            Ok(o) => o,
        };
        let files = read_changed_files(o.as_str());
        let ranked = rank_files_by_count(&files);
        let ghost w = ranked@.map_values(|e: (String, usize)| (e.0@, e.1 as nat));
        proof {
            assert(files.deep_view().len() == files.len());
            lemma_ranked_descending(files.deep_view(), w);
        }
        let mut v: Vec<(String, u32)> = Vec::new();
        let mut i: usize = 0;
        while i < ranked.len() && ranked[i].1 > 5
            invariant
                i <= ranked.len(),
                w == ranked@.map_values(|e: (String, usize)| (e.0@, e.1 as nat)),
                ranked_by_count(files.deep_view(), w),
                change_counts_fit(o@),
                files.deep_view() == changed_files(lines(o@)),
                counts_view(v@) == w.take(i as int),
                v.len() == i,
                forall|j: int| 0 <= j < i ==> #[trigger] w[j].1 > 5,
            decreases ranked.len() - i,
        {
            proof {
                let f = firsts(files.deep_view());
                let c = crate::technical_debt::modification_counts(files.deep_view());
                let p = choose|p: Seq<usize>|
                    #![trigger is_ranking(c, p)]
                    is_ranking(c, p) && w.len() == f.len() && forall|j: int|
                        0 <= j < w.len() ==> #[trigger] w[j] == (f[p[j] as int], crate::base::tally::occurrences(
                            files.deep_view(),
                            f[p[j] as int],
                        ));
                assert(w[i as int] == (f[p[i as int] as int], crate::base::tally::occurrences(
                    files.deep_view(),
                    f[p[i as int] as int],
                )));
                assert(crate::base::tally::occurrences(changed_files(lines(o@)), f[p[i as int] as int]) <= u32::MAX);
                assert(w[i as int] == (ranked@[i as int].0@, ranked@[i as int].1 as nat));
            }
            let c = ranked[i].1 as u32;
            let ghost before = counts_view(v@);
            v.push((owned(ranked[i].0.as_str()), c));
            proof {
                assert(counts_view(v@) =~= before.push((ranked@[i as int].0@, c as nat)));
                assert(w.take(i + 1) =~= w.take(i as int).push(w[i as int]));
            }
            i = i + 1;
        }
        proof {
            if i < ranked.len() {
                assert(w[i as int].1 <= 5);
                assert forall|j: int| i <= j < w.len() implies #[trigger] w[j].1 <= 5 by {
                    if j > i {
                        assert(w[i as int].1 >= w[j].1);
                    }
                }
            }
            assert(v.len() <= w.len());
            assert(ranked_by_count(changed_files(lines(o@)), w) && v.len() <= w.len() && counts_view(v@) == w.take(
                v.len() as int,
            ) && (forall|j: int| 0 <= j < v.len() ==> #[trigger] w[j].1 > 5) && (forall|j: int|
                v.len() <= j < w.len() ==> #[trigger] w[j].1 <= 5));
        }
        Ok(v)
    }

    /// The arguments of the last change of `file`, as a relative date.
    pub fn last_change_args(file: &str) -> (r: Vec<String>)
        ensures
            r.deep_view() == seq!["log"@, "-1"@, "--pretty=format:%cr"@, "--"@, file@],
    {
        let mut r = strings(&["log", "-1", "--pretty=format:%cr", "--"]);
        push_str_arg(&mut r, file);
        assert(r.deep_view() =~= seq!["log"@, "-1"@, "--pretty=format:%cr"@, "--"@, file@]);
        r
    }

    /// A potentially stale file: its last change was months or years ago.
    pub fn stale_file_entry(file: &str, log: Result<String>) -> (r: Option<String>)
        ensures
            match log {
                Ok(l) => if crate::base::text::contains(l@, "months ago"@) || crate::base::text::contains(l@, "year"@) {
                    r matches Some(t) && t@ == file@ + " (last modified: "@ + trim(l@) + ")"@
                } else {
                    r is None
                },
                Err(_) => r is None,
            },
    {
        match log {
            Ok(l) => {
                if crate::base::text::str_contains(l.as_str(), "months ago") || crate::base::text::str_contains(
                    l.as_str(),
                    "year",
                ) {
                    let mut t = owned(file);
                    t.append(" (last modified: ");
                    let tl = trim_str(l.as_str());
                    t.append(tl.as_str());
                    t.append(")");
                    Some(t)
                } else {
                    None
                }
            },
            Err(_) => None,
        }
    }

    /// The report from the three analyses (see `parallel_debt_lines`); the
    /// first failed one, in the order churn, large files, stale files, is
    /// the command's failure.
    pub fn execute_parallel(
        &self,
        churn: Result<Vec<(String, u32)>>,
        large: Result<Vec<String>>,
        old: Result<Vec<String>>,
    ) -> (r: Result<String>)
        ensures
            match churn {
                Err(e) => r == Err::<String, GitXError>(e),
                Ok(c) => match large {
                    Err(e) => r == Err::<String, GitXError>(e),
                    Ok(l) => match old {
                        Err(e) => r == Err::<String, GitXError>(e),
                        Ok(o) => r matches Ok(t) && t@ == join(
                            parallel_debt_lines(counts_view(c@), l.deep_view(), o.deep_view()),
                            "\n"@,
                        ),
                    },
                },
            },
    {
        let c = match churn {
            Err(e) => return Err(e),
            Ok(c) => c,
        };
        let l = match large {
            Err(e) => return Err(e),
            Ok(l) => l,
        };
        let o = match old {
            Err(e) => return Err(e),
            Ok(o) => o,
        };
        let mut out = BufferedOutput::new();
        out.add_line(String::from_str("🔧 Technical Debt Analysis"));
        out.add_line(repeat_of("=", 40));
        let ghost s0 = out@;
        if c.len() > 0 {
            out.add_line(String::from_str("\n📈 High-churn files (frequently modified):"));
            add_churn_lines(&mut out, &c, "   🔄 ", 10);
        }
        let ghost s1 = out@;
        if l.len() > 0 {
            out.add_line(String::from_str("\n📦 Large files:"));
            add_first_ten(&mut out, &l, "");
        }
        let ghost s2 = out@;
        if o.len() > 0 {
            out.add_line(String::from_str("\n⏰ Potentially stale files (not modified recently):"));
            add_first_ten(&mut out, &o, "   📅 ");
        }
        let ghost s3 = out@;
        if c.len() == 0 && l.len() == 0 && o.len() == 0 {
            out.add_line(String::from_str("✅ No significant technical debt detected"));
        }
        proof {
            reveal_strlit("");
            assert(l.deep_view().take(if l.len() < 10 { l.len() as int } else { 10 }).map_values(|f: Seq<char>| ""@ + f)
                =~= l.deep_view().take(if l.len() < 10 { l.len() as int } else { 10 }));
        }
        assert(out@ =~= parallel_debt_lines(counts_view(c@), l.deep_view(), o.deep_view()));
        Ok(out.content())
    }
}

impl Default for ParallelTechnicalDebtCommand {
    fn default() -> (r: Self) {
        Self::new()
    }
}

// ---------------------------------------------------------------------------
// Grouped
// ---------------------------------------------------------------------------

/// Analysis and reporting commands grouped together
pub struct AnalysisCommands;

impl AnalysisCommands {
    /// Repository summary (see `SummaryCommand::execute`).
    pub fn summary(
        since: Option<String>,
        log: Result<String>,
        today: &(i32, u32, u32, String),
        root: Result<String>,
        info: Result<(String, Option<String>, u32, u32)>,
        stats: Result<(u32, String)>,
        authors: Result<Vec<(String, u32)>>,
        files: Result<usize>,
    ) -> (r: Result<String>)
        ensures
            since is Some ==> detailed_report(
                since_arg(
                    match since {
                        Some(s) => Some(s@),
                        None => None,
                    },
                ),
                log,
                (today.0, today.1, today.2, today.3@),
                r,
            ),
            since is None ==> repository_report("all time"@, root, info, stats, authors, files, r),
    {
        SummaryCommand::new(since).execute(log, today, root, info, stats, authors, files)
    }

    /// The arguments of the commit graph, colored or simple.
    pub fn graph(colored: bool) -> (r: Vec<String>)
        ensures
            colored ==> r.deep_view() == seq![
                "log"@,
                "--graph"@,
                "--pretty=format:%C(auto)%h%d %s %C(black)%C(bold)%cr"@,
                "--abbrev-commit"@,
                "--all"@,
                "-20"@,
            ],
            !colored ==> r.deep_view() == seq!["log"@, "--graph"@, "--oneline"@, "--all"@, "-20"@],
    {
        if colored {
            ColorGraphCommand::new().args()
        } else {
            GraphCommand::new().args()
        }
    }

    /// The contributors of the commit log (see
    /// `ContributorsCommand::get_detailed_contributors`).
    pub fn contributors(since: Option<String>, output: Result<String>) -> (r: Result<Vec<ContributorStats>>)
        ensures
            match output {
                Err(e) => r == Err::<Vec<ContributorStats>, GitXError>(e),
                Ok(o) => r matches Ok(v) && if trim(o@).len() == 0 {
                    v.len() == 0
                } else {
                    ranked_contributors(commit_records(lines(o@), false), stats_views(v@))
                },
            },
    {
        ContributorsCommand::new(since).get_detailed_contributors(output)
    }

    /// The technical-debt report (see `TechnicalDebtCommand::execute`).
    pub fn technical_debt(churn: Result<Vec<(String, u32)>>, large: Result<Vec<String>>) -> (r: String)
        ensures
            r@ == join(
                debt_lines(
                    match churn {
                        Ok(c) => Some(counts_view(c@)),
                        Err(_) => None,
                    },
                    match large {
                        Ok(l) => Some(l.deep_view()),
                        Err(_) => None,
                    },
                ),
                "\n"@,
            ),
    {
        TechnicalDebtCommand::new().execute(churn, large)
    }

    /// Commits since a reference or time (see `SinceCommand::execute`).
    pub fn since(time_spec: String, range_log: Result<String>, time_log: Result<String>) -> (r: Result<String>)
        ensures
            since_report(time_spec@, range_log, time_log, r),
    {
        SinceCommand::new(time_spec).execute(range_log, time_log)
    }

    /// What changed between the current branch and the target (see
    /// `WhatCommand::execute`).
    pub fn what(target: Option<String>, current: Result<String>, counts: Result<String>, diff: Result<String>) -> (r: Result<String>)
        ensures
            match current {
                Err(e) => r == Err::<String, GitXError>(e),
                Ok(c) => match counts {
                    Err(e) => r == Err::<String, GitXError>(e),
                    Ok(n) => match diff {
                        Err(e) => r == Err::<String, GitXError>(e),
                        Ok(d) => r matches Ok(t) && exists|bc: Seq<char>, bt: Seq<char>|
                            is_bold_of(bc, c@) && is_bold_of(
                                bt,
                                match target {
                                    Some(t) => t@,
                                    None => "main"@,
                                },
                            ) && t@ == join(what_lines(bc, bt, n@, d@), "\n"@),
                    },
                },
            },
    {
        WhatCommand::new(target).execute(current, counts, diff)
    }
}

} // verus!
