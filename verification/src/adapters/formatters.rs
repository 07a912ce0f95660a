//! Turning domain results into the text shown to the user.
use vstd::prelude::*;
use crate::base::output::{Format, is_bold_of, is_bold_yellow_of};
use crate::base::text::{decimal, decimal_of, join, join_of, owned, repeat, repeat_of};
use crate::base::validation::byte_len;
use crate::domain::branch_manager::{BranchCreationResult, BranchSwitchResult, CleanBranchesResult};
use crate::domain::git_repository::{HealthLevel, HealthStatus, RepositoryInfo, status_parts};

verus! {

/// The medal of the `i`-th contributor: gold, silver, bronze, then a person.
pub open spec fn medal(i: int) -> Seq<char> {
    if i == 0 { "🥇"@ } else if i == 1 { "🥈"@ } else if i == 2 { "🥉"@ } else { "👤"@ }
}

/// The medal of the `i`-th contributor.
pub fn medal_of(i: usize) -> (r: &'static str)
    ensures
        r@ == medal(i as int),
{
    if i == 0 { "🥇" } else if i == 1 { "🥈" } else if i == 2 { "🥉" } else { "👤" }
}

/// "<prefix><item>\n" for each item, in order.
pub open spec fn prefixed_lines(items: Seq<Seq<char>>, prefix: Seq<char>) -> Seq<char>
    decreases items.len(),
{
    if items.len() == 0 {
        Seq::empty()
    } else {
        prefixed_lines(items.drop_last(), prefix) + prefix + items.last() + "\n"@
    }
}

/// Appends "<prefix><item>\n" for each item.
pub fn push_prefixed_lines(out: &mut String, items: &Vec<String>, prefix: &str)
    ensures
        final(out)@ == old(out)@ + prefixed_lines(items.deep_view(), prefix@),
{
    let ghost start = out@;
    for i in 0..items.len()
        invariant
            out@ == start + prefixed_lines(items.deep_view().take(i as int), prefix@),
    {
        proof {
            assert(items.deep_view().take(i + 1).drop_last() =~= items.deep_view().take(i as int));
            assert(items.deep_view()[i as int] == items@[i as int]@);
        }
        out.append(prefix);
        out.append(items[i].as_str());
        out.append("\n");
    }
    assert(items.deep_view().take(items.len() as int) =~= items.deep_view());
}

/// `t` is the text for a created branch.
pub open spec fn is_creation_text(t: Seq<char>, result: BranchCreationResult) -> bool {
    exists|b: Seq<char>| is_bold_of(b, "✅"@) && t == b + " "@ + "Created and switched to branch '"@ + result.branch_name@ + "'"@
        + match result.backup_branch {
            Some(x) => "\n💾 Backup created: "@ + x@,
            None => Seq::empty(),
        } + match result.base_commit {
            Some(x) => "\n📍 Based on: "@ + x@,
            None => Seq::empty(),
        }
}

/// `t` is the text for a switch of branch.
pub open spec fn is_switch_text(t: Seq<char>, result: BranchSwitchResult) -> bool {
    exists|b: Seq<char>| is_bold_of(b, "✅"@) && t == b + " "@ + "Switched to branch '"@ + result.new_branch@ + "'"@
        + match result.checkpoint {
            Some(x) => "\n💾 Checkpoint created: "@ + x@,
            None => Seq::empty(),
        }
}

/// The text for a branch clean-up of `candidates`: in a dry run the ones
/// that would go, else the ones `deleted` and those that `failed`.
pub open spec fn clean_text(
    candidates: Seq<Seq<char>>,
    dry_run: bool,
    deleted: Seq<Seq<char>>,
    failed: Seq<Seq<char>>,
) -> Seq<char> {
    if candidates.len() == 0 {
        "No merged branches to delete."@
    } else if dry_run {
        "🧪 (dry run) "@ + decimal(candidates.len()) + " branches would be deleted:\n"@
            + prefixed_lines(candidates, "(dry run) Would delete: "@)
    } else {
        "🧹 Deleted "@ + decimal(deleted.len()) + " merged branches:\n"@ + prefixed_lines(deleted, "✅ Deleted: "@)
            + if failed.len() > 0 {
            "\n❌ Failed to delete "@ + decimal(failed.len()) + " branches:\n"@ + prefixed_lines(failed, "❌ Failed: "@)
        } else {
            Seq::empty()
        }
    }
}

/// The text for a branch clean-up.
pub open spec fn clean_result_text(result: CleanBranchesResult) -> Seq<char> {
    clean_text(
        result.candidates.deep_view(),
        result.dry_run,
        result.deleted.deep_view(),
        result.failed.deep_view(),
    )
}

pub struct BranchFormatter;

impl BranchFormatter {
    pub fn new() -> (r: Self)
    {
        Self
    }

    pub fn format_creation_result(&self, result: &BranchCreationResult) -> (r: String)
        ensures
            is_creation_text(r@, *result),
    {
        let mut msg = owned("Created and switched to branch '");
        msg.append(result.branch_name.as_str());
        msg.append("'");
        let mut output = Format::success(msg.as_str());
        let ghost b = choose|b: Seq<char>| is_bold_of(b, "✅"@) && output@ == b + " "@ + msg@;
        match &result.backup_branch {
            Some(backup) => {
                output.append("\n💾 Backup created: ");
                output.append(backup.as_str());
            },
            None => {},
        }
        match &result.base_commit {
            Some(base) => {
                output.append("\n📍 Based on: ");
                output.append(base.as_str());
            },
            None => {},
        }
        assert(is_bold_of(b, "✅"@) && output@ =~= b + " "@ + "Created and switched to branch '"@ + result.branch_name@ + "'"@
            + match result.backup_branch {
                Some(x) => "\n💾 Backup created: "@ + x@,
                None => Seq::empty(),
            } + match result.base_commit {
                Some(x) => "\n📍 Based on: "@ + x@,
                None => Seq::empty(),
            });
        output
    }

    pub fn format_clean_result(&self, result: &CleanBranchesResult) -> (r: String)
        ensures
            r@ == clean_result_text(*result),
    {
        if result.candidates.len() == 0 {
            return owned("No merged branches to delete.");
        }
        if result.dry_run {
            let mut output = owned("🧪 (dry run) ");
            let d = decimal_of(result.candidates.len() as u64);
            output.append(d.as_str());
            output.append(" branches would be deleted:\n");
            push_prefixed_lines(&mut output, &result.candidates, "(dry run) Would delete: ");
            output
        } else {
            let mut output = owned("🧹 Deleted ");
            let d = decimal_of(result.deleted.len() as u64);
            output.append(d.as_str());
            output.append(" merged branches:\n");
            push_prefixed_lines(&mut output, &result.deleted, "✅ Deleted: ");
            if result.failed.len() > 0 {
                output.append("\n❌ Failed to delete ");
                let f = decimal_of(result.failed.len() as u64);
                output.append(f.as_str());
                output.append(" branches:\n");
                push_prefixed_lines(&mut output, &result.failed, "❌ Failed: ");
            }
            output
        }
    }

    pub fn format_switch_result(&self, result: &BranchSwitchResult) -> (r: String)
        ensures
            is_switch_text(r@, *result),
    {
        let mut msg = owned("Switched to branch '");
        msg.append(result.new_branch.as_str());
        msg.append("'");
        let mut output = Format::success(msg.as_str());
        let ghost b = choose|b: Seq<char>| is_bold_of(b, "✅"@) && output@ == b + " "@ + msg@;
        match &result.checkpoint {
            Some(c) => {
                output.append("\n💾 Checkpoint created: ");
                output.append(c.as_str());
            },
            None => {},
        }
        assert(is_bold_of(b, "✅"@) && output@ =~= b + " "@ + "Switched to branch '"@ + result.new_branch@ + "'"@
            + match result.checkpoint {
                Some(x) => "\n💾 Checkpoint created: "@ + x@,
                None => Seq::empty(),
            });
        output
    }
}

impl Default for BranchFormatter {
    fn default() -> (r: Self)
    {
        Self::new()
    }
}

/// The upstream line of the repository overview.
pub open spec fn upstream_line(info: RepositoryInfo) -> Seq<char> {
    match info.upstream_branch {
        Some(u) => if info.ahead_count == 0 && info.behind_count == 0 {
            "🔗 Upstream: "@ + u@ + " (up to date)\n"@
        } else {
            "🔗 Upstream: "@ + u@ + " ("@ + join(
                (if info.ahead_count > 0 { seq![decimal(info.ahead_count as nat) + " ahead"@] } else { Seq::empty() })
                    + (if info.behind_count > 0 { seq![decimal(info.behind_count as nat) + " behind"@] } else { Seq::empty() }),
                ", "@,
            ) + ")\n"@
        },
        None => "❌ No upstream configured\n"@,
    }
}

/// The working-directory line of the overview.
pub open spec fn working_line(info: RepositoryInfo) -> Seq<char> {
    if info.is_clean {
        "✅ Working directory: Clean\n"@
    } else {
        "⚠️  Working directory: Has changes\n"@
    }
}

/// The staged-files line of the overview.
pub open spec fn staged_line(info: RepositoryInfo) -> Seq<char> {
    if info.staged_files_count == 0 {
        "📋 Staged files: None\n"@
    } else {
        "📋 Staged files: "@ + decimal(info.staged_files_count as nat) + " file(s)\n"@
    }
}

/// The detail lines of the overview, when asked for.
pub open spec fn detail_lines(info: RepositoryInfo, detailed: bool) -> Seq<char> {
    if detailed {
        "\n📂 Root path: "@ + info.root_path@ + "\n"@ + "📊 Status: "@ + join(status_parts(info), ", "@) + "\n"@
    } else {
        Seq::empty()
    }
}

/// The rest of the repository overview after the branch lines.
pub open spec fn repository_tail(info: RepositoryInfo, detailed: bool) -> Seq<char> {
    upstream_line(info) + working_line(info) + staged_line(info) + detail_lines(info, detailed)
}

/// Appends the upstream line of the overview.
fn push_upstream_line(output: &mut String, info: &RepositoryInfo)
    ensures
        final(output)@ == old(output)@ + upstream_line(*info),
{
    match &info.upstream_branch {
        Some(upstream) => {
            if info.is_in_sync() {
                output.append("🔗 Upstream: ");
                output.append(upstream.as_str());
                output.append(" (up to date)\n");
            } else {
                let mut parts: Vec<String> = Vec::new();
                if info.ahead_count > 0 {
                    let mut s = decimal_of(info.ahead_count as u64);
                    s.append(" ahead");
                    parts.push(s);
                }
                if info.behind_count > 0 {
                    let mut s = decimal_of(info.behind_count as u64);
                    s.append(" behind");
                    parts.push(s);
                }
                assert(parts.deep_view() =~= (if info.ahead_count > 0 { seq![decimal(info.ahead_count as nat) + " ahead"@] } else { Seq::empty() })
                    + (if info.behind_count > 0 { seq![decimal(info.behind_count as nat) + " behind"@] } else { Seq::empty() }));
                output.append("🔗 Upstream: ");
                output.append(upstream.as_str());
                output.append(" (");
                let j = join_of(&parts, ", ");
                output.append(j.as_str());
                output.append(")\n");
            }
        },
        None => {
            output.append("❌ No upstream configured\n");
        },
    }
}

/// Appends the staged-files line.
fn push_staged_line(output: &mut String, info: &RepositoryInfo)
    ensures
        final(output)@ == old(output)@ + staged_line(*info),
{
    if info.staged_files_count == 0 {
        output.append("📋 Staged files: None\n");
    } else {
        output.append("📋 Staged files: ");
        let d = decimal_of(info.staged_files_count as u64);
        output.append(d.as_str());
        output.append(" file(s)\n");
    }
}

/// Appends the detail lines.
fn push_detail_lines(output: &mut String, info: &RepositoryInfo, detailed: bool)
    ensures
        final(output)@ == old(output)@ + detail_lines(*info, detailed),
{
    if detailed {
        output.append("\n📂 Root path: ");
        output.append(info.root_path.as_str());
        output.append("\n");
        output.append("📊 Status: ");
        let st = info.status_description();
        output.append(st.as_str());
        output.append("\n");
    }
}

/// Appends everything of the overview after the branch lines.
fn push_repository_tail(output: &mut String, info: &RepositoryInfo, detailed: bool)
    ensures
        final(output)@ == old(output)@ + repository_tail(*info, detailed),
{
    let ghost start = output@;
    push_upstream_line(output, info);
    if info.is_clean {
        output.append("✅ Working directory: Clean\n");
    } else {
        output.append("⚠️  Working directory: Has changes\n");
    }
    push_staged_line(output, info);
    push_detail_lines(output, info, detailed);
    assert(output@ =~= start + repository_tail(*info, detailed));
}

/// The repository overview: the name and the current branch in bold, then
/// the rest (see `repository_tail`).
pub open spec fn repository_info_text(info: RepositoryInfo, detailed: bool, t: Seq<char>) -> bool {
    exists|n: Seq<char>, c: Seq<char>| is_bold_of(n, info.name@) && is_bold_of(c, info.current_branch@)
        && t == "🗂️  Repository: "@ + n + "\n"@ + "📍 Current branch: "@ + c + "\n"@ + repository_tail(info, detailed)
}

/// The health report: the heading, the verdict for the health level, the
/// issues and warnings, and the summary.
pub open spec fn health_status_text(health: HealthStatus, t: Seq<char>) -> bool {
    exists|head: Seq<char>| t == health_text_with(health, head) && health_verdict(health, head)
}

/// The health report with the verdict line `head`.
pub open spec fn health_text_with(health: HealthStatus, head: Seq<char>) -> Seq<char> {
    "🏥 Repository Health Check\n"@ + repeat("="@, 30) + "\n"@ + head + "\n"@ + (if health.issues.len() > 0 {
        "\n🚨 Issues:\n"@ + prefixed_lines(health.issues.deep_view(), "   ❌ "@)
    } else {
        Seq::empty()
    }) + (if health.warnings.len() > 0 {
        "\n⚠️  Warnings:\n"@ + prefixed_lines(health.warnings.deep_view(), "   ⚠️  "@)
    } else {
        Seq::empty()
    }) + "\n📋 Summary: "@ + health_summary(health) + "\n"@
}

/// `head` is the verdict line for the health level.
pub open spec fn health_verdict(health: HealthStatus, head: Seq<char>) -> bool {
    match health.level {
        HealthLevel::Healthy => exists|b: Seq<char>| is_bold_of(b, "✅"@) && head == b + " "@ + "Repository is healthy!"@,
        HealthLevel::Warning => exists|b: Seq<char>| is_bold_yellow_of(b, "⚠️"@) && head == b + " "@
            + "Repository has "@ + decimal(health.warnings.len() as nat) + " warning(s)"@,
        HealthLevel::Unhealthy => exists|b: Seq<char>| is_bold_of(b, "❌"@) && head == b + " "@
            + "Repository has "@ + decimal(health.issues.len() as nat) + " issue(s)"@,
    }
}

/// The repository overview with the name and the branch rendered as `n`
/// and `c`.
pub open spec fn info_text_with(info: RepositoryInfo, detailed: bool, n: Seq<char>, c: Seq<char>) -> Seq<char> {
    "🗂️  Repository: "@ + n + "\n"@ + "📍 Current branch: "@ + c + "\n"@ + repository_tail(info, detailed)
}

/// Any two overviews of the same information are the same text but for
/// how the name and the branch are rendered (plain or bold, as the terminal
/// takes it); rendered alike, they are equal. So the handler's overview is
/// the formatter's.
pub proof fn law_info_text_up_to_styling(info: RepositoryInfo, detailed: bool, t1: Seq<char>, t2: Seq<char>)
    requires
        repository_info_text(info, detailed, t1),
        repository_info_text(info, detailed, t2),
    ensures
        exists|n1: Seq<char>, c1: Seq<char>, n2: Seq<char>, c2: Seq<char>|
            #![trigger is_bold_of(n1, info.name@), is_bold_of(c1, info.current_branch@), is_bold_of(n2, info.name@), is_bold_of(c2, info.current_branch@)]
            is_bold_of(n1, info.name@) && is_bold_of(c1, info.current_branch@) && is_bold_of(n2, info.name@)
                && is_bold_of(c2, info.current_branch@) && t1 == info_text_with(info, detailed, n1, c1) && t2
                == info_text_with(info, detailed, n2, c2) && (n1 == n2 && c1 == c2 ==> t1 == t2),
{
    let (n1, c1) = choose|n: Seq<char>, c: Seq<char>|
        #![trigger is_bold_of(n, info.name@), is_bold_of(c, info.current_branch@)]
        is_bold_of(n, info.name@) && is_bold_of(c, info.current_branch@) && t1 == "🗂️  Repository: "@ + n + "\n"@
            + "📍 Current branch: "@ + c + "\n"@ + repository_tail(info, detailed);
    let (n2, c2) = choose|n: Seq<char>, c: Seq<char>|
        #![trigger is_bold_of(n, info.name@), is_bold_of(c, info.current_branch@)]
        is_bold_of(n, info.name@) && is_bold_of(c, info.current_branch@) && t2 == "🗂️  Repository: "@ + n + "\n"@
            + "📍 Current branch: "@ + c + "\n"@ + repository_tail(info, detailed);
    assert(t1 == info_text_with(info, detailed, n1, c1));
    assert(t2 == info_text_with(info, detailed, n2, c2));
}

/// Any two health reports of the same status are the same text unless the
/// verdict's mark is rendered differently (plain or styled, as the
/// terminal takes it), in which case their lengths differ. So the
/// handler's report is the formatter's.
pub proof fn law_health_text_up_to_styling(health: HealthStatus, t1: Seq<char>, t2: Seq<char>)
    requires
        health_status_text(health, t1),
        health_status_text(health, t2),
    ensures
        t1.len() == t2.len() ==> t1 == t2,
{
    let h1 = choose|head: Seq<char>| t1 == health_text_with(health, head) && health_verdict(health, head);
    let h2 = choose|head: Seq<char>| t2 == health_text_with(health, head) && health_verdict(health, head);
    if t1.len() == t2.len() {
        assert(h1.len() == h2.len());
        match health.level {
            HealthLevel::Healthy => {
                let b1 = choose|b: Seq<char>| is_bold_of(b, "✅"@) && h1 == b + " "@ + "Repository is healthy!"@;
                let b2 = choose|b: Seq<char>| is_bold_of(b, "✅"@) && h2 == b + " "@ + "Repository is healthy!"@;
                assert(b1.len() == b2.len());
                assert(b1 == b2);
            },
            HealthLevel::Warning => {
                let b1 = choose|b: Seq<char>| is_bold_yellow_of(b, "⚠️"@) && h1 == b + " "@ + "Repository has "@
                    + decimal(health.warnings.len() as nat) + " warning(s)"@;
                let b2 = choose|b: Seq<char>| is_bold_yellow_of(b, "⚠️"@) && h2 == b + " "@ + "Repository has "@
                    + decimal(health.warnings.len() as nat) + " warning(s)"@;
                assert(b1.len() == b2.len());
                assert(b1 == b2);
            },
            HealthLevel::Unhealthy => {
                let b1 = choose|b: Seq<char>| is_bold_of(b, "❌"@) && h1 == b + " "@ + "Repository has "@
                    + decimal(health.issues.len() as nat) + " issue(s)"@;
                let b2 = choose|b: Seq<char>| is_bold_of(b, "❌"@) && h2 == b + " "@ + "Repository has "@
                    + decimal(health.issues.len() as nat) + " issue(s)"@;
                assert(b1.len() == b2.len());
                assert(b1 == b2);
            },
        }
        assert(h1 == h2);
    }
}

pub struct RepositoryFormatter;

impl RepositoryFormatter {
    pub fn new() -> (r: Self)
    {
        Self
    }

    pub fn format_repository_info(&self, info: &RepositoryInfo, detailed: bool) -> (r: String)
        ensures
            repository_info_text(*info, detailed, r@),
    {
        let mut output = owned("🗂️  Repository: ");
        let n = Format::bold(info.name.as_str());
        output.append(n.as_str());
        output.append("\n");
        output.append("📍 Current branch: ");
        let c = Format::bold(info.current_branch.as_str());
        output.append(c.as_str());
        output.append("\n");
        let ghost head = output@;
        push_repository_tail(&mut output, info, detailed);
        assert(output@ == head + repository_tail(*info, detailed));
        output
    }

    pub fn format_health_status(&self, health: &HealthStatus) -> (r: String)
        ensures
            health_status_text(*health, r@),
    {
        let mut output = owned("🏥 Repository Health Check\n");
        let eq = repeat_of("=", 30);
        output.append(eq.as_str());
        output.append("\n");
        let head = match health.level {
            HealthLevel::Healthy => Format::success("Repository is healthy!"),
            HealthLevel::Warning => {
                let mut m = owned("Repository has ");
                let d = decimal_of(health.warnings.len() as u64);
                m.append(d.as_str());
                m.append(" warning(s)");
                let w = Format::warning(m.as_str());
                proof {
                    let b = choose|b: Seq<char>| is_bold_yellow_of(b, "⚠️"@) && w@ == b + " "@ + m@;
                    assert(w@ =~= b + " "@ + "Repository has "@ + decimal(health.warnings.len() as nat) + " warning(s)"@);
                }
                w
            },
            HealthLevel::Unhealthy => {
                let mut m = owned("Repository has ");
                let d = decimal_of(health.issues.len() as u64);
                m.append(d.as_str());
                m.append(" issue(s)");
                let e = Format::error(m.as_str());
                proof {
                    let b = choose|b: Seq<char>| is_bold_of(b, "❌"@) && e@ == b + " "@ + m@;
                    assert(e@ =~= b + " "@ + "Repository has "@ + decimal(health.issues.len() as nat) + " issue(s)"@);
                }
                e
            },
        };
        let ghost hv = head@;
        assert(health_verdict(*health, hv));
        output.append(head.as_str());
        output.append("\n");
        if health.issues.len() > 0 {
            output.append("\n🚨 Issues:\n");
            push_prefixed_lines(&mut output, &health.issues, "   ❌ ");
        }
        if health.warnings.len() > 0 {
            output.append("\n⚠️  Warnings:\n");
            push_prefixed_lines(&mut output, &health.warnings, "   ⚠️  ");
        }
        output.append("\n📋 Summary: ");
        let s = health.summary();
        output.append(s.as_str());
        output.append("\n");
        assert(output@ =~= health_text_with(*health, hv));
        output
    }
}

/// What `HealthStatus::summary` says.
pub open spec fn health_summary(h: HealthStatus) -> Seq<char> {
    match h.level {
        HealthLevel::Healthy => "Repository is healthy"@,
        HealthLevel::Warning => "Repository has "@ + decimal(h.warnings.len() as nat) + " warning(s)"@,
        HealthLevel::Unhealthy => "Repository has "@ + decimal(h.issues.len() as nat) + " issue(s)"@,
    }
}

impl Default for RepositoryFormatter {
    fn default() -> (r: Self)
    {
        Self::new()
    }
}

/// The contributor lines: medal, name and commit count.
pub open spec fn contributor_lines(c: Seq<(Seq<char>, u32)>) -> Seq<char>
    decreases c.len(),
{
    if c.len() == 0 {
        Seq::empty()
    } else {
        contributor_lines(c.drop_last()) + "   "@ + medal(c.len() - 1) + " "@ + c.last().0 + " ("@
            + decimal(c.last().1 as nat) + " commits)\n"@
    }
}

pub struct AnalysisFormatter;

impl AnalysisFormatter {
    pub fn new() -> (r: Self)
    {
        Self
    }

    pub fn format_commit_stats(&self, total_commits: u32, period: &str) -> (r: String)
        ensures
            exists|b: Seq<char>| is_bold_of(b, "ℹ️"@) && r@ == b + " "@ + "📈 "@ + decimal(total_commits as nat) + " commits in "@ + period@,
    {
        let mut m = owned("📈 ");
        let d = decimal_of(total_commits as u64);
        m.append(d.as_str());
        m.append(" commits in ");
        m.append(period);
        Format::info(m.as_str())
    }

    pub fn format_contributors(&self, contributors: &[(String, u32)]) -> (r: String)
        ensures
            r@ == "👥 Top Contributors:\n"@ + contributor_lines(contributors@.map_values(|c: (String, u32)| (c.0@, c.1))),
    {
        let mut output = owned("👥 Top Contributors:\n");
        let ghost cv = contributors@.map_values(|c: (String, u32)| (c.0@, c.1));
        for i in 0..contributors.len()
            invariant
                cv == contributors@.map_values(|c: (String, u32)| (c.0@, c.1)),
                output@ == "👥 Top Contributors:\n"@ + contributor_lines(cv.take(i as int)),
        {
            proof {
                assert(cv.take(i + 1).drop_last() =~= cv.take(i as int));
            }
            output.append("   ");
            output.append(medal_of(i));
            output.append(" ");
            output.append(contributors[i].0.as_str());
            output.append(" (");
            let d = decimal_of(contributors[i].1 as u64);
            output.append(d.as_str());
            output.append(" commits)\n");
        }
        assert(cv.take(contributors.len() as int) =~= cv);
        output
    }
}

impl Default for AnalysisFormatter {
    fn default() -> (r: Self)
    {
        Self::new()
    }
}

/// "<bullet> <item>" per item, joined by newlines.
pub open spec fn bulleted(items: Seq<Seq<char>>, bullet: Seq<char>) -> Seq<Seq<char>> {
    items.map_values(|it: Seq<char>| bullet + " "@ + it)
}

/// "<n>. <item>" per item, numbered from one.
pub open spec fn numbered(items: Seq<Seq<char>>) -> Seq<Seq<char>> {
    Seq::new(items.len(), |i: int| decimal((i + 1) as nat) + ". "@ + items[i])
}

pub struct FormatterUtils;

impl FormatterUtils {
    pub fn section_header(title: &str) -> (r: String)
        ensures
            r@ == title@ + "\n"@ + repeat("="@, byte_len(title@)) + "\n"@,
    {
        let mut r = owned(title);
        r.append("\n");
        let line = repeat_of("=", title.len());
        r.append(line.as_str());
        r.append("\n");
        r
    }

    pub fn subsection_header(title: &str) -> (r: String)
        ensures
            r@ == "\n"@ + title@ + "\n"@ + repeat("-"@, byte_len(title@)) + "\n"@,
    {
        let mut r = owned("\n");
        r.append(title);
        r.append("\n");
        let line = repeat_of("-", title.len());
        r.append(line.as_str());
        r.append("\n");
        r
    }

    pub fn bullet_list(items: &[String], bullet: &str) -> (r: String)
        ensures
            r@ == join(bulleted(items@.map_values(|s: String| s@), bullet@), "\n"@),
    {
        let mut lines: Vec<String> = Vec::new();
        let ghost iv = items@.map_values(|s: String| s@);
        for i in 0..items.len()
            invariant
                iv == items@.map_values(|s: String| s@),
                lines.deep_view() == bulleted(iv.take(i as int), bullet@),
        {
            let mut l = owned(bullet);
            l.append(" ");
            l.append(items[i].as_str());
            let ghost before = lines.deep_view();
            lines.push(l);
            proof {
                assert(iv[i as int] == items@[i as int]@);
                assert(lines.deep_view() =~= before.push(bullet@ + " "@ + iv[i as int]));
                assert(bulleted(iv.take(i + 1), bullet@) =~= bulleted(iv.take(i as int), bullet@).push(bullet@ + " "@ + iv[i as int]));
            }
        }
        assert(iv.take(items.len() as int) =~= iv);
        join_of(&lines, "\n")
    }

    pub fn numbered_list(items: &[String]) -> (r: String)
        requires
            items.len() < usize::MAX,
        ensures
            r@ == join(numbered(items@.map_values(|s: String| s@)), "\n"@),
    {
        let mut lines: Vec<String> = Vec::new();
        let ghost iv = items@.map_values(|s: String| s@);
        for i in 0..items.len()
            invariant
                items.len() < usize::MAX,
                iv == items@.map_values(|s: String| s@),
                lines.deep_view() == numbered(iv.take(i as int)),
        {
            let mut l = decimal_of((i + 1) as u64);
            l.append(". ");
            l.append(items[i].as_str());
            let ghost before = lines.deep_view();
            lines.push(l);
            proof {
                assert(iv[i as int] == items@[i as int]@);
                assert(lines.deep_view() =~= before.push(decimal((i + 1) as nat) + ". "@ + iv[i as int]));
                assert(numbered(iv.take(i + 1)) =~= numbered(iv.take(i as int)).push(decimal((i + 1) as nat) + ". "@ + iv[i as int]));
            }
        }
        assert(iv.take(items.len() as int) =~= iv);
        join_of(&lines, "\n")
    }
}

} // verus!
