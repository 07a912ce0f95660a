//! Upstream tracking: validating upstream names, how branches stand
//! against their upstreams, and the reports of setting and syncing them.
use vstd::prelude::*;
use crate::base::git::ProcessOutput;
use crate::base::text::{split_from, decimal, decimal_of, has_char, owned, parse_u32, parse_u32_of, split, split_of, words, words_of, contains_char};
use crate::{GitXError, Result, is_git_error, is_parse_error};

verus! {

/// How a branch stands against its upstream.
pub enum SyncStatus {
    UpToDate,
    Behind(u32),
    Ahead(u32),
    /// Behind, ahead.
    Diverged(u32, u32),
    Unknown,
}

/// The outcome of syncing one branch.
pub enum SyncResult {
    UpToDate,
    Synced,
    WouldSync,
    Ahead,
    Error(String),
}

/// The error for an upstream that is not `remote/branch`, if any.
pub open spec fn upstream_format_error(u: Seq<char>) -> Option<Seq<char>> {
    if u.len() == 0 {
        Some("Upstream cannot be empty"@)
    } else if !has_char(u, '/') {
        Some("Upstream must be in format 'remote/branch' (e.g., origin/main)"@)
    } else if split(u, '/').len() != 2 || split(u, '/')[0].len() == 0 || split(u, '/')[1].len() == 0 {
        Some("Invalid upstream format. Use 'remote/branch' format"@)
    } else {
        None
    }
}

/// Splitting text without the separator gives one piece.
proof fn lemma_split_without_sep(s: Seq<char>, cur: Seq<char>, sep: char)
    requires
        !has_char(s, sep),
    ensures
        split_from(s, cur, sep) == seq![cur + s],
    decreases s.len(),
{
    if s.len() > 0 {
        assert(s[0] != sep);
        assert(!has_char(s.drop_first(), sep)) by {
            if has_char(s.drop_first(), sep) {
                let i = choose|i: int| 0 <= i < s.drop_first().len() && s.drop_first()[i] == sep;
                assert(s[i + 1] == sep);
            }
        }
        lemma_split_without_sep(s.drop_first(), cur.push(s[0]), sep);
        assert(cur.push(s[0]) + s.drop_first() =~= cur + s);
    } else {
        assert(cur + s =~= cur);
    }
}

/// An upstream is accepted exactly when it splits at `/` into two
/// non-empty parts, a remote and a branch.
pub proof fn law_upstream_format(u: Seq<char>)
    ensures
        upstream_format_error(u) is None <==> (split(u, '/').len() == 2 && split(u, '/')[0].len() > 0 && split(
            u,
            '/',
        )[1].len() > 0),
{
    if !has_char(u, '/') {
        lemma_split_without_sep(u, Seq::empty(), '/');
    }
}

/// Checks that an upstream reads `remote/branch` (see `upstream_format_error`).
pub fn validate_upstream_format(upstream: &str) -> (r: Result<()>)
    ensures
        match upstream_format_error(upstream@) {
            Some(m) => is_git_error(r, m),
            None => r is Ok,
        },
{
    if upstream.is_empty() {
        return Err(GitXError::GitCommand(String::from_str("Upstream cannot be empty")));
    }
    if !contains_char(upstream, '/') {
        return Err(
            GitXError::GitCommand(String::from_str("Upstream must be in format 'remote/branch' (e.g., origin/main)")),
        );
    }
    let parts = split_of(upstream, '/');
    if parts.len() != 2 {
        return Err(GitXError::GitCommand(String::from_str("Invalid upstream format. Use 'remote/branch' format")));
    }
    assert(parts.deep_view()[0] == parts@[0]@);
    assert(parts.deep_view()[1] == parts@[1]@);
    if parts[0].as_str().is_empty() || parts[1].as_str().is_empty() {
        return Err(GitXError::GitCommand(String::from_str("Invalid upstream format. Use 'remote/branch' format")));
    }
    Ok(())
}

/// The status for these counts; `Unknown` is never produced from counts.
pub open spec fn upstream_status_of(behind: u32, ahead: u32) -> SyncStatus {
    if behind == 0 && ahead == 0 {
        SyncStatus::UpToDate
    } else if ahead == 0 {
        SyncStatus::Behind(behind)
    } else if behind == 0 {
        SyncStatus::Ahead(ahead)
    } else {
        SyncStatus::Diverged(behind, ahead)
    }
}

/// How the counts decide a branch's status: up to date only when both are
/// zero; behind by the first (behind) count when the second is zero; ahead
/// by the second (ahead) count when the first is zero; diverged with both
/// otherwise.
pub proof fn law_upstream_status_of_counts(behind: u32, ahead: u32)
    ensures
        upstream_status_of(behind, ahead) is UpToDate <==> (behind == 0 && ahead == 0),
        behind > 0 && ahead == 0 ==> upstream_status_of(behind, ahead) == SyncStatus::Behind(behind),
        behind == 0 && ahead > 0 ==> upstream_status_of(behind, ahead) == SyncStatus::Ahead(ahead),
        behind > 0 && ahead > 0 ==> upstream_status_of(behind, ahead) == SyncStatus::Diverged(behind, ahead),
        !(upstream_status_of(behind, ahead) is Unknown),
{
}

/// How a branch stands against its upstream, from `rev-list --left-right
/// --count <upstream>...<branch>`.
pub fn get_branch_sync_status(output: ProcessOutput) -> (r: Result<SyncStatus>)
    ensures
        !output.success ==> is_git_error(r, "Failed to compare with upstream"@),
        output.success ==> ({
            let w = words(output.stdout@);
            if w.len() >= 2 && parse_u32(w[0]) is Some && parse_u32(w[1]) is Some {
                r matches Ok(s) && s == upstream_status_of(
                    (parse_u32(w[0])->0) as u32,
                    (parse_u32(w[1])->0) as u32,
                )
            } else {
                is_parse_error(r, "Invalid sync count format"@)
            }
        }),
{
    if !output.success {
        return Err(GitXError::GitCommand(String::from_str("Failed to compare with upstream")));
    }
    match crate::sync::parse_sync_counts(output.stdout.as_str()) {
        Err(_) => Err(GitXError::Parse(String::from_str("Invalid sync count format"))),
        Ok((behind, ahead)) => {
            if behind == 0 && ahead == 0 {
                Ok(SyncStatus::UpToDate)
            } else if ahead == 0 {
                Ok(SyncStatus::Behind(behind))
            } else if behind == 0 {
                Ok(SyncStatus::Ahead(ahead))
            } else {
                Ok(SyncStatus::Diverged(behind, ahead))
            }
        },
    }
}

/// The branches that have an upstream, with it: `upstreams[i]` is the
/// answer for `branches[i]`.
pub fn get_branches_with_upstreams(branches: Result<Vec<String>>, upstreams: &Vec<Result<String>>) -> (r: Result<Vec<(String, String)>>)
    requires
        branches matches Ok(b) ==> b.len() == upstreams.len(),
    ensures
        match branches {
            Err(e) => r == Err::<Vec<(String, String)>, GitXError>(e),
            Ok(b) => r matches Ok(v) && v@.map_values(|p: (String, String)| (p.0@, p.1@)) == with_upstreams(
                b.deep_view(),
                upstreams@,
            ),
        },
{
    let b = match branches {
        Err(e) => return Err(e),
        Ok(b) => b,
    };
    let mut v: Vec<(String, String)> = Vec::new();
    for i in 0..b.len()
        invariant
            b.len() == upstreams.len(),
            v@.map_values(|p: (String, String)| (p.0@, p.1@)) == with_upstreams(
                b.deep_view().take(i as int),
                upstreams@.take(i as int),
            ),
    {
        proof {
            assert(b.deep_view().take(i + 1).drop_last() =~= b.deep_view().take(i as int));
            assert(upstreams@.take(i + 1).drop_last() =~= upstreams@.take(i as int));
            assert(b.deep_view()[i as int] == b@[i as int]@);
        }
        match &upstreams[i] {
            Ok(u) => {
                let ghost before = v@.map_values(|p: (String, String)| (p.0@, p.1@));
                v.push((owned(b[i].as_str()), owned(u.as_str())));
                assert(v@.map_values(|p: (String, String)| (p.0@, p.1@)) =~= before.push((b@[i as int]@, u@)));
            },
            Err(_) => {},
        }
    }
    assert(b.deep_view().take(b.len() as int) =~= b.deep_view());
    assert(upstreams@.take(b.len() as int) =~= upstreams@);
    Ok(v)
}

/// The branches of `bs` whose upstream was read, with it.
pub open spec fn with_upstreams(bs: Seq<Seq<char>>, us: Seq<Result<String>>) -> Seq<(Seq<char>, Seq<char>)>
    decreases bs.len(),
{
    if bs.len() == 0 || us.len() != bs.len() {
        Seq::empty()
    } else {
        let rest = with_upstreams(bs.drop_last(), us.drop_last());
        match us.last() {
            Ok(u) => rest.push((bs.last(), u@)),
            Err(_) => rest,
        }
    }
}

/// What syncing one branch gives: from its status, whether it is a dry run,
/// and the outcome of the sync when one was run.
pub fn sync_result(status: Result<SyncStatus>, dry_run: bool, synced: core::result::Result<(), &'static str>) -> (r: SyncResult)
    ensures
        match status {
            Err(_) => r matches SyncResult::Error(m) && m@ == "Failed to get sync status"@,
            Ok(SyncStatus::UpToDate) => r is UpToDate,
            Ok(SyncStatus::Ahead(_)) => r is Ahead,
            Ok(SyncStatus::Unknown) => r matches SyncResult::Error(m) && m@ == "Unknown sync status"@,
            Ok(_) => if dry_run {
                r is WouldSync
            } else {
                match synced {
                    Ok(()) => r is Synced,
                    Err(m) => r matches SyncResult::Error(t) && t@ == m@,
                }
            },
        },
{
    match status {
        Err(_) => SyncResult::Error(String::from_str("Failed to get sync status")),
        Ok(SyncStatus::UpToDate) => SyncResult::UpToDate,
        Ok(SyncStatus::Ahead(_)) => SyncResult::Ahead,
        Ok(SyncStatus::Unknown) => SyncResult::Error(String::from_str("Unknown sync status")),
        Ok(_) => {
            if dry_run {
                SyncResult::WouldSync
            } else {
                match synced {
                    Ok(()) => SyncResult::Synced,
                    Err(m) => SyncResult::Error(owned(m)),
                }
            }
        },
    }
}

/// The message after setting an upstream.
pub fn format_upstream_set_message(branch: &str, upstream: &str) -> (r: String)
    ensures
        r@ == "✅ Upstream for '"@ + branch@ + "' set to '"@ + upstream@ + "'"@,
{
    let mut r = String::from_str("✅ Upstream for '");
    r.append(branch);
    r.append("' set to '");
    r.append(upstream);
    r.append("'");
    r
}

/// The marker of the current branch in listings.
pub open spec fn current_marker(is_current: bool) -> Seq<char> {
    if is_current { "* "@ } else { "  "@ }
}

/// The text of a status.
pub open spec fn status_text(s: SyncStatus) -> Seq<char> {
    match s {
        SyncStatus::UpToDate => "✅ up-to-date"@,
        SyncStatus::Behind(n) => "⬇️ "@ + decimal(n as nat) + " behind"@,
        SyncStatus::Ahead(n) => "⬆️ "@ + decimal(n as nat) + " ahead"@,
        SyncStatus::Diverged(b, a) => "🔀 "@ + decimal(b as nat) + " behind, "@ + decimal(a as nat) + " ahead"@,
        SyncStatus::Unknown => "❓ unknown"@,
    }
}

/// A branch with its upstream and status.
pub fn format_branch_with_upstream(branch: &str, upstream: &str, sync_status: &SyncStatus, is_current: bool) -> (r: String)
    ensures
        r@ == current_marker(is_current) + branch@ + " -> "@ + upstream@ + " ("@ + status_text(*sync_status) + ")"@,
{
    let mut r = if is_current { String::from_str("* ") } else { String::from_str("  ") };
    r.append(branch);
    r.append(" -> ");
    r.append(upstream);
    r.append(" (");
    match sync_status {
        SyncStatus::UpToDate => r.append("✅ up-to-date"),
        SyncStatus::Behind(n) => {
            r.append("⬇️ ");
            let d = decimal_of(*n as u64);
            r.append(d.as_str());
            r.append(" behind");
        },
        SyncStatus::Ahead(n) => {
            r.append("⬆️ ");
            let d = decimal_of(*n as u64);
            r.append(d.as_str());
            r.append(" ahead");
        },
        SyncStatus::Diverged(b, a) => {
            r.append("🔀 ");
            let d = decimal_of(*b as u64);
            r.append(d.as_str());
            r.append(" behind, ");
            let e = decimal_of(*a as u64);
            r.append(e.as_str());
            r.append(" ahead");
        },
        SyncStatus::Unknown => r.append("❓ unknown"),
    }
    r.append(")");
    r
}

/// A branch without upstream.
pub fn format_branch_without_upstream(branch: &str, is_current: bool) -> (r: String)
    ensures
        r@ == current_marker(is_current) + branch@ + " -> (no upstream)"@,
{
    let mut r = if is_current { String::from_str("* ") } else { String::from_str("  ") };
    r.append(branch);
    r.append(" -> (no upstream)");
    r
}

/// The message when no branch has an upstream.
pub fn format_no_upstream_branches_message() -> (r: &'static str)
    ensures
        r@ == "ℹ️ No branches with upstream configuration found"@,
{
    "ℹ️ No branches with upstream configuration found"
}

/// The start of syncing all branches.
pub fn format_sync_all_start_message(count: usize, dry_run: bool, merge: bool) -> (r: String)
    ensures
        r@ == (if dry_run { "🧪 (dry run) Would sync "@ } else { "🔄 Syncing "@ }) + decimal(count as nat)
            + " branch(es) with upstream using "@ + (if merge { "merge"@ } else { "rebase"@ }) + ":"@,
{
    let mut r = if dry_run { String::from_str("🧪 (dry run) Would sync ") } else { String::from_str("🔄 Syncing ") };
    let d = decimal_of(count as u64);
    r.append(d.as_str());
    r.append(" branch(es) with upstream using ");
    r.append(if merge { "merge" } else { "rebase" });
    r.append(":");
    r
}

/// The header of the sync results.
pub fn format_sync_results_header() -> (r: &'static str)
    ensures
        r@ == "\n📊 Sync results:"@,
{
    "\n📊 Sync results:"
}

/// The line of one branch's sync result.
pub fn format_sync_result_line(branch: &str, result: &SyncResult) -> (r: String)
    ensures
        r@ == match *result {
            SyncResult::UpToDate => "  ✅ "@ + branch@ + ": already up-to-date"@,
            SyncResult::Synced => "  ✅ "@ + branch@ + ": synced successfully"@,
            SyncResult::WouldSync => "  🔄 "@ + branch@ + ": would be synced"@,
            SyncResult::Ahead => "  ⬆️ "@ + branch@ + ": ahead of upstream (skipped)"@,
            SyncResult::Error(m) => "  ❌ "@ + branch@ + ": "@ + m@,
        },
{
    match result {
        SyncResult::UpToDate => {
            let mut r = String::from_str("  ✅ ");
            r.append(branch);
            r.append(": already up-to-date");
            r
        },
        SyncResult::Synced => {
            let mut r = String::from_str("  ✅ ");
            r.append(branch);
            r.append(": synced successfully");
            r
        },
        SyncResult::WouldSync => {
            let mut r = String::from_str("  🔄 ");
            r.append(branch);
            r.append(": would be synced");
            r
        },
        SyncResult::Ahead => {
            let mut r = String::from_str("  ⬆️ ");
            r.append(branch);
            r.append(": ahead of upstream (skipped)");
            r
        },
        SyncResult::Error(m) => {
            let mut r = String::from_str("  ❌ ");
            r.append(branch);
            r.append(": ");
            r.append(m.as_str());
            r
        },
    }
}

/// The summary of syncing all branches.
pub fn format_sync_summary(synced_count: usize, dry_run: bool) -> (r: String)
    ensures
        dry_run ==> r@ == "\n💡 Would sync "@ + decimal(synced_count as nat)
            + " branch(es). Run without --dry-run to apply changes."@,
        !dry_run ==> r@ == "\n✅ Synced "@ + decimal(synced_count as nat) + " branch(es) successfully."@,
{
    let d = decimal_of(synced_count as u64);
    if dry_run {
        let mut r = String::from_str("\n💡 Would sync ");
        r.append(d.as_str());
        r.append(" branch(es). Run without --dry-run to apply changes.");
        r
    } else {
        let mut r = String::from_str("\n✅ Synced ");
        r.append(d.as_str());
        r.append(" branch(es) successfully.");
        r
    }
}

/// The number of results that synced or would sync.
pub open spec fn synced_count(v: Seq<SyncResult>) -> nat
    decreases v.len(),
{
    if v.len() == 0 {
        0
    } else {
        synced_count(v.drop_last()) + if v.last() is Synced || v.last() is WouldSync {
            1nat
        } else {
            0nat
        }
    }
}

/// The number of results that synced or would sync.
pub fn count_synced(results: &Vec<SyncResult>) -> (r: usize)
    ensures
        r == synced_count(results@),
{
    let mut n: usize = 0;
    for i in 0..results.len()
        invariant
            n == synced_count(results@.take(i as int)),
            n <= i,
    {
        assert(results@.take(i + 1).drop_last() =~= results@.take(i as int));
        match &results[i] {
            SyncResult::Synced | SyncResult::WouldSync => n = n + 1,
            _ => {},
        }
    }
    assert(results@.take(results.len() as int) =~= results@);
    n
}

/// Command implementation for git upstream
pub struct UpstreamCommand;

impl UpstreamCommand {
    pub fn name(&self) -> (r: &'static str)
        ensures
            r@ == "upstream"@,
    {
        "upstream"
    }

    pub fn description(&self) -> (r: &'static str)
        ensures
            r@ == "Manage upstream tracking for branches"@,
    {
        "Manage upstream tracking for branches"
    }
}

} // verus!
