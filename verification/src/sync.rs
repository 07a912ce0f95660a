//! Syncing the current branch with its upstream: reading how far apart
//! they are and what to report.
use vstd::prelude::*;
use crate::base::git::{strings, push_str_arg};
use crate::base::text::{decimal, decimal_of, owned, parse_u32, parse_u32_of, split, split_of, words, words_of};
use crate::{GitXError, Result};

verus! {

/// How a branch stands against its upstream.
#[derive(Debug, PartialEq, Eq, Structural)]
pub enum SyncStatus {
    UpToDate,
    Behind(u32),
    Ahead(u32),
    /// Behind, ahead.
    Diverged(u32, u32),
}

/// The status for these counts.
pub open spec fn status_of(behind: u32, ahead: u32) -> SyncStatus {
    if behind == 0 && ahead == 0 {
        SyncStatus::UpToDate
    } else if ahead == 0 {
        SyncStatus::Behind(behind)
    } else if behind == 0 {
        SyncStatus::Ahead(ahead)
    } else {
        SyncStatus::Diverged(behind, ahead)
    }
}

/// How the counts decide the status: up to date only when both are zero;
/// behind by the behind count when nothing is ahead; ahead by the ahead
/// count when nothing is behind; diverged with both counts otherwise.
pub proof fn law_status_of_counts(behind: u32, ahead: u32)
    ensures
        status_of(behind, ahead) is UpToDate <==> (behind == 0 && ahead == 0),
        behind > 0 && ahead == 0 ==> status_of(behind, ahead) == SyncStatus::Behind(behind),
        behind == 0 && ahead > 0 ==> status_of(behind, ahead) == SyncStatus::Ahead(ahead),
        behind > 0 && ahead > 0 ==> status_of(behind, ahead) == SyncStatus::Diverged(behind, ahead),
{
}

/// The status for these counts (see `status_of`).
pub fn sync_status(behind: u32, ahead: u32) -> (r: SyncStatus)
    ensures
        r == status_of(behind, ahead),
{
    if behind == 0 && ahead == 0 {
        SyncStatus::UpToDate
    } else if ahead == 0 {
        SyncStatus::Behind(behind)
    } else if behind == 0 {
        SyncStatus::Ahead(ahead)
    } else {
        SyncStatus::Diverged(behind, ahead)
    }
}

/// (behind, ahead) from `rev-list --left-right --count`: the first two
/// words, both `u32` numerals.
pub open spec fn sync_counts(output: Seq<char>) -> Option<(nat, nat)> {
    let w = words(output);
    if w.len() >= 2 && parse_u32(w[0]) is Some && parse_u32(w[1]) is Some {
        Some((parse_u32(w[0])->0, parse_u32(w[1])->0))
    } else {
        None
    }
}

/// The counts (see `sync_counts`), else "Invalid sync count format".
pub fn parse_sync_counts(output: &str) -> (r: core::result::Result<(u32, u32), &'static str>)
    ensures
        match sync_counts(output@) {
            Some(c) => r matches Ok(x) && x.0 as nat == c.0 && x.1 as nat == c.1,
            None => r matches Err(m) && m@ == "Invalid sync count format"@,
        },
{
    let w = words_of(output);
    if w.len() < 1 {
        return Err("Invalid sync count format");
    }
    assert(w.deep_view()[0] == w@[0]@);
    let behind = match parse_u32_of(w[0].as_str()) {
        Some(b) => b,
        None => return Err("Invalid sync count format"),
    };
    if w.len() < 2 {
        return Err("Invalid sync count format");
    }
    assert(w.deep_view()[1] == w@[1]@);
    let ahead = match parse_u32_of(w[1].as_str()) {
        Some(a) => a,
        None => return Err("Invalid sync count format"),
    };
    Ok((behind, ahead))
}

/// The remote of an upstream `remote/branch`: the text before the first `/`.
pub fn upstream_remote(upstream: &str) -> (r: String)
    ensures
        r@ == split(upstream@, '/')[0],
{
    let parts = split_of(upstream, '/');
    proof {
        crate::base::text::lemma_split_nonempty(upstream@, '/');
    }
    assert(parts.deep_view()[0] == parts@[0]@);
    owned(parts[0].as_str())
}

/// The arguments that take in the upstream: merge or rebase.
pub fn sync_args(upstream: &str, merge: bool) -> (r: Vec<String>)
    ensures
        r.deep_view() == seq![if merge { "merge"@ } else { "rebase"@ }, upstream@],
{
    let mut r = if merge { strings(&["merge"]) } else { strings(&["rebase"]) };
    push_str_arg(&mut r, upstream);
    assert(r.deep_view() =~= seq![if merge { "merge"@ } else { "rebase"@ }, upstream@]);
    r
}

/// The message after a successful sync.
pub fn format_sync_success_message(merge: bool) -> (r: String)
    ensures
        merge ==> r@ == "✅ Successfully merged upstream changes"@,
        !merge ==> r@ == "✅ Successfully rebased onto upstream"@,
{
    if merge {
        String::from_str("✅ Successfully merged upstream changes")
    } else {
        String::from_str("✅ Successfully rebased onto upstream")
    }
}

/// What syncing does once the status is known: the lines it prints, and
/// the merge or rebase it runs, if any.
pub struct SyncStep {
    pub lines: Vec<String>,
    pub run: Option<Vec<String>>,
}

/// The lines printed for a status (before any merge or rebase).
pub open spec fn step_lines(status: SyncStatus, merge: bool) -> Seq<Seq<char>> {
    match status {
        SyncStatus::UpToDate => seq!["✅ Branch is up to date with upstream"@],
        SyncStatus::Behind(b) => seq![decimal(b as nat)],
        SyncStatus::Ahead(a) => seq![decimal(a as nat)],
        SyncStatus::Diverged(b, a) => {
            let first = "🔀 Branch has diverged: "@ + decimal(b as nat) + " behind, "@ + decimal(a as nat) + " ahead"@;
            if merge {
                seq![first]
            } else {
                seq![first, "💡 Use --merge flag to merge changes, or handle manually"@]
            }
        },
    }
}

/// Whether a status leads to taking in the upstream: when behind, or when
/// diverged and merging was asked for.
pub open spec fn step_runs(status: SyncStatus, merge: bool) -> bool {
    status is Behind || (status is Diverged && merge)
}

/// The line announcing the sync of `current` with `upstream`.
pub fn sync_header(current: &str, upstream: &str) -> (r: String)
    ensures
        r@ == "🔄 Syncing branch '"@ + current@ + "' with '"@ + upstream@ + "'..."@,
{
    let mut r = owned("🔄 Syncing branch '");
    r.append(current);
    r.append("' with '");
    r.append(upstream);
    r.append("'...");
    r
}

/// What syncing does for `status`: up to date, it says so; behind, it
/// prints the count and merges or rebases; ahead, it prints the count;
/// diverged, it says so and merges when asked to, else it hints at
/// `--merge`.
pub fn sync_step(status: &SyncStatus, upstream: &str, merge: bool) -> (r: SyncStep)
    ensures
        r.lines.deep_view() == step_lines(*status, merge),
        step_runs(*status, merge) ==> (r.run matches Some(a)
            && a.deep_view() == seq![if merge { "merge"@ } else { "rebase"@ }, upstream@]),
        !step_runs(*status, merge) ==> r.run is None,
{
    let mut lines: Vec<String> = Vec::new();
    match status {
        SyncStatus::UpToDate => {
            lines.push(owned("✅ Branch is up to date with upstream"));
            assert(lines.deep_view() =~= step_lines(*status, merge));
            SyncStep { lines, run: None }
        },
        SyncStatus::Behind(b) => {
            lines.push(decimal_of(*b as u64));
            assert(lines.deep_view() =~= step_lines(*status, merge));
            SyncStep { lines, run: Some(sync_args(upstream, merge)) }
        },
        SyncStatus::Ahead(a) => {
            lines.push(decimal_of(*a as u64));
            assert(lines.deep_view() =~= step_lines(*status, merge));
            SyncStep { lines, run: None }
        },
        SyncStatus::Diverged(b, a) => {
            let mut first = owned("🔀 Branch has diverged: ");
            first.append(decimal_of(*b as u64).as_str());
            first.append(" behind, ");
            first.append(decimal_of(*a as u64).as_str());
            first.append(" ahead");
            lines.push(first);
            if merge {
                assert(lines.deep_view() =~= step_lines(*status, merge));
                SyncStep { lines, run: Some(sync_args(upstream, merge)) }
            } else {
                lines.push(owned("💡 Use --merge flag to merge changes, or handle manually"));
                assert(lines.deep_view() =~= step_lines(*status, merge));
                SyncStep { lines, run: None }
            }
        },
    }
}

/// The line after the merge or rebase, from how it went: the success
/// message, or "Sync failed: " and the error.
pub fn sync_finished(merge: bool, ran: Result<()>) -> (r: Result<String>)
    ensures
        ran is Ok ==> (r matches Ok(t) && t@ == (if merge {
            "✅ Successfully merged upstream changes"@
        } else {
            "✅ Successfully rebased onto upstream"@
        })),
        ran matches Err(e) ==> (r matches Err(GitXError::GitCommand(m)) && exists|t: Seq<char>|
            crate::shows(e, t) && m@ == "Sync failed: "@ + t),
{
    match ran {
        Ok(()) => Ok(format_sync_success_message(merge)),
        Err(e) => {
            let t = e.to_string();
            let mut m = owned("Sync failed: ");
            m.append(t.as_str());
            Err(GitXError::GitCommand(m))
        },
    }
}

/// Command implementation for git sync
pub struct SyncCommand;

impl SyncCommand {
    pub fn name(&self) -> (r: &'static str)
        ensures
            r@ == "sync"@,
    {
        "sync"
    }

    pub fn description(&self) -> (r: &'static str)
        ensures
            r@ == "Sync current branch with its upstream"@,
    {
        "Sync current branch with its upstream"
    }
}

} // verus!
