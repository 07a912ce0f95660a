//! Stash commands: branches from stashes, cleaning old stashes, applying the
//! stashes of a branch, interactive stash management, exporting patches.
use vstd::prelude::*;
use crate::base::git::{strings, push_str_arg};
use crate::base::text::{
    chars_of, contains, decimal, decimal_of, find, find_in, has_char, has_prefix, has_suffix, join, join_of,
    lines, lines_of, owned, splitn, splitn_of, starts_with, str_contains, str_eq, string_of, occurs_at,
    lemma_first_occurrence,
};
use crate::base::traits::{Command, Destructive, GitCommand};
use crate::commands::plan::{Plan, ok_report, ok_run, runs, steps_view};
use crate::{GitXError, Result, is_git_error};

verus! {

/// Stash information structure
pub struct StashInfo {
    pub name: String,
    pub message: String,
    pub branch: String,
    pub timestamp: String,
}

/// A stash as (name, message, branch, timestamp).
pub type StashView = (Seq<char>, Seq<char>, Seq<char>, Seq<char>);

impl View for StashInfo {
    type V = StashView;

    open spec fn view(&self) -> StashView {
        (self.name@, self.message@, self.branch@, self.timestamp@)
    }
}

/// The stashes as plain values.
pub open spec fn stashes_view(v: Seq<StashInfo>) -> Seq<StashView> {
    v.map_values(|s: StashInfo| s@)
}

// ---------------------------------------------------------------------------
// Parsing stash listings
// ---------------------------------------------------------------------------

/// The text between `marker` and the next `:` in `m`, after the first
/// occurrence of `marker`.
pub open spec fn branch_after(m: Seq<char>, marker: Seq<char>) -> Option<Seq<char>> {
    match find(m, marker) {
        Some(s) => {
            let rest = m.skip(s + marker.len());
            match find(rest, ":"@) {
                Some(e) => Some(rest.take(e)),
                None => None,
            }
        },
        None => None,
    }
}

/// The branch a stash message names ("On <branch>:" or "WIP on
/// <branch>:"), "unknown" without one.
pub open spec fn stash_branch_of(m: Seq<char>) -> Seq<char> {
    match branch_after(m, "On "@) {
        Some(b) => b,
        None => match branch_after(m, "WIP on "@) {
            Some(b) => b,
            None => "unknown"@,
        },
    }
}

/// The first `:` of `b + ": " + rest` is right after `b` when `b` holds none.
proof fn lemma_colon_after(b: Seq<char>, rest: Seq<char>)
    requires
        !has_char(b, ':'),
    ensures
        find(b + ": "@ + rest, ":"@) == Some(b.len() as int),
{
    let t = b + ": "@ + rest;
    reveal_strlit(": ");
    reveal_strlit(":");
    assert(t.subrange(b.len() as int, (b.len() + 1) as int) =~= ":"@);
    assert forall|j: int| 0 <= j < b.len() implies !occurs_at(t, ":"@, j) by {
        assert(t.subrange(j, j + 1)[0] == b[j]);
        assert(b[j] != ':');
    }
    lemma_first_occurrence(t, ":"@, b.len() as int);
}

/// `find` gives nothing for a pattern that does not occur.
proof fn lemma_find_none(s: Seq<char>, p: Seq<char>)
    requires
        !contains(s, p),
    ensures
        find(s, p) is None,
{
    reveal(find);
}

/// The branch of "WIP on <b>: <rest>".
proof fn lemma_wip_branch(b: Seq<char>, rest: Seq<char>)
    requires
        !has_char(b, ':'),
        !contains("WIP on "@ + b + ": "@ + rest, "On "@),
    ensures
        stash_branch_of("WIP on "@ + b + ": "@ + rest) == b,
{
    reveal_strlit("WIP on ");
    let w = "WIP on "@ + b + ": "@ + rest;
    lemma_find_none(w, "On "@);
    assert(w.subrange(0, 7) =~= "WIP on "@);
    lemma_first_occurrence(w, "WIP on "@, 0);
    assert(w.skip(7) =~= b + ": "@ + rest);
    lemma_colon_after(b, rest);
    assert((b + ": "@ + rest).take(b.len() as int) =~= b);
}

/// The branch of "On <b>: <rest>".
proof fn lemma_on_branch(b: Seq<char>, rest: Seq<char>)
    requires
        !has_char(b, ':'),
    ensures
        stash_branch_of("On "@ + b + ": "@ + rest) == b,
{
    reveal_strlit("On ");
    let o = "On "@ + b + ": "@ + rest;
    assert(o.subrange(0, 3) =~= "On "@);
    lemma_first_occurrence(o, "On "@, 0);
    assert(o.skip(3) =~= b + ": "@ + rest);
    lemma_colon_after(b, rest);
    assert((b + ": "@ + rest).take(b.len() as int) =~= b);
}

/// The default message of `git stash`, "WIP on <branch>: <commit>
/// <subject>", names its branch (when the branch holds no `:` and the
/// message no "On "); so does the message of `git stash push -m`, "On
/// <branch>: <message>".
pub proof fn law_stash_message_branch(b: Seq<char>, rest: Seq<char>)
    requires
        !has_char(b, ':'),
    ensures
        !contains("WIP on "@ + b + ": "@ + rest, "On "@) ==> stash_branch_of("WIP on "@ + b + ": "@ + rest) == b,
        stash_branch_of("On "@ + b + ": "@ + rest) == b,
{
    if !contains("WIP on "@ + b + ": "@ + rest, "On "@) {
        lemma_wip_branch(b, rest);
    }
    lemma_on_branch(b, rest);
}

/// The stash a line `name|message|date` stands for.
pub open spec fn stash_with_date(line: Seq<char>) -> Option<StashView> {
    let p = splitn(line, 3, '|');
    if p.len() == 3 {
        Some((p[0], p[1], stash_branch_of(p[1]), p[2]))
    } else {
        None
    }
}

/// The stash a line `name|message` stands for.
pub open spec fn stash_with_branch(line: Seq<char>) -> Option<StashView> {
    let p = splitn(line, 2, '|');
    if p.len() == 2 {
        Some((p[0], p[1], stash_branch_of(p[1]), Seq::empty()))
    } else {
        None
    }
}

/// The stashes of a listing, lines read with `with_date` or without.
pub open spec fn stash_list(ls: Seq<Seq<char>>, with_date: bool) -> Seq<StashView>
    decreases ls.len(),
{
    if ls.len() == 0 {
        Seq::empty()
    } else {
        let rest = stash_list(ls.drop_last(), with_date);
        match if with_date { stash_with_date(ls.last()) } else { stash_with_branch(ls.last()) } {
            Some(s) => rest.push(s),
            None => rest,
        }
    }
}

/// The branch between `marker` and the next `:`, if both are found.
fn branch_after_of(mv: &Vec<char>, marker: &str) -> (r: Option<String>)
    ensures
        match branch_after(mv@, marker@) {
            Some(b) => r matches Some(s) && s@ == b,
            None => r is None,
        },
{
    let pv = chars_of(marker);
    let found = find_in(mv, &pv);
    assert(pv@ == marker@);
    let s = match found {
        None => {
            assert(find(mv@, marker@) is None);
            return None;
        },
        Some(s) => s,
    };
    proof {
        crate::base::text::lemma_find_bound(mv@, pv@);
        assert(find(mv@, pv@) == Some(s as int));
        assert(s + pv@.len() <= mv@.len());
    }
    assert(s as int + pv.len() as int <= mv.len() as int);
    let start = s + pv.len();
    let rv = tail_chars(mv, start);
    let colon = chars_of(":");
    let e = find_in(&rv, &colon);
    proof {
        assert(find(mv@, marker@) == Some(s as int));
        assert(rv@ == mv@.skip(s + marker@.len()));
        assert(colon@ == ":"@);
    }
    match e {
        Some(e) => {
            proof {
                crate::base::text::lemma_find_bound(rv@, colon@);
            }
            Some(string_of(&rv, 0, e))
        },
        None => None,
    }
}

/// The characters of `v` from `start` on.
fn tail_chars(v: &Vec<char>, start: usize) -> (r: Vec<char>)
    requires
        start <= v.len(),
    ensures
        r@ == v@.skip(start as int),
{
    let rest = string_of(v, start, v.len());
    let r = chars_of(rest.as_str());
    assert(r@ =~= v@.skip(start as int));
    r
}

/// The branch a stash message names (see `stash_branch_of`).
pub fn extract_branch_from_message(message: &str) -> (r: String)
    ensures
        r@ == stash_branch_of(message@),
{
    let mv = chars_of(message);
    match branch_after_of(&mv, "On ") {
        Some(b) => b,
        None => match branch_after_of(&mv, "WIP on ") {
            Some(b) => b,
            None => owned("unknown"),
        },
    }
}

/// The stash of a line `name|message|date`.
pub fn parse_stash_line_with_date(line: &str) -> (r: Option<StashInfo>)
    ensures
        match stash_with_date(line@) {
            Some(s) => r matches Some(x) && x@ == s,
            None => r is None,
        },
{
    let p = splitn_of(line, 3, '|');
    if p.len() != 3 {
        return None;
    }
    proof {
        assert(p.deep_view()[0] == p@[0]@);
        assert(p.deep_view()[1] == p@[1]@);
        assert(p.deep_view()[2] == p@[2]@);
    }
    Some(
        StashInfo {
            name: owned(p[0].as_str()),
            message: owned(p[1].as_str()),
            branch: extract_branch_from_message(p[1].as_str()),
            timestamp: owned(p[2].as_str()),
        },
    )
}

/// The stash of a line `name|message`.
pub fn parse_stash_line_with_branch(line: &str) -> (r: Option<StashInfo>)
    ensures
        match stash_with_branch(line@) {
            Some(s) => r matches Some(x) && x@ == s,
            None => r is None,
        },
{
    let p = splitn_of(line, 2, '|');
    if p.len() != 2 {
        return None;
    }
    proof {
        assert(p.deep_view()[0] == p@[0]@);
        assert(p.deep_view()[1] == p@[1]@);
    }
    let r = StashInfo {
        name: owned(p[0].as_str()),
        message: owned(p[1].as_str()),
        branch: extract_branch_from_message(p[1].as_str()),
        timestamp: String::new(),
    };
    assert(r.timestamp@ =~= Seq::<char>::empty());
    Some(r)
}

/// The stashes of a listing (see `stash_list`).
pub fn parse_stash_list(output: &str, with_date: bool) -> (r: Vec<StashInfo>)
    ensures
        stashes_view(r@) == stash_list(lines(output@), with_date),
{
    let ls = lines_of(output);
    let mut v: Vec<StashInfo> = Vec::new();
    for i in 0..ls.len()
        invariant
            stashes_view(v@) == stash_list(ls.deep_view().take(i as int), with_date),
    {
        proof {
            assert(ls.deep_view().take(i + 1).drop_last() =~= ls.deep_view().take(i as int));
            assert(ls.deep_view()[i as int] == ls@[i as int]@);
        }
        let parsed = if with_date {
            parse_stash_line_with_date(ls[i].as_str())
        } else {
            parse_stash_line_with_branch(ls[i].as_str())
        };
        match parsed {
            Some(s) => {
                let ghost before = stashes_view(v@);
                let ghost sv = s@;
                v.push(s);
                assert(stashes_view(v@) =~= before.push(sv));
            },
            None => {},
        }
    }
    assert(ls.deep_view().take(ls.len() as int) =~= ls.deep_view());
    v
}

/// A copy of a stash.
fn copy_stash(s: &StashInfo) -> (r: StashInfo)
    ensures
        r@ == s@,
{
    StashInfo {
        name: owned(s.name.as_str()),
        message: owned(s.message.as_str()),
        branch: owned(s.branch.as_str()),
        timestamp: owned(s.timestamp.as_str()),
    }
}

// ---------------------------------------------------------------------------
// Checks and messages
// ---------------------------------------------------------------------------

/// The error for a branch name that stash commands refuse, if any: empty,
/// starting with a dash, holding `..` or a space (checked in this order).
pub open spec fn stash_branch_name_error(name: Seq<char>) -> Option<Seq<char>> {
    if name.len() == 0 {
        Some("Branch name cannot be empty"@)
    } else if has_prefix(name, "-"@) {
        Some("Branch name cannot start with a dash"@)
    } else if contains(name, ".."@) {
        Some("Branch name cannot contain '..'"@)
    } else if contains(name, " "@) {
        Some("Branch name cannot contain spaces"@)
    } else {
        None
    }
}

/// `r` answers the check of `name` (see `stash_branch_name_error`).
pub open spec fn branch_name_checked(name: Seq<char>, r: Result<()>) -> bool {
    match stash_branch_name_error(name) {
        Some(m) => is_git_error(r, m),
        None => r is Ok,
    }
}

/// Validates a branch name for a branch made from a stash.
pub fn validate_branch_name(name: &str) -> (r: Result<()>)
    ensures
        branch_name_checked(name@, r),
{
    if name.is_empty() {
        return Err(GitXError::GitCommand(String::from_str("Branch name cannot be empty")));
    }
    if starts_with(name, "-") {
        return Err(GitXError::GitCommand(String::from_str("Branch name cannot start with a dash")));
    }
    if str_contains(name, "..") {
        return Err(GitXError::GitCommand(String::from_str("Branch name cannot contain '..'")));
    }
    if str_contains(name, " ") {
        return Err(GitXError::GitCommand(String::from_str("Branch name cannot contain spaces")));
    }
    Ok(())
}

/// The arguments that succeed exactly when `stash_ref` exists.
pub fn stash_exists_args(stash_ref: &str) -> (r: Vec<String>)
    ensures
        r.deep_view() == seq!["rev-parse"@, "--verify"@, stash_ref@],
{
    let mut r = strings(&["rev-parse", "--verify"]);
    push_str_arg(&mut r, stash_ref);
    assert(r.deep_view() =~= seq!["rev-parse"@, "--verify"@, stash_ref@]);
    r
}

/// Whether the stash exists, from git's answer to `stash_exists_args`.
pub fn validate_stash_exists(answer: Result<String>) -> (r: Result<()>)
    ensures
        answer is Ok ==> r is Ok,
        answer is Err ==> is_git_error(r, "Stash reference does not exist"@),
{
    match answer {
        Ok(_) => Ok(()),
        Err(_) => Err(GitXError::GitCommand(String::from_str("Stash reference does not exist"))),
    }
}

/// An age git-x accepts: ending in `d`, `w` or `m`.
pub open spec fn age_ok(age: Seq<char>) -> bool {
    has_suffix(age, "d"@) || has_suffix(age, "w"@) || has_suffix(age, "m"@)
}

/// The stashes older than `age`: for an accepted age format all of them
/// are kept (their dates are not compared); another format is an error.
pub fn filter_stashes_by_age(stashes: &Vec<StashInfo>, age: &str) -> (r: Result<Vec<StashInfo>>)
    ensures
        age_ok(age@) ==> (r matches Ok(v) && stashes_view(v@) == stashes_view(stashes@)),
        !age_ok(age@) ==> is_git_error(r, "Invalid age format. Use format like '7d', '2w', '1m'"@),
{
    if crate::base::text::ends_with(age, "d") || crate::base::text::ends_with(age, "w")
        || crate::base::text::ends_with(age, "m") {
        let mut v: Vec<StashInfo> = Vec::new();
        for i in 0..stashes.len()
            invariant
                stashes_view(v@) == stashes_view(stashes@).take(i as int),
        {
            let ghost before = stashes_view(v@);
            v.push(copy_stash(&stashes[i]));
            assert(stashes_view(v@) =~= before.push(stashes@[i as int]@));
            assert(stashes_view(stashes@).take(i + 1) =~= stashes_view(stashes@).take(i as int).push(
                stashes@[i as int]@,
            ));
        }
        assert(stashes_view(stashes@).take(stashes.len() as int) =~= stashes_view(stashes@));
        Ok(v)
    } else {
        Err(GitXError::GitCommand(String::from_str("Invalid age format. Use format like '7d', '2w', '1m'")))
    }
}

/// The header of applying the stashes of a branch.
pub fn format_applying_stashes_message(branch_name: &str, count: usize) -> (r: String)
    ensures
        r@ == "🔄 Applying "@ + decimal(count as nat) + " stash(es) from branch '"@ + branch_name@ + "':"@,
{
    let mut r = String::from_str("🔄 Applying ");
    let n = decimal_of(count as u64);
    r.append(n.as_str());
    r.append(" stash(es) from branch '");
    r.append(branch_name);
    r.append("':");
    r
}

// ---------------------------------------------------------------------------
// The stash command
// ---------------------------------------------------------------------------

/// Stash branch actions
pub enum StashBranchAction {
    Create { branch_name: String, stash_ref: Option<String> },
    Clean { older_than: Option<String>, dry_run: bool },
    ApplyByBranch { branch_name: String, list_only: bool },
    Interactive,
    Export { output_dir: String, stash_ref: Option<String> },
}

/// Command for managing stash-branch operations
pub struct StashCommand {
    action: StashBranchAction,
}

/// What cleaning old stashes does next.
pub enum StashCleanPlan {
    /// Nothing to clean, or a dry run: the report.
    Done(String),
    /// Ask for confirmation (`details`), then drop the stashes `names` one by
    /// one and report with `finish_clean` (the report starts with `listing`).
    Confirm { names: Vec<String>, details: String, listing: String },
}

/// The listing of stashes: `  name: message` lines.
pub open spec fn stash_listing(v: Seq<StashView>) -> Seq<char>
    decreases v.len(),
{
    if v.len() == 0 {
        Seq::empty()
    } else {
        stash_listing(v.drop_last()) + "  "@ + v.last().0 + ": "@ + v.last().1 + "\n"@
    }
}

/// The names of the stashes.
pub open spec fn stash_names(v: Seq<StashView>) -> Seq<Seq<char>> {
    v.map_values(|s: StashView| s.0)
}

/// What cleaning old stashes decides from the stash listing (with dates):
/// without stashes, or none left after the age filter, there is nothing to
/// do; otherwise the stashes are listed, and unless it is a dry run,
/// confirmation is asked to drop them.
pub open spec fn clean_stashes_plan(
    older_than: Option<Seq<char>>,
    dry_run: bool,
    stashes: Result<Vec<StashInfo>>,
    r: Result<StashCleanPlan>,
) -> bool {
    match stashes {
        Err(e) => r == Err::<StashCleanPlan, GitXError>(e),
        Ok(v) => {
            let all = stashes_view(v@);
            if all.len() == 0 {
                r matches Ok(StashCleanPlan::Done(t)) && t@ == "ℹ️ No stashes found"@
            } else if older_than matches Some(a) && !age_ok(a) {
                is_git_error(r, "Invalid age format. Use format like '7d', '2w', '1m'"@)
            } else {
                let listing = (if dry_run {
                    "🧪 (dry run) Would clean "@
                } else {
                    "🧹 Cleaning "@
                }) + decimal(all.len()) + " stash(es):\n"@ + stash_listing(all);
                if dry_run {
                    r matches Ok(StashCleanPlan::Done(t)) && t@ == listing
                } else {
                    r matches Ok(StashCleanPlan::Confirm { names, details, listing: l }) && names.deep_view()
                        == stash_names(all) && l@ == listing && details@ == "This will delete "@ + decimal(all.len())
                        + " stashes: "@ + join(stash_names(all), ", "@)
                }
            }
        },
    }
}

/// The lines reporting failed steps: `<prefix><name><infix><text>\n` for each
/// step `i` that failed, `texts[i]` showing its error.
pub open spec fn failure_lines(
    names: Seq<Seq<char>>,
    failed: Seq<bool>,
    texts: Seq<Seq<char>>,
    prefix: Seq<char>,
    infix: Seq<char>,
) -> Seq<char>
    decreases names.len(),
{
    if names.len() == 0 || failed.len() != names.len() || texts.len() != names.len() {
        Seq::empty()
    } else {
        failure_lines(names.drop_last(), failed.drop_last(), texts.drop_last(), prefix, infix) + if failed.last() {
            prefix + names.last() + infix + texts.last() + "\n"@
        } else {
            Seq::empty()
        }
    }
}

/// The lines reporting each step: `ok_prefix` or the failure form.
pub open spec fn outcome_lines(
    names: Seq<Seq<char>>,
    failed: Seq<bool>,
    texts: Seq<Seq<char>>,
    ok_prefix: Seq<char>,
    bad_prefix: Seq<char>,
) -> Seq<char>
    decreases names.len(),
{
    if names.len() == 0 || failed.len() != names.len() || texts.len() != names.len() {
        Seq::empty()
    } else {
        outcome_lines(names.drop_last(), failed.drop_last(), texts.drop_last(), ok_prefix, bad_prefix) + if failed.last() {
            bad_prefix + names.last() + ": "@ + texts.last() + "\n"@
        } else {
            ok_prefix + names.last() + "\n"@
        }
    }
}

/// Which outcomes failed.
pub open spec fn failures(outcomes: Seq<Result<()>>) -> Seq<bool> {
    outcomes.map_values(|o: Result<()>| o is Err)
}

/// `texts[i]` shows the error of each failed outcome.
pub open spec fn shows_failures(outcomes: Seq<Result<()>>, texts: Seq<Seq<char>>) -> bool {
    texts.len() == outcomes.len() && forall|i: int|
        0 <= i < outcomes.len() ==> (#[trigger] outcomes[i] matches Err(e) ==> crate::shows(e, texts[i]))
}

/// The number of outcomes that succeeded.
pub open spec fn successes(outcomes: Seq<Result<()>>) -> nat
    decreases outcomes.len(),
{
    if outcomes.len() == 0 {
        0
    } else {
        successes(outcomes.drop_last()) + if outcomes.last() is Ok {
            1nat
        } else {
            0nat
        }
    }
}

/// What applying the stashes of a branch does next.
pub enum StashApplyPlan {
    /// Nothing to apply, or only listing: the report.
    Done(String),
    /// Apply the stashes `names` one by one and report with `finish_apply`
    /// (the report starts with `header`).
    Apply { names: Vec<String>, header: String },
}

/// The stashes of `v` made on `branch`.
pub open spec fn stashes_of_branch(v: Seq<StashView>, branch: Seq<char>) -> Seq<StashView>
    decreases v.len(),
{
    if v.len() == 0 {
        Seq::empty()
    } else {
        let rest = stashes_of_branch(v.drop_last(), branch);
        if v.last().2 == branch {
            rest.push(v.last())
        } else {
            rest
        }
    }
}

/// What applying the stashes of `branch` decides from the stash listing.
pub open spec fn apply_stashes_plan(branch: Seq<char>, list_only: bool, stashes: Result<Vec<StashInfo>>, r: Result<StashApplyPlan>) -> bool {
    match stashes {
        Err(e) => r == Err::<StashApplyPlan, GitXError>(e),
        Ok(v) => {
            let b = stashes_of_branch(stashes_view(v@), branch);
            if b.len() == 0 {
                r matches Ok(StashApplyPlan::Done(t)) && t@ == "No stashes found for branch '"@ + branch + "'"@
            } else if list_only {
                r matches Ok(StashApplyPlan::Done(t)) && t@ == "📋 Found "@ + decimal(b.len()) + " stash(es) for branch '"@
                    + branch + "':\n"@ + stash_listing(b)
            } else {
                r matches Ok(StashApplyPlan::Apply { names, header }) && names.deep_view() == stash_names(b) && header@
                    == "🔄 Applying "@ + decimal(b.len()) + " stash(es) from branch '"@ + branch + "':\n"@
            }
        },
    }
}

/// What the user chose in interactive stash management.
pub enum StashChoice {
    /// Apply the stash at this position.
    Apply(usize),
    /// Drop the stashes at these positions.
    Delete(Vec<usize>),
    /// Create a branch with this name from the stash at this position.
    CreateBranch(usize, String),
    /// Show the diff of the stash at this position.
    ShowDiff(usize),
    /// List all stashes.
    ListAll,
    /// Leave (also when the menu could not be shown).
    Exit,
}

/// What interactive stash management does next.
pub enum InteractiveStashStep {
    /// The report.
    Done(String),
    /// Run the plan.
    Run(Plan),
    /// Drop the stashes `names` one by one (failures are skipped) and report
    /// with `deleted_report`.
    DropEach(Vec<String>),
    /// Read the diff of stash `name` and report with `diff_report`.
    Diff(String),
}

/// The menu of interactive stash management.
pub open spec fn stash_menu() -> Seq<Seq<char>> {
    seq![
        "Apply selected stash"@,
        "Delete selected stashes"@,
        "Create branch from stash"@,
        "Show stash diff"@,
        "List all stashes"@,
        "Exit"@,
    ]
}

/// How a stash is shown for selection: `name: message (from branch)`.
pub open spec fn stash_item(s: StashView) -> Seq<char> {
    s.0 + ": "@ + s.1 + " (from "@ + s.2 + ")"@
}

/// The listing of all stashes, as shown items.
pub open spec fn all_stashes_listing(v: Seq<StashView>) -> Seq<char>
    decreases v.len(),
{
    if v.len() == 0 {
        Seq::empty()
    } else {
        all_stashes_listing(v.drop_last()) + "  "@ + stash_item(v.last()) + "\n"@
    }
}

/// The names of the stashes at positions `sel`, last selected first.
pub open spec fn names_reversed(v: Seq<StashView>, sel: Seq<usize>) -> Seq<Seq<char>>
    decreases sel.len(),
{
    if sel.len() == 0 {
        Seq::empty()
    } else {
        seq![v[sel.last() as int].0] + names_reversed(v, sel.drop_last())
    }
}

/// What interactive stash management decides for the user's choice.
pub open spec fn interactive_step(v: Seq<StashView>, choice: StashChoice, r: Result<InteractiveStashStep>) -> bool {
    match choice {
        StashChoice::Apply(i) => r matches Ok(InteractiveStashStep::Run(p)) && runs(
            p,
            seq![seq!["stash"@, "apply"@, v[i as int].0]],
            "✅ Applied stash: "@ + v[i as int].0,
        ),
        StashChoice::Delete(sel) => if sel.len() == 0 {
            r matches Ok(InteractiveStashStep::Done(t)) && t@ == "No stashes selected for deletion"@
        } else {
            r matches Ok(InteractiveStashStep::DropEach(names)) && names.deep_view() == names_reversed(v, sel@)
        },
        StashChoice::CreateBranch(i, name) => match stash_branch_name_error(name@) {
            Some(m) => is_git_error(r, m),
            None => r matches Ok(InteractiveStashStep::Run(p)) && runs(
                p,
                seq![seq!["stash"@, "branch"@, name@, v[i as int].0]],
                "✅ Created branch '"@ + name@ + "' from stash '"@ + v[i as int].0 + "'"@,
            ),
        },
        StashChoice::ShowDiff(i) => r matches Ok(InteractiveStashStep::Diff(n)) && n@ == v[i as int].0,
        StashChoice::ListAll => r matches Ok(InteractiveStashStep::Done(t)) && t@ == "📝 All stashes:\n"@
            + all_stashes_listing(v),
        StashChoice::Exit => r matches Ok(InteractiveStashStep::Done(t)) && t@ == "👋 Goodbye!"@,
    }
}

/// The positions of a choice lie among the stashes.
pub open spec fn choice_in_range(choice: StashChoice, n: nat) -> bool {
    match choice {
        StashChoice::Apply(i) => i < n,
        StashChoice::Delete(sel) => forall|k: int| 0 <= k < sel.len() ==> #[trigger] sel@[k] < n,
        StashChoice::CreateBranch(i, _) => i < n,
        StashChoice::ShowDiff(i) => i < n,
        _ => true,
    }
}

/// The stash `stash_ref`, or the latest one.
pub open spec fn stash_target(stash_ref: Option<Seq<char>>) -> Seq<char> {
    match stash_ref {
        Some(s) => s,
        None => "stash@{0}"@,
    }
}

/// What creating `branch` from a stash decides: the name is checked, an
/// existing branch refused (a failed check counts as absent), then the
/// stash must exist.
pub open spec fn create_from_stash_plan(
    branch: Seq<char>,
    stash_ref: Option<Seq<char>>,
    exists: Result<bool>,
    stash_check: Result<String>,
    r: Result<Plan>,
) -> bool {
    match stash_branch_name_error(branch) {
        Some(m) => is_git_error(r, m),
        None => if exists == Ok::<bool, GitXError>(true) {
            is_git_error(r, "Branch '"@ + branch + "' already exists"@)
        } else if stash_check is Err {
            is_git_error(r, "Stash reference does not exist"@)
        } else {
            ok_run(
                r,
                seq![seq!["stash"@, "branch"@, branch, stash_target(stash_ref)]],
                "✅ Created branch '"@ + branch + "' from stash '"@ + stash_target(stash_ref) + "'"@,
            )
        },
    }
}

/// The file name of a stash's patch: its name without `@`, `{` and `}`,
/// and `.patch`.
pub open spec fn patch_name(name: Seq<char>) -> Seq<char> {
    name.filter(|c: char| c != '@' && c != '{' && c != '}') + ".patch"@
}

/// The arguments that `git stash <verb> <name>`.
fn stash_args(verb: &str, name: &str) -> (r: Vec<String>)
    ensures
        r.deep_view() == seq!["stash"@, verb@, name@],
{
    let mut r = strings(&["stash"]);
    push_str_arg(&mut r, verb);
    push_str_arg(&mut r, name);
    assert(r.deep_view() =~= seq!["stash"@, verb@, name@]);
    r
}

impl StashCommand {
    pub closed spec fn action_view(&self) -> StashBranchAction {
        self.action
    }

    pub fn new(action: StashBranchAction) -> (r: Self)
        ensures
            r.action_view() == action,
    {
        Self { action }
    }

    /// The stash a branch is made from (see `stash_target`).
    pub fn stash_target(stash_ref: &Option<String>) -> (r: String)
        ensures
            r@ == stash_target(
                match stash_ref {
                    Some(s) => Some(s@),
                    None => None,
                },
            ),
    {
        match stash_ref {
            Some(s) => owned(s.as_str()),
            None => owned("stash@{0}"),
        }
    }

    /// Creating a branch from a stash, from git's answers: whether the
    /// branch exists and the check of the stash (see
    /// `create_from_stash_plan`).
    pub fn create_branch_from_stash(
        branch_name: &str,
        stash_ref: &Option<String>,
        exists: Result<bool>,
        stash_check: Result<String>,
    ) -> (r: Result<Plan>)
        ensures
            create_from_stash_plan(
                branch_name@,
                match stash_ref {
                    Some(s) => Some(s@),
                    None => None,
                },
                exists,
                stash_check,
                r,
            ),
    {
        match validate_branch_name(branch_name) {
            Err(e) => return Err(e),
            Ok(()) => {},
        }
        let taken = match exists {
            Ok(b) => b,
            Err(_) => false,
        };
        if taken {
            let mut m = String::from_str("Branch '");
            m.append(branch_name);
            m.append("' already exists");
            return Err(GitXError::GitCommand(m));
        }
        let stash = Self::stash_target(stash_ref);
        match validate_stash_exists(stash_check) {
            Err(e) => return Err(e),
            Ok(()) => {},
        }
        let mut a = strings(&["stash", "branch"]);
        push_str_arg(&mut a, branch_name);
        push_str_arg(&mut a, stash.as_str());
        assert(a.deep_view() =~= seq!["stash"@, "branch"@, branch_name@, stash@]);
        let mut m = String::from_str("✅ Created branch '");
        m.append(branch_name);
        m.append("' from stash '");
        m.append(stash.as_str());
        m.append("'");
        Ok(Plan::one(a, m))
    }

    /// Cleaning old stashes (see `clean_stashes_plan`).
    pub fn clean_old_stashes(older_than: &Option<String>, dry_run: bool, stashes: Result<Vec<StashInfo>>) -> (r: Result<StashCleanPlan>)
        ensures
            clean_stashes_plan(
                match older_than {
                    Some(a) => Some(a@),
                    None => None,
                },
                dry_run,
                stashes,
                r,
            ),
    {
        let all = match stashes {
            Err(e) => return Err(e),
            Ok(v) => v,
        };
        if all.len() == 0 {
            return Ok(StashCleanPlan::Done(String::from_str("ℹ️ No stashes found")));
        }
        let chosen = match older_than {
            Some(a) => match filter_stashes_by_age(&all, a.as_str()) {
                Err(e) => return Err(e),
                Ok(v) => v,
            },
            None => all,
        };
        let ghost cv = stashes_view(chosen@);
        let mut listing = if dry_run {
            String::from_str("🧪 (dry run) Would clean ")
        } else {
            String::from_str("🧹 Cleaning ")
        };
        let n = decimal_of(chosen.len() as u64);
        listing.append(n.as_str());
        listing.append(" stash(es):\n");
        let ghost head = listing@;
        let mut names: Vec<String> = Vec::new();
        for i in 0..chosen.len()
            invariant
                cv == stashes_view(chosen@),
                listing@ == head + stash_listing(cv.take(i as int)),
                names.deep_view() == stash_names(cv.take(i as int)),
        {
            proof {
                assert(cv.take(i + 1).drop_last() =~= cv.take(i as int));
                assert(cv[i as int] == chosen@[i as int]@);
            }
            listing.append("  ");
            listing.append(chosen[i].name.as_str());
            listing.append(": ");
            listing.append(chosen[i].message.as_str());
            listing.append("\n");
            let ghost before = names.deep_view();
            names.push(owned(chosen[i].name.as_str()));
            assert(names.deep_view() =~= before.push(chosen@[i as int].name@));
            assert(stash_names(cv.take(i + 1)) =~= stash_names(cv.take(i as int)).push(chosen@[i as int].name@));
        }
        assert(cv.take(chosen.len() as int) =~= cv);
        if dry_run {
            return Ok(StashCleanPlan::Done(listing));
        }
        let mut details = String::from_str("This will delete ");
        details.append(n.as_str());
        details.append(" stashes: ");
        let j = join_of(&names, ", ");
        details.append(j.as_str());
        Ok(StashCleanPlan::Confirm { names, details, listing })
    }

    /// The report after dropping stashes: the listing, a line for each
    /// stash that could not be dropped, and the number dropped.
    pub fn finish_clean(listing: &str, names: &Vec<String>, outcomes: &Vec<Result<()>>) -> (r: String)
        requires
            outcomes.len() == names.len(),
        ensures
            exists|texts: Seq<Seq<char>>|
                shows_failures(outcomes@, texts) && r@ == listing@ + failure_lines(
                    names.deep_view(),
                    failures(outcomes@),
                    texts,
                    "❌ Failed to delete "@,
                    ": "@,
                ) + "✅ Successfully deleted "@ + decimal(successes(outcomes@)) + " stashes"@,
    {
        let mut r = owned(listing);
        let mut count: usize = 0;
        let ghost mut texts: Seq<Seq<char>> = Seq::empty();
        for i in 0..names.len()
            invariant
                outcomes.len() == names.len(),
                count == successes(outcomes@.take(i as int)),
                count <= i,
                texts.len() == i,
                forall|k: int| 0 <= k < i ==> (#[trigger] outcomes@[k] matches Err(e) ==> crate::shows(e, texts[k])),
                r@ == listing@ + failure_lines(
                    names.deep_view().take(i as int),
                    failures(outcomes@).take(i as int),
                    texts,
                    "❌ Failed to delete "@,
                    ": "@,
                ),
        {
            proof {
                assert(names.deep_view().take(i + 1).drop_last() =~= names.deep_view().take(i as int));
                assert(failures(outcomes@).take(i + 1).drop_last() =~= failures(outcomes@).take(i as int));
                assert(outcomes@.take(i + 1).drop_last() =~= outcomes@.take(i as int));
                assert(names.deep_view()[i as int] == names@[i as int]@);
            }
            let ghost old_texts = texts;
            let ghost old_r = r@;
            match &outcomes[i] {
                Ok(()) => {
                    count = count + 1;
                    proof {
                        texts = texts.push(Seq::empty());
                    }
                },
                Err(e) => {
                    let t = e.to_string();
                    let ghost before = r@;
                    r.append("❌ Failed to delete ");
                    r.append(names[i].as_str());
                    r.append(": ");
                    r.append(t.as_str());
                    r.append("\n");
                    assert(r@ =~= before + ("❌ Failed to delete "@ + names@[i as int]@ + ": "@ + t@ + "\n"@));
                    proof {
                        texts = texts.push(t@);
                    }
                },
            }
            proof {
                assert(texts.drop_last() =~= old_texts);
                assert(failures(outcomes@)[i as int] == outcomes@[i as int] is Err);
                assert(failure_lines(
                    names.deep_view().take(i + 1),
                    failures(outcomes@).take(i + 1),
                    texts,
                    "❌ Failed to delete "@,
                    ": "@,
                ) == failure_lines(
                    names.deep_view().take(i as int),
                    failures(outcomes@).take(i as int),
                    texts.drop_last(),
                    "❌ Failed to delete "@,
                    ": "@,
                ) + if failures(outcomes@)[i as int] {
                    "❌ Failed to delete "@ + names@[i as int]@ + ": "@ + texts.last() + "\n"@
                } else {
                    Seq::empty()
                });
                let fl = failure_lines(
                    names.deep_view().take(i as int),
                    failures(outcomes@).take(i as int),
                    old_texts,
                    "❌ Failed to delete "@,
                    ": "@,
                );
                assert(old_r == listing@ + fl);
                if failures(outcomes@)[i as int] {
                    assert(r@ =~= listing@ + (fl + ("❌ Failed to delete "@ + names@[i as int]@ + ": "@ + texts.last() + "\n"@)));
                } else {
                    assert(r@ =~= listing@ + (fl + Seq::<char>::empty()));
                }
            }
        }
        assert(names.deep_view().take(names.len() as int) =~= names.deep_view());
        assert(failures(outcomes@).take(names.len() as int) =~= failures(outcomes@));
        assert(outcomes@.take(names.len() as int) =~= outcomes@);
        let ghost body = r@;
        r.append("✅ Successfully deleted ");
        let d = decimal_of(count as u64);
        r.append(d.as_str());
        r.append(" stashes");
        assert(shows_failures(outcomes@, texts));
        assert(r@ =~= body + "✅ Successfully deleted "@ + decimal(successes(outcomes@)) + " stashes"@);
        r
    }
    /// Applying the stashes of `branch_name` (see `apply_stashes_plan`).
    pub fn apply_stashes_by_branch(branch_name: &str, list_only: bool, stashes: Result<Vec<StashInfo>>) -> (r: Result<StashApplyPlan>)
        ensures
            apply_stashes_plan(branch_name@, list_only, stashes, r),
    {
        let all = match stashes {
            Err(e) => return Err(e),
            Ok(v) => v,
        };
        let ghost av = stashes_view(all@);
        let mut chosen: Vec<StashInfo> = Vec::new();
        for i in 0..all.len()
            invariant
                av == stashes_view(all@),
                stashes_view(chosen@) == stashes_of_branch(av.take(i as int), branch_name@),
        {
            proof {
                assert(av.take(i + 1).drop_last() =~= av.take(i as int));
                assert(av[i as int] == all@[i as int]@);
            }
            if str_eq(all[i].branch.as_str(), branch_name) {
                let ghost before = stashes_view(chosen@);
                chosen.push(copy_stash(&all[i]));
                assert(stashes_view(chosen@) =~= before.push(all@[i as int]@));
            }
        }
        assert(av.take(all.len() as int) =~= av);
        let ghost cv = stashes_view(chosen@);
        if chosen.len() == 0 {
            let mut m = String::from_str("No stashes found for branch '");
            m.append(branch_name);
            m.append("'");
            return Ok(StashApplyPlan::Done(m));
        }
        let n = decimal_of(chosen.len() as u64);
        if list_only {
            let mut m = String::from_str("📋 Found ");
            m.append(n.as_str());
            m.append(" stash(es) for branch '");
            m.append(branch_name);
            m.append("':\n");
            let ghost head = m@;
            for i in 0..chosen.len()
                invariant
                    cv == stashes_view(chosen@),
                    m@ == head + stash_listing(cv.take(i as int)),
            {
                proof {
                    assert(cv.take(i + 1).drop_last() =~= cv.take(i as int));
                    assert(cv[i as int] == chosen@[i as int]@);
                }
                m.append("  ");
                m.append(chosen[i].name.as_str());
                m.append(": ");
                m.append(chosen[i].message.as_str());
                m.append("\n");
            }
            assert(cv.take(chosen.len() as int) =~= cv);
            return Ok(StashApplyPlan::Done(m));
        }
        let mut names: Vec<String> = Vec::new();
        for i in 0..chosen.len()
            invariant
                cv == stashes_view(chosen@),
                names.deep_view() == stash_names(cv.take(i as int)),
        {
            let ghost before = names.deep_view();
            names.push(owned(chosen[i].name.as_str()));
            assert(names.deep_view() =~= before.push(chosen@[i as int].name@));
            assert(stash_names(cv.take(i + 1)) =~= stash_names(cv.take(i as int)).push(chosen@[i as int].name@));
        }
        assert(cv.take(chosen.len() as int) =~= cv);
        let mut header = String::from_str("🔄 Applying ");
        header.append(n.as_str());
        header.append(" stash(es) from branch '");
        header.append(branch_name);
        header.append("':\n");
        Ok(StashApplyPlan::Apply { names, header })
    }

    /// The report after applying stashes: the header and a line for each.
    pub fn finish_apply(header: &str, names: &Vec<String>, outcomes: &Vec<Result<()>>) -> (r: String)
        requires
            outcomes.len() == names.len(),
        ensures
            exists|texts: Seq<Seq<char>>|
                shows_failures(outcomes@, texts) && r@ == header@ + outcome_lines(
                    names.deep_view(),
                    failures(outcomes@),
                    texts,
                    "  ✅ Applied "@,
                    "  ❌ Failed to apply "@,
                ),
    {
        let mut r = owned(header);
        let ghost mut texts: Seq<Seq<char>> = Seq::empty();
        for i in 0..names.len()
            invariant
                outcomes.len() == names.len(),
                texts.len() == i,
                forall|k: int| 0 <= k < i ==> (#[trigger] outcomes@[k] matches Err(e) ==> crate::shows(e, texts[k])),
                r@ == header@ + outcome_lines(
                    names.deep_view().take(i as int),
                    failures(outcomes@).take(i as int),
                    texts,
                    "  ✅ Applied "@,
                    "  ❌ Failed to apply "@,
                ),
        {
            proof {
                assert(names.deep_view().take(i + 1).drop_last() =~= names.deep_view().take(i as int));
                assert(failures(outcomes@).take(i + 1).drop_last() =~= failures(outcomes@).take(i as int));
                assert(names.deep_view()[i as int] == names@[i as int]@);
            }
            let ghost old_texts = texts;
            let ghost old_r = r@;
            let ghost line: Seq<char>;
            match &outcomes[i] {
                Ok(()) => {
                    r.append("  ✅ Applied ");
                    r.append(names[i].as_str());
                    r.append("\n");
                    proof {
                        texts = texts.push(Seq::empty());
                        line = "  ✅ Applied "@ + names@[i as int]@ + "\n"@;
                    }
                },
                Err(e) => {
                    let t = e.to_string();
                    r.append("  ❌ Failed to apply ");
                    r.append(names[i].as_str());
                    r.append(": ");
                    r.append(t.as_str());
                    r.append("\n");
                    proof {
                        texts = texts.push(t@);
                        line = "  ❌ Failed to apply "@ + names@[i as int]@ + ": "@ + t@ + "\n"@;
                    }
                },
            }
            proof {
                assert(texts.drop_last() =~= old_texts);
                assert(failures(outcomes@)[i as int] == outcomes@[i as int] is Err);
                let ol = outcome_lines(
                    names.deep_view().take(i as int),
                    failures(outcomes@).take(i as int),
                    old_texts,
                    "  ✅ Applied "@,
                    "  ❌ Failed to apply "@,
                );
                assert(outcome_lines(
                    names.deep_view().take(i + 1),
                    failures(outcomes@).take(i + 1),
                    texts,
                    "  ✅ Applied "@,
                    "  ❌ Failed to apply "@,
                ) == ol + line);
                assert(r@ =~= header@ + (ol + line));
            }
        }
        assert(names.deep_view().take(names.len() as int) =~= names.deep_view());
        assert(failures(outcomes@).take(names.len() as int) =~= failures(outcomes@));
        assert(shows_failures(outcomes@, texts));
        r
    }

    /// The menu of interactive stash management.
    pub fn interactive_actions() -> (r: Vec<String>)
        ensures
            r.deep_view() == stash_menu(),
    {
        let r = strings(
            &[
                "Apply selected stash",
                "Delete selected stashes",
                "Create branch from stash",
                "Show stash diff",
                "List all stashes",
                "Exit",
            ],
        );
        assert(r.deep_view() =~= stash_menu());
        r
    }

    /// The stashes as shown for selection (see `stash_item`).
    pub fn stash_items(stashes: &Vec<StashInfo>) -> (r: Vec<String>)
        ensures
            r.deep_view() == stashes_view(stashes@).map_values(|s: StashView| stash_item(s)),
    {
        let mut r: Vec<String> = Vec::new();
        for i in 0..stashes.len()
            invariant
                r.deep_view() == stashes_view(stashes@).take(i as int).map_values(|s: StashView| stash_item(s)),
        {
            let s = &stashes[i];
            let mut t = owned(s.name.as_str());
            t.append(": ");
            t.append(s.message.as_str());
            t.append(" (from ");
            t.append(s.branch.as_str());
            t.append(")");
            let ghost before = r.deep_view();
            r.push(t);
            assert(r.deep_view() =~= before.push(stash_item(stashes@[i as int]@)));
            assert(stashes_view(stashes@).take(i + 1).map_values(|s: StashView| stash_item(s)) =~= stashes_view(
                stashes@,
            ).take(i as int).map_values(|s: StashView| stash_item(s)).push(stash_item(stashes@[i as int]@)));
        }
        assert(stashes_view(stashes@).take(stashes.len() as int) =~= stashes_view(stashes@));
        r
    }

    /// The start of interactive stash management, from the stash listing:
    /// without stashes there is nothing to manage.
    pub fn interactive_start(stashes: &Result<Vec<StashInfo>>) -> (r: Option<String>)
        ensures
            (*stashes matches Ok(v) && v.len() == 0) ==> (r matches Some(t) && t@ == "📝 No stashes found"@),
            !(*stashes matches Ok(v) && v.len() == 0) ==> r is None,
    {
        match stashes {
            Ok(v) => if v.len() == 0 {
                Some(String::from_str("📝 No stashes found"))
            } else {
                None
            },
            Err(_) => None,
        }
    }

    /// What interactive stash management does for the user's choice (see
    /// `interactive_step`).
    pub fn interactive_stash_management(stashes: &Vec<StashInfo>, choice: StashChoice) -> (r: Result<InteractiveStashStep>)
        requires
            choice_in_range(choice, stashes.len() as nat),
        ensures
            interactive_step(stashes_view(stashes@), choice, r),
    {
        let ghost v = stashes_view(stashes@);
        match choice {
            StashChoice::Apply(i) => {
                let name = stashes[i].name.as_str();
                let mut m = String::from_str("✅ Applied stash: ");
                m.append(name);
                Ok(InteractiveStashStep::Run(Plan::one(stash_args("apply", name), m)))
            },
            StashChoice::Delete(sel) => {
                if sel.len() == 0 {
                    return Ok(InteractiveStashStep::Done(String::from_str("No stashes selected for deletion")));
                }
                let mut names: Vec<String> = Vec::new();
                let mut k = sel.len();
                assert(sel@.take(k as int) =~= sel@);
                assert(names.deep_view() + names_reversed(v, sel@) =~= names_reversed(v, sel@));
                while k > 0
                    invariant
                        k <= sel.len(),
                        forall|m: int| 0 <= m < sel.len() ==> #[trigger] sel@[m] < stashes.len(),
                        v == stashes_view(stashes@),
                        names.deep_view() + names_reversed(v, sel@.take(k as int)) == names_reversed(v, sel@),
                    decreases k,
                {
                    proof {
                        assert(sel@.take(k as int).drop_last() =~= sel@.take(k - 1));
                        assert(sel@.take(k as int).last() == sel@[k - 1]);
                    }
                    let idx = sel[k - 1];
                    let ghost before = names.deep_view();
                    names.push(owned(stashes[idx].name.as_str()));
                    proof {
                        assert(names.deep_view() =~= before.push(v[idx as int].0));
                        assert(names_reversed(v, sel@.take(k as int)) =~= seq![v[idx as int].0] + names_reversed(
                            v,
                            sel@.take(k - 1),
                        ));
                        assert(names.deep_view() + names_reversed(v, sel@.take(k - 1)) =~= before
                            + names_reversed(v, sel@.take(k as int)));
                    }
                    k = k - 1;
                }
                assert(names.deep_view() + names_reversed(v, sel@.take(0)) =~= names.deep_view());
                Ok(InteractiveStashStep::DropEach(names))
            },
            StashChoice::CreateBranch(i, branch) => {
                match validate_branch_name(branch.as_str()) {
                    Err(e) => return Err(e),
                    Ok(()) => {},
                }
                let name = stashes[i].name.as_str();
                let mut a = strings(&["stash", "branch"]);
                push_str_arg(&mut a, branch.as_str());
                push_str_arg(&mut a, name);
                assert(a.deep_view() =~= seq!["stash"@, "branch"@, branch@, v[i as int].0]);
                let mut m = String::from_str("✅ Created branch '");
                m.append(branch.as_str());
                m.append("' from stash '");
                m.append(name);
                m.append("'");
                Ok(InteractiveStashStep::Run(Plan::one(a, m)))
            },
            StashChoice::ShowDiff(i) => Ok(InteractiveStashStep::Diff(owned(stashes[i].name.as_str()))),
            StashChoice::ListAll => {
                let mut m = String::from_str("📝 All stashes:\n");
                let ghost head = m@;
                for i in 0..stashes.len()
                    invariant
                        v == stashes_view(stashes@),
                        m@ == head + all_stashes_listing(v.take(i as int)),
                {
                    proof {
                        assert(v.take(i + 1).drop_last() =~= v.take(i as int));
                        assert(v[i as int] == stashes@[i as int]@);
                    }
                    m.append("  ");
                    m.append(stashes[i].name.as_str());
                    m.append(": ");
                    m.append(stashes[i].message.as_str());
                    m.append(" (from ");
                    m.append(stashes[i].branch.as_str());
                    m.append(")");
                    m.append("\n");
                }
                assert(v.take(stashes.len() as int) =~= v);
                Ok(InteractiveStashStep::Done(m))
            },
            StashChoice::Exit => Ok(InteractiveStashStep::Done(String::from_str("👋 Goodbye!"))),
        }
    }

    /// The report after dropping the selected stashes: `dropped[i]` tells
    /// whether the i-th could be dropped.
    pub fn deleted_report(dropped: &Vec<bool>) -> (r: String)
        ensures
            r@ == "✅ Deleted "@ + decimal(crate::commands::repository::count_true(dropped@)) + " stash(es)"@,
    {
        let mut n: usize = 0;
        for k in 0..dropped.len()
            invariant
                n == crate::commands::repository::count_true(dropped@.take(k as int)),
                n <= k,
        {
            assert(dropped@.take(k + 1).drop_last() =~= dropped@.take(k as int));
            if dropped[k] {
                n = n + 1;
            }
        }
        assert(dropped@.take(dropped.len() as int) =~= dropped@);
        let mut m = String::from_str("✅ Deleted ");
        let d = decimal_of(n as u64);
        m.append(d.as_str());
        m.append(" stash(es)");
        m
    }

    /// The arguments that print the diff of stash `name`.
    pub fn diff_args(name: &str) -> (r: Vec<String>)
        ensures
            r.deep_view() == seq!["stash"@, "show"@, "-p"@, name@],
    {
        let mut r = strings(&["stash", "show", "-p"]);
        push_str_arg(&mut r, name);
        assert(r.deep_view() =~= seq!["stash"@, "show"@, "-p"@, name@]);
        r
    }

    /// The report of a stash's diff.
    pub fn diff_report(name: &str, diff: Result<String>) -> (r: Result<String>)
        ensures
            match diff {
                Err(e) => r == Err::<String, GitXError>(e),
                Ok(d) => r matches Ok(t) && t@ == "📊 Diff for "@ + name@ + ":\n"@ + d@,
            },
    {
        let d = match diff {
            Err(e) => return Err(e),
            Ok(d) => d,
        };
        let mut m = String::from_str("📊 Diff for ");
        m.append(name);
        m.append(":\n");
        m.append(d.as_str());
        Ok(m)
    }

    /// The arguments that drop stash `name`.
    pub fn drop_args(name: &str) -> (r: Vec<String>)
        ensures
            r.deep_view() == seq!["stash"@, "drop"@, name@],
    {
        stash_args("drop", name)
    }

    /// The arguments that apply stash `name`.
    pub fn apply_args(name: &str) -> (r: Vec<String>)
        ensures
            r.deep_view() == seq!["stash"@, "apply"@, name@],
    {
        stash_args("apply", name)
    }

    /// The file a stash's patch is written to (see `patch_name`).
    pub fn patch_file_name(name: &str) -> (r: String)
        ensures
            r@ == patch_name(name@),
    {
        let v = chars_of(name);
        let mut r = String::new();
        for i in 0..v.len()
            invariant
                v@ == name@,
                r@ == v@.take(i as int).filter(|c: char| c != '@' && c != '{' && c != '}'),
        {
            proof {
                assert(v@.take(i + 1).drop_last() =~= v@.take(i as int));
                reveal_with_fuel(Seq::filter, 1);
            }
            let c = v[i];
            if c != '@' && c != '{' && c != '}' {
                crate::base::text::push_char(&mut r, c);
            }
            assert(v@.take(i + 1) =~= v@.take(i as int).push(v@[i as int]));
        }
        assert(v@.take(v.len() as int) =~= v@);
        r.append(".patch");
        r
    }

    /// The report after exporting patches.
    pub fn export_report(count: usize, output_dir: &str) -> (r: String)
        ensures
            count == 0 ==> r@ == "📝 No stashes to export"@,
            count > 0 ==> r@ == "✅ Exported "@ + decimal(count as nat) + " stash(es) to patch files in '"@ + output_dir@
                + "'"@,
    {
        if count == 0 {
            return String::from_str("📝 No stashes to export");
        }
        let mut m = String::from_str("✅ Exported ");
        let d = decimal_of(count as u64);
        m.append(d.as_str());
        m.append(" stash(es) to patch files in '");
        m.append(output_dir);
        m.append("'");
        m
    }

    /// One stash's information, from the answer to `git stash list
    /// --pretty=format:%gd|%s <ref>`: its first line.
    pub fn get_stash_info(output: Result<String>) -> (r: Result<StashInfo>)
        ensures
            match output {
                Err(e) => r == Err::<StashInfo, GitXError>(e),
                Ok(o) => if lines(o@).len() > 0 && stash_with_branch(lines(o@)[0]) is Some {
                    r matches Ok(s) && s@ == stash_with_branch(lines(o@)[0])->0
                } else {
                    is_git_error(r, "Could not get stash information"@)
                },
            },
    {
        let o = match output {
            Err(e) => return Err(e),
            Ok(o) => o,
        };
        let ls = lines_of(o.as_str());
        if ls.len() > 0 {
            assert(ls.deep_view()[0] == ls@[0]@);
            match parse_stash_line_with_branch(ls[0].as_str()) {
                Some(s) => return Ok(s),
                None => {},
            }
        }
        Err(GitXError::GitCommand(String::from_str("Could not get stash information")))
    }
}

impl Command for StashCommand {
    fn name(&self) -> (r: &'static str)
        ensures
            r@ == "stash-branch"@,
    {
        "stash-branch"
    }

    fn description(&self) -> (r: &'static str)
        ensures
            r@ == "Create branches from stashes or manage stash cleanup"@,
    {
        "Create branches from stashes or manage stash cleanup"
    }
}

impl GitCommand for StashCommand {}

impl Destructive for StashCommand {
    fn destruction_description(&self) -> (r: String)
        ensures
            self.action_view() matches StashBranchAction::Create { branch_name, .. } ==> r@
                == "This will create a new branch '"@ + branch_name@ + "' and remove the stash"@,
            self.action_view() matches StashBranchAction::Clean { dry_run, .. } ==> r@ == if dry_run {
                "This is a dry run - no stashes will be deleted"@
            } else {
                "This will permanently delete the selected stashes"@
            },
            self.action_view() matches StashBranchAction::ApplyByBranch { list_only, .. } ==> r@ == if list_only {
                "This will only list stashes without applying them"@
            } else {
                "This will apply stashes to your working directory"@
            },
            self.action_view() is Interactive ==> r@
                == "Interactive stash management - actions will be confirmed individually"@,
            self.action_view() is Export ==> r@ == "This will export stashes as patch files to the specified directory"@,
    {
        match &self.action {
            StashBranchAction::Create { branch_name, .. } => {
                let mut m = String::from_str("This will create a new branch '");
                m.append(branch_name.as_str());
                m.append("' and remove the stash");
                m
            },
            StashBranchAction::Clean { dry_run, .. } => if *dry_run {
                String::from_str("This is a dry run - no stashes will be deleted")
            } else {
                String::from_str("This will permanently delete the selected stashes")
            },
            StashBranchAction::ApplyByBranch { list_only, .. } => if *list_only {
                String::from_str("This will only list stashes without applying them")
            } else {
                String::from_str("This will apply stashes to your working directory")
            },
            StashBranchAction::Interactive => String::from_str(
                "Interactive stash management - actions will be confirmed individually",
            ),
            StashBranchAction::Export { .. } => String::from_str(
                "This will export stashes as patch files to the specified directory",
            ),
        }
    }
}

/// Stash-related commands grouped together
pub struct StashCommands;

impl StashCommands {
    /// Create a branch from a stash (see `StashCommand::create_branch_from_stash`).
    pub fn create_branch(branch_name: String, stash_ref: Option<String>, exists: Result<bool>, stash_check: Result<String>) -> (r: Result<Plan>)
        ensures
            create_from_stash_plan(
                branch_name@,
                match stash_ref {
                    Some(s) => Some(s@),
                    None => None,
                },
                exists,
                stash_check,
                r,
            ),
    {
        StashCommand::create_branch_from_stash(branch_name.as_str(), &stash_ref, exists, stash_check)
    }

    /// Clean old stashes (see `StashCommand::clean_old_stashes`).
    pub fn clean(older_than: Option<String>, dry_run: bool, stashes: Result<Vec<StashInfo>>) -> (r: Result<StashCleanPlan>)
        ensures
            clean_stashes_plan(
                match older_than {
                    Some(a) => Some(a@),
                    None => None,
                },
                dry_run,
                stashes,
                r,
            ),
    {
        StashCommand::clean_old_stashes(&older_than, dry_run, stashes)
    }

    /// Apply the stashes of a branch (see `StashCommand::apply_stashes_by_branch`).
    pub fn apply_by_branch(branch_name: String, list_only: bool, stashes: Result<Vec<StashInfo>>) -> (r: Result<StashApplyPlan>)
        ensures
            apply_stashes_plan(branch_name@, list_only, stashes, r),
    {
        StashCommand::apply_stashes_by_branch(branch_name.as_str(), list_only, stashes)
    }

    /// Interactive stash management, for the user's choice (see
    /// `StashCommand::interactive_stash_management`).
    pub fn interactive(stashes: &Vec<StashInfo>, choice: StashChoice) -> (r: Result<InteractiveStashStep>)
        requires
            choice_in_range(choice, stashes.len() as nat),
        ensures
            interactive_step(stashes_view(stashes@), choice, r),
    {
        StashCommand::interactive_stash_management(stashes, choice)
    }

    /// The report of an export of `count` patches to `output_dir`.
    pub fn export(count: usize, output_dir: String) -> (r: String)
        ensures
            count == 0 ==> r@ == "📝 No stashes to export"@,
            count > 0 ==> r@ == "✅ Exported "@ + decimal(count as nat) + " stash(es) to patch files in '"@ + output_dir@
                + "'"@,
    {
        StashCommand::export_report(count, output_dir.as_str())
    }
}

} // verus!
