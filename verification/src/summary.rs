//! `git x summary --since <date>`: the commits since a date, grouped by day,
//! the newest day first, each commit with an emoji for its kind.
use vstd::prelude::*;
use crate::base::git::ProcessOutput;
use crate::base::text::{lines, lines_of, owned, splitn, splitn_of, trim, trim_str};
use crate::command::Command;
use crate::commands::analysis::{commit_date, commit_emoji, date_key, get_commit_emoji_public, parse_ymd};
use crate::{GitXError, Result, is_git_error};

verus! {

/// A day: year, month, day of month and the day's text (`YYYY-MM-DD`).
pub type Day = (i32, u32, u32, String);

/// A day as plain values.
pub type DayView = (i32, u32, u32, Seq<char>);

/// A day as plain values.
pub open spec fn day_view(d: Day) -> DayView {
    (d.0, d.1, d.2, d.3@)
}

/// The number that orders days.
pub open spec fn day_key(d: DayView) -> i128 {
    date_key(d.0, d.1, d.2)
}

/// The date of a commit, or `today` when it does not parse.
pub fn parse_commit_date(date_str: &str, today: &Day) -> (r: Option<Day>)
    ensures
        r matches Some(d) && day_view(d) == commit_date(date_str@, day_view(*today)),
{
    match parse_ymd(date_str) {
        Some(d) => Some(d),
        None => Some((today.0, today.1, today.2, owned(today.3.as_str()))),
    }
}

/// The day and the shown line of a log line
/// `hash|date|subject|author|relative date`.
pub open spec fn commit_line(line: Seq<char>, today: DayView) -> Option<(DayView, Seq<char>)> {
    let p = splitn(line, 5, '|');
    if p.len() == 5 {
        Some((
            commit_date(p[1], today),
            " - "@ + commit_emoji(p[2]) + " "@ + trim(p[2]) + " "@ + "(by "@ + p[3] + ", "@ + p[4] + ")"@,
        ))
    } else {
        None
    }
}

/// The day and the shown line of a log line (see `commit_line`).
pub fn parse_commit_line(line: &str, today: &Day) -> (r: Option<(Day, String)>)
    ensures
        match commit_line(line@, day_view(*today)) {
            Some(c) => r matches Some(x) && day_view(x.0) == c.0 && x.1@ == c.1,
            None => r is None,
        },
{
    let parts = splitn_of(line, 5, '|');
    if parts.len() != 5 {
        return None;
    }
    proof {
        assert(parts.deep_view()[1] == parts@[1]@);
        assert(parts.deep_view()[2] == parts@[2]@);
        assert(parts.deep_view()[3] == parts@[3]@);
        assert(parts.deep_view()[4] == parts@[4]@);
    }
    let date = match parse_commit_date(parts[1].as_str(), today) {
        Some(d) => d,
        None => return None,
    };
    let mut entry = owned(" - ");
    entry.append(get_commit_emoji_public(parts[2].as_str()));
    entry.append(" ");
    let message = trim_str(parts[2].as_str());
    entry.append(message.as_str());
    entry.append(" ");
    entry.append("(by ");
    entry.append(parts[3].as_str());
    entry.append(", ");
    entry.append(parts[4].as_str());
    entry.append(")");
    Some((date, entry))
}

/// The commits of the log lines, in log order.
pub open spec fn commits_of(ls: Seq<Seq<char>>, today: DayView) -> Seq<(DayView, Seq<char>)>
    decreases ls.len(),
{
    if ls.len() == 0 {
        Seq::empty()
    } else {
        let rest = commits_of(ls.drop_last(), today);
        match commit_line(ls.last(), today) {
            Some(c) => rest.push(c),
            None => rest,
        }
    }
}

/// The shown lines of the commits made on the day with key `k`, in order.
pub open spec fn lines_on(cs: Seq<(DayView, Seq<char>)>, k: i128) -> Seq<Seq<char>>
    decreases cs.len(),
{
    if cs.len() == 0 {
        Seq::empty()
    } else {
        let rest = lines_on(cs.drop_last(), k);
        if day_key(cs.last().0) == k {
            rest.push(cs.last().1)
        } else {
            rest
        }
    }
}

/// Some commit was made on the day with key `k`.
pub open spec fn has_day(cs: Seq<(DayView, Seq<char>)>, k: i128) -> bool {
    exists|i: int| 0 <= i < cs.len() && day_key(cs[i].0) == k
}

/// The day of the first commit made on the day with key `k`.
pub open spec fn first_day(cs: Seq<(DayView, Seq<char>)>, k: i128) -> DayView
    decreases cs.len(),
{
    if cs.len() == 0 {
        (0, 0, 0, Seq::empty())
    } else if has_day(cs.drop_last(), k) {
        first_day(cs.drop_last(), k)
    } else {
        cs.last().0
    }
}

/// A group of commits as plain values: its day and its shown lines.
pub type GroupView = (DayView, Seq<Seq<char>>);

/// The groups as plain values.
pub open spec fn groups_view(gs: Seq<(Day, Vec<String>)>) -> Seq<GroupView> {
    gs.map_values(|g: (Day, Vec<String>)| (day_view(g.0), g.1.deep_view()))
}

/// `gs` groups the commits `cs` by day: one group per day on which a
/// commit was made, the days in increasing order, each group holding that
/// day's commits in log order under the day of the first of them.
pub open spec fn grouped_by_day(cs: Seq<(DayView, Seq<char>)>, gs: Seq<GroupView>) -> bool {
    &&& forall|i: int, j: int| 0 <= i < j < gs.len() ==> day_key((#[trigger] gs[i]).0) < day_key((#[trigger] gs[j]).0)
    &&& forall|i: int| 0 <= i < gs.len() ==> has_day(cs, day_key((#[trigger] gs[i]).0))
    &&& forall|i: int| 0 <= i < gs.len() ==> (#[trigger] gs[i]).1 == lines_on(cs, day_key(gs[i].0)) && gs[i].0
        == first_day(cs, day_key(gs[i].0))
    &&& forall|k: int| 0 <= k < cs.len() ==> has_group(gs, day_key((#[trigger] cs[k]).0))
}

/// Some group of `gs` is for the day with key `k`.
pub open spec fn has_group(gs: Seq<GroupView>, k: i128) -> bool {
    exists|i: int| 0 <= i < gs.len() && day_key(gs[i].0) == k
}

/// Adding a commit to the commits changes only its own day's lines.
proof fn lemma_commit_push(cs: Seq<(DayView, Seq<char>)>, c: (DayView, Seq<char>), k: i128)
    ensures
        lines_on(cs.push(c), k) == if day_key(c.0) == k { lines_on(cs, k).push(c.1) } else { lines_on(cs, k) },
        has_day(cs.push(c), k) == (has_day(cs, k) || day_key(c.0) == k),
        has_day(cs, k) ==> first_day(cs.push(c), k) == first_day(cs, k),
        !has_day(cs, k) && day_key(c.0) == k ==> first_day(cs.push(c), k) == c.0,
{
    assert(cs.push(c).drop_last() =~= cs);
    if has_day(cs, k) {
        let i = choose|i: int| 0 <= i < cs.len() && day_key(cs[i].0) == k;
        assert(cs.push(c)[i] == cs[i]);
    }
    if day_key(c.0) == k {
        assert(cs.push(c)[cs.len() as int] == c);
    }
    if has_day(cs.push(c), k) {
        let i = choose|i: int| 0 <= i < cs.push(c).len() && day_key(cs.push(c)[i].0) == k;
        if i < cs.len() {
            assert(cs[i] == cs.push(c)[i]);
        }
    }
}

/// A commit on a day that already has a group joins that group.
proof fn lemma_join_group(cs: Seq<(DayView, Seq<char>)>, c: (DayView, Seq<char>), gv: Seq<GroupView>, j: int)
    requires
        grouped_by_day(cs, gv),
        0 <= j < gv.len(),
        day_key(gv[j].0) == day_key(c.0),
    ensures
        grouped_by_day(cs.push(c), gv.update(j, (gv[j].0, gv[j].1.push(c.1)))),
{
    let cs2 = cs.push(c);
    let gv2 = gv.update(j, (gv[j].0, gv[j].1.push(c.1)));
    assert forall|i: int| 0 <= i < gv2.len() implies has_day(cs2, day_key((#[trigger] gv2[i]).0)) && gv2[i].1
        == lines_on(cs2, day_key(gv2[i].0)) && gv2[i].0 == first_day(cs2, day_key(gv2[i].0)) by {
        lemma_commit_push(cs, c, day_key(gv2[i].0));
        assert(has_day(cs, day_key(gv[i].0)));
    }
    assert forall|k: int| 0 <= k < cs2.len() implies has_group(gv2, day_key((#[trigger] cs2[k]).0)) by {
        if k < cs.len() {
            assert(cs2[k] == cs[k]);
            assert(has_group(gv, day_key(cs[k].0)));
            let i = choose|i: int| 0 <= i < gv.len() && day_key(gv[i].0) == day_key(cs[k].0);
            assert(day_key(gv2[i].0) == day_key(gv[i].0));
        } else {
            assert(day_key(gv2[j].0) == day_key(cs2[k].0));
        }
    }
    assert forall|a: int, b: int| 0 <= a < b < gv2.len() implies day_key((#[trigger] gv2[a]).0) < day_key(
        (#[trigger] gv2[b]).0,
    ) by {
        assert(day_key(gv[a].0) < day_key(gv[b].0));
    }
}

/// A commit on a day without a group starts a group of its own, at the
/// place that keeps the days in order.
proof fn lemma_new_group(cs: Seq<(DayView, Seq<char>)>, c: (DayView, Seq<char>), gv: Seq<GroupView>, j: int)
    requires
        grouped_by_day(cs, gv),
        0 <= j <= gv.len(),
        forall|i: int| 0 <= i < j ==> day_key((#[trigger] gv[i]).0) < day_key(c.0),
        j < gv.len() ==> day_key(gv[j].0) > day_key(c.0),
    ensures
        grouped_by_day(cs.push(c), gv.insert(j, (c.0, seq![c.1]))),
{
    let cs2 = cs.push(c);
    let key = day_key(c.0);
    let gv2 = gv.insert(j, (c.0, seq![c.1]));
    assert(!has_day(cs, key)) by {
        if has_day(cs, key) {
            let k = choose|k: int| 0 <= k < cs.len() && day_key(cs[k].0) == key;
            assert(has_group(gv, day_key(cs[k].0)));
            let i = choose|i: int| 0 <= i < gv.len() && day_key(gv[i].0) == day_key(cs[k].0);
            if i > j {
                assert(day_key(gv[j].0) < day_key(gv[i].0));
            }
        }
    }
    lemma_lines_on_empty(cs, key);
    assert forall|a: int, b: int| 0 <= a < b < gv2.len() implies day_key((#[trigger] gv2[a]).0) < day_key(
        (#[trigger] gv2[b]).0,
    ) by {
        if a < j && b > j {
            assert(gv2[b] == gv[b - 1]);
            if b - 1 > j {
                assert(day_key(gv[j].0) < day_key(gv[b - 1].0));
            }
        } else if a == j && b > j {
            assert(gv2[b] == gv[b - 1]);
            if b - 1 > j {
                assert(day_key(gv[j].0) < day_key(gv[b - 1].0));
            }
        } else if a > j {
            assert(gv2[a] == gv[a - 1]);
            assert(gv2[b] == gv[b - 1]);
            assert(day_key(gv[a - 1].0) < day_key(gv[b - 1].0));
        }
    }
    assert forall|i: int| 0 <= i < gv2.len() implies has_day(cs2, day_key((#[trigger] gv2[i]).0)) && gv2[i].1
        == lines_on(cs2, day_key(gv2[i].0)) && gv2[i].0 == first_day(cs2, day_key(gv2[i].0)) by {
        if i == j {
            lemma_commit_push(cs, c, key);
        } else {
            let g = if i < j { gv[i] } else { gv[i - 1] };
            assert(gv2[i] == g);
            lemma_commit_push(cs, c, day_key(g.0));
            assert(has_day(cs, day_key(g.0)));
        }
    }
    assert forall|k: int| 0 <= k < cs2.len() implies has_group(gv2, day_key((#[trigger] cs2[k]).0)) by {
        if k < cs.len() {
            assert(cs2[k] == cs[k]);
            assert(has_group(gv, day_key(cs[k].0)));
            let i = choose|i: int| 0 <= i < gv.len() && day_key(gv[i].0) == day_key(cs[k].0);
            if i < j {
                assert(gv2[i] == gv[i]);
            } else {
                assert(gv2[i + 1] == gv[i]);
            }
        } else {
            assert(day_key(gv2[j].0) == day_key(cs2[k].0));
        }
    }
}

/// Files one more commit under its day; `keys` holds each group's day key.
fn add_commit(
    groups: &mut Vec<(Day, Vec<String>)>,
    keys: &mut Vec<i128>,
    day: Day,
    line: String,
    Ghost(cs): Ghost<Seq<(DayView, Seq<char>)>>,
)
    requires
        old(keys).len() == old(groups).len(),
        forall|i: int| 0 <= i < old(keys).len() ==> #[trigger] old(keys)@[i] == day_key(day_view(old(groups)@[i].0)),
        grouped_by_day(cs, groups_view(old(groups)@)),
    ensures
        final(keys).len() == final(groups).len(),
        forall|i: int| 0 <= i < final(keys).len() ==> #[trigger] final(keys)@[i] == day_key(day_view(final(groups)@[i].0)),
        grouped_by_day(cs.push((day_view(day), line@)), groups_view(final(groups)@)),
{
    let ghost c = (day_view(day), line@);
    let ghost gv = groups_view(groups@);
    let key: i128 = day.0 as i128 * 10000 + day.1 as i128 * 100 + day.2 as i128;
    assert(key == day_key(c.0));
    let mut j: usize = 0;
    while j < keys.len() && keys[j] < key
        invariant
            0 <= j <= keys.len(),
            keys.len() == groups.len(),
            forall|i: int| 0 <= i < j ==> #[trigger] keys@[i] < key,
        decreases keys.len() - j,
    {
        j = j + 1;
    }
    proof {
        assert forall|i: int| 0 <= i < j implies day_key((#[trigger] gv[i]).0) < day_key(c.0) by {
            assert(keys@[i] == day_key(gv[i].0));
        }
        if j < keys.len() {
            assert(keys@[j as int] == day_key(gv[j as int].0));
        }
    }
    if j < keys.len() && keys[j] == key {
        let mut g = groups.remove(j);
        let ghost old_lines = g.1.deep_view();
        g.1.push(line);
        assert(g.1.deep_view() =~= old_lines.push(c.1));
        groups.insert(j, g);
        proof {
            lemma_join_group(cs, c, gv, j as int);
            assert(groups_view(groups@) =~= gv.update(j as int, (gv[j as int].0, gv[j as int].1.push(c.1))));
        }
    } else {
        let mut v: Vec<String> = Vec::new();
        v.push(line);
        assert(v.deep_view() =~= seq![c.1]);
        groups.insert(j, (day, v));
        keys.insert(j, key);
        proof {
            lemma_new_group(cs, c, gv, j as int);
            assert(groups_view(groups@) =~= gv.insert(j as int, (c.0, seq![c.1])));
        }
    }
}

/// Groups the log's commits by day (see `grouped_by_day`).
pub fn parse_git_log_output(stdout: &str, today: &Day) -> (r: Vec<(Day, Vec<String>)>)
    ensures
        grouped_by_day(commits_of(lines(stdout@), day_view(*today)), groups_view(r@)),
{
    let ghost tv = day_view(*today);
    let ls = lines_of(stdout);
    let mut groups: Vec<(Day, Vec<String>)> = Vec::new();
    let mut keys: Vec<i128> = Vec::new();
    assert(groups_view(groups@) =~= Seq::<GroupView>::empty());
    for n in 0..ls.len()
        invariant
            tv == day_view(*today),
            keys.len() == groups.len(),
            forall|i: int| 0 <= i < keys.len() ==> #[trigger] keys@[i] == day_key(day_view(groups@[i].0)),
            grouped_by_day(commits_of(ls.deep_view().take(n as int), tv), groups_view(groups@)),
    {
        let ghost cs = commits_of(ls.deep_view().take(n as int), tv);
        proof {
            assert(ls.deep_view().take(n + 1).drop_last() =~= ls.deep_view().take(n as int));
            assert(ls.deep_view()[n as int] == ls@[n as int]@);
        }
        match parse_commit_line(ls[n].as_str(), today) {
            None => {},
            Some((day, line)) => {
                add_commit(&mut groups, &mut keys, day, line, Ghost(cs));
            },
        }
    }
    assert(ls.deep_view().take(ls.len() as int) =~= ls.deep_view());
    groups
}

/// No lines are shown for a day on which no commit was made.
proof fn lemma_lines_on_empty(cs: Seq<(DayView, Seq<char>)>, k: i128)
    requires
        !has_day(cs, k),
    ensures
        lines_on(cs, k) == Seq::<Seq<char>>::empty(),
    decreases cs.len(),
{
    if cs.len() > 0 {
        assert(cs[cs.len() - 1] == cs.last());
        if has_day(cs.drop_last(), k) {
            let i = choose|i: int| 0 <= i < cs.drop_last().len() && day_key(cs.drop_last()[i].0) == k;
            assert(cs[i] == cs.drop_last()[i]);
        }
        lemma_lines_on_empty(cs.drop_last(), k);
    }
}

/// The text of one day's group: the day, its commits, a blank line.
pub open spec fn group_block(g: GroupView) -> Seq<char> {
    block_lines(g.0.3, g.1) + "\n"@
}

/// The groups' texts, the last group first.
pub open spec fn newest_first(gs: Seq<GroupView>) -> Seq<char>
    decreases gs.len(),
{
    if gs.len() == 0 {
        Seq::empty()
    } else {
        group_block(gs.last()) + newest_first(gs.drop_last())
    }
}

/// The lines of a group: the day, then its commits.
pub open spec fn block_lines(d: Seq<char>, ls: Seq<Seq<char>>) -> Seq<char>
    decreases ls.len(),
{
    if ls.len() == 0 {
        d + "\n"@
    } else {
        block_lines(d, ls.drop_last()) + ls.last() + "\n"@
    }
}

/// The summary of grouped commits: `since`, then each day's group, the
/// newest day first.
pub fn format_commit_summary(since: &str, grouped: &Vec<(Day, Vec<String>)>) -> (r: String)
    ensures
        r@ == since@ + newest_first(groups_view(grouped@)),
{
    let ghost gv = groups_view(grouped@);
    let mut result = owned(since);
    let mut n = grouped.len();
    assert(gv.take(n as int) =~= gv);
    while n > 0
        invariant
            n <= grouped.len(),
            gv == groups_view(grouped@),
            result@ + newest_first(gv.take(n as int)) == since@ + newest_first(gv),
        decreases n,
    {
        let g = &grouped[n - 1];
        let ghost before = result@;
        proof {
            assert(gv.take(n as int).drop_last() =~= gv.take(n - 1));
            assert(gv.take(n as int).last() == gv[n - 1]);
            assert(gv[n - 1] == (day_view(g.0), g.1.deep_view()));
        }
        result.append(g.0.3.as_str());
        result.append("\n");
        let ghost head = result@;
        for i in 0..g.1.len()
            invariant
                result@ == before + block_lines(g.0.3@, g.1.deep_view().take(i as int)),
        {
            proof {
                assert(g.1.deep_view().take(i + 1).drop_last() =~= g.1.deep_view().take(i as int));
                assert(g.1.deep_view()[i as int] == g.1@[i as int]@);
            }
            result.append(g.1[i].as_str());
            result.append("\n");
        }
        result.append("\n");
        proof {
            assert(g.1.deep_view().take(g.1.len() as int) =~= g.1.deep_view());
            assert(result@ =~= before + group_block(gv[n - 1]));
        }
        n = n - 1;
    }
    assert(gv.take(0) =~= Seq::<GroupView>::empty());
    result
}

/// What the summary gives from the finished log (see `run_summary`).
pub open spec fn summary_outcome(since: Seq<char>, output: ProcessOutput, today: DayView, r: Result<String>) -> bool {
    &&& !output.success ==> is_git_error(r, "git log failed: "@ + trim(output.stderr@))
    &&& output.success && trim(output.stdout@).len() == 0 ==> (r matches Ok(t) && t@ == since + "\n"@)
    &&& output.success && trim(output.stdout@).len() > 0 ==> (r matches Ok(t) && exists|gs: Seq<GroupView>|
        grouped_by_day(commits_of(lines(output.stdout@), today), gs) && t@ == since + newest_first(gs))
}

/// What the summary prints from the finished `git log --since <since>
/// --pretty=format:%h|%ad|%s|%an|%cr --date=short`: a failure names git's
/// error; without commits just `since` and a line break; otherwise the
/// grouped commits.
pub fn run_summary(since: &str, output: ProcessOutput, today: &Day) -> (r: Result<String>)
    ensures
        summary_outcome(since@, output, day_view(*today), r),
{
    if !output.success {
        let mut m = owned("git log failed: ");
        let t = trim_str(output.stderr.as_str());
        m.append(t.as_str());
        return Err(GitXError::GitCommand(m));
    }
    let t = trim_str(output.stdout.as_str());
    if t.as_str().is_empty() {
        let mut r = owned(since);
        r.append("\n");
        return Ok(r);
    }
    let grouped = parse_git_log_output(output.stdout.as_str(), today);
    Ok(format_commit_summary(since, &grouped))
}

/// The arguments of the log read.
pub fn get_git_log_summary_args(since: &str) -> (r: Vec<String>)
    ensures
        r.deep_view() == seq!["log"@, "--since"@, since@, "--pretty=format:%h|%ad|%s|%an|%cr"@, "--date=short"@],
{
    let mut r: Vec<String> = Vec::new();
    r.push(owned("log"));
    r.push(owned("--since"));
    r.push(owned(since));
    r.push(owned("--pretty=format:%h|%ad|%s|%an|%cr"));
    r.push(owned("--date=short"));
    assert(r.deep_view() =~= seq!["log"@, "--since"@, since@, "--pretty=format:%h|%ad|%s|%an|%cr"@, "--date=short"@]);
    r
}

/// The summary command.
pub struct SummaryCommand;

impl Command for SummaryCommand {
    /// The date given, the finished log (see `run_summary`), and today.
    type Input = (String, ProcessOutput, Day);

    type Output = String;

    open spec fn executes(&self, input: (String, ProcessOutput, Day), r: Result<String>) -> bool {
        summary_outcome(input.0@, input.1, day_view(input.2), r)
    }

    fn execute(&self, input: (String, ProcessOutput, Day)) -> (r: Result<String>)
        ensures
            summary_outcome(input.0@, input.1, day_view(input.2), r),
    {
        let (since, output, today) = input;
        run_summary(since.as_str(), output, &today)
    }

    fn name(&self) -> (r: &'static str)
        ensures
            r@ == "summary"@,
    {
        "summary"
    }

    fn description(&self) -> (r: &'static str)
        ensures
            r@ == "Show a summary of commits since a given date"@,
    {
        "Show a summary of commits since a given date"
    }
}

} // verus!
