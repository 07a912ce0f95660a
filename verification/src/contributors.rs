//! Contributor statistics from `git log --format=%ae|%an|%ad --date=short`:
//! one entry per e-mail address with its commit count and the dates of its
//! first and last commit, the most active contributor first.
use vstd::prelude::*;
use crate::base::rank::{is_ranking, rank_desc, ranked_before};
use crate::base::tally::{firsts, occurrences, occurrence_sum, lemma_occurrence_sum_total, lemma_occurrences_bound, lemma_firsts_contains, lemma_firsts_distinct, lemma_firsts_push, position_of};
use crate::base::text::{lex_lt, lines, lines_of, owned, split, split_of, splitn, splitn_of, str_lt, trim, trim_str};
use crate::Result;
use crate::adapters::formatters::{medal, medal_of};
use crate::base::output::{fg_cyan, sgr_bold, sgr_dim, styled_as, styled_bold, styled_cyan, styled_dim};
use crate::base::text::{decimal, decimal_of, join, join_of};
use crate::commands::analysis::{lemma_total_prefix, stats_views, total_commits};

verus! {

/// What git-x reports of one contributor.
pub struct ContributorStats {
    pub name: String,
    pub email: String,
    pub commit_count: usize,
    pub first_commit: String,
    pub last_commit: String,
}

/// A contributor's statistics as plain values:
/// (name, e-mail, commit count, first date, last date).
pub type StatsView = (Seq<char>, Seq<char>, nat, Seq<char>, Seq<char>);

/// One commit: (e-mail, name, date).
pub type CommitRecord = (Seq<char>, Seq<char>, Seq<char>);

impl View for ContributorStats {
    type V = StatsView;

    open spec fn view(&self) -> StatsView {
        (self.name@, self.email@, self.commit_count as nat, self.first_commit@, self.last_commit@)
    }
}

/// The commit a line `email|name|date` stands for, its fields trimmed. With
/// `exact`, a line with more than three fields is no record; otherwise the
/// third field takes the rest of the line.
pub open spec fn commit_record(line: Seq<char>, exact: bool) -> Option<CommitRecord> {
    let parts = if exact {
        split(line, '|')
    } else {
        splitn(line, 3, '|')
    };
    if parts.len() == 3 {
        Some((trim(parts[0]), trim(parts[1]), trim(parts[2])))
    } else {
        None
    }
}

/// The commits that the lines stand for, in order.
pub open spec fn commit_records(ls: Seq<Seq<char>>, exact: bool) -> Seq<CommitRecord>
    decreases ls.len(),
{
    if ls.len() == 0 {
        Seq::empty()
    } else {
        let rest = commit_records(ls.drop_last(), exact);
        match commit_record(ls.last(), exact) {
            Some(r) => rest.push(r),
            None => rest,
        }
    }
}

/// The e-mail addresses of the commits.
pub open spec fn emails(recs: Seq<CommitRecord>) -> Seq<Seq<char>> {
    recs.map_values(|r: CommitRecord| r.0)
}

/// The name on the first commit made with e-mail `e`.
pub open spec fn first_name(recs: Seq<CommitRecord>, e: Seq<char>) -> Seq<char>
    decreases recs.len(),
{
    if recs.len() == 0 {
        Seq::empty()
    } else if emails(recs.drop_last()).contains(e) {
        first_name(recs.drop_last(), e)
    } else if recs.last().0 == e {
        recs.last().1
    } else {
        Seq::empty()
    }
}

/// The least date (in string order) of the commits made with e-mail `e`.
pub open spec fn earliest(recs: Seq<CommitRecord>, e: Seq<char>) -> Seq<char>
    decreases recs.len(),
{
    if recs.len() == 0 {
        Seq::empty()
    } else {
        let p = recs.drop_last();
        let r = recs.last();
        if r.0 != e {
            earliest(p, e)
        } else if !emails(p).contains(e) {
            r.2
        } else if lex_lt(r.2, earliest(p, e)) {
            r.2
        } else {
            earliest(p, e)
        }
    }
}

/// The greatest date (in string order) of the commits made with e-mail `e`.
pub open spec fn latest(recs: Seq<CommitRecord>, e: Seq<char>) -> Seq<char>
    decreases recs.len(),
{
    if recs.len() == 0 {
        Seq::empty()
    } else {
        let p = recs.drop_last();
        let r = recs.last();
        if r.0 != e {
            latest(p, e)
        } else if !emails(p).contains(e) {
            r.2
        } else if lex_lt(latest(p, e), r.2) {
            r.2
        } else {
            latest(p, e)
        }
    }
}

/// The statistics of the contributor with e-mail `e`.
pub open spec fn contributor_stat(recs: Seq<CommitRecord>, e: Seq<char>) -> StatsView {
    (first_name(recs, e), e, occurrences(emails(recs), e), earliest(recs, e), latest(recs, e))
}

/// The commit counts of the contributors, in the order in which their
/// e-mail addresses first appear.
pub open spec fn commit_counts(recs: Seq<CommitRecord>) -> Seq<i128> {
    let f = firsts(emails(recs));
    Seq::new(f.len(), |k: int| occurrences(emails(recs), f[k]) as i128)
}

/// `v` lists one entry per e-mail address of `recs`, ranked by descending
/// commit count; contributors with equal counts in the order in which they
/// first appear.
pub open spec fn ranked_contributors(recs: Seq<CommitRecord>, v: Seq<StatsView>) -> bool {
    let f = firsts(emails(recs));
    &&& v.len() == f.len()
    &&& exists|p: Seq<usize>|
        #![trigger is_ranking(commit_counts(recs), p)]
        is_ranking(commit_counts(recs), p) && forall|j: int|
            0 <= j < v.len() ==> #[trigger] v[j] == contributor_stat(recs, f[p[j] as int])
}

/// Adding one commit to the record changes only its contributor's statistics.
pub proof fn lemma_stat_push(recs: Seq<CommitRecord>, r: CommitRecord, e: Seq<char>)
    requires
        emails(recs).contains(e) || e == r.0,
    ensures
        emails(recs.push(r)) == emails(recs).push(r.0),
        e != r.0 ==> contributor_stat(recs.push(r), e) == contributor_stat(recs, e),
        e == r.0 && emails(recs).contains(e) ==> contributor_stat(recs.push(r), e) == (
            first_name(recs, e),
            e,
            occurrences(emails(recs), e) + 1,
            if lex_lt(r.2, earliest(recs, e)) {
                r.2
            } else {
                earliest(recs, e)
            },
            if lex_lt(latest(recs, e), r.2) {
                r.2
            } else {
                latest(recs, e)
            },
        ),
        e == r.0 && !emails(recs).contains(e) ==> contributor_stat(recs.push(r), e) == (
            r.1,
            e,
            1nat,
            r.2,
            r.2,
        ),
{
    let q = recs.push(r);
    assert(q.drop_last() =~= recs);
    assert(emails(q) =~= emails(recs).push(r.0));
    lemma_firsts_push(emails(recs), r.0);
    lemma_firsts_contains(emails(recs), e);
}

/// The commit a line stands for (see `commit_record`).
fn read_record(line: &str, exact: bool) -> (r: Option<(String, String, String)>)
    ensures
        match commit_record(line@, exact) {
            Some(c) => r matches Some(t) && t.0@ == c.0 && t.1@ == c.1 && t.2@ == c.2,
            None => r is None,
        },
{
    let parts = if exact {
        split_of(line, '|')
    } else {
        splitn_of(line, 3, '|')
    };
    if parts.len() == 3 {
        proof {
            assert(parts.deep_view()[0] == parts@[0]@);
            assert(parts.deep_view()[1] == parts@[1]@);
            assert(parts.deep_view()[2] == parts@[2]@);
        }
        Some((trim_str(parts[0].as_str()), trim_str(parts[1].as_str()), trim_str(parts[2].as_str())))
    } else {
        None
    }
}

/// A copy of a contributor's statistics.
fn copy_stats(s: &ContributorStats) -> (r: ContributorStats)
    ensures
        r@ == s@,
{
    ContributorStats {
        name: owned(s.name.as_str()),
        email: owned(s.email.as_str()),
        commit_count: s.commit_count,
        first_commit: owned(s.first_commit.as_str()),
        last_commit: owned(s.last_commit.as_str()),
    }
}

/// One entry per e-mail address of the commits in `ls`, in the order in
/// which the addresses first appear.
fn tally_contributors(ls: &Vec<String>, exact: bool) -> (r: Vec<ContributorStats>)
    ensures
        r.len() == firsts(emails(commit_records(ls.deep_view(), exact))).len(),
        forall|k: int|
            0 <= k < r.len() ==> #[trigger] r@[k]@ == contributor_stat(
                commit_records(ls.deep_view(), exact),
                firsts(emails(commit_records(ls.deep_view(), exact)))[k],
            ),
{
    let mut st: Vec<ContributorStats> = Vec::new();
    let mut keys: Vec<String> = Vec::new();
    for i in 0..ls.len()
        invariant
            keys.deep_view() == firsts(emails(commit_records(ls.deep_view().take(i as int), exact))),
            st.len() == keys.len(),
            forall|k: int|
                0 <= k < st.len() ==> #[trigger] st@[k]@ == contributor_stat(
                    commit_records(ls.deep_view().take(i as int), exact),
                    keys@[k]@,
                ),
            forall|k: int| 0 <= k < st.len() ==> #[trigger] st@[k].commit_count <= i,
    {
        let ghost pre = commit_records(ls.deep_view().take(i as int), exact);
        proof {
            assert(ls.deep_view().take(i + 1).drop_last() =~= ls.deep_view().take(i as int));
            assert(ls.deep_view()[i as int] == ls@[i as int]@);
        }
        match read_record(ls[i].as_str(), exact) {
            None => {},
            Some((email, name, date)) => {
                let ghost r: CommitRecord = (email@, name@, date@);
                let ghost post = pre.push(r);
                proof {
                    assert(commit_records(ls.deep_view().take(i + 1), exact) == post);
                    lemma_firsts_push(emails(pre), r.0);
                    lemma_firsts_distinct(emails(pre));
                    lemma_firsts_contains(emails(pre), r.0);
                    assert forall|k: int| 0 <= k < keys.len() implies emails(pre).contains(#[trigger] keys@[k]@) by {
                        assert(keys.deep_view()[k] == keys@[k]@);
                        lemma_firsts_contains(emails(pre), keys@[k]@);
                    }
                }
                match position_of(&keys, email.as_str()) {
                    Some(j) => {
                        let old = &st[j];
                        let first = if str_lt(date.as_str(), old.first_commit.as_str()) {
                            owned(date.as_str())
                        } else {
                            owned(old.first_commit.as_str())
                        };
                        let last = if str_lt(old.last_commit.as_str(), date.as_str()) {
                            owned(date.as_str())
                        } else {
                            owned(old.last_commit.as_str())
                        };
                        let updated = ContributorStats {
                            name: owned(old.name.as_str()),
                            email: owned(old.email.as_str()),
                            commit_count: old.commit_count + 1,
                            first_commit: first,
                            last_commit: last,
                        };
                        proof {
                            lemma_stat_push(pre, r, r.0);
                            assert(keys.deep_view()[j as int] == r.0);
                            assert(st@[j as int]@ == contributor_stat(pre, r.0));
                            assert(updated@ == contributor_stat(post, r.0));
                        }
                        st.set(j, updated);
                        proof {
                            assert forall|k: int| 0 <= k < st.len() implies #[trigger] st@[k]@ == contributor_stat(
                                post,
                                keys@[k]@,
                            ) by {
                                lemma_stat_push(pre, r, keys@[k]@);
                                if k != j {
                                    assert(keys.deep_view()[k] == keys@[k]@);
                                    assert(keys@[k]@ != r.0);
                                }
                            }
                        }
                    },
                    None => {
                        let fresh = ContributorStats {
                            name: owned(name.as_str()),
                            email: owned(email.as_str()),
                            commit_count: 1,
                            first_commit: owned(date.as_str()),
                            last_commit: owned(date.as_str()),
                        };
                        let ghost before = keys.deep_view();
                        proof {
                            lemma_stat_push(pre, r, r.0);
                        }
                        keys.push(email);
                        st.push(fresh);
                        proof {
                            assert(keys.deep_view() =~= before.push(r.0));
                            assert forall|k: int| 0 <= k < st.len() implies #[trigger] st@[k]@ == contributor_stat(
                                post,
                                keys@[k]@,
                            ) by {
                                if k < before.len() {
                                    assert(before[k] == keys@[k]@);
                                    assert(before.contains(keys@[k]@));
                                    lemma_stat_push(pre, r, keys@[k]@);
                                }
                            }
                        }
                    },
                }
            },
        }
    }
    assert(ls.deep_view().take(ls.len() as int) =~= ls.deep_view());
    st
}

/// The contributors of the commits in `output`, most commits first (see
/// `ranked_contributors`); `exact` as in `commit_record`.
pub fn contributors_of(output: &str, exact: bool) -> (r: Vec<ContributorStats>)
    ensures
        ranked_contributors(
            commit_records(lines(output@), exact),
            r@.map_values(|c: ContributorStats| c@),
        ),
{
    let ls = lines_of(output);
    let st = tally_contributors(&ls, exact);
    let ghost recs = commit_records(ls.deep_view(), exact);
    let ghost f = firsts(emails(recs));
    let mut keys: Vec<i128> = Vec::new();
    for k in 0..st.len()
        invariant
            f == firsts(emails(recs)),
            st.len() == f.len(),
            forall|m: int| 0 <= m < st.len() ==> #[trigger] st@[m]@ == contributor_stat(recs, f[m]),
            keys@ == commit_counts(recs).take(k as int),
    {
        proof {
            assert(st@[k as int]@ == contributor_stat(recs, f[k as int]));
            assert(commit_counts(recs)[k as int] == st@[k as int].commit_count as i128);
        }
        keys.push(st[k].commit_count as i128);
        proof {
            assert(keys@ =~= commit_counts(recs).take(k + 1));
        }
    }
    assert(keys@ =~= commit_counts(recs));
    let p = rank_desc(&keys);
    let mut out: Vec<ContributorStats> = Vec::new();
    for j in 0..p.len()
        invariant
            st.len() == f.len(),
            p.len() == f.len(),
            is_ranking(keys@, p@),
            forall|m: int| 0 <= m < st.len() ==> #[trigger] st@[m]@ == contributor_stat(recs, f[m]),
            out.len() == j,
            forall|m: int| 0 <= m < j ==> #[trigger] out@[m]@ == contributor_stat(recs, f[p@[m] as int]),
    {
        assert(p@[j as int] < keys.len());
        out.push(copy_stats(&st[p[j]]));
    }
    let ghost v = out@.map_values(|c: ContributorStats| c@);
    assert forall|m: int| 0 <= m < v.len() implies #[trigger] v[m] == contributor_stat(recs, f[p@[m] as int]) by {
        assert(v[m] == out@[m]@);
    }
    assert(is_ranking(commit_counts(recs), p@));
    out
}

/// The contributors in the output of `git log --all --format=%ae|%an|%ad
/// --date=short`, most commits first. Lines without three fields are
/// skipped.
pub fn parse_contributors(output: &str) -> (r: Result<Vec<ContributorStats>>)
    ensures
        r matches Ok(v) && ranked_contributors(
            commit_records(lines(output@), false),
            v@.map_values(|c: ContributorStats| c@),
        ),
{
    Ok(contributors_of(output, false))
}

// ---------------------------------------------------------------------------
// Laws
// ---------------------------------------------------------------------------

/// No string comes before itself.
proof fn lemma_lex_irreflexive(a: Seq<char>)
    ensures
        !lex_lt(a, a),
    decreases a.len(),
{
    if a.len() > 0 {
        lemma_lex_irreflexive(a.drop_first());
    }
}

/// The contributors are listed most commits first: a contributor listed
/// before another has at least as many commits.
pub proof fn law_most_commits_first(recs: Seq<CommitRecord>, v: Seq<StatsView>)
    requires
        ranked_contributors(recs, v),
        recs.len() <= usize::MAX,
    ensures
        forall|i: int, j: int| 0 <= i < j < v.len() ==> (#[trigger] v[i]).2 >= (#[trigger] v[j]).2,
{
    let f = firsts(emails(recs));
    let keys = commit_counts(recs);
    let p = choose|p: Seq<usize>|
        #![trigger is_ranking(commit_counts(recs), p)]
        is_ranking(commit_counts(recs), p) && forall|j: int|
            0 <= j < v.len() ==> #[trigger] v[j] == contributor_stat(recs, f[p[j] as int]);
    assert forall|i: int, j: int| 0 <= i < j < v.len() implies (#[trigger] v[i]).2 >= (#[trigger] v[j]).2 by {
        assert(ranked_before(keys, p[i] as int, p[j] as int));
        assert(p[i] < f.len() && p[j] < f.len());
        lemma_occurrences_bound(emails(recs), f[p[i] as int]);
        lemma_occurrences_bound(emails(recs), f[p[j] as int]);
        assert(v[i] == contributor_stat(recs, f[p[i] as int]));
        assert(v[j] == contributor_stat(recs, f[p[j] as int]));
    }
}

/// The contributors are exactly the e-mail addresses of the commits, each
/// listed once, with its statistics: the name on its first commit, its
/// number of commits, and its first and last commit dates.
pub proof fn law_one_entry_per_contributor(recs: Seq<CommitRecord>, v: Seq<StatsView>)
    requires
        ranked_contributors(recs, v),
        v.len() <= usize::MAX,
    ensures
        forall|i: int| 0 <= i < v.len() ==> #[trigger] v[i] == contributor_stat(recs, v[i].1),
        forall|i: int| 0 <= i < v.len() ==> emails(recs).contains(#[trigger] v[i].1),
        forall|e: Seq<char>| #[trigger] emails(recs).contains(e) ==> exists|i: int| 0 <= i < v.len() && #[trigger] v[i].1 == e,
        forall|i: int, j: int| 0 <= i < j < v.len() ==> #[trigger] v[i].1 != #[trigger] v[j].1,
{
    let f = firsts(emails(recs));
    let keys = commit_counts(recs);
    let p = choose|p: Seq<usize>|
        #![trigger is_ranking(commit_counts(recs), p)]
        is_ranking(commit_counts(recs), p) && forall|j: int|
            0 <= j < v.len() ==> #[trigger] v[j] == contributor_stat(recs, f[p[j] as int]);
    lemma_firsts_distinct(emails(recs));
    assert forall|i: int| 0 <= i < v.len() implies emails(recs).contains(#[trigger] v[i].1) by {
        assert(p[i] < f.len());
        assert(v[i] == contributor_stat(recs, f[p[i] as int]));
        assert(f.contains(f[p[i] as int]));
        lemma_firsts_contains(emails(recs), f[p[i] as int]);
    }
    assert forall|i: int| 0 <= i < v.len() implies #[trigger] v[i] == contributor_stat(recs, v[i].1) by {
        assert(v[i] == contributor_stat(recs, f[p[i] as int]));
    }
    assert forall|e: Seq<char>| #[trigger] emails(recs).contains(e) implies exists|i: int|
        0 <= i < v.len() && #[trigger] v[i].1 == e by {
        lemma_firsts_contains(emails(recs), e);
        let k = choose|k: int| 0 <= k < f.len() && f[k] == e;
        assert(p.contains(k as usize));
        let i = choose|i: int| 0 <= i < p.len() && p[i] == k as usize;
        assert(v[i] == contributor_stat(recs, f[p[i] as int]));
        assert(v[i].1 == e);
    }
    assert forall|i: int, j: int| 0 <= i < j < v.len() implies #[trigger] v[i].1 != #[trigger] v[j].1 by {
        assert(ranked_before(keys, p[i] as int, p[j] as int));
        assert(p[i] < f.len() && p[j] < f.len());
        assert(v[i] == contributor_stat(recs, f[p[i] as int]));
        assert(v[j] == contributor_stat(recs, f[p[j] as int]));
        if p[i] < p[j] {
            assert(f[p[i] as int] != f[p[j] as int]);
        } else {
            assert(p[i] != p[j]);
            assert(f[p[j] as int] != f[p[i] as int]);
        }
    }
}

/// Every commit is counted for exactly one contributor: the commit counts
/// of the distinct e-mail addresses add up to the number of commits.
pub proof fn law_every_commit_counted_once(recs: Seq<CommitRecord>)
    ensures
        occurrence_sum(emails(recs), firsts(emails(recs))) == recs.len(),
{
    lemma_occurrence_sum_total(emails(recs));
}

/// A contributor's first commit date never comes after the last one.
pub proof fn law_first_commit_not_after_last(recs: Seq<CommitRecord>, e: Seq<char>)
    ensures
        !lex_lt(latest(recs, e), earliest(recs, e)),
    decreases recs.len(),
{
    if recs.len() > 0 {
        let p = recs.drop_last();
        let r = recs.last();
        law_first_commit_not_after_last(p, e);
        lemma_lex_irreflexive(r.2);
    }
}

/// The pieces of a contributor's lines as shown: the name in bold, the
/// commit count in cyan, the e-mail and both dates dim.
pub open spec fn contributor_pieces(ps: Seq<Seq<char>>, c: StatsView) -> bool {
    &&& ps.len() == 5
    &&& styled_as(ps[0], sgr_bold(), c.0)
    &&& styled_as(ps[1], fg_cyan(), decimal(c.2))
    &&& styled_as(ps[2], sgr_dim(), c.1)
    &&& styled_as(ps[3], sgr_dim(), c.3)
    &&& styled_as(ps[4], sgr_dim(), c.4)
}

/// The lines of the `i`-th of `n` contributors from its pieces and its share
/// `pct` in percent; an empty line separates it from the next.
pub open spec fn contributor_lines(i: int, n: int, ps: Seq<Seq<char>>, pct: Seq<char>) -> Seq<Seq<char>> {
    seq![
        medal(i) + " "@ + ps[0] + " "@ + ps[1] + " commits ("@ + pct + "%)"@,
        "   📧 "@ + ps[2] + " | 📅 "@ + ps[3] + " to "@ + ps[4],
    ] + if i < n - 1 {
        seq![Seq::<char>::empty()]
    } else {
        Seq::<Seq<char>>::empty()
    }
}

/// The lines of the first `k` of `n` contributors.
pub open spec fn contributors_lines(pieces: Seq<Seq<Seq<char>>>, pcts: Seq<Seq<char>>, k: nat, n: int) -> Seq<Seq<char>>
    decreases k,
{
    if k == 0 {
        Seq::empty()
    } else {
        contributors_lines(pieces, pcts, (k - 1) as nat, n) + contributor_lines(k - 1, n, pieces[k - 1], pcts[k - 1])
    }
}

/// The contributors output built from the header's pieces `h0` (the icon,
/// bold) and `h1` (the total, bold) and each contributor's pieces.
pub open spec fn contributors_output_from(
    r: Seq<char>,
    v: Seq<StatsView>,
    pcts: Seq<Seq<char>>,
    h0: Seq<char>,
    h1: Seq<char>,
    pieces: Seq<Seq<Seq<char>>>,
) -> bool {
    &&& styled_as(h0, sgr_bold(), "📊"@)
    &&& styled_as(h1, sgr_bold(), decimal(total_commits(v)))
    &&& pieces.len() == v.len()
    &&& forall|i: int| 0 <= i < v.len() ==> contributor_pieces(#[trigger] pieces[i], v[i])
    &&& r == join(
        seq![h0 + " Repository Contributors ("@ + h1 + " total commits):\n"@] + contributors_lines(pieces, pcts, v.len(), v.len() as int),
        "\n"@,
    )
}

/// The contributors output: a header with the total of commits, then per
/// contributor its medal, name, commit count and share, its e-mail and the
/// dates of its first and last commit.
pub open spec fn contributors_output(r: Seq<char>, v: Seq<StatsView>, pcts: Seq<Seq<char>>) -> bool {
    exists|h0: Seq<char>, h1: Seq<char>, pieces: Seq<Seq<Seq<char>>>|
        contributors_output_from(r, v, pcts, h0, h1, pieces)
}

/// The contributors output (see `contributors_output`); `percentages[i]` is
/// the share of the i-th contributor in percent, rendered by the caller with
/// one decimal.
pub fn format_contributors_output(contributors: &Vec<ContributorStats>, percentages: &Vec<String>) -> (r: String)
    requires
        percentages.len() == contributors.len(),
        total_commits(stats_views(contributors@)) <= u64::MAX,
    ensures
        contributors_output(r@, stats_views(contributors@), percentages.deep_view()),
{
    let ghost v = stats_views(contributors@);
    let ghost pcts = percentages.deep_view();
    let n = contributors.len();
    let mut total: u64 = 0;
    for i in 0..n
        invariant
            n == contributors.len(),
            v == stats_views(contributors@),
            total == total_commits(v.take(i as int)),
            total_commits(v) <= u64::MAX,
    {
        proof {
            assert(v.take(i + 1).drop_last() =~= v.take(i as int));
            assert(v[i as int] == contributors@[i as int]@);
            lemma_total_prefix(v, i + 1);
        }
        total = total + contributors[i].commit_count as u64;
    }
    assert(v.take(n as int) =~= v);
    let h0 = styled_bold("📊");
    let h1 = styled_bold(decimal_of(total).as_str());
    let mut head = owned(h0.as_str());
    head.append(" Repository Contributors (");
    head.append(h1.as_str());
    head.append(" total commits):\n");
    let mut out: Vec<String> = Vec::new();
    out.push(head);
    let ghost top = out.deep_view();
    let ghost mut pieces: Seq<Seq<Seq<char>>> = Seq::empty();
    for i in 0..n
        invariant
            n == contributors.len(),
            n == percentages.len(),
            v == stats_views(contributors@),
            pcts == percentages.deep_view(),
            pieces.len() == i,
            forall|k: int| 0 <= k < i ==> contributor_pieces(#[trigger] pieces[k], v[k]),
            out.deep_view() == top + contributors_lines(pieces, pcts, i as nat, n as int),
    {
        let c = &contributors[i];
        proof {
            assert(v[i as int] == c@);
            assert(pcts[i as int] == percentages@[i as int]@);
        }
        let p0 = styled_bold(c.name.as_str());
        let p1 = styled_cyan(decimal_of(c.commit_count as u64).as_str());
        let p2 = styled_dim(c.email.as_str());
        let p3 = styled_dim(c.first_commit.as_str());
        let p4 = styled_dim(c.last_commit.as_str());
        let ghost ps = seq![p0@, p1@, p2@, p3@, p4@];
        let ghost before = out.deep_view();
        let ghost old_pieces = pieces;
        let mut l1 = owned(medal_of(i));
        l1.append(" ");
        l1.append(p0.as_str());
        l1.append(" ");
        l1.append(p1.as_str());
        l1.append(" commits (");
        l1.append(percentages[i].as_str());
        l1.append("%)");
        out.push(l1);
        let mut l2 = owned("   📧 ");
        l2.append(p2.as_str());
        l2.append(" | 📅 ");
        l2.append(p3.as_str());
        l2.append(" to ");
        l2.append(p4.as_str());
        out.push(l2);
        if i + 1 < n {
            out.push(String::new());
        }
        proof {
            pieces = pieces.push(ps);
            assert(contributor_pieces(pieces[i as int], v[i as int]));
            assert forall|k: int| 0 <= k < i + 1 implies contributor_pieces(#[trigger] pieces[k], v[k]) by {
                if k < i {
                    assert(pieces[k] == old_pieces[k]);
                }
            }
            assert(contributors_lines(pieces, pcts, i as nat, n as int) =~= contributors_lines(old_pieces, pcts, i as nat, n as int)) by {
                lemma_lines_prefix(old_pieces, pieces, pcts, i as nat, n as int);
            }
            assert(out.deep_view() =~= before + contributor_lines(i as int, n as int, ps, pcts[i as int]));
        }
    }
    let r = join_of(&out, "\n");
    proof {
        assert(styled_as(h0@, sgr_bold(), "📊"@));
        assert(styled_as(h1@, sgr_bold(), decimal(total_commits(v))));
        assert(out.deep_view() =~= seq![h0@ + " Repository Contributors ("@ + h1@ + " total commits):\n"@]
            + contributors_lines(pieces, pcts, v.len(), v.len() as int));
        assert(contributors_output_from(r@, v, pcts, h0@, h1@, pieces));
    }
    r
}

/// The lines of the first `k` contributors depend on their pieces alone.
proof fn lemma_lines_prefix(
    a: Seq<Seq<Seq<char>>>,
    b: Seq<Seq<Seq<char>>>,
    pcts: Seq<Seq<char>>,
    k: nat,
    n: int,
)
    requires
        k <= a.len(),
        k <= b.len(),
        forall|i: int| 0 <= i < k ==> a[i] == b[i],
    ensures
        contributors_lines(a, pcts, k, n) == contributors_lines(b, pcts, k, n),
    decreases k,
{
    if k > 0 {
        lemma_lines_prefix(a, b, pcts, (k - 1) as nat, n);
    }
}

} // verus!
