//! Technical-debt indicators read from git's output: large commits, file
//! hotspots, long-lived branches, code churn and binary files.
use vstd::prelude::*;
use crate::base::rank::{is_ranking, ranked_before, rank_desc};
use crate::base::tally::{
    count_keys, firsts, lemma_firsts_contains, lemma_firsts_distinct, lemma_firsts_push, lemma_total_push, lemma_total_zero, occurrences,
    position_of, total_under,
};
use crate::domain::branch_manager::{is_protected, is_protected_branch};
use crate::base::text::{
    chars_of, contains, contains_char, str_eq, has_char, is_digit, is_numeric_char, numeric_char, take_chars, ends_with, has_prefix, has_suffix, lines, lines_of, owned, parse_u32, parse_u32_of,
    splitn, splitn_of, starts_with, str_contains, trim, trim_str, words, words_of,
};

verus! {

/// A commit that changed many files.
pub struct LargeCommit {
    pub hash: String,
    pub message: String,
    pub files_changed: usize,
}

/// A branch with the age of its last commit.
pub struct BranchInfo {
    pub name: String,
    pub age: String,
    pub author: String,
    pub days_old: u32,
}

/// A file with the lines added to and deleted from it.
pub struct ChurnFile {
    pub path: String,
    pub additions: u32,
    pub deletions: u32,
    pub total_changes: u32,
}

// ---------------------------------------------------------------------------
// Relative dates
// ---------------------------------------------------------------------------

/// The number in front of a relative date such as `3 months ago`.
pub open spec fn leading_number(relative: Seq<char>) -> Option<nat> {
    if words(relative).len() > 0 {
        parse_u32(words(relative)[0])
    } else {
        None
    }
}

/// The days that a relative date (`committerdate:relative`) stands for, as
/// git-x estimates them: a year is 365 days, a month 30, a week 7; without a
/// number in front, 90 days for months, 14 for weeks and 7 for days; hours
/// and minutes count as 0.
pub open spec fn estimated_days(relative: Seq<char>) -> nat {
    if contains(relative, "year"@) {
        365
    } else if contains(relative, "month"@) {
        match leading_number(relative) {
            Some(m) => m * 30,
            None => 90,
        }
    } else if contains(relative, "week"@) {
        match leading_number(relative) {
            Some(w) => w * 7,
            None => 14,
        }
    } else if contains(relative, "day"@) {
        match leading_number(relative) {
            Some(d) => d,
            None => 7,
        }
    } else {
        0
    }
}

/// The estimate fits in a `u32`.
pub open spec fn days_fit(relative: Seq<char>) -> bool {
    estimated_days(relative) <= u32::MAX
}

/// The number in front of `relative`, if it is a `u32`.
fn leading_number_of(relative: &str) -> (r: Option<u32>)
    ensures
        r matches Some(x) ==> leading_number(relative@) == Some(x as nat),
        r is None ==> leading_number(relative@) is None,
{
    let ws = words_of(relative);
    if ws.len() > 0 {
        assert(ws.deep_view()[0] == ws@[0]@);
        parse_u32_of(ws[0].as_str())
    } else {
        None
    }
}

/// Estimates the age in days of a relative date (see `estimated_days`).
pub fn estimate_days_from_relative_date(relative: &str) -> (r: u32)
    requires
        days_fit(relative@),
    ensures
        r == estimated_days(relative@),
{
    if str_contains(relative, "year") {
        365
    } else if str_contains(relative, "month") {
        match leading_number_of(relative) {
            Some(m) => m * 30,
            None => 90,
        }
    } else if str_contains(relative, "week") {
        match leading_number_of(relative) {
            Some(w) => w * 7,
            None => 14,
        }
    } else if str_contains(relative, "day") {
        match leading_number_of(relative) {
            Some(d) => d,
            None => 7,
        }
    } else {
        0
    }
}

/// Whether the estimate of `relative` fits in a `u32` (`days_fit`): the
/// check to make before `estimate_days_from_relative_date`.
pub fn days_fit_of(relative: &str) -> (r: bool)
    ensures
        r == days_fit(relative@),
{
    if str_contains(relative, "year") {
        true
    } else if str_contains(relative, "month") {
        match leading_number_of(relative) {
            Some(m) => (m as u64) * 30 <= 0xffff_ffffu64,
            None => true,
        }
    } else if str_contains(relative, "week") {
        match leading_number_of(relative) {
            Some(w) => (w as u64) * 7 <= 0xffff_ffffu64,
            None => true,
        }
    } else {
        true
    }
}

// ---------------------------------------------------------------------------
// Binary files
// ---------------------------------------------------------------------------

/// A file name with the extension of a binary format.
pub open spec fn is_binary_name(f: Seq<char>) -> bool {
    ||| has_suffix(f, ".jpg"@) || has_suffix(f, ".jpeg"@) || has_suffix(f, ".png"@)
    ||| has_suffix(f, ".gif"@) || has_suffix(f, ".bmp"@) || has_suffix(f, ".ico"@)
    ||| has_suffix(f, ".svg"@) || has_suffix(f, ".mp4"@) || has_suffix(f, ".avi"@)
    ||| has_suffix(f, ".mov"@) || has_suffix(f, ".wmv"@) || has_suffix(f, ".flv"@)
    ||| has_suffix(f, ".webm"@) || has_suffix(f, ".mp3"@) || has_suffix(f, ".wav"@)
    ||| has_suffix(f, ".flac"@) || has_suffix(f, ".aac"@) || has_suffix(f, ".ogg"@)
    ||| has_suffix(f, ".zip"@) || has_suffix(f, ".tar"@) || has_suffix(f, ".gz"@)
    ||| has_suffix(f, ".7z"@) || has_suffix(f, ".rar"@) || has_suffix(f, ".exe"@)
    ||| has_suffix(f, ".dll"@) || has_suffix(f, ".so"@) || has_suffix(f, ".dylib"@)
    ||| has_suffix(f, ".pdf"@) || has_suffix(f, ".doc"@) || has_suffix(f, ".docx"@)
    ||| has_suffix(f, ".xls"@) || has_suffix(f, ".xlsx"@) || has_suffix(f, ".ppt"@)
    ||| has_suffix(f, ".pptx"@) || has_suffix(f, ".bin"@) || has_suffix(f, ".dat"@)
    ||| has_suffix(f, ".db"@) || has_suffix(f, ".sqlite"@) || has_suffix(f, ".sqlite3"@)
}

/// Whether `f` has the extension of a binary format.
pub fn has_binary_extension(f: &str) -> (r: bool)
    ensures
        r == is_binary_name(f@),
{
    ends_with(f, ".jpg") || ends_with(f, ".jpeg") || ends_with(f, ".png") || ends_with(f, ".gif")
        || ends_with(f, ".bmp") || ends_with(f, ".ico") || ends_with(f, ".svg") || ends_with(f, ".mp4")
        || ends_with(f, ".avi") || ends_with(f, ".mov") || ends_with(f, ".wmv") || ends_with(f, ".flv")
        || ends_with(f, ".webm") || ends_with(f, ".mp3") || ends_with(f, ".wav") || ends_with(f, ".flac")
        || ends_with(f, ".aac") || ends_with(f, ".ogg") || ends_with(f, ".zip") || ends_with(f, ".tar")
        || ends_with(f, ".gz") || ends_with(f, ".7z") || ends_with(f, ".rar") || ends_with(f, ".exe")
        || ends_with(f, ".dll") || ends_with(f, ".so") || ends_with(f, ".dylib") || ends_with(f, ".pdf")
        || ends_with(f, ".doc") || ends_with(f, ".docx") || ends_with(f, ".xls") || ends_with(f, ".xlsx")
        || ends_with(f, ".ppt") || ends_with(f, ".pptx") || ends_with(f, ".bin") || ends_with(f, ".dat")
        || ends_with(f, ".db") || ends_with(f, ".sqlite") || ends_with(f, ".sqlite3")
}

/// The trimmed lines of `ls` that name binary files.
pub open spec fn binary_files(ls: Seq<Seq<char>>) -> Seq<Seq<char>>
    decreases ls.len(),
{
    if ls.len() == 0 {
        Seq::empty()
    } else {
        let rest = binary_files(ls.drop_last());
        if is_binary_name(trim(ls.last())) {
            rest.push(trim(ls.last()))
        } else {
            rest
        }
    }
}

/// A listed file counts as binary exactly when its trimmed name ends in one
/// of the extensions .jpg, .jpeg, .png, .gif, .bmp, .ico, .svg, .mp4, .avi,
/// .mov, .wmv, .flv, .webm, .mp3, .wav, .flac, .aac, .ogg, .zip, .tar, .gz,
/// .7z, .rar, .exe, .dll, .so, .dylib, .pdf, .doc, .docx, .xls, .xlsx, .ppt,
/// .pptx, .bin, .dat, .db, .sqlite, .sqlite3: every such file is reported,
/// and every reported file is one of them.
pub proof fn law_binary_files_by_extension(ls: Seq<Seq<char>>)
    ensures
        forall|i: int|
            0 <= i < ls.len() && ({
                let f = #[trigger] trim(ls[i]);
                has_suffix(f, ".jpg"@) || has_suffix(f, ".jpeg"@) || has_suffix(f, ".png"@) || has_suffix(f, ".gif"@)
                || has_suffix(f, ".bmp"@) || has_suffix(f, ".ico"@) || has_suffix(f, ".svg"@) || has_suffix(f, ".mp4"@)
                || has_suffix(f, ".avi"@) || has_suffix(f, ".mov"@) || has_suffix(f, ".wmv"@) || has_suffix(f, ".flv"@)
                || has_suffix(f, ".webm"@) || has_suffix(f, ".mp3"@) || has_suffix(f, ".wav"@) || has_suffix(f, ".flac"@)
                || has_suffix(f, ".aac"@) || has_suffix(f, ".ogg"@) || has_suffix(f, ".zip"@) || has_suffix(f, ".tar"@)
                || has_suffix(f, ".gz"@) || has_suffix(f, ".7z"@) || has_suffix(f, ".rar"@) || has_suffix(f, ".exe"@)
                || has_suffix(f, ".dll"@) || has_suffix(f, ".so"@) || has_suffix(f, ".dylib"@) || has_suffix(f, ".pdf"@)
                || has_suffix(f, ".doc"@) || has_suffix(f, ".docx"@) || has_suffix(f, ".xls"@) || has_suffix(f, ".xlsx"@)
                || has_suffix(f, ".ppt"@) || has_suffix(f, ".pptx"@) || has_suffix(f, ".bin"@) || has_suffix(f, ".dat"@)
                || has_suffix(f, ".db"@) || has_suffix(f, ".sqlite"@) || has_suffix(f, ".sqlite3"@)
            }) ==> binary_files(ls).contains(trim(ls[i])),
        forall|j: int|
            0 <= j < binary_files(ls).len() ==> ({
                let f = #[trigger] binary_files(ls)[j];
                has_suffix(f, ".jpg"@) || has_suffix(f, ".jpeg"@) || has_suffix(f, ".png"@) || has_suffix(f, ".gif"@)
                || has_suffix(f, ".bmp"@) || has_suffix(f, ".ico"@) || has_suffix(f, ".svg"@) || has_suffix(f, ".mp4"@)
                || has_suffix(f, ".avi"@) || has_suffix(f, ".mov"@) || has_suffix(f, ".wmv"@) || has_suffix(f, ".flv"@)
                || has_suffix(f, ".webm"@) || has_suffix(f, ".mp3"@) || has_suffix(f, ".wav"@) || has_suffix(f, ".flac"@)
                || has_suffix(f, ".aac"@) || has_suffix(f, ".ogg"@) || has_suffix(f, ".zip"@) || has_suffix(f, ".tar"@)
                || has_suffix(f, ".gz"@) || has_suffix(f, ".7z"@) || has_suffix(f, ".rar"@) || has_suffix(f, ".exe"@)
                || has_suffix(f, ".dll"@) || has_suffix(f, ".so"@) || has_suffix(f, ".dylib"@) || has_suffix(f, ".pdf"@)
                || has_suffix(f, ".doc"@) || has_suffix(f, ".docx"@) || has_suffix(f, ".xls"@) || has_suffix(f, ".xlsx"@)
                || has_suffix(f, ".ppt"@) || has_suffix(f, ".pptx"@) || has_suffix(f, ".bin"@) || has_suffix(f, ".dat"@)
                || has_suffix(f, ".db"@) || has_suffix(f, ".sqlite"@) || has_suffix(f, ".sqlite3"@)
            }),
    decreases ls.len(),
{
    if ls.len() > 0 {
        let q = ls.drop_last();
        law_binary_files_by_extension(q);
        let b0 = binary_files(q);
        let b = binary_files(ls);
        assert forall|i: int|
            0 <= i < ls.len() && ({
                let f = #[trigger] trim(ls[i]);
                has_suffix(f, ".jpg"@) || has_suffix(f, ".jpeg"@) || has_suffix(f, ".png"@) || has_suffix(f, ".gif"@)
                || has_suffix(f, ".bmp"@) || has_suffix(f, ".ico"@) || has_suffix(f, ".svg"@) || has_suffix(f, ".mp4"@)
                || has_suffix(f, ".avi"@) || has_suffix(f, ".mov"@) || has_suffix(f, ".wmv"@) || has_suffix(f, ".flv"@)
                || has_suffix(f, ".webm"@) || has_suffix(f, ".mp3"@) || has_suffix(f, ".wav"@) || has_suffix(f, ".flac"@)
                || has_suffix(f, ".aac"@) || has_suffix(f, ".ogg"@) || has_suffix(f, ".zip"@) || has_suffix(f, ".tar"@)
                || has_suffix(f, ".gz"@) || has_suffix(f, ".7z"@) || has_suffix(f, ".rar"@) || has_suffix(f, ".exe"@)
                || has_suffix(f, ".dll"@) || has_suffix(f, ".so"@) || has_suffix(f, ".dylib"@) || has_suffix(f, ".pdf"@)
                || has_suffix(f, ".doc"@) || has_suffix(f, ".docx"@) || has_suffix(f, ".xls"@) || has_suffix(f, ".xlsx"@)
                || has_suffix(f, ".ppt"@) || has_suffix(f, ".pptx"@) || has_suffix(f, ".bin"@) || has_suffix(f, ".dat"@)
                || has_suffix(f, ".db"@) || has_suffix(f, ".sqlite"@) || has_suffix(f, ".sqlite3"@)
            }) implies binary_files(ls).contains(trim(ls[i])) by {
            if i < q.len() {
                assert(q[i] == ls[i]);
                let k = choose|k: int| 0 <= k < b0.len() && b0[k] == trim(q[i]);
                assert(b[k] == b0[k]);
            } else {
                assert(b[b.len() - 1] == trim(ls[i]));
            }
        }
        assert forall|j: int| 0 <= j < b.len() implies ({
            let f = #[trigger] b[j];
            has_suffix(f, ".jpg"@) || has_suffix(f, ".jpeg"@) || has_suffix(f, ".png"@) || has_suffix(f, ".gif"@)
                || has_suffix(f, ".bmp"@) || has_suffix(f, ".ico"@) || has_suffix(f, ".svg"@) || has_suffix(f, ".mp4"@)
                || has_suffix(f, ".avi"@) || has_suffix(f, ".mov"@) || has_suffix(f, ".wmv"@) || has_suffix(f, ".flv"@)
                || has_suffix(f, ".webm"@) || has_suffix(f, ".mp3"@) || has_suffix(f, ".wav"@) || has_suffix(f, ".flac"@)
                || has_suffix(f, ".aac"@) || has_suffix(f, ".ogg"@) || has_suffix(f, ".zip"@) || has_suffix(f, ".tar"@)
                || has_suffix(f, ".gz"@) || has_suffix(f, ".7z"@) || has_suffix(f, ".rar"@) || has_suffix(f, ".exe"@)
                || has_suffix(f, ".dll"@) || has_suffix(f, ".so"@) || has_suffix(f, ".dylib"@) || has_suffix(f, ".pdf"@)
                || has_suffix(f, ".doc"@) || has_suffix(f, ".docx"@) || has_suffix(f, ".xls"@) || has_suffix(f, ".xlsx"@)
                || has_suffix(f, ".ppt"@) || has_suffix(f, ".pptx"@) || has_suffix(f, ".bin"@) || has_suffix(f, ".dat"@)
                || has_suffix(f, ".db"@) || has_suffix(f, ".sqlite"@) || has_suffix(f, ".sqlite3"@)
        }) by {
            if j < b0.len() {
                assert(b[j] == b0[j]);
            }
        }
    }
}

/// The files listed in `output` (one per line, as `git ls-files` prints
/// them) whose extension is that of a binary format, trimmed, in order.
pub fn identify_binary_files(output: &str) -> (r: Vec<String>)
    ensures
        r.deep_view() == binary_files(lines(output@)),
{
    let ls = lines_of(output);
    let mut r: Vec<String> = Vec::new();
    for i in 0..ls.len()
        invariant
            r.deep_view() == binary_files(ls.deep_view().take(i as int)),
    {
        proof {
            assert(ls.deep_view().take(i + 1).drop_last() =~= ls.deep_view().take(i as int));
            assert(ls.deep_view()[i as int] == ls@[i as int]@);
        }
        let f = trim_str(ls[i].as_str());
        if has_binary_extension(f.as_str()) {
            let ghost before = r.deep_view();
            r.push(f);
            assert(r.deep_view() =~= before.push(trim(ls@[i as int]@)));
        }
    }
    assert(ls.deep_view().take(ls.len() as int) =~= ls.deep_view());
    r
}

// ---------------------------------------------------------------------------
// File hotspots
// ---------------------------------------------------------------------------

/// The file names in `ls` that count as modifications: trimmed lines that
/// are not empty and do not start with a dot.
pub open spec fn modified_files(ls: Seq<Seq<char>>) -> Seq<Seq<char>>
    decreases ls.len(),
{
    if ls.len() == 0 {
        Seq::empty()
    } else {
        let rest = modified_files(ls.drop_last());
        let f = trim(ls.last());
        if f.len() > 0 && !has_prefix(f, "."@) {
            rest.push(f)
        } else {
            rest
        }
    }
}

/// Each file's number of modifications, as ranking keys, the files in the
/// order in which they first appear.
pub open spec fn modification_counts(files: Seq<Seq<char>>) -> Seq<i128> {
    let f = firsts(files);
    Seq::new(f.len(), |k: int| occurrences(files, f[k]) as i128)
}

/// `v` lists the files modified more than five times, as (file, count), most
/// modified first (files with equal counts in the order in which they first
/// appear).
pub open spec fn hotspots(files: Seq<Seq<char>>, v: Seq<(Seq<char>, nat)>) -> bool {
    let f = firsts(files);
    let c = modification_counts(files);
    exists|p: Seq<usize>|
        #![trigger is_ranking(c, p)]
        is_ranking(c, p) && v.len() <= f.len() && (forall|j: int|
            0 <= j < v.len() ==> #[trigger] v[j] == (f[p[j] as int], occurrences(files, f[p[j] as int]))
                && c[p[j] as int] > 5) && (forall|j: int| v.len() <= j < f.len() ==> c[#[trigger] p[j] as int] <= 5)
}

/// An entry (file, count) of the hotspots with more than five changes.
pub open spec fn hot_entry(e: (String, usize), name: Seq<char>, count: usize) -> bool {
    e.0@ == name && e.1 == count && count > 5
}

/// How often each file was modified, from `git log --pretty=format:
/// --name-only` (see `hotspots`).
#[verifier::spinoff_prover]
pub fn analyze_file_modification_frequency(output: &str) -> (r: Vec<(String, usize)>)
    ensures
        hotspots(modified_files(lines(output@)), r@.map_values(|e: (String, usize)| (e.0@, e.1 as nat))),
{
    let ls = lines_of(output);
    let mut files: Vec<String> = Vec::new();
    for i in 0..ls.len()
        invariant
            files.deep_view() == modified_files(ls.deep_view().take(i as int)),
    {
        proof {
            assert(ls.deep_view().take(i + 1).drop_last() =~= ls.deep_view().take(i as int));
            assert(ls.deep_view()[i as int] == ls@[i as int]@);
        }
        let f = trim_str(ls[i].as_str());
        if !f.as_str().is_empty() && !starts_with(f.as_str(), ".") {
            let ghost before = files.deep_view();
            files.push(f);
            assert(files.deep_view() =~= before.push(trim(ls@[i as int]@)));
        }
    }
    assert(ls.deep_view().take(ls.len() as int) =~= ls.deep_view());
    let ghost fs = files.deep_view();
    let (names, counts) = count_keys(&files);
    let mut keys: Vec<i128> = Vec::new();
    for k in 0..counts.len()
        invariant
            names.deep_view() == firsts(fs),
            counts.len() == names.len(),
            forall|i: int| 0 <= i < counts.len() ==> counts@[i] == occurrences(fs, #[trigger] names@[i]@),
            keys@ == modification_counts(fs).take(k as int),
    {
        proof {
            assert(names.deep_view()[k as int] == names@[k as int]@);
            assert(counts@[k as int] == occurrences(fs, names@[k as int]@));
        }
        keys.push(counts[k] as i128);
        assert(keys@ =~= modification_counts(fs).take(k + 1));
    }
    assert(keys@ =~= modification_counts(fs));
    let p = rank_desc(&keys);
    let mut out: Vec<(String, usize)> = Vec::new();
    let mut j: usize = 0;
    while j < p.len() && counts[p[j]] > 5
        invariant
            names.deep_view() == firsts(fs),
            counts.len() == names.len(),
            forall|i: int| 0 <= i < counts.len() ==> counts@[i] == occurrences(fs, #[trigger] names@[i]@),
            keys@ == modification_counts(fs),
            is_ranking(keys@, p@),
            j <= p.len(),
            out.len() == j,
            forall|m: int| 0 <= m < j ==> hot_entry(#[trigger] out@[m], names@[p@[m] as int]@, counts@[p@[m] as int]),
        decreases p.len() - j,
    {
        out.push((owned(names[p[j]].as_str()), counts[p[j]]));
        assert(hot_entry(out@[j as int], names@[p@[j as int] as int]@, counts@[p@[j as int] as int]));
        j = j + 1;
    }
    proof {
        let v = out@.map_values(|e: (String, usize)| (e.0@, e.1 as nat));
        let f = firsts(fs);
        assert forall|m: int| 0 <= m < v.len() implies #[trigger] v[m] == (f[p@[m] as int], occurrences(
            fs,
            f[p@[m] as int],
        )) && modification_counts(fs)[p@[m] as int] > 5 by {
            let q = p@[m] as int;
            assert(hot_entry(out@[m], names@[q]@, counts@[q]));
            assert(v[m] == (out@[m].0@, out@[m].1 as nat));
            assert(0 <= q < counts.len());
            assert(names.deep_view()[q] == names@[q]@);
            assert(counts@[q] == occurrences(fs, names@[q]@));
            assert(keys@[q] == modification_counts(fs)[q]);
        }
        if j < p.len() {
            assert forall|m: int| j <= m < f.len() implies keys@[#[trigger] p@[m] as int] <= 5 by {
                if m > j {
                    assert(ranked_before(keys@, p@[j as int] as int, p@[m] as int));
                }
            }
        }
        assert(is_ranking(modification_counts(fs), p@));
        assert(v.len() <= f.len());
        assert(fs == modified_files(lines(output@)));
        let c = modification_counts(fs);
        assert(keys@ == c);
        assert(forall|m: int| v.len() <= m < f.len() ==> c[#[trigger] p@[m] as int] <= 5);
        assert(hotspots(fs, v));
    }
    out
}

// ---------------------------------------------------------------------------
// Code churn
// ---------------------------------------------------------------------------

/// One entry: (file, lines added, lines deleted).
pub type NumstatEntry = (Seq<char>, nat, nat);

/// The entry a `--numstat` line stands for: exactly three words, the first
/// two `u32` numerals.
pub open spec fn numstat_entry(line: Seq<char>) -> Option<NumstatEntry> {
    let w = words(line);
    if w.len() == 3 && parse_u32(w[0]) is Some && parse_u32(w[1]) is Some {
        Some((w[2], parse_u32(w[0])->0, parse_u32(w[1])->0))
    } else {
        None
    }
}

/// The entries of the lines, in order.
pub open spec fn numstat_entries(ls: Seq<Seq<char>>) -> Seq<NumstatEntry>
    decreases ls.len(),
{
    if ls.len() == 0 {
        Seq::empty()
    } else {
        let rest = numstat_entries(ls.drop_last());
        match numstat_entry(ls.last()) {
            Some(e) => rest.push(e),
            None => rest,
        }
    }
}

pub open spec fn entry_files(es: Seq<NumstatEntry>) -> Seq<Seq<char>> {
    es.map_values(|e: NumstatEntry| e.0)
}

pub open spec fn entry_adds(es: Seq<NumstatEntry>) -> Seq<nat> {
    es.map_values(|e: NumstatEntry| e.1)
}

pub open spec fn entry_dels(es: Seq<NumstatEntry>) -> Seq<nat> {
    es.map_values(|e: NumstatEntry| e.2)
}

/// All lines added to file `k`.
pub open spec fn additions_to(es: Seq<NumstatEntry>, k: Seq<char>) -> nat {
    total_under(entry_files(es), entry_adds(es), k)
}

/// All lines deleted from file `k`.
pub open spec fn deletions_from(es: Seq<NumstatEntry>, k: Seq<char>) -> nat {
    total_under(entry_files(es), entry_dels(es), k)
}

/// Each file's additions and deletions together fit in a `u32`.
pub open spec fn churn_fits(es: Seq<NumstatEntry>) -> bool {
    forall|k: Seq<char>| #[trigger] additions_to(es, k) + deletions_from(es, k) <= u32::MAX
}

/// The files of `f` with more than 100 lines added and deleted, in order.
pub open spec fn heavy_files(f: Seq<Seq<char>>, es: Seq<NumstatEntry>) -> Seq<Seq<char>>
    decreases f.len(),
{
    if f.len() == 0 {
        Seq::empty()
    } else {
        let rest = heavy_files(f.drop_last(), es);
        if additions_to(es, f.last()) + deletions_from(es, f.last()) > 100 {
            rest.push(f.last())
        } else {
            rest
        }
    }
}

/// The total changes of the files `h`, as ranking keys.
pub open spec fn churn_totals(h: Seq<Seq<char>>, es: Seq<NumstatEntry>) -> Seq<i128> {
    Seq::new(h.len(), |k: int| (additions_to(es, h[k]) + deletions_from(es, h[k])) as i128)
}

/// `v` lists, as (file, additions, deletions, total), each file with more
/// than 100 changed lines, most changed first (equal totals in the order in
/// which the files first appear).
pub open spec fn churn_report(es: Seq<NumstatEntry>, v: Seq<(Seq<char>, nat, nat, nat)>) -> bool {
    let h = heavy_files(firsts(entry_files(es)), es);
    &&& v.len() == h.len()
    &&& exists|p: Seq<usize>|
        #![trigger is_ranking(churn_totals(h, es), p)]
        is_ranking(churn_totals(h, es), p) && forall|j: int|
            0 <= j < v.len() ==> #[trigger] v[j] == (
                h[p[j] as int],
                additions_to(es, h[p[j] as int]),
                deletions_from(es, h[p[j] as int]),
                additions_to(es, h[p[j] as int]) + deletions_from(es, h[p[j] as int]),
            )
}

/// `c` reports file `k`.
pub open spec fn churn_of(c: ChurnFile, es: Seq<NumstatEntry>, k: Seq<char>) -> bool {
    &&& c.path@ == k
    &&& c.additions == additions_to(es, k)
    &&& c.deletions == deletions_from(es, k)
    &&& c.total_changes == additions_to(es, k) + deletions_from(es, k)
}

/// What is summed up to an entry is at most what is summed up to all of them.
pub proof fn lemma_total_prefix(ks: Seq<Seq<char>>, am: Seq<nat>, i: int, k: Seq<char>)
    requires
        ks.len() == am.len(),
        0 <= i <= ks.len(),
    ensures
        total_under(ks.take(i), am.take(i), k) <= total_under(ks, am, k),
    decreases ks.len(),
{
    if i == ks.len() {
        assert(ks.take(i) =~= ks);
        assert(am.take(i) =~= am);
    } else {
        lemma_total_prefix(ks.drop_last(), am.drop_last(), i, k);
        assert(ks.drop_last().take(i) =~= ks.take(i));
        assert(am.drop_last().take(i) =~= am.take(i));
    }
}

/// The entries of the `--numstat` lines of `output`.
fn read_numstat(output: &str) -> (r: (Vec<String>, Vec<u32>, Vec<u32>))
    ensures
        r.0.len() == r.1.len() == r.2.len(),
        r.0.deep_view() == entry_files(numstat_entries(lines(output@))),
        r.1@.map_values(|x: u32| x as nat) == entry_adds(numstat_entries(lines(output@))),
        r.2@.map_values(|x: u32| x as nat) == entry_dels(numstat_entries(lines(output@))),
{
    let ls = lines_of(output);
    let mut fs: Vec<String> = Vec::new();
    let mut av: Vec<u32> = Vec::new();
    let mut dv: Vec<u32> = Vec::new();
    for i in 0..ls.len()
        invariant
            fs.len() == av.len() == dv.len(),
            fs.deep_view() == entry_files(numstat_entries(ls.deep_view().take(i as int))),
            av@.map_values(|x: u32| x as nat) == entry_adds(numstat_entries(ls.deep_view().take(i as int))),
            dv@.map_values(|x: u32| x as nat) == entry_dels(numstat_entries(ls.deep_view().take(i as int))),
    {
        let ghost pre = numstat_entries(ls.deep_view().take(i as int));
        proof {
            assert(ls.deep_view().take(i + 1).drop_last() =~= ls.deep_view().take(i as int));
            assert(ls.deep_view()[i as int] == ls@[i as int]@);
        }
        let w = words_of(ls[i].as_str());
        if w.len() == 3 {
            proof {
                assert(w.deep_view()[0] == w@[0]@);
                assert(w.deep_view()[1] == w@[1]@);
                assert(w.deep_view()[2] == w@[2]@);
            }
            match (parse_u32_of(w[0].as_str()), parse_u32_of(w[1].as_str())) {
                (Some(a), Some(d)) => {
                    let ghost e: NumstatEntry = (w@[2]@, a as nat, d as nat);
                    let ghost bf = fs.deep_view();
                    let ghost ba = av@.map_values(|x: u32| x as nat);
                    let ghost bd = dv@.map_values(|x: u32| x as nat);
                    fs.push(owned(w[2].as_str()));
                    av.push(a);
                    dv.push(d);
                    proof {
                        assert(fs.deep_view() =~= bf.push(e.0));
                        assert(av@.map_values(|x: u32| x as nat) =~= ba.push(e.1));
                        assert(dv@.map_values(|x: u32| x as nat) =~= bd.push(e.2));
                        assert(entry_files(pre.push(e)) =~= entry_files(pre).push(e.0));
                        assert(entry_adds(pre.push(e)) =~= entry_adds(pre).push(e.1));
                        assert(entry_dels(pre.push(e)) =~= entry_dels(pre).push(e.2));
                    }
                },
                _ => {},
            }
        }
    }
    assert(ls.deep_view().take(ls.len() as int) =~= ls.deep_view());
    (fs, av, dv)
}

/// The sum of one file's additions and deletions over the first `j` entries.
proof fn lemma_file_total_step(fs: Seq<Seq<char>>, a: Seq<nat>, d: Seq<nat>, j: int, k: Seq<char>)
    requires
        fs.len() == a.len() == d.len(),
        0 <= j < fs.len(),
    ensures
        total_under(fs.take(j + 1), a.take(j + 1), k) == total_under(fs.take(j), a.take(j), k) + (if fs[j] == k {
            a[j]
        } else {
            0nat
        }),
        total_under(fs.take(j + 1), d.take(j + 1), k) == total_under(fs.take(j), d.take(j), k) + (if fs[j] == k {
            d[j]
        } else {
            0nat
        }),
{
    assert(fs.take(j + 1).drop_last() =~= fs.take(j));
    assert(a.take(j + 1).drop_last() =~= a.take(j));
    assert(d.take(j + 1).drop_last() =~= d.take(j));
}

/// Whether each file's additions and deletions together fit in a `u32`
/// (`churn_fits`): the check to make before `analyze_churn_patterns`.
pub fn churn_fits_of(output: &str) -> (r: bool)
    ensures
        r == churn_fits(numstat_entries(lines(output@))),
{
    let ghost es = numstat_entries(lines(output@));
    let (fs, av, dv) = read_numstat(output);
    let ghost fv = fs.deep_view();
    let ghost a = av@.map_values(|x: u32| x as nat);
    let ghost d = dv@.map_values(|x: u32| x as nat);
    let n = fs.len();
    assert(fv.take(n as int) =~= fv);
    assert(a.take(n as int) =~= a);
    assert(d.take(n as int) =~= d);
    for i in 0..n
        invariant
            n == fs.len() == av.len() == dv.len(),
            fv == fs.deep_view(),
            a == av@.map_values(|x: u32| x as nat),
            d == dv@.map_values(|x: u32| x as nat),
            es == numstat_entries(lines(output@)),
            fv == entry_files(es),
            a == entry_adds(es),
            d == entry_dels(es),
            fv.take(n as int) == fv,
            a.take(n as int) == a,
            d.take(n as int) == d,
            forall|k: int| 0 <= k < i ==> #[trigger] additions_to(es, fv[k]) + deletions_from(es, fv[k]) <= u32::MAX,
    {
        let ghost key = fv[i as int];
        proof {
            assert(fv[i as int] == fs@[i as int]@);
        }
        let mut t: u64 = 0;
        for j in 0..n
            invariant
                n == fs.len() == av.len() == dv.len(),
                i < n,
                fv == fs.deep_view(),
                a == av@.map_values(|x: u32| x as nat),
                d == dv@.map_values(|x: u32| x as nat),
                key == fv[i as int],
                es == numstat_entries(lines(output@)),
                fv == entry_files(es),
                a == entry_adds(es),
                d == entry_dels(es),
                t == total_under(fv.take(j as int), a.take(j as int), key) + total_under(fv.take(j as int), d.take(j as int), key),
                t <= u32::MAX,
        {
            proof {
                lemma_file_total_step(fv, a, d, j as int, key);
                assert(fv[j as int] == fs@[j as int]@);
                assert(a[j as int] == av@[j as int] as nat);
                assert(d[j as int] == dv@[j as int] as nat);
            }
            if str_eq(fs[j].as_str(), fs[i].as_str()) {
                t = t + av[j] as u64 + dv[j] as u64;
                if t > 0xffff_ffffu64 {
                    proof {
                        lemma_total_prefix(fv, a, j + 1, key);
                        lemma_total_prefix(fv, d, j + 1, key);
                        assert(additions_to(es, key) + deletions_from(es, key) > u32::MAX);
                    }
                    return false;
                }
            }
        }
        assert(additions_to(es, key) + deletions_from(es, key) <= u32::MAX);
    }
    assert forall|k: Seq<char>| #[trigger] additions_to(es, k) + deletions_from(es, k) <= u32::MAX by {
        if fv.contains(k) {
            let x = choose|x: int| 0 <= x < fv.len() && fv[x] == k;
            assert(additions_to(es, fv[x]) + deletions_from(es, fv[x]) <= u32::MAX);
        } else {
            lemma_total_zero(fv, a, k);
            lemma_total_zero(fv, d, k);
        }
    }
    true
}

/// Whether the age estimate of every unprotected branch in the listing fits
/// in a `u32` (`branch_ages_fit`): the check to make before
/// `parse_long_lived_branches`.
pub fn branch_ages_fit_of(output: &str) -> (r: bool)
    ensures
        r == branch_ages_fit(lines(output@)),
{
    let ls = lines_of(output);
    for i in 0..ls.len()
        invariant
            ls.deep_view() == lines(output@),
            forall|k: int| 0 <= k < i ==> (#[trigger] branch_fields(ls.deep_view()[k]) matches Some(b) ==> (
                is_protected(b.0) || days_fit(b.1))),
    {
        proof {
            assert(ls.deep_view()[i as int] == ls@[i as int]@);
        }
        let parts = splitn_of(ls[i].as_str(), 3, '|');
        if parts.len() >= 3 {
            proof {
                assert(parts.deep_view()[0] == parts@[0]@);
                assert(parts.deep_view()[1] == parts@[1]@);
            }
            let name = trim_str(parts[0].as_str());
            let age = trim_str(parts[1].as_str());
            if !is_protected_branch(name.as_str()) && !days_fit_of(age.as_str()) {
                proof {
                    assert(parts.deep_view()[2] == parts@[2]@);
                    let b = (name@, age@, trim(parts@[2]@));
                    assert(branch_fields(ls.deep_view()[i as int]) == Some(b));
                }
                return false;
            }
        }
    }
    true
}

/// Files with heavy churn, from `git log --pretty=format: --numstat` (see
/// `churn_report`).
pub fn analyze_churn_patterns(output: &str) -> (r: Vec<ChurnFile>)
    requires
        churn_fits(numstat_entries(lines(output@))),
    ensures
        churn_report(
            numstat_entries(lines(output@)),
            r@.map_values(|c: ChurnFile| (c.path@, c.additions as nat, c.deletions as nat, c.total_changes as nat)),
        ),
{
    let (fs, av, dv) = read_numstat(output);
    let ghost es = numstat_entries(lines(output@));
    let ghost ks = entry_files(es);
    let ghost am = entry_adds(es);
    let ghost dm = entry_dels(es);
    let mut keys: Vec<String> = Vec::new();
    let mut adds: Vec<u32> = Vec::new();
    let mut dels: Vec<u32> = Vec::new();
    for i in 0..fs.len()
        invariant
            fs.len() == av.len() == dv.len(),
            fs.deep_view() == ks,
            av@.map_values(|x: u32| x as nat) == am,
            dv@.map_values(|x: u32| x as nat) == dm,
            ks == entry_files(es),
            am == entry_adds(es),
            dm == entry_dels(es),
            churn_fits(es),
            keys.deep_view() == firsts(ks.take(i as int)),
            adds.len() == keys.len(),
            dels.len() == keys.len(),
            forall|k: int| 0 <= k < keys.len() ==> adds@[k] == total_under(ks.take(i as int), am.take(i as int), #[trigger] keys@[k]@),
            forall|k: int| 0 <= k < keys.len() ==> dels@[k] == total_under(ks.take(i as int), dm.take(i as int), #[trigger] keys@[k]@),
    {
        let ghost x = ks[i as int];
        proof {
            assert(ks.take(i + 1) =~= ks.take(i as int).push(x));
            assert(am.take(i + 1) =~= am.take(i as int).push(am[i as int]));
            assert(dm.take(i + 1) =~= dm.take(i as int).push(dm[i as int]));
            assert(fs.deep_view()[i as int] == fs@[i as int]@);
            assert(am[i as int] == av@[i as int] as nat);
            assert(dm[i as int] == dv@[i as int] as nat);
            lemma_firsts_push(ks.take(i as int), x);
            lemma_total_push(ks.take(i as int), am.take(i as int), x, am[i as int]);
            lemma_total_push(ks.take(i as int), dm.take(i as int), x, dm[i as int]);
            lemma_total_prefix(ks, am, i + 1, x);
            lemma_total_prefix(ks, dm, i + 1, x);
            assert(additions_to(es, x) + deletions_from(es, x) <= u32::MAX);
        }
        match position_of(&keys, fs[i].as_str()) {
            Some(j) => {
                proof {
                    assert(keys.deep_view()[j as int] == x);
                }
                let a = adds[j] + av[i];
                let d = dels[j] + dv[i];
                adds.set(j, a);
                dels.set(j, d);
                proof {
                    assert forall|k: int| 0 <= k < keys.len() implies adds@[k] == total_under(
                        ks.take(i + 1),
                        am.take(i + 1),
                        #[trigger] keys@[k]@,
                    ) && dels@[k] == total_under(ks.take(i + 1), dm.take(i + 1), keys@[k]@) by {
                        if k != j {
                            lemma_firsts_distinct(ks.take(i as int));
                            assert(keys.deep_view()[k] == keys@[k]@);
                        }
                    }
                }
            },
            None => {
                proof {
                    lemma_firsts_contains(ks.take(i as int), x);
                    assert(!firsts(ks.take(i as int)).contains(x));
                    lemma_total_zero(ks.take(i as int), am.take(i as int), x);
                    lemma_total_zero(ks.take(i as int), dm.take(i as int), x);
                }
                let ghost before = keys.deep_view();
                keys.push(owned(fs[i].as_str()));
                adds.push(av[i]);
                dels.push(dv[i]);
                proof {
                    assert(keys.deep_view() =~= before.push(x));
                    assert forall|k: int| 0 <= k < keys.len() implies adds@[k] == total_under(
                        ks.take(i + 1),
                        am.take(i + 1),
                        #[trigger] keys@[k]@,
                    ) && dels@[k] == total_under(ks.take(i + 1), dm.take(i + 1), keys@[k]@) by {
                        if k < before.len() {
                            assert(before[k] == keys@[k]@);
                            assert(before.contains(keys@[k]@));
                        }
                    }
                }
            },
        }
    }
    assert(ks.take(fs.len() as int) =~= ks);
    assert(am.take(fs.len() as int) =~= am);
    assert(dm.take(fs.len() as int) =~= dm);
    let ghost f = firsts(ks);
    // The files with more than 100 changed lines, and their totals.
    let mut heavy: Vec<usize> = Vec::new();
    let mut totals: Vec<i128> = Vec::new();
    for k in 0..keys.len()
        invariant
            keys.deep_view() == f,
            f == firsts(entry_files(es)),
            adds.len() == keys.len(),
            dels.len() == keys.len(),
            churn_fits(es),
            forall|m: int| 0 <= m < keys.len() ==> adds@[m] == additions_to(es, #[trigger] keys@[m]@),
            forall|m: int| 0 <= m < keys.len() ==> dels@[m] == deletions_from(es, #[trigger] keys@[m]@),
            heavy.len() == totals.len(),
            forall|m: int| 0 <= m < heavy.len() ==> #[trigger] heavy@[m] < keys.len(),
            heavy@.map_values(|m: usize| f[m as int]) == heavy_files(f.take(k as int), es),
            totals@ == churn_totals(heavy_files(f.take(k as int), es), es),
    {
        proof {
            assert(f.take(k + 1).drop_last() =~= f.take(k as int));
            assert(keys.deep_view()[k as int] == keys@[k as int]@);
            assert(additions_to(es, keys@[k as int]@) + deletions_from(es, keys@[k as int]@) <= u32::MAX);
        }
        if adds[k] as u64 + dels[k] as u64 > 100 {
            let ghost bh = heavy@.map_values(|m: usize| f[m as int]);
            heavy.push(k);
            totals.push(adds[k] as i128 + dels[k] as i128);
            proof {
                assert(heavy@.map_values(|m: usize| f[m as int]) =~= bh.push(f[k as int]));
                assert(totals@ =~= churn_totals(heavy_files(f.take(k + 1), es), es));
            }
        }
    }
    assert(f.take(keys.len() as int) =~= f);
    let ghost h = heavy_files(f, es);
    let p = rank_desc(&totals);
    let mut out: Vec<ChurnFile> = Vec::new();
    for j in 0..p.len()
        invariant
            keys.deep_view() == f,
            adds.len() == keys.len(),
            dels.len() == keys.len(),
            churn_fits(es),
            forall|m: int| 0 <= m < keys.len() ==> adds@[m] == additions_to(es, #[trigger] keys@[m]@),
            forall|m: int| 0 <= m < keys.len() ==> dels@[m] == deletions_from(es, #[trigger] keys@[m]@),
            forall|m: int| 0 <= m < heavy.len() ==> #[trigger] heavy@[m] < keys.len(),
            heavy@.map_values(|m: usize| f[m as int]) == h,
            is_ranking(totals@, p@),
            p.len() == heavy.len(),
            out.len() == j,
            forall|m: int| 0 <= m < j ==> churn_of(#[trigger] out@[m], es, h[p@[m] as int]),
    {
        let q = p[j];
        let c = heavy[q];
        proof {
            assert(p@[j as int] < heavy.len());
            assert(h[q as int] == f[c as int]);
            assert(keys.deep_view()[c as int] == keys@[c as int]@);
            assert(additions_to(es, keys@[c as int]@) + deletions_from(es, keys@[c as int]@) <= u32::MAX);
            assert(adds@[c as int] == additions_to(es, keys@[c as int]@));
            assert(dels@[c as int] == deletions_from(es, keys@[c as int]@));
            assert(keys@[c as int]@ == h[p@[j as int] as int]);
        }
        out.push(
            ChurnFile {
                path: owned(keys[c].as_str()),
                additions: adds[c],
                deletions: dels[c],
                total_changes: adds[c] + dels[c],
            },
        );
        proof {
            assert(churn_of(out@[j as int], es, h[p@[j as int] as int]));
        }
    }
    proof {
        let v = out@.map_values(|c: ChurnFile| (c.path@, c.additions as nat, c.deletions as nat, c.total_changes as nat));
        assert forall|m: int| 0 <= m < v.len() implies #[trigger] v[m] == (
            h[p@[m] as int],
            additions_to(es, h[p@[m] as int]),
            deletions_from(es, h[p@[m] as int]),
            additions_to(es, h[p@[m] as int]) + deletions_from(es, h[p@[m] as int]),
        ) by {
            assert(v[m] == (out@[m].path@, out@[m].additions as nat, out@[m].deletions as nat, out@[m].total_changes as nat));
            assert(churn_of(out@[m], es, h[p@[m] as int]));
        }
        assert(heavy@.map_values(|m: usize| f[m as int]).len() == heavy.len());
        assert(is_ranking(churn_totals(h, es), p@));
    }
    out
}

// ---------------------------------------------------------------------------
// Long-lived branches
// ---------------------------------------------------------------------------

/// (name, relative age, author) of a `for-each-ref` line
/// `name|age|author`, trimmed.
pub open spec fn branch_fields(line: Seq<char>) -> Option<(Seq<char>, Seq<char>, Seq<char>)> {
    let parts = splitn(line, 3, '|');
    if parts.len() >= 3 {
        Some((trim(parts[0]), trim(parts[1]), trim(parts[2])))
    } else {
        None
    }
}

/// The age of every branch that is looked at fits the estimate in a `u32`.
pub open spec fn branch_ages_fit(ls: Seq<Seq<char>>) -> bool {
    forall|i: int|
        0 <= i < ls.len() ==> (#[trigger] branch_fields(ls[i]) matches Some(b) ==> (is_protected(b.0) || days_fit(b.1)))
}

/// The branches of the lines older than 30 days, as (name, age, author,
/// days), protected branches left out, in order.
pub open spec fn old_branches(ls: Seq<Seq<char>>) -> Seq<(Seq<char>, Seq<char>, Seq<char>, nat)>
    decreases ls.len(),
{
    if ls.len() == 0 {
        Seq::empty()
    } else {
        let rest = old_branches(ls.drop_last());
        match branch_fields(ls.last()) {
            Some(b) => if !is_protected(b.0) && estimated_days(b.1) > 30 {
                rest.push((b.0, b.1, b.2, estimated_days(b.1)))
            } else {
                rest
            },
            None => rest,
        }
    }
}

/// The ages in days of the branches, as ranking keys.
pub open spec fn branch_ages(b: Seq<(Seq<char>, Seq<char>, Seq<char>, nat)>) -> Seq<i128> {
    Seq::new(b.len(), |k: int| b[k].3 as i128)
}

pub open spec fn branch_info_view(b: BranchInfo) -> (Seq<char>, Seq<char>, Seq<char>, nat) {
    (b.name@, b.age@, b.author@, b.days_old as nat)
}

/// The branches older than 30 days from `git for-each-ref
/// --format=%(refname:short)|%(committerdate:relative)|%(authorname)`,
/// oldest first (equal ages in their order in the listing); main, master and
/// develop are left out.
pub fn parse_long_lived_branches(output: &str) -> (r: Vec<BranchInfo>)
    requires
        branch_ages_fit(lines(output@)),
    ensures
        ({
            let b = old_branches(lines(output@));
            &&& r.len() == b.len()
            &&& exists|p: Seq<usize>|
                #![trigger is_ranking(branch_ages(b), p)]
                is_ranking(branch_ages(b), p) && forall|j: int|
                    0 <= j < r.len() ==> #[trigger] branch_info_view(r@[j]) == b[p[j] as int]
        }),
{
    let ls = lines_of(output);
    let mut found: Vec<BranchInfo> = Vec::new();
    for i in 0..ls.len()
        invariant
            ls.deep_view() == lines(output@),
            branch_ages_fit(ls.deep_view()),
            found@.map_values(|b: BranchInfo| branch_info_view(b)) == old_branches(ls.deep_view().take(i as int)),
    {
        proof {
            assert(ls.deep_view().take(i + 1).drop_last() =~= ls.deep_view().take(i as int));
            assert(ls.deep_view()[i as int] == ls@[i as int]@);
        }
        let parts = splitn_of(ls[i].as_str(), 3, '|');
        if parts.len() >= 3 {
            proof {
                assert(parts.deep_view()[0] == parts@[0]@);
                assert(parts.deep_view()[1] == parts@[1]@);
                assert(parts.deep_view()[2] == parts@[2]@);
            }
            let name = trim_str(parts[0].as_str());
            let age = trim_str(parts[1].as_str());
            let author = trim_str(parts[2].as_str());
            if !is_protected_branch(name.as_str()) {
                proof {
                    assert(branch_fields(ls.deep_view()[i as int]) matches Some(b) ==> (is_protected(b.0) || days_fit(b.1)));
                }
                let days = estimate_days_from_relative_date(age.as_str());
                if days > 30 {
                    let ghost before = found@.map_values(|b: BranchInfo| branch_info_view(b));
                    let ghost entry = (name@, age@, author@, days as nat);
                    found.push(BranchInfo { name, age, author, days_old: days });
                    assert(found@.map_values(|b: BranchInfo| branch_info_view(b)) =~= before.push(entry));
                }
            }
        }
    }
    assert(ls.deep_view().take(ls.len() as int) =~= ls.deep_view());
    let ghost b = old_branches(lines(output@));
    let mut keys: Vec<i128> = Vec::new();
    for k in 0..found.len()
        invariant
            found@.map_values(|x: BranchInfo| branch_info_view(x)) == b,
            keys@ == branch_ages(b).take(k as int),
    {
        assert(branch_info_view(found@[k as int]) == b[k as int]);
        keys.push(found[k].days_old as i128);
        assert(keys@ =~= branch_ages(b).take(k + 1));
    }
    assert(keys@ =~= branch_ages(b));
    let p = rank_desc(&keys);
    let mut out: Vec<BranchInfo> = Vec::new();
    for j in 0..p.len()
        invariant
            found@.map_values(|x: BranchInfo| branch_info_view(x)) == b,
            is_ranking(keys@, p@),
            p.len() == found.len(),
            out.len() == j,
            forall|m: int| 0 <= m < j ==> #[trigger] branch_info_view(out@[m]) == b[p@[m] as int],
    {
        let q = p[j];
        assert(branch_info_view(found@[q as int]) == b[q as int]);
        let x = &found[q];
        out.push(
            BranchInfo {
                name: owned(x.name.as_str()),
                age: owned(x.age.as_str()),
                author: owned(x.author.as_str()),
                days_old: x.days_old,
            },
        );
    }
    out
}

// ---------------------------------------------------------------------------
// Large commits
// ---------------------------------------------------------------------------

/// A commit as (hash, message, files changed).
pub type CommitSize = (Seq<char>, Seq<char>, nat);

/// A header line `hash|subject|author|date` of `git log --numstat`: it holds
/// a `|` and does not start with a numeric character.
pub open spec fn is_commit_header(line: Seq<char>) -> bool {
    has_char(line, '|') && !(line.len() > 0 && numeric_char(line[0]))
}

/// A `--numstat` line: it starts with an ASCII digit.
pub open spec fn is_file_line(line: Seq<char>) -> bool {
    line.len() > 0 && is_digit(line[0])
}

/// The commits found so far, with the commit being read and its file count
/// when it is done: it is kept when it changed more than 20 files.
pub open spec fn close_commit(done: Seq<CommitSize>, cur: Option<(Seq<char>, Seq<char>)>, count: nat) -> Seq<CommitSize> {
    match cur {
        Some(c) => if count > 20 {
            done.push((c.0, c.1, count))
        } else {
            done
        },
        None => done,
    }
}

/// The first 60 characters of a subject.
pub open spec fn short_message(m: Seq<char>) -> Seq<char> {
    m.take(if 60 <= m.len() { 60 } else { m.len() as int })
}

/// Reading the lines in order: the large commits found, the commit being
/// read (hash and shortened subject) and the files counted for it.
pub open spec fn scan_commits(ls: Seq<Seq<char>>) -> (Seq<CommitSize>, Option<(Seq<char>, Seq<char>)>, nat)
    decreases ls.len(),
{
    if ls.len() == 0 {
        (Seq::empty(), None, 0)
    } else {
        let st = scan_commits(ls.drop_last());
        let line = ls.last();
        if is_commit_header(line) {
            let d = close_commit(st.0, st.1, st.2);
            let parts = splitn(line, 4, '|');
            if parts.len() >= 2 {
                (d, Some((parts[0], short_message(parts[1]))), 0)
            } else {
                (d, None, st.2)
            }
        } else if trim(line).len() == 0 {
            st
        } else if is_file_line(line) {
            (st.0, st.1, st.2 + 1)
        } else {
            st
        }
    }
}

/// The commits of the lines that changed more than 20 files, in order.
pub open spec fn large_commits(ls: Seq<Seq<char>>) -> Seq<CommitSize> {
    let st = scan_commits(ls);
    close_commit(st.0, st.1, st.2)
}

/// The file counts of the commits, as ranking keys.
pub open spec fn commit_sizes(c: Seq<CommitSize>) -> Seq<i128> {
    Seq::new(c.len(), |k: int| c[k].2 as i128)
}

pub open spec fn large_commit_view(c: LargeCommit) -> CommitSize {
    (c.hash@, c.message@, c.files_changed as nat)
}

/// The commit being read, as plain values.
pub open spec fn current_view(cur: Option<(String, String)>) -> Option<(Seq<char>, Seq<char>)> {
    match cur {
        Some(c) => Some((c.0@, c.1@)),
        None => None,
    }
}

/// Ends the commit being read: it is kept when it changed more than 20 files.
fn close_current(done: &mut Vec<LargeCommit>, cur: Option<(String, String)>, count: usize)
    ensures
        final(done)@.map_values(|c: LargeCommit| large_commit_view(c)) == close_commit(
            old(done)@.map_values(|c: LargeCommit| large_commit_view(c)),
            current_view(cur),
            count as nat,
        ),
{
    let ghost before = done@.map_values(|c: LargeCommit| large_commit_view(c));
    match cur {
        Some((hash, message)) => {
            if count > 20 {
                let ghost e = (hash@, message@, count as nat);
                done.push(LargeCommit { hash, message, files_changed: count });
                assert(done@.map_values(|c: LargeCommit| large_commit_view(c)) =~= before.push(e));
            }
        },
        None => {},
    }
}

/// The commits of `git log --pretty=format:%h|%s|%an|%ad --numstat` that
/// changed more than 20 files, the largest first (equal sizes in log order).
pub fn parse_large_commits(output: &str) -> (r: Vec<LargeCommit>)
    ensures
        ({
            let c = large_commits(lines(output@));
            &&& r.len() == c.len()
            &&& exists|p: Seq<usize>|
                #![trigger is_ranking(commit_sizes(c), p)]
                is_ranking(commit_sizes(c), p) && forall|j: int|
                    0 <= j < r.len() ==> #[trigger] large_commit_view(r@[j]) == c[p[j] as int]
        }),
{
    let ls = lines_of(output);
    let mut done: Vec<LargeCommit> = Vec::new();
    let mut cur: Option<(String, String)> = None;
    let mut count: usize = 0;
    for i in 0..ls.len()
        invariant
            count <= i,
            (done@.map_values(|c: LargeCommit| large_commit_view(c)), current_view(cur), count as nat)
                == scan_commits(ls.deep_view().take(i as int)),
    {
        proof {
            assert(ls.deep_view().take(i + 1).drop_last() =~= ls.deep_view().take(i as int));
            assert(ls.deep_view()[i as int] == ls@[i as int]@);
        }
        let line = ls[i].as_str();
        let v = chars_of(line);
        let header = contains_char(line, '|') && !(v.len() > 0 && is_numeric_char(v[0]));
        if header {
            let taken = cur;
            cur = None;
            close_current(&mut done, taken, count);
            let parts = splitn_of(line, 4, '|');
            if parts.len() >= 2 {
                proof {
                    assert(parts.deep_view()[0] == parts@[0]@);
                    assert(parts.deep_view()[1] == parts@[1]@);
                }
                cur = Some((owned(parts[0].as_str()), take_chars(parts[1].as_str(), 60)));
                count = 0;
            }
        } else if trim_str(line).as_str().is_empty() {
        } else if v.len() > 0 && v[0] >= '0' && v[0] <= '9' {
            count = count + 1;
        }
    }
    assert(ls.deep_view().take(ls.len() as int) =~= ls.deep_view());
    close_current(&mut done, cur, count);
    let ghost c = large_commits(lines(output@));
    let mut keys: Vec<i128> = Vec::new();
    for k in 0..done.len()
        invariant
            done@.map_values(|x: LargeCommit| large_commit_view(x)) == c,
            keys@ == commit_sizes(c).take(k as int),
    {
        assert(large_commit_view(done@[k as int]) == c[k as int]);
        keys.push(done[k].files_changed as i128);
        assert(keys@ =~= commit_sizes(c).take(k + 1));
    }
    assert(keys@ =~= commit_sizes(c));
    let p = rank_desc(&keys);
    let mut out: Vec<LargeCommit> = Vec::new();
    for j in 0..p.len()
        invariant
            done@.map_values(|x: LargeCommit| large_commit_view(x)) == c,
            is_ranking(keys@, p@),
            p.len() == done.len(),
            out.len() == j,
            forall|m: int| 0 <= m < j ==> #[trigger] large_commit_view(out@[m]) == c[p@[m] as int],
    {
        let q = p[j];
        assert(large_commit_view(done@[q as int]) == c[q as int]);
        let x = &done[q];
        out.push(
            LargeCommit { hash: owned(x.hash.as_str()), message: owned(x.message.as_str()), files_changed: x.files_changed },
        );
    }
    out
}

// ---------------------------------------------------------------------------
// Ranking files by their number of changes
// ---------------------------------------------------------------------------

/// `v` lists each distinct file of `files` with its number of occurrences,
/// the most frequent first (equal counts in the order in which the files
/// first appear).
pub open spec fn ranked_by_count(files: Seq<Seq<char>>, v: Seq<(Seq<char>, nat)>) -> bool {
    let f = firsts(files);
    let c = modification_counts(files);
    exists|p: Seq<usize>|
        #![trigger is_ranking(c, p)]
        is_ranking(c, p) && v.len() == f.len() && forall|j: int|
            0 <= j < v.len() ==> #[trigger] v[j] == (f[p[j] as int], occurrences(files, f[p[j] as int]))
}

/// A ranking by count has its counts in descending order.
pub proof fn lemma_ranked_descending(files: Seq<Seq<char>>, v: Seq<(Seq<char>, nat)>)
    requires
        ranked_by_count(files, v),
        files.len() <= usize::MAX,
    ensures
        forall|a: int, b: int| 0 <= a < b < v.len() ==> v[a].1 >= v[b].1,
{
    let f = firsts(files);
    let c = modification_counts(files);
    let p = choose|p: Seq<usize>|
        #![trigger is_ranking(c, p)]
        is_ranking(c, p) && v.len() == f.len() && forall|j: int|
            0 <= j < v.len() ==> #[trigger] v[j] == (f[p[j] as int], occurrences(files, f[p[j] as int]));
    assert forall|a: int, b: int| 0 <= a < b < v.len() implies v[a].1 >= v[b].1 by {
        assert(ranked_before(c, p[a] as int, p[b] as int));
        assert(p[a] < c.len() && p[b] < c.len());
        crate::base::tally::lemma_occurrences_bound(files, f[p[a] as int]);
        crate::base::tally::lemma_occurrences_bound(files, f[p[b] as int]);
        assert(c[p[a] as int] == occurrences(files, f[p[a] as int]) as i128);
        assert(c[p[b] as int] == occurrences(files, f[p[b] as int]) as i128);
        assert(v[a] == (f[p[a] as int], occurrences(files, f[p[a] as int])));
        assert(v[b] == (f[p[b] as int], occurrences(files, f[p[b] as int])));
    }
}

/// The distinct files of `files` with their number of occurrences, the
/// most frequent first (see `ranked_by_count`).
pub fn rank_files_by_count(files: &Vec<String>) -> (r: Vec<(String, usize)>)
    ensures
        ranked_by_count(files.deep_view(), r@.map_values(|e: (String, usize)| (e.0@, e.1 as nat))),
{
    let ghost fs = files.deep_view();
    let (names, counts) = count_keys(files);
    let mut keys: Vec<i128> = Vec::new();
    for k in 0..counts.len()
        invariant
            names.deep_view() == firsts(fs),
            counts.len() == names.len(),
            forall|i: int| 0 <= i < counts.len() ==> counts@[i] == occurrences(fs, #[trigger] names@[i]@),
            keys@ == modification_counts(fs).take(k as int),
    {
        proof {
            assert(names.deep_view()[k as int] == names@[k as int]@);
            assert(counts@[k as int] == occurrences(fs, names@[k as int]@));
        }
        keys.push(counts[k] as i128);
        assert(keys@ =~= modification_counts(fs).take(k + 1));
    }
    assert(keys@ =~= modification_counts(fs));
    let p = rank_desc(&keys);
    let mut out: Vec<(String, usize)> = Vec::new();
    for j in 0..p.len()
        invariant
            names.deep_view() == firsts(fs),
            counts.len() == names.len(),
            p.len() == names.len(),
            is_ranking(keys@, p@),
            out.len() == j,
            forall|m: int| 0 <= m < j ==> count_entry(#[trigger] out@[m], names@[p@[m] as int]@, counts@[p@[m] as int]),
    {
        let q = p[j];
        out.push((owned(names[q].as_str()), counts[q]));
        assert(count_entry(out@[j as int], names@[p@[j as int] as int]@, counts@[p@[j as int] as int]));
    }
    proof {
        let v = out@.map_values(|e: (String, usize)| (e.0@, e.1 as nat));
        let f = firsts(fs);
        assert forall|m: int| 0 <= m < v.len() implies #[trigger] v[m] == (f[p@[m] as int], occurrences(
            fs,
            f[p@[m] as int],
        )) by {
            let q = p@[m] as int;
            assert(count_entry(out@[m], names@[q]@, counts@[q]));
            assert(v[m] == (out@[m].0@, out@[m].1 as nat));
            assert(names.deep_view()[q] == names@[q]@);
            assert(counts@[q] == occurrences(fs, names@[q]@));
        }
        assert(is_ranking(modification_counts(fs), p@));
        assert(ranked_by_count(fs, v));
    }
    out
}

/// An entry (file, count).
pub open spec fn count_entry(e: (String, usize), name: Seq<char>, count: usize) -> bool {
    e.0@ == name && e.1 == count
}

} // verus!
