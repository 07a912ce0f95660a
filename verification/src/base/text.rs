//! Verified text primitives: the character-level operations that the rest of
//! the library builds on (trimming, line and word splitting, searching,
//! number parsing and rendering, joining).
use vstd::prelude::*;

verus! {

// ---------------------------------------------------------------------------
// Specifications
// ---------------------------------------------------------------------------

/// Unicode `White_Space` characters, as `char::is_whitespace` classifies them.
pub open spec fn is_ws(c: char) -> bool {
    ||| c == '\t' || c == '\n' || c == '\u{0B}' || c == '\u{0C}' || c == '\r' || c == ' '
    ||| c == '\u{85}' || c == '\u{A0}' || c == '\u{1680}'
    ||| (0x2000 <= (c as u32) && (c as u32) <= 0x200A)
    ||| c == '\u{2028}' || c == '\u{2029}' || c == '\u{202F}' || c == '\u{205F}' || c == '\u{3000}'
}

/// `s` without its leading whitespace.
pub open spec fn trim_start(s: Seq<char>) -> Seq<char>
    decreases s.len(),
{
    if s.len() > 0 && is_ws(s[0]) {
        trim_start(s.drop_first())
    } else {
        s
    }
}

/// `s` without its trailing whitespace.
pub open spec fn trim_end(s: Seq<char>) -> Seq<char>
    decreases s.len(),
{
    if s.len() > 0 && is_ws(s.last()) {
        trim_end(s.drop_last())
    } else {
        s
    }
}

/// `s` without leading and trailing whitespace (`str::trim`).
pub open spec fn trim(s: Seq<char>) -> Seq<char> {
    trim_end(trim_start(s))
}

/// `p` is a prefix of `s`.
pub open spec fn has_prefix(s: Seq<char>, p: Seq<char>) -> bool {
    p.len() <= s.len() && s.take(p.len() as int) == p
}

/// `p` is a suffix of `s`.
pub open spec fn has_suffix(s: Seq<char>, p: Seq<char>) -> bool {
    p.len() <= s.len() && s.skip(s.len() - p.len()) == p
}

/// `p` occurs in `s` starting at position `i`.
pub open spec fn occurs_at(s: Seq<char>, p: Seq<char>, i: int) -> bool {
    0 <= i && i + p.len() <= s.len() && s.subrange(i, i + p.len()) == p
}

/// `p` occurs somewhere in `s` (`str::contains`).
pub open spec fn contains(s: Seq<char>, p: Seq<char>) -> bool {
    exists|i: int| occurs_at(s, p, i)
}

/// The position of the first occurrence of `p` in `s` (`str::find`, counted in characters).
#[verifier::opaque]
pub open spec fn find(s: Seq<char>, p: Seq<char>) -> Option<int> {
    if contains(s, p) {
        Some(choose|i: int| occurs_at(s, p, i) && forall|j: int| 0 <= j < i ==> !occurs_at(s, p, j))
    } else {
        None
    }
}

/// `s` holds the character `c`.
pub open spec fn has_char(s: Seq<char>, c: char) -> bool {
    exists|i: int| 0 <= i < s.len() && s[i] == c
}

/// A line of `str::lines`: a trailing carriage return is dropped.
pub open spec fn strip_cr(s: Seq<char>) -> Seq<char> {
    if s.len() > 0 && s.last() == '\r' {
        s.drop_last()
    } else {
        s
    }
}

/// The lines of `cur + s` where `cur` is the unfinished line read so far.
pub open spec fn lines_from(s: Seq<char>, cur: Seq<char>) -> Seq<Seq<char>>
    decreases s.len(),
{
    if s.len() == 0 {
        if cur.len() == 0 {
            Seq::empty()
        } else {
            seq![cur]
        }
    } else if s[0] == '\n' {
        seq![strip_cr(cur)] + lines_from(s.drop_first(), Seq::empty())
    } else {
        lines_from(s.drop_first(), cur.push(s[0]))
    }
}

/// The lines of `s`, as `str::lines` gives them.
pub open spec fn lines(s: Seq<char>) -> Seq<Seq<char>> {
    lines_from(s, Seq::empty())
}

/// The words of `cur + s` where `cur` is the unfinished word read so far.
pub open spec fn words_from(s: Seq<char>, cur: Seq<char>) -> Seq<Seq<char>>
    decreases s.len(),
{
    if s.len() == 0 {
        if cur.len() == 0 {
            Seq::empty()
        } else {
            seq![cur]
        }
    } else if is_ws(s[0]) {
        (if cur.len() == 0 {
            Seq::empty()
        } else {
            seq![cur]
        }) + words_from(s.drop_first(), Seq::empty())
    } else {
        words_from(s.drop_first(), cur.push(s[0]))
    }
}

/// The whitespace-separated words of `s` (`str::split_whitespace`).
pub open spec fn words(s: Seq<char>) -> Seq<Seq<char>> {
    words_from(s, Seq::empty())
}

/// At most `n` pieces of `cur + s` separated by `sep`, the last holding the rest.
pub open spec fn splitn_from(s: Seq<char>, cur: Seq<char>, n: nat, sep: char) -> Seq<Seq<char>>
    decreases s.len(),
{
    if n <= 1 {
        seq![cur + s]
    } else if s.len() == 0 {
        seq![cur]
    } else if s[0] == sep {
        seq![cur] + splitn_from(s.drop_first(), Seq::empty(), (n - 1) as nat, sep)
    } else {
        splitn_from(s.drop_first(), cur.push(s[0]), n, sep)
    }
}

/// `str::splitn(n, sep)` for `n >= 1`.
pub open spec fn splitn(s: Seq<char>, n: nat, sep: char) -> Seq<Seq<char>> {
    splitn_from(s, Seq::empty(), n, sep)
}

/// The pieces of `cur + s` between separators `sep`.
pub open spec fn split_from(s: Seq<char>, cur: Seq<char>, sep: char) -> Seq<Seq<char>>
    decreases s.len(),
{
    if s.len() == 0 {
        seq![cur]
    } else if s[0] == sep {
        seq![cur] + split_from(s.drop_first(), Seq::empty(), sep)
    } else {
        split_from(s.drop_first(), cur.push(s[0]), sep)
    }
}

/// `str::split(sep)`: every piece between separators.
pub open spec fn split(s: Seq<char>, sep: char) -> Seq<Seq<char>> {
    split_from(s, Seq::empty(), sep)
}

/// `c` is an ASCII decimal digit.
pub open spec fn is_digit(c: char) -> bool {
    '0' <= c && c <= '9'
}

/// Every character of `s` is an ASCII decimal digit.
pub open spec fn all_digits(s: Seq<char>) -> bool {
    forall|i: int| 0 <= i < s.len() ==> is_digit(#[trigger] s[i])
}

/// The value of the decimal numeral `s`.
pub open spec fn decimal_value(s: Seq<char>) -> nat
    decreases s.len(),
{
    if s.len() == 0 {
        0
    } else {
        decimal_value(s.drop_last()) * 10 + ((s.last() as u32) - ('0' as u32)) as nat
    }
}

/// The digits of a numeral after an optional leading `+`.
pub open spec fn unsigned_digits(s: Seq<char>) -> Seq<char> {
    if s.len() > 0 && s[0] == '+' {
        s.drop_first()
    } else {
        s
    }
}

/// `s.parse::<u64>()` bounded by `max`: the value when `s` is a numeral not above `max`.
pub open spec fn parse_bounded(s: Seq<char>, max: nat) -> Option<nat> {
    let d = unsigned_digits(s);
    if d.len() > 0 && all_digits(d) && decimal_value(d) <= max {
        Some(decimal_value(d))
    } else {
        None
    }
}

/// `s.parse::<u32>()`.
pub open spec fn parse_u32(s: Seq<char>) -> Option<nat> {
    parse_bounded(s, u32::MAX as nat)
}

/// `s.parse::<usize>()`.
pub open spec fn parse_usize(s: Seq<char>) -> Option<nat> {
    parse_bounded(s, usize::MAX as nat)
}

/// The character of the decimal digit `d`.
pub open spec fn digit_char(d: nat) -> char {
    if d == 0 { '0' }
    else if d == 1 { '1' }
    else if d == 2 { '2' }
    else if d == 3 { '3' }
    else if d == 4 { '4' }
    else if d == 5 { '5' }
    else if d == 6 { '6' }
    else if d == 7 { '7' }
    else if d == 8 { '8' }
    else { '9' }
}

/// The decimal rendering of `n` (`Display` of an unsigned integer).
pub open spec fn decimal(n: nat) -> Seq<char>
    decreases n,
{
    if n < 10 {
        seq![digit_char(n)]
    } else {
        decimal(n / 10).push(digit_char(n % 10))
    }
}

/// The pieces of `v` with `sep` between consecutive pieces (`join`).
pub open spec fn join(v: Seq<Seq<char>>, sep: Seq<char>) -> Seq<char>
    decreases v.len(),
{
    if v.len() == 0 {
        Seq::empty()
    } else if v.len() == 1 {
        v[0]
    } else {
        join(v.drop_last(), sep) + sep + v.last()
    }
}

/// `s` written `n` times (`str::repeat`).
pub open spec fn repeat(s: Seq<char>, n: nat) -> Seq<char>
    decreases n,
{
    if n == 0 {
        Seq::empty()
    } else {
        repeat(s, (n - 1) as nat) + s
    }
}

/// The string views of a vector of strings.
pub open spec fn views(v: Seq<String>) -> Seq<Seq<char>> {
    v.map_values(|x: String| x@)
}

// ---------------------------------------------------------------------------
// Lemmas
// ---------------------------------------------------------------------------

pub proof fn lemma_skip_first(s: Seq<char>, i: int)
    requires
        0 <= i < s.len(),
    ensures
        s.skip(i).drop_first() == s.skip(i + 1),
        s.skip(i)[0] == s[i],
        s.skip(i).len() > 0,
{
    assert(s.skip(i).drop_first() =~= s.skip(i + 1));
}

pub proof fn lemma_take_last(s: Seq<char>, j: int)
    requires
        0 < j <= s.len(),
    ensures
        s.take(j).drop_last() == s.take(j - 1),
        s.take(j).last() == s[j - 1],
        s.take(j).len() > 0,
{
    assert(s.take(j).drop_last() =~= s.take(j - 1));
}

/// Trimming the front stops at the first non-whitespace character.
pub proof fn lemma_trim_start_skip(s: Seq<char>, i: int)
    requires
        0 <= i <= s.len(),
        forall|k: int| 0 <= k < i ==> is_ws(#[trigger] s[k]),
    ensures
        trim_start(s) == trim_start(s.skip(i)),
    decreases i,
{
    if i > 0 {
        lemma_trim_start_skip(s, i - 1);
        lemma_skip_first(s, i - 1);
    } else {
        assert(s.skip(0) =~= s);
    }
}

/// Trimming the back stops at the last non-whitespace character.
pub proof fn lemma_trim_end_take(s: Seq<char>, j: int)
    requires
        0 <= j <= s.len(),
        forall|k: int| j <= k < s.len() ==> is_ws(#[trigger] s[k]),
    ensures
        trim_end(s) == trim_end(s.take(j)),
    decreases s.len() - j,
{
    if j < s.len() {
        lemma_trim_end_take(s, j + 1);
        lemma_take_last(s, j + 1);
    } else {
        assert(s.take(j) =~= s);
    }
}

/// An occurrence with none before it is what `find` gives.
pub proof fn lemma_first_occurrence(s: Seq<char>, p: Seq<char>, i: int)
    requires
        occurs_at(s, p, i),
        forall|j: int| 0 <= j < i ==> !occurs_at(s, p, j),
    ensures
        find(s, p) == Some(i),
{
    reveal(find);
    let w = choose|x: int| occurs_at(s, p, x) && forall|j: int| 0 <= j < x ==> !occurs_at(s, p, j);
    assert(occurs_at(s, p, w) && forall|j: int| 0 <= j < w ==> !occurs_at(s, p, j));
    if w < i {
        assert(!occurs_at(s, p, w));
    }
    if w > i {
        assert(!occurs_at(s, p, i));
    }
}

pub proof fn lemma_decimal_value_push(s: Seq<char>, c: char)
    ensures
        decimal_value(s.push(c)) == decimal_value(s) * 10 + ((c as u32) - ('0' as u32)) as nat,
{
    assert(s.push(c).drop_last() =~= s);
}

pub proof fn lemma_join_push(v: Seq<Seq<char>>, x: Seq<char>, sep: Seq<char>)
    ensures
        join(v.push(x), sep) == if v.len() == 0 { x } else { join(v, sep) + sep + x },
{
    assert(v.push(x).drop_last() =~= v);
}

// ---------------------------------------------------------------------------
// Executable operations
// ---------------------------------------------------------------------------

/// Appends one character (`String::push`).
#[verifier::external_body]
pub(crate) fn push_char(s: &mut String, c: char)
    ensures
        final(s)@ == old(s)@.push(c),
{
    s.push(c);
}

/// The characters of `s`, in order.
pub fn chars_of(s: &str) -> (v: Vec<char>)
    ensures
        v@ == s@,
{
    let mut v: Vec<char> = Vec::new();
    for c in it: s.chars()
        invariant
            v@ == it.seq().take(it.index() as int),
            it.seq() == s@,
    {
        v.push(c);
    }
    v
}

/// The string made of the characters `v[from..to]`.
pub fn string_of(v: &Vec<char>, from: usize, to: usize) -> (r: String)
    requires
        from <= to <= v.len(),
    ensures
        r@ == v@.subrange(from as int, to as int),
{
    let mut r = String::new();
    let mut i = from;
    while i < to
        invariant
            from <= i <= to <= v.len(),
            r@ == v@.subrange(from as int, i as int),
        decreases to - i,
    {
        push_char(&mut r, v[i]);
        assert(v@.subrange(from as int, i + 1) =~= v@.subrange(from as int, i as int).push(v@[i as int]));
        i = i + 1;
    }
    r
}

/// An owned copy of `s`.
pub fn owned(s: &str) -> (r: String)
    ensures
        r@ == s@,
{
    String::from_str(s)
}

/// `c.is_whitespace()`.
pub fn is_ws_char(c: char) -> (b: bool)
    ensures
        b == is_ws(c),
{
    let u = c as u32;
    c == '\t' || c == '\n' || c == '\u{0B}' || c == '\u{0C}' || c == '\r' || c == ' '
        || c == '\u{85}' || c == '\u{A0}' || c == '\u{1680}' || (0x2000 <= u && u <= 0x200A)
        || c == '\u{2028}' || c == '\u{2029}' || c == '\u{202F}' || c == '\u{205F}'
        || c == '\u{3000}'
}

/// `s.trim()`, as an owned string.
pub fn trim_str(s: &str) -> (r: String)
    ensures
        r@ == trim(s@),
{
    let v = chars_of(s);
    let n = v.len();
    let mut i: usize = 0;
    while i < n && is_ws_char(v[i])
        invariant
            0 <= i <= n,
            n == v@.len(),
            forall|k: int| 0 <= k < i ==> is_ws(#[trigger] v@[k]),
        decreases n - i,
    {
        i = i + 1;
    }
    proof {
        lemma_trim_start_skip(v@, i as int);
    }
    let mut j: usize = n;
    while j > i && is_ws_char(v[j - 1])
        invariant
            i <= j <= n,
            n == v@.len(),
            forall|k: int| j <= k < n ==> is_ws(#[trigger] v@[k]),
        decreases j,
    {
        j = j - 1;
    }
    let ghost t = v@.skip(i as int);
    proof {
        if i < n {
            assert(!is_ws(t[0]));
            assert(trim_start(t) == t);
        } else {
            assert(t.len() == 0);
        }
        assert forall|k: int| (j - i) <= k < t.len() implies is_ws(#[trigger] t[k]) by {
            assert(t[k] == v@[k + i]);
        }
        lemma_trim_end_take(t, (j - i) as int);
        if j > i {
            assert(!is_ws(t.take((j - i) as int).last()));
        }
        assert(t.take((j - i) as int) =~= v@.subrange(i as int, j as int));
    }
    string_of(&v, i, j)
}

/// `s` starts with `p`.
pub fn starts_with(s: &str, p: &str) -> (b: bool)
    ensures
        b == has_prefix(s@, p@),
{
    let sv = chars_of(s);
    let pv = chars_of(p);
    if pv.len() > sv.len() {
        return false;
    }
    let mut i: usize = 0;
    while i < pv.len()
        invariant
            pv.len() <= sv.len(),
            sv@ == s@,
            pv@ == p@,
            0 <= i <= pv.len(),
            forall|k: int| 0 <= k < i ==> sv@[k] == pv@[k],
        decreases pv.len() - i,
    {
        if sv[i] != pv[i] {
            assert(sv@.take(pv@.len() as int)[i as int] != pv@[i as int]);
            return false;
        }
        i = i + 1;
    }
    assert(sv@.take(pv@.len() as int) =~= pv@);
    true
}

/// `s` ends with `p`.
pub fn ends_with(s: &str, p: &str) -> (b: bool)
    ensures
        b == has_suffix(s@, p@),
{
    let sv = chars_of(s);
    let pv = chars_of(p);
    if pv.len() > sv.len() {
        return false;
    }
    let off = sv.len() - pv.len();
    let mut i: usize = 0;
    while i < pv.len()
        invariant
            pv.len() <= sv.len(),
            off == sv.len() - pv.len(),
            sv@ == s@,
            pv@ == p@,
            0 <= i <= pv.len(),
            forall|k: int| 0 <= k < i ==> sv@[off + k] == pv@[k],
        decreases pv.len() - i,
    {
        if sv[off + i] != pv[i] {
            assert(sv@.skip(off as int)[i as int] != pv@[i as int]);
            return false;
        }
        i = i + 1;
    }
    assert(sv@.skip(off as int) =~= pv@);
    true
}

/// Whether `p` occurs in `s` at position `i` (characters).
pub fn matches_at(sv: &Vec<char>, pv: &Vec<char>, i: usize) -> (b: bool)
    ensures
        b == occurs_at(sv@, pv@, i as int),
{
    if i > sv.len() || pv.len() > sv.len() - i {
        return false;
    }
    let mut k: usize = 0;
    while k < pv.len()
        invariant
            i + pv.len() <= sv.len(),
            0 <= k <= pv.len(),
            forall|m: int| 0 <= m < k ==> sv@[i + m] == pv@[m],
        decreases pv.len() - k,
    {
        if sv[i + k] != pv[k] {
            assert(sv@.subrange(i as int, i + pv.len())[k as int] != pv@[k as int]);
            return false;
        }
        k = k + 1;
    }
    assert(sv@.subrange(i as int, i + pv.len()) =~= pv@);
    true
}

/// The first position of `p` in `sv` (characters), if any.
pub fn find_in(sv: &Vec<char>, pv: &Vec<char>) -> (r: Option<usize>)
    ensures
        r matches Some(i) ==> find(sv@, pv@) == Some(i as int),
        r is None ==> find(sv@, pv@) is None,
{
    let mut i: usize = 0;
    while i < sv.len()
        invariant
            0 <= i <= sv.len(),
            forall|j: int| 0 <= j < i ==> !occurs_at(sv@, pv@, j),
        decreases sv.len() - i,
    {
        if matches_at(sv, pv, i) {
            proof {
                lemma_first_occurrence(sv@, pv@, i as int);
            }
            return Some(i);
        }
        i = i + 1;
    }
    if matches_at(sv, pv, i) {
        proof {
            lemma_first_occurrence(sv@, pv@, i as int);
        }
        return Some(i);
    }
    assert forall|j: int| !occurs_at(sv@, pv@, j) by {
        if 0 <= j <= i {
        } else if j > i {
            assert(!(j + pv@.len() <= sv@.len()));
        }
    }
    reveal(find);
    None
}

/// `s` contains `p`.
pub fn str_contains(s: &str, p: &str) -> (b: bool)
    ensures
        b == contains(s@, p@),
{
    reveal(find);
    let sv = chars_of(s);
    let pv = chars_of(p);
    let r = find_in(&sv, &pv);
    r.is_some()
}

/// `s` contains the character `c`.
pub fn contains_char(s: &str, c: char) -> (b: bool)
    ensures
        b == has_char(s@, c),
{
    let v = chars_of(s);
    let mut i: usize = 0;
    while i < v.len()
        invariant
            0 <= i <= v.len(),
            v@ == s@,
            forall|k: int| 0 <= k < i ==> v@[k] != c,
        decreases v.len() - i,
    {
        if v[i] == c {
            return true;
        }
        i = i + 1;
    }
    false
}

/// Two strings are equal.
pub fn str_eq(a: &str, b: &str) -> (r: bool)
    ensures
        r == (a@ == b@),
{
    let av = chars_of(a);
    let bv = chars_of(b);
    if av.len() != bv.len() {
        return false;
    }
    let mut i: usize = 0;
    while i < av.len()
        invariant
            av.len() == bv.len(),
            av@ == a@,
            bv@ == b@,
            0 <= i <= av.len(),
            forall|k: int| 0 <= k < i ==> av@[k] == bv@[k],
        decreases av.len() - i,
    {
        if av[i] != bv[i] {
            return false;
        }
        i = i + 1;
    }
    assert(av@ =~= bv@);
    true
}

/// The lines of `s` (`str::lines`), as owned strings.
pub fn lines_of(s: &str) -> (r: Vec<String>)
    ensures
        r.deep_view() == lines(s@),
{
    let v = chars_of(s);
    let n = v.len();
    let mut out: Vec<String> = Vec::new();
    let mut start: usize = 0;
    assert(v@.skip(0) =~= v@);
    assert(v@.subrange(0, 0) =~= Seq::<char>::empty());
    assert(out.deep_view() + lines_from(v@.skip(0), v@.subrange(0, 0)) =~= lines(s@));
    for i in 0..n
        invariant
            n == v@.len(),
            v@ == s@,
            start <= i <= n,
            out.deep_view() + lines_from(v@.skip(i as int), v@.subrange(start as int, i as int))
                == lines(s@),
    {
        proof {
            lemma_skip_first(v@, i as int);
        }
        let ghost cur = v@.subrange(start as int, i as int);
        if v[i] == '\n' {
            let end = if i > start && v[i - 1] == '\r' { i - 1 } else { i };
            let line = string_of(&v, start, end);
            proof {
                if i > start && v@[i - 1] == '\r' {
                    assert(cur.drop_last() =~= v@.subrange(start as int, end as int));
                } else {
                    assert(cur =~= v@.subrange(start as int, end as int));
                }
                assert(line@ == strip_cr(cur));
            }
            let ghost old_out = out.deep_view();
            out.push(line);
            proof {
                assert(out.deep_view() =~= old_out.push(strip_cr(cur)));
                assert(v@.subrange((i + 1) as int, (i + 1) as int) =~= Seq::<char>::empty());
                assert(out.deep_view() + lines_from(v@.skip(i + 1), Seq::empty())
                    =~= old_out + (seq![strip_cr(cur)] + lines_from(v@.skip(i + 1), Seq::empty())));
            }
            start = i + 1;
        } else {
            proof {
                assert(cur.push(v@[i as int]) =~= v@.subrange(start as int, i + 1));
            }
        }
    }
    if start < n {
        let line = string_of(&v, start, n);
        let ghost old_out = out.deep_view();
        out.push(line);
        proof {
            assert(out.deep_view() =~= old_out.push(v@.subrange(start as int, n as int)));
        }
    }
    proof {
        assert(v@.skip(n as int).len() == 0);
        if start == n {
            assert(out.deep_view() =~= out.deep_view() + Seq::<Seq<char>>::empty());
        }
    }
    out
}

/// The whitespace-separated words of `s` (`str::split_whitespace`), as owned strings.
pub fn words_of(s: &str) -> (r: Vec<String>)
    ensures
        r.deep_view() == words(s@),
{
    let v = chars_of(s);
    let n = v.len();
    let mut out: Vec<String> = Vec::new();
    let mut start: usize = 0;
    assert(v@.skip(0) =~= v@);
    assert(v@.subrange(0, 0) =~= Seq::<char>::empty());
    assert(out.deep_view() + words_from(v@.skip(0), v@.subrange(0, 0)) =~= words(s@));
    for i in 0..n
        invariant
            n == v@.len(),
            v@ == s@,
            start <= i <= n,
            out.deep_view() + words_from(v@.skip(i as int), v@.subrange(start as int, i as int))
                == words(s@),
    {
        proof {
            lemma_skip_first(v@, i as int);
        }
        let ghost cur = v@.subrange(start as int, i as int);
        if is_ws_char(v[i]) {
            let ghost old_out = out.deep_view();
            if start < i {
                let w = string_of(&v, start, i);
                out.push(w);
                proof {
                    assert(out.deep_view() =~= old_out.push(cur));
                    assert(out.deep_view() + words_from(v@.skip(i + 1), Seq::empty())
                        =~= old_out + (seq![cur] + words_from(v@.skip(i + 1), Seq::empty())));
                }
            } else {
                proof {
                    assert(cur.len() == 0);
                    assert(Seq::<Seq<char>>::empty() + words_from(v@.skip(i + 1), Seq::empty())
                        =~= words_from(v@.skip(i + 1), Seq::empty()));
                }
            }
            proof {
                assert(v@.subrange((i + 1) as int, (i + 1) as int) =~= Seq::<char>::empty());
            }
            start = i + 1;
        } else {
            proof {
                assert(cur.push(v@[i as int]) =~= v@.subrange(start as int, i + 1));
            }
        }
    }
    if start < n {
        let w = string_of(&v, start, n);
        let ghost old_out = out.deep_view();
        out.push(w);
        proof {
            assert(out.deep_view() =~= old_out.push(v@.subrange(start as int, n as int)));
        }
    }
    proof {
        assert(v@.skip(n as int).len() == 0);
        if start == n {
            assert(out.deep_view() =~= out.deep_view() + Seq::<Seq<char>>::empty());
        }
    }
    out
}

/// `s.splitn(n, sep)` for `n >= 1`, as owned strings.
pub fn splitn_of(s: &str, n: usize, sep: char) -> (r: Vec<String>)
    requires
        n >= 1,
    ensures
        r.deep_view() == splitn(s@, n as nat, sep),
{
    let v = chars_of(s);
    let len = v.len();
    let mut out: Vec<String> = Vec::new();
    let mut start: usize = 0;
    let mut left: usize = n;
    assert(v@.skip(0) =~= v@);
    assert(v@.subrange(0, 0) =~= Seq::<char>::empty());
    assert(out.deep_view() + splitn_from(v@.skip(0), v@.subrange(0, 0), n as nat, sep) =~= splitn(s@, n as nat, sep));
    let mut i: usize = 0;
    while i < len && left > 1
        invariant
            len == v@.len(),
            v@ == s@,
            start <= i <= len,
            left >= 1,
            out.deep_view() + splitn_from(v@.skip(i as int), v@.subrange(start as int, i as int), left as nat, sep)
                == splitn(s@, n as nat, sep),
        decreases len - i,
    {
        proof {
            lemma_skip_first(v@, i as int);
        }
        let ghost cur = v@.subrange(start as int, i as int);
        if v[i] == sep {
            let piece = string_of(&v, start, i);
            let ghost old_out = out.deep_view();
            out.push(piece);
            proof {
                assert(out.deep_view() =~= old_out.push(cur));
                assert(v@.subrange((i + 1) as int, (i + 1) as int) =~= Seq::<char>::empty());
                assert(out.deep_view() + splitn_from(v@.skip(i + 1), Seq::empty(), (left - 1) as nat, sep)
                    =~= old_out + (seq![cur] + splitn_from(v@.skip(i + 1), Seq::empty(), (left - 1) as nat, sep)));
            }
            start = i + 1;
            left = left - 1;
        } else {
            proof {
                assert(cur.push(v@[i as int]) =~= v@.subrange(start as int, i + 1));
            }
        }
        i = i + 1;
    }
    let last = string_of(&v, start, len);
    let ghost old_out = out.deep_view();
    proof {
        let cur = v@.subrange(start as int, i as int);
        if left <= 1 {
            assert(cur + v@.skip(i as int) =~= v@.subrange(start as int, len as int));
        } else {
            assert(i == len);
            assert(cur =~= v@.subrange(start as int, len as int));
        }
    }
    out.push(last);
    proof {
        assert(out.deep_view() =~= old_out.push(v@.subrange(start as int, len as int)));
        assert(out.deep_view() =~= old_out + seq![v@.subrange(start as int, len as int)]);
    }
    out
}

/// `s.split(sep)`, as owned strings.
pub fn split_of(s: &str, sep: char) -> (r: Vec<String>)
    ensures
        r.deep_view() == split(s@, sep),
{
    let v = chars_of(s);
    let len = v.len();
    let mut out: Vec<String> = Vec::new();
    let mut start: usize = 0;
    assert(v@.skip(0) =~= v@);
    assert(v@.subrange(0, 0) =~= Seq::<char>::empty());
    assert(out.deep_view() + split_from(v@.skip(0), v@.subrange(0, 0), sep) =~= split(s@, sep));
    for i in 0..len
        invariant
            len == v@.len(),
            v@ == s@,
            start <= i <= len,
            out.deep_view() + split_from(v@.skip(i as int), v@.subrange(start as int, i as int), sep)
                == split(s@, sep),
    {
        proof {
            lemma_skip_first(v@, i as int);
        }
        let ghost cur = v@.subrange(start as int, i as int);
        if v[i] == sep {
            let piece = string_of(&v, start, i);
            let ghost old_out = out.deep_view();
            out.push(piece);
            proof {
                assert(out.deep_view() =~= old_out.push(cur));
                assert(v@.subrange((i + 1) as int, (i + 1) as int) =~= Seq::<char>::empty());
                assert(out.deep_view() + split_from(v@.skip(i + 1), Seq::empty(), sep)
                    =~= old_out + (seq![cur] + split_from(v@.skip(i + 1), Seq::empty(), sep)));
            }
            start = i + 1;
        } else {
            proof {
                assert(cur.push(v@[i as int]) =~= v@.subrange(start as int, i + 1));
            }
        }
    }
    let last = string_of(&v, start, len);
    let ghost old_out = out.deep_view();
    out.push(last);
    proof {
        assert(v@.skip(len as int).len() == 0);
        assert(out.deep_view() =~= old_out + seq![v@.subrange(start as int, len as int)]);
    }
    out
}

/// A decimal numeral's value never falls when more digits follow.
pub proof fn lemma_decimal_value_prefix(s: Seq<char>, k: int)
    requires
        0 <= k <= s.len(),
        all_digits(s),
    ensures
        decimal_value(s.take(k)) <= decimal_value(s),
    decreases s.len() - k,
{
    if k < s.len() {
        lemma_decimal_value_prefix(s, k + 1);
        assert(s.take(k + 1).drop_last() =~= s.take(k));
        assert(is_digit(s[k]));
    } else {
        assert(s.take(k) =~= s);
    }
}

/// `s.parse()` into an unsigned integer type whose largest value is `max`.
pub fn parse_bounded_of(s: &str, max: u64) -> (r: Option<u64>)
    ensures
        r matches Some(x) ==> parse_bounded(s@, max as nat) == Some(x as nat),
        r is None ==> parse_bounded(s@, max as nat) is None,
{
    let v = chars_of(s);
    let start: usize = if v.len() > 0 && v[0] == '+' { 1 } else { 0 };
    let ghost d = unsigned_digits(s@);
    proof {
        if start == 1 {
            assert(d =~= v@.skip(1));
        } else {
            assert(d =~= v@.skip(0));
        }
    }
    if start >= v.len() {
        return None;
    }
    let mut acc: u128 = 0;
    let mut i: usize = start;
    while i < v.len()
        invariant
            v@ == s@,
            d == v@.skip(start as int),
            d == unsigned_digits(s@),
            start <= i <= v.len(),
            start < v.len(),
            all_digits(d.take(i - start)),
            acc as nat == decimal_value(d.take(i - start)),
            acc <= max,
        decreases v.len() - i,
    {
        let c = v[i];
        let ghost t = d.take(i - start);
        assert(d[i - start] == c);
        if !('0' <= c && c <= '9') {
            proof {
                assert(!is_digit(d[i - start]));
                assert(!all_digits(d));
            }
            return None;
        }
        let dig: u128 = ((c as u32) - ('0' as u32)) as u128;
        let next: u128 = acc * 10 + dig;
        proof {
            assert(d.take(i - start + 1) =~= t.push(c));
            lemma_decimal_value_push(t, c);
        }
        if next > max as u128 {
            proof {
                assert(next as nat == decimal_value(d.take(i - start + 1)));
                if all_digits(d) {
                    lemma_decimal_value_prefix(d, i - start + 1);
                    assert(decimal_value(d) > max);
                }
            }
            return None;
        }
        acc = next;
        i = i + 1;
    }
    proof {
        assert(d.take(i - start) =~= d);
    }
    Some(acc as u64)
}

/// `s.parse::<u32>()`.
pub fn parse_u32_of(s: &str) -> (r: Option<u32>)
    ensures
        r matches Some(x) ==> parse_u32(s@) == Some(x as nat),
        r is None ==> parse_u32(s@) is None,
{
    match parse_bounded_of(s, u32::MAX as u64) {
        Some(x) => Some(x as u32),
        None => None,
    }
}

/// `s.parse::<usize>()`.
pub fn parse_usize_of(s: &str) -> (r: Option<usize>)
    ensures
        r matches Some(x) ==> parse_usize(s@) == Some(x as nat),
        r is None ==> parse_usize(s@) is None,
{
    match parse_bounded_of(s, usize::MAX as u64) {
        Some(x) => Some(x as usize),
        None => None,
    }
}

/// The one-character string of a decimal digit.
pub fn digit_str(d: u64) -> (r: &'static str)
    requires
        d < 10,
    ensures
        r@ == seq![digit_char(d as nat)],
{
    proof {
        reveal_strlit("0");
        reveal_strlit("1");
        reveal_strlit("2");
        reveal_strlit("3");
        reveal_strlit("4");
        reveal_strlit("5");
        reveal_strlit("6");
        reveal_strlit("7");
        reveal_strlit("8");
        reveal_strlit("9");
    }
    if d == 0 { "0" }
    else if d == 1 { "1" }
    else if d == 2 { "2" }
    else if d == 3 { "3" }
    else if d == 4 { "4" }
    else if d == 5 { "5" }
    else if d == 6 { "6" }
    else if d == 7 { "7" }
    else if d == 8 { "8" }
    else { "9" }
}

/// The decimal rendering of `n` (`n.to_string()`).
pub fn decimal_of(n: u64) -> (r: String)
    ensures
        r@ == decimal(n as nat),
    decreases n,
{
    if n < 10 {
        String::from_str(digit_str(n))
    } else {
        let mut r = decimal_of(n / 10);
        r.append(digit_str(n % 10));
        r
    }
}

/// `v.join(sep)`.
pub fn join_of(v: &Vec<String>, sep: &str) -> (r: String)
    ensures
        r@ == join(v.deep_view(), sep@),
{
    let mut r = String::new();
    for i in 0..v.len()
        invariant
            r@ == join(v.deep_view().take(i as int), sep@),
    {
        proof {
            lemma_join_push(v.deep_view().take(i as int), v.deep_view()[i as int], sep@);
            assert(v.deep_view().take(i + 1) =~= v.deep_view().take(i as int).push(v.deep_view()[i as int]));
        }
        if i > 0 {
            r.append(sep);
        }
        r.append(v[i].as_str());
    }
    assert(v.deep_view().take(v.len() as int) =~= v.deep_view());
    r
}

/// `s.repeat(n)`.
pub fn repeat_of(s: &str, n: usize) -> (r: String)
    ensures
        r@ == repeat(s@, n as nat),
{
    let mut r = String::new();
    for i in 0..n
        invariant
            r@ == repeat(s@, i as nat),
    {
        r.append(s);
    }
    r
}

/// The first `n` characters of `s` (`s.chars().take(n).collect()`).
pub fn take_chars(s: &str, n: usize) -> (r: String)
    ensures
        r@ == s@.take(if n <= s@.len() { n as int } else { s@.len() as int }),
{
    let v = chars_of(s);
    let k = if n <= v.len() { n } else { v.len() };
    string_of(&v, 0, k)
}

/// `s.trim_start_matches(p)`: `s` without every leading copy of `p`.
pub open spec fn strip_prefixes(s: Seq<char>, p: Seq<char>) -> Seq<char>
    decreases s.len(),
{
    if p.len() > 0 && has_prefix(s, p) {
        strip_prefixes(s.skip(p.len() as int), p)
    } else {
        s
    }
}

/// The decimal rendering of a signed integer (`Display` of `i64`).
pub open spec fn signed_decimal(n: int) -> Seq<char> {
    if n < 0 {
        seq!['-'] + decimal((-n) as nat)
    } else {
        decimal(n as nat)
    }
}

/// `n.to_string()` for a signed integer.
pub fn signed_decimal_of(n: i64) -> (r: String)
    ensures
        r@ == signed_decimal(n as int),
{
    if n < 0 {
        let mag: u64 = (0i128 - n as i128) as u64;
        let mut r = String::from_str("-");
        let d = decimal_of(mag);
        r.append(d.as_str());
        proof {
            reveal_strlit("-");
        }
        r
    } else {
        decimal_of(n as u64)
    }
}

/// `s.parse::<i64>()`: an optional sign, then decimal digits, in range.
pub open spec fn parse_i64(s: Seq<char>) -> Option<int> {
    if s.len() > 0 && s[0] == '-' {
        let d = s.drop_first();
        if d.len() > 0 && all_digits(d) && decimal_value(d) <= 0x8000_0000_0000_0000 {
            Some(-(decimal_value(d) as int))
        } else {
            None
        }
    } else {
        match parse_bounded(s, 0x7fff_ffff_ffff_ffff) {
            Some(v) => Some(v as int),
            None => None,
        }
    }
}

/// `s.parse::<i64>()`.
pub fn parse_i64_of(s: &str) -> (r: Option<i64>)
    ensures
        r matches Some(x) ==> parse_i64(s@) == Some(x as int),
        r is None ==> parse_i64(s@) is None,
{
    let v = chars_of(s);
    if v.len() > 0 && v[0] == '-' {
        let rest = string_of(&v, 1, v.len());
        proof {
            assert(rest@ =~= s@.drop_first());
            assert(unsigned_digits(rest@) == rest@ || (rest@.len() > 0 && rest@[0] == '+'));
        }
        if v.len() > 1 && v[1] == '+' {
            return None;
        }
        proof {
            if rest@.len() > 0 {
                assert(rest@[0] == v@[1]);
            }
            assert(unsigned_digits(rest@) == rest@);
        }
        match parse_bounded_of(rest.as_str(), 0x8000_0000_0000_0000) {
            Some(m) => {
                let r: i64 = (0i128 - m as i128) as i64;
                Some(r)
            },
            None => None,
        }
    } else {
        match parse_bounded_of(s, 0x7fff_ffff_ffff_ffff) {
            Some(m) => Some(m as i64),
            None => None,
        }
    }
}

/// The segments of a path that name something: neither empty nor `.`.
pub open spec fn path_segments(s: Seq<Seq<char>>) -> Seq<Seq<char>>
    decreases s.len(),
{
    if s.len() == 0 {
        Seq::empty()
    } else {
        let rest = path_segments(s.drop_last());
        if s.last().len() == 0 || s.last() == "."@ {
            rest
        } else {
            rest.push(s.last())
        }
    }
}

/// The last component of a `/`-separated path (`Path::file_name`): none for
/// a path without named components or ending in `..`.
pub open spec fn file_name(p: Seq<char>) -> Option<Seq<char>> {
    let segs = path_segments(split(p, '/'));
    if segs.len() == 0 || segs.last() == ".."@ {
        None
    } else {
        Some(segs.last())
    }
}

/// `Path::new(p).file_name()`, as a string.
pub fn file_name_of(p: &str) -> (r: Option<String>)
    ensures
        r matches Some(n) ==> file_name(p@) == Some(n@),
        r is None ==> file_name(p@) is None,
{
    let parts = split_of(p, '/');
    let mut last: Option<usize> = None;
    let ghost all = parts.deep_view();
    for i in 0..parts.len()
        invariant
            all == parts.deep_view(),
            all == split(p@, '/'),
            match last {
                Some(k) => k < i && path_segments(all.take(i as int)).len() > 0
                    && path_segments(all.take(i as int)).last() == all[k as int],
                None => path_segments(all.take(i as int)).len() == 0,
            },
    {
        proof {
            assert(all.take(i + 1).drop_last() =~= all.take(i as int));
            assert(all.take(i + 1).last() == all[i as int]);
            reveal_strlit(".");
        }
        let seg = parts[i].as_str();
        if !seg.is_empty() && !str_eq(seg, ".") {
            last = Some(i);
        }
    }
    proof {
        assert(all.take(parts.len() as int) =~= all);
        reveal_strlit("..");
    }
    match last {
        Some(k) => {
            if str_eq(parts[k].as_str(), "..") {
                None
            } else {
                Some(owned(parts[k].as_str()))
            }
        },
        None => None,
    }
}

/// A copy of a vector of strings.
pub fn copy_strings(v: &Vec<String>) -> (r: Vec<String>)
    ensures
        r.deep_view() == v.deep_view(),
        r.len() == v.len(),
{
    let mut r: Vec<String> = Vec::new();
    for i in 0..v.len()
        invariant
            r.deep_view() == v.deep_view().take(i as int),
    {
        let ghost before = r.deep_view();
        r.push(owned(v[i].as_str()));
        proof {
            assert(v.deep_view()[i as int] == v@[i as int]@);
            assert(r.deep_view() =~= before.push(v@[i as int]@));
            assert(v.deep_view().take(i + 1) =~= v.deep_view().take(i as int).push(v@[i as int]@));
        }
    }
    assert(v.deep_view().take(v.len() as int) =~= v.deep_view());
    r
}

/// Appends a copy of `s` to `v`.
pub fn push_copy(v: &mut Vec<String>, s: &str)
    ensures
        final(v).deep_view() == old(v).deep_view().push(s@),
{
    let ghost before = v.deep_view();
    v.push(owned(s));
    assert(v.deep_view() =~= before.push(s@));
}

/// `a < b` for strings: the order of their characters, a proper prefix first
/// (the byte order of UTF-8, which is that of the code points).
pub open spec fn lex_lt(a: Seq<char>, b: Seq<char>) -> bool
    decreases a.len(),
{
    if b.len() == 0 {
        false
    } else if a.len() == 0 {
        true
    } else if a[0] != b[0] {
        (a[0] as u32) < (b[0] as u32)
    } else {
        lex_lt(a.drop_first(), b.drop_first())
    }
}

/// `a < b` for strings.
pub fn str_lt(a: &str, b: &str) -> (r: bool)
    ensures
        r == lex_lt(a@, b@),
{
    let av = chars_of(a);
    let bv = chars_of(b);
    let mut i: usize = 0;
    assert(av@.skip(0) =~= av@);
    assert(bv@.skip(0) =~= bv@);
    while i < av.len() && i < bv.len() && av[i] == bv[i]
        invariant
            av@ == a@,
            bv@ == b@,
            i <= av.len(),
            i <= bv.len(),
            lex_lt(a@, b@) == lex_lt(av@.skip(i as int), bv@.skip(i as int)),
        decreases av.len() - i,
    {
        proof {
            assert(av@.skip(i as int).drop_first() =~= av@.skip(i + 1));
            assert(bv@.skip(i as int).drop_first() =~= bv@.skip(i + 1));
        }
        i = i + 1;
    }
    if i == bv.len() {
        assert(bv@.skip(i as int).len() == 0);
        false
    } else if i == av.len() {
        assert(av@.skip(i as int).len() == 0);
        true
    } else {
        assert(av@.skip(i as int)[0] == av@[i as int]);
        assert(bv@.skip(i as int)[0] == bv@[i as int]);
        (av[i] as u32) < (bv[i] as u32)
    }
}

/// Whether `char::is_numeric` holds of `c`: whether its Unicode general
/// category is one of those for numbers (Nd, Nl, No).
pub uninterp spec fn numeric_char(c: char) -> bool;

/// `char::is_numeric`. Claimed: the result is `numeric_char(c)`, and of the
/// ASCII characters exactly the digits are numeric. What `numeric_char`
/// gives beyond ASCII (Unicode's tables) is left unsaid.
#[verifier::external_body]
pub(crate) fn is_numeric_char(c: char) -> (r: bool)
    ensures
        r == numeric_char(c),
        (c as u32) < 128 ==> (r <==> is_digit(c)),
{
    c.is_numeric()
}

/// A found position lies within the string.
pub proof fn lemma_find_bound(s: Seq<char>, p: Seq<char>)
    ensures
        find(s, p) matches Some(i) ==> 0 <= i && i + p.len() <= s.len() && occurs_at(s, p, i),
{
    reveal(find);
    if contains(s, p) {
        let w = choose|i: int| occurs_at(s, p, i);
        lemma_first_occurrence_exists(s, p, w);
    }
}

/// Where `p` occurs, it occurs first somewhere.
proof fn lemma_first_occurrence_exists(s: Seq<char>, p: Seq<char>, w: int)
    requires
        occurs_at(s, p, w),
    ensures
        exists|i: int| occurs_at(s, p, i) && forall|j: int| 0 <= j < i ==> !occurs_at(s, p, j),
    decreases w,
{
    if exists|j: int| 0 <= j < w && occurs_at(s, p, j) {
        let j = choose|j: int| 0 <= j < w && occurs_at(s, p, j);
        lemma_first_occurrence_exists(s, p, j);
    }
}

/// Splitting yields at least one piece.
pub proof fn lemma_split_nonempty(s: Seq<char>, sep: char)
    ensures
        split(s, sep).len() >= 1,
{
    lemma_split_from_nonempty(s, Seq::empty(), sep);
}

proof fn lemma_split_from_nonempty(s: Seq<char>, cur: Seq<char>, sep: char)
    ensures
        split_from(s, cur, sep).len() >= 1,
    decreases s.len(),
{
    if s.len() > 0 {
        if s[0] == sep {
            lemma_split_from_nonempty(s.drop_first(), Seq::empty(), sep);
        } else {
            lemma_split_from_nonempty(s.drop_first(), cur.push(s[0]), sep);
        }
    }
}

} // verus!
