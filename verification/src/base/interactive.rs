//! Interactive choices: fuzzy ranking of candidates, the fallbacks taken when
//! no terminal is attached, and multi-step dialog plans. Showing the dialogs
//! themselves is left to the caller.
use vstd::prelude::*;
use crate::base::rank::{is_ranking, rank_desc, ranked_before};
use crate::base::text::owned;
use crate::{GitXError, Result, is_git_error};
use fuzzy_matcher::FuzzyMatcher;

verus! {

/// The score that the skim fuzzy matcher (default configuration) gives
/// `item` for `pattern`, or `None` when the pattern does not match.
pub uninterp spec fn skim_score(item: Seq<char>, pattern: Seq<char>) -> Option<i64>;

/// `SkimMatcherV2::default().fuzzy_match(item, pattern)`. Its result is a
/// function of the two strings alone and is named `skim_score`.
#[verifier::external_body]
fn fuzzy_match(item: &str, pattern: &str) -> (r: Option<i64>)
    ensures
        r == skim_score(item@, pattern@),
{
    fuzzy_matcher::skim::SkimMatcherV2::default().fuzzy_match(item, pattern)
}

/// Match `a` ranks before match `b`: higher score first, ties by position.
pub open spec fn match_before(a: (usize, i64), b: (usize, i64)) -> bool {
    a.1 > b.1 || (a.1 == b.1 && a.0 < b.0)
}

/// Item `k` matches with score `s`.
pub open spec fn is_match(items: Seq<&str>, query: Seq<char>, k: int, s: i64) -> bool {
    0 <= k < items.len() && skim_score(items[k]@, query) == Some(s)
}

/// `r` is what `Interactive::fuzzy_find` gives: the best `limit` matches
/// (all of them without a limit), best first, ties by position.
pub open spec fn is_fuzzy_result(items: Seq<&str>, query: Seq<char>, limit: Option<usize>, r: Seq<(usize, i64)>) -> bool {
    &&& forall|k: int| 0 <= k < r.len() ==> is_match(items, query, #[trigger] r[k].0 as int, r[k].1)
    &&& forall|a: int, b: int| 0 <= a < b < r.len() ==> match_before(#[trigger] r[a], #[trigger] r[b])
    &&& forall|k: int, s: i64| #[trigger] is_match(items, query, k, s) ==> (r.contains((k as usize, s))
        || (limit matches Some(n) && r.len() == n && (n == 0 || match_before(r.last(), (k as usize, s)))))
    &&& limit matches Some(n) ==> r.len() <= n
}

/// Interactive utilities with fuzzy search capabilities
pub struct Interactive;

impl Interactive {
    /// Find and rank items using fuzzy matching: the matching items' positions
    /// with their scores, best first, at most `limit` of them.
    pub fn fuzzy_find(items: &[&str], query: &str, limit: Option<usize>) -> (r: Vec<(usize, i64)>)
        ensures
            is_fuzzy_result(items@, query@, limit, r@),
    {
        // the matches in item order
        let mut idx: Vec<usize> = Vec::new();
        let mut sc: Vec<i64> = Vec::new();
        let mut keys: Vec<i128> = Vec::new();
        for i in 0..items.len()
            invariant
                idx.len() == sc.len() && sc.len() == keys.len(),
                forall|t: int| 0 <= t < idx.len() ==> #[trigger] idx@[t] < i,
                forall|t: int| 0 <= t < idx.len() ==> is_match(items@, query@, #[trigger] idx@[t] as int, sc@[t]),
                forall|t: int| 0 <= t < idx.len() ==> #[trigger] keys@[t] == sc@[t] as i128,
                forall|a: int, b: int| 0 <= a < b < idx.len() ==> #[trigger] idx@[a] < #[trigger] idx@[b],
                forall|k: int, s: i64| 0 <= k < i && #[trigger] is_match(items@, query@, k, s) ==> exists|t: int|
                    0 <= t < idx.len() && idx@[t] == k && sc@[t] == s,
        {
            let ghost old_idx = idx@;
            let ghost old_sc = sc@;
            match fuzzy_match(items[i], query) {
                Some(s) => {
                    idx.push(i);
                    sc.push(s);
                    keys.push(s as i128);
                    proof {
                        assert(idx@[idx.len() - 1] == i);
                        assert forall|k: int, s2: i64| 0 <= k < i + 1 && #[trigger] is_match(items@, query@, k, s2)
                            implies exists|t: int| 0 <= t < idx.len() && idx@[t] == k && sc@[t] == s2 by {
                            if k == i {
                                assert(idx@[old_idx.len() as int] == k && sc@[old_idx.len() as int] == s2);
                            } else {
                                let t = choose|t: int| 0 <= t < old_idx.len() && old_idx[t] == k && old_sc[t] == s2;
                                assert(idx@[t] == k && sc@[t] == s2);
                            }
                        }
                    }
                },
                None => {
                    proof {
                        assert forall|k: int, s2: i64| 0 <= k < i + 1 && #[trigger] is_match(items@, query@, k, s2)
                            implies exists|t: int| 0 <= t < idx.len() && idx@[t] == k && sc@[t] == s2 by {
                            if k == i {
                                assert(skim_score(items@[k]@, query@) is None);
                            }
                        }
                    }
                },
            }
        }
        let p = rank_desc(&keys);
        let n = match limit {
            Some(l) => if l < p.len() { l } else { p.len() },
            None => p.len(),
        };
        let mut r: Vec<(usize, i64)> = Vec::new();
        for k in 0..n
            invariant
                n <= p.len(),
                is_ranking(keys@, p@),
                idx.len() == sc.len() && sc.len() == keys.len(),
                forall|t: int| 0 <= t < idx.len() ==> is_match(items@, query@, #[trigger] idx@[t] as int, sc@[t]),
                forall|t: int| 0 <= t < idx.len() ==> #[trigger] keys@[t] == sc@[t] as i128,
                forall|a: int, b: int| 0 <= a < b < idx.len() ==> #[trigger] idx@[a] < #[trigger] idx@[b],
                r.len() == k,
                forall|m: int| 0 <= m < k ==> #[trigger] r@[m] == (idx@[p@[m] as int], sc@[p@[m] as int]),
        {
            let t = p[k];
            r.push((idx[t], sc[t]));
        }
        proof {
            assert forall|k: int| 0 <= k < r.len() implies is_match(items@, query@, #[trigger] r@[k].0 as int, r@[k].1) by {
                assert(r@[k] == (idx@[p@[k] as int], sc@[p@[k] as int]));
            }
            assert forall|a: int, b: int| 0 <= a < b < r.len() implies match_before(#[trigger] r@[a], #[trigger] r@[b]) by {
                let pa = p@[a] as int;
                let pb = p@[b] as int;
                assert(ranked_before(keys@, pa, pb));
                if pa < pb {
                    assert(idx@[pa] < idx@[pb]);
                } else if pa > pb {
                    assert(idx@[pb] < idx@[pa]);
                }
            }
            assert forall|k: int, s: i64| #[trigger] is_match(items@, query@, k, s) implies (r@.contains((k as usize, s))
                || (limit matches Some(lim) && r@.len() == lim && (lim == 0 || match_before(r@.last(), (k as usize, s))))) by {
                let t = choose|t: int| 0 <= t < idx.len() && idx@[t] == k && sc@[t] == s;
                assert(p@.contains(t as usize));
                let w = choose|w: int| 0 <= w < p.len() && p@[w] == t as usize;
                if w < n {
                    assert(r@[w] == (k as usize, s));
                } else if n > 0 {
                    let last = (n - 1) as int;
                    assert(ranked_before(keys@, p@[last] as int, p@[w] as int));
                    let pl = p@[last] as int;
                    if pl < t {
                        assert(idx@[pl] < idx@[t]);
                    } else if pl > t {
                        assert(idx@[t] < idx@[pl]);
                    }
                    assert(r@[last] == (idx@[pl], sc@[pl]));
                }
            }
        }
        r
    }

    /// The entries of the branch picker: the most recent branch marked 🌟,
    /// the others 📁. No branches is an error.
    pub fn branch_picker_items(branches: &Vec<String>) -> (r: Result<Vec<String>>)
        ensures
            branches.len() == 0 ==> is_git_error(r, "No branches available"@),
            branches.len() > 0 ==> (r matches Ok(items) && items.len() == branches.len() && forall|i: int|
                0 <= i < items.len() ==> #[trigger] items@[i]@ == (if i == 0 { "🌟 "@ } else { "📁 "@ })
                    + branches@[i]@),
    {
        if branches.len() == 0 {
            return Err(GitXError::GitCommand(owned("No branches available")));
        }
        let mut items: Vec<String> = Vec::new();
        for i in 0..branches.len()
            invariant
                items.len() == i,
                forall|k: int| 0 <= k < i ==> #[trigger] items@[k]@ == (if k == 0 { "🌟 "@ } else { "📁 "@ })
                    + branches@[k]@,
        {
            let mut item = if i == 0 { owned("🌟 ") } else { owned("📁 ") };
            item.append(branches[i].as_str());
            items.push(item);
        }
        Ok(items)
    }

    /// The prompt of the branch picker.
    pub fn branch_picker_prompt<'a>(prompt: Option<&'a str>) -> (r: &'a str)
        ensures
            r@ == match prompt {
                Some(p) => p@,
                None => "Select a branch"@,
            },
    {
        match prompt {
            Some(p) => p,
            None => "Select a branch",
        }
    }

    /// The branch chosen in the picker at entry `selection`.
    pub fn branch_picker(branches: &Vec<String>, selection: usize) -> (r: String)
        requires
            selection < branches.len(),
        ensures
            r@ == branches@[selection as int]@,
    {
        owned(branches[selection].as_str())
    }

    /// Select from a list with automatic fallback for non-interactive mode:
    /// `Some(first item)` without a terminal, `None` when the user is to choose.
    pub fn select_or_first(items: &Vec<String>, interactive: bool) -> (r: Result<Option<String>>)
        ensures
            items.len() == 0 ==> is_git_error(r, "No items to select from"@),
            items.len() > 0 && !interactive ==> (r matches Ok(Some(s)) && s@ == items@[0]@),
            items.len() > 0 && interactive ==> r matches Ok(None::<String>),
    {
        if items.len() == 0 {
            return Err(GitXError::GitCommand(owned("No items to select from")));
        }
        if !interactive {
            return Ok(Some(owned(items[0].as_str())));
        }
        Ok(None)
    }

    /// Confirm or auto-accept in non-interactive mode: `Some(default)` without
    /// a terminal, `None` when the user is to be asked.
    pub fn confirm_or_accept(default: bool, interactive: bool) -> (r: Option<bool>)
        ensures
            !interactive ==> r == Some(default),
            interactive ==> r is None,
    {
        if !interactive {
            Some(default)
        } else {
            None
        }
    }
}

/// One step of an interactive workflow.
pub enum InteractiveStep {
    Confirm { prompt: String, default: bool },
    Select { prompt: String, items: Vec<String> },
    Input { prompt: String, default: Option<String> },
}

/// A step, written with string views.
pub enum StepView {
    Confirm(Seq<char>, bool),
    Select(Seq<char>, Seq<Seq<char>>),
    Input(Seq<char>, Option<Seq<char>>),
}

impl InteractiveStep {
    pub open spec fn step_view(&self) -> StepView {
        match self {
            InteractiveStep::Confirm { prompt, default } => StepView::Confirm(prompt@, *default),
            InteractiveStep::Select { prompt, items } => StepView::Select(prompt@, items.deep_view()),
            InteractiveStep::Input { prompt, default } => StepView::Input(
                prompt@,
                match default {
                    Some(d) => Some(d@),
                    None => None,
                },
            ),
        }
    }
}

/// The views of a list of steps.
pub open spec fn steps_view(v: Seq<InteractiveStep>) -> Seq<StepView> {
    v.map_values(|s: InteractiveStep| s.step_view())
}

/// Builder for creating complex interactive workflows
pub struct InteractiveBuilder {
    steps: Vec<InteractiveStep>,
}

impl View for InteractiveBuilder {
    type V = Seq<StepView>;

    closed spec fn view(&self) -> Seq<StepView> {
        steps_view(self.steps@)
    }
}

impl InteractiveBuilder {
    pub fn new() -> (r: Self)
        ensures
            r@ == Seq::<StepView>::empty(),
    {
        let r = Self { steps: Vec::new() };
        assert(r@ =~= Seq::<StepView>::empty());
        r
    }

    pub fn confirm(self, prompt: &str, default: bool) -> (r: Self)
        ensures
            r@ == self@.push(StepView::Confirm(prompt@, default)),
    {
        let mut s = self;
        let ghost before = s@;
        s.steps.push(InteractiveStep::Confirm { prompt: owned(prompt), default });
        assert(s@ =~= before.push(StepView::Confirm(prompt@, default)));
        s
    }

    pub fn select(self, prompt: &str, items: Vec<String>) -> (r: Self)
        ensures
            r@ == self@.push(StepView::Select(prompt@, items.deep_view())),
    {
        let mut s = self;
        let ghost before = s@;
        let ghost iv = items.deep_view();
        s.steps.push(InteractiveStep::Select { prompt: owned(prompt), items });
        assert(s@ =~= before.push(StepView::Select(prompt@, iv)));
        s
    }

    pub fn input(self, prompt: &str, default: Option<String>) -> (r: Self)
        ensures
            r@ == self@.push(
                StepView::Input(
                    prompt@,
                    match default {
                        Some(d) => Some(d@),
                        None => None,
                    },
                ),
            ),
    {
        let mut s = self;
        let ghost before = s@;
        let ghost dv = match &default {
            Some(d) => Some(d@),
            None => None::<Seq<char>>,
        };
        s.steps.push(InteractiveStep::Input { prompt: owned(prompt), default });
        assert(s@ =~= before.push(StepView::Input(prompt@, dv)));
        s
    }

    /// The steps, in order, for the caller to run.
    pub fn into_steps(self) -> (r: Vec<InteractiveStep>)
        ensures
            steps_view(r@) == self@,
    {
        self.steps
    }
}

/// The answer a dialog gave for a step: a confirmation, a selected item or
/// a typed text.
pub enum DialogAnswer {
    Confirmed(bool),
    Selected(String),
    Typed(String),
}

/// Whether a step shows a dialog: a confirmation or a selection only with a
/// terminal (and a selection only among some items); a text input always.
pub open spec fn shows_dialog(s: StepView, interactive: bool) -> bool {
    match s {
        StepView::Confirm(_, _) => interactive,
        StepView::Select(_, items) => interactive && items.len() > 0,
        StepView::Input(_, _) => true,
    }
}

/// A dialog's answer is of the kind its step asks for (or the dialog failed).
pub open spec fn answer_fits(s: StepView, a: Result<DialogAnswer>) -> bool {
    match a {
        Err(_) => true,
        Ok(x) => match s {
            StepView::Confirm(_, _) => x is Confirmed,
            StepView::Select(_, _) => x is Selected,
            StepView::Input(_, _) => x is Typed,
        },
    }
}

/// A step stops the workflow: a selection among no items, or a dialog that
/// failed.
pub open spec fn step_fails(s: StepView, interactive: bool, a: Result<DialogAnswer>) -> bool {
    (s matches StepView::Select(_, items) && items.len() == 0) || (shows_dialog(s, interactive) && a is Err)
}

/// The confirmations of the first `k` steps: the default without a
/// terminal, else the dialog's answer.
pub open spec fn confirmations_of(steps: Seq<StepView>, interactive: bool, answers: Seq<Result<DialogAnswer>>, k: nat) -> Seq<bool>
    decreases k,
{
    if k == 0 {
        Seq::empty()
    } else {
        let prev = confirmations_of(steps, interactive, answers, (k - 1) as nat);
        match steps[k - 1] {
            StepView::Confirm(_, d) => prev.push(if !interactive {
                d
            } else {
                match answers[k - 1] {
                    Ok(DialogAnswer::Confirmed(b)) => b,
                    _ => d,
                }
            }),
            _ => prev,
        }
    }
}

/// The selections of the first `k` steps: the first item without a
/// terminal, else the dialog's choice.
pub open spec fn selections_of(steps: Seq<StepView>, interactive: bool, answers: Seq<Result<DialogAnswer>>, k: nat) -> Seq<Seq<char>>
    decreases k,
{
    if k == 0 {
        Seq::empty()
    } else {
        let prev = selections_of(steps, interactive, answers, (k - 1) as nat);
        match steps[k - 1] {
            StepView::Select(_, items) => prev.push(if !interactive {
                items[0]
            } else {
                match answers[k - 1] {
                    Ok(DialogAnswer::Selected(x)) => x@,
                    _ => items[0],
                }
            }),
            _ => prev,
        }
    }
}

/// The texts typed for the input steps among the first `k`.
pub open spec fn inputs_of(steps: Seq<StepView>, answers: Seq<Result<DialogAnswer>>, k: nat) -> Seq<Seq<char>>
    decreases k,
{
    if k == 0 {
        Seq::empty()
    } else {
        let prev = inputs_of(steps, answers, (k - 1) as nat);
        match steps[k - 1] {
            StepView::Input(_, _) => prev.push(match answers[k - 1] {
                Ok(DialogAnswer::Typed(x)) => x@,
                _ => Seq::empty(),
            }),
            _ => prev,
        }
    }
}

impl InteractiveBuilder {
    /// Runs the steps in order. `interactive` says whether dialogs can be
    /// shown; `answers[i]` is what the dialog of step `i` gave, consulted
    /// only for a step that shows one (`shows_dialog`). Without a terminal a
    /// confirmation takes its default and a selection its first item; a
    /// selection among no items fails with "No items to select from"; a
    /// failed dialog stops the workflow with its error.
    pub fn execute(self, interactive: bool, answers: Vec<Result<DialogAnswer>>) -> (r: Result<InteractiveResults>)
        requires
            answers.len() == self@.len(),
            forall|i: int| 0 <= i < self@.len() && shows_dialog(self@[i], interactive) ==> answer_fits(
                #[trigger] self@[i],
                answers@[i],
            ),
        ensures
            (forall|j: int| 0 <= j < self@.len() ==> !step_fails(#[trigger] self@[j], interactive, answers@[j])) ==> (
            r matches Ok(res) && res.confirmations@ == confirmations_of(self@, interactive, answers@, self@.len())
                && res.selections.deep_view() == selections_of(self@, interactive, answers@, self@.len())
                && res.inputs.deep_view() == inputs_of(self@, answers@, self@.len())),
            forall|i: int|
                0 <= i < self@.len() && step_fails(#[trigger] self@[i], interactive, answers@[i]) && (forall|j: int|
                    0 <= j < i ==> !step_fails(self@[j], interactive, answers@[j])) ==> if (self@[i] matches StepView::Select(
                    _,
                    items,
                ) && items.len() == 0) {
                    is_git_error(r, "No items to select from"@)
                } else {
                    answers@[i] matches Err(e) && r == Err::<InteractiveResults, GitXError>(e)
                },
    {
        let ghost sv = self@;
        let ghost av = answers@;
        let mut results = InteractiveResults::new();
        let n = self.steps.len();
        let mut i: usize = 0;
        while i < n
            invariant
                n == self.steps.len(),
                sv == self@,
                sv.len() == n,
                answers@ == av,
                av.len() == n,
                0 <= i <= n,
                forall|k: int| 0 <= k < n && shows_dialog(sv[k], interactive) ==> answer_fits(#[trigger] sv[k], av[k]),
                forall|j: int| 0 <= j < i ==> !step_fails(#[trigger] sv[j], interactive, av[j]),
                results.confirmations@ == confirmations_of(sv, interactive, av, i as nat),
                results.selections.deep_view() == selections_of(sv, interactive, av, i as nat),
                results.inputs.deep_view() == inputs_of(sv, av, i as nat),
            decreases n - i,
        {
            proof {
                assert(sv[i as int] == self.steps@[i as int].step_view());
            }
            let ghost before_c = results.confirmations@;
            let ghost before_s = results.selections.deep_view();
            let ghost before_i = results.inputs.deep_view();
            match &self.steps[i] {
                InteractiveStep::Confirm { default, .. } => {
                    if !interactive {
                        results.confirmations.push(*default);
                    } else {
                        match &answers[i] {
                            Ok(DialogAnswer::Confirmed(b)) => results.confirmations.push(*b),
                            Ok(_) => {
                                assert(false);
                            },
                            Err(_) => {
                                assert(step_fails(sv[i as int], interactive, av[i as int]));
                                assert(step_fails(sv[i as int], interactive, av[i as int]));
                            return Err(take_error(answers, i));
                            },
                        }
                    }
                },
                InteractiveStep::Select { items, .. } => {
                    if items.len() == 0 {
                        assert(step_fails(sv[i as int], interactive, av[i as int]));
                        return Err(GitXError::GitCommand(owned("No items to select from")));
                    }
                    proof {
                        assert(items.deep_view()[0] == items@[0]@);
                    }
                    if !interactive {
                        results.selections.push(owned(items[0].as_str()));
                    } else {
                        match &answers[i] {
                            Ok(DialogAnswer::Selected(x)) => results.selections.push(owned(x.as_str())),
                            Ok(_) => {
                                assert(false);
                            },
                            Err(_) => {
                                assert(step_fails(sv[i as int], interactive, av[i as int]));
                                assert(step_fails(sv[i as int], interactive, av[i as int]));
                            return Err(take_error(answers, i));
                            },
                        }
                    }
                },
                InteractiveStep::Input { .. } => {
                    match &answers[i] {
                        Ok(DialogAnswer::Typed(x)) => results.inputs.push(owned(x.as_str())),
                        Ok(_) => {
                            assert(false);
                        },
                        Err(_) => {
                            assert(step_fails(sv[i as int], interactive, av[i as int]));
                            return Err(take_error(answers, i));
                        },
                    }
                },
            }
            proof {
                assert(results.selections.deep_view() =~= selections_of(sv, interactive, av, (i + 1) as nat));
                assert(results.inputs.deep_view() =~= inputs_of(sv, av, (i + 1) as nat));
                assert(results.confirmations@ =~= confirmations_of(sv, interactive, av, (i + 1) as nat));
            }
            i = i + 1;
        }
        Ok(results)
    }
}

/// The error of the failed dialog at `i`, taken out of the answers.
fn take_error(answers: Vec<Result<DialogAnswer>>, i: usize) -> (r: GitXError)
    requires
        i < answers.len(),
        answers@[i as int] is Err,
    ensures
        answers@[i as int] == Err::<DialogAnswer, GitXError>(r),
{
    let mut answers = answers;
    let a = answers.remove(i);
    match a {
        Err(e) => e,
        Ok(_) => {
            proof {
                assert(false);
            }
            GitXError::GitCommand(owned(""))
        },
    }
}

/// The defaults of the confirmation steps among the first `k`.
pub open spec fn confirm_defaults(steps: Seq<StepView>, k: nat) -> Seq<bool>
    decreases k,
{
    if k == 0 {
        Seq::empty()
    } else {
        match steps[k - 1] {
            StepView::Confirm(_, d) => confirm_defaults(steps, (k - 1) as nat).push(d),
            _ => confirm_defaults(steps, (k - 1) as nat),
        }
    }
}

/// The first items of the selection steps among the first `k`.
pub open spec fn first_items(steps: Seq<StepView>, k: nat) -> Seq<Seq<char>>
    decreases k,
{
    if k == 0 {
        Seq::empty()
    } else {
        match steps[k - 1] {
            StepView::Select(_, items) => first_items(steps, (k - 1) as nat).push(items[0]),
            _ => first_items(steps, (k - 1) as nat),
        }
    }
}

/// Without a terminal a workflow shows no confirmation or selection
/// dialog: every confirmation takes its default and every selection its
/// first item, whatever the answers.
pub proof fn law_non_interactive_defaults(steps: Seq<StepView>, answers: Seq<Result<DialogAnswer>>, k: nat)
    ensures
        confirmations_of(steps, false, answers, k) == confirm_defaults(steps, k),
        selections_of(steps, false, answers, k) == first_items(steps, k),
        forall|i: int| 0 <= i < steps.len() && !(steps[i] is Input) ==> !shows_dialog(#[trigger] steps[i], false),
    decreases k,
{
    if k > 0 {
        law_non_interactive_defaults(steps, answers, (k - 1) as nat);
    }
}

impl Default for InteractiveBuilder {
    fn default() -> (r: Self)
        ensures
            r@ == Seq::<StepView>::empty(),
    {
        Self::new()
    }
}

/// The answers collected by an interactive workflow.
pub struct InteractiveResults {
    pub confirmations: Vec<bool>,
    pub selections: Vec<String>,
    pub inputs: Vec<String>,
}

impl InteractiveResults {
    pub fn new() -> (r: Self)
        ensures
            r.confirmations@ == Seq::<bool>::empty(),
            r.selections@ == Seq::<String>::empty(),
            r.inputs@ == Seq::<String>::empty(),
    {
        Self { confirmations: Vec::new(), selections: Vec::new(), inputs: Vec::new() }
    }

    pub fn get_confirmation(&self, index: usize) -> (r: Option<bool>)
        ensures
            r == (if index < self.confirmations.len() {
                Some(self.confirmations@[index as int])
            } else {
                None
            }),
    {
        if index < self.confirmations.len() {
            Some(self.confirmations[index])
        } else {
            None
        }
    }

    pub fn get_selection(&self, index: usize) -> (r: Option<&str>)
        ensures
            index < self.selections.len() ==> (r matches Some(s) && s@ == self.selections@[index as int]@),
            index >= self.selections.len() ==> r is None,
    {
        if index < self.selections.len() {
            Some(self.selections[index].as_str())
        } else {
            None
        }
    }

    pub fn get_input(&self, index: usize) -> (r: Option<&str>)
        ensures
            index < self.inputs.len() ==> (r matches Some(s) && s@ == self.inputs@[index as int]@),
            index >= self.inputs.len() ==> r is None,
    {
        if index < self.inputs.len() {
            Some(self.inputs[index].as_str())
        } else {
            None
        }
    }
}

/// Fuzzy search gives its matches best first and never more than the limit.
pub proof fn law_fuzzy_best_first(items: Seq<&str>, query: Seq<char>, limit: Option<usize>, r: Seq<(usize, i64)>)
    requires
        is_fuzzy_result(items, query, limit, r),
    ensures
        forall|a: int, b: int| 0 <= a < b < r.len() ==> (#[trigger] r[a]).1 >= (#[trigger] r[b]).1,
        limit matches Some(n) ==> r.len() <= n,
        forall|k: int| 0 <= k < r.len() ==> skim_score(items[(#[trigger] r[k]).0 as int]@, query) == Some(r[k].1),
{
    assert forall|a: int, b: int| 0 <= a < b < r.len() implies (#[trigger] r[a]).1 >= (#[trigger] r[b]).1 by {
        assert(match_before(r[a], r[b]));
    }
    assert forall|k: int| 0 <= k < r.len() implies skim_score(items[(#[trigger] r[k]).0 as int]@, query) == Some(r[k].1) by {
        assert(is_match(items, query, r[k].0 as int, r[k].1));
    }
}

} // verus!
