//! Selecting the examples a run works on.
//!
//! An optional filter pattern (a regular expression) restricts the run to the
//! examples whose name contains a match for it; without a filter every example
//! is selected.  A pattern that does not compile is a fatal startup error, so
//! selection reports it instead of selecting anything.

use vstd::prelude::*;
use vstd::seq_lib::group_seq_lib_default;

verus! {

/// Whether a pattern is a well-formed regular expression; compiling the same
/// pattern always succeeds or always fails.
pub uninterp spec fn pattern_ok(pattern: Seq<char>) -> bool;

/// Whether a text contains a match for a well-formed pattern; matching is a
/// function of the pattern and the text alone.
pub uninterp spec fn pattern_matches(pattern: Seq<char>, text: Seq<char>) -> bool;

/// Relies on regex::Regex::new: whether a pattern compiles is decided by the
/// pattern string alone.
#[verifier::external_body]
fn regex_compiles(pattern: &str) -> (r: bool)
    ensures
        r == pattern_ok(pattern@),
{
    regex::Regex::new(pattern).is_ok()
}

/// Relies on regex::Regex::new and regex::Regex::is_match: for a pattern that
/// compiles, whether the text contains a match is a function of the pattern
/// and the text alone.  The pattern is compiled afresh for the call.
#[verifier::external_body]
fn regex_contains_match(pattern: &str, text: &str) -> (r: bool)
    requires
        pattern_ok(pattern@),
    ensures
        r == pattern_matches(pattern@, text@),
{
    match regex::Regex::new(pattern) {
        Ok(re) => re.is_match(text),
        Err(_) => false,
    }
}

/// Whether a filter (or its absence) selects an example name.
pub open spec fn selects(pattern: Option<Seq<char>>, name: Seq<char>) -> bool {
    match pattern {
        None => true,
        Some(p) => pattern_matches(p, name),
    }
}

/// The selection predicate over positions in the name list.
pub open spec fn select_pred(names: Seq<Seq<char>>, pattern: Option<Seq<char>>) -> spec_fn(
    int,
) -> bool {
    |i: int| selects(pattern, names[i])
}

/// The view of an optional filter string.
pub open spec fn filter_view(filter: Option<String>) -> Option<Seq<char>> {
    match filter {
        Some(f) => Some(f@),
        None => None,
    }
}

/// The positions of the selected examples, in registry order.
pub open spec fn selected_indices(names: Seq<Seq<char>>, pattern: Option<Seq<char>>) -> Seq<int> {
    Seq::new(names.len(), |i: int| i).filter(select_pred(names, pattern))
}

/// Selects the examples whose name the filter matches; `None` reports a filter
/// pattern that does not compile, which aborts the run before any work.
pub fn select_examples(names: &Vec<String>, filter: &Option<String>) -> (r: Option<Vec<usize>>)
    ensures
        match *filter {
            Some(ref f) => r is Some <==> pattern_ok(f@),
            None => r is Some,
        },
        r matches Some(sel) ==> sel@.map_values(|u: usize| u as int) == selected_indices(
            names.deep_view(),
            filter_view(*filter),
        ),
{
    broadcast use group_seq_lib_default;

    match filter {
        Some(f) => {
            if !regex_compiles(f.as_str()) {
                return None;
            }
        },
        None => {},
    }
    let ghost fview = filter_view(*filter);
    let ghost pred = select_pred(names.deep_view(), fview);
    let mut sel: Vec<usize> = Vec::new();
    let mut j: usize = 0;
    proof {
        assert(Seq::new(0, |i: int| i).filter(pred) =~= Seq::<int>::empty()) by {
            reveal(Seq::filter);
        }
        assert(sel@.map_values(|u: usize| u as int) =~= Seq::<int>::empty());
    }
    while j < names.len()
        invariant
            j <= names@.len(),
            fview == filter_view(*filter),
            pred == select_pred(names.deep_view(), fview),
            filter matches Some(f) ==> pattern_ok(f@),
            sel@.map_values(|u: usize| u as int) == Seq::new(j as nat, |i: int| i).filter(pred),
        decreases names@.len() - j,
    {
        let name = &names[j];
        let matched = match filter {
            Some(f) => regex_contains_match(f.as_str(), name.as_str()),
            None => true,
        };
        proof {
            assert(names.deep_view()[j as int] == names@[j as int]@);
            assert(matched == pred(j as int));
            let base = Seq::new(j as nat, |i: int| i);
            let step = Seq::new((j + 1) as nat, |i: int| i);
            assert(step =~= base + seq![j as int]);
            Seq::filter_distributes_over_add(base, seq![j as int], pred);
            assert(seq![j as int].filter(pred) =~= if pred(j as int) {
                seq![j as int]
            } else {
                Seq::<int>::empty()
            }) by {
                reveal(Seq::filter);
                assert(seq![j as int].drop_last() =~= Seq::<int>::empty());
                assert(Seq::<int>::empty().filter(pred) =~= Seq::<int>::empty());
                assert(seq![j as int].last() == j as int);
            }
        }
        let ghost old_sel = sel@;
        if matched {
            sel.push(j);
            proof {
                assert(sel@.map_values(|u: usize| u as int) =~= old_sel.map_values(
                    |u: usize| u as int,
                ).push(j as int));
                assert(Seq::new((j + 1) as nat, |i: int| i).filter(pred) =~= old_sel.map_values(
                    |u: usize| u as int,
                ).push(j as int));
            }
        } else {
            proof {
                assert(Seq::new((j + 1) as nat, |i: int| i).filter(pred) =~= old_sel.map_values(
                    |u: usize| u as int,
                ));
            }
        }
        j = j + 1;
    }
    proof {
        assert(Seq::new(j as nat, |i: int| i).filter(pred) == selected_indices(
            names.deep_view(),
            fview,
        ));
    }
    Some(sel)
}

/// An example whose name the filter does not match is never selected: no
/// entry for it exists in the selection.
pub proof fn law_filter_excludes(names: Seq<Seq<char>>, pattern: Option<Seq<char>>, i: int)
    requires
        0 <= i < names.len(),
        !selects(pattern, names[i]),
    ensures
        !selected_indices(names, pattern).contains(i),
{
    let base = Seq::new(names.len(), |k: int| k);
    let pred = select_pred(names, pattern);
    let sel = selected_indices(names, pattern);
    if sel.contains(i) {
        let j = choose|j: int| 0 <= j < sel.len() && sel[j] == i;
        base.lemma_filter_pred(pred, j);
    }
}

/// An example whose name the filter matches (or any example, without a
/// filter) is selected: an entry for it exists in the selection.
pub proof fn law_filter_includes(names: Seq<Seq<char>>, pattern: Option<Seq<char>>, i: int)
    requires
        0 <= i < names.len(),
        selects(pattern, names[i]),
    ensures
        selected_indices(names, pattern).contains(i),
{
    let base = Seq::new(names.len(), |k: int| k);
    let pred = select_pred(names, pattern);
    base.lemma_filter_contains(pred, i);
}

proof fn lemma_filter_keeps_all(s: Seq<int>, pred: spec_fn(int) -> bool)
    requires
        forall|i: int| 0 <= i < s.len() ==> pred(#[trigger] s[i]),
    ensures
        s.filter(pred) == s,
    decreases s.len(),
{
    reveal(Seq::filter);
    if s.len() > 0 {
        let d = s.drop_last();
        lemma_filter_keeps_all(d, pred);
        assert(pred(s[s.len() - 1]));
        assert(s.filter(pred) =~= d.push(s.last()));
        assert(d.push(s.last()) =~= s);
    }
}

/// Without a filter, every example is selected, in registry order.
pub proof fn law_no_filter_selects_all(names: Seq<Seq<char>>)
    ensures
        selected_indices(names, None) == Seq::new(names.len(), |i: int| i),
{
    let base = Seq::new(names.len(), |k: int| k);
    lemma_filter_keeps_all(base, select_pred(names, None));
}

proof fn lemma_filter_element_of(s: Seq<int>, pred: spec_fn(int) -> bool, a: int)
    requires
        0 <= a < s.filter(pred).len(),
    ensures
        s.contains(s.filter(pred)[a]),
    decreases s.len(),
{
    reveal(Seq::filter);
    if s.len() > 0 {
        let d = s.drop_last();
        let fd = d.filter(pred);
        if pred(s.last()) && a == fd.len() {
            assert(s.filter(pred)[a] == s.last());
            assert(s[s.len() - 1] == s.last());
        } else {
            lemma_filter_element_of(d, pred, a);
            let k = choose|k: int| 0 <= k < d.len() && d[k] == fd[a];
            assert(s[k] == fd[a]);
        }
    }
}

proof fn lemma_filter_increasing(s: Seq<int>, pred: spec_fn(int) -> bool, a: int, b: int)
    requires
        forall|x: int, y: int| 0 <= x < y < s.len() ==> s[x] < s[y],
        0 <= a < b < s.filter(pred).len(),
    ensures
        s.filter(pred)[a] < s.filter(pred)[b],
    decreases s.len(),
{
    reveal(Seq::filter);
    if s.len() > 0 {
        let d = s.drop_last();
        let fd = d.filter(pred);
        if pred(s.last()) && b == fd.len() {
            lemma_filter_element_of(d, pred, a);
            let k = choose|k: int| 0 <= k < d.len() && d[k] == fd[a];
            assert(s[k] < s[s.len() - 1]);
            assert(s.filter(pred)[b] == s.last());
        } else {
            lemma_filter_increasing(d, pred, a, b);
        }
    }
}

/// The selection is order-preserving and free of repeats: entries appear in
/// strictly increasing registry order, so each selected example has exactly
/// one entry.
pub proof fn law_selection_order(names: Seq<Seq<char>>, pattern: Option<Seq<char>>, a: int, b: int)
    requires
        0 <= a < b < selected_indices(names, pattern).len(),
    ensures
        selected_indices(names, pattern)[a] < selected_indices(names, pattern)[b],
{
    let base = Seq::new(names.len(), |k: int| k);
    lemma_filter_increasing(base, select_pred(names, pattern), a, b);
}

} // verus!
