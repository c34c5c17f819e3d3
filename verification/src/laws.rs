use vstd::prelude::*;

use crate::contains::contains_seq;
use crate::contains::lemma_contains_empty;
use crate::lines::spec_lines;
use crate::lower::lower_of;
use crate::search::line_matches;
use crate::search::search_ci_spec;
use crate::search::search_mode_spec;
use crate::search::search_spec;

verus! {

/// A filter that keeps every element returns the sequence unchanged.
proof fn lemma_filter_keeps_all(s: Seq<Seq<char>>, p: spec_fn(Seq<char>) -> bool)
    requires
        forall|i: int| 0 <= i < s.len() ==> p(#[trigger] s[i]),
    ensures
        s.filter(p) == s,
    decreases s.len(),
{
    reveal(Seq::filter);
    if s.len() == 0 {
        assert(s.filter(p) =~= s);
    } else {
        assert forall|i: int| 0 <= i < s.drop_last().len() implies p(
            #[trigger] s.drop_last()[i],
        ) by {
            assert(s.drop_last()[i] == s[i]);
        }
        lemma_filter_keeps_all(s.drop_last(), p);
        assert(p(s.last()));
        assert(s.filter(p) =~= s.drop_last().push(s.last()));
        assert(s.drop_last().push(s.last()) =~= s);
    }
}

/// A filter with a weaker test keeps at least as many elements.
proof fn lemma_filter_count_mono(
    s: Seq<Seq<char>>,
    p: spec_fn(Seq<char>) -> bool,
    q: spec_fn(Seq<char>) -> bool,
)
    requires
        forall|i: int| 0 <= i < s.len() && p(#[trigger] s[i]) ==> q(s[i]),
    ensures
        s.filter(p).len() <= s.filter(q).len(),
    decreases s.len(),
{
    reveal(Seq::filter);
    if s.len() == 0 {
    } else {
        assert forall|i: int|
            0 <= i < s.drop_last().len() && p(#[trigger] s.drop_last()[i]) implies q(
            s.drop_last()[i],
        ) by {
            assert(s.drop_last()[i] == s[i]);
        }
        lemma_filter_count_mono(s.drop_last(), p, q);
        assert(s[s.len() - 1] == s.last());
    }
}

/// Every element of a filtered sequence is an element of the sequence it
/// was drawn from.
proof fn lemma_filter_in_source(s: Seq<Seq<char>>, p: spec_fn(Seq<char>) -> bool)
    ensures
        forall|i: int| 0 <= i < s.filter(p).len() ==> s.contains(#[trigger] s.filter(p)[i]),
    decreases s.len(),
{
    reveal(Seq::filter);
    if s.len() == 0 {
    } else {
        lemma_filter_in_source(s.drop_last(), p);
        assert forall|i: int| 0 <= i < s.filter(p).len() implies s.contains(
            #[trigger] s.filter(p)[i],
        ) by {
            let kept = s.drop_last().filter(p);
            if i < kept.len() {
                assert(s.filter(p)[i] == kept[i]);
                let j = choose|j: int| 0 <= j < s.drop_last().len() && s.drop_last()[j] == kept[i];
                assert(s[j] == kept[i]);
            } else {
                assert(s.filter(p)[i] == s.last());
                assert(s[s.len() - 1] == s.last());
            }
        }
    }
}

/// A search duplicates nothing and invents nothing: every line it reports,
/// in either mode, is a line of `contents`.
pub proof fn lemma_results_are_lines(query: Seq<char>, contents: Seq<char>, case_sensitive: bool)
    ensures
        forall|i: int|
            0 <= i < search_mode_spec(query, contents, case_sensitive).len() ==> spec_lines(
                contents,
            ).contains(#[trigger] search_mode_spec(query, contents, case_sensitive)[i]),
{
    let keep = |l: Seq<char>| line_matches(l, query, case_sensitive);
    lemma_filter_in_source(spec_lines(contents), keep);
}

/// An empty query matches every line: a case-sensitive search for the empty
/// string returns every line of `contents`, unchanged and in order.
pub proof fn lemma_empty_query_matches_all(contents: Seq<char>)
    ensures
        search_spec(Seq::<char>::empty(), contents) == spec_lines(contents),
{
    let keep = |l: Seq<char>| line_matches(l, Seq::<char>::empty(), true);
    assert forall|i: int| 0 <= i < spec_lines(contents).len() implies keep(
        #[trigger] spec_lines(contents)[i],
    ) by {
        lemma_contains_empty(spec_lines(contents)[i]);
    }
    lemma_filter_keeps_all(spec_lines(contents), keep);
}

/// Case-insensitive search returns at least as many lines as case-sensitive
/// search for the same query and contents, wherever lowercasing preserves
/// containment of the query in each line of the contents.
pub proof fn lemma_case_insensitive_superset(query: Seq<char>, contents: Seq<char>)
    requires
        forall|i: int|
            0 <= i < spec_lines(contents).len() && contains_seq(
                #[trigger] spec_lines(contents)[i],
                query,
            ) ==> contains_seq(lower_of(spec_lines(contents)[i]), lower_of(query)),
    ensures
        search_ci_spec(query, contents).len() >= search_spec(query, contents).len(),
{
    let keep_cs = |l: Seq<char>| line_matches(l, query, true);
    let keep_ci = |l: Seq<char>| line_matches(l, query, false);
    assert forall|i: int|
        0 <= i < spec_lines(contents).len() && keep_cs(
            #[trigger] spec_lines(contents)[i],
        ) implies keep_ci(spec_lines(contents)[i]) by {}
    lemma_filter_count_mono(spec_lines(contents), keep_cs, keep_ci);
}

} // verus!
