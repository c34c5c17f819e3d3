use vstd::prelude::*;

use crate::config::Config;
use crate::contains::contains_seq;
use crate::contains::contains_str;
use crate::lines::lemma_lines_last;
use crate::lines::lemma_lines_step;
use crate::lines::spec_lines;
use crate::lines::strip_cr;
use crate::lower::lower_of;
use crate::lower::lowercase;

verus! {

/// A line satisfies the query in the given mode: literal containment when
/// case-sensitive, containment of the lowercase forms otherwise.
pub open spec fn line_matches(line: Seq<char>, query: Seq<char>, case_sensitive: bool) -> bool {
    if case_sensitive {
        contains_seq(line, query)
    } else {
        contains_seq(lower_of(line), lower_of(query))
    }
}

/// The lines of `contents` that satisfy the query in the given mode, in
/// their original order and original form.
pub open spec fn search_mode_spec(
    query: Seq<char>,
    contents: Seq<char>,
    case_sensitive: bool,
) -> Seq<Seq<char>> {
    spec_lines(contents).filter(|l: Seq<char>| line_matches(l, query, case_sensitive))
}

/// The lines of `contents` that contain `query` as a literal substring, in
/// their original order.
pub open spec fn search_spec(query: Seq<char>, contents: Seq<char>) -> Seq<Seq<char>> {
    search_mode_spec(query, contents, true)
}

/// The lines of `contents` whose lowercase form contains the lowercase form
/// of `query`, in their original order and original (non-lowercased) form.
pub open spec fn search_ci_spec(query: Seq<char>, contents: Seq<char>) -> Seq<Seq<char>> {
    search_mode_spec(query, contents, false)
}

/// Whether one line satisfies the query in the given mode; `query_lower`
/// carries the precomputed lowercase form of `query` for the
/// case-insensitive mode.
fn line_match_exec(line: &str, query: &str, query_lower: &str, case_sensitive: bool) -> (b: bool)
    requires
        !case_sensitive ==> query_lower@ == lower_of(query@),
    ensures
        b == line_matches(line@, query@, case_sensitive),
{
    if case_sensitive {
        contains_str(line, query)
    } else {
        let line_lower = lowercase(line);
        contains_str(line_lower.as_str(), query_lower)
    }
}

/// Scans `contents` line by line and collects the lines that satisfy the
/// query in the given mode, in file order.
fn search_impl<'a>(query: &str, contents: &'a str, case_sensitive: bool) -> (res: Vec<&'a str>)
    ensures
        res.deep_view() == search_mode_spec(query@, contents@, case_sensitive),
{
    let ghost pred = |l: Seq<char>| line_matches(l, query@, case_sensitive);
    let query_lower: String = if case_sensitive {
        String::new()
    } else {
        lowercase(query)
    };
    let n: usize = contents.unicode_len();
    let mut res: Vec<&'a str> = Vec::new();
    let mut start: usize = 0;
    let mut i: usize = 0;
    let ghost mut done: Seq<Seq<char>> = Seq::empty();
    proof {
        assert(contents@.subrange(0, n as int) =~= contents@);
        assert(done + spec_lines(contents@) =~= spec_lines(contents@));
        assert(res.deep_view() =~= done.filter(pred));
    }
    while i < n
        invariant
            n == contents@.len(),
            !case_sensitive ==> query_lower@ == lower_of(query@),
            pred == (|l: Seq<char>| line_matches(l, query@, case_sensitive)),
            0 <= start <= i <= n,
            forall|j: int| start <= j < i ==> contents@[j] != '\n',
            spec_lines(contents@) == done + spec_lines(
                contents@.subrange(start as int, n as int),
            ),
            res.deep_view() == done.filter(pred),
        decreases n - i,
    {
        if contents.get_char(i) == '\n' {
            let end: usize = if i > start && contents.get_char(i - 1) == '\r' {
                i - 1
            } else {
                i
            };
            let line = contents.substring_char(start, end);
            proof {
                let seg = contents@.subrange(start as int, i as int);
                if end < i {
                    assert(seg.len() > 0 && seg[seg.len() - 1] == '\r');
                    assert(line@ =~= seg.drop_last());
                } else {
                    if i > start {
                        assert(seg[seg.len() - 1] == contents@[i - 1]);
                    }
                }
                assert(line@ == strip_cr(seg));
            }
            let is_match = line_match_exec(line, query, query_lower.as_str(), case_sensitive);
            let ghost res_pre = res.deep_view();
            if is_match {
                res.push(line);
            }
            proof {
                let seg = contents@.subrange(start as int, i as int);
                let suffix = contents@.subrange(start as int, n as int);
                lemma_lines_step(suffix, i - start);
                assert(suffix.subrange(0, i - start) =~= seg);
                assert(suffix.subrange(i - start + 1, suffix.len() as int) =~= contents@.subrange(
                    i + 1,
                    n as int,
                ));
                let done2 = done.push(strip_cr(seg));
                reveal(Seq::filter);
                assert(done2.drop_last() =~= done);
                assert(spec_lines(contents@) =~= done2 + spec_lines(
                    contents@.subrange(i + 1, n as int),
                ));
                assert(done2.filter(pred) == if pred(strip_cr(seg)) {
                    done.filter(pred).push(strip_cr(seg))
                } else {
                    done.filter(pred)
                });
                if is_match {
                    assert(res.deep_view() =~= res_pre.push(line@));
                }
                done = done2;
            }
            start = i + 1;
        }
        i += 1;
    }
    if start < n {
        let line = contents.substring_char(start, n);
        let is_match = line_match_exec(line, query, query_lower.as_str(), case_sensitive);
        let ghost res_pre = res.deep_view();
        if is_match {
            res.push(line);
        }
        proof {
            let suffix = contents@.subrange(start as int, n as int);
            lemma_lines_last(suffix);
            let done2 = done.push(suffix);
            reveal(Seq::filter);
            assert(done2.drop_last() =~= done);
            assert(spec_lines(contents@) =~= done2);
            assert(done2.filter(pred) == if pred(suffix) {
                done.filter(pred).push(suffix)
            } else {
                done.filter(pred)
            });
            if is_match {
                assert(res.deep_view() =~= res_pre.push(line@));
            }
        }
    } else {
        proof {
            assert(contents@.subrange(start as int, n as int) =~= Seq::<char>::empty());
            assert(spec_lines(contents@) =~= done);
        }
    }
    res
}

/// Returns exactly the lines of `contents` that contain `query` as a
/// literal substring, in their original order.
pub fn search<'a>(query: &str, contents: &'a str) -> (res: Vec<&'a str>)
    ensures
        res.deep_view() == search_spec(query@, contents@),
{
    search_impl(query, contents, true)
}

/// Returns exactly the lines of `contents` whose lowercase form contains
/// the lowercase form of `query`, in their original order, each kept in its
/// original (non-lowercased) form.
pub fn search_case_insensitive<'a>(query: &str, contents: &'a str) -> (res: Vec<&'a str>)
    ensures
        res.deep_view() == search_ci_spec(query@, contents@),
{
    search_impl(query, contents, false)
}

/// The match step of one invocation: the lines of `contents` selected under
/// the configuration's query and case-sensitivity mode.
pub fn matching_lines<'a>(config: &Config, contents: &'a str) -> (res: Vec<&'a str>)
    ensures
        res.deep_view() == search_mode_spec(config.query@, contents@, config.case_sensitive),
{
    if config.case_sensitive {
        search(config.query.as_str(), contents)
    } else {
        search_case_insensitive(config.query.as_str(), contents)
    }
}

} // verus!
