use vstd::prelude::*;

verus! {

/// Index of the first newline character in `s`, or `s.len()` when `s` holds
/// none.
pub open spec fn first_newline(s: Seq<char>) -> int
    decreases s.len(),
{
    if s.len() == 0 {
        0
    } else if s[0] == '\n' {
        0
    } else {
        1 + first_newline(s.drop_first())
    }
}

/// A line as it is reported: a segment that was terminated by a newline
/// loses one trailing carriage return, so that both `\n` and `\r\n` endings
/// delimit lines.
pub open spec fn strip_cr(l: Seq<char>) -> Seq<char> {
    if l.len() > 0 && l[l.len() - 1] == '\r' {
        l.drop_last()
    } else {
        l
    }
}

/// The lines of `s`: segments split at `\n` (with a `\r` directly before the
/// `\n` dropped), and no trailing empty line when `s` ends with a newline.
pub open spec fn spec_lines(s: Seq<char>) -> Seq<Seq<char>>
    decreases s.len(),
{
    if s.len() == 0 {
        Seq::empty()
    } else {
        let k = first_newline(s);
        if 0 <= k && k < s.len() {
            seq![strip_cr(s.subrange(0, k))] + spec_lines(s.subrange(k + 1, s.len() as int))
        } else {
            seq![s]
        }
    }
}

/// `first_newline` points at the first newline: nothing before it is a
/// newline, and the character there (if any) is one.
pub proof fn lemma_first_newline(s: Seq<char>)
    ensures
        0 <= first_newline(s) <= s.len(),
        forall|j: int| 0 <= j < first_newline(s) ==> s[j] != '\n',
        first_newline(s) < s.len() ==> s[first_newline(s)] == '\n',
    decreases s.len(),
{
    if s.len() == 0 {
    } else if s[0] == '\n' {
    } else {
        lemma_first_newline(s.drop_first());
        assert forall|j: int| 0 <= j < first_newline(s) implies s[j] != '\n' by {
            if j > 0 {
                assert(s.drop_first()[j - 1] != '\n');
            }
        }
    }
}

/// Splitting off one line: when the first newline of `s` stands at `k`, the
/// lines of `s` are the (stripped) segment before `k` followed by the lines
/// of what comes after `k`.
pub proof fn lemma_lines_step(s: Seq<char>, k: int)
    requires
        0 <= k < s.len(),
        s[k] == '\n',
        forall|j: int| 0 <= j < k ==> s[j] != '\n',
    ensures
        spec_lines(s) == seq![strip_cr(s.subrange(0, k))] + spec_lines(
            s.subrange(k + 1, s.len() as int),
        ),
{
    lemma_first_newline(s);
    let f = first_newline(s);
    if f < k {
        assert(s[f] != '\n');
        assert(false);
    }
    if f > k {
        assert(s[k] != '\n');
        assert(false);
    }
}

/// A non-empty text without any newline is a single line, reported whole.
pub proof fn lemma_lines_last(s: Seq<char>)
    requires
        s.len() > 0,
        forall|j: int| 0 <= j < s.len() ==> s[j] != '\n',
    ensures
        spec_lines(s) == seq![s],
{
    lemma_first_newline(s);
    if first_newline(s) < s.len() {
        assert(s[first_newline(s)] != '\n');
        assert(false);
    }
}

} // verus!
